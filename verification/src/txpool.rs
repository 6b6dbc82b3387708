//! The `txpool` read views: status counts, grouped content, inspection
//! summaries and the per-sender filter, all pure functions of one pool
//! snapshot.

use vstd::prelude::*;

use crate::grouping::{grouped_insert, AddressMap, NonceMap};
use crate::primitives::{Address, Uint256};
use crate::response::{TransactionCompat, TxResponse};
use crate::tx::{PoolTransaction, TransactionInfo};

verus! {

/// The pool's state at one instant: the full partition of pooled
/// transactions into pending (immediately includable) and queued (blocked).
#[derive(Debug, Clone, PartialEq, Eq)]
pub struct PoolSnapshot {
    /// Transactions eligible for inclusion in the next block.
    pub pending: Vec<PoolTransaction>,
    /// Transactions not yet eligible (e.g. behind a nonce gap).
    pub queued: Vec<PoolTransaction>,
}

impl PoolSnapshot {
    /// At most one transaction per (sender, nonce) within one partition.
    pub open spec fn wf_partition(txs: Seq<PoolTransaction>) -> bool {
        forall|i: int, j: int|
            0 <= i < j < txs.len() ==> !((#[trigger] txs[i]).sender == (#[trigger] txs[j]).sender
                && txs[i].nonce == txs[j].nonce)
    }

    /// The pool contract: (sender, nonce) pairs are unique within each
    /// partition and the two partitions are disjoint.
    pub open spec fn wf(self) -> bool {
        &&& Self::wf_partition(self.pending@)
        &&& Self::wf_partition(self.queued@)
        &&& forall|i: int, j: int|
            0 <= i < self.pending@.len() && 0 <= j < self.queued@.len() ==> !((
            #[trigger] self.pending@[i]).sender == (#[trigger] self.queued@[j]).sender
                && self.pending@[i].nonce == self.queued@[j].nonce)
    }
}

/// The counts-only view of the pool.
#[derive(Debug, Clone, Copy, PartialEq, Eq)]
pub struct TxpoolStatus {
    /// Number of pending transactions.
    pub pending: u64,
    /// Number of queued transactions.
    pub queued: u64,
}

/// The lightweight per-transaction view.
#[derive(Debug, Clone, Copy, PartialEq, Eq)]
pub struct TxpoolInspectSummary {
    /// Recipient, absent for a contract creation.
    pub to: Option<Address>,
    /// Transferred value.
    pub value: Uint256,
    /// Gas limit.
    pub gas: u128,
    /// Maximum fee per gas.
    pub gas_price: u128,
}

/// The inspection view: both partitions grouped by sender and nonce, each
/// transaction reduced to its summary.
#[derive(Debug, Clone, PartialEq, Eq)]
pub struct TxpoolInspect {
    /// Pending transactions, grouped.
    pub pending: AddressMap<TxpoolInspectSummary>,
    /// Queued transactions, grouped.
    pub queued: AddressMap<TxpoolInspectSummary>,
}

/// The content view: both partitions grouped by sender and nonce, each
/// transaction fully formatted.
#[derive(Debug, Clone, PartialEq, Eq)]
pub struct TxpoolContent {
    /// Pending transactions, grouped.
    pub pending: AddressMap<TxResponse>,
    /// Queued transactions, grouped.
    pub queued: AddressMap<TxResponse>,
}

/// The content view restricted to one sender.
#[derive(Debug, Clone, PartialEq, Eq)]
pub struct TxpoolContentFrom {
    /// The sender's pending transactions, keyed by nonce.
    pub pending: NonceMap<TxResponse>,
    /// The sender's queued transactions, keyed by nonce.
    pub queued: NonceMap<TxResponse>,
}

/// The inspection summary of one transaction.
pub open spec fn spec_summary(t: PoolTransaction) -> TxpoolInspectSummary {
    TxpoolInspectSummary {
        to: t.to,
        value: t.value,
        gas: t.gas_limit as u128,
        gas_price: t.max_fee_per_gas,
    }
}

/// The summary projection as a function value.
pub open spec fn summary_vf() -> spec_fn(PoolTransaction) -> TxpoolInspectSummary {
    |t: PoolTransaction| spec_summary(t)
}

/// What the content view stores for one transaction: the flavour's filled
/// response of its recovered form, with no inclusion metadata.
pub open spec fn spec_content_value<Eth: TransactionCompat>(
    eth: Eth,
    t: PoolTransaction,
) -> TxResponse {
    eth.spec_fill(t.spec_recovered(), TransactionInfo::spec_none())
}

/// The content projection as a function value.
pub open spec fn content_vf<Eth: TransactionCompat>(eth: Eth) -> spec_fn(
    PoolTransaction,
) -> TxResponse {
    |t: PoolTransaction| spec_content_value(eth, t)
}

/// One partition grouped by sender and nonce, each transaction mapped
/// through `vf`; a later transaction at the same (sender, nonce) overrides
/// an earlier one.
pub open spec fn grouped<V>(s: Seq<PoolTransaction>, vf: spec_fn(PoolTransaction) -> V) -> Map<
    Address,
    Map<u64, V>,
>
    decreases s.len(),
{
    if s.len() == 0 {
        Map::empty()
    } else {
        grouped_insert(grouped(s.drop_last(), vf), s.last().sender, s.last().nonce, vf(s.last()))
    }
}

/// A grouped map restricted to one sender: that sender's nonce map, or the
/// empty map when the sender holds no entries.
pub open spec fn spec_restrict<V>(m: Map<Address, Map<u64, V>>, a: Address) -> Map<u64, V> {
    if m.dom().contains(a) {
        m[a]
    } else {
        Map::<u64, V>::empty()
    }
}

/// A sender appears in a grouped partition exactly when one of its
/// transactions does.
pub proof fn lemma_grouped_dom<V>(s: Seq<PoolTransaction>, vf: spec_fn(PoolTransaction) -> V)
    ensures
        forall|a: Address|
            grouped(s, vf).dom().contains(a) <==> exists|i: int|
                0 <= i < s.len() && (#[trigger] s[i]).sender == a,
    decreases s.len(),
{
    if s.len() > 0 {
        let d = s.drop_last();
        lemma_grouped_dom(d, vf);
        assert forall|a: Address| grouped(s, vf).dom().contains(a) implies exists|i: int|
            0 <= i < s.len() && (#[trigger] s[i]).sender == a by {
            if s.last().sender == a {
                assert(s[s.len() - 1].sender == a);
            } else {
                assert(grouped(d, vf).dom().contains(a));
                let i = choose|i: int| 0 <= i < d.len() && (#[trigger] d[i]).sender == a;
                assert(d[i] == s[i]);
                assert(s[i].sender == a);
            }
        }
        assert forall|a: Address|
            exists|i: int| 0 <= i < s.len() && (#[trigger] s[i]).sender == a implies grouped(
            s,
            vf,
        ).dom().contains(a) by {
            let i = choose|i: int| 0 <= i < s.len() && (#[trigger] s[i]).sender == a;
            if i < s.len() - 1 {
                assert(d[i] == s[i]);
                assert(d[i].sender == a);
                assert(grouped(d, vf).dom().contains(a));
            } else {
                assert(s.last().sender == a);
            }
        }
    }
}

/// If transaction `i` is the last one at its (sender, nonce), the grouped
/// partition files exactly `vf` of it there.
pub proof fn lemma_grouped_get<V>(
    s: Seq<PoolTransaction>,
    vf: spec_fn(PoolTransaction) -> V,
    i: int,
)
    requires
        0 <= i < s.len(),
        forall|j: int|
            i < j < s.len() ==> !((#[trigger] s[j]).sender == s[i].sender && s[j].nonce
                == s[i].nonce),
    ensures
        grouped(s, vf).dom().contains(s[i].sender),
        grouped(s, vf)[s[i].sender].dom().contains(s[i].nonce),
        grouped(s, vf)[s[i].sender][s[i].nonce] == vf(s[i]),
    decreases s.len(),
{
    let d = s.drop_last();
    if i == s.len() - 1 {
        assert(s.last() == s[i]);
    } else {
        assert(forall|j: int|
            i < j < d.len() ==> !((#[trigger] d[j]).sender == d[i].sender && d[j].nonce
                == d[i].nonce));
        lemma_grouped_get(d, vf, i);
        assert(d[i] == s[i]);
        let last = s.last();
        assert(last == s[s.len() - 1]);
        if last.sender == s[i].sender {
            assert(last.nonce != s[i].nonce);
        }
    }
}

/// A (sender, nonce) pair carried by no transaction of a partition is
/// absent from its grouped view.
pub proof fn lemma_grouped_absent<V>(
    s: Seq<PoolTransaction>,
    vf: spec_fn(PoolTransaction) -> V,
    a: Address,
    n: u64,
)
    requires
        forall|i: int|
            0 <= i < s.len() ==> !((#[trigger] s[i]).sender == a && s[i].nonce == n),
    ensures
        !grouped(s, vf).dom().contains(a) || !grouped(s, vf)[a].dom().contains(n),
    decreases s.len(),
{
    if s.len() > 0 {
        let d = s.drop_last();
        assert(forall|i: int|
            0 <= i < d.len() ==> !((#[trigger] d[i]).sender == a && d[i].nonce == n));
        lemma_grouped_absent(d, vf, a, n);
        let last = s.last();
        assert(last == s[s.len() - 1]);
        if last.sender == a {
            assert(last.nonce != n);
        }
    }
}

/// Groups one partition, each transaction reduced to its summary.
fn inspect_partition(txs: &Vec<PoolTransaction>) -> (r: AddressMap<TxpoolInspectSummary>)
    ensures
        r.wf(),
        r.as_map() == grouped(txs@, summary_vf()),
{
    let mut acc = AddressMap::<TxpoolInspectSummary>::new();
    let n = txs.len();
    let mut i: usize = 0;
    while i < n
        invariant
            acc.wf(),
            n == txs@.len(),
            i <= n,
            acc.as_map() == grouped(txs@.take(i as int), summary_vf()),
        decreases n - i,
    {
        let summary = TxpoolInspectSummary {
            to: txs[i].to,
            value: txs[i].value,
            gas: txs[i].gas_limit as u128,
            gas_price: txs[i].max_fee_per_gas,
        };
        acc.insert(txs[i].sender, txs[i].nonce, summary);
        proof {
            assert(txs@.take(i as int + 1).drop_last() =~= txs@.take(i as int));
            assert(txs@.take(i as int + 1).last() == txs@[i as int]);
        }
        i += 1;
    }
    proof {
        assert(txs@.take(n as int) =~= txs@);
    }
    acc
}

/// The `txpool` read interface, polymorphic over the chain flavour that
/// formats transactions for the content views.
#[derive(Debug, Clone, PartialEq, Eq)]
pub struct TxPoolApi<Eth> {
    /// The chain flavour's response builder.
    pub tx_resp_builder: Eth,
}

impl<Eth: TransactionCompat> TxPoolApi<Eth> {
    /// Creates a new instance of the `txpool` interface.
    pub fn new(tx_resp_builder: Eth) -> (r: TxPoolApi<Eth>)
        ensures
            r.tx_resp_builder == tx_resp_builder,
    {
        TxPoolApi { tx_resp_builder }
    }

    /// Groups one partition, each transaction fully formatted.
    fn content_partition(&self, txs: &Vec<PoolTransaction>) -> (r: AddressMap<TxResponse>)
        ensures
            r.wf(),
            r.as_map() == grouped(txs@, content_vf(self.tx_resp_builder)),
    {
        let mut acc = AddressMap::<TxResponse>::new();
        let n = txs.len();
        let mut i: usize = 0;
        while i < n
            invariant
                acc.wf(),
                n == txs@.len(),
                i <= n,
                acc.as_map() == grouped(txs@.take(i as int), content_vf(self.tx_resp_builder)),
            decreases n - i,
        {
            let rec = txs[i].to_recovered_transaction();
            let info = TransactionInfo::none();
            let resp = self.tx_resp_builder.fill(&rec, &info);
            acc.insert(txs[i].sender, txs[i].nonce, resp);
            proof {
                assert(txs@.take(i as int + 1).drop_last() =~= txs@.take(i as int));
                assert(txs@.take(i as int + 1).last() == txs@[i as int]);
            }
            i += 1;
        }
        proof {
            assert(txs@.take(n as int) =~= txs@);
        }
        acc
    }

    /// The full content view of a snapshot: both partitions grouped by
    /// sender and nonce, each transaction formatted by the chain flavour.
    pub fn content(&self, snap: &PoolSnapshot) -> (r: TxpoolContent)
        ensures
            r.pending.wf(),
            r.queued.wf(),
            r.pending.as_map() == grouped(snap.pending@, content_vf(self.tx_resp_builder)),
            r.queued.as_map() == grouped(snap.queued@, content_vf(self.tx_resp_builder)),
    {
        TxpoolContent {
            pending: self.content_partition(&snap.pending),
            queued: self.content_partition(&snap.queued),
        }
    }

    /// The counts of a snapshot's two partitions.
    pub fn txpool_status(&self, snap: &PoolSnapshot) -> (r: TxpoolStatus)
        ensures
            r.pending == snap.pending@.len(),
            r.queued == snap.queued@.len(),
    {
        TxpoolStatus { pending: snap.pending.len() as u64, queued: snap.queued.len() as u64 }
    }

    /// The inspection view of a snapshot: both partitions grouped by sender
    /// and nonce, each transaction reduced to its summary.
    pub fn txpool_inspect(&self, snap: &PoolSnapshot) -> (r: TxpoolInspect)
        ensures
            r.pending.wf(),
            r.queued.wf(),
            r.pending.as_map() == grouped(snap.pending@, summary_vf()),
            r.queued.as_map() == grouped(snap.queued@, summary_vf()),
    {
        TxpoolInspect {
            pending: inspect_partition(&snap.pending),
            queued: inspect_partition(&snap.queued),
        }
    }

    /// The content view restricted to the sender `from`: each partition of
    /// `content` filtered to that one key, empty where the sender holds no
    /// entries.
    pub fn txpool_content_from(&self, snap: &PoolSnapshot, from: Address) -> (r: TxpoolContentFrom)
        ensures
            r.pending.wf(),
            r.queued.wf(),
            r.pending.as_map() == spec_restrict(
                grouped(snap.pending@, content_vf(self.tx_resp_builder)),
                from,
            ),
            r.queued.as_map() == spec_restrict(
                grouped(snap.queued@, content_vf(self.tx_resp_builder)),
                from,
            ),
    {
        let c = self.content(snap);
        TxpoolContentFrom {
            pending: c.pending.take_sender(from),
            queued: c.queued.take_sender(from),
        }
    }

    /// The full content view of a snapshot (the protocol endpoint).
    pub fn txpool_content(&self, snap: &PoolSnapshot) -> (r: TxpoolContent)
        ensures
            r.pending.wf(),
            r.queued.wf(),
            r.pending.as_map() == grouped(snap.pending@, content_vf(self.tx_resp_builder)),
            r.queued.as_map() == grouped(snap.queued@, content_vf(self.tx_resp_builder)),
    {
        self.content(snap)
    }
}

/// Status counts the snapshot exactly: the status view of a snapshot equals
/// the lengths of its two partitions (and so is never stale relative to the
/// snapshot it was taken from).
pub proof fn lemma_status_counts_snapshot(s: PoolSnapshot, r1: TxpoolStatus, r2: TxpoolStatus)
    requires
        r1.pending == s.pending@.len(),
        r1.queued == s.queued@.len(),
        r2.pending == s.pending@.len(),
        r2.queued == s.queued@.len(),
    ensures
        r1 == r2,
{
}

/// Each pending transaction of a well-formed snapshot is filed in the
/// content view under its sender and nonce, formatted by the chain flavour,
/// and the same (sender, nonce) never appears under queued.
pub proof fn lemma_content_lists_each_pending<Eth: TransactionCompat>(
    eth: Eth,
    s: PoolSnapshot,
    i: int,
)
    requires
        s.wf(),
        0 <= i < s.pending@.len(),
    ensures
        grouped(s.pending@, content_vf(eth)).dom().contains(s.pending@[i].sender),
        grouped(s.pending@, content_vf(eth))[s.pending@[i].sender].dom().contains(
            s.pending@[i].nonce,
        ),
        grouped(s.pending@, content_vf(eth))[s.pending@[i].sender][s.pending@[i].nonce]
            == spec_content_value(eth, s.pending@[i]),
        !grouped(s.queued@, content_vf(eth)).dom().contains(s.pending@[i].sender) || !grouped(
            s.queued@,
            content_vf(eth),
        )[s.pending@[i].sender].dom().contains(s.pending@[i].nonce),
{
    lemma_grouped_get(s.pending@, content_vf(eth), i);
    lemma_grouped_absent(s.queued@, content_vf(eth), s.pending@[i].sender, s.pending@[i].nonce);
}

/// The per-sender view is the content view filtered to that sender: any
/// outputs meeting the two contracts on the same snapshot agree partition by
/// partition, with the partition empty where the sender holds no entries.
pub proof fn lemma_content_from_filters_content<Eth: TransactionCompat>(
    eth: Eth,
    s: PoolSnapshot,
    a: Address,
    c: TxpoolContent,
    cf: TxpoolContentFrom,
)
    requires
        c.pending.as_map() == grouped(s.pending@, content_vf(eth)),
        c.queued.as_map() == grouped(s.queued@, content_vf(eth)),
        cf.pending.as_map() == spec_restrict(grouped(s.pending@, content_vf(eth)), a),
        cf.queued.as_map() == spec_restrict(grouped(s.queued@, content_vf(eth)), a),
    ensures
        cf.pending.as_map() == spec_restrict(c.pending.as_map(), a),
        cf.queued.as_map() == spec_restrict(c.queued.as_map(), a),
{
}

/// Aggregation is idempotent: the views any two runs of the content or
/// inspection operation return for the same snapshot value denote the same
/// maps (each operation is a pure function of the snapshot).
pub proof fn lemma_aggregation_deterministic<Eth: TransactionCompat>(
    eth: Eth,
    s: PoolSnapshot,
    c1: TxpoolContent,
    c2: TxpoolContent,
    v1: TxpoolInspect,
    v2: TxpoolInspect,
)
    requires
        c1.pending.as_map() == grouped(s.pending@, content_vf(eth)),
        c1.queued.as_map() == grouped(s.queued@, content_vf(eth)),
        c2.pending.as_map() == grouped(s.pending@, content_vf(eth)),
        c2.queued.as_map() == grouped(s.queued@, content_vf(eth)),
        v1.pending.as_map() == grouped(s.pending@, summary_vf()),
        v1.queued.as_map() == grouped(s.queued@, summary_vf()),
        v2.pending.as_map() == grouped(s.pending@, summary_vf()),
        v2.queued.as_map() == grouped(s.queued@, summary_vf()),
    ensures
        c1.pending.as_map() == c2.pending.as_map(),
        c1.queued.as_map() == c2.queued.as_map(),
        v1.pending.as_map() == v2.pending.as_map(),
        v1.queued.as_map() == v2.queued.as_map(),
{
}

} // verus!
