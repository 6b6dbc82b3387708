//! Pool view tests: status counts, grouped content, inspection summaries,
//! the per-sender filter, nonce keys and the idempotence of aggregation.

use op_txpool::grouping::{AddressMap, NonceMap};
use op_txpool::nonce_key::nonce_key;
use op_txpool::primitives::{Address, Hash256, Uint256};
use op_txpool::response::{EthTxBuilder, OpTxBuilder, TransactionCompat};
use op_txpool::tx::{PoolTransaction, TransactionInfo};
use op_txpool::txpool::{PoolSnapshot, TxPoolApi};

fn addr(n: u64) -> Address {
    Address { hi: n, mid: 0, lo: 0 }
}

fn tx(sender: u64, nonce: u64) -> PoolTransaction {
    PoolTransaction {
        hash: Hash256 { hi: sender as u128, lo: nonce as u128 },
        sender: addr(sender),
        nonce,
        to: Some(addr(sender + 1000)),
        value: Uint256 { hi: 0, lo: 10 * nonce as u128 },
        gas_limit: 21_000,
        max_fee_per_gas: 2_000_000_000,
        envelope: vec![0x02, 0xaa, 0xbb],
        is_deposit: false,
        source_hash: None,
        mint: None,
        is_system: false,
    }
}

fn api() -> TxPoolApi<OpTxBuilder<EthTxBuilder>> {
    TxPoolApi::new(OpTxBuilder { inner: EthTxBuilder })
}

#[test]
fn status_counts_partitions() {
    let snap = PoolSnapshot {
        pending: vec![tx(1, 0), tx(2, 3)],
        queued: vec![tx(3, 7), tx(3, 9), tx(4, 1)],
    };
    let status = api().txpool_status(&snap);
    assert_eq!(status.pending, 2);
    assert_eq!(status.queued, 3);
}

#[test]
fn status_of_empty_snapshot() {
    let snap = PoolSnapshot { pending: vec![], queued: vec![] };
    let status = api().txpool_status(&snap);
    assert_eq!(status.pending, 0);
    assert_eq!(status.queued, 0);
}

#[test]
fn content_groups_by_sender_and_nonce() {
    let snap = PoolSnapshot { pending: vec![tx(1, 0)], queued: vec![tx(2, 5), tx(2, 7)] };
    let a = api();
    let content = a.content(&snap);

    let by_a = content.pending.get(addr(1)).expect("sender 1 pending");
    let filled = by_a.get(0).expect("nonce 0");
    let expected =
        a.tx_resp_builder.fill(&tx(1, 0).to_recovered_transaction(), &TransactionInfo::none());
    assert_eq!(*filled, expected);
    assert!(content.pending.get(addr(2)).is_none());

    let by_b = content.queued.get(addr(2)).expect("sender 2 queued");
    assert!(by_b.get(5).is_some());
    assert!(by_b.get(7).is_some());
    assert!(by_b.get(6).is_none());
    assert!(content.queued.get(addr(1)).is_none());
}

#[test]
fn inspect_summarizes_each_transaction() {
    let t = tx(5, 12);
    let snap = PoolSnapshot { pending: vec![t.clone()], queued: vec![] };
    let inspect = api().txpool_inspect(&snap);
    let by_sender = inspect.pending.get(addr(5)).expect("sender 5");
    let s = by_sender.get(12).expect("nonce 12");
    assert_eq!(s.to, t.to);
    assert_eq!(s.value, t.value);
    assert_eq!(s.gas, t.gas_limit as u128);
    assert_eq!(s.gas_price, t.max_fee_per_gas);
    assert_eq!(inspect.queued.len(), 0);
}

#[test]
fn scenario_two_senders_three_transactions() {
    // snapshot: pending [A nonce 0], queued [B nonce 5, B nonce 7]
    let snap = PoolSnapshot { pending: vec![tx(1, 0)], queued: vec![tx(2, 5), tx(2, 7)] };
    let a = api();

    let status = a.txpool_status(&snap);
    assert_eq!((status.pending, status.queued), (1, 2));

    let content = a.content(&snap);
    assert_eq!(content.pending.len(), 1);
    assert_eq!(content.queued.len(), 1);
    let pending_a = content.pending.get(addr(1)).expect("A pending");
    assert_eq!(pending_a.len(), 1);
    assert_eq!(pending_a.entries[0].key, "0");
    let queued_b = content.queued.get(addr(2)).expect("B queued");
    assert_eq!(queued_b.len(), 2);
    let keys: Vec<&str> = queued_b.entries.iter().map(|e| e.key.as_str()).collect();
    assert!(keys.contains(&"5") && keys.contains(&"7"));

    let from_b = a.txpool_content_from(&snap, addr(2));
    assert_eq!(from_b.pending.len(), 0);
    assert_eq!(from_b.queued.len(), 2);
    assert!(from_b.queued.get(5).is_some());
    assert!(from_b.queued.get(7).is_some());
}

#[test]
fn content_from_filters_to_one_sender() {
    let snap = PoolSnapshot {
        pending: vec![tx(1, 0), tx(2, 1)],
        queued: vec![tx(1, 9)],
    };
    let a = api();
    let content = a.content(&snap);
    let from_1 = a.txpool_content_from(&snap, addr(1));
    let expected_pending = content.pending.get(addr(1)).expect("sender 1 pending");
    assert_eq!(from_1.pending, *expected_pending);
    let expected_queued = content.queued.get(addr(1)).expect("sender 1 queued");
    assert_eq!(from_1.queued, *expected_queued);

    let from_3 = a.txpool_content_from(&snap, addr(3));
    assert_eq!(from_3.pending.len(), 0);
    assert_eq!(from_3.queued.len(), 0);
}

#[test]
fn aggregation_is_idempotent_on_same_snapshot() {
    let snap = PoolSnapshot {
        pending: vec![tx(1, 0), tx(2, 3), tx(1, 1)],
        queued: vec![tx(3, 7)],
    };
    let a = api();
    assert_eq!(a.txpool_status(&snap), a.txpool_status(&snap));
    assert_eq!(a.txpool_inspect(&snap), a.txpool_inspect(&snap));
    assert_eq!(a.content(&snap), a.content(&snap));
    assert_eq!(a.txpool_content(&snap), a.txpool_content(&snap));
    assert_eq!(a.txpool_content_from(&snap, addr(1)), a.txpool_content_from(&snap, addr(1)));
}

#[test]
fn nonce_keys_are_decimal_strings() {
    assert_eq!(nonce_key(0), "0");
    assert_eq!(nonce_key(5), "5");
    assert_eq!(nonce_key(10), "10");
    assert_eq!(nonce_key(12345), "12345");
    assert_eq!(nonce_key(u64::MAX), "18446744073709551615");
}

#[test]
fn insert_replaces_value_at_same_position() {
    let mut m: NonceMap<u32> = NonceMap::new();
    m.insert(2, 10);
    m.insert(2, 20);
    m.insert(3, 30);
    assert_eq!(m.len(), 2);
    assert_eq!(*m.get(2).unwrap(), 20);
    assert_eq!(*m.get(3).unwrap(), 30);

    let mut g: AddressMap<u32> = AddressMap::new();
    g.insert(addr(1), 0, 1);
    g.insert(addr(1), 0, 2);
    g.insert(addr(2), 0, 3);
    assert_eq!(g.len(), 2);
    assert_eq!(*g.get(addr(1)).unwrap().get(0).unwrap(), 2);
    assert_eq!(*g.get(addr(2)).unwrap().get(0).unwrap(), 3);
}

#[test]
fn duplicate_pair_in_snapshot_last_write_wins() {
    // Two pending transactions at the same (sender, nonce): the later one
    // overwrites the earlier one in the grouped views.
    let mut t1 = tx(1, 4);
    t1.gas_limit = 30_000;
    let t2 = tx(1, 4);
    let snap = PoolSnapshot { pending: vec![t1, t2.clone()], queued: vec![] };
    let inspect = api().txpool_inspect(&snap);
    let s = inspect.pending.get(addr(1)).unwrap().get(4).unwrap();
    assert_eq!(s.gas, t2.gas_limit as u128);
}
