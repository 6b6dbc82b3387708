//! Executable sender/nonce grouping structures.
//!
//! `NonceMap` holds one sender's transactions keyed by nonce (with the
//! nonce's decimal string alongside, the form the wire format keys by), and
//! `AddressMap` groups nonce maps by sender. Both are association lists in
//! first-appearance order; their contracts speak of the denoted maps, and
//! inserting an existing key replaces its value (last write wins).

use vstd::prelude::*;

use crate::assoc::{
    assoc_map, lemma_assoc_map_dom, lemma_assoc_map_get, lemma_assoc_map_push,
    lemma_assoc_map_update, lemma_remove_insert_is_update,
};
use crate::nonce_key::{dec_of, nonce_key};
use crate::primitives::Address;

verus! {

/// One transaction slot of a sender: the nonce, its decimal rendering (the
/// wire key), and the stored view of the transaction.
#[derive(Debug, Clone, PartialEq, Eq)]
pub struct NonceEntry<V> {
    /// The account nonce.
    pub nonce: u64,
    /// The nonce rendered in decimal: the key the wire format uses.
    pub key: String,
    /// The stored view of the transaction.
    pub value: V,
}

/// One sender's transactions, keyed by nonce.
#[derive(Debug, Clone, PartialEq, Eq)]
pub struct NonceMap<V> {
    /// The entries, in first-insertion order, nonces unique.
    pub entries: Vec<NonceEntry<V>>,
}

/// The key projection of a nonce entry.
pub open spec fn nonce_of<V>() -> spec_fn(NonceEntry<V>) -> u64 {
    |e: NonceEntry<V>| e.nonce
}

/// The value projection of a nonce entry.
pub open spec fn value_of<V>() -> spec_fn(NonceEntry<V>) -> V {
    |e: NonceEntry<V>| e.value
}

impl<V> NonceMap<V> {
    /// Nonces are unique and each stored key is the nonce's decimal form.
    pub open spec fn wf(self) -> bool {
        &&& forall|i: int, j: int|
            0 <= i < j < self.entries@.len() ==> (#[trigger] self.entries@[i]).nonce != (
            #[trigger] self.entries@[j]).nonce
        &&& forall|i: int|
            0 <= i < self.entries@.len() ==> (#[trigger] self.entries@[i]).key@ == dec_of(
                self.entries@[i].nonce as nat,
            )
    }

    /// The map this nonce map denotes.
    pub open spec fn as_map(self) -> Map<u64, V> {
        assoc_map(self.entries@, nonce_of::<V>(), value_of::<V>())
    }

    /// An empty nonce map.
    pub fn new() -> (r: NonceMap<V>)
        ensures
            r.wf(),
            r.as_map() == Map::<u64, V>::empty(),
    {
        NonceMap { entries: Vec::new() }
    }

    /// Inserts `value` under `nonce`, replacing any value already there.
    pub fn insert(&mut self, nonce: u64, value: V)
        requires
            old(self).wf(),
        ensures
            final(self).wf(),
            final(self).as_map() == old(self).as_map().insert(nonce, value),
    {
        let n = self.entries.len();
        let mut i: usize = 0;
        while i < n
            invariant
                *self == *old(self),
                old(self).wf(),
                n == self.entries@.len(),
                i <= n,
                forall|j: int| 0 <= j < i ==> (#[trigger] self.entries@[j]).nonce != nonce,
            decreases n - i,
        {
            if self.entries[i].nonce == nonce {
                let mut e = self.entries.remove(i);
                e.value = value;
                self.entries.insert(i, e);
                proof {
                    let s0 = old(self).entries@;
                    lemma_remove_insert_is_update(s0, i as int, e);
                    assert(self.entries@ == s0.update(i as int, e));
                    assert(forall|j: int|
                        0 <= j < s0.len() && j != i ==> (#[trigger] s0[j]).nonce != s0[i as int].nonce);
                    lemma_assoc_map_update(s0, nonce_of::<V>(), value_of::<V>(), i as int, e);
                    assert forall|a: int, b: int|
                        0 <= a < b < self.entries@.len() implies (#[trigger] self.entries@[a]).nonce
                        != (#[trigger] self.entries@[b]).nonce by {
                        assert(self.entries@[a].nonce == s0[a].nonce);
                        assert(self.entries@[b].nonce == s0[b].nonce);
                    }
                }
                return ;
            }
            i += 1;
        }
        let key = nonce_key(nonce);
        let e = NonceEntry { nonce, key, value };
        self.entries.push(e);
        proof {
            lemma_assoc_map_push(old(self).entries@, nonce_of::<V>(), value_of::<V>(), e);
        }
    }

    /// Looks up the value stored under `nonce`.
    pub fn get(&self, nonce: u64) -> (r: Option<&V>)
        requires
            self.wf(),
        ensures
            (match r {
                Some(v) => self.as_map().dom().contains(nonce) && *v == self.as_map()[nonce],
                None => !self.as_map().dom().contains(nonce),
            }),
    {
        let n = self.entries.len();
        let mut i: usize = 0;
        while i < n
            invariant
                self.wf(),
                n == self.entries@.len(),
                i <= n,
                forall|j: int| 0 <= j < i ==> (#[trigger] self.entries@[j]).nonce != nonce,
            decreases n - i,
        {
            if self.entries[i].nonce == nonce {
                proof {
                    lemma_assoc_map_get(self.entries@, nonce_of::<V>(), value_of::<V>(), i as int);
                }
                return Some(&self.entries[i].value);
            }
            i += 1;
        }
        proof {
            lemma_assoc_map_dom(self.entries@, nonce_of::<V>(), value_of::<V>());
        }
        None
    }

    /// The number of transactions held.
    pub fn len(&self) -> (r: usize)
        ensures
            r == self.entries@.len(),
    {
        self.entries.len()
    }
}

/// In a well-formed nonce map the decimal string keys are as unique as the
/// nonces they render: no two entries carry the same wire key.
pub proof fn lemma_nonce_keys_unique<V>(m: NonceMap<V>, i: int, j: int)
    requires
        m.wf(),
        0 <= i < m.entries@.len(),
        0 <= j < m.entries@.len(),
        i != j,
    ensures
        m.entries@[i].key@ != m.entries@[j].key@,
{
    if m.entries@[i].key@ == m.entries@[j].key@ {
        crate::nonce_key::lemma_dec_of_injective(
            m.entries@[i].nonce as nat,
            m.entries@[j].nonce as nat,
        );
    }
}

/// One sender's slot in a grouped view.
#[derive(Debug, Clone, PartialEq, Eq)]
pub struct SenderEntry<V> {
    /// The sender.
    pub sender: Address,
    /// The sender's transactions, keyed by nonce.
    pub txs: NonceMap<V>,
}

/// A grouped view: each sender's transactions keyed by nonce.
#[derive(Debug, Clone, PartialEq, Eq)]
pub struct AddressMap<V> {
    /// The entries, in first-insertion order, senders unique.
    pub entries: Vec<SenderEntry<V>>,
}

/// The key projection of a sender entry.
pub open spec fn sender_of<V>() -> spec_fn(SenderEntry<V>) -> Address {
    |e: SenderEntry<V>| e.sender
}

/// The denoted-map projection of a sender entry.
pub open spec fn txs_of<V>() -> spec_fn(SenderEntry<V>) -> Map<u64, V> {
    |e: SenderEntry<V>| e.txs.as_map()
}

/// Inserting into a grouped map: the sender's (possibly empty) nonce map
/// gains `value` under `nonce`.
pub open spec fn grouped_insert<V>(
    m: Map<Address, Map<u64, V>>,
    sender: Address,
    nonce: u64,
    value: V,
) -> Map<Address, Map<u64, V>> {
    let inner = if m.dom().contains(sender) {
        m[sender]
    } else {
        Map::<u64, V>::empty()
    };
    m.insert(sender, inner.insert(nonce, value))
}

impl<V> AddressMap<V> {
    /// Senders are unique and each sender's nonce map is well formed.
    pub open spec fn wf(self) -> bool {
        &&& forall|i: int, j: int|
            0 <= i < j < self.entries@.len() ==> (#[trigger] self.entries@[i]).sender != (
            #[trigger] self.entries@[j]).sender
        &&& forall|i: int| 0 <= i < self.entries@.len() ==> (#[trigger] self.entries@[i]).txs.wf()
    }

    /// The sender-to-nonce-map mapping this grouped view denotes.
    pub open spec fn as_map(self) -> Map<Address, Map<u64, V>> {
        assoc_map(self.entries@, sender_of::<V>(), txs_of::<V>())
    }

    /// An empty grouped view.
    pub fn new() -> (r: AddressMap<V>)
        ensures
            r.wf(),
            r.as_map() == Map::<Address, Map<u64, V>>::empty(),
    {
        AddressMap { entries: Vec::new() }
    }

    /// Files `value` under `sender` and `nonce`, replacing any value already
    /// at that position (last write wins).
    pub fn insert(&mut self, sender: Address, nonce: u64, value: V)
        requires
            old(self).wf(),
        ensures
            final(self).wf(),
            final(self).as_map() == grouped_insert(old(self).as_map(), sender, nonce, value),
    {
        let n = self.entries.len();
        let mut i: usize = 0;
        while i < n
            invariant
                *self == *old(self),
                old(self).wf(),
                n == self.entries@.len(),
                i <= n,
                forall|j: int| 0 <= j < i ==> (#[trigger] self.entries@[j]).sender != sender,
            decreases n - i,
        {
            if self.entries[i].sender == sender {
                let mut e = self.entries.remove(i);
                e.txs.insert(nonce, value);
                self.entries.insert(i, e);
                proof {
                    let s0 = old(self).entries@;
                    assert(forall|j: int|
                        0 <= j < s0.len() && j != i ==> (#[trigger] s0[j]).sender != s0[i as int].sender);
                    lemma_assoc_map_get(s0, sender_of::<V>(), txs_of::<V>(), i as int);
                    lemma_remove_insert_is_update(s0, i as int, e);
                    assert(self.entries@ == s0.update(i as int, e));
                    lemma_assoc_map_update(s0, sender_of::<V>(), txs_of::<V>(), i as int, e);
                    assert forall|a: int, b: int|
                        0 <= a < b < self.entries@.len() implies (#[trigger] self.entries@[a]).sender
                        != (#[trigger] self.entries@[b]).sender by {
                        assert(self.entries@[a].sender == s0[a].sender);
                        assert(self.entries@[b].sender == s0[b].sender);
                    }
                    assert forall|a: int|
                        0 <= a < self.entries@.len() implies (#[trigger] self.entries@[a]).txs.wf() by {
                        if a != i {
                            assert(self.entries@[a] == s0[a]);
                        }
                    }
                }
                return ;
            }
            i += 1;
        }
        let mut txs = NonceMap::new();
        txs.insert(nonce, value);
        let e = SenderEntry { sender, txs };
        self.entries.push(e);
        proof {
            lemma_assoc_map_dom(old(self).entries@, sender_of::<V>(), txs_of::<V>());
            assert(!old(self).as_map().dom().contains(sender));
            lemma_assoc_map_push(old(self).entries@, sender_of::<V>(), txs_of::<V>(), e);
        }
    }

    /// Looks up one sender's transactions.
    pub fn get(&self, sender: Address) -> (r: Option<&NonceMap<V>>)
        requires
            self.wf(),
        ensures
            (match r {
                Some(m) => self.as_map().dom().contains(sender) && m.wf() && m.as_map()
                    == self.as_map()[sender],
                None => !self.as_map().dom().contains(sender),
            }),
    {
        let n = self.entries.len();
        let mut i: usize = 0;
        while i < n
            invariant
                self.wf(),
                n == self.entries@.len(),
                i <= n,
                forall|j: int| 0 <= j < i ==> (#[trigger] self.entries@[j]).sender != sender,
            decreases n - i,
        {
            if self.entries[i].sender == sender {
                proof {
                    lemma_assoc_map_get(self.entries@, sender_of::<V>(), txs_of::<V>(), i as int);
                }
                return Some(&self.entries[i].txs);
            }
            i += 1;
        }
        proof {
            lemma_assoc_map_dom(self.entries@, sender_of::<V>(), txs_of::<V>());
        }
        None
    }

    /// Takes one sender's transactions out of the view, or an empty nonce
    /// map if the sender holds no entries.
    pub fn take_sender(self, sender: Address) -> (r: NonceMap<V>)
        requires
            self.wf(),
        ensures
            r.wf(),
            r.as_map() == (if self.as_map().dom().contains(sender) {
                self.as_map()[sender]
            } else {
                Map::<u64, V>::empty()
            }),
    {
        let mut entries = self.entries;
        let ghost s0 = entries@;
        let n = entries.len();
        let mut i: usize = 0;
        while i < n
            invariant
                entries@ == s0,
                self.entries@ == s0,
                self.wf(),
                n == s0.len(),
                i <= n,
                forall|j: int| 0 <= j < i ==> (#[trigger] s0[j]).sender != sender,
            decreases n - i,
        {
            if entries[i].sender == sender {
                proof {
                    lemma_assoc_map_get(s0, sender_of::<V>(), txs_of::<V>(), i as int);
                }
                let e = entries.remove(i);
                return e.txs;
            }
            i += 1;
        }
        proof {
            lemma_assoc_map_dom(s0, sender_of::<V>(), txs_of::<V>());
        }
        NonceMap::new()
    }

    /// The number of senders with entries.
    pub fn len(&self) -> (r: usize)
        ensures
            r == self.entries@.len(),
    {
        self.entries.len()
    }
}

} // verus!
