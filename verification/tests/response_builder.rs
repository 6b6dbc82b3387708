//! Response builder tests: the base fill and the rollup overlay, in
//! particular the absent-versus-false semantics of `isSystemTx`.

use op_txpool::primitives::{Address, Hash256, Uint256};
use op_txpool::response::{EthTxBuilder, OpTxBuilder, TransactionCompat, TxResponse};
use op_txpool::tx::{PoolTransaction, TransactionInfo};

fn addr(n: u64) -> Address {
    Address { hi: n, mid: 0, lo: 0 }
}

fn plain_tx() -> PoolTransaction {
    PoolTransaction {
        hash: Hash256 { hi: 1, lo: 2 },
        sender: addr(7),
        nonce: 11,
        to: Some(addr(8)),
        value: Uint256 { hi: 0, lo: 500 },
        gas_limit: 21_000,
        max_fee_per_gas: 1_000_000_000,
        envelope: vec![0x02, 0x01],
        is_deposit: false,
        source_hash: None,
        mint: None,
        is_system: false,
    }
}

fn deposit_tx() -> PoolTransaction {
    PoolTransaction {
        hash: Hash256 { hi: 3, lo: 4 },
        sender: addr(9),
        nonce: 0,
        to: None,
        value: Uint256 { hi: 0, lo: 0 },
        gas_limit: 1_000_000,
        max_fee_per_gas: 0,
        envelope: vec![0x7e, 0xff],
        is_deposit: true,
        source_hash: Some(Hash256 { hi: 77, lo: 88 }),
        mint: Some(123_456),
        is_system: true,
    }
}

#[test]
fn base_fill_maps_every_field() {
    let t = plain_tx();
    let rec = t.to_recovered_transaction();
    let info = TransactionInfo {
        block_hash: Some(Hash256 { hi: 10, lo: 20 }),
        block_number: Some(42),
        index: Some(3),
    };
    let resp = EthTxBuilder.fill(&rec, &info);
    let expected = TxResponse {
        hash: t.hash,
        from: t.sender,
        to: t.to,
        nonce: t.nonce,
        value: t.value,
        gas: t.gas_limit as u128,
        max_fee_per_gas: t.max_fee_per_gas,
        block_hash: info.block_hash,
        block_number: info.block_number,
        transaction_index: info.index,
        other: None,
    };
    assert_eq!(resp, expected);
}

#[test]
fn rollup_overlay_keeps_base_fields() {
    let t = plain_tx();
    let rec = t.to_recovered_transaction();
    let info = TransactionInfo::none();
    let base = EthTxBuilder.fill(&rec, &info);
    let op = OpTxBuilder { inner: EthTxBuilder }.fill(&rec, &info);
    assert_eq!(op.hash, base.hash);
    assert_eq!(op.from, base.from);
    assert_eq!(op.to, base.to);
    assert_eq!(op.nonce, base.nonce);
    assert_eq!(op.value, base.value);
    assert_eq!(op.gas, base.gas);
    assert_eq!(op.max_fee_per_gas, base.max_fee_per_gas);
    assert_eq!(op.block_hash, None);
    assert_eq!(op.block_number, None);
    assert_eq!(op.transaction_index, None);
}

#[test]
fn deposit_gets_explicit_system_tx_flag() {
    let t = deposit_tx();
    let resp = OpTxBuilder { inner: EthTxBuilder }
        .fill(&t.to_recovered_transaction(), &TransactionInfo::none());
    let other = resp.other.expect("rollup fields present");
    assert_eq!(other.is_system_tx, Some(true));
    assert_eq!(other.source_hash, Some(Hash256 { hi: 77, lo: 88 }));
    assert_eq!(other.mint, Some(123_456));
}

#[test]
fn non_system_deposit_gets_some_false() {
    let mut t = deposit_tx();
    t.is_system = false;
    let resp = OpTxBuilder { inner: EthTxBuilder }
        .fill(&t.to_recovered_transaction(), &TransactionInfo::none());
    assert_eq!(resp.other.unwrap().is_system_tx, Some(false));
}

#[test]
fn non_deposit_leaves_system_tx_absent() {
    let t = plain_tx();
    let resp = OpTxBuilder { inner: EthTxBuilder }
        .fill(&t.to_recovered_transaction(), &TransactionInfo::none());
    let other = resp.other.expect("rollup fields present");
    // Absent, not Some(false): the wire-compatibility asymmetry.
    assert_eq!(other.is_system_tx, None);
    assert_eq!(other.source_hash, None);
    assert_eq!(other.mint, None);
}
