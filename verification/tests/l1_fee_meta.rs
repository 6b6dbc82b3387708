//! L1 fee calculator tests: the empty and exempt cases, hardfork selection,
//! the error case, and exact fee/gas values computed through the rollup
//! execution crate.

use op_txpool::l1_fee::{
    ChainSpec, L1BlockInfo, OpEthApi, OpEthApiError, OpHardfork, OptimismTxMeta,
};
use op_txpool::primitives::{Address, Hash256, Uint256};
use op_txpool::tx::PoolTransaction;

fn tx_with_envelope(envelope: Vec<u8>, is_deposit: bool) -> PoolTransaction {
    PoolTransaction {
        hash: Hash256 { hi: 0, lo: 1 },
        sender: Address { hi: 1, mid: 0, lo: 0 },
        nonce: 0,
        to: None,
        value: Uint256 { hi: 0, lo: 0 },
        gas_limit: 21_000,
        max_fee_per_gas: 0,
        envelope,
        is_deposit,
        source_hash: if is_deposit { Some(Hash256 { hi: 9, lo: 9 }) } else { None },
        mint: None,
        is_system: false,
    }
}

fn bedrock_info() -> L1BlockInfo {
    L1BlockInfo {
        l1_base_fee: 1_000,
        l1_fee_overhead: Some(1_000),
        l1_base_fee_scalar: 1_000,
        l1_blob_base_fee: None,
        l1_blob_base_fee_scalar: None,
        empty_ecotone_scalars: false,
    }
}

fn regolith_spec() -> ChainSpec {
    ChainSpec {
        bedrock_time: Some(0),
        regolith_time: Some(0),
        canyon_time: None,
        ecotone_time: None,
        fjord_time: None,
    }
}

#[test]
fn no_l1_context_gives_entirely_empty_meta() {
    let api = OpEthApi::new(regolith_spec());
    for t in [tx_with_envelope(vec![0xfa, 0xca, 0xde], false), tx_with_envelope(vec![], true)] {
        let meta = api.build_op_tx_meta(&t, None, 1_000).expect("never errs without context");
        assert_eq!(meta, OptimismTxMeta { l1_block_info: None, l1_fee: None, l1_data_gas: None });
    }
}

#[test]
fn deposit_is_exempt_from_l1_fees() {
    let api = OpEthApi::new(regolith_spec());
    let t = tx_with_envelope(vec![0x7e, 0xfa, 0xca, 0xde], true);
    let meta = api.build_op_tx_meta(&t, Some(bedrock_info()), 1_000).expect("deposit never errs");
    assert_eq!(meta.l1_block_info, Some(bedrock_info()));
    assert_eq!(meta.l1_fee, None);
    assert_eq!(meta.l1_data_gas, None);
}

#[test]
fn regolith_fee_and_gas_exact_values() {
    // 0xFACADE: 3 non-zero bytes. Regolith data gas = 3 * 16 = 48;
    // fee = (48 + overhead 1000) * base fee 1000 * scalar 1000 / 1e6 = 1048.
    let api = OpEthApi::new(regolith_spec());
    let t = tx_with_envelope(vec![0xfa, 0xca, 0xde], false);
    let meta = api.build_op_tx_meta(&t, Some(bedrock_info()), 1_000).expect("derivation succeeds");
    assert_eq!(meta.l1_block_info, Some(bedrock_info()));
    assert_eq!(meta.l1_fee, Some(1_048));
    assert_eq!(meta.l1_data_gas, Some(48));
}

#[test]
fn ecotone_fee_exact_value() {
    // calldataGas (48) * (1000 * 16 * 1000 + 1000 * 1000) / (16 * 1e6) = 51.
    let spec = ChainSpec {
        bedrock_time: Some(0),
        regolith_time: Some(0),
        canyon_time: Some(0),
        ecotone_time: Some(0),
        fjord_time: None,
    };
    let info = L1BlockInfo {
        l1_base_fee: 1_000,
        l1_fee_overhead: Some(1_000),
        l1_base_fee_scalar: 1_000,
        l1_blob_base_fee: Some(1_000),
        l1_blob_base_fee_scalar: Some(1_000),
        empty_ecotone_scalars: false,
    };
    let api = OpEthApi::new(spec);
    let t = tx_with_envelope(vec![0xfa, 0xca, 0xde], false);
    let meta = api.build_op_tx_meta(&t, Some(info), 1_000).expect("derivation succeeds");
    assert_eq!(meta.l1_fee, Some(51));
    assert_eq!(meta.l1_data_gas, Some(48));
}

#[test]
fn pre_bedrock_timestamp_is_a_fee_error() {
    let spec = ChainSpec {
        bedrock_time: Some(100),
        regolith_time: Some(200),
        canyon_time: None,
        ecotone_time: None,
        fjord_time: None,
    };
    let api = OpEthApi::new(spec);
    let t = tx_with_envelope(vec![0xfa, 0xca, 0xde], false);
    let r = api.build_op_tx_meta(&t, Some(bedrock_info()), 50);
    assert_eq!(r, Err(OpEthApiError::L1BlockFeeError));
}

#[test]
fn non_rollup_chain_is_a_fee_error() {
    let spec = ChainSpec {
        bedrock_time: None,
        regolith_time: None,
        canyon_time: None,
        ecotone_time: None,
        fjord_time: None,
    };
    let api = OpEthApi::new(spec);
    let t = tx_with_envelope(vec![0x01], false);
    let r = api.build_op_tx_meta(&t, Some(bedrock_info()), u64::MAX);
    assert_eq!(r, Err(OpEthApiError::L1BlockFeeError));
}

#[test]
fn hardfork_selection_picks_newest_active() {
    let spec = ChainSpec {
        bedrock_time: Some(0),
        regolith_time: Some(10),
        canyon_time: Some(20),
        ecotone_time: Some(30),
        fjord_time: Some(40),
    };
    assert_eq!(spec.hardfork_at(0), Some(OpHardfork::Bedrock));
    assert_eq!(spec.hardfork_at(9), Some(OpHardfork::Bedrock));
    assert_eq!(spec.hardfork_at(10), Some(OpHardfork::Regolith));
    assert_eq!(spec.hardfork_at(25), Some(OpHardfork::Canyon));
    assert_eq!(spec.hardfork_at(30), Some(OpHardfork::Ecotone));
    assert_eq!(spec.hardfork_at(1_000), Some(OpHardfork::Fjord));
}

#[test]
fn bedrock_counts_the_signature_allowance() {
    // Pre-regolith data gas adds 68 non-zero bytes: 3 * 16 + 68 * 16 = 1136;
    // fee = (1136 + 1000) * 1000 * 1000 / 1e6 = 2136.
    let spec = ChainSpec {
        bedrock_time: Some(0),
        regolith_time: None,
        canyon_time: None,
        ecotone_time: None,
        fjord_time: None,
    };
    let api = OpEthApi::new(spec);
    let t = tx_with_envelope(vec![0xfa, 0xca, 0xde], false);
    let meta = api.build_op_tx_meta(&t, Some(bedrock_info()), 1_000).expect("derivation succeeds");
    assert_eq!(meta.l1_data_gas, Some(1_136));
    assert_eq!(meta.l1_fee, Some(2_136));
}

#[test]
fn meta_constructor_and_default() {
    let m = OptimismTxMeta::new(Some(bedrock_info()), Some(1), Some(2));
    assert_eq!(m.l1_block_info, Some(bedrock_info()));
    assert_eq!(m.l1_fee, Some(1));
    assert_eq!(m.l1_data_gas, Some(2));
    let d = OptimismTxMeta::default();
    assert_eq!(d, OptimismTxMeta { l1_block_info: None, l1_fee: None, l1_data_gas: None });
}
