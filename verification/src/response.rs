//! The transaction response builders, polymorphic over chain flavour.
//!
//! `TransactionCompat` is the capability a chain flavour implements to turn a
//! recovered transaction plus positional metadata into a protocol response.
//! `EthTxBuilder` is the base flavour; `OpTxBuilder` composes any base
//! builder and overlays the three rollup-only fields.

use vstd::prelude::*;

use crate::primitives::{Address, Hash256, Uint256};
use crate::tx::{RecoveredTransaction, TransactionInfo};

verus! {

/// The rollup-only extension fields of a transaction response.
///
/// `is_system_tx` is present exactly for deposit transactions; for any other
/// transaction it is absent rather than `Some(false)`, a wire-compatibility
/// requirement.
#[derive(Debug, Clone, Copy, PartialEq, Eq)]
pub struct OpTransactionFields {
    /// Deposit source hash, present for deposit-originated transactions.
    pub source_hash: Option<Hash256>,
    /// Deposit-only minted value, if any.
    pub mint: Option<u128>,
    /// Whether the deposit is a system transaction; absent for non-deposits.
    pub is_system_tx: Option<bool>,
}

/// A protocol transaction response object.
#[derive(Debug, Clone, Copy, PartialEq, Eq)]
pub struct TxResponse {
    /// Transaction hash.
    pub hash: Hash256,
    /// Verified sender.
    pub from: Address,
    /// Recipient, absent for a contract creation.
    pub to: Option<Address>,
    /// Account nonce.
    pub nonce: u64,
    /// Transferred value.
    pub value: Uint256,
    /// Gas limit.
    pub gas: u128,
    /// Maximum fee per gas.
    pub max_fee_per_gas: u128,
    /// Hash of the including block, if included.
    pub block_hash: Option<Hash256>,
    /// Number of the including block, if included.
    pub block_number: Option<u64>,
    /// Index within the including block, if included.
    pub transaction_index: Option<u64>,
    /// Chain-flavour extension slot; the rollup flavour fills it.
    pub other: Option<OpTransactionFields>,
}

/// The capability a chain flavour implements to format transactions:
/// `fill` maps a recovered transaction plus positional metadata to the
/// flavour's response shape, and is pinned to the flavour's `spec_fill`.
pub trait TransactionCompat: Sized {
    /// What `fill` returns.
    spec fn spec_fill(&self, tx: RecoveredTransaction, tx_info: TransactionInfo) -> TxResponse;

    /// Fills `tx` plus `tx_info` into the flavour's response shape.
    fn fill(&self, tx: &RecoveredTransaction, tx_info: &TransactionInfo) -> (r: TxResponse)
        ensures
            r == self.spec_fill(*tx, *tx_info),
    ;
}

/// The base chain flavour: the protocol-standard response shape, with no
/// extension fields.
#[derive(Debug, Clone, Copy, PartialEq, Eq)]
pub struct EthTxBuilder;

impl TransactionCompat for EthTxBuilder {
    open spec fn spec_fill(&self, tx: RecoveredTransaction, tx_info: TransactionInfo) -> TxResponse {
        TxResponse {
            hash: tx.hash,
            from: tx.signer,
            to: tx.to,
            nonce: tx.nonce,
            value: tx.value,
            gas: tx.gas_limit as u128,
            max_fee_per_gas: tx.max_fee_per_gas,
            block_hash: tx_info.block_hash,
            block_number: tx_info.block_number,
            transaction_index: tx_info.index,
            other: None,
        }
    }

    fn fill(&self, tx: &RecoveredTransaction, tx_info: &TransactionInfo) -> (r: TxResponse) {
        TxResponse {
            hash: tx.hash,
            from: tx.signer,
            to: tx.to,
            nonce: tx.nonce,
            value: tx.value,
            gas: tx.gas_limit as u128,
            max_fee_per_gas: tx.max_fee_per_gas,
            block_hash: tx_info.block_hash,
            block_number: tx_info.block_number,
            transaction_index: tx_info.index,
            other: None,
        }
    }
}

/// The rollup-extended fields that `OpTxBuilder` overlays for `tx`.
pub open spec fn spec_op_fields(tx: RecoveredTransaction) -> OpTransactionFields {
    OpTransactionFields {
        source_hash: tx.source_hash,
        mint: tx.mint,
        is_system_tx: if tx.is_deposit {
            Some(tx.is_system)
        } else {
            None
        },
    }
}

/// The rollup chain flavour: composes a base builder and overlays the
/// rollup-only fields onto the extension slot.
#[derive(Debug, Clone, Copy, PartialEq, Eq)]
pub struct OpTxBuilder<Eth> {
    /// The base flavour whose response is decorated.
    pub inner: Eth,
}

impl<Eth: TransactionCompat> TransactionCompat for OpTxBuilder<Eth> {
    open spec fn spec_fill(&self, tx: RecoveredTransaction, tx_info: TransactionInfo) -> TxResponse {
        TxResponse { other: Some(spec_op_fields(tx)), ..self.inner.spec_fill(tx, tx_info) }
    }

    fn fill(&self, tx: &RecoveredTransaction, tx_info: &TransactionInfo) -> (r: TxResponse) {
        let mut resp = self.inner.fill(tx, tx_info);
        resp.other = Some(
            OpTransactionFields {
                source_hash: tx.source_hash,
                mint: tx.mint,
                is_system_tx: if tx.is_deposit {
                    Some(tx.is_system)
                } else {
                    None
                },
            },
        );
        resp
    }
}

/// The rollup overlay law: the filled response of the rollup flavour always
/// carries the extension fields, with `is_system_tx` present exactly when the
/// transaction is a deposit (and absent, not `Some(false)`, otherwise), and
/// every base field taken unchanged from the composed base flavour.
pub proof fn lemma_op_fill_overlay<Eth: TransactionCompat>(
    b: OpTxBuilder<Eth>,
    tx: RecoveredTransaction,
    tx_info: TransactionInfo,
)
    ensures
        b.spec_fill(tx, tx_info).other == Some(spec_op_fields(tx)),
        tx.is_deposit ==> spec_op_fields(tx).is_system_tx == Some(tx.is_system),
        !tx.is_deposit ==> spec_op_fields(tx).is_system_tx is None,
        b.spec_fill(tx, tx_info) == (TxResponse {
            other: Some(spec_op_fields(tx)),
            ..b.inner.spec_fill(tx, tx_info)
        }),
{
}

} // verus!
