//! The transaction view: the minimal read surface a pooled transaction
//! exposes to this library, and its recovered form.

use vstd::prelude::*;

use crate::primitives::{Address, Hash256, Uint256};

verus! {

/// A single pooled transaction, as this library reads it: identity, routing
/// and fee fields, the canonical raw encoding (used only for L1 fee
/// derivation), and the deposit-specific fields of the rollup flavour.
#[derive(Debug, Clone, PartialEq, Eq)]
pub struct PoolTransaction {
    /// Transaction hash.
    pub hash: Hash256,
    /// The account that signed the transaction.
    pub sender: Address,
    /// Account nonce.
    pub nonce: u64,
    /// Recipient, absent for a contract creation.
    pub to: Option<Address>,
    /// Transferred value.
    pub value: Uint256,
    /// Gas limit.
    pub gas_limit: u64,
    /// Maximum fee per gas.
    pub max_fee_per_gas: u128,
    /// The canonical (envelope) encoding of the signed transaction.
    pub envelope: Vec<u8>,
    /// Whether this is a rollup deposit transaction, originated on L1.
    pub is_deposit: bool,
    /// Deposit source hash; present only for deposit transactions.
    pub source_hash: Option<Hash256>,
    /// Deposit minted value, if any; present only for deposit transactions.
    pub mint: Option<u128>,
    /// Whether a deposit transaction is a system transaction.
    pub is_system: bool,
}

impl PoolTransaction {
    /// The deposit-only fields are empty on a non-deposit transaction.
    pub open spec fn wf(self) -> bool {
        !self.is_deposit ==> self.source_hash is None && self.mint is None && !self.is_system
    }

    /// The recovered form of this transaction: its value projections paired
    /// with the verified sender identity.
    pub open spec fn spec_recovered(self) -> RecoveredTransaction {
        RecoveredTransaction {
            hash: self.hash,
            signer: self.sender,
            nonce: self.nonce,
            to: self.to,
            value: self.value,
            gas_limit: self.gas_limit,
            max_fee_per_gas: self.max_fee_per_gas,
            is_deposit: self.is_deposit,
            source_hash: self.source_hash,
            mint: self.mint,
            is_system: self.is_system,
        }
    }

    /// The account that signed the transaction.
    pub fn sender(&self) -> (r: Address)
        ensures
            r == self.sender,
    {
        self.sender
    }

    /// The account nonce.
    pub fn nonce(&self) -> (r: u64)
        ensures
            r == self.nonce,
    {
        self.nonce
    }

    /// The recipient, absent for a contract creation.
    pub fn to(&self) -> (r: Option<Address>)
        ensures
            r == self.to,
    {
        self.to
    }

    /// The transferred value.
    pub fn value(&self) -> (r: Uint256)
        ensures
            r == self.value,
    {
        self.value
    }

    /// The gas limit.
    pub fn gas_limit(&self) -> (r: u64)
        ensures
            r == self.gas_limit,
    {
        self.gas_limit
    }

    /// The maximum fee per gas.
    pub fn max_fee_per_gas(&self) -> (r: u128)
        ensures
            r == self.max_fee_per_gas,
    {
        self.max_fee_per_gas
    }

    /// Whether this is a rollup deposit transaction.
    pub fn is_deposit(&self) -> (r: bool)
        ensures
            r == self.is_deposit,
    {
        self.is_deposit
    }

    /// The canonical (envelope) encoding of the signed transaction.
    pub fn envelope_encoded(&self) -> (r: &Vec<u8>)
        ensures
            r@ == self.envelope@,
    {
        &self.envelope
    }

    /// Attaches the verified sender to the transaction's value projections.
    pub fn to_recovered_transaction(&self) -> (r: RecoveredTransaction)
        ensures
            r == self.spec_recovered(),
    {
        RecoveredTransaction {
            hash: self.hash,
            signer: self.sender,
            nonce: self.nonce,
            to: self.to,
            value: self.value,
            gas_limit: self.gas_limit,
            max_fee_per_gas: self.max_fee_per_gas,
            is_deposit: self.is_deposit,
            source_hash: self.source_hash,
            mint: self.mint,
            is_system: self.is_system,
        }
    }
}

/// A transaction paired with its cryptographically verified sender, carrying
/// every value projection the response builders read.
#[derive(Debug, Clone, Copy, PartialEq, Eq)]
pub struct RecoveredTransaction {
    /// Transaction hash.
    pub hash: Hash256,
    /// The verified sender.
    pub signer: Address,
    /// Account nonce.
    pub nonce: u64,
    /// Recipient, absent for a contract creation.
    pub to: Option<Address>,
    /// Transferred value.
    pub value: Uint256,
    /// Gas limit.
    pub gas_limit: u64,
    /// Maximum fee per gas.
    pub max_fee_per_gas: u128,
    /// Whether this is a rollup deposit transaction.
    pub is_deposit: bool,
    /// Deposit source hash; present only for deposit transactions.
    pub source_hash: Option<Hash256>,
    /// Deposit minted value; present only for deposit transactions.
    pub mint: Option<u128>,
    /// Whether a deposit transaction is a system transaction.
    pub is_system: bool,
}

/// Positional metadata needed to fill a response: where (if anywhere) the
/// transaction was included. All fields are absent for a pooled transaction.
#[derive(Debug, Clone, Copy, PartialEq, Eq)]
pub struct TransactionInfo {
    /// Hash of the including block, if included.
    pub block_hash: Option<Hash256>,
    /// Number of the including block, if included.
    pub block_number: Option<u64>,
    /// Index within the including block, if included.
    pub index: Option<u64>,
}

impl TransactionInfo {
    /// The metadata of a transaction not yet included anywhere.
    pub open spec fn spec_none() -> TransactionInfo {
        TransactionInfo { block_hash: None, block_number: None, index: None }
    }

    /// The metadata of a transaction not yet included anywhere.
    pub fn none() -> (r: TransactionInfo)
        ensures
            r == TransactionInfo::spec_none(),
    {
        TransactionInfo { block_hash: None, block_number: None, index: None }
    }
}

} // verus!
