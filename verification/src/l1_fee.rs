//! L1 fee accounting for rollup transactions.
//!
//! Given L1 block context, a chain specification and a block timestamp, the
//! calculator derives the L1 data fee and L1 data gas charged to a rollup
//! transaction from its canonical encoding, or determines that none applies:
//! without L1 context the meta is entirely empty, and a deposit transaction
//! (already funded on L1) is exempt. The cost arithmetic itself is the
//! rollup execution crate's; it is reached through trusted wrappers whose
//! results are named, not restated.

use vstd::prelude::*;

use crate::tx::PoolTransaction;

use alloy_primitives::U256 as RawU256;
use op_revm::L1BlockInfo as RawL1BlockInfo;
use op_revm::OpSpecId as RawOpSpecId;

verus! {

/// The rollup hardforks that select an L1 cost function.
#[derive(Debug, Clone, Copy, PartialEq, Eq, Structural)]
pub enum OpHardfork {
    /// The first rollup fork.
    Bedrock,
    /// Regolith: drops the pre-regolith signature allowance from data gas.
    Regolith,
    /// Canyon.
    Canyon,
    /// Ecotone: blob-fee based cost function.
    Ecotone,
    /// Fjord: compressed-size based cost function.
    Fjord,
}

/// The chain specification as this library reads it: the activation
/// timestamp of each rollup hardfork, absent where the fork never activates
/// (in particular on a chain that is not a rollup).
#[derive(Debug, Clone, Copy, PartialEq, Eq)]
pub struct ChainSpec {
    /// Bedrock activation timestamp.
    pub bedrock_time: Option<u64>,
    /// Regolith activation timestamp.
    pub regolith_time: Option<u64>,
    /// Canyon activation timestamp.
    pub canyon_time: Option<u64>,
    /// Ecotone activation timestamp.
    pub ecotone_time: Option<u64>,
    /// Fjord activation timestamp.
    pub fjord_time: Option<u64>,
}

/// Whether a fork with activation time `t` is active at timestamp `ts`.
pub open spec fn spec_fork_active(t: Option<u64>, ts: u64) -> bool {
    match t {
        Some(a) => a <= ts,
        None => false,
    }
}

/// The newest hardfork active at `ts`, or `None` when not even Bedrock is
/// active (no L1 cost function applies then).
pub open spec fn spec_hardfork_at(cs: ChainSpec, ts: u64) -> Option<OpHardfork> {
    if spec_fork_active(cs.fjord_time, ts) {
        Some(OpHardfork::Fjord)
    } else if spec_fork_active(cs.ecotone_time, ts) {
        Some(OpHardfork::Ecotone)
    } else if spec_fork_active(cs.canyon_time, ts) {
        Some(OpHardfork::Canyon)
    } else if spec_fork_active(cs.regolith_time, ts) {
        Some(OpHardfork::Regolith)
    } else if spec_fork_active(cs.bedrock_time, ts) {
        Some(OpHardfork::Bedrock)
    } else {
        None
    }
}

/// Whether a fork with activation time `t` is active at timestamp `ts`.
pub fn fork_active(t: &Option<u64>, ts: u64) -> (r: bool)
    ensures
        r == spec_fork_active(*t, ts),
{
    match t {
        Some(a) => *a <= ts,
        None => false,
    }
}

impl ChainSpec {
    /// The newest hardfork active at `ts`.
    pub fn hardfork_at(&self, ts: u64) -> (r: Option<OpHardfork>)
        ensures
            r == spec_hardfork_at(*self, ts),
    {
        if fork_active(&self.fjord_time, ts) {
            Some(OpHardfork::Fjord)
        } else if fork_active(&self.ecotone_time, ts) {
            Some(OpHardfork::Ecotone)
        } else if fork_active(&self.canyon_time, ts) {
            Some(OpHardfork::Canyon)
        } else if fork_active(&self.regolith_time, ts) {
            Some(OpHardfork::Regolith)
        } else if fork_active(&self.bedrock_time, ts) {
            Some(OpHardfork::Bedrock)
        } else {
            None
        }
    }
}

/// The L1 block context the cost derivation reads: the fee fields posted on
/// L2 by the L1 attributes transaction.
#[derive(Debug, Clone, Copy, PartialEq, Eq)]
pub struct L1BlockInfo {
    /// Base fee of the L1 origin block.
    pub l1_base_fee: u128,
    /// Pre-Ecotone fee overhead, absent once Ecotone scalars are set.
    pub l1_fee_overhead: Option<u128>,
    /// L1 base fee scalar.
    pub l1_base_fee_scalar: u128,
    /// L1 blob base fee, absent before Ecotone.
    pub l1_blob_base_fee: Option<u128>,
    /// L1 blob base fee scalar, absent before Ecotone.
    pub l1_blob_base_fee_scalar: Option<u128>,
    /// Ecotone is active but its scalars have not been set yet, so the
    /// Bedrock cost function still applies.
    pub empty_ecotone_scalars: bool,
}

/// The L1 data fee (saturated into 128 bits) that the rollup execution crate
/// derives for a transaction encoding under the given context and hardfork.
pub uninterp spec fn l1_fee_of(info: L1BlockInfo, input: Seq<u8>, spec: OpHardfork) -> u128;

/// The L1 data gas (saturated into 128 bits) that the rollup execution crate
/// derives for a transaction encoding under the given context and hardfork.
pub uninterp spec fn l1_data_gas_of(info: L1BlockInfo, input: Seq<u8>, spec: OpHardfork) -> u128;

/// Relies on `op_revm::L1BlockInfo::calculate_tx_l1_cost`: on a context
/// built fresh from the given plain fields (cost cache unset), the L1 cost
/// is a function of the context fields, the input bytes and the spec alone.
#[verifier::external_body]
fn l1_tx_data_fee(info: &L1BlockInfo, input: &Vec<u8>, spec: OpHardfork) -> (r: u128)
    ensures
        r == l1_fee_of(*info, input@, spec),
{
    let sid = match spec {
        OpHardfork::Bedrock => RawOpSpecId::BEDROCK, OpHardfork::Regolith => RawOpSpecId::REGOLITH,
        OpHardfork::Canyon => RawOpSpecId::CANYON, OpHardfork::Ecotone => RawOpSpecId::ECOTONE,
        OpHardfork::Fjord => RawOpSpecId::FJORD, };
    let mut raw = RawL1BlockInfo {
        l1_base_fee: RawU256::from(info.l1_base_fee),
        l1_fee_overhead: info.l1_fee_overhead.map(RawU256::from),
        l1_base_fee_scalar: RawU256::from(info.l1_base_fee_scalar),
        l1_blob_base_fee: info.l1_blob_base_fee.map(RawU256::from),
        l1_blob_base_fee_scalar: info.l1_blob_base_fee_scalar.map(RawU256::from),
        empty_ecotone_scalars: info.empty_ecotone_scalars,
        ..Default::default() };
    raw.calculate_tx_l1_cost(input.as_slice(), sid).saturating_to::<u128>()
}

/// Relies on `op_revm::L1BlockInfo::data_gas`: on a context built fresh from
/// the given plain fields, the L1 data gas is a function of the context
/// fields, the input bytes and the spec alone.
#[verifier::external_body]
fn l1_data_gas(info: &L1BlockInfo, input: &Vec<u8>, spec: OpHardfork) -> (r: u128)
    ensures
        r == l1_data_gas_of(*info, input@, spec),
{
    let sid = match spec {
        OpHardfork::Bedrock => RawOpSpecId::BEDROCK, OpHardfork::Regolith => RawOpSpecId::REGOLITH,
        OpHardfork::Canyon => RawOpSpecId::CANYON, OpHardfork::Ecotone => RawOpSpecId::ECOTONE,
        OpHardfork::Fjord => RawOpSpecId::FJORD, };
    let raw = RawL1BlockInfo {
        l1_base_fee: RawU256::from(info.l1_base_fee),
        l1_fee_overhead: info.l1_fee_overhead.map(RawU256::from),
        l1_base_fee_scalar: RawU256::from(info.l1_base_fee_scalar),
        l1_blob_base_fee: info.l1_blob_base_fee.map(RawU256::from),
        l1_blob_base_fee_scalar: info.l1_blob_base_fee_scalar.map(RawU256::from),
        empty_ecotone_scalars: info.empty_ecotone_scalars,
        ..Default::default() };
    raw.data_gas(input.as_slice(), sid).saturating_to::<u128>()
}

/// L1 fee and data gas for a transaction, along with the L1 block info.
#[derive(Debug, Clone, Copy, PartialEq, Eq)]
pub struct OptimismTxMeta {
    /// The L1 block info.
    pub l1_block_info: Option<L1BlockInfo>,
    /// The L1 fee for the transaction.
    pub l1_fee: Option<u128>,
    /// The L1 data gas for the transaction.
    pub l1_data_gas: Option<u128>,
}

/// The entirely empty meta: what a transaction gets when no L1 block
/// context was supplied.
pub open spec fn spec_empty_meta() -> OptimismTxMeta {
    OptimismTxMeta { l1_block_info: None, l1_fee: None, l1_data_gas: None }
}

impl OptimismTxMeta {
    /// Creates a new meta from its three parts.
    pub fn new(
        l1_block_info: Option<L1BlockInfo>,
        l1_fee: Option<u128>,
        l1_data_gas: Option<u128>,
    ) -> (r: OptimismTxMeta)
        ensures
            r == (OptimismTxMeta { l1_block_info, l1_fee, l1_data_gas }),
    {
        OptimismTxMeta { l1_block_info, l1_fee, l1_data_gas }
    }
}

impl Default for OptimismTxMeta {
    /// The entirely empty meta.
    fn default() -> (r: OptimismTxMeta)
        ensures
            r == spec_empty_meta(),
    {
        OptimismTxMeta { l1_block_info: None, l1_fee: None, l1_data_gas: None }
    }
}

/// The errors of the L1 fee calculator, reported distinctly so a caller can
/// attribute the failure.
#[derive(Debug, Clone, Copy, PartialEq, Eq, Structural)]
pub enum OpEthApiError {
    /// The L1 data fee could not be derived (no rollup hardfork is active
    /// at the block timestamp).
    L1BlockFeeError,
    /// The L1 data gas could not be derived.
    L1BlockGasError,
}

/// What `build_op_tx_meta` returns: empty without L1 context; exempt (fee
/// and gas absent) for a deposit; otherwise the derived fee and gas, or the
/// fee error when no rollup hardfork is active at the timestamp.
pub open spec fn spec_build_op_tx_meta(
    cs: ChainSpec,
    tx: PoolTransaction,
    l1_block_info: Option<L1BlockInfo>,
    block_timestamp: u64,
) -> Result<OptimismTxMeta, OpEthApiError> {
    match l1_block_info {
        None => Ok(spec_empty_meta()),
        Some(info) => {
            if tx.is_deposit {
                Ok(OptimismTxMeta { l1_block_info: Some(info), l1_fee: None, l1_data_gas: None })
            } else {
                match spec_hardfork_at(cs, block_timestamp) {
                    None => Err(OpEthApiError::L1BlockFeeError),
                    Some(f) => Ok(
                        OptimismTxMeta {
                            l1_block_info: Some(info),
                            l1_fee: Some(l1_fee_of(info, tx.envelope@, f)),
                            l1_data_gas: Some(l1_data_gas_of(info, tx.envelope@, f)),
                        },
                    ),
                }
            }
        },
    }
}

/// The rollup chain's transaction-detail helper: holds the chain
/// specification and derives per-transaction L1 fee metadata.
#[derive(Debug, Clone, Copy, PartialEq, Eq)]
pub struct OpEthApi {
    /// The chain specification consulted for hardfork activation.
    pub chain_spec: ChainSpec,
}

impl OpEthApi {
    /// Creates the helper over a chain specification.
    pub fn new(chain_spec: ChainSpec) -> (r: OpEthApi)
        ensures
            r.chain_spec == chain_spec,
    {
        OpEthApi { chain_spec }
    }

    /// Builds the L1 fee meta for `tx` from the given L1 block info and
    /// block timestamp. Without L1 block info the meta is entirely empty;
    /// a deposit transaction is exempt from the L1 data fee.
    pub fn build_op_tx_meta(
        &self,
        tx: &PoolTransaction,
        l1_block_info: Option<L1BlockInfo>,
        block_timestamp: u64,
    ) -> (r: Result<OptimismTxMeta, OpEthApiError>)
        ensures
            r == spec_build_op_tx_meta(self.chain_spec, *tx, l1_block_info, block_timestamp),
    {
        let info = match l1_block_info {
            None => {
                return Ok(OptimismTxMeta::default());
            },
            Some(info) => info,
        };
        let (l1_fee, l1_data_gas) = if !tx.is_deposit {
            let f = match self.chain_spec.hardfork_at(block_timestamp) {
                Some(f) => f,
                None => {
                    return Err(OpEthApiError::L1BlockFeeError);
                },
            };
            let inner_l1_fee = l1_tx_data_fee(&info, &tx.envelope, f);
            let inner_l1_data_gas = l1_data_gas(&info, &tx.envelope, f);
            (Some(inner_l1_fee), Some(inner_l1_data_gas))
        } else {
            (None, None)
        };
        Ok(OptimismTxMeta::new(Some(info), l1_fee, l1_data_gas))
    }
}

/// The L1 fee meta cases: no L1 context gives an entirely empty meta; a
/// deposit keeps the context but never carries fee or gas, whatever the
/// timestamp; a non-deposit under an active hardfork always gets both a fee
/// and a gas value (each saturated into 128 bits by construction).
pub proof fn lemma_meta_cases(
    cs: ChainSpec,
    tx: PoolTransaction,
    info: L1BlockInfo,
    ts: u64,
)
    ensures
        spec_build_op_tx_meta(cs, tx, None, ts) == Ok::<OptimismTxMeta, OpEthApiError>(
            spec_empty_meta(),
        ),
        tx.is_deposit ==> spec_build_op_tx_meta(cs, tx, Some(info), ts) == Ok::<
            OptimismTxMeta,
            OpEthApiError,
        >(OptimismTxMeta { l1_block_info: Some(info), l1_fee: None, l1_data_gas: None }),
        !tx.is_deposit && spec_hardfork_at(cs, ts) is Some ==> (spec_build_op_tx_meta(
            cs,
            tx,
            Some(info),
            ts,
        ) matches Ok(m) && m.l1_block_info == Some(info) && m.l1_fee is Some && m.l1_data_gas
            is Some),
        !tx.is_deposit && spec_hardfork_at(cs, ts) is None ==> spec_build_op_tx_meta(
            cs,
            tx,
            Some(info),
            ts,
        ) == Err::<OptimismTxMeta, OpEthApiError>(OpEthApiError::L1BlockFeeError),
{
}

} // verus!
