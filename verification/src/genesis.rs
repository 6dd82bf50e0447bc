use vstd::prelude::*;
use crate::cost_models::CostModel;
use crate::pparams::{DRepVotingThresholds, NonceVariant, PoolVotingThresholds, RationalNumber};

verus! {

/// How the Byron era charges fees: a summand plus a multiple of the size.
#[derive(Debug, Clone, Copy, PartialEq, Eq, Structural)]
pub struct TxFeePolicy {
    pub multiplier: u64,
    pub summand: u64,
}

/// The Byron block version parameters the parameter ladder reads.
#[derive(Debug, Clone, Copy, PartialEq, Eq, Structural)]
pub struct BlockVersionData {
    pub max_block_size: u64,
    pub max_header_size: u64,
    pub max_tx_size: u64,
    /// The slot duration in milliseconds.
    pub slot_duration: u64,
    pub tx_fee_policy: TxFeePolicy,
}

/// What the parameter ladder reads of a Byron genesis file.
pub struct ByronGenesis {
    pub block_version_data: BlockVersionData,
    /// The start of the chain in seconds since the Unix epoch.
    pub start_time: u64,
}

/// A protocol version as the Shelley genesis file writes it.
#[derive(Debug, Clone, Copy, PartialEq, Eq, Structural)]
pub struct ShelleyProtocolVersion {
    pub minor: u64,
    pub major: u64,
}

/// Extra entropy as the Shelley genesis file writes it: a variant and an
/// optional hash in hexadecimal.
#[derive(Debug, Clone, PartialEq)]
pub struct ExtraEntropy {
    pub tag: NonceVariant,
    pub hash: Option<String>,
}

/// The protocol parameters of a Shelley genesis file.
pub struct ShelleyProtocolParams {
    pub protocol_version: ShelleyProtocolVersion,
    pub max_tx_size: u32,
    pub max_block_body_size: u32,
    pub max_block_header_size: u32,
    pub key_deposit: u64,
    pub min_utxo_value: u64,
    pub min_fee_a: u32,
    pub min_fee_b: u32,
    pub pool_deposit: u64,
    pub n_opt: u32,
    pub min_pool_cost: u64,
    pub e_max: u64,
    pub extra_entropy: ExtraEntropy,
    pub decentralisation_param: RationalNumber,
    pub rho: RationalNumber,
    pub tau: RationalNumber,
    pub a0: RationalNumber,
}

/// What the parameter ladder reads of a Shelley genesis file.
pub struct ShelleyGenesis {
    pub epoch_length: Option<u32>,
    pub slot_length: Option<u32>,
    /// The start of the chain, in RFC 3339 form.
    pub system_start: Option<String>,
    pub protocol_params: ShelleyProtocolParams,
}

/// Execution units as the Alonzo genesis file writes them.
#[derive(Debug, Clone, Copy, PartialEq, Eq, Structural)]
pub struct GenesisExUnits {
    pub ex_units_mem: u64,
    pub ex_units_steps: u64,
}

/// Execution prices as the Alonzo genesis file writes them.
#[derive(Debug, Clone, Copy, PartialEq, Eq, Structural)]
pub struct ExecutionPrices {
    pub pr_steps: RationalNumber,
    pub pr_mem: RationalNumber,
}

/// The script languages the Alonzo genesis file declares cost models for.
#[derive(Debug, Clone, Copy, PartialEq, Eq, Structural)]
pub enum Language {
    PlutusV1,
    PlutusV2,
}

/// What the parameter ladder reads of an Alonzo genesis file.
pub struct AlonzoGenesis {
    pub lovelace_per_utxo_word: u64,
    pub execution_prices: ExecutionPrices,
    pub max_tx_ex_units: GenesisExUnits,
    pub max_block_ex_units: GenesisExUnits,
    pub max_value_size: u32,
    pub collateral_percentage: u32,
    pub max_collateral_inputs: u32,
    /// The cost model of each language, one entry per language.
    pub cost_models: Vec<(Language, CostModel)>,
}

/// What the parameter ladder reads of a Conway genesis file. The voting
/// thresholds, which the file writes as decimals, are held as the ratios
/// they are read into.
pub struct ConwayGenesis {
    pub pool_voting_thresholds: PoolVotingThresholds,
    pub d_rep_voting_thresholds: DRepVotingThresholds,
    pub committee_min_size: u64,
    pub committee_max_term_length: u32,
    pub gov_action_lifetime: u32,
    pub gov_action_deposit: u64,
    pub d_rep_deposit: u64,
    pub d_rep_activity: u32,
    pub min_fee_ref_script_cost_per_byte: u64,
    pub plutus_v3_cost_model: CostModel,
}

/// What the parameter ladder reads of a Dijkstra genesis file: the PlutusV4
/// cost model, which nothing on the chain declares.
pub struct DijkstraGenesis {
    pub plutus_v4_cost_model: CostModel,
}

/// The genesis files of a network; a Dijkstra file only where the
/// configuration names one.
pub struct Genesis {
    pub byron: ByronGenesis,
    pub shelley: ShelleyGenesis,
    pub alonzo: AlonzoGenesis,
    pub conway: ConwayGenesis,
    pub dijkstra: Option<DijkstraGenesis>,
}

} // verus!
