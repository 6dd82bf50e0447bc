use vstd::prelude::*;
use std::collections::BTreeMap;
use crate::cost_models::{copy_model, CostModel, CostModels};

verus! {

broadcast use vstd::std_specs::btree::group_btree_axioms;

/// A ratio of two whole numbers.
#[derive(Debug, Clone, Copy, PartialEq, Eq, Structural)]
pub struct RationalNumber {
    pub numerator: u64,
    pub denominator: u64,
}

/// Memory and steps a script may spend.
#[derive(Debug, Clone, Copy, PartialEq, Eq, Structural)]
pub struct ExUnits {
    pub mem: u64,
    pub steps: u64,
}

/// The prices of a unit of memory and of a step.
#[derive(Debug, Clone, Copy, PartialEq, Eq, Structural)]
pub struct ExUnitPrices {
    pub mem_price: RationalNumber,
    pub step_price: RationalNumber,
}

/// Whether a nonce is the neutral one or carries a hash.
#[derive(Debug, Clone, Copy, PartialEq, Eq, Structural)]
pub enum NonceVariant {
    NeutralNonce,
    Nonce,
}

/// Extra entropy mixed into the epoch nonce.
#[derive(Debug, Clone, Copy, PartialEq, Eq)]
pub struct Nonce {
    pub variant: NonceVariant,
    pub hash: Option<[u8; 32]>,
}

/// The contents of a nonce: its variant and the bytes of its hash.
pub struct NonceView {
    pub variant: NonceVariant,
    pub hash: Option<Seq<u8>>,
}

/// The contents of a nonce.
pub open spec fn nonce_view(n: Nonce) -> NonceView {
    NonceView {
        variant: n.variant,
        hash: match n.hash {
            Some(h) => Some(h@),
            None => None,
        },
    }
}

/// The shares of stake pool votes that ratify each kind of action.
#[derive(Debug, Clone, Copy, PartialEq, Eq, Structural)]
pub struct PoolVotingThresholds {
    pub motion_no_confidence: RationalNumber,
    pub committee_normal: RationalNumber,
    pub committee_no_confidence: RationalNumber,
    pub hard_fork_initiation: RationalNumber,
    pub security_voting_threshold: RationalNumber,
}

/// The shares of delegated representative votes that ratify each kind of
/// action.
#[derive(Debug, Clone, Copy, PartialEq, Eq, Structural)]
pub struct DRepVotingThresholds {
    pub motion_no_confidence: RationalNumber,
    pub committee_normal: RationalNumber,
    pub committee_no_confidence: RationalNumber,
    pub update_constitution: RationalNumber,
    pub hard_fork_initiation: RationalNumber,
    pub pp_network_group: RationalNumber,
    pub pp_economic_group: RationalNumber,
    pub pp_technical_group: RationalNumber,
    pub pp_governance_group: RationalNumber,
    pub treasury_withdrawal: RationalNumber,
}

/// The contents of a wildcard cost model map.
pub open spec fn models_view(m: Map<u64, CostModel>) -> Map<u64, Seq<i64>> {
    m.map_values(|v: CostModel| v@)
}

/// One protocol parameter and its value.
#[derive(Debug, PartialEq)]
pub enum PParamValue {
    SystemStart(u64),
    EpochLength(u64),
    SlotLength(u64),
    MinFeeA(u64),
    MinFeeB(u64),
    MaxBlockBodySize(u64),
    MaxTransactionSize(u64),
    MaxBlockHeaderSize(u64),
    KeyDeposit(u64),
    PoolDeposit(u64),
    DesiredNumberOfStakePools(u32),
    ProtocolVersion((u64, u64)),
    MinUtxoValue(u64),
    MinPoolCost(u64),
    ExpansionRate(RationalNumber),
    TreasuryGrowthRate(RationalNumber),
    MaximumEpoch(u64),
    PoolPledgeInfluence(RationalNumber),
    DecentralizationConstant(RationalNumber),
    ExtraEntropy(Nonce),
    AdaPerUtxoByte(u64),
    CostModelsPlutusV1(CostModel),
    CostModelsPlutusV2(CostModel),
    CostModelsPlutusV3(CostModel),
    CostModelsUnknown(BTreeMap<u64, CostModel>),
    ExecutionCosts(ExUnitPrices),
    MaxTxExUnits(ExUnits),
    MaxBlockExUnits(ExUnits),
    MaxValueSize(u32),
    CollateralPercentage(u32),
    MaxCollateralInputs(u32),
    PoolVotingThresholds(PoolVotingThresholds),
    DrepVotingThresholds(DRepVotingThresholds),
    MinCommitteeSize(u64),
    CommitteeTermLimit(u64),
    GovernanceActionValidityPeriod(u64),
    GovernanceActionDeposit(u64),
    DrepDeposit(u64),
    DrepInactivityPeriod(u64),
    MinFeeRefScriptCostPerByte(RationalNumber),
}

/// A set of protocol parameters, each present or absent.
#[derive(Debug, PartialEq)]
pub struct PParamsSet {
    pub system_start: Option<u64>,
    pub epoch_length: Option<u64>,
    pub slot_length: Option<u64>,
    pub min_fee_a: Option<u64>,
    pub min_fee_b: Option<u64>,
    pub max_block_body_size: Option<u64>,
    pub max_transaction_size: Option<u64>,
    pub max_block_header_size: Option<u64>,
    pub key_deposit: Option<u64>,
    pub pool_deposit: Option<u64>,
    pub desired_number_of_stake_pools: Option<u32>,
    pub protocol_version: Option<(u64, u64)>,
    pub min_utxo_value: Option<u64>,
    pub min_pool_cost: Option<u64>,
    pub expansion_rate: Option<RationalNumber>,
    pub treasury_growth_rate: Option<RationalNumber>,
    pub maximum_epoch: Option<u64>,
    pub pool_pledge_influence: Option<RationalNumber>,
    pub decentralization_constant: Option<RationalNumber>,
    pub extra_entropy: Option<Nonce>,
    pub ada_per_utxo_byte: Option<u64>,
    pub cost_models_plutus_v1: Option<CostModel>,
    pub cost_models_plutus_v2: Option<CostModel>,
    pub cost_models_plutus_v3: Option<CostModel>,
    pub cost_models_unknown: Option<BTreeMap<u64, CostModel>>,
    pub execution_costs: Option<ExUnitPrices>,
    pub max_tx_ex_units: Option<ExUnits>,
    pub max_block_ex_units: Option<ExUnits>,
    pub max_value_size: Option<u32>,
    pub collateral_percentage: Option<u32>,
    pub max_collateral_inputs: Option<u32>,
    pub pool_voting_thresholds: Option<PoolVotingThresholds>,
    pub drep_voting_thresholds: Option<DRepVotingThresholds>,
    pub min_committee_size: Option<u64>,
    pub committee_term_limit: Option<u64>,
    pub governance_action_validity_period: Option<u64>,
    pub governance_action_deposit: Option<u64>,
    pub drep_deposit: Option<u64>,
    pub drep_inactivity_period: Option<u64>,
    pub min_fee_ref_script_cost_per_byte: Option<RationalNumber>,
}

/// The contents of a parameter set: each parameter present or absent, cost
/// models by their costs.
pub struct PParams {
    pub system_start: Option<u64>,
    pub epoch_length: Option<u64>,
    pub slot_length: Option<u64>,
    pub min_fee_a: Option<u64>,
    pub min_fee_b: Option<u64>,
    pub max_block_body_size: Option<u64>,
    pub max_transaction_size: Option<u64>,
    pub max_block_header_size: Option<u64>,
    pub key_deposit: Option<u64>,
    pub pool_deposit: Option<u64>,
    pub desired_number_of_stake_pools: Option<u32>,
    pub protocol_version: Option<(u64, u64)>,
    pub min_utxo_value: Option<u64>,
    pub min_pool_cost: Option<u64>,
    pub expansion_rate: Option<RationalNumber>,
    pub treasury_growth_rate: Option<RationalNumber>,
    pub maximum_epoch: Option<u64>,
    pub pool_pledge_influence: Option<RationalNumber>,
    pub decentralization_constant: Option<RationalNumber>,
    pub extra_entropy: Option<NonceView>,
    pub ada_per_utxo_byte: Option<u64>,
    pub cost_models_plutus_v1: Option<Seq<i64>>,
    pub cost_models_plutus_v2: Option<Seq<i64>>,
    pub cost_models_plutus_v3: Option<Seq<i64>>,
    pub cost_models_unknown: Option<Map<u64, Seq<i64>>>,
    pub execution_costs: Option<ExUnitPrices>,
    pub max_tx_ex_units: Option<ExUnits>,
    pub max_block_ex_units: Option<ExUnits>,
    pub max_value_size: Option<u32>,
    pub collateral_percentage: Option<u32>,
    pub max_collateral_inputs: Option<u32>,
    pub pool_voting_thresholds: Option<PoolVotingThresholds>,
    pub drep_voting_thresholds: Option<DRepVotingThresholds>,
    pub min_committee_size: Option<u64>,
    pub committee_term_limit: Option<u64>,
    pub governance_action_validity_period: Option<u64>,
    pub governance_action_deposit: Option<u64>,
    pub drep_deposit: Option<u64>,
    pub drep_inactivity_period: Option<u64>,
    pub min_fee_ref_script_cost_per_byte: Option<RationalNumber>,
}

impl View for PParamsSet {
    type V = PParams;

    open spec fn view(&self) -> PParams {
        PParams {
            system_start: self.system_start,
            epoch_length: self.epoch_length,
            slot_length: self.slot_length,
            min_fee_a: self.min_fee_a,
            min_fee_b: self.min_fee_b,
            max_block_body_size: self.max_block_body_size,
            max_transaction_size: self.max_transaction_size,
            max_block_header_size: self.max_block_header_size,
            key_deposit: self.key_deposit,
            pool_deposit: self.pool_deposit,
            desired_number_of_stake_pools: self.desired_number_of_stake_pools,
            protocol_version: self.protocol_version,
            min_utxo_value: self.min_utxo_value,
            min_pool_cost: self.min_pool_cost,
            expansion_rate: self.expansion_rate,
            treasury_growth_rate: self.treasury_growth_rate,
            maximum_epoch: self.maximum_epoch,
            pool_pledge_influence: self.pool_pledge_influence,
            decentralization_constant: self.decentralization_constant,
            extra_entropy: match self.extra_entropy { Some(n) => Some(nonce_view(n)), None => None },
            ada_per_utxo_byte: self.ada_per_utxo_byte,
            cost_models_plutus_v1: match self.cost_models_plutus_v1 { Some(v) => Some(v@), None => None },
            cost_models_plutus_v2: match self.cost_models_plutus_v2 { Some(v) => Some(v@), None => None },
            cost_models_plutus_v3: match self.cost_models_plutus_v3 { Some(v) => Some(v@), None => None },
            cost_models_unknown: match self.cost_models_unknown { Some(m) => Some(models_view(m@)), None => None },
            execution_costs: self.execution_costs,
            max_tx_ex_units: self.max_tx_ex_units,
            max_block_ex_units: self.max_block_ex_units,
            max_value_size: self.max_value_size,
            collateral_percentage: self.collateral_percentage,
            max_collateral_inputs: self.max_collateral_inputs,
            pool_voting_thresholds: self.pool_voting_thresholds,
            drep_voting_thresholds: self.drep_voting_thresholds,
            min_committee_size: self.min_committee_size,
            committee_term_limit: self.committee_term_limit,
            governance_action_validity_period: self.governance_action_validity_period,
            governance_action_deposit: self.governance_action_deposit,
            drep_deposit: self.drep_deposit,
            drep_inactivity_period: self.drep_inactivity_period,
            min_fee_ref_script_cost_per_byte: self.min_fee_ref_script_cost_per_byte,
        }
    }
}

/// The parameter set with one parameter given a new value and every other
/// parameter left as it was.
pub open spec fn set_value(p: PParams, value: PParamValue) -> PParams {
    match value {
        PParamValue::SystemStart(x) => PParams { system_start: Some(x), ..p },
        PParamValue::EpochLength(x) => PParams { epoch_length: Some(x), ..p },
        PParamValue::SlotLength(x) => PParams { slot_length: Some(x), ..p },
        PParamValue::MinFeeA(x) => PParams { min_fee_a: Some(x), ..p },
        PParamValue::MinFeeB(x) => PParams { min_fee_b: Some(x), ..p },
        PParamValue::MaxBlockBodySize(x) => PParams { max_block_body_size: Some(x), ..p },
        PParamValue::MaxTransactionSize(x) => PParams { max_transaction_size: Some(x), ..p },
        PParamValue::MaxBlockHeaderSize(x) => PParams { max_block_header_size: Some(x), ..p },
        PParamValue::KeyDeposit(x) => PParams { key_deposit: Some(x), ..p },
        PParamValue::PoolDeposit(x) => PParams { pool_deposit: Some(x), ..p },
        PParamValue::DesiredNumberOfStakePools(x) => PParams { desired_number_of_stake_pools: Some(x), ..p },
        PParamValue::ProtocolVersion(x) => PParams { protocol_version: Some(x), ..p },
        PParamValue::MinUtxoValue(x) => PParams { min_utxo_value: Some(x), ..p },
        PParamValue::MinPoolCost(x) => PParams { min_pool_cost: Some(x), ..p },
        PParamValue::ExpansionRate(x) => PParams { expansion_rate: Some(x), ..p },
        PParamValue::TreasuryGrowthRate(x) => PParams { treasury_growth_rate: Some(x), ..p },
        PParamValue::MaximumEpoch(x) => PParams { maximum_epoch: Some(x), ..p },
        PParamValue::PoolPledgeInfluence(x) => PParams { pool_pledge_influence: Some(x), ..p },
        PParamValue::DecentralizationConstant(x) => PParams { decentralization_constant: Some(x), ..p },
        PParamValue::ExtraEntropy(x) => PParams { extra_entropy: Some(nonce_view(x)), ..p },
        PParamValue::AdaPerUtxoByte(x) => PParams { ada_per_utxo_byte: Some(x), ..p },
        PParamValue::CostModelsPlutusV1(x) => PParams { cost_models_plutus_v1: Some(x@), ..p },
        PParamValue::CostModelsPlutusV2(x) => PParams { cost_models_plutus_v2: Some(x@), ..p },
        PParamValue::CostModelsPlutusV3(x) => PParams { cost_models_plutus_v3: Some(x@), ..p },
        PParamValue::CostModelsUnknown(x) => PParams { cost_models_unknown: Some(models_view(x@)), ..p },
        PParamValue::ExecutionCosts(x) => PParams { execution_costs: Some(x), ..p },
        PParamValue::MaxTxExUnits(x) => PParams { max_tx_ex_units: Some(x), ..p },
        PParamValue::MaxBlockExUnits(x) => PParams { max_block_ex_units: Some(x), ..p },
        PParamValue::MaxValueSize(x) => PParams { max_value_size: Some(x), ..p },
        PParamValue::CollateralPercentage(x) => PParams { collateral_percentage: Some(x), ..p },
        PParamValue::MaxCollateralInputs(x) => PParams { max_collateral_inputs: Some(x), ..p },
        PParamValue::PoolVotingThresholds(x) => PParams { pool_voting_thresholds: Some(x), ..p },
        PParamValue::DrepVotingThresholds(x) => PParams { drep_voting_thresholds: Some(x), ..p },
        PParamValue::MinCommitteeSize(x) => PParams { min_committee_size: Some(x), ..p },
        PParamValue::CommitteeTermLimit(x) => PParams { committee_term_limit: Some(x), ..p },
        PParamValue::GovernanceActionValidityPeriod(x) => PParams { governance_action_validity_period: Some(x), ..p },
        PParamValue::GovernanceActionDeposit(x) => PParams { governance_action_deposit: Some(x), ..p },
        PParamValue::DrepDeposit(x) => PParams { drep_deposit: Some(x), ..p },
        PParamValue::DrepInactivityPeriod(x) => PParams { drep_inactivity_period: Some(x), ..p },
        PParamValue::MinFeeRefScriptCostPerByte(x) => PParams { min_fee_ref_script_cost_per_byte: Some(x), ..p },
    }
}

/// Setting a parameter value puts it under the parameter it names: the
/// set then holds that value there, whatever it held before.
pub proof fn lemma_a_value_is_set_under_its_own_parameter(p: PParams, value: PParamValue)
    ensures
        value matches PParamValue::SystemStart(x) ==> set_value(p, value).system_start == Some(x),
        value matches PParamValue::EpochLength(x) ==> set_value(p, value).epoch_length == Some(x),
        value matches PParamValue::SlotLength(x) ==> set_value(p, value).slot_length == Some(x),
        value matches PParamValue::MinFeeA(x) ==> set_value(p, value).min_fee_a == Some(x),
        value matches PParamValue::MinFeeB(x) ==> set_value(p, value).min_fee_b == Some(x),
        value matches PParamValue::MaxBlockBodySize(x) ==> set_value(p, value).max_block_body_size == Some(x),
        value matches PParamValue::MaxTransactionSize(x) ==> set_value(p, value).max_transaction_size == Some(x),
        value matches PParamValue::MaxBlockHeaderSize(x) ==> set_value(p, value).max_block_header_size == Some(x),
        value matches PParamValue::KeyDeposit(x) ==> set_value(p, value).key_deposit == Some(x),
        value matches PParamValue::PoolDeposit(x) ==> set_value(p, value).pool_deposit == Some(x),
        value matches PParamValue::DesiredNumberOfStakePools(x) ==> set_value(p, value).desired_number_of_stake_pools == Some(x),
        value matches PParamValue::ProtocolVersion(x) ==> set_value(p, value).protocol_version == Some(x),
        value matches PParamValue::MinUtxoValue(x) ==> set_value(p, value).min_utxo_value == Some(x),
        value matches PParamValue::MinPoolCost(x) ==> set_value(p, value).min_pool_cost == Some(x),
        value matches PParamValue::ExpansionRate(x) ==> set_value(p, value).expansion_rate == Some(x),
        value matches PParamValue::TreasuryGrowthRate(x) ==> set_value(p, value).treasury_growth_rate == Some(x),
        value matches PParamValue::MaximumEpoch(x) ==> set_value(p, value).maximum_epoch == Some(x),
        value matches PParamValue::PoolPledgeInfluence(x) ==> set_value(p, value).pool_pledge_influence == Some(x),
        value matches PParamValue::DecentralizationConstant(x) ==> set_value(p, value).decentralization_constant == Some(x),
        value matches PParamValue::ExtraEntropy(x) ==> set_value(p, value).extra_entropy == Some(nonce_view(x)),
        value matches PParamValue::AdaPerUtxoByte(x) ==> set_value(p, value).ada_per_utxo_byte == Some(x),
        value matches PParamValue::CostModelsPlutusV1(x) ==> set_value(p, value).cost_models_plutus_v1 == Some(x@),
        value matches PParamValue::CostModelsPlutusV2(x) ==> set_value(p, value).cost_models_plutus_v2 == Some(x@),
        value matches PParamValue::CostModelsPlutusV3(x) ==> set_value(p, value).cost_models_plutus_v3 == Some(x@),
        value matches PParamValue::CostModelsUnknown(x) ==> set_value(p, value).cost_models_unknown == Some(models_view(x@)),
        value matches PParamValue::ExecutionCosts(x) ==> set_value(p, value).execution_costs == Some(x),
        value matches PParamValue::MaxTxExUnits(x) ==> set_value(p, value).max_tx_ex_units == Some(x),
        value matches PParamValue::MaxBlockExUnits(x) ==> set_value(p, value).max_block_ex_units == Some(x),
        value matches PParamValue::MaxValueSize(x) ==> set_value(p, value).max_value_size == Some(x),
        value matches PParamValue::CollateralPercentage(x) ==> set_value(p, value).collateral_percentage == Some(x),
        value matches PParamValue::MaxCollateralInputs(x) ==> set_value(p, value).max_collateral_inputs == Some(x),
        value matches PParamValue::PoolVotingThresholds(x) ==> set_value(p, value).pool_voting_thresholds == Some(x),
        value matches PParamValue::DrepVotingThresholds(x) ==> set_value(p, value).drep_voting_thresholds == Some(x),
        value matches PParamValue::MinCommitteeSize(x) ==> set_value(p, value).min_committee_size == Some(x),
        value matches PParamValue::CommitteeTermLimit(x) ==> set_value(p, value).committee_term_limit == Some(x),
        value matches PParamValue::GovernanceActionValidityPeriod(x) ==> set_value(p, value).governance_action_validity_period == Some(x),
        value matches PParamValue::GovernanceActionDeposit(x) ==> set_value(p, value).governance_action_deposit == Some(x),
        value matches PParamValue::DrepDeposit(x) ==> set_value(p, value).drep_deposit == Some(x),
        value matches PParamValue::DrepInactivityPeriod(x) ==> set_value(p, value).drep_inactivity_period == Some(x),
        value matches PParamValue::MinFeeRefScriptCostPerByte(x) ==> set_value(p, value).min_fee_ref_script_cost_per_byte == Some(x),
{
}

/// The parameter set with no parameter present.
pub open spec fn empty_params() -> PParams {
    PParams {
        system_start: None,
        epoch_length: None,
        slot_length: None,
        min_fee_a: None,
        min_fee_b: None,
        max_block_body_size: None,
        max_transaction_size: None,
        max_block_header_size: None,
        key_deposit: None,
        pool_deposit: None,
        desired_number_of_stake_pools: None,
        protocol_version: None,
        min_utxo_value: None,
        min_pool_cost: None,
        expansion_rate: None,
        treasury_growth_rate: None,
        maximum_epoch: None,
        pool_pledge_influence: None,
        decentralization_constant: None,
        extra_entropy: None,
        ada_per_utxo_byte: None,
        cost_models_plutus_v1: None,
        cost_models_plutus_v2: None,
        cost_models_plutus_v3: None,
        cost_models_unknown: None,
        execution_costs: None,
        max_tx_ex_units: None,
        max_block_ex_units: None,
        max_value_size: None,
        collateral_percentage: None,
        max_collateral_inputs: None,
        pool_voting_thresholds: None,
        drep_voting_thresholds: None,
        min_committee_size: None,
        committee_term_limit: None,
        governance_action_validity_period: None,
        governance_action_deposit: None,
        drep_deposit: None,
        drep_inactivity_period: None,
        min_fee_ref_script_cost_per_byte: None,
    }
}

pub(crate) fn copy_models_map(m: &BTreeMap<u64, CostModel>) -> (r: BTreeMap<u64, CostModel>)
    ensures
        models_view(r@) == models_view(m@),
{
    let r = m.clone();
    assert(r@ == m@);
    r
}

impl PParamsSet {
    /// A set with no parameter present.
    pub fn new() -> (r: PParamsSet)
        ensures
            r@ == empty_params(),
    {
        PParamsSet {
            system_start: None,
            epoch_length: None,
            slot_length: None,
            min_fee_a: None,
            min_fee_b: None,
            max_block_body_size: None,
            max_transaction_size: None,
            max_block_header_size: None,
            key_deposit: None,
            pool_deposit: None,
            desired_number_of_stake_pools: None,
            protocol_version: None,
            min_utxo_value: None,
            min_pool_cost: None,
            expansion_rate: None,
            treasury_growth_rate: None,
            maximum_epoch: None,
            pool_pledge_influence: None,
            decentralization_constant: None,
            extra_entropy: None,
            ada_per_utxo_byte: None,
            cost_models_plutus_v1: None,
            cost_models_plutus_v2: None,
            cost_models_plutus_v3: None,
            cost_models_unknown: None,
            execution_costs: None,
            max_tx_ex_units: None,
            max_block_ex_units: None,
            max_value_size: None,
            collateral_percentage: None,
            max_collateral_inputs: None,
            pool_voting_thresholds: None,
            drep_voting_thresholds: None,
            min_committee_size: None,
            committee_term_limit: None,
            governance_action_validity_period: None,
            governance_action_deposit: None,
            drep_deposit: None,
            drep_inactivity_period: None,
            min_fee_ref_script_cost_per_byte: None,
        }
    }

    /// A copy of this set.
    pub fn duplicate(&self) -> (r: PParamsSet)
        ensures
            r@ == self@,
    {
        PParamsSet {
            system_start: self.system_start,
            epoch_length: self.epoch_length,
            slot_length: self.slot_length,
            min_fee_a: self.min_fee_a,
            min_fee_b: self.min_fee_b,
            max_block_body_size: self.max_block_body_size,
            max_transaction_size: self.max_transaction_size,
            max_block_header_size: self.max_block_header_size,
            key_deposit: self.key_deposit,
            pool_deposit: self.pool_deposit,
            desired_number_of_stake_pools: self.desired_number_of_stake_pools,
            protocol_version: self.protocol_version,
            min_utxo_value: self.min_utxo_value,
            min_pool_cost: self.min_pool_cost,
            expansion_rate: self.expansion_rate,
            treasury_growth_rate: self.treasury_growth_rate,
            maximum_epoch: self.maximum_epoch,
            pool_pledge_influence: self.pool_pledge_influence,
            decentralization_constant: self.decentralization_constant,
            extra_entropy: self.extra_entropy,
            ada_per_utxo_byte: self.ada_per_utxo_byte,
            cost_models_plutus_v1: match &self.cost_models_plutus_v1 { Some(v) => Some(copy_model(v)), None => None },
            cost_models_plutus_v2: match &self.cost_models_plutus_v2 { Some(v) => Some(copy_model(v)), None => None },
            cost_models_plutus_v3: match &self.cost_models_plutus_v3 { Some(v) => Some(copy_model(v)), None => None },
            cost_models_unknown: match &self.cost_models_unknown { Some(m) => Some(copy_models_map(m)), None => None },
            execution_costs: self.execution_costs,
            max_tx_ex_units: self.max_tx_ex_units,
            max_block_ex_units: self.max_block_ex_units,
            max_value_size: self.max_value_size,
            collateral_percentage: self.collateral_percentage,
            max_collateral_inputs: self.max_collateral_inputs,
            pool_voting_thresholds: self.pool_voting_thresholds,
            drep_voting_thresholds: self.drep_voting_thresholds,
            min_committee_size: self.min_committee_size,
            committee_term_limit: self.committee_term_limit,
            governance_action_validity_period: self.governance_action_validity_period,
            governance_action_deposit: self.governance_action_deposit,
            drep_deposit: self.drep_deposit,
            drep_inactivity_period: self.drep_inactivity_period,
            min_fee_ref_script_cost_per_byte: self.min_fee_ref_script_cost_per_byte,
        }
    }

    /// Gives one parameter a new value, leaving every other as it was.
    pub fn set(&mut self, value: PParamValue)
        ensures
            final(self)@ == set_value(old(self)@, value),
    {
        match value {
            PParamValue::SystemStart(x) => { self.system_start = Some(x); },
            PParamValue::EpochLength(x) => { self.epoch_length = Some(x); },
            PParamValue::SlotLength(x) => { self.slot_length = Some(x); },
            PParamValue::MinFeeA(x) => { self.min_fee_a = Some(x); },
            PParamValue::MinFeeB(x) => { self.min_fee_b = Some(x); },
            PParamValue::MaxBlockBodySize(x) => { self.max_block_body_size = Some(x); },
            PParamValue::MaxTransactionSize(x) => { self.max_transaction_size = Some(x); },
            PParamValue::MaxBlockHeaderSize(x) => { self.max_block_header_size = Some(x); },
            PParamValue::KeyDeposit(x) => { self.key_deposit = Some(x); },
            PParamValue::PoolDeposit(x) => { self.pool_deposit = Some(x); },
            PParamValue::DesiredNumberOfStakePools(x) => { self.desired_number_of_stake_pools = Some(x); },
            PParamValue::ProtocolVersion(x) => { self.protocol_version = Some(x); },
            PParamValue::MinUtxoValue(x) => { self.min_utxo_value = Some(x); },
            PParamValue::MinPoolCost(x) => { self.min_pool_cost = Some(x); },
            PParamValue::ExpansionRate(x) => { self.expansion_rate = Some(x); },
            PParamValue::TreasuryGrowthRate(x) => { self.treasury_growth_rate = Some(x); },
            PParamValue::MaximumEpoch(x) => { self.maximum_epoch = Some(x); },
            PParamValue::PoolPledgeInfluence(x) => { self.pool_pledge_influence = Some(x); },
            PParamValue::DecentralizationConstant(x) => { self.decentralization_constant = Some(x); },
            PParamValue::ExtraEntropy(x) => { self.extra_entropy = Some(x); },
            PParamValue::AdaPerUtxoByte(x) => { self.ada_per_utxo_byte = Some(x); },
            PParamValue::CostModelsPlutusV1(x) => { self.cost_models_plutus_v1 = Some(x); },
            PParamValue::CostModelsPlutusV2(x) => { self.cost_models_plutus_v2 = Some(x); },
            PParamValue::CostModelsPlutusV3(x) => { self.cost_models_plutus_v3 = Some(x); },
            PParamValue::CostModelsUnknown(x) => { self.cost_models_unknown = Some(x); },
            PParamValue::ExecutionCosts(x) => { self.execution_costs = Some(x); },
            PParamValue::MaxTxExUnits(x) => { self.max_tx_ex_units = Some(x); },
            PParamValue::MaxBlockExUnits(x) => { self.max_block_ex_units = Some(x); },
            PParamValue::MaxValueSize(x) => { self.max_value_size = Some(x); },
            PParamValue::CollateralPercentage(x) => { self.collateral_percentage = Some(x); },
            PParamValue::MaxCollateralInputs(x) => { self.max_collateral_inputs = Some(x); },
            PParamValue::PoolVotingThresholds(x) => { self.pool_voting_thresholds = Some(x); },
            PParamValue::DrepVotingThresholds(x) => { self.drep_voting_thresholds = Some(x); },
            PParamValue::MinCommitteeSize(x) => { self.min_committee_size = Some(x); },
            PParamValue::CommitteeTermLimit(x) => { self.committee_term_limit = Some(x); },
            PParamValue::GovernanceActionValidityPeriod(x) => { self.governance_action_validity_period = Some(x); },
            PParamValue::GovernanceActionDeposit(x) => { self.governance_action_deposit = Some(x); },
            PParamValue::DrepDeposit(x) => { self.drep_deposit = Some(x); },
            PParamValue::DrepInactivityPeriod(x) => { self.drep_inactivity_period = Some(x); },
            PParamValue::MinFeeRefScriptCostPerByte(x) => { self.min_fee_ref_script_cost_per_byte = Some(x); },
        }
    }

    /// This set with one parameter given a new value.
    pub fn with(self, value: PParamValue) -> (r: PParamsSet)
        ensures
            r@ == set_value(self@, value),
    {
        let mut set = self;
        set.set(value);
        set
    }

    pub fn system_start(&self) -> (r: Option<u64>)
        ensures
            r == self@.system_start,
    {
        self.system_start
    }

    pub fn epoch_length(&self) -> (r: Option<u64>)
        ensures
            r == self@.epoch_length,
    {
        self.epoch_length
    }

    pub fn slot_length(&self) -> (r: Option<u64>)
        ensures
            r == self@.slot_length,
    {
        self.slot_length
    }

    pub fn min_fee_a(&self) -> (r: Option<u64>)
        ensures
            r == self@.min_fee_a,
    {
        self.min_fee_a
    }

    pub fn min_fee_b(&self) -> (r: Option<u64>)
        ensures
            r == self@.min_fee_b,
    {
        self.min_fee_b
    }

    pub fn max_block_body_size(&self) -> (r: Option<u64>)
        ensures
            r == self@.max_block_body_size,
    {
        self.max_block_body_size
    }

    pub fn max_transaction_size(&self) -> (r: Option<u64>)
        ensures
            r == self@.max_transaction_size,
    {
        self.max_transaction_size
    }

    pub fn max_block_header_size(&self) -> (r: Option<u64>)
        ensures
            r == self@.max_block_header_size,
    {
        self.max_block_header_size
    }

    pub fn key_deposit(&self) -> (r: Option<u64>)
        ensures
            r == self@.key_deposit,
    {
        self.key_deposit
    }

    pub fn pool_deposit(&self) -> (r: Option<u64>)
        ensures
            r == self@.pool_deposit,
    {
        self.pool_deposit
    }

    pub fn desired_number_of_stake_pools(&self) -> (r: Option<u32>)
        ensures
            r == self@.desired_number_of_stake_pools,
    {
        self.desired_number_of_stake_pools
    }

    pub fn protocol_version(&self) -> (r: Option<(u64, u64)>)
        ensures
            r == self@.protocol_version,
    {
        self.protocol_version
    }

    pub fn min_utxo_value(&self) -> (r: Option<u64>)
        ensures
            r == self@.min_utxo_value,
    {
        self.min_utxo_value
    }

    pub fn min_pool_cost(&self) -> (r: Option<u64>)
        ensures
            r == self@.min_pool_cost,
    {
        self.min_pool_cost
    }

    pub fn expansion_rate(&self) -> (r: Option<RationalNumber>)
        ensures
            r == self@.expansion_rate,
    {
        self.expansion_rate
    }

    pub fn treasury_growth_rate(&self) -> (r: Option<RationalNumber>)
        ensures
            r == self@.treasury_growth_rate,
    {
        self.treasury_growth_rate
    }

    pub fn maximum_epoch(&self) -> (r: Option<u64>)
        ensures
            r == self@.maximum_epoch,
    {
        self.maximum_epoch
    }

    pub fn pool_pledge_influence(&self) -> (r: Option<RationalNumber>)
        ensures
            r == self@.pool_pledge_influence,
    {
        self.pool_pledge_influence
    }

    pub fn decentralization_constant(&self) -> (r: Option<RationalNumber>)
        ensures
            r == self@.decentralization_constant,
    {
        self.decentralization_constant
    }

    pub fn extra_entropy(&self) -> (r: Option<Nonce>)
        ensures
            r == self.extra_entropy,
    {
        self.extra_entropy
    }

    pub fn ada_per_utxo_byte(&self) -> (r: Option<u64>)
        ensures
            r == self@.ada_per_utxo_byte,
    {
        self.ada_per_utxo_byte
    }

    pub fn cost_models_plutus_v1(&self) -> (r: Option<CostModel>)
        ensures
            match r { Some(v) => self@.cost_models_plutus_v1 == Some(v@), None => self@.cost_models_plutus_v1 is None },
    {
        match &self.cost_models_plutus_v1 {
            Some(v) => Some(copy_model(v)),
            None => None,
        }
    }

    pub fn cost_models_plutus_v2(&self) -> (r: Option<CostModel>)
        ensures
            match r { Some(v) => self@.cost_models_plutus_v2 == Some(v@), None => self@.cost_models_plutus_v2 is None },
    {
        match &self.cost_models_plutus_v2 {
            Some(v) => Some(copy_model(v)),
            None => None,
        }
    }

    pub fn cost_models_plutus_v3(&self) -> (r: Option<CostModel>)
        ensures
            match r { Some(v) => self@.cost_models_plutus_v3 == Some(v@), None => self@.cost_models_plutus_v3 is None },
    {
        match &self.cost_models_plutus_v3 {
            Some(v) => Some(copy_model(v)),
            None => None,
        }
    }

    pub fn cost_models_unknown(&self) -> (r: Option<BTreeMap<u64, CostModel>>)
        ensures
            match r { Some(m) => self@.cost_models_unknown == Some(models_view(m@)), None => self@.cost_models_unknown is None },
    {
        match &self.cost_models_unknown {
            Some(m) => Some(copy_models_map(m)),
            None => None,
        }
    }

    pub fn execution_costs(&self) -> (r: Option<ExUnitPrices>)
        ensures
            r == self@.execution_costs,
    {
        self.execution_costs
    }

    pub fn max_tx_ex_units(&self) -> (r: Option<ExUnits>)
        ensures
            r == self@.max_tx_ex_units,
    {
        self.max_tx_ex_units
    }

    pub fn max_block_ex_units(&self) -> (r: Option<ExUnits>)
        ensures
            r == self@.max_block_ex_units,
    {
        self.max_block_ex_units
    }

    pub fn max_value_size(&self) -> (r: Option<u32>)
        ensures
            r == self@.max_value_size,
    {
        self.max_value_size
    }

    pub fn collateral_percentage(&self) -> (r: Option<u32>)
        ensures
            r == self@.collateral_percentage,
    {
        self.collateral_percentage
    }

    pub fn max_collateral_inputs(&self) -> (r: Option<u32>)
        ensures
            r == self@.max_collateral_inputs,
    {
        self.max_collateral_inputs
    }

    pub fn pool_voting_thresholds(&self) -> (r: Option<PoolVotingThresholds>)
        ensures
            r == self@.pool_voting_thresholds,
    {
        self.pool_voting_thresholds
    }

    pub fn drep_voting_thresholds(&self) -> (r: Option<DRepVotingThresholds>)
        ensures
            r == self@.drep_voting_thresholds,
    {
        self.drep_voting_thresholds
    }

    pub fn min_committee_size(&self) -> (r: Option<u64>)
        ensures
            r == self@.min_committee_size,
    {
        self.min_committee_size
    }

    pub fn committee_term_limit(&self) -> (r: Option<u64>)
        ensures
            r == self@.committee_term_limit,
    {
        self.committee_term_limit
    }

    pub fn governance_action_validity_period(&self) -> (r: Option<u64>)
        ensures
            r == self@.governance_action_validity_period,
    {
        self.governance_action_validity_period
    }

    pub fn governance_action_deposit(&self) -> (r: Option<u64>)
        ensures
            r == self@.governance_action_deposit,
    {
        self.governance_action_deposit
    }

    pub fn drep_deposit(&self) -> (r: Option<u64>)
        ensures
            r == self@.drep_deposit,
    {
        self.drep_deposit
    }

    pub fn drep_inactivity_period(&self) -> (r: Option<u64>)
        ensures
            r == self@.drep_inactivity_period,
    {
        self.drep_inactivity_period
    }

    pub fn min_fee_ref_script_cost_per_byte(&self) -> (r: Option<RationalNumber>)
        ensures
            r == self@.min_fee_ref_script_cost_per_byte,
    {
        self.min_fee_ref_script_cost_per_byte
    }

    /// The major protocol version, if the set holds a version.
    pub fn protocol_major(&self) -> (r: Option<u64>)
        ensures
            r == match self@.protocol_version {
                Some(v) => Some(v.0),
                None => None,
            },
    {
        match self.protocol_version {
            Some(v) => Some(v.0),
            None => None,
        }
    }

    /// The wildcard cost model map, or an empty one when the set holds none.
    pub fn cost_models_unknown_or_default(&self) -> (r: BTreeMap<u64, CostModel>)
        ensures
            models_view(r@) == match self@.cost_models_unknown {
                Some(m) => m,
                None => Map::empty(),
            },
    {
        match &self.cost_models_unknown {
            Some(m) => copy_models_map(m),
            None => {
                let r: BTreeMap<u64, CostModel> = BTreeMap::new();
                assert(models_view(r@) =~= Map::empty());
                r
            },
        }
    }

    /// The cost models the set carries, as the cost model set names them.
    pub fn cost_models_for_script_languages(&self) -> (r: CostModels)
        ensures
            crate::cost_models::model_view(r.plutus_v1) == self@.cost_models_plutus_v1,
            crate::cost_models::model_view(r.plutus_v2) == self@.cost_models_plutus_v2,
            crate::cost_models::model_view(r.plutus_v3) == self@.cost_models_plutus_v3,
            models_view(r.unknown@) == match self@.cost_models_unknown {
                Some(m) => m,
                None => Map::empty(),
            },
    {
        CostModels {
            plutus_v1: self.cost_models_plutus_v1(),
            plutus_v2: self.cost_models_plutus_v2(),
            plutus_v3: self.cost_models_plutus_v3(),
            unknown: self.cost_models_unknown_or_default(),
        }
    }
}

} // verus!
