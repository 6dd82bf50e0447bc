use vstd::prelude::*;
use std::collections::BTreeMap;
use crate::cost_models::{copy_model, model_view, CostModel, CostModels, PLUTUS_V4_COST_MODEL_KEY};
use crate::forks::language_model;
use crate::genesis::Language;
use crate::pparams::{
    copy_models_map, empty_params, models_view, nonce_view, DRepVotingThresholds, ExUnitPrices,
    ExUnits, Nonce, PParamValue, PParams, PParamsSet, PoolVotingThresholds,
    RationalNumber,
};

verus! {

broadcast use vstd::std_specs::btree::group_btree_axioms;

/// The parameters only the Dijkstra era can update, which a parameter set
/// has no place for, in the order an update is searched for them.
#[derive(Debug, Clone, Copy, PartialEq, Eq, Structural)]
pub enum DijkstraParam {
    MaxRefScriptSizePerBlock,
    MaxRefScriptSizePerTx,
    RefScriptCostStride,
    RefScriptCostMultiplier,
    MaxPledgeLeverage,
    MinPoolMargin,
    LeiosAnnouncementPeriodLength,
    LeiosVotePeriodLength,
    LeiosDiffusionPeriodLength,
    LeiosCommitteeSize,
    LeiosQuorumStakeThreshold,
    MaxEndorserBlockReferencesSize,
    MaxEndorserBlockTxsSize,
    MaxEndorserBlockExecutionUnits,
    MaxRefScriptSizePerEndorserBlock,
}

/// Where a parameter comes in the order an update is searched.
pub open spec fn param_rank(p: DijkstraParam) -> int {
    match p {
        DijkstraParam::MaxRefScriptSizePerBlock => 0,
        DijkstraParam::MaxRefScriptSizePerTx => 1,
        DijkstraParam::RefScriptCostStride => 2,
        DijkstraParam::RefScriptCostMultiplier => 3,
        DijkstraParam::MaxPledgeLeverage => 4,
        DijkstraParam::MinPoolMargin => 5,
        DijkstraParam::LeiosAnnouncementPeriodLength => 6,
        DijkstraParam::LeiosVotePeriodLength => 7,
        DijkstraParam::LeiosDiffusionPeriodLength => 8,
        DijkstraParam::LeiosCommitteeSize => 9,
        DijkstraParam::LeiosQuorumStakeThreshold => 10,
        DijkstraParam::MaxEndorserBlockReferencesSize => 11,
        DijkstraParam::MaxEndorserBlockTxsSize => 12,
        DijkstraParam::MaxEndorserBlockExecutionUnits => 13,
        DijkstraParam::MaxRefScriptSizePerEndorserBlock => 14,
    }
}

/// The name a parameter is refused under.
pub open spec fn param_name(p: DijkstraParam) -> Seq<char> {
    match p {
        DijkstraParam::MaxRefScriptSizePerBlock => "max_ref_script_size_per_block"@,
        DijkstraParam::MaxRefScriptSizePerTx => "max_ref_script_size_per_tx"@,
        DijkstraParam::RefScriptCostStride => "ref_script_cost_stride"@,
        DijkstraParam::RefScriptCostMultiplier => "ref_script_cost_multiplier"@,
        DijkstraParam::MaxPledgeLeverage => "max_pledge_leverage"@,
        DijkstraParam::MinPoolMargin => "min_pool_margin"@,
        DijkstraParam::LeiosAnnouncementPeriodLength => "leios_announcement_period_length"@,
        DijkstraParam::LeiosVotePeriodLength => "leios_vote_period_length"@,
        DijkstraParam::LeiosDiffusionPeriodLength => "leios_diffusion_period_length"@,
        DijkstraParam::LeiosCommitteeSize => "leios_committee_size"@,
        DijkstraParam::LeiosQuorumStakeThreshold => "leios_quorum_stake_threshold"@,
        DijkstraParam::MaxEndorserBlockReferencesSize => "max_endorser_block_references_size"@,
        DijkstraParam::MaxEndorserBlockTxsSize => "max_endorser_block_txs_size"@,
        DijkstraParam::MaxEndorserBlockExecutionUnits => "max_endorser_block_execution_units"@,
        DijkstraParam::MaxRefScriptSizePerEndorserBlock => "max_ref_script_size_per_endorser_block"@,
    }
}

impl DijkstraParam {
    /// The name the parameter is refused under.
    pub fn name(&self) -> (s: &'static str)
        ensures
            s@ == param_name(*self),
    {
        match self {
            DijkstraParam::MaxRefScriptSizePerBlock => "max_ref_script_size_per_block",
            DijkstraParam::MaxRefScriptSizePerTx => "max_ref_script_size_per_tx",
            DijkstraParam::RefScriptCostStride => "ref_script_cost_stride",
            DijkstraParam::RefScriptCostMultiplier => "ref_script_cost_multiplier",
            DijkstraParam::MaxPledgeLeverage => "max_pledge_leverage",
            DijkstraParam::MinPoolMargin => "min_pool_margin",
            DijkstraParam::LeiosAnnouncementPeriodLength => "leios_announcement_period_length",
            DijkstraParam::LeiosVotePeriodLength => "leios_vote_period_length",
            DijkstraParam::LeiosDiffusionPeriodLength => "leios_diffusion_period_length",
            DijkstraParam::LeiosCommitteeSize => "leios_committee_size",
            DijkstraParam::LeiosQuorumStakeThreshold => "leios_quorum_stake_threshold",
            DijkstraParam::MaxEndorserBlockReferencesSize => "max_endorser_block_references_size",
            DijkstraParam::MaxEndorserBlockTxsSize => "max_endorser_block_txs_size",
            DijkstraParam::MaxEndorserBlockExecutionUnits => "max_endorser_block_execution_units",
            DijkstraParam::MaxRefScriptSizePerEndorserBlock => "max_ref_script_size_per_endorser_block",
        }
    }
}

/// Which of the Dijkstra-only parameters an update proposes a value for.
#[derive(Debug, Clone, Copy, PartialEq, Eq, Structural)]
pub struct DijkstraProposed {
    pub max_ref_script_size_per_block: bool,
    pub max_ref_script_size_per_tx: bool,
    pub ref_script_cost_stride: bool,
    pub ref_script_cost_multiplier: bool,
    pub max_pledge_leverage: bool,
    pub min_pool_margin: bool,
    pub leios_announcement_period_length: bool,
    pub leios_vote_period_length: bool,
    pub leios_diffusion_period_length: bool,
    pub leios_committee_size: bool,
    pub leios_quorum_stake_threshold: bool,
    pub max_endorser_block_references_size: bool,
    pub max_endorser_block_txs_size: bool,
    pub max_endorser_block_execution_units: bool,
    pub max_ref_script_size_per_endorser_block: bool,
}

/// Whether an update proposes a value for a Dijkstra-only parameter.
pub open spec fn proposes(d: DijkstraProposed, p: DijkstraParam) -> bool {
    match p {
        DijkstraParam::MaxRefScriptSizePerBlock => d.max_ref_script_size_per_block,
        DijkstraParam::MaxRefScriptSizePerTx => d.max_ref_script_size_per_tx,
        DijkstraParam::RefScriptCostStride => d.ref_script_cost_stride,
        DijkstraParam::RefScriptCostMultiplier => d.ref_script_cost_multiplier,
        DijkstraParam::MaxPledgeLeverage => d.max_pledge_leverage,
        DijkstraParam::MinPoolMargin => d.min_pool_margin,
        DijkstraParam::LeiosAnnouncementPeriodLength => d.leios_announcement_period_length,
        DijkstraParam::LeiosVotePeriodLength => d.leios_vote_period_length,
        DijkstraParam::LeiosDiffusionPeriodLength => d.leios_diffusion_period_length,
        DijkstraParam::LeiosCommitteeSize => d.leios_committee_size,
        DijkstraParam::LeiosQuorumStakeThreshold => d.leios_quorum_stake_threshold,
        DijkstraParam::MaxEndorserBlockReferencesSize => d.max_endorser_block_references_size,
        DijkstraParam::MaxEndorserBlockTxsSize => d.max_endorser_block_txs_size,
        DijkstraParam::MaxEndorserBlockExecutionUnits => d.max_endorser_block_execution_units,
        DijkstraParam::MaxRefScriptSizePerEndorserBlock => d.max_ref_script_size_per_endorser_block,
    }
}

/// The era whose own update type an update reads as, for the cost models
/// under wildcard keys.
#[derive(Debug, Clone, Copy, PartialEq, Eq, Structural)]
pub enum UpdateEra {
    Conway,
    Dijkstra,
    /// An era whose update type this node does not read cost models from.
    Other,
}

/// The cost models an update proposes, by the language each names.
pub struct ProposedCostModels {
    pub plutus_v1: Option<CostModel>,
    pub plutus_v2: Option<CostModel>,
    pub plutus_v3: Option<CostModel>,
    pub plutus_v4: Option<CostModel>,
}

/// A protocol parameter update of a governance action, as the era neutral
/// reading of it gives each parameter: absent where it proposes none.
pub struct ParamUpdate {
    pub era: UpdateEra,
    pub minfee_a: Option<u64>,
    pub minfee_b: Option<u64>,
    pub max_block_body_size: Option<u64>,
    pub max_transaction_size: Option<u64>,
    pub max_block_header_size: Option<u64>,
    pub key_deposit: Option<u64>,
    pub pool_deposit: Option<u64>,
    pub desired_number_of_stake_pools: Option<u64>,
    pub ada_per_utxo_byte: Option<u64>,
    pub min_pool_cost: Option<u64>,
    pub expansion_rate: Option<RationalNumber>,
    pub treasury_growth_rate: Option<RationalNumber>,
    pub maximum_epoch: Option<u64>,
    pub pool_pledge_influence: Option<RationalNumber>,
    pub max_value_size: Option<u64>,
    pub collateral_percentage: Option<u64>,
    pub max_collateral_inputs: Option<u64>,
    pub pool_voting_thresholds: Option<PoolVotingThresholds>,
    pub drep_voting_thresholds: Option<DRepVotingThresholds>,
    pub min_committee_size: Option<u64>,
    pub committee_term_limit: Option<u64>,
    pub governance_action_validity_period: Option<u64>,
    pub governance_action_deposit: Option<u64>,
    pub drep_deposit: Option<u64>,
    pub drep_inactivity_period: Option<u64>,
    pub max_tx_ex_units: Option<ExUnits>,
    pub max_block_ex_units: Option<ExUnits>,
    pub minfee_refscript_cost_per_byte: Option<RationalNumber>,
    pub execution_costs: Option<ExUnitPrices>,
    pub cost_models_for_script_languages: Option<ProposedCostModels>,
    /// The cost models the era's own update type reads under wildcard keys,
    /// where it proposes cost models at all.
    pub era_wildcard_cost_models: Option<BTreeMap<u64, CostModel>>,
    pub dijkstra_only: DijkstraProposed,
}

/// Why a proposal cannot be recorded.
#[derive(Debug, PartialEq)]
pub enum ChainError {
    /// A part of the proposal is malformed.
    InvalidProposalParams,
    /// The proposal holds a part this node has no place for, named in the
    /// text.
    UnrecordableProposalPart(String),
}

/// The first Dijkstra-only parameter an update proposes, in the order they
/// are searched, if it proposes any.
pub open spec fn first_unrecordable(d: DijkstraProposed) -> Option<DijkstraParam> {
    if d.max_ref_script_size_per_block {
        Some(DijkstraParam::MaxRefScriptSizePerBlock)
    } else if d.max_ref_script_size_per_tx {
        Some(DijkstraParam::MaxRefScriptSizePerTx)
    } else if d.ref_script_cost_stride {
        Some(DijkstraParam::RefScriptCostStride)
    } else if d.ref_script_cost_multiplier {
        Some(DijkstraParam::RefScriptCostMultiplier)
    } else if d.max_pledge_leverage {
        Some(DijkstraParam::MaxPledgeLeverage)
    } else if d.min_pool_margin {
        Some(DijkstraParam::MinPoolMargin)
    } else if d.leios_announcement_period_length {
        Some(DijkstraParam::LeiosAnnouncementPeriodLength)
    } else if d.leios_vote_period_length {
        Some(DijkstraParam::LeiosVotePeriodLength)
    } else if d.leios_diffusion_period_length {
        Some(DijkstraParam::LeiosDiffusionPeriodLength)
    } else if d.leios_committee_size {
        Some(DijkstraParam::LeiosCommitteeSize)
    } else if d.leios_quorum_stake_threshold {
        Some(DijkstraParam::LeiosQuorumStakeThreshold)
    } else if d.max_endorser_block_references_size {
        Some(DijkstraParam::MaxEndorserBlockReferencesSize)
    } else if d.max_endorser_block_txs_size {
        Some(DijkstraParam::MaxEndorserBlockTxsSize)
    } else if d.max_endorser_block_execution_units {
        Some(DijkstraParam::MaxEndorserBlockExecutionUnits)
    } else if d.max_ref_script_size_per_endorser_block {
        Some(DijkstraParam::MaxRefScriptSizePerEndorserBlock)
    } else {
        None
    }
}

/// The first Dijkstra-only parameter an update proposes, which a parameter
/// set has no place for; none when it proposes none of them.
pub fn unrecordable_param(update: &ParamUpdate) -> (r: Option<DijkstraParam>)
    ensures
        r == first_unrecordable(update.dijkstra_only),
        r matches Some(p) ==> proposes(update.dijkstra_only, p) && forall|q: DijkstraParam|
            param_rank(q) < param_rank(p) ==> !proposes(update.dijkstra_only, q),
        r is None <==> forall|q: DijkstraParam| !proposes(update.dijkstra_only, q),
{
    let d = &update.dijkstra_only;
    let r = if d.max_ref_script_size_per_block {
        Some(DijkstraParam::MaxRefScriptSizePerBlock)
    } else if d.max_ref_script_size_per_tx {
        Some(DijkstraParam::MaxRefScriptSizePerTx)
    } else if d.ref_script_cost_stride {
        Some(DijkstraParam::RefScriptCostStride)
    } else if d.ref_script_cost_multiplier {
        Some(DijkstraParam::RefScriptCostMultiplier)
    } else if d.max_pledge_leverage {
        Some(DijkstraParam::MaxPledgeLeverage)
    } else if d.min_pool_margin {
        Some(DijkstraParam::MinPoolMargin)
    } else if d.leios_announcement_period_length {
        Some(DijkstraParam::LeiosAnnouncementPeriodLength)
    } else if d.leios_vote_period_length {
        Some(DijkstraParam::LeiosVotePeriodLength)
    } else if d.leios_diffusion_period_length {
        Some(DijkstraParam::LeiosDiffusionPeriodLength)
    } else if d.leios_committee_size {
        Some(DijkstraParam::LeiosCommitteeSize)
    } else if d.leios_quorum_stake_threshold {
        Some(DijkstraParam::LeiosQuorumStakeThreshold)
    } else if d.max_endorser_block_references_size {
        Some(DijkstraParam::MaxEndorserBlockReferencesSize)
    } else if d.max_endorser_block_txs_size {
        Some(DijkstraParam::MaxEndorserBlockTxsSize)
    } else if d.max_endorser_block_execution_units {
        Some(DijkstraParam::MaxEndorserBlockExecutionUnits)
    } else if d.max_ref_script_size_per_endorser_block {
        Some(DijkstraParam::MaxRefScriptSizePerEndorserBlock)
    } else {
        None
    };
    proof {
        if let Some(p) = r {
            assert(proposes(update.dijkstra_only, p));
        }
    }
    r
}


/// The cost models an era's own update type reads under wildcard keys; none
/// where the update proposes no cost models.
pub open spec fn era_wildcard(u: ParamUpdate) -> Map<u64, Seq<i64>> {
    match u.era_wildcard_cost_models {
        Some(w) => models_view(w@),
        None => Map::empty(),
    }
}

/// The cost models an update proposes under wildcard keys: those of the
/// era's own update type, with a PlutusV4 model under its key.
pub open spec fn proposed_wildcard(u: ParamUpdate) -> Map<u64, Seq<i64>> {
    match u.cost_models_for_script_languages {
        Some(cm) => match cm.plutus_v4 {
            Some(v4) => era_wildcard(u).insert(PLUTUS_V4_COST_MODEL_KEY, v4@),
            None => era_wildcard(u),
        },
        None => era_wildcard(u),
    }
}

/// The text a proposal for an era whose cost models this node does not read
/// is refused with.
pub open spec fn unread_cost_models_text() -> Seq<char> {
    "cost models of an era this node does not read"@
}

/// The cost models an update proposes under the keys no field names. The
/// era neutral reading names four languages and leaves the wildcard keys
/// out, so the era's own update type is asked for them; an era whose type
/// this node does not read them from is refused.
pub fn wildcard_cost_models(update: &ParamUpdate) -> (r: Result<BTreeMap<u64, CostModel>, ChainError>)
    ensures
        r is Ok <==> update.era != UpdateEra::Other,
        r matches Ok(m) ==> models_view(m@) == era_wildcard(*update),
        r matches Err(e) ==> e matches ChainError::UnrecordableProposalPart(s) && s@
            == unread_cost_models_text(),
{
    match update.era {
        UpdateEra::Conway | UpdateEra::Dijkstra => {
            match &update.era_wildcard_cost_models {
                Some(w) => Ok(copy_models_map(w)),
                None => {
                    let m: BTreeMap<u64, CostModel> = BTreeMap::new();
                    assert(models_view(m@) =~= Map::empty());
                    Ok(m)
                },
            }
        },
        UpdateEra::Other => Err(
            ChainError::UnrecordableProposalPart(
                String::from_str("cost models of an era this node does not read"),
            ),
        ),
    }
}

/// Whether the counts of an update fit the `u32` a parameter set holds each
/// as, where they are read: an update proposing a Dijkstra-only parameter is
/// refused before any count is read.
pub open spec fn update_fits(u: ParamUpdate) -> bool {
    first_unrecordable(u.dijkstra_only) is None ==> {
        &&& fits_u32(u.desired_number_of_stake_pools)
        &&& fits_u32(u.max_value_size)
        &&& fits_u32(u.collateral_percentage)
        &&& fits_u32(u.max_collateral_inputs)
    }
}

/// A count that a parameter set holds as a `u32`, where one is proposed.
pub open spec fn narrowed(v: Option<u64>) -> Option<u32> {
    match v {
        Some(x) => Some(x as u32),
        None => None,
    }
}

/// Whether a proposed count fits the `u32` a parameter set holds it as.
pub open spec fn fits_u32(v: Option<u64>) -> bool {
    match v {
        Some(x) => x <= u32::MAX,
        None => true,
    }
}

/// The parameter set an update records: each parameter it proposes, the
/// deposit per byte also as the minimum output value, and the cost models
/// it names, with the wildcard ones where there are any.
pub open spec fn update_params(u: ParamUpdate) -> PParams {
    let cm = u.cost_models_for_script_languages;
    PParams {
        min_fee_a: u.minfee_a,
        min_fee_b: u.minfee_b,
        max_block_body_size: u.max_block_body_size,
        max_transaction_size: u.max_transaction_size,
        max_block_header_size: u.max_block_header_size,
        key_deposit: u.key_deposit,
        pool_deposit: u.pool_deposit,
        desired_number_of_stake_pools: narrowed(u.desired_number_of_stake_pools),
        min_utxo_value: u.ada_per_utxo_byte,
        min_pool_cost: u.min_pool_cost,
        expansion_rate: u.expansion_rate,
        treasury_growth_rate: u.treasury_growth_rate,
        maximum_epoch: u.maximum_epoch,
        pool_pledge_influence: u.pool_pledge_influence,
        ada_per_utxo_byte: u.ada_per_utxo_byte,
        max_value_size: narrowed(u.max_value_size),
        collateral_percentage: narrowed(u.collateral_percentage),
        max_collateral_inputs: narrowed(u.max_collateral_inputs),
        pool_voting_thresholds: u.pool_voting_thresholds,
        drep_voting_thresholds: u.drep_voting_thresholds,
        min_committee_size: u.min_committee_size,
        committee_term_limit: u.committee_term_limit,
        governance_action_validity_period: u.governance_action_validity_period,
        governance_action_deposit: u.governance_action_deposit,
        drep_deposit: u.drep_deposit,
        drep_inactivity_period: u.drep_inactivity_period,
        max_tx_ex_units: u.max_tx_ex_units,
        max_block_ex_units: u.max_block_ex_units,
        min_fee_ref_script_cost_per_byte: u.minfee_refscript_cost_per_byte,
        execution_costs: u.execution_costs,
        cost_models_plutus_v1: match cm {
            Some(c) => model_view(c.plutus_v1),
            None => None,
        },
        cost_models_plutus_v2: match cm {
            Some(c) => model_view(c.plutus_v2),
            None => None,
        },
        cost_models_plutus_v3: match cm {
            Some(c) => model_view(c.plutus_v3),
            None => None,
        },
        cost_models_unknown: if cm is Some && proposed_wildcard(u).dom().len() > 0 {
            Some(proposed_wildcard(u))
        } else {
            None
        },
        ..empty_params()
    }
}

/// A recorded update holds each parameter it proposes under that
/// parameter's own name, the deposit per byte also as the minimum output
/// value, and proposes no start, version or other parameter it does not
/// name; a count is recorded as the `u32` the set holds it as.
pub proof fn lemma_update_recorded_under_its_own_names(u: ParamUpdate)
    ensures
        ({
            let set = update_params(u);
            &&& set.min_fee_a == u.minfee_a
            &&& set.min_fee_b == u.minfee_b
            &&& set.max_block_body_size == u.max_block_body_size
            &&& set.max_transaction_size == u.max_transaction_size
            &&& set.max_block_header_size == u.max_block_header_size
            &&& set.key_deposit == u.key_deposit
            &&& set.pool_deposit == u.pool_deposit
            &&& set.min_utxo_value == u.ada_per_utxo_byte
            &&& set.min_pool_cost == u.min_pool_cost
            &&& set.expansion_rate == u.expansion_rate
            &&& set.treasury_growth_rate == u.treasury_growth_rate
            &&& set.maximum_epoch == u.maximum_epoch
            &&& set.pool_pledge_influence == u.pool_pledge_influence
            &&& set.ada_per_utxo_byte == u.ada_per_utxo_byte
            &&& set.pool_voting_thresholds == u.pool_voting_thresholds
            &&& set.drep_voting_thresholds == u.drep_voting_thresholds
            &&& set.min_committee_size == u.min_committee_size
            &&& set.committee_term_limit == u.committee_term_limit
            &&& set.governance_action_validity_period == u.governance_action_validity_period
            &&& set.governance_action_deposit == u.governance_action_deposit
            &&& set.drep_deposit == u.drep_deposit
            &&& set.drep_inactivity_period == u.drep_inactivity_period
            &&& set.max_tx_ex_units == u.max_tx_ex_units
            &&& set.max_block_ex_units == u.max_block_ex_units
            &&& set.min_fee_ref_script_cost_per_byte == u.minfee_refscript_cost_per_byte
            &&& set.execution_costs == u.execution_costs
            &&& (u.desired_number_of_stake_pools is None ==> set.desired_number_of_stake_pools is None)
            &&& (u.desired_number_of_stake_pools matches Some(x) ==> set.desired_number_of_stake_pools == Some(x as u32))
            &&& (u.max_value_size is None ==> set.max_value_size is None)
            &&& (u.max_value_size matches Some(x) ==> set.max_value_size == Some(x as u32))
            &&& (u.collateral_percentage is None ==> set.collateral_percentage is None)
            &&& (u.collateral_percentage matches Some(x) ==> set.collateral_percentage == Some(x as u32))
            &&& (u.max_collateral_inputs is None ==> set.max_collateral_inputs is None)
            &&& (u.max_collateral_inputs matches Some(x) ==> set.max_collateral_inputs == Some(x as u32))
            &&& set.system_start is None && set.protocol_version is None
        }),
{
}

/// The text an update proposing a Dijkstra-only parameter is refused with.
pub open spec fn unrecordable_text(p: DijkstraParam) -> Seq<char> {
    "protocol parameter "@ + param_name(p)
}

/// The parameter set a governance parameter update records.
///
/// An update that proposes a Dijkstra-only parameter is refused and the
/// parameter named, since a set has no place for it; so is an update
/// proposing cost models for an era whose update type this node does not
/// read them from.
/// A parameter set with its cost models taken out.
pub open spec fn without_cost_models(p: PParams) -> PParams {
    PParams {
        cost_models_plutus_v1: None,
        cost_models_plutus_v2: None,
        cost_models_plutus_v3: None,
        cost_models_unknown: None,
        ..p
    }
}

/// A parameter set with the cost models of another.
pub open spec fn with_cost_models_of(p: PParams, q: PParams) -> PParams {
    PParams {
        cost_models_plutus_v1: q.cost_models_plutus_v1,
        cost_models_plutus_v2: q.cost_models_plutus_v2,
        cost_models_plutus_v3: q.cost_models_plutus_v3,
        cost_models_unknown: q.cost_models_unknown,
        ..p
    }
}

fn narrow(v: Option<u64>) -> (r: Option<u32>)
    requires
        fits_u32(v),
    ensures
        r == narrowed(v),
{
    match v {
        Some(x) => Some(x as u32),
        None => None,
    }
}

/// The parameters an update proposes, but for its cost models.
fn proposed_params(update: &ParamUpdate) -> (set: PParamsSet)
    requires
        fits_u32(update.desired_number_of_stake_pools),
        fits_u32(update.max_value_size),
        fits_u32(update.collateral_percentage),
        fits_u32(update.max_collateral_inputs),
    ensures
        set@ == without_cost_models(update_params(*update)),
{
    let set = PParamsSet {
        system_start: None,
        epoch_length: None,
        slot_length: None,
        min_fee_a: update.minfee_a,
        min_fee_b: update.minfee_b,
        max_block_body_size: update.max_block_body_size,
        max_transaction_size: update.max_transaction_size,
        max_block_header_size: update.max_block_header_size,
        key_deposit: update.key_deposit,
        pool_deposit: update.pool_deposit,
        desired_number_of_stake_pools: narrow(update.desired_number_of_stake_pools),
        protocol_version: None,
        min_utxo_value: update.ada_per_utxo_byte,
        min_pool_cost: update.min_pool_cost,
        expansion_rate: update.expansion_rate,
        treasury_growth_rate: update.treasury_growth_rate,
        maximum_epoch: update.maximum_epoch,
        pool_pledge_influence: update.pool_pledge_influence,
        decentralization_constant: None,
        extra_entropy: None,
        ada_per_utxo_byte: update.ada_per_utxo_byte,
        cost_models_plutus_v1: None,
        cost_models_plutus_v2: None,
        cost_models_plutus_v3: None,
        cost_models_unknown: None,
        execution_costs: update.execution_costs,
        max_tx_ex_units: update.max_tx_ex_units,
        max_block_ex_units: update.max_block_ex_units,
        max_value_size: narrow(update.max_value_size),
        collateral_percentage: narrow(update.collateral_percentage),
        max_collateral_inputs: narrow(update.max_collateral_inputs),
        pool_voting_thresholds: update.pool_voting_thresholds,
        drep_voting_thresholds: update.drep_voting_thresholds,
        min_committee_size: update.min_committee_size,
        committee_term_limit: update.committee_term_limit,
        governance_action_validity_period: update.governance_action_validity_period,
        governance_action_deposit: update.governance_action_deposit,
        drep_deposit: update.drep_deposit,
        drep_inactivity_period: update.drep_inactivity_period,
        min_fee_ref_script_cost_per_byte: update.minfee_refscript_cost_per_byte,
    };
    assert(set@ =~= without_cost_models(update_params(*update)));
    set
}

/// The cost models an update proposes, added to a set.
fn with_proposed_cost_models(set: PParamsSet, update: &ParamUpdate) -> (r: Result<
    PParamsSet,
    ChainError,
>)
    requires
        set@.cost_models_plutus_v1 is None,
        set@.cost_models_plutus_v2 is None,
        set@.cost_models_plutus_v3 is None,
        set@.cost_models_unknown is None,
    ensures
        update.cost_models_for_script_languages is Some && update.era == UpdateEra::Other ==> (
        r matches Err(ChainError::UnrecordableProposalPart(s)) && s@ == unread_cost_models_text()),
        !(update.cost_models_for_script_languages is Some && update.era == UpdateEra::Other) ==> (
        r matches Ok(out) && out@ == with_cost_models_of(set@, update_params(*update))),
{
    let mut set = set;
    let ghost start = set@;
    match &update.cost_models_for_script_languages {
        Some(cm) => {
            if let Some(v1) = &cm.plutus_v1 {
                set.set(PParamValue::CostModelsPlutusV1(copy_model(v1)));
            }
            if let Some(v2) = &cm.plutus_v2 {
                set.set(PParamValue::CostModelsPlutusV2(copy_model(v2)));
            }
            if let Some(v3) = &cm.plutus_v3 {
                set.set(PParamValue::CostModelsPlutusV3(copy_model(v3)));
            }
            let mut wildcard = match wildcard_cost_models(update) {
                Ok(w) => w,
                Err(e) => {
                    return Err(e);
                },
            };
            if let Some(v4) = &cm.plutus_v4 {
                wildcard.insert(PLUTUS_V4_COST_MODEL_KEY, copy_model(v4));
            }
            assert(models_view(wildcard@) =~= proposed_wildcard(*update));
            assert(models_view(wildcard@).dom() =~= wildcard@.dom());
            if !wildcard.is_empty() {
                proof {
                    assert(wildcard@.len() > 0);
                }
                set.set(PParamValue::CostModelsUnknown(wildcard));
            } else {
                proof {
                    assert(wildcard@.dom() =~= Set::empty());
                }
            }
            Ok(set)
        },
        None => Ok(set),
    }
}

/// The parameter set a governance parameter update records.
///
/// An update that proposes a Dijkstra-only parameter is refused and the
/// parameter named, since a set has no place for it; so is an update
/// proposing cost models for an era whose update type this node does not
/// read them from.
pub fn param_update_to_pparamset(update: &ParamUpdate) -> (r: Result<PParamsSet, ChainError>)
    requires
        update_fits(*update),
    ensures
        first_unrecordable(update.dijkstra_only) matches Some(p) ==> (r matches Err(
            ChainError::UnrecordableProposalPart(s),
        ) && s@ == unrecordable_text(p)),
        first_unrecordable(update.dijkstra_only) is None && update.cost_models_for_script_languages
            is Some && update.era == UpdateEra::Other ==> (r matches Err(
            ChainError::UnrecordableProposalPart(s),
        ) && s@ == unread_cost_models_text()),
        first_unrecordable(update.dijkstra_only) is None && !(
        update.cost_models_for_script_languages is Some && update.era == UpdateEra::Other)
            ==> (r matches Ok(set) && set@ == update_params(*update)),
        r matches Ok(set) ==> ({
            &&& set@.min_fee_a == update.minfee_a
            &&& set@.min_fee_b == update.minfee_b
            &&& set@.max_block_body_size == update.max_block_body_size
            &&& set@.max_transaction_size == update.max_transaction_size
            &&& set@.max_block_header_size == update.max_block_header_size
            &&& set@.key_deposit == update.key_deposit
            &&& set@.pool_deposit == update.pool_deposit
            &&& set@.min_utxo_value == update.ada_per_utxo_byte
            &&& set@.min_pool_cost == update.min_pool_cost
            &&& set@.expansion_rate == update.expansion_rate
            &&& set@.treasury_growth_rate == update.treasury_growth_rate
            &&& set@.maximum_epoch == update.maximum_epoch
            &&& set@.pool_pledge_influence == update.pool_pledge_influence
            &&& set@.ada_per_utxo_byte == update.ada_per_utxo_byte
            &&& set@.pool_voting_thresholds == update.pool_voting_thresholds
            &&& set@.drep_voting_thresholds == update.drep_voting_thresholds
            &&& set@.min_committee_size == update.min_committee_size
            &&& set@.committee_term_limit == update.committee_term_limit
            &&& set@.governance_action_validity_period == update.governance_action_validity_period
            &&& set@.governance_action_deposit == update.governance_action_deposit
            &&& set@.drep_deposit == update.drep_deposit
            &&& set@.drep_inactivity_period == update.drep_inactivity_period
            &&& set@.max_tx_ex_units == update.max_tx_ex_units
            &&& set@.max_block_ex_units == update.max_block_ex_units
            &&& set@.min_fee_ref_script_cost_per_byte == update.minfee_refscript_cost_per_byte
            &&& set@.execution_costs == update.execution_costs
            &&& (update.desired_number_of_stake_pools is None ==> set@.desired_number_of_stake_pools is None)
            &&& (update.desired_number_of_stake_pools matches Some(x) ==> set@.desired_number_of_stake_pools == Some(x as u32))
            &&& (update.max_value_size is None ==> set@.max_value_size is None)
            &&& (update.max_value_size matches Some(x) ==> set@.max_value_size == Some(x as u32))
            &&& (update.collateral_percentage is None ==> set@.collateral_percentage is None)
            &&& (update.collateral_percentage matches Some(x) ==> set@.collateral_percentage == Some(x as u32))
            &&& (update.max_collateral_inputs is None ==> set@.max_collateral_inputs is None)
            &&& (update.max_collateral_inputs matches Some(x) ==> set@.max_collateral_inputs == Some(x as u32))
            &&& set@.system_start is None && set@.protocol_version is None
        }),
{
    if let Some(p) = unrecordable_param(update) {
        let mut text = String::from_str("protocol parameter ");
        text.append(p.name());
        return Err(ChainError::UnrecordableProposalPart(text));
    }
    let set = proposed_params(update);
    let r = with_proposed_cost_models(set, update);
    proof {
        if let Ok(out) = &r {
            assert(out@ =~= update_params(*update));
        }
    }
    r
}


/// The cost models a Babbage update proposes.
pub struct BabbageCostModels {
    pub plutus_v1: Option<CostModel>,
    pub plutus_v2: Option<CostModel>,
}

/// A protocol parameter update of the eras before Conway: every value the
/// genesis delegates proposed for each parameter, and the block version and
/// cost models of the first proposal in each era's own form.
pub struct PreConwayUpdate {
    pub all_proposed_minfee_a: Vec<u64>,
    pub all_proposed_minfee_b: Vec<u64>,
    pub all_proposed_max_block_body_size: Vec<u64>,
    pub all_proposed_max_transaction_size: Vec<u64>,
    pub all_proposed_max_block_header_size: Vec<u64>,
    pub all_proposed_key_deposit: Vec<u64>,
    pub all_proposed_pool_deposit: Vec<u64>,
    pub all_proposed_desired_number_of_stake_pools: Vec<u64>,
    pub all_proposed_protocol_version: Vec<(u64, u64)>,
    pub all_proposed_ada_per_utxo_byte: Vec<u64>,
    pub all_proposed_min_pool_cost: Vec<u64>,
    pub all_proposed_expansion_rate: Vec<RationalNumber>,
    pub all_proposed_treasury_growth_rate: Vec<RationalNumber>,
    pub all_proposed_maximum_epoch: Vec<u64>,
    pub all_proposed_pool_pledge_influence: Vec<RationalNumber>,
    pub all_proposed_decentralization_constant: Vec<RationalNumber>,
    pub all_proposed_extra_entropy: Vec<Nonce>,
    pub all_proposed_execution_costs: Vec<ExUnitPrices>,
    pub all_proposed_max_tx_ex_units: Vec<ExUnits>,
    pub all_proposed_max_block_ex_units: Vec<ExUnits>,
    pub all_proposed_max_value_size: Vec<u64>,
    pub all_proposed_collateral_percentage: Vec<u64>,
    pub all_proposed_max_collateral_inputs: Vec<u64>,
    pub all_proposed_pool_voting_thresholds: Vec<PoolVotingThresholds>,
    pub all_proposed_drep_voting_thresholds: Vec<DRepVotingThresholds>,
    pub all_proposed_min_committee_size: Vec<u64>,
    pub all_proposed_committee_term_limit: Vec<u64>,
    pub all_proposed_governance_action_validity_period: Vec<u64>,
    pub all_proposed_governance_action_deposit: Vec<u64>,
    pub all_proposed_drep_deposit: Vec<u64>,
    pub all_proposed_drep_inactivity_period: Vec<u64>,
    pub all_proposed_minfee_refscript_cost_per_byte: Vec<RationalNumber>,
    /// The major, minor and alternative version a Byron update proposes.
    pub byron_proposed_block_version: Option<(u16, u16, u8)>,
    pub alonzo_first_proposed_cost_models: Option<Vec<(Language, CostModel)>>,
    pub babbage_first_proposed_cost_models: Option<BabbageCostModels>,
    pub conway_first_proposed_cost_models: Option<CostModels>,
}

/// The first of the values proposed for a parameter, if any.
pub open spec fn first<T>(s: Seq<T>) -> Option<T> {
    if s.len() > 0 {
        Some(s[0])
    } else {
        None
    }
}

/// The first option that holds a value.
pub open spec fn or_else<T>(a: Option<T>, b: Option<T>) -> Option<T> {
    match a {
        Some(x) => Some(x),
        None => b,
    }
}

/// Whether every count a pre-Conway update proposes first fits the `u32` a
/// parameter set holds it as.
pub open spec fn pre_conway_fits(u: PreConwayUpdate) -> bool {
    &&& fits_u32(first(u.all_proposed_desired_number_of_stake_pools@))
    &&& fits_u32(first(u.all_proposed_max_value_size@))
    &&& fits_u32(first(u.all_proposed_collateral_percentage@))
    &&& fits_u32(first(u.all_proposed_max_collateral_inputs@))
}

/// The PlutusV1 cost model of the first Alonzo proposal, if it names one.
pub open spec fn alonzo_v1(u: PreConwayUpdate) -> Option<Seq<i64>> {
    match u.alonzo_first_proposed_cost_models {
        Some(cm) => language_model(cm@, Language::PlutusV1),
        None => None,
    }
}

/// A recorded pre-Conway update holds, for each parameter, the first value
/// its proposals set under that parameter's own name, none where no
/// proposal sets one, and a Byron block version over any other version.
pub proof fn lemma_pre_conway_update_recorded_under_its_own_names(u: PreConwayUpdate)
    ensures
        ({
            let q = pre_conway_params(u);
            &&& (u.all_proposed_minfee_a@.len() > 0 ==> q.min_fee_a == Some(u.all_proposed_minfee_a@[0]))
            &&& (u.all_proposed_minfee_a@.len() == 0 ==> q.min_fee_a is None)
            &&& (u.all_proposed_minfee_b@.len() > 0 ==> q.min_fee_b == Some(u.all_proposed_minfee_b@[0]))
            &&& (u.all_proposed_minfee_b@.len() == 0 ==> q.min_fee_b is None)
            &&& (u.all_proposed_max_block_body_size@.len() > 0 ==> q.max_block_body_size == Some(u.all_proposed_max_block_body_size@[0]))
            &&& (u.all_proposed_max_block_body_size@.len() == 0 ==> q.max_block_body_size is None)
            &&& (u.all_proposed_max_transaction_size@.len() > 0 ==> q.max_transaction_size == Some(u.all_proposed_max_transaction_size@[0]))
            &&& (u.all_proposed_max_transaction_size@.len() == 0 ==> q.max_transaction_size is None)
            &&& (u.all_proposed_max_block_header_size@.len() > 0 ==> q.max_block_header_size == Some(u.all_proposed_max_block_header_size@[0]))
            &&& (u.all_proposed_max_block_header_size@.len() == 0 ==> q.max_block_header_size is None)
            &&& (u.all_proposed_key_deposit@.len() > 0 ==> q.key_deposit == Some(u.all_proposed_key_deposit@[0]))
            &&& (u.all_proposed_key_deposit@.len() == 0 ==> q.key_deposit is None)
            &&& (u.all_proposed_pool_deposit@.len() > 0 ==> q.pool_deposit == Some(u.all_proposed_pool_deposit@[0]))
            &&& (u.all_proposed_pool_deposit@.len() == 0 ==> q.pool_deposit is None)
            &&& (u.all_proposed_ada_per_utxo_byte@.len() > 0 ==> q.min_utxo_value == Some(u.all_proposed_ada_per_utxo_byte@[0]))
            &&& (u.all_proposed_ada_per_utxo_byte@.len() == 0 ==> q.min_utxo_value is None)
            &&& (u.all_proposed_min_pool_cost@.len() > 0 ==> q.min_pool_cost == Some(u.all_proposed_min_pool_cost@[0]))
            &&& (u.all_proposed_min_pool_cost@.len() == 0 ==> q.min_pool_cost is None)
            &&& (u.all_proposed_expansion_rate@.len() > 0 ==> q.expansion_rate == Some(u.all_proposed_expansion_rate@[0]))
            &&& (u.all_proposed_expansion_rate@.len() == 0 ==> q.expansion_rate is None)
            &&& (u.all_proposed_treasury_growth_rate@.len() > 0 ==> q.treasury_growth_rate == Some(u.all_proposed_treasury_growth_rate@[0]))
            &&& (u.all_proposed_treasury_growth_rate@.len() == 0 ==> q.treasury_growth_rate is None)
            &&& (u.all_proposed_maximum_epoch@.len() > 0 ==> q.maximum_epoch == Some(u.all_proposed_maximum_epoch@[0]))
            &&& (u.all_proposed_maximum_epoch@.len() == 0 ==> q.maximum_epoch is None)
            &&& (u.all_proposed_pool_pledge_influence@.len() > 0 ==> q.pool_pledge_influence == Some(u.all_proposed_pool_pledge_influence@[0]))
            &&& (u.all_proposed_pool_pledge_influence@.len() == 0 ==> q.pool_pledge_influence is None)
            &&& (u.all_proposed_decentralization_constant@.len() > 0 ==> q.decentralization_constant == Some(u.all_proposed_decentralization_constant@[0]))
            &&& (u.all_proposed_decentralization_constant@.len() == 0 ==> q.decentralization_constant is None)
            &&& (u.all_proposed_ada_per_utxo_byte@.len() > 0 ==> q.ada_per_utxo_byte == Some(u.all_proposed_ada_per_utxo_byte@[0]))
            &&& (u.all_proposed_ada_per_utxo_byte@.len() == 0 ==> q.ada_per_utxo_byte is None)
            &&& (u.all_proposed_execution_costs@.len() > 0 ==> q.execution_costs == Some(u.all_proposed_execution_costs@[0]))
            &&& (u.all_proposed_execution_costs@.len() == 0 ==> q.execution_costs is None)
            &&& (u.all_proposed_max_tx_ex_units@.len() > 0 ==> q.max_tx_ex_units == Some(u.all_proposed_max_tx_ex_units@[0]))
            &&& (u.all_proposed_max_tx_ex_units@.len() == 0 ==> q.max_tx_ex_units is None)
            &&& (u.all_proposed_max_block_ex_units@.len() > 0 ==> q.max_block_ex_units == Some(u.all_proposed_max_block_ex_units@[0]))
            &&& (u.all_proposed_max_block_ex_units@.len() == 0 ==> q.max_block_ex_units is None)
            &&& (u.all_proposed_pool_voting_thresholds@.len() > 0 ==> q.pool_voting_thresholds == Some(u.all_proposed_pool_voting_thresholds@[0]))
            &&& (u.all_proposed_pool_voting_thresholds@.len() == 0 ==> q.pool_voting_thresholds is None)
            &&& (u.all_proposed_drep_voting_thresholds@.len() > 0 ==> q.drep_voting_thresholds == Some(u.all_proposed_drep_voting_thresholds@[0]))
            &&& (u.all_proposed_drep_voting_thresholds@.len() == 0 ==> q.drep_voting_thresholds is None)
            &&& (u.all_proposed_min_committee_size@.len() > 0 ==> q.min_committee_size == Some(u.all_proposed_min_committee_size@[0]))
            &&& (u.all_proposed_min_committee_size@.len() == 0 ==> q.min_committee_size is None)
            &&& (u.all_proposed_committee_term_limit@.len() > 0 ==> q.committee_term_limit == Some(u.all_proposed_committee_term_limit@[0]))
            &&& (u.all_proposed_committee_term_limit@.len() == 0 ==> q.committee_term_limit is None)
            &&& (u.all_proposed_governance_action_validity_period@.len() > 0 ==> q.governance_action_validity_period == Some(u.all_proposed_governance_action_validity_period@[0]))
            &&& (u.all_proposed_governance_action_validity_period@.len() == 0 ==> q.governance_action_validity_period is None)
            &&& (u.all_proposed_governance_action_deposit@.len() > 0 ==> q.governance_action_deposit == Some(u.all_proposed_governance_action_deposit@[0]))
            &&& (u.all_proposed_governance_action_deposit@.len() == 0 ==> q.governance_action_deposit is None)
            &&& (u.all_proposed_drep_deposit@.len() > 0 ==> q.drep_deposit == Some(u.all_proposed_drep_deposit@[0]))
            &&& (u.all_proposed_drep_deposit@.len() == 0 ==> q.drep_deposit is None)
            &&& (u.all_proposed_drep_inactivity_period@.len() > 0 ==> q.drep_inactivity_period == Some(u.all_proposed_drep_inactivity_period@[0]))
            &&& (u.all_proposed_drep_inactivity_period@.len() == 0 ==> q.drep_inactivity_period is None)
            &&& (u.all_proposed_minfee_refscript_cost_per_byte@.len() > 0 ==> q.min_fee_ref_script_cost_per_byte == Some(u.all_proposed_minfee_refscript_cost_per_byte@[0]))
            &&& (u.all_proposed_minfee_refscript_cost_per_byte@.len() == 0 ==> q.min_fee_ref_script_cost_per_byte is None)
            &&& (u.all_proposed_desired_number_of_stake_pools@.len() > 0 ==> q.desired_number_of_stake_pools == Some(u.all_proposed_desired_number_of_stake_pools@[0] as u32))
            &&& (u.all_proposed_desired_number_of_stake_pools@.len() == 0 ==> q.desired_number_of_stake_pools is None)
            &&& (u.all_proposed_max_value_size@.len() > 0 ==> q.max_value_size == Some(u.all_proposed_max_value_size@[0] as u32))
            &&& (u.all_proposed_max_value_size@.len() == 0 ==> q.max_value_size is None)
            &&& (u.all_proposed_collateral_percentage@.len() > 0 ==> q.collateral_percentage == Some(u.all_proposed_collateral_percentage@[0] as u32))
            &&& (u.all_proposed_collateral_percentage@.len() == 0 ==> q.collateral_percentage is None)
            &&& (u.all_proposed_max_collateral_inputs@.len() > 0 ==> q.max_collateral_inputs == Some(u.all_proposed_max_collateral_inputs@[0] as u32))
            &&& (u.all_proposed_max_collateral_inputs@.len() == 0 ==> q.max_collateral_inputs is None)
            &&& (u.byron_proposed_block_version matches Some((major, minor, _)) ==> q.protocol_version == Some((major as u64, minor as u64)))
            &&& (u.byron_proposed_block_version is None && u.all_proposed_protocol_version@.len() > 0 ==> q.protocol_version == Some(u.all_proposed_protocol_version@[0]))
        }),
{
}

/// The parameter set a pre-Conway update records: the first value proposed
/// for each parameter, the Byron block version over any other proposed
/// version, and the cost models of the latest era that proposes each.
pub open spec fn pre_conway_params(u: PreConwayUpdate) -> PParams {
    let babbage = u.babbage_first_proposed_cost_models;
    let conway = u.conway_first_proposed_cost_models;
    let byron_version = match u.byron_proposed_block_version {
        Some((major, minor, _)) => Some((major as u64, minor as u64)),
        None => None,
    };
    let babbage_v1 = match babbage {
        Some(cm) => model_view(cm.plutus_v1),
        None => None,
    };
    let babbage_v2 = match babbage {
        Some(cm) => model_view(cm.plutus_v2),
        None => None,
    };
    PParams {
        min_fee_a: first(u.all_proposed_minfee_a@),
        min_fee_b: first(u.all_proposed_minfee_b@),
        max_block_body_size: first(u.all_proposed_max_block_body_size@),
        max_transaction_size: first(u.all_proposed_max_transaction_size@),
        max_block_header_size: first(u.all_proposed_max_block_header_size@),
        key_deposit: first(u.all_proposed_key_deposit@),
        pool_deposit: first(u.all_proposed_pool_deposit@),
        desired_number_of_stake_pools: narrowed(
            first(u.all_proposed_desired_number_of_stake_pools@),
        ),
        protocol_version: or_else(byron_version, first(u.all_proposed_protocol_version@)),
        min_utxo_value: first(u.all_proposed_ada_per_utxo_byte@),
        min_pool_cost: first(u.all_proposed_min_pool_cost@),
        expansion_rate: first(u.all_proposed_expansion_rate@),
        treasury_growth_rate: first(u.all_proposed_treasury_growth_rate@),
        maximum_epoch: first(u.all_proposed_maximum_epoch@),
        pool_pledge_influence: first(u.all_proposed_pool_pledge_influence@),
        decentralization_constant: first(u.all_proposed_decentralization_constant@),
        extra_entropy: match first(u.all_proposed_extra_entropy@) {
            Some(n) => Some(nonce_view(n)),
            None => None,
        },
        ada_per_utxo_byte: first(u.all_proposed_ada_per_utxo_byte@),
        execution_costs: first(u.all_proposed_execution_costs@),
        max_tx_ex_units: first(u.all_proposed_max_tx_ex_units@),
        max_block_ex_units: first(u.all_proposed_max_block_ex_units@),
        max_value_size: narrowed(first(u.all_proposed_max_value_size@)),
        collateral_percentage: narrowed(first(u.all_proposed_collateral_percentage@)),
        max_collateral_inputs: narrowed(first(u.all_proposed_max_collateral_inputs@)),
        pool_voting_thresholds: first(u.all_proposed_pool_voting_thresholds@),
        drep_voting_thresholds: first(u.all_proposed_drep_voting_thresholds@),
        min_committee_size: first(u.all_proposed_min_committee_size@),
        committee_term_limit: first(u.all_proposed_committee_term_limit@),
        governance_action_validity_period: first(
            u.all_proposed_governance_action_validity_period@,
        ),
        governance_action_deposit: first(u.all_proposed_governance_action_deposit@),
        drep_deposit: first(u.all_proposed_drep_deposit@),
        drep_inactivity_period: first(u.all_proposed_drep_inactivity_period@),
        min_fee_ref_script_cost_per_byte: first(u.all_proposed_minfee_refscript_cost_per_byte@),
        cost_models_plutus_v1: match conway {
            Some(cm) => or_else(model_view(cm.plutus_v1), or_else(babbage_v1, alonzo_v1(u))),
            None => or_else(babbage_v1, alonzo_v1(u)),
        },
        cost_models_plutus_v2: match conway {
            Some(cm) => or_else(model_view(cm.plutus_v2), babbage_v2),
            None => babbage_v2,
        },
        cost_models_plutus_v3: match conway {
            Some(cm) => model_view(cm.plutus_v3),
            None => None,
        },
        cost_models_unknown: match conway {
            Some(cm) => if cm.unknown@.dom().len() > 0 {
                Some(models_view(cm.unknown@))
            } else {
                None
            },
            None => None,
        },
        ..empty_params()
    }
}

fn first_of<T: Copy>(v: &Vec<T>) -> (r: Option<T>)
    ensures
        r == first(v@),
{
    if v.len() > 0 {
        Some(v[0])
    } else {
        None
    }
}

fn first_count(v: &Vec<u64>) -> (r: Option<u32>)
    requires
        fits_u32(first(v@)),
    ensures
        r == narrowed(first(v@)),
{
    if v.len() > 0 {
        Some(v[0] as u32)
    } else {
        None
    }
}

/// The parameters a pre-Conway update proposes, but for its cost models.
fn pre_conway_scalars(update: &PreConwayUpdate) -> (set: PParamsSet)
    requires
        pre_conway_fits(*update),
    ensures
        set@ == without_cost_models(pre_conway_params(*update)),
{
    let byron_version = match update.byron_proposed_block_version {
        Some((major, minor, _)) => Some((major as u64, minor as u64)),
        None => None,
    };
    let protocol_version = match byron_version {
        Some(v) => Some(v),
        None => first_of(&update.all_proposed_protocol_version),
    };
    let set = PParamsSet {
        system_start: None,
        epoch_length: None,
        slot_length: None,
        min_fee_a: first_of(&update.all_proposed_minfee_a),
        min_fee_b: first_of(&update.all_proposed_minfee_b),
        max_block_body_size: first_of(&update.all_proposed_max_block_body_size),
        max_transaction_size: first_of(&update.all_proposed_max_transaction_size),
        max_block_header_size: first_of(&update.all_proposed_max_block_header_size),
        key_deposit: first_of(&update.all_proposed_key_deposit),
        pool_deposit: first_of(&update.all_proposed_pool_deposit),
        desired_number_of_stake_pools: first_count(
            &update.all_proposed_desired_number_of_stake_pools,
        ),
        protocol_version,
        min_utxo_value: first_of(&update.all_proposed_ada_per_utxo_byte),
        min_pool_cost: first_of(&update.all_proposed_min_pool_cost),
        expansion_rate: first_of(&update.all_proposed_expansion_rate),
        treasury_growth_rate: first_of(&update.all_proposed_treasury_growth_rate),
        maximum_epoch: first_of(&update.all_proposed_maximum_epoch),
        pool_pledge_influence: first_of(&update.all_proposed_pool_pledge_influence),
        decentralization_constant: first_of(&update.all_proposed_decentralization_constant),
        extra_entropy: first_of(&update.all_proposed_extra_entropy),
        ada_per_utxo_byte: first_of(&update.all_proposed_ada_per_utxo_byte),
        cost_models_plutus_v1: None,
        cost_models_plutus_v2: None,
        cost_models_plutus_v3: None,
        cost_models_unknown: None,
        execution_costs: first_of(&update.all_proposed_execution_costs),
        max_tx_ex_units: first_of(&update.all_proposed_max_tx_ex_units),
        max_block_ex_units: first_of(&update.all_proposed_max_block_ex_units),
        max_value_size: first_count(&update.all_proposed_max_value_size),
        collateral_percentage: first_count(&update.all_proposed_collateral_percentage),
        max_collateral_inputs: first_count(&update.all_proposed_max_collateral_inputs),
        pool_voting_thresholds: first_of(&update.all_proposed_pool_voting_thresholds),
        drep_voting_thresholds: first_of(&update.all_proposed_drep_voting_thresholds),
        min_committee_size: first_of(&update.all_proposed_min_committee_size),
        committee_term_limit: first_of(&update.all_proposed_committee_term_limit),
        governance_action_validity_period: first_of(
            &update.all_proposed_governance_action_validity_period,
        ),
        governance_action_deposit: first_of(&update.all_proposed_governance_action_deposit),
        drep_deposit: first_of(&update.all_proposed_drep_deposit),
        drep_inactivity_period: first_of(&update.all_proposed_drep_inactivity_period),
        min_fee_ref_script_cost_per_byte: first_of(
            &update.all_proposed_minfee_refscript_cost_per_byte,
        ),
    };
    assert(set@ =~= without_cost_models(pre_conway_params(*update)));
    set
}

/// The parameter set a pre-Conway protocol parameter update records.
pub fn pre_conway_to_pparamset(update: &PreConwayUpdate) -> (r: PParamsSet)
    requires
        pre_conway_fits(*update),
    ensures
        r@ == pre_conway_params(*update),
{
    let mut set = pre_conway_scalars(update);
    if let Some(cm) = &update.alonzo_first_proposed_cost_models {
        match crate::forks::from_alonzo_cost_models_map(cm, Language::PlutusV1) {
            Some(v1) => set.set(PParamValue::CostModelsPlutusV1(v1)),
            None => {},
        }
    }
    if let Some(cm) = &update.babbage_first_proposed_cost_models {
        if let Some(v1) = &cm.plutus_v1 {
            set.set(PParamValue::CostModelsPlutusV1(copy_model(v1)));
        }
        if let Some(v2) = &cm.plutus_v2 {
            set.set(PParamValue::CostModelsPlutusV2(copy_model(v2)));
        }
    }
    if let Some(cm) = &update.conway_first_proposed_cost_models {
        if let Some(v1) = &cm.plutus_v1 {
            set.set(PParamValue::CostModelsPlutusV1(copy_model(v1)));
        }
        if let Some(v2) = &cm.plutus_v2 {
            set.set(PParamValue::CostModelsPlutusV2(copy_model(v2)));
        }
        if let Some(v3) = &cm.plutus_v3 {
            set.set(PParamValue::CostModelsPlutusV3(copy_model(v3)));
        }
        if !cm.unknown.is_empty() {
            proof {
                assert(cm.unknown@.len() > 0);
            }
            set.set(PParamValue::CostModelsUnknown(copy_models_map(&cm.unknown)));
        } else {
            proof {
                assert(cm.unknown@.dom() =~= Set::empty());
            }
        }
    }
    assert(set@ =~= pre_conway_params(*update));
    set
}


/// A governance action, named by the transaction that proposed it and its
/// index there.
#[derive(Debug, Clone, Copy, PartialEq, Eq)]
pub struct GovActionId {
    pub transaction_id: [u8; 32],
    pub action_index: u32,
}

/// A stake credential: a key hash or a script hash.
#[derive(Debug, Clone, Copy, PartialEq, Eq)]
pub enum Credential {
    AddrKeyhash([u8; 28]),
    ScriptHash([u8; 28]),
}

/// A link to a document and the hash of its contents.
#[derive(Debug, PartialEq)]
pub struct Anchor {
    pub url: String,
    pub content_hash: [u8; 32],
}

/// A constitution: its document and the script that guards parameter
/// changes, if any.
#[derive(Debug, PartialEq)]
pub struct Constitution {
    pub anchor: Anchor,
    pub guardrail_script: Option<[u8; 28]>,
}

/// What a governance action asks for.
pub enum GovActionKind {
    ParameterChange(ParamUpdate),
    HardForkInitiation((u64, u64)),
    /// Each withdrawal's reward account, read as the stake credential it
    /// names where it names one, and its amount.
    TreasuryWithdrawals(Vec<(Option<Credential>, u64)>),
    NoConfidence,
    UpdateCommittee { to_remove: Vec<Credential>, to_add: Vec<(Credential, u64)>, threshold: RationalNumber },
    NewConstitution(Constitution),
    Information,
    /// A kind of action this node does not read.
    Unknown,
}

/// A governance action: what it asks for, and the previous action of the
/// same purpose it follows, where it names one.
pub struct GovAction {
    pub id: Option<GovActionId>,
    pub kind: GovActionKind,
}

/// The tree of actions a governance action belongs to.
#[derive(Debug, Clone, Copy, PartialEq, Eq, Structural)]
pub enum GovPurpose {
    PParamUpdate,
    HardFork,
    Committee,
    Constitution,
}

/// What a recorded proposal asks for.
#[derive(Debug, PartialEq)]
pub enum ProposalAction {
    ParamChange(PParamsSet),
    HardFork((u64, u64)),
    TreasuryWithdrawal(Vec<(Credential, u64)>),
    NoConfidence,
    UpdateCommittee { to_remove: Vec<Credential>, to_add: Vec<(Credential, u64)>, threshold: RationalNumber },
    NewConstitution { anchor: Anchor, guardrail_script: Option<[u8; 28]> },
    Info,
}

/// Whether every withdrawal names a stake credential.
pub open spec fn all_accounts_read(ws: Seq<(Option<Credential>, u64)>) -> bool {
    forall|i: int| 0 <= i < ws.len() ==> (#[trigger] ws[i]).0 is Some
}

/// The withdrawals with their accounts read.
pub open spec fn read_withdrawals(ws: Seq<(Option<Credential>, u64)>) -> Seq<(Credential, u64)> {
    ws.map_values(|w: (Option<Credential>, u64)| (w.0.unwrap(), w.1))
}

/// A treasury withdrawal is recorded withdrawal by withdrawal, in order:
/// each to the stake credential its account names, of the amount it asks.
pub proof fn lemma_each_withdrawal_recorded_as_asked(ws: Seq<(Option<Credential>, u64)>)
    requires
        all_accounts_read(ws),
    ensures
        read_withdrawals(ws).len() == ws.len(),
        forall|i: int|
            0 <= i < ws.len() ==> ws[i].0 == Some((#[trigger] read_withdrawals(ws)[i]).0)
                && read_withdrawals(ws)[i].1 == ws[i].1,
{
    assert forall|i: int| 0 <= i < ws.len() implies ws[i].0 == Some(
        (#[trigger] read_withdrawals(ws)[i]).0,
    ) && read_withdrawals(ws)[i].1 == ws[i].1 by {
        assert(ws[i].0 is Some);
    }
}

/// The treasury withdrawal a list of withdrawals records; refused as
/// malformed when an account names no stake credential.
pub fn parse_treasury_withdrawals(withdrawals: &Vec<(Option<Credential>, u64)>) -> (r: Result<
    ProposalAction,
    ChainError,
>)
    ensures
        r is Ok <==> all_accounts_read(withdrawals@),
        r matches Ok(a) ==> (a matches ProposalAction::TreasuryWithdrawal(items) && items@
            == read_withdrawals(withdrawals@)),
        r matches Err(e) ==> e is InvalidProposalParams,
{
    let mut items: Vec<(Credential, u64)> = Vec::new();
    let mut i: usize = 0;
    while i < withdrawals.len()
        invariant
            i <= withdrawals@.len(),
            all_accounts_read(withdrawals@.take(i as int)),
            items@ == read_withdrawals(withdrawals@.take(i as int)),
        decreases withdrawals@.len() - i,
    {
        let (credential, amount) = withdrawals[i];
        let credential = match credential {
            Some(c) => c,
            None => {
                assert(!((withdrawals@[i as int]).0 is Some));
                return Err(ChainError::InvalidProposalParams);
            },
        };
        items.push((credential, amount));
        i = i + 1;
        proof {
            assert(withdrawals@.take(i as int) =~= withdrawals@.take(i - 1).push(withdrawals@[i - 1]));
            assert(items@ =~= read_withdrawals(withdrawals@.take(i as int)));
        }
    }
    assert(withdrawals@.take(withdrawals@.len() as int) =~= withdrawals@);
    Ok(ProposalAction::TreasuryWithdrawal(items))
}

fn copy_credentials(v: &Vec<Credential>) -> (r: Vec<Credential>)
    ensures
        r@ == v@,
{
    let mut out: Vec<Credential> = Vec::new();
    let mut i: usize = 0;
    while i < v.len()
        invariant
            i <= v@.len(),
            out@ == v@.take(i as int),
        decreases v@.len() - i,
    {
        out.push(v[i]);
        i = i + 1;
        assert(out@ =~= v@.take(i as int));
    }
    assert(v@.take(v@.len() as int) =~= v@);
    out
}

fn copy_terms(v: &Vec<(Credential, u64)>) -> (r: Vec<(Credential, u64)>)
    ensures
        r@ == v@,
{
    let mut out: Vec<(Credential, u64)> = Vec::new();
    let mut i: usize = 0;
    while i < v.len()
        invariant
            i <= v@.len(),
            out@ == v@.take(i as int),
        decreases v@.len() - i,
    {
        out.push(v[i]);
        i = i + 1;
        assert(out@ =~= v@.take(i as int));
    }
    assert(v@.take(v@.len() as int) =~= v@);
    out
}

/// The text an action of a kind this node does not read is refused with.
pub open spec fn unknown_action_text() -> Seq<char> {
    "a governance action of a kind this node does not read"@
}

/// Whether a parameter update's counts fit the set, where the action is one
/// and its counts are read at all.
pub open spec fn action_fits(action: GovAction) -> bool {
    action.kind matches GovActionKind::ParameterChange(u) ==> update_fits(u)
}

/// Whether a parameter update can be recorded: it proposes no Dijkstra-only
/// parameter, and no cost models of an era this node does not read them
/// from.
pub open spec fn update_recordable(u: ParamUpdate) -> bool {
    first_unrecordable(u.dijkstra_only) is None && !(u.cost_models_for_script_languages is Some
        && u.era == UpdateEra::Other)
}

/// Whether a governance action can be recorded: a parameter update that
/// can be, withdrawals whose accounts all name a stake credential, or any
/// other kind this node reads.
pub open spec fn action_recordable(action: GovAction) -> bool {
    match action.kind {
        GovActionKind::ParameterChange(u) => update_recordable(u),
        GovActionKind::TreasuryWithdrawals(ws) => all_accounts_read(ws@),
        GovActionKind::Unknown => false,
        _ => true,
    }
}

/// Whether a recorded proposal asks for what a governance action asks for:
/// the parameter set an update reads into, the version a hard fork names,
/// the withdrawals with their accounts read, the committee change, the
/// constitution, or no confidence or information alone. An action of a kind
/// this node does not read is recorded as nothing.
pub open spec fn records_action(a: ProposalAction, k: GovActionKind) -> bool {
    match k {
        GovActionKind::ParameterChange(u) => a matches ProposalAction::ParamChange(set) && set@
            == update_params(u),
        GovActionKind::HardForkInitiation(v) => a matches ProposalAction::HardFork(w) && w == v,
        GovActionKind::TreasuryWithdrawals(ws) => a matches ProposalAction::TreasuryWithdrawal(items)
            && items@ == read_withdrawals(ws@),
        GovActionKind::NoConfidence => a is NoConfidence,
        GovActionKind::UpdateCommittee { to_remove, to_add, threshold } => a matches ProposalAction::UpdateCommittee {
            to_remove: rm,
            to_add: ad,
            threshold: th,
        } && rm@ == to_remove@ && ad@ == to_add@ && th == threshold,
        GovActionKind::NewConstitution(c) => a matches ProposalAction::NewConstitution {
            anchor,
            guardrail_script,
        } && anchor.url@ == c.anchor.url@ && anchor.content_hash == c.anchor.content_hash
            && guardrail_script == c.guardrail_script,
        GovActionKind::Information => a is Info,
        GovActionKind::Unknown => false,
    }
}

/// The tree of actions a governance action belongs to: parameter updates,
/// hard forks, the committee (no confidence or a change to it) and the
/// constitution; withdrawals and information belong to none.
pub open spec fn action_purpose(k: GovActionKind) -> Option<GovPurpose> {
    match k {
        GovActionKind::ParameterChange(_) => Some(GovPurpose::PParamUpdate),
        GovActionKind::HardForkInitiation(_) => Some(GovPurpose::HardFork),
        GovActionKind::NoConfidence => Some(GovPurpose::Committee),
        GovActionKind::UpdateCommittee { .. } => Some(GovPurpose::Committee),
        GovActionKind::NewConstitution(_) => Some(GovPurpose::Constitution),
        _ => None,
    }
}

/// Reads a governance action of any era into what it asks for, the previous
/// action of the same purpose it follows, and the purpose tree it belongs
/// to. Treasury withdrawals and information have no tree.
pub fn parse_gov_action(action: &GovAction) -> (r: Result<
    (ProposalAction, Option<GovActionId>, Option<GovPurpose>),
    ChainError,
>)
    requires
        action_fits(*action),
    ensures
        r is Ok <==> action_recordable(*action),
        r matches Ok((_, parent, _)) ==> parent == action.id,
        r matches Ok((a, _, purpose)) ==> records_action(a, action.kind) && purpose
            == action_purpose(action.kind),
        match action.kind {
            GovActionKind::ParameterChange(u) => {
                &&& r is Ok <==> update_recordable(u)
                &&& r matches Ok((a, _, purpose)) ==> purpose == Some(GovPurpose::PParamUpdate) && (
                a matches ProposalAction::ParamChange(set) && set@ == update_params(u))
                &&& first_unrecordable(u.dijkstra_only) matches Some(p) ==> (r matches Err(
                    ChainError::UnrecordableProposalPart(s),
                ) && s@ == unrecordable_text(p))
                &&& first_unrecordable(u.dijkstra_only) is None && !update_recordable(u) ==> (
                r matches Err(ChainError::UnrecordableProposalPart(s)) && s@
                    == unread_cost_models_text())
            },
            GovActionKind::HardForkInitiation(v) => r matches Ok((a, _, purpose)) && purpose == Some(
                GovPurpose::HardFork,
            ) && (a matches ProposalAction::HardFork(w) && w == v),
            GovActionKind::TreasuryWithdrawals(ws) => {
                &&& r is Ok <==> all_accounts_read(ws@)
                &&& r matches Ok((a, _, purpose)) ==> purpose is None && (
                a matches ProposalAction::TreasuryWithdrawal(items) && items@ == read_withdrawals(ws@))
                &&& r matches Err(e) ==> e is InvalidProposalParams
            },
            GovActionKind::NoConfidence => r matches Ok((a, _, purpose)) && purpose == Some(
                GovPurpose::Committee,
            ) && a is NoConfidence,
            GovActionKind::UpdateCommittee { to_remove, to_add, threshold } => r matches Ok(
                (a, _, purpose),
            ) && purpose == Some(GovPurpose::Committee) && (a matches ProposalAction::UpdateCommittee {
                to_remove: rm,
                to_add: ad,
                threshold: th,
            } && rm@ == to_remove@ && ad@ == to_add@ && th == threshold),
            GovActionKind::NewConstitution(c) => r matches Ok((a, _, purpose)) && purpose == Some(
                GovPurpose::Constitution,
            ) && (a matches ProposalAction::NewConstitution { anchor, guardrail_script } && anchor.url@
                == c.anchor.url@ && anchor.content_hash == c.anchor.content_hash && guardrail_script
                == c.guardrail_script),
            GovActionKind::Information => r matches Ok((a, _, purpose)) && purpose is None && a is Info,
            GovActionKind::Unknown => r matches Err(ChainError::UnrecordableProposalPart(s)) && s@
                == unknown_action_text(),
        },
{
    let parent = action.id;
    match &action.kind {
        GovActionKind::ParameterChange(update) => {
            match param_update_to_pparamset(update) {
                Ok(set) => Ok((ProposalAction::ParamChange(set), parent, Some(GovPurpose::PParamUpdate))),
                Err(e) => Err(e),
            }
        },
        GovActionKind::HardForkInitiation(version) => Ok(
            (ProposalAction::HardFork(*version), parent, Some(GovPurpose::HardFork)),
        ),
        GovActionKind::TreasuryWithdrawals(withdrawals) => {
            match parse_treasury_withdrawals(withdrawals) {
                Ok(a) => Ok((a, parent, None)),
                Err(e) => Err(e),
            }
        },
        GovActionKind::NoConfidence => Ok(
            (ProposalAction::NoConfidence, parent, Some(GovPurpose::Committee)),
        ),
        GovActionKind::UpdateCommittee { to_remove, to_add, threshold } => Ok(
            (
                ProposalAction::UpdateCommittee {
                    to_remove: copy_credentials(to_remove),
                    to_add: copy_terms(to_add),
                    threshold: *threshold,
                },
                parent,
                Some(GovPurpose::Committee),
            ),
        ),
        GovActionKind::NewConstitution(constitution) => Ok(
            (
                ProposalAction::NewConstitution {
                    anchor: Anchor {
                        url: constitution.anchor.url.clone(),
                        content_hash: constitution.anchor.content_hash,
                    },
                    guardrail_script: constitution.guardrail_script,
                },
                parent,
                Some(GovPurpose::Constitution),
            ),
        ),
        GovActionKind::Information => Ok((ProposalAction::Info, parent, None)),
        GovActionKind::Unknown => Err(
            ChainError::UnrecordableProposalPart(
                String::from_str("a governance action of a kind this node does not read"),
            ),
        ),
    }
}


/// A recorded update that proposes a PlutusV4 cost model holds it under its
/// wildcard key, and keeps every other cost model the era's own update type
/// reads under a wildcard key.
pub proof fn lemma_plutus_v4_recorded_under_its_key(u: ParamUpdate)
    requires
        u.cost_models_for_script_languages matches Some(cm) && cm.plutus_v4 is Some,
    ensures
        ({
            let v4 = u.cost_models_for_script_languages.unwrap().plutus_v4.unwrap();
            &&& update_params(u).cost_models_unknown matches Some(m)
            &&& m.contains_key(PLUTUS_V4_COST_MODEL_KEY)
            &&& m[PLUTUS_V4_COST_MODEL_KEY] == v4@
            &&& forall|k: u64|
                #![trigger era_wildcard(u)[k]]
                era_wildcard(u).contains_key(k) && k != PLUTUS_V4_COST_MODEL_KEY ==> m.contains_key(k)
                    && m[k] == era_wildcard(u)[k]
        }),
{
    let w = proposed_wildcard(u);
    assert(w.contains_key(PLUTUS_V4_COST_MODEL_KEY));
    assert(w.dom().contains(PLUTUS_V4_COST_MODEL_KEY));
    assert(w.dom().finite()) by {
        match u.era_wildcard_cost_models {
            Some(m) => {
                assert(models_view(m@).dom() =~= m@.dom());
            },
            None => {},
        }
    }
    assert(w.dom().len() > 0) by {
        vstd::set::axiom_set_contains_len(w.dom(), PLUTUS_V4_COST_MODEL_KEY);
    }
}

} // verus!
