use vstd::prelude::*;
use crate::cost_models::{
    lists_in_key_order, model_view, reports, to_q16_cost_models, QueryCostModels,
    PLUTUS_V4_COST_MODEL_KEY,
};
use crate::pparams::{
    models_view, DRepVotingThresholds, ExUnitPrices, ExUnits, PParams, PParamsSet,
    PoolVotingThresholds, RationalNumber,
};

verus! {

/// A ratio as a protocol parameters reply writes it.
#[derive(Debug, Clone, Copy, PartialEq, Eq, Structural)]
pub struct QueryRational {
    pub numerator: u64,
    pub denominator: u64,
}

/// Execution units as a protocol parameters reply writes them.
#[derive(Debug, Clone, Copy, PartialEq, Eq, Structural)]
pub struct QueryExUnits {
    pub mem: u64,
    pub steps: u64,
}

/// Execution prices as a protocol parameters reply writes them.
#[derive(Debug, Clone, Copy, PartialEq, Eq, Structural)]
pub struct QueryExUnitPrices {
    pub mem_price: QueryRational,
    pub step_price: QueryRational,
}

/// Stake pool voting thresholds as a protocol parameters reply names them.
#[derive(Debug, Clone, Copy, PartialEq, Eq, Structural)]
pub struct QueryPoolVotingThresholds {
    pub motion_no_confidence: QueryRational,
    pub committee_normal: QueryRational,
    pub committee_no_confidence: QueryRational,
    pub hard_fork_initiation: QueryRational,
    pub pp_security_group: QueryRational,
}

/// Delegated representative voting thresholds as a protocol parameters
/// reply names them.
#[derive(Debug, Clone, Copy, PartialEq, Eq, Structural)]
pub struct QueryDRepVotingThresholds {
    pub motion_no_confidence: QueryRational,
    pub committee_normal: QueryRational,
    pub committee_no_confidence: QueryRational,
    pub update_to_constitution: QueryRational,
    pub hard_fork_initiation: QueryRational,
    pub pp_network_group: QueryRational,
    pub pp_economic_group: QueryRational,
    pub pp_technical_group: QueryRational,
    pub pp_gov_group: QueryRational,
    pub treasury_withdrawal: QueryRational,
}

/// The protocol parameters a local state query reply carries.
#[derive(Debug, PartialEq)]
pub struct ProtocolParam {
    pub minfee_a: Option<u64>,
    pub minfee_b: Option<u64>,
    pub max_block_body_size: Option<u64>,
    pub max_transaction_size: Option<u64>,
    pub max_block_header_size: Option<u64>,
    pub key_deposit: Option<u64>,
    pub pool_deposit: Option<u64>,
    pub maximum_epoch: Option<u64>,
    pub desired_number_of_stake_pools: Option<u64>,
    pub pool_pledge_influence: Option<QueryRational>,
    pub expansion_rate: Option<QueryRational>,
    pub treasury_growth_rate: Option<QueryRational>,
    pub protocol_version: Option<(u64, u64)>,
    pub min_pool_cost: Option<u64>,
    pub ada_per_utxo_byte: Option<u64>,
    pub cost_models_for_script_languages: Option<QueryCostModels>,
    pub execution_costs: Option<QueryExUnitPrices>,
    pub max_tx_ex_units: Option<QueryExUnits>,
    pub max_block_ex_units: Option<QueryExUnits>,
    pub max_value_size: Option<u64>,
    pub collateral_percentage: Option<u64>,
    pub max_collateral_inputs: Option<u64>,
    pub pool_voting_thresholds: Option<QueryPoolVotingThresholds>,
    pub drep_voting_thresholds: Option<QueryDRepVotingThresholds>,
    pub min_committee_size: Option<u64>,
    pub committee_term_limit: Option<u64>,
    pub governance_action_validity_period: Option<u64>,
    pub governance_action_deposit: Option<u64>,
    pub drep_deposit: Option<u64>,
    pub drep_inactivity_period: Option<u64>,
    pub minfee_refscript_cost_per_byte: Option<QueryRational>,
}

/// A ratio as a reply writes it.
pub open spec fn q_rational(r: RationalNumber) -> QueryRational {
    QueryRational { numerator: r.numerator, denominator: r.denominator }
}

/// Execution units as a reply writes them.
pub open spec fn q_ex_units(e: ExUnits) -> QueryExUnits {
    QueryExUnits { mem: e.mem, steps: e.steps }
}

/// Execution prices as a reply writes them.
pub open spec fn q_prices(e: ExUnitPrices) -> QueryExUnitPrices {
    QueryExUnitPrices { mem_price: q_rational(e.mem_price), step_price: q_rational(e.step_price) }
}

/// Stake pool voting thresholds as a reply names them; the security group
/// threshold is the one the set calls the security voting threshold.
pub open spec fn q_pool_thresholds(p: PoolVotingThresholds) -> QueryPoolVotingThresholds {
    QueryPoolVotingThresholds {
        motion_no_confidence: q_rational(p.motion_no_confidence),
        committee_normal: q_rational(p.committee_normal),
        committee_no_confidence: q_rational(p.committee_no_confidence),
        hard_fork_initiation: q_rational(p.hard_fork_initiation),
        pp_security_group: q_rational(p.security_voting_threshold),
    }
}

/// Delegated representative voting thresholds as a reply names them.
pub open spec fn q_drep_thresholds(d: DRepVotingThresholds) -> QueryDRepVotingThresholds {
    QueryDRepVotingThresholds {
        motion_no_confidence: q_rational(d.motion_no_confidence),
        committee_normal: q_rational(d.committee_normal),
        committee_no_confidence: q_rational(d.committee_no_confidence),
        update_to_constitution: q_rational(d.update_constitution),
        hard_fork_initiation: q_rational(d.hard_fork_initiation),
        pp_network_group: q_rational(d.pp_network_group),
        pp_economic_group: q_rational(d.pp_economic_group),
        pp_technical_group: q_rational(d.pp_technical_group),
        pp_gov_group: q_rational(d.pp_governance_group),
        treasury_withdrawal: q_rational(d.treasury_withdrawal),
    }
}

/// A ratio as a reply writes it.
pub fn to_q16_rational(r: &RationalNumber) -> (q: QueryRational)
    ensures
        q == q_rational(*r),
{
    QueryRational { numerator: r.numerator, denominator: r.denominator }
}

/// Execution units as a reply writes them.
pub fn to_q16_ex_units(e: &ExUnits) -> (q: QueryExUnits)
    ensures
        q == q_ex_units(*e),
{
    QueryExUnits { mem: e.mem, steps: e.steps }
}

/// Execution prices as a reply writes them.
pub fn to_q16_ex_unit_prices(e: &ExUnitPrices) -> (q: QueryExUnitPrices)
    ensures
        q == q_prices(*e),
{
    QueryExUnitPrices {
        mem_price: to_q16_rational(&e.mem_price),
        step_price: to_q16_rational(&e.step_price),
    }
}

/// Stake pool voting thresholds as a reply names them.
pub fn to_q16_pool_voting_thresholds(p: &PoolVotingThresholds) -> (q: QueryPoolVotingThresholds)
    ensures
        q == q_pool_thresholds(*p),
        q.motion_no_confidence.numerator == p.motion_no_confidence.numerator && q.motion_no_confidence.denominator == p.motion_no_confidence.denominator,
        q.committee_normal.numerator == p.committee_normal.numerator && q.committee_normal.denominator == p.committee_normal.denominator,
        q.committee_no_confidence.numerator == p.committee_no_confidence.numerator && q.committee_no_confidence.denominator == p.committee_no_confidence.denominator,
        q.hard_fork_initiation.numerator == p.hard_fork_initiation.numerator && q.hard_fork_initiation.denominator == p.hard_fork_initiation.denominator,
        q.pp_security_group.numerator == p.security_voting_threshold.numerator && q.pp_security_group.denominator == p.security_voting_threshold.denominator,
{
    QueryPoolVotingThresholds {
        motion_no_confidence: to_q16_rational(&p.motion_no_confidence),
        committee_normal: to_q16_rational(&p.committee_normal),
        committee_no_confidence: to_q16_rational(&p.committee_no_confidence),
        hard_fork_initiation: to_q16_rational(&p.hard_fork_initiation),
        pp_security_group: to_q16_rational(&p.security_voting_threshold),
    }
}

/// Delegated representative voting thresholds as a reply names them.
pub fn to_q16_drep_voting_thresholds(d: &DRepVotingThresholds) -> (q: QueryDRepVotingThresholds)
    ensures
        q == q_drep_thresholds(*d),
        q.motion_no_confidence.numerator == d.motion_no_confidence.numerator && q.motion_no_confidence.denominator == d.motion_no_confidence.denominator,
        q.committee_normal.numerator == d.committee_normal.numerator && q.committee_normal.denominator == d.committee_normal.denominator,
        q.committee_no_confidence.numerator == d.committee_no_confidence.numerator && q.committee_no_confidence.denominator == d.committee_no_confidence.denominator,
        q.update_to_constitution.numerator == d.update_constitution.numerator && q.update_to_constitution.denominator == d.update_constitution.denominator,
        q.hard_fork_initiation.numerator == d.hard_fork_initiation.numerator && q.hard_fork_initiation.denominator == d.hard_fork_initiation.denominator,
        q.pp_network_group.numerator == d.pp_network_group.numerator && q.pp_network_group.denominator == d.pp_network_group.denominator,
        q.pp_economic_group.numerator == d.pp_economic_group.numerator && q.pp_economic_group.denominator == d.pp_economic_group.denominator,
        q.pp_technical_group.numerator == d.pp_technical_group.numerator && q.pp_technical_group.denominator == d.pp_technical_group.denominator,
        q.pp_gov_group.numerator == d.pp_governance_group.numerator && q.pp_gov_group.denominator == d.pp_governance_group.denominator,
        q.treasury_withdrawal.numerator == d.treasury_withdrawal.numerator && q.treasury_withdrawal.denominator == d.treasury_withdrawal.denominator,
{
    QueryDRepVotingThresholds {
        motion_no_confidence: to_q16_rational(&d.motion_no_confidence),
        committee_normal: to_q16_rational(&d.committee_normal),
        committee_no_confidence: to_q16_rational(&d.committee_no_confidence),
        update_to_constitution: to_q16_rational(&d.update_constitution),
        hard_fork_initiation: to_q16_rational(&d.hard_fork_initiation),
        pp_network_group: to_q16_rational(&d.pp_network_group),
        pp_economic_group: to_q16_rational(&d.pp_economic_group),
        pp_technical_group: to_q16_rational(&d.pp_technical_group),
        pp_gov_group: to_q16_rational(&d.pp_governance_group),
        treasury_withdrawal: to_q16_rational(&d.treasury_withdrawal),
    }
}

/// An optional value as a reply writes it.
pub open spec fn map_opt<A, B>(o: Option<A>, f: spec_fn(A) -> B) -> Option<B> {
    match o {
        Some(a) => Some(f(a)),
        None => None,
    }
}

/// A count as a reply writes it.
pub open spec fn widened(o: Option<u32>) -> Option<u64> {
    match o {
        Some(n) => Some(n as u64),
        None => None,
    }
}

/// The wildcard cost models a parameter set carries, none when it has no
/// map.
pub open spec fn carried_wildcard(p: PParams) -> Map<u64, Seq<i64>> {
    match p.cost_models_unknown {
        Some(m) => m,
        None => Map::empty(),
    }
}

/// Whether a reply reports the cost models of a parameter set: the three
/// named ones unchanged, the PlutusV4 model read out of the wildcard map by
/// its key, and every other wildcard entry listed once by increasing key.
pub open spec fn reports_carried(p: PParams, q: QueryCostModels) -> bool {
    let w = carried_wildcard(p);
    let rest = w.remove(PLUTUS_V4_COST_MODEL_KEY);
    &&& model_view(q.plutus_v1) == p.cost_models_plutus_v1
    &&& model_view(q.plutus_v2) == p.cost_models_plutus_v2
    &&& model_view(q.plutus_v3) == p.cost_models_plutus_v3
    &&& model_view(q.plutus_v4) == if w.contains_key(PLUTUS_V4_COST_MODEL_KEY) {
        Some(w[PLUTUS_V4_COST_MODEL_KEY])
    } else {
        None
    }
    &&& forall|i: int, j: int| 0 <= i < j < q.unknown@.len() ==> q.unknown@[i].0 < q.unknown@[j].0
    &&& forall|i: int|
        0 <= i < q.unknown@.len() ==> rest.contains_key(#[trigger] q.unknown@[i].0) && rest[q.unknown@[i].0]
            == q.unknown@[i].1@
    &&& forall|k: u64| #[trigger]
        rest.contains_key(k) ==> exists|i: int| 0 <= i < q.unknown@.len() && q.unknown@[i].0 == k
}

/// Whether a reply carries the parameters of a set, each written as the
/// reply writes it.
pub open spec fn replies_with(p: PParams, r: ProtocolParam) -> bool {
    &&& r.minfee_a == p.min_fee_a
    &&& r.minfee_b == p.min_fee_b
    &&& r.max_block_body_size == p.max_block_body_size
    &&& r.max_transaction_size == p.max_transaction_size
    &&& r.max_block_header_size == p.max_block_header_size
    &&& r.key_deposit == p.key_deposit
    &&& r.pool_deposit == p.pool_deposit
    &&& r.maximum_epoch == p.maximum_epoch
    &&& r.desired_number_of_stake_pools == widened(p.desired_number_of_stake_pools)
    &&& r.pool_pledge_influence == map_opt(p.pool_pledge_influence, |x| q_rational(x))
    &&& r.expansion_rate == map_opt(p.expansion_rate, |x| q_rational(x))
    &&& r.treasury_growth_rate == map_opt(p.treasury_growth_rate, |x| q_rational(x))
    &&& r.protocol_version == p.protocol_version
    &&& r.min_pool_cost == p.min_pool_cost
    &&& r.ada_per_utxo_byte == p.ada_per_utxo_byte
    &&& (r.cost_models_for_script_languages matches Some(q) && reports_carried(p, q))
    &&& r.execution_costs == map_opt(p.execution_costs, |x| q_prices(x))
    &&& r.max_tx_ex_units == map_opt(p.max_tx_ex_units, |x| q_ex_units(x))
    &&& r.max_block_ex_units == map_opt(p.max_block_ex_units, |x| q_ex_units(x))
    &&& r.max_value_size == widened(p.max_value_size)
    &&& r.collateral_percentage == widened(p.collateral_percentage)
    &&& r.max_collateral_inputs == widened(p.max_collateral_inputs)
    &&& r.pool_voting_thresholds == map_opt(p.pool_voting_thresholds, |x| q_pool_thresholds(x))
    &&& r.drep_voting_thresholds == map_opt(p.drep_voting_thresholds, |x| q_drep_thresholds(x))
    &&& r.min_committee_size == p.min_committee_size
    &&& r.committee_term_limit == p.committee_term_limit
    &&& r.governance_action_validity_period == p.governance_action_validity_period
    &&& r.governance_action_deposit == p.governance_action_deposit
    &&& r.drep_deposit == p.drep_deposit
    &&& r.drep_inactivity_period == p.drep_inactivity_period
    &&& r.minfee_refscript_cost_per_byte == map_opt(
        p.min_fee_ref_script_cost_per_byte,
        |x| q_rational(x),
    )
}

fn widen(o: Option<u32>) -> (r: Option<u64>)
    ensures
        r == widened(o),
{
    match o {
        Some(n) => Some(n as u64),
        None => None,
    }
}

fn opt_rational(o: Option<RationalNumber>) -> (r: Option<QueryRational>)
    ensures
        r == map_opt(o, |x| q_rational(x)),
{
    match o {
        Some(x) => Some(to_q16_rational(&x)),
        None => None,
    }
}

fn opt_ex_units(o: Option<ExUnits>) -> (r: Option<QueryExUnits>)
    ensures
        r == map_opt(o, |x| q_ex_units(x)),
{
    match o {
        Some(x) => Some(to_q16_ex_units(&x)),
        None => None,
    }
}

/// The protocol parameters reply for the parameters in force: each
/// parameter written as the reply writes it, and the cost models with the
/// PlutusV4 model named.
pub fn build_protocol_params(pparams: &PParamsSet) -> (r: ProtocolParam)
    ensures
        replies_with(pparams@, r),
{
    let models = pparams.cost_models_for_script_languages();
    let cost_models = to_q16_cost_models(&models);
    proof {
        let p = pparams@;
        let w = carried_wildcard(p);
        assert(models_view(models.unknown@) == w);
        let rest = w.remove(PLUTUS_V4_COST_MODEL_KEY);
        let m = models.unknown@.remove(PLUTUS_V4_COST_MODEL_KEY);
        assert(lists_in_key_order(cost_models.unknown@, m));
        assert(forall|k: u64| m.contains_key(k) <==> #[trigger] rest.contains_key(k));
        assert forall|i: int| 0 <= i < cost_models.unknown@.len() implies rest.contains_key(
            #[trigger] cost_models.unknown@[i].0,
        ) && rest[cost_models.unknown@[i].0] == cost_models.unknown@[i].1@ by {
            let k = cost_models.unknown@[i].0;
            assert(m.contains_key(k));
            assert(models_view(models.unknown@)[k] == models.unknown@[k]@);
        }
        assert(w.contains_key(PLUTUS_V4_COST_MODEL_KEY) ==> w[PLUTUS_V4_COST_MODEL_KEY]
            == models.unknown@[PLUTUS_V4_COST_MODEL_KEY]@);
        assert(reports_carried(p, cost_models));
    }
    let r = ProtocolParam {
        minfee_a: pparams.min_fee_a(),
        minfee_b: pparams.min_fee_b(),
        max_block_body_size: pparams.max_block_body_size(),
        max_transaction_size: pparams.max_transaction_size(),
        max_block_header_size: pparams.max_block_header_size(),
        key_deposit: pparams.key_deposit(),
        pool_deposit: pparams.pool_deposit(),
        maximum_epoch: pparams.maximum_epoch(),
        desired_number_of_stake_pools: widen(pparams.desired_number_of_stake_pools()),
        pool_pledge_influence: opt_rational(pparams.pool_pledge_influence()),
        expansion_rate: opt_rational(pparams.expansion_rate()),
        treasury_growth_rate: opt_rational(pparams.treasury_growth_rate()),
        protocol_version: match pparams.protocol_version() {
            Some(v) => Some((v.0, v.1)),
            None => None,
        },
        min_pool_cost: pparams.min_pool_cost(),
        ada_per_utxo_byte: pparams.ada_per_utxo_byte(),
        cost_models_for_script_languages: Some(cost_models),
        execution_costs: match pparams.execution_costs() {
            Some(e) => Some(to_q16_ex_unit_prices(&e)),
            None => None,
        },
        max_tx_ex_units: opt_ex_units(pparams.max_tx_ex_units()),
        max_block_ex_units: opt_ex_units(pparams.max_block_ex_units()),
        max_value_size: widen(pparams.max_value_size()),
        collateral_percentage: widen(pparams.collateral_percentage()),
        max_collateral_inputs: widen(pparams.max_collateral_inputs()),
        pool_voting_thresholds: match pparams.pool_voting_thresholds() {
            Some(p) => Some(to_q16_pool_voting_thresholds(&p)),
            None => None,
        },
        drep_voting_thresholds: match pparams.drep_voting_thresholds() {
            Some(d) => Some(to_q16_drep_voting_thresholds(&d)),
            None => None,
        },
        min_committee_size: pparams.min_committee_size(),
        committee_term_limit: pparams.committee_term_limit(),
        governance_action_validity_period: pparams.governance_action_validity_period(),
        governance_action_deposit: pparams.governance_action_deposit(),
        drep_deposit: pparams.drep_deposit(),
        drep_inactivity_period: pparams.drep_inactivity_period(),
        minfee_refscript_cost_per_byte: opt_rational(pparams.min_fee_ref_script_cost_per_byte()),
    };
    r
}

/// A reply carries each voting threshold of the set under the threshold of
/// the same name, numerator and denominator alike, the pool security group
/// being the set's security voting threshold; it carries thresholds exactly
/// when the set holds them. Its deposits, counts and sizes are the set's,
/// each under its own name.
pub proof fn lemma_reply_names_each_parameter_as_the_set_does(p: PParams, r: ProtocolParam)
    requires
        replies_with(p, r),
    ensures
        (r.drep_voting_thresholds is Some <==> p.drep_voting_thresholds is Some),
        (r.pool_voting_thresholds is Some <==> p.pool_voting_thresholds is Some),
        r.drep_voting_thresholds matches Some(q) ==> ({
            let d = p.drep_voting_thresholds.unwrap();
            &&& q.motion_no_confidence.numerator == d.motion_no_confidence.numerator && q.motion_no_confidence.denominator == d.motion_no_confidence.denominator
            &&& q.committee_normal.numerator == d.committee_normal.numerator && q.committee_normal.denominator == d.committee_normal.denominator
            &&& q.committee_no_confidence.numerator == d.committee_no_confidence.numerator && q.committee_no_confidence.denominator == d.committee_no_confidence.denominator
            &&& q.update_to_constitution.numerator == d.update_constitution.numerator && q.update_to_constitution.denominator == d.update_constitution.denominator
            &&& q.hard_fork_initiation.numerator == d.hard_fork_initiation.numerator && q.hard_fork_initiation.denominator == d.hard_fork_initiation.denominator
            &&& q.pp_network_group.numerator == d.pp_network_group.numerator && q.pp_network_group.denominator == d.pp_network_group.denominator
            &&& q.pp_economic_group.numerator == d.pp_economic_group.numerator && q.pp_economic_group.denominator == d.pp_economic_group.denominator
            &&& q.pp_technical_group.numerator == d.pp_technical_group.numerator && q.pp_technical_group.denominator == d.pp_technical_group.denominator
            &&& q.pp_gov_group.numerator == d.pp_governance_group.numerator && q.pp_gov_group.denominator == d.pp_governance_group.denominator
            &&& q.treasury_withdrawal.numerator == d.treasury_withdrawal.numerator && q.treasury_withdrawal.denominator == d.treasury_withdrawal.denominator
        }),
        r.pool_voting_thresholds matches Some(q) ==> ({
            let t = p.pool_voting_thresholds.unwrap();
            &&& q.motion_no_confidence.numerator == t.motion_no_confidence.numerator && q.motion_no_confidence.denominator == t.motion_no_confidence.denominator
            &&& q.committee_normal.numerator == t.committee_normal.numerator && q.committee_normal.denominator == t.committee_normal.denominator
            &&& q.committee_no_confidence.numerator == t.committee_no_confidence.numerator && q.committee_no_confidence.denominator == t.committee_no_confidence.denominator
            &&& q.hard_fork_initiation.numerator == t.hard_fork_initiation.numerator && q.hard_fork_initiation.denominator == t.hard_fork_initiation.denominator
            &&& q.pp_security_group.numerator == t.security_voting_threshold.numerator && q.pp_security_group.denominator == t.security_voting_threshold.denominator
        }),
        r.key_deposit == p.key_deposit,
        r.pool_deposit == p.pool_deposit,
        r.drep_deposit == p.drep_deposit,
        r.governance_action_deposit == p.governance_action_deposit,
        r.minfee_a == p.min_fee_a,
        r.minfee_b == p.min_fee_b,
        r.max_block_body_size == p.max_block_body_size,
        r.max_transaction_size == p.max_transaction_size,
        r.max_block_header_size == p.max_block_header_size,
        r.min_pool_cost == p.min_pool_cost,
        r.ada_per_utxo_byte == p.ada_per_utxo_byte,
        r.maximum_epoch == p.maximum_epoch,
        r.protocol_version == p.protocol_version,
        r.min_committee_size == p.min_committee_size,
        r.committee_term_limit == p.committee_term_limit,
        r.governance_action_validity_period == p.governance_action_validity_period,
        r.drep_inactivity_period == p.drep_inactivity_period,
        p.collateral_percentage matches Some(c) ==> r.collateral_percentage == Some(c as u64),
        p.max_collateral_inputs matches Some(c) ==> r.max_collateral_inputs == Some(c as u64),
        p.max_value_size matches Some(c) ==> r.max_value_size == Some(c as u64),
        p.desired_number_of_stake_pools matches Some(c) ==> r.desired_number_of_stake_pools == Some(
            c as u64,
        ),
        p.execution_costs matches Some(e) ==> (r.execution_costs matches Some(q)
            && q.mem_price.numerator == e.mem_price.numerator && q.mem_price.denominator
            == e.mem_price.denominator && q.step_price.numerator == e.step_price.numerator
            && q.step_price.denominator == e.step_price.denominator),
        p.max_tx_ex_units matches Some(e) ==> (r.max_tx_ex_units matches Some(q) && q.mem == e.mem
            && q.steps == e.steps),
        p.max_block_ex_units matches Some(e) ==> (r.max_block_ex_units matches Some(q) && q.mem
            == e.mem && q.steps == e.steps),
{
}

} // verus!
