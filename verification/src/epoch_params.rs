use vstd::prelude::*;
use crate::cost_models::{model_view, CostModels};
use crate::genesis::{Genesis, ShelleyProtocolParams};
use crate::pparams::{models_view, Nonce, PParams, PParamsSet, RationalNumber};

verus! {

/// Why the parameters of an epoch cannot be rendered: a count the model
/// holds as an `i32` is past `i32::MAX`, which is a server error rather
/// than a parameter wrapped negative.
#[derive(Debug, Clone, Copy, PartialEq, Eq, Structural)]
pub enum ModelError {
    CountPastI32,
}

/// The protocol parameters of an epoch as the REST service renders them,
/// each field as the plain value it is rendered from: counts and sizes the
/// model types as `i32` already narrowed, amounts it writes in decimal as
/// integers, and ratios it writes as decimals as the ratios they are.
#[derive(Debug, PartialEq)]
pub struct EpochParamModel {
    pub epoch: i32,
    pub a0: RationalNumber,
    pub e_max: i32,
    pub max_tx_size: i32,
    pub max_block_size: i32,
    pub max_block_header_size: i32,
    pub min_fee_a: i32,
    pub min_fee_b: i32,
    pub min_utxo: u64,
    pub key_deposit: u64,
    pub pool_deposit: u64,
    pub n_opt: i32,
    /// Rendered as zero where the set holds none.
    pub rho: Option<RationalNumber>,
    /// Rendered as zero where the set holds none.
    pub tau: Option<RationalNumber>,
    pub min_pool_cost: u64,
    pub protocol_major_ver: i32,
    pub protocol_minor_ver: i32,
    pub cost_models: CostModels,
    pub nonce: String,
    pub decentralisation_param: Option<RationalNumber>,
    pub max_val_size: Option<u64>,
    pub collateral_percent: Option<i32>,
    pub max_collateral_inputs: Option<i32>,
    pub coins_per_utxo_size: Option<u64>,
    pub coins_per_utxo_word: Option<u64>,
    pub price_mem: Option<RationalNumber>,
    pub price_step: Option<RationalNumber>,
    pub max_tx_ex_mem: Option<u64>,
    pub max_tx_ex_steps: Option<u64>,
    pub max_block_ex_mem: Option<u64>,
    pub max_block_ex_steps: Option<u64>,
    pub min_fee_ref_script_cost_per_byte: Option<RationalNumber>,
    pub drep_deposit: Option<u64>,
    pub drep_activity: Option<u64>,
    pub pvt_motion_no_confidence: Option<RationalNumber>,
    pub pvt_committee_normal: Option<RationalNumber>,
    pub pvt_committee_no_confidence: Option<RationalNumber>,
    pub pvt_hard_fork_initiation: Option<RationalNumber>,
    pub pvtpp_security_group: Option<RationalNumber>,
    pub pvt_p_p_security_group: Option<RationalNumber>,
    pub dvt_motion_no_confidence: Option<RationalNumber>,
    pub dvt_committee_normal: Option<RationalNumber>,
    pub dvt_committee_no_confidence: Option<RationalNumber>,
    pub dvt_update_to_constitution: Option<RationalNumber>,
    pub dvt_hard_fork_initiation: Option<RationalNumber>,
    pub dvt_p_p_network_group: Option<RationalNumber>,
    pub dvt_p_p_economic_group: Option<RationalNumber>,
    pub dvt_p_p_technical_group: Option<RationalNumber>,
    pub dvt_p_p_gov_group: Option<RationalNumber>,
    pub dvt_treasury_withdrawal: Option<RationalNumber>,
    pub committee_min_size: Option<u64>,
    pub committee_max_term_length: Option<u64>,
    pub gov_action_lifetime: Option<u64>,
    pub gov_action_deposit: Option<u64>,
    /// Babbage retired extra entropy, so there is never a value to render.
    pub extra_entropy: Option<Nonce>,
}

/// Whether a count is past what an `i32` holds.
pub open spec fn past_i32(v: Option<u32>) -> bool {
    v matches Some(x) && x > i32::MAX
}

/// A count as an `i32`, where the set holds one that fits.
pub open spec fn as_i32(v: Option<u32>) -> Option<i32> {
    match v {
        Some(x) => Some(x as i32),
        None => None,
    }
}

/// A number the set holds, or zero.
pub open spec fn or_zero(v: Option<u64>) -> u64 {
    match v {
        Some(x) => x,
        None => 0,
    }
}

/// A count the set holds as a `u32`, widened.
pub open spec fn widened(v: Option<u32>) -> Option<u64> {
    match v {
        Some(x) => Some(x as u64),
        None => None,
    }
}

/// Whether a model renders the parameters `p` of an epoch, with the Shelley
/// genesis parameters `sh` to fall back to and the epoch nonce, if known.
pub open spec fn renders(
    m: EpochParamModel,
    epoch: u64,
    p: PParams,
    sh: ShelleyProtocolParams,
    nonce: Option<Seq<char>>,
) -> bool {
    let pool = p.pool_voting_thresholds;
    let drep = p.drep_voting_thresholds;
    &&& m.epoch == epoch as i32
    &&& m.a0 == sh.a0
    &&& m.e_max == sh.e_max as i32
    &&& m.max_tx_size == or_zero(p.max_transaction_size) as i32
    &&& m.max_block_size == or_zero(p.max_block_body_size) as i32
    &&& m.max_block_header_size == or_zero(p.max_block_header_size) as i32
    &&& m.min_fee_a == or_zero(p.min_fee_a) as i32
    &&& m.min_fee_b == or_zero(p.min_fee_b) as i32
    &&& m.min_utxo == match p.ada_per_utxo_byte {
        Some(x) => x,
        None => sh.min_utxo_value,
    }
    &&& m.key_deposit == or_zero(p.key_deposit)
    &&& m.pool_deposit == or_zero(p.pool_deposit)
    &&& m.n_opt == (match p.desired_number_of_stake_pools {
        Some(x) => x,
        None => 0u32,
    }) as i32
    &&& m.rho == p.expansion_rate
    &&& m.tau == p.treasury_growth_rate
    &&& m.min_pool_cost == or_zero(p.min_pool_cost)
    &&& m.protocol_major_ver == (match p.protocol_version {
        Some(v) => v.0,
        None => 0u64,
    }) as i32
    &&& m.protocol_minor_ver == (match p.protocol_version {
        Some(v) => v.1,
        None => 0u64,
    }) as i32
    &&& model_view(m.cost_models.plutus_v1) == p.cost_models_plutus_v1
    &&& model_view(m.cost_models.plutus_v2) == p.cost_models_plutus_v2
    &&& model_view(m.cost_models.plutus_v3) == p.cost_models_plutus_v3
    &&& models_view(m.cost_models.unknown@) == match p.cost_models_unknown {
        Some(u) => u,
        None => Map::empty(),
    }
    &&& m.nonce@ == match nonce {
        Some(n) => n,
        None => Seq::empty(),
    }
    &&& m.decentralisation_param == p.decentralization_constant
    &&& m.max_val_size == widened(p.max_value_size)
    &&& m.collateral_percent == as_i32(p.collateral_percentage)
    &&& m.max_collateral_inputs == as_i32(p.max_collateral_inputs)
    &&& m.coins_per_utxo_size == p.ada_per_utxo_byte
    &&& m.coins_per_utxo_word == p.ada_per_utxo_byte
    &&& m.price_mem == (match p.execution_costs {
        Some(c) => Some(c.mem_price),
        None => None,
    })
    &&& m.price_step == (match p.execution_costs {
        Some(c) => Some(c.step_price),
        None => None,
    })
    &&& m.max_tx_ex_mem == (match p.max_tx_ex_units {
        Some(u) => Some(u.mem),
        None => None,
    })
    &&& m.max_tx_ex_steps == (match p.max_tx_ex_units {
        Some(u) => Some(u.steps),
        None => None,
    })
    &&& m.max_block_ex_mem == (match p.max_block_ex_units {
        Some(u) => Some(u.mem),
        None => None,
    })
    &&& m.max_block_ex_steps == (match p.max_block_ex_units {
        Some(u) => Some(u.steps),
        None => None,
    })
    &&& m.min_fee_ref_script_cost_per_byte == p.min_fee_ref_script_cost_per_byte
    &&& m.drep_deposit == p.drep_deposit
    &&& m.drep_activity == p.drep_inactivity_period
    &&& m.pvt_motion_no_confidence == (match pool {
        Some(t) => Some(t.motion_no_confidence),
        None => None,
    })
    &&& m.pvt_committee_normal == (match pool {
        Some(t) => Some(t.committee_normal),
        None => None,
    })
    &&& m.pvt_committee_no_confidence == (match pool {
        Some(t) => Some(t.committee_no_confidence),
        None => None,
    })
    &&& m.pvt_hard_fork_initiation == (match pool {
        Some(t) => Some(t.hard_fork_initiation),
        None => None,
    })
    &&& m.pvtpp_security_group == (match pool {
        Some(t) => Some(t.security_voting_threshold),
        None => None,
    })
    &&& m.pvt_p_p_security_group == m.pvtpp_security_group
    &&& m.dvt_motion_no_confidence == (match drep {
        Some(t) => Some(t.motion_no_confidence),
        None => None,
    })
    &&& m.dvt_committee_normal == (match drep {
        Some(t) => Some(t.committee_normal),
        None => None,
    })
    &&& m.dvt_committee_no_confidence == (match drep {
        Some(t) => Some(t.committee_no_confidence),
        None => None,
    })
    &&& m.dvt_update_to_constitution == (match drep {
        Some(t) => Some(t.update_constitution),
        None => None,
    })
    &&& m.dvt_hard_fork_initiation == (match drep {
        Some(t) => Some(t.hard_fork_initiation),
        None => None,
    })
    &&& m.dvt_p_p_network_group == (match drep {
        Some(t) => Some(t.pp_network_group),
        None => None,
    })
    &&& m.dvt_p_p_economic_group == (match drep {
        Some(t) => Some(t.pp_economic_group),
        None => None,
    })
    &&& m.dvt_p_p_technical_group == (match drep {
        Some(t) => Some(t.pp_technical_group),
        None => None,
    })
    &&& m.dvt_p_p_gov_group == (match drep {
        Some(t) => Some(t.pp_governance_group),
        None => None,
    })
    &&& m.dvt_treasury_withdrawal == (match drep {
        Some(t) => Some(t.treasury_withdrawal),
        None => None,
    })
    &&& m.committee_min_size == p.min_committee_size
    &&& m.committee_max_term_length == p.committee_term_limit
    &&& m.gov_action_lifetime == p.governance_action_validity_period
    &&& m.gov_action_deposit == p.governance_action_deposit
    &&& m.extra_entropy is None
}

/// A count as an `i32`, refused where it is past `i32::MAX`.
fn count_as_i32(v: Option<u32>) -> (r: Result<Option<i32>, ModelError>)
    ensures
        r is Err <==> past_i32(v),
        r matches Ok(c) ==> c == as_i32(v),
{
    match v {
        Some(x) => if x > 0x7fff_ffffu32 {
            Err(ModelError::CountPastI32)
        } else {
            Ok(Some(x as i32))
        },
        None => Ok(None),
    }
}

/// A number the set holds, or zero.
fn number_or_zero(v: Option<u64>) -> (r: u64)
    ensures
        r == or_zero(v),
{
    match v {
        Some(x) => x,
        None => 0,
    }
}

/// The protocol parameters in force in an epoch, as the REST service
/// renders them. Values the set does not hold are rendered as zero, but for
/// the minimum UTxO value, which falls back to the Shelley genesis file.
/// The deposit per UTxO byte is rendered under both of the names the
/// service gives it, and so is the security group threshold of stake pool
/// votes; extra entropy is never rendered. A collateral percentage or a
/// maximum number of collateral inputs past `i32::MAX` is refused rather
/// than rendered wrapped negative.
pub fn epoch_param_model(
    epoch: u64,
    params: &PParamsSet,
    shelley: &ShelleyProtocolParams,
    nonce: Option<String>,
) -> (r: Result<EpochParamModel, ModelError>)
    ensures
        r is Err <==> past_i32(params@.collateral_percentage) || past_i32(
            params@.max_collateral_inputs,
        ),
        r matches Ok(m) ==> renders(
            m,
            epoch,
            params@,
            *shelley,
            match nonce {
                Some(n) => Some(n@),
                None => None,
            },
        ),
{
    let collateral_percent = match count_as_i32(params.collateral_percentage) {
        Ok(c) => c,
        Err(e) => {
            return Err(e);
        },
    };
    let max_collateral_inputs = match count_as_i32(params.max_collateral_inputs) {
        Ok(c) => c,
        Err(e) => {
            return Err(e);
        },
    };
    let pool = params.pool_voting_thresholds;
    let drep = params.drep_voting_thresholds;
    let pool_security = match pool {
        Some(t) => Some(t.security_voting_threshold),
        None => None,
    };
    let coins_per_utxo_byte = params.ada_per_utxo_byte;
    let stake_pools: u32 = match params.desired_number_of_stake_pools {
        Some(x) => x,
        None => 0,
    };
    let version: (u64, u64) = match params.protocol_version {
        Some(v) => v,
        None => (0, 0),
    };
    let model = EpochParamModel {
        epoch: epoch as i32,
        a0: shelley.a0,
        e_max: shelley.e_max as i32,
        max_tx_size: number_or_zero(params.max_transaction_size) as i32,
        max_block_size: number_or_zero(params.max_block_body_size) as i32,
        max_block_header_size: number_or_zero(params.max_block_header_size) as i32,
        min_fee_a: number_or_zero(params.min_fee_a) as i32,
        min_fee_b: number_or_zero(params.min_fee_b) as i32,
        min_utxo: match coins_per_utxo_byte {
            Some(x) => x,
            None => shelley.min_utxo_value,
        },
        key_deposit: number_or_zero(params.key_deposit),
        pool_deposit: number_or_zero(params.pool_deposit),
        n_opt: stake_pools as i32,
        rho: params.expansion_rate,
        tau: params.treasury_growth_rate,
        min_pool_cost: number_or_zero(params.min_pool_cost),
        protocol_major_ver: version.0 as i32,
        protocol_minor_ver: version.1 as i32,
        cost_models: params.cost_models_for_script_languages(),
        nonce: match nonce {
            Some(n) => n,
            None => String::new(),
        },
        decentralisation_param: params.decentralization_constant,
        max_val_size: match params.max_value_size {
            Some(x) => Some(x as u64),
            None => None,
        },
        collateral_percent,
        max_collateral_inputs,
        coins_per_utxo_size: coins_per_utxo_byte,
        coins_per_utxo_word: coins_per_utxo_byte,
        price_mem: match params.execution_costs {
            Some(c) => Some(c.mem_price),
            None => None,
        },
        price_step: match params.execution_costs {
            Some(c) => Some(c.step_price),
            None => None,
        },
        max_tx_ex_mem: match params.max_tx_ex_units {
            Some(u) => Some(u.mem),
            None => None,
        },
        max_tx_ex_steps: match params.max_tx_ex_units {
            Some(u) => Some(u.steps),
            None => None,
        },
        max_block_ex_mem: match params.max_block_ex_units {
            Some(u) => Some(u.mem),
            None => None,
        },
        max_block_ex_steps: match params.max_block_ex_units {
            Some(u) => Some(u.steps),
            None => None,
        },
        min_fee_ref_script_cost_per_byte: params.min_fee_ref_script_cost_per_byte,
        drep_deposit: params.drep_deposit,
        drep_activity: params.drep_inactivity_period,
        pvt_motion_no_confidence: match pool {
            Some(t) => Some(t.motion_no_confidence),
            None => None,
        },
        pvt_committee_normal: match pool {
            Some(t) => Some(t.committee_normal),
            None => None,
        },
        pvt_committee_no_confidence: match pool {
            Some(t) => Some(t.committee_no_confidence),
            None => None,
        },
        pvt_hard_fork_initiation: match pool {
            Some(t) => Some(t.hard_fork_initiation),
            None => None,
        },
        pvtpp_security_group: pool_security,
        pvt_p_p_security_group: pool_security,
        dvt_motion_no_confidence: match drep {
            Some(t) => Some(t.motion_no_confidence),
            None => None,
        },
        dvt_committee_normal: match drep {
            Some(t) => Some(t.committee_normal),
            None => None,
        },
        dvt_committee_no_confidence: match drep {
            Some(t) => Some(t.committee_no_confidence),
            None => None,
        },
        dvt_update_to_constitution: match drep {
            Some(t) => Some(t.update_constitution),
            None => None,
        },
        dvt_hard_fork_initiation: match drep {
            Some(t) => Some(t.hard_fork_initiation),
            None => None,
        },
        dvt_p_p_network_group: match drep {
            Some(t) => Some(t.pp_network_group),
            None => None,
        },
        dvt_p_p_economic_group: match drep {
            Some(t) => Some(t.pp_economic_group),
            None => None,
        },
        dvt_p_p_technical_group: match drep {
            Some(t) => Some(t.pp_technical_group),
            None => None,
        },
        dvt_p_p_gov_group: match drep {
            Some(t) => Some(t.pp_governance_group),
            None => None,
        },
        dvt_treasury_withdrawal: match drep {
            Some(t) => Some(t.treasury_withdrawal),
            None => None,
        },
        committee_min_size: params.min_committee_size,
        committee_max_term_length: params.committee_term_limit,
        gov_action_lifetime: params.governance_action_validity_period,
        gov_action_deposit: params.governance_action_deposit,
        extra_entropy: None,
    };
    Ok(model)
}

/// What the parameters of an epoch are rendered from: the epoch, the set in
/// force in it, the genesis files and the epoch nonce, if known.
pub struct ParametersModelBuilder<'a> {
    pub epoch: u64,
    pub params: PParamsSet,
    pub genesis: &'a Genesis,
    pub nonce: Option<String>,
}

impl<'a> ParametersModelBuilder<'a> {
    /// The rendered parameters, with the Shelley genesis parameters to fall
    /// back to; refused as `epoch_param_model` refuses them.
    pub fn into_model(self) -> (r: Result<EpochParamModel, ModelError>)
        ensures
            r is Err <==> past_i32(self.params@.collateral_percentage) || past_i32(
                self.params@.max_collateral_inputs,
            ),
            r matches Ok(m) ==> renders(
                m,
                self.epoch,
                self.params@,
                self.genesis.shelley.protocol_params,
                match self.nonce {
                    Some(n) => Some(n@),
                    None => None,
                },
            ),
    {
        epoch_param_model(self.epoch, &self.params, &self.genesis.shelley.protocol_params, self.nonce)
    }
}

/// The counts an epoch gathers while it is live: the blocks minted in it
/// and the fees its transactions paid.
#[derive(Debug, Clone, Copy, PartialEq, Eq, Structural)]
pub struct RollingStats {
    pub blocks_minted: u64,
    pub gathered_fees: u64,
}

/// What the epoch content model reads of the state of an epoch: its number,
/// and its live rolling counts, where it has any.
#[derive(Debug, Clone, Copy, PartialEq, Eq, Structural)]
pub struct EpochState {
    pub number: u64,
    pub rolling: Option<RollingStats>,
}

/// What an epoch is rendered from: its state, its times, its transaction
/// count, the total value of its outputs and its active stake, if known.
pub struct EpochContentModelBuilder {
    pub state: EpochState,
    pub start_time: u64,
    pub end_time: u64,
    pub first_block_time: u64,
    pub last_block_time: u64,
    pub tx_count: u64,
    pub output: u128,
    pub active_stake: Option<u64>,
}

/// An epoch as the REST service renders it: numbers and times it types as
/// `i32` narrowed, amounts it writes in decimal as integers.
#[derive(Debug, Clone, Copy, PartialEq, Eq, Structural)]
pub struct EpochContentModel {
    pub epoch: i32,
    pub start_time: i32,
    pub end_time: i32,
    pub first_block_time: i32,
    pub last_block_time: i32,
    pub block_count: i32,
    pub tx_count: i32,
    pub output: u128,
    pub fees: u64,
    pub active_stake: Option<u64>,
}

/// The live rolling counts of an epoch, or zero counts where it has none.
pub open spec fn live_or_zero(rolling: Option<RollingStats>) -> RollingStats {
    match rolling {
        Some(r) => r,
        None => RollingStats { blocks_minted: 0, gathered_fees: 0 },
    }
}

/// How an epoch is rendered: each number and time narrowed to an `i32`
/// as the model types it, the blocks and fees read from the live rolling
/// counts, zero where there are none.
pub open spec fn epoch_content(b: EpochContentModelBuilder) -> EpochContentModel {
    let rolling = live_or_zero(b.state.rolling);
    EpochContentModel {
        epoch: b.state.number as i32,
        start_time: b.start_time as i32,
        end_time: b.end_time as i32,
        first_block_time: b.first_block_time as i32,
        last_block_time: b.last_block_time as i32,
        block_count: rolling.blocks_minted as i32,
        tx_count: b.tx_count as i32,
        output: b.output,
        fees: rolling.gathered_fees,
        active_stake: b.active_stake,
    }
}

impl EpochContentModelBuilder {
    /// The key epochs are listed by: the epoch number.
    pub fn sort_key(&self) -> (r: Option<u64>)
        ensures
            r == Some(self.state.number),
    {
        Some(self.state.number)
    }

    /// The rendered epoch; an epoch is always rendered.
    pub fn into_model(self) -> (r: Result<EpochContentModel, ModelError>)
        ensures
            r == Ok::<EpochContentModel, ModelError>(epoch_content(self)),
            r matches Ok(m) && m.epoch == self.state.number as i32 && m.start_time
                == self.start_time as i32 && m.end_time == self.end_time as i32
                && m.first_block_time == self.first_block_time as i32 && m.last_block_time
                == self.last_block_time as i32 && m.tx_count == self.tx_count as i32 && m.output
                == self.output && m.active_stake == self.active_stake,
            r matches Ok(m) && (self.state.rolling matches Some(live) ==> m.block_count
                == live.blocks_minted as i32 && m.fees == live.gathered_fees),
            r matches Ok(m) && (self.state.rolling is None ==> m.block_count == 0 && m.fees == 0),
    {
        let rolling = match self.state.rolling {
            Some(r) => r,
            None => RollingStats { blocks_minted: 0, gathered_fees: 0 },
        };
        Ok(
            EpochContentModel {
                epoch: self.state.number as i32,
                start_time: self.start_time as i32,
                end_time: self.end_time as i32,
                first_block_time: self.first_block_time as i32,
                last_block_time: self.last_block_time as i32,
                block_count: rolling.blocks_minted as i32,
                tx_count: self.tx_count as i32,
                output: self.output,
                fees: rolling.gathered_fees,
                active_stake: self.active_stake,
            },
        )
    }
}

/// An epoch is rendered field by field from what it is built from: its
/// number, its four times and its transaction count each narrowed to an
/// `i32`, its output value and active stake unchanged, and its blocks and
/// fees from its live rolling counts, or zero where it has none.
pub proof fn lemma_epoch_rendered_from_its_own_fields(b: EpochContentModelBuilder)
    ensures
        ({
            let m = epoch_content(b);
            &&& m.epoch == b.state.number as i32
            &&& m.start_time == b.start_time as i32
            &&& m.end_time == b.end_time as i32
            &&& m.first_block_time == b.first_block_time as i32
            &&& m.last_block_time == b.last_block_time as i32
            &&& m.tx_count == b.tx_count as i32
            &&& m.output == b.output
            &&& m.active_stake == b.active_stake
            &&& (b.state.rolling matches Some(live) ==> m.block_count == live.blocks_minted as i32
                && m.fees == live.gathered_fees)
            &&& (b.state.rolling is None ==> m.block_count == 0 && m.fees == 0)
        }),
{
}

/// The parameters of an epoch are rendered each under its own name: the
/// set's amounts and sizes, its voting thresholds by name, the deposit per
/// byte under both of its names and the minimum output value falling back
/// to the Shelley genesis, and numbers and thresholds it does not hold are
/// not invented.
pub proof fn lemma_epoch_params_rendered_under_their_own_names(
    m: EpochParamModel,
    epoch: u64,
    p: PParams,
    sh: ShelleyProtocolParams,
    nonce: Option<Seq<char>>,
)
    requires
        renders(m, epoch, p, sh, nonce),
    ensures
        m.key_deposit == (match p.key_deposit { Some(x) => x, None => 0u64 }),
        m.pool_deposit == (match p.pool_deposit { Some(x) => x, None => 0u64 }),
        m.min_pool_cost == (match p.min_pool_cost { Some(x) => x, None => 0u64 }),
        p.ada_per_utxo_byte matches Some(x) ==> m.min_utxo == x && m.coins_per_utxo_size == Some(x)
            && m.coins_per_utxo_word == Some(x),
        p.ada_per_utxo_byte is None ==> m.min_utxo == sh.min_utxo_value && m.coins_per_utxo_size
            is None && m.coins_per_utxo_word is None,
        m.drep_deposit == p.drep_deposit,
        m.gov_action_deposit == p.governance_action_deposit,
        m.gov_action_lifetime == p.governance_action_validity_period,
        m.drep_activity == p.drep_inactivity_period,
        m.committee_min_size == p.min_committee_size,
        m.committee_max_term_length == p.committee_term_limit,
        m.rho == p.expansion_rate,
        m.tau == p.treasury_growth_rate,
        m.a0 == sh.a0,
        m.epoch == epoch as i32,
        p.pool_voting_thresholds matches Some(t) ==> m.pvt_motion_no_confidence == Some(
            t.motion_no_confidence,
        ) && m.pvt_committee_normal == Some(t.committee_normal) && m.pvt_committee_no_confidence
            == Some(t.committee_no_confidence) && m.pvt_hard_fork_initiation == Some(
            t.hard_fork_initiation,
        ) && m.pvtpp_security_group == Some(t.security_voting_threshold)
            && m.pvt_p_p_security_group == Some(t.security_voting_threshold),
        p.drep_voting_thresholds matches Some(t) ==> m.dvt_motion_no_confidence == Some(
            t.motion_no_confidence,
        ) && m.dvt_committee_normal == Some(t.committee_normal) && m.dvt_committee_no_confidence
            == Some(t.committee_no_confidence) && m.dvt_update_to_constitution == Some(
            t.update_constitution,
        ) && m.dvt_hard_fork_initiation == Some(t.hard_fork_initiation) && m.dvt_p_p_network_group
            == Some(t.pp_network_group) && m.dvt_p_p_economic_group == Some(t.pp_economic_group)
            && m.dvt_p_p_technical_group == Some(t.pp_technical_group) && m.dvt_p_p_gov_group
            == Some(t.pp_governance_group) && m.dvt_treasury_withdrawal == Some(
            t.treasury_withdrawal,
        ),
        p.execution_costs matches Some(c) ==> m.price_mem == Some(c.mem_price) && m.price_step
            == Some(c.step_price),
        p.max_tx_ex_units matches Some(u) ==> m.max_tx_ex_mem == Some(u.mem) && m.max_tx_ex_steps
            == Some(u.steps),
        p.max_block_ex_units matches Some(u) ==> m.max_block_ex_mem == Some(u.mem)
            && m.max_block_ex_steps == Some(u.steps),
        p.collateral_percentage matches Some(c) ==> (c <= i32::MAX ==> m.collateral_percent == Some(c as i32)),
        p.max_collateral_inputs matches Some(c) ==> (c <= i32::MAX ==> m.max_collateral_inputs == Some(c as i32)),
        m.max_tx_size == (match p.max_transaction_size { Some(x) => x, None => 0u64 }) as i32,
        m.max_block_size == (match p.max_block_body_size { Some(x) => x, None => 0u64 }) as i32,
        m.max_block_header_size == (match p.max_block_header_size { Some(x) => x, None => 0u64 })
            as i32,
        m.min_fee_a == (match p.min_fee_a { Some(x) => x, None => 0u64 }) as i32,
        m.min_fee_b == (match p.min_fee_b { Some(x) => x, None => 0u64 }) as i32,
        m.e_max == sh.e_max as i32,
        p.protocol_version matches Some(v) ==> m.protocol_major_ver == v.0 as i32
            && m.protocol_minor_ver == v.1 as i32,
        p.desired_number_of_stake_pools matches Some(n) ==> m.n_opt == n as i32,
        p.max_value_size matches Some(n) ==> m.max_val_size == Some(n as u64),
        p.max_value_size is None ==> m.max_val_size is None,
        m.decentralisation_param == p.decentralization_constant,
        m.min_fee_ref_script_cost_per_byte == p.min_fee_ref_script_cost_per_byte,
        nonce matches Some(n) ==> m.nonce@ == n,
        nonce is None ==> m.nonce@.len() == 0,
        model_view(m.cost_models.plutus_v1) == p.cost_models_plutus_v1,
        model_view(m.cost_models.plutus_v2) == p.cost_models_plutus_v2,
        model_view(m.cost_models.plutus_v3) == p.cost_models_plutus_v3,
        m.extra_entropy is None,
{
}

} // verus!
