use vstd::prelude::*;
use crate::cost_models::CostModel;
use crate::genesis::{
    AlonzoGenesis, ByronGenesis, ConwayGenesis, DijkstraGenesis, ExecutionPrices, ExtraEntropy,
    Genesis, GenesisExUnits, Language, ShelleyGenesis,
};
use crate::pparams::{
    empty_params, nonce_view, ExUnitPrices, ExUnits, Nonce, NonceView, PParamValue,
    PParams, PParamsSet, RationalNumber,
};
use crate::text::{all_ascii, hex_bytes, hex_decode};
use crate::pparams::models_view;
use crate::cost_models::{copy_model, PLUTUS_V4_COST_MODEL_KEY};

verus! {

/// The seconds since the Unix epoch of a time written in RFC 3339 form, as
/// `chrono` reads it, or `None` when the text is not such a time.
pub uninterp spec fn rfc3339_timestamp(text: Seq<char>) -> Option<i64>;

/// `chrono::DateTime::parse_from_rfc3339`, read into its seconds since the
/// Unix epoch with `timestamp`; a text that does not parse gives `None`.
/// The result is named, not stated: the grammar and calendar arithmetic are
/// chrono's.
#[verifier::external_body]
fn rfc3339_seconds(text: &str) -> (r: Option<i64>)
    ensures
        r == rfc3339_timestamp(text@),
{
    chrono::DateTime::parse_from_rfc3339(text).ok().map(|t| t.timestamp())
}

/// The length of a Byron epoch in seconds, which no genesis file declares.
pub const FIVE_DAYS_IN_SECONDS: u64 = 432000;

/// Whether the hash of a configured nonce, if it has one, is sixty-four
/// hexadecimal digits.
pub open spec fn nonce_hash_ok(e: ExtraEntropy) -> bool {
    match e.hash {
        Some(h) => all_ascii(h@) && (hex_decode(h@) matches Some(b) && b.len() == 32),
        None => true,
    }
}

/// The nonce a configured entropy stands for.
pub open spec fn config_nonce(e: ExtraEntropy) -> NonceView {
    NonceView {
        variant: e.tag,
        hash: match e.hash {
            Some(h) => Some(hex_decode(h@).unwrap()),
            None => None,
        },
    }
}

fn from_config_nonce(config: &ExtraEntropy) -> (r: Nonce)
    requires
        nonce_hash_ok(*config),
    ensures
        nonce_view(r) == config_nonce(*config),
{
    let hash = match &config.hash {
        Some(x) => {
            let bytes = match hex_bytes(x.as_str()) {
                Some(bytes) => bytes,
                None => Vec::new(),
            };
            let mut hash = [0u8; 32];
            let mut i: usize = 0;
            while i < 32
                invariant
                    i <= 32,
                    bytes@.len() == 32,
                    forall|j: int| 0 <= j < i ==> hash[j] == bytes@[j],
                decreases 32 - i,
            {
                hash[i] = bytes[i];
                i = i + 1;
            }
            assert(hash@ =~= bytes@);
            Some(hash)
        },
        None => None,
    };
    Nonce { variant: config.tag, hash }
}

fn from_config_exunits(config: &GenesisExUnits) -> (r: ExUnits)
    ensures
        r == config_exunits(*config),
{
    ExUnits { mem: config.ex_units_mem, steps: config.ex_units_steps }
}

/// Execution units as the parameter set holds them.
pub open spec fn config_exunits(config: GenesisExUnits) -> ExUnits {
    ExUnits { mem: config.ex_units_mem, steps: config.ex_units_steps }
}

/// The cost model the first entry for a language holds, if any entry does.
pub open spec fn language_model(models: Seq<(Language, CostModel)>, language: Language) -> Option<
    Seq<i64>,
>
    decreases models.len(),
{
    if models.len() == 0 {
        None
    } else if models[0].0 == language {
        Some(models[0].1@)
    } else {
        language_model(models.drop_first(), language)
    }
}

/// The cost model a genesis gives a language is the one its first entry
/// for that language holds, and there is none only when no entry names the
/// language.
pub proof fn lemma_a_language_takes_its_first_entry(models: Seq<(Language, CostModel)>, language: Language)
    ensures
        language_model(models, language) is None <==> forall|i: int|
            0 <= i < models.len() ==> (#[trigger] models[i]).0 != language,
        language_model(models, language) matches Some(m) ==> exists|i: int|
            0 <= i < models.len() && (#[trigger] models[i]).0 == language && models[i].1@ == m
                && forall|j: int| 0 <= j < i ==> (#[trigger] models[j]).0 != language,
    decreases models.len(),
{
    if models.len() > 0 {
        let rest = models.drop_first();
        lemma_a_language_takes_its_first_entry(rest, language);
        if models[0].0 != language {
            assert forall|i: int| 0 <= i < rest.len() implies rest[i] == models[i + 1] by {}
            match language_model(rest, language) {
                Some(m) => {
                    let i = choose|i: int|
                        0 <= i < rest.len() && (#[trigger] rest[i]).0 == language && rest[i].1@
                            == m && forall|j: int| 0 <= j < i ==> (#[trigger] rest[j]).0 != language;
                    assert(models[i + 1].0 == language);
                    assert forall|j: int| 0 <= j < i + 1 implies (#[trigger] models[j]).0 != language by {
                        if j > 0 {
                            assert(models[j] == rest[j - 1]);
                        }
                    }
                },
                None => {
                    assert forall|i: int| 0 <= i < models.len() implies (#[trigger] models[i]).0 != language by {
                        if i > 0 {
                            assert(models[i] == rest[i - 1]);
                        }
                    }
                },
            }
        }
    }
}

pub(crate) fn from_alonzo_cost_models_map(config: &Vec<(Language, CostModel)>, language: Language) -> (r:
    Option<CostModel>)
    ensures
        crate::cost_models::model_view(r) == language_model(config@, language),
{
    let mut i: usize = 0;
    assert(config@.skip(0) =~= config@);
    while i < config.len()
        invariant
            i <= config@.len(),
            language_model(config@, language) == language_model(config@.skip(i as int), language),
        decreases config@.len() - i,
    {
        assert(config@.skip(i as int).drop_first() =~= config@.skip(i + 1));
        if config[i].0 == language {
            return Some(copy_model(&config[i].1));
        }
        i = i + 1;
    }
    None
}

/// The parameters a Byron genesis declares.
pub open spec fn byron_params(byron: ByronGenesis) -> PParams {
    let version = byron.block_version_data;
    let slot_length = version.slot_duration / 1000;
    PParams {
        protocol_version: Some((0, 0)),
        system_start: Some(byron.start_time),
        slot_length: Some(slot_length),
        epoch_length: Some((FIVE_DAYS_IN_SECONDS / slot_length) as u64),
        min_fee_a: Some(version.tx_fee_policy.multiplier),
        min_fee_b: Some(version.tx_fee_policy.summand),
        max_block_body_size: Some(version.max_block_size),
        max_transaction_size: Some(version.max_tx_size),
        max_block_header_size: Some(version.max_header_size),
        ..empty_params()
    }
}

/// The parameter set a Byron genesis declares. The epoch length is five
/// days of slots, so a slot shorter than a second has no epoch length and
/// is left out.
pub fn from_byron_genesis(byron: &ByronGenesis) -> (r: PParamsSet)
    requires
        byron.block_version_data.slot_duration >= 1000,
    ensures
        r@ == byron_params(*byron),
        r@.protocol_version == Some((0u64, 0u64)),
        r@.system_start == Some(byron.start_time),
        r@.slot_length == Some(byron.block_version_data.slot_duration / 1000),
        r@.min_fee_a == Some(byron.block_version_data.tx_fee_policy.multiplier),
        r@.min_fee_b == Some(byron.block_version_data.tx_fee_policy.summand),
        r@.max_block_body_size == Some(byron.block_version_data.max_block_size),
        r@.max_transaction_size == Some(byron.block_version_data.max_tx_size),
        r@.max_block_header_size == Some(byron.block_version_data.max_header_size),
        r@.key_deposit is None && r@.pool_deposit is None,
{
    let version = &byron.block_version_data;
    let slot_length_in_secs = version.slot_duration / 1000;
    let epoch_length = FIVE_DAYS_IN_SECONDS / slot_length_in_secs;
    let r = PParamsSet::new().with(PParamValue::ProtocolVersion((0, 0))).with(
        PParamValue::SystemStart(byron.start_time),
    ).with(PParamValue::SlotLength(slot_length_in_secs)).with(
        PParamValue::EpochLength(epoch_length),
    ).with(PParamValue::MinFeeA(version.tx_fee_policy.multiplier)).with(
        PParamValue::MinFeeB(version.tx_fee_policy.summand),
    ).with(PParamValue::MaxBlockBodySize(version.max_block_size)).with(
        PParamValue::MaxTransactionSize(version.max_tx_size),
    ).with(PParamValue::MaxBlockHeaderSize(version.max_header_size));
    assert(r@ =~= byron_params(*byron));
    r
}

/// Whether a Shelley genesis can be read: it names a start time that is an
/// RFC 3339 time, and its nonce hash, if any, is sixty-four hexadecimal
/// digits.
pub open spec fn shelley_readable(shelley: ShelleyGenesis) -> bool {
    &&& shelley.system_start matches Some(t) && rfc3339_timestamp(t@) is Some
    &&& nonce_hash_ok(shelley.protocol_params.extra_entropy)
}

/// The parameters a Shelley genesis declares.
pub open spec fn shelley_params(shelley: ShelleyGenesis) -> PParams {
    let p = shelley.protocol_params;
    PParams {
        system_start: Some(rfc3339_timestamp(shelley.system_start.unwrap()@).unwrap() as u64),
        protocol_version: Some((p.protocol_version.major, p.protocol_version.minor)),
        epoch_length: Some(
            match shelley.epoch_length {
                Some(e) => e as u64,
                None => 0,
            },
        ),
        slot_length: Some(
            match shelley.slot_length {
                Some(s) => s as u64,
                None => 0,
            },
        ),
        max_block_body_size: Some(p.max_block_body_size as u64),
        max_transaction_size: Some(p.max_tx_size as u64),
        max_block_header_size: Some(p.max_block_header_size as u64),
        key_deposit: Some(p.key_deposit),
        min_utxo_value: Some(p.min_utxo_value),
        min_fee_a: Some(p.min_fee_a as u64),
        min_fee_b: Some(p.min_fee_b as u64),
        pool_deposit: Some(p.pool_deposit),
        desired_number_of_stake_pools: Some(p.n_opt),
        min_pool_cost: Some(p.min_pool_cost),
        expansion_rate: Some(p.rho),
        treasury_growth_rate: Some(p.tau),
        maximum_epoch: Some(p.e_max),
        pool_pledge_influence: Some(p.a0),
        decentralization_constant: Some(p.decentralisation_param),
        extra_entropy: Some(config_nonce(p.extra_entropy)),
        ..empty_params()
    }
}

/// The parameter set a Shelley genesis declares.
pub fn from_shelley_genesis(shelley: &ShelleyGenesis) -> (r: PParamsSet)
    requires
        shelley_readable(*shelley),
    ensures
        r@ == shelley_params(*shelley),
        r@.protocol_version == Some(
            (
                shelley.protocol_params.protocol_version.major,
                shelley.protocol_params.protocol_version.minor,
            ),
        ),
        r@.max_block_body_size == Some(shelley.protocol_params.max_block_body_size as u64),
        r@.max_transaction_size == Some(shelley.protocol_params.max_tx_size as u64),
        r@.max_block_header_size == Some(shelley.protocol_params.max_block_header_size as u64),
        r@.key_deposit == Some(shelley.protocol_params.key_deposit),
        r@.pool_deposit == Some(shelley.protocol_params.pool_deposit),
        r@.min_utxo_value == Some(shelley.protocol_params.min_utxo_value),
        r@.min_fee_a == Some(shelley.protocol_params.min_fee_a as u64),
        r@.min_fee_b == Some(shelley.protocol_params.min_fee_b as u64),
        r@.desired_number_of_stake_pools == Some(shelley.protocol_params.n_opt),
        r@.min_pool_cost == Some(shelley.protocol_params.min_pool_cost),
        r@.expansion_rate == Some(shelley.protocol_params.rho),
        r@.treasury_growth_rate == Some(shelley.protocol_params.tau),
        r@.maximum_epoch == Some(shelley.protocol_params.e_max),
        r@.pool_pledge_influence == Some(shelley.protocol_params.a0),
        r@.decentralization_constant == Some(shelley.protocol_params.decentralisation_param),
{
    let start = match &shelley.system_start {
        Some(text) => rfc3339_seconds(text.as_str()),
        None => None,
    };
    let system_start: i64 = match start {
        Some(t) => t,
        None => 0,
    };
    let epoch_length: u32 = match shelley.epoch_length {
        Some(e) => e,
        None => 0,
    };
    let slot_length: u32 = match shelley.slot_length {
        Some(s) => s,
        None => 0,
    };
    let p = &shelley.protocol_params;
    let version = &p.protocol_version;
    let r = PParamsSet::new().with(PParamValue::SystemStart(system_start as u64)).with(
        PParamValue::ProtocolVersion((version.major, version.minor)),
    ).with(PParamValue::EpochLength(epoch_length as u64)).with(
        PParamValue::SlotLength(slot_length as u64),
    ).with(PParamValue::MaxBlockBodySize(p.max_block_body_size as u64)).with(
        PParamValue::MaxTransactionSize(p.max_tx_size as u64),
    ).with(PParamValue::MaxBlockHeaderSize(p.max_block_header_size as u64)).with(
        PParamValue::KeyDeposit(p.key_deposit),
    ).with(PParamValue::MinUtxoValue(p.min_utxo_value)).with(
        PParamValue::MinFeeA(p.min_fee_a as u64),
    ).with(PParamValue::MinFeeB(p.min_fee_b as u64)).with(
        PParamValue::PoolDeposit(p.pool_deposit),
    ).with(PParamValue::DesiredNumberOfStakePools(p.n_opt)).with(
        PParamValue::MinPoolCost(p.min_pool_cost),
    ).with(PParamValue::ExpansionRate(p.rho)).with(PParamValue::TreasuryGrowthRate(p.tau)).with(
        PParamValue::MaximumEpoch(p.e_max),
    ).with(PParamValue::PoolPledgeInfluence(p.a0)).with(
        PParamValue::DecentralizationConstant(p.decentralisation_param),
    ).with(PParamValue::ExtraEntropy(from_config_nonce(&p.extra_entropy)));
    assert(r@ =~= shelley_params(*shelley));
    r
}


/// The protocol version after a hard fork inside an era: the major version
/// one higher, with minor version 0. A set that holds no version, or whose
/// major version cannot go higher, has none to increment and takes
/// `(target, 0)`, the version the step is named for.
pub open spec fn bumped_version(v: Option<(u64, u64)>, target: u16) -> (u64, u64) {
    match v {
        Some((major, _)) => if major < u64::MAX {
            ((major + 1) as u64, 0u64)
        } else {
            (target as u64, 0u64)
        },
        None => (target as u64, 0u64),
    }
}

/// The parameters after a hard fork inside an era: the protocol version
/// goes up by one and nothing else changes.
pub open spec fn intra_era(p: PParams, target: u16) -> PParams {
    PParams { protocol_version: Some(bumped_version(p.protocol_version, target)), ..p }
}

/// Increments the major protocol version by one, with minor version 0,
/// without changing any other parameter. A set with no version to increment
/// takes `(target, 0)`.
pub fn intra_era_hardfork(current: &PParamsSet, target: u16) -> (r: PParamsSet)
    ensures
        r@ == intra_era(current@, target),
        r@ == (PParams { protocol_version: r@.protocol_version, ..current@ }),
        current@.protocol_version matches Some((major, _)) ==> (major < u64::MAX
            ==> r@.protocol_version == Some(((major + 1) as u64, 0u64))),
{
    let version: (u64, u64) = match current.protocol_version() {
        Some((major, _)) => if major < u64::MAX {
            (major + 1, 0)
        } else {
            (target as u64, 0)
        },
        None => (target as u64, 0),
    };
    let r = current.duplicate().with(PParamValue::ProtocolVersion(version));
    assert(r@ =~= intra_era(current@, target));
    r
}

/// Execution prices as the parameter set holds them.
pub open spec fn config_prices(config: ExecutionPrices) -> ExUnitPrices {
    ExUnitPrices { mem_price: config.pr_mem, step_price: config.pr_steps }
}

fn from_config_prices(config: &ExecutionPrices) -> (r: ExUnitPrices)
    ensures
        r == config_prices(*config),
{
    ExUnitPrices { mem_price: config.pr_mem, step_price: config.pr_steps }
}

/// The parameters after the step from Mary to Alonzo.
pub open spec fn alonzo_params(p: PParams, g: AlonzoGenesis) -> PParams {
    let set = PParams {
        protocol_version: Some((5, 0)),
        ada_per_utxo_byte: Some(g.lovelace_per_utxo_word),
        execution_costs: Some(config_prices(g.execution_prices)),
        max_tx_ex_units: Some(config_exunits(g.max_tx_ex_units)),
        max_block_ex_units: Some(config_exunits(g.max_block_ex_units)),
        max_value_size: Some(g.max_value_size),
        collateral_percentage: Some(g.collateral_percentage),
        max_collateral_inputs: Some(g.max_collateral_inputs),
        ..p
    };
    match language_model(g.cost_models@, Language::PlutusV1) {
        Some(m) => PParams { cost_models_plutus_v1: Some(m), ..set },
        None => set,
    }
}

/// Moves a parameter set from Mary to Alonzo: version 5, the Alonzo genesis
/// parameters, and its PlutusV1 cost model where it declares one.
pub fn into_alonzo(previous: &PParamsSet, genesis: &AlonzoGenesis) -> (r: PParamsSet)
    ensures
        r@ == alonzo_params(previous@, *genesis),
        r@ == (PParams { protocol_version: r@.protocol_version, ada_per_utxo_byte: r@.ada_per_utxo_byte, execution_costs: r@.execution_costs, max_tx_ex_units: r@.max_tx_ex_units, max_block_ex_units: r@.max_block_ex_units, max_value_size: r@.max_value_size, collateral_percentage: r@.collateral_percentage, max_collateral_inputs: r@.max_collateral_inputs, cost_models_plutus_v1: r@.cost_models_plutus_v1, ..previous@ }),
        r@.protocol_version == Some((5u64, 0u64)),
        r@.ada_per_utxo_byte == Some(genesis.lovelace_per_utxo_word),
        r@.execution_costs == Some(
            ExUnitPrices {
                mem_price: genesis.execution_prices.pr_mem,
                step_price: genesis.execution_prices.pr_steps,
            },
        ),
        r@.max_tx_ex_units == Some(
            ExUnits {
                mem: genesis.max_tx_ex_units.ex_units_mem,
                steps: genesis.max_tx_ex_units.ex_units_steps,
            },
        ),
        r@.max_block_ex_units == Some(
            ExUnits {
                mem: genesis.max_block_ex_units.ex_units_mem,
                steps: genesis.max_block_ex_units.ex_units_steps,
            },
        ),
        r@.max_value_size == Some(genesis.max_value_size),
        r@.collateral_percentage == Some(genesis.collateral_percentage),
        r@.max_collateral_inputs == Some(genesis.max_collateral_inputs),
        r@.key_deposit == previous@.key_deposit,
        r@.pool_deposit == previous@.pool_deposit,
        r@.cost_models_plutus_v2 == previous@.cost_models_plutus_v2,
        language_model(genesis.cost_models@, Language::PlutusV1) matches Some(m) ==> r@.cost_models_plutus_v1
            == Some(m),
        language_model(genesis.cost_models@, Language::PlutusV1) is None ==> r@.cost_models_plutus_v1
            == previous@.cost_models_plutus_v1,
{
    let set = previous.duplicate().with(PParamValue::ProtocolVersion((5, 0))).with(
        PParamValue::AdaPerUtxoByte(genesis.lovelace_per_utxo_word),
    ).with(PParamValue::ExecutionCosts(from_config_prices(&genesis.execution_prices))).with(
        PParamValue::MaxTxExUnits(from_config_exunits(&genesis.max_tx_ex_units)),
    ).with(PParamValue::MaxBlockExUnits(from_config_exunits(&genesis.max_block_ex_units))).with(
        PParamValue::MaxValueSize(genesis.max_value_size),
    ).with(PParamValue::CollateralPercentage(genesis.collateral_percentage)).with(
        PParamValue::MaxCollateralInputs(genesis.max_collateral_inputs),
    );
    let r = match from_alonzo_cost_models_map(&genesis.cost_models, Language::PlutusV1) {
        Some(v1) => set.with(PParamValue::CostModelsPlutusV1(v1)),
        None => set,
    };
    assert(r@ =~= alonzo_params(previous@, *genesis));
    r
}

/// The parameters after the step from Alonzo to Babbage. The deposit per
/// unit of output size was counted per eight-byte word and is now counted
/// per byte.
pub open spec fn babbage_params(p: PParams, g: AlonzoGenesis) -> PParams {
    let per_word: u64 = match p.ada_per_utxo_byte {
        Some(a) => a,
        None => 0,
    };
    let set = PParams {
        protocol_version: Some((7, 0)),
        ada_per_utxo_byte: Some((per_word / 8) as u64),
        ..p
    };
    match language_model(g.cost_models@, Language::PlutusV2) {
        Some(m) => PParams { cost_models_plutus_v2: Some(m), ..set },
        None => set,
    }
}

/// Moves a parameter set from Alonzo to Babbage: version 7, the deposit per
/// word turned into one per byte, and the PlutusV2 cost model where the
/// Alonzo genesis declares one.
pub fn into_babbage(previous: &PParamsSet, genesis: &AlonzoGenesis) -> (r: PParamsSet)
    ensures
        r@ == babbage_params(previous@, *genesis),
        r@ == (PParams { protocol_version: r@.protocol_version, ada_per_utxo_byte: r@.ada_per_utxo_byte, cost_models_plutus_v2: r@.cost_models_plutus_v2, ..previous@ }),
        r@.protocol_version == Some((7u64, 0u64)),
        previous@.ada_per_utxo_byte matches Some(w) ==> r@.ada_per_utxo_byte == Some((w / 8) as u64),
        r@.key_deposit == previous@.key_deposit,
        r@.pool_deposit == previous@.pool_deposit,
        r@.max_value_size == previous@.max_value_size,
        r@.collateral_percentage == previous@.collateral_percentage,
        r@.max_collateral_inputs == previous@.max_collateral_inputs,
        r@.execution_costs == previous@.execution_costs,
        r@.cost_models_plutus_v1 == previous@.cost_models_plutus_v1,
        language_model(genesis.cost_models@, Language::PlutusV2) matches Some(m) ==> r@.cost_models_plutus_v2
            == Some(m),
        language_model(genesis.cost_models@, Language::PlutusV2) is None ==> r@.cost_models_plutus_v2
            == previous@.cost_models_plutus_v2,
{
    let per_word: u64 = match previous.ada_per_utxo_byte() {
        Some(a) => a,
        None => 0,
    };
    let ada_per_utxo_byte = per_word / 8;
    let set = previous.duplicate().with(PParamValue::ProtocolVersion((7, 0))).with(
        PParamValue::AdaPerUtxoByte(ada_per_utxo_byte),
    );
    let r = match from_alonzo_cost_models_map(&genesis.cost_models, Language::PlutusV2) {
        Some(v2) => set.with(PParamValue::CostModelsPlutusV2(v2)),
        None => set,
    };
    assert(r@ =~= babbage_params(previous@, *genesis));
    r
}

/// The parameters after the step from Babbage to Conway.
pub open spec fn conway_params(p: PParams, g: ConwayGenesis) -> PParams {
    PParams {
        protocol_version: Some((9, 0)),
        cost_models_plutus_v3: Some(g.plutus_v3_cost_model@),
        pool_voting_thresholds: Some(g.pool_voting_thresholds),
        drep_voting_thresholds: Some(g.d_rep_voting_thresholds),
        min_committee_size: Some(g.committee_min_size),
        committee_term_limit: Some(g.committee_max_term_length as u64),
        governance_action_validity_period: Some(g.gov_action_lifetime as u64),
        governance_action_deposit: Some(g.gov_action_deposit),
        drep_deposit: Some(g.d_rep_deposit),
        drep_inactivity_period: Some(g.d_rep_activity as u64),
        min_fee_ref_script_cost_per_byte: Some(
            RationalNumber { numerator: g.min_fee_ref_script_cost_per_byte, denominator: 1 },
        ),
        ..p
    }
}

/// Moves a parameter set from Babbage to Conway: version 9 and the
/// governance parameters and PlutusV3 cost model of the Conway genesis.
pub fn into_conway(previous: &PParamsSet, genesis: &ConwayGenesis) -> (r: PParamsSet)
    ensures
        r@ == conway_params(previous@, *genesis),
        r@ == (PParams { protocol_version: r@.protocol_version, cost_models_plutus_v3: r@.cost_models_plutus_v3, pool_voting_thresholds: r@.pool_voting_thresholds, drep_voting_thresholds: r@.drep_voting_thresholds, min_committee_size: r@.min_committee_size, committee_term_limit: r@.committee_term_limit, governance_action_validity_period: r@.governance_action_validity_period, governance_action_deposit: r@.governance_action_deposit, drep_deposit: r@.drep_deposit, drep_inactivity_period: r@.drep_inactivity_period, min_fee_ref_script_cost_per_byte: r@.min_fee_ref_script_cost_per_byte, ..previous@ }),
        r@.protocol_version == Some((9u64, 0u64)),
        r@.drep_deposit == Some(genesis.d_rep_deposit),
        r@.governance_action_deposit == Some(genesis.gov_action_deposit),
        r@.governance_action_validity_period == Some(genesis.gov_action_lifetime as u64),
        r@.drep_inactivity_period == Some(genesis.d_rep_activity as u64),
        r@.min_committee_size == Some(genesis.committee_min_size),
        r@.committee_term_limit == Some(genesis.committee_max_term_length as u64),
        r@.pool_voting_thresholds == Some(genesis.pool_voting_thresholds),
        r@.drep_voting_thresholds == Some(genesis.d_rep_voting_thresholds),
        r@.cost_models_plutus_v3 == Some(genesis.plutus_v3_cost_model@),
        r@.min_fee_ref_script_cost_per_byte == Some(
            RationalNumber { numerator: genesis.min_fee_ref_script_cost_per_byte, denominator: 1 },
        ),
        r@.key_deposit == previous@.key_deposit,
        r@.pool_deposit == previous@.pool_deposit,
        r@.ada_per_utxo_byte == previous@.ada_per_utxo_byte,
        r@.cost_models_plutus_v1 == previous@.cost_models_plutus_v1,
        r@.cost_models_plutus_v2 == previous@.cost_models_plutus_v2,
        r@.cost_models_unknown == previous@.cost_models_unknown,
{
    let r = previous.duplicate().with(PParamValue::ProtocolVersion((9, 0))).with(
        PParamValue::CostModelsPlutusV3(copy_model(&genesis.plutus_v3_cost_model)),
    ).with(PParamValue::PoolVotingThresholds(genesis.pool_voting_thresholds)).with(
        PParamValue::DrepVotingThresholds(genesis.d_rep_voting_thresholds),
    ).with(PParamValue::MinCommitteeSize(genesis.committee_min_size)).with(
        PParamValue::CommitteeTermLimit(genesis.committee_max_term_length as u64),
    ).with(PParamValue::GovernanceActionValidityPeriod(genesis.gov_action_lifetime as u64)).with(
        PParamValue::GovernanceActionDeposit(genesis.gov_action_deposit),
    ).with(PParamValue::DrepDeposit(genesis.d_rep_deposit)).with(
        PParamValue::DrepInactivityPeriod(genesis.d_rep_activity as u64),
    ).with(
        PParamValue::MinFeeRefScriptCostPerByte(
            RationalNumber { numerator: genesis.min_fee_ref_script_cost_per_byte, denominator: 1 },
        ),
    );
    assert(r@ =~= conway_params(previous@, *genesis));
    r
}

/// The wildcard cost models a parameter set carries, none when it carries
/// no map.
pub open spec fn wildcard_models(p: PParams) -> Map<u64, Seq<i64>> {
    match p.cost_models_unknown {
        Some(m) => m,
        None => Map::empty(),
    }
}

/// The parameters after the step from Conway to Dijkstra: version 12 and the
/// PlutusV4 cost model added under its wildcard key.
pub open spec fn dijkstra_params(p: PParams, d: DijkstraGenesis) -> PParams {
    PParams {
        protocol_version: Some((12, 0)),
        cost_models_unknown: Some(
            wildcard_models(p).insert(PLUTUS_V4_COST_MODEL_KEY, d.plutus_v4_cost_model@),
        ),
        ..p
    }
}

/// Moves a Conway parameter set to Dijkstra.
///
/// Dijkstra keeps every Conway parameter with the same meaning and names a
/// cost model for PlutusV4, which the parameter set holds under a wildcard
/// key. That model is declared by the Dijkstra genesis file and by nothing on
/// the chain, so the step needs the configuration to name that file.
pub fn into_dijkstra(previous: &PParamsSet, genesis: &Genesis) -> (r: PParamsSet)
    requires
        genesis.dijkstra is Some,
    ensures
        r@ == dijkstra_params(previous@, genesis.dijkstra.unwrap()),
        r@ == (PParams { protocol_version: r@.protocol_version, cost_models_unknown: r@.cost_models_unknown, ..previous@ }),
        r@.protocol_version == Some((12u64, 0u64)),
        r@.cost_models_unknown matches Some(m) && m.contains_key(PLUTUS_V4_COST_MODEL_KEY)
            && m[PLUTUS_V4_COST_MODEL_KEY] == genesis.dijkstra.unwrap().plutus_v4_cost_model@,
        r@.drep_deposit == previous@.drep_deposit,
        r@.governance_action_deposit == previous@.governance_action_deposit,
        r@.cost_models_plutus_v3 == previous@.cost_models_plutus_v3,
{
    let dijkstra = genesis.dijkstra.as_ref().unwrap();
    let mut unknown = previous.cost_models_unknown_or_default();
    unknown.insert(PLUTUS_V4_COST_MODEL_KEY, copy_model(&dijkstra.plutus_v4_cost_model));
    assert(models_view(unknown@) =~= wildcard_models(previous@).insert(
        PLUTUS_V4_COST_MODEL_KEY,
        dijkstra.plutus_v4_cost_model@,
    ));
    let r = previous.duplicate().with(PParamValue::ProtocolVersion((12, 0))).with(
        PParamValue::CostModelsUnknown(unknown),
    );
    assert(r@ =~= dijkstra_params(previous@, genesis.dijkstra.unwrap()));
    r
}


/// Whether the genesis files hold what the step up from protocol version
/// `from` reads: a readable Shelley genesis for the step to Shelley, and a
/// Dijkstra genesis for the step to Dijkstra.
pub open spec fn step_ready(from: int, g: Genesis) -> bool {
    &&& from == 1 ==> shelley_readable(g.shelley)
    &&& from == 11 ==> g.dijkstra is Some
}

/// The parameters after the step from protocol version `from` to the next
/// one, for the versions the ladder knows (0 up to 11).
pub open spec fn migrated(from: int, p: PParams, g: Genesis) -> PParams {
    if from == 0 {
        intra_era(p, 1)
    } else if from == 1 {
        shelley_params(g.shelley)
    } else if from == 2 {
        intra_era(p, 3)
    } else if from == 3 {
        intra_era(p, 4)
    } else if from == 4 {
        alonzo_params(p, g.alonzo)
    } else if from == 5 {
        intra_era(p, 6)
    } else if from == 6 {
        babbage_params(p, g.alonzo)
    } else if from == 7 {
        intra_era(p, 8)
    } else if from == 8 {
        conway_params(p, g.conway)
    } else if from == 9 {
        intra_era(p, 10)
    } else if from == 10 {
        intra_era(p, 11)
    } else {
        dijkstra_params(p, g.dijkstra.unwrap())
    }
}

/// Moves a parameter set one protocol version up, from `from` to `to`.
///
/// The ladder knows the steps from version 0 to version 12, one at a time;
/// the step to Shelley starts over from the Shelley genesis, and the step to
/// Dijkstra needs a Dijkstra genesis.
pub fn migrate_pparams_version(from: u16, to: u16, current: &PParamsSet, genesis: &Genesis) -> (r:
    PParamsSet)
    requires
        to == from + 1,
        from <= 11,
        step_ready(from as int, *genesis),
    ensures
        r@ == migrated(from as int, current@, *genesis),
{
    if from == 0 {
        intra_era_hardfork(current, to)
    } else if from == 1 {
        from_shelley_genesis(&genesis.shelley)
    } else if from == 2 || from == 3 || from == 5 || from == 7 || from == 9 || from == 10 {
        intra_era_hardfork(current, to)
    } else if from == 4 {
        into_alonzo(current, &genesis.alonzo)
    } else if from == 6 {
        into_babbage(current, &genesis.alonzo)
    } else if from == 8 {
        into_conway(current, &genesis.conway)
    } else {
        into_dijkstra(current, genesis)
    }
}

/// The parameters after every step from protocol version `from` up to `to`.
pub open spec fn climbed(from: int, to: int, p: PParams, g: Genesis) -> PParams
    decreases to - from,
{
    if from >= to {
        p
    } else {
        climbed(from + 1, to, migrated(from, p, g), g)
    }
}

/// Whether every step of the ladder from `from` up to `to` is one the ladder
/// knows and can take with these genesis files.
pub open spec fn ladder_ready(from: int, to: int, g: Genesis) -> bool {
    from >= to || (to <= 12 && forall|k: int| from <= k < to ==> #[trigger] step_ready(k, g))
}

/// A state the parameter ladder cannot be in.
#[derive(Debug, Clone, Copy, PartialEq, Eq, Structural)]
pub struct BrokenInvariant;

/// Moves a parameter set from protocol version `from` up to `to`, one step at
/// a time.
pub fn force_pparams_version(initial: &PParamsSet, genesis: &Genesis, from: u16, to: u16) -> (r:
    Result<PParamsSet, BrokenInvariant>)
    requires
        ladder_ready(from as int, to as int, *genesis),
    ensures
        r matches Ok(set) && set@ == climbed(from as int, to as int, initial@, *genesis),
{
    let mut pparams = initial.duplicate();
    let mut version: u16 = from;
    while version < to
        invariant
            from <= version,
            version < to ==> ladder_ready(version as int, to as int, *genesis),
            from < to ==> version <= to,
            climbed(from as int, to as int, initial@, *genesis) == climbed(
                version as int,
                to as int,
                pparams@,
                *genesis,
            ),
        decreases to - version,
    {
        assert(step_ready(version as int, *genesis));
        pparams = migrate_pparams_version(version, version + 1, &pparams, genesis);
        version = version + 1;
    }
    Ok(pparams)
}


/// Why the parameter ladder cannot move a set between two versions.
#[derive(Debug, Clone, Copy, PartialEq, Eq, Structural)]
pub enum LadderError {
    /// The ladder knows no step up from this version.
    UnknownStep { from: u16 },
    /// The step to Shelley needs a Shelley genesis with an RFC 3339 start
    /// time and, if it has a nonce hash, one of sixty-four hexadecimal digits.
    UnreadableShelleyGenesis,
    /// The step to Dijkstra needs a Dijkstra genesis file.
    MissingDijkstraGenesis,
}

/// Whether the nonce hash of a configured entropy, if any, can be read.
fn nonce_hash_readable(e: &ExtraEntropy) -> (b: bool)
    ensures
        b == nonce_hash_ok(*e),
{
    match &e.hash {
        Some(h) => {
            if !h.is_ascii() {
                return false;
            }
            match hex_bytes(h.as_str()) {
                Some(bytes) => bytes.len() == 32,
                None => false,
            }
        },
        None => true,
    }
}

/// Whether the parameter set of a Shelley genesis can be read from it.
pub fn shelley_genesis_readable(shelley: &ShelleyGenesis) -> (b: bool)
    ensures
        b == shelley_readable(*shelley),
{
    let start_ok = match &shelley.system_start {
        Some(text) => rfc3339_seconds(text.as_str()).is_some(),
        None => false,
    };
    start_ok && nonce_hash_readable(&shelley.protocol_params.extra_entropy)
}

/// Moves a parameter set from protocol version `from` up to `to`, or says
/// which step it cannot take: the first in the order the ladder climbs.
pub fn try_force_pparams_version(initial: &PParamsSet, genesis: &Genesis, from: u16, to: u16) -> (r:
    Result<PParamsSet, LadderError>)
    ensures
        r is Ok <==> ladder_ready(from as int, to as int, *genesis),
        r matches Ok(set) ==> set@ == climbed(from as int, to as int, initial@, *genesis),
        r == Err::<PParamsSet, LadderError>(LadderError::UnreadableShelleyGenesis) <==> (from <= 1
            < to && !shelley_readable(genesis.shelley)),
        r == Err::<PParamsSet, LadderError>(LadderError::MissingDijkstraGenesis) <==> (from <= 11
            < to && genesis.dijkstra is None && !(from <= 1 < to && !shelley_readable(
            genesis.shelley))),
        r matches Err(LadderError::UnknownStep { from: k }) <==> (12 < to && from < to && !(from
            <= 1 < to && !shelley_readable(genesis.shelley)) && !(from <= 11 < to
            && genesis.dijkstra is None)),
        r matches Err(LadderError::UnknownStep { from: k }) ==> k == if from > 12 {
            from
        } else {
            12
        },
{
    if from <= 1 && 1 < to && !shelley_genesis_readable(&genesis.shelley) {
        assert(!step_ready(1, *genesis));
        return Err(LadderError::UnreadableShelleyGenesis);
    }
    if from <= 11 && 11 < to && genesis.dijkstra.is_none() {
        assert(!step_ready(11, *genesis));
        return Err(LadderError::MissingDijkstraGenesis);
    }
    if from < to && to > 12 {
        let k: u16 = if from > 12 {
            from
        } else {
            12
        };
        return Err(LadderError::UnknownStep { from: k });
    }
    assert(ladder_ready(from as int, to as int, *genesis));
    match force_pparams_version(initial, genesis, from, to) {
        Ok(set) => Ok(set),
        Err(_) => Err(LadderError::UnknownStep { from }),
    }
}

/// The epoch and slot lengths of a protocol version, in slots and seconds.
#[derive(Debug, Clone, Copy, PartialEq, Eq, Structural)]
pub struct ProtocolConstants {
    pub epoch_length: u64,
    pub slot_length: u64,
}

/// The epoch and slot lengths of a protocol version: before Shelley, a slot
/// of the Byron slot duration in whole seconds and an epoch of five days of
/// such slots; from Shelley on, those the Shelley genesis declares, zero
/// where it declares none.
pub fn protocol_constants(version: u16, genesis: &Genesis) -> (r: ProtocolConstants)
    requires
        version < 2 ==> genesis.byron.block_version_data.slot_duration >= 1000,
    ensures
        version < 2 ==> r.slot_length == genesis.byron.block_version_data.slot_duration / 1000
            && r.epoch_length == FIVE_DAYS_IN_SECONDS / r.slot_length,
        version >= 2 ==> r.epoch_length == match genesis.shelley.epoch_length {
            Some(e) => e as u64,
            None => 0,
        } && r.slot_length == match genesis.shelley.slot_length {
            Some(s) => s as u64,
            None => 0,
        },
{
    if version < 2 {
        let slot_length_in_secs = genesis.byron.block_version_data.slot_duration / 1000;
        let epoch_length = FIVE_DAYS_IN_SECONDS / slot_length_in_secs;
        ProtocolConstants { epoch_length, slot_length: slot_length_in_secs }
    } else {
        let epoch_length: u32 = match genesis.shelley.epoch_length {
            Some(e) => e,
            None => 0,
        };
        let slot_length: u32 = match genesis.shelley.slot_length {
            Some(s) => s,
            None => 0,
        };
        ProtocolConstants { epoch_length: epoch_length as u64, slot_length: slot_length as u64 }
    }
}

/// Climbing up to `to` is climbing up to the version below it and taking
/// the last step.
pub proof fn lemma_climbed_last_step(from: int, to: int, p: PParams, g: Genesis)
    requires
        from < to,
    ensures
        climbed(from, to, p, g) == migrated(to - 1, climbed(from, to - 1, p, g), g),
    decreases to - from,
{
    let m = migrated(from, p, g);
    assert(climbed(from, to, p, g) == climbed(from + 1, to, m, g));
    if from + 1 < to {
        lemma_climbed_last_step(from + 1, to, m, g);
        assert(climbed(from, to - 1, p, g) == climbed(from + 1, to - 1, m, g));
    } else {
        assert(climbed(from + 1, to, m, g) == m);
        assert(climbed(from, to - 1, p, g) == p);
    }
}

/// A set at protocol version `from` climbs to version `to`, with minor
/// version 0: each step inside an era raises the version by one and every
/// step into an era lands on that era's first version, provided the Shelley
/// genesis, where the climb passes through it, declares major version 2.
/// A climb that ends at Shelley ends at the version that genesis declares.
pub proof fn lemma_ladder_reaches_its_target(from: int, to: int, p: PParams, g: Genesis)
    requires
        0 <= from < to <= 12,
        to != 2,
        p.protocol_version matches Some((major, _)) && major == from,
        from <= 1 < to ==> g.shelley.protocol_params.protocol_version.major == 2,
    ensures
        climbed(from, to, p, g).protocol_version == Some((to as u64, 0u64)),
    decreases to - from,
{
    lemma_climbed_last_step(from, to, p, g);
    if to - 1 == from {
    } else if to - 1 == 2 {
        lemma_climbed_last_step(from, 2, p, g);
    } else {
        lemma_ladder_reaches_its_target(from, to - 1, p, g);
    }
}

/// Every climb that takes the step from Babbage to Conway ends with the
/// governance parameters the Conway genesis declares, each under the
/// parameter of its own name: the steps above Conway change only the
/// version and the wildcard cost models.
pub proof fn lemma_ladder_carries_the_conway_genesis(from: int, to: int, p: PParams, g: Genesis)
    requires
        from <= 8 < to,
    ensures
        ({
            let q = climbed(from, to, p, g);
            let c = g.conway;
            &&& q.drep_deposit == Some(c.d_rep_deposit)
            &&& q.governance_action_deposit == Some(c.gov_action_deposit)
            &&& q.governance_action_validity_period == Some(c.gov_action_lifetime as u64)
            &&& q.drep_inactivity_period == Some(c.d_rep_activity as u64)
            &&& q.min_committee_size == Some(c.committee_min_size)
            &&& q.committee_term_limit == Some(c.committee_max_term_length as u64)
            &&& q.pool_voting_thresholds == Some(c.pool_voting_thresholds)
            &&& q.drep_voting_thresholds == Some(c.d_rep_voting_thresholds)
            &&& q.cost_models_plutus_v3 == Some(c.plutus_v3_cost_model@)
            &&& q.min_fee_ref_script_cost_per_byte == Some(
                RationalNumber { numerator: c.min_fee_ref_script_cost_per_byte, denominator: 1 },
            )
        }),
    decreases to - from,
{
    lemma_climbed_last_step(from, to, p, g);
    if to - 1 > 8 {
        lemma_ladder_carries_the_conway_genesis(from, to - 1, p, g);
    }
}

/// A climb that ends at Shelley ends at the version the Shelley genesis
/// declares.
pub proof fn lemma_ladder_to_shelley_takes_its_version(from: int, p: PParams, g: Genesis)
    requires
        from < 2,
    ensures
        climbed(from, 2, p, g).protocol_version == Some(
            (g.shelley.protocol_params.protocol_version.major,
            g.shelley.protocol_params.protocol_version.minor),
        ),
{
    lemma_climbed_last_step(from, 2, p, g);
}

proof fn lemma_no_wildcard_from_shelley(from: int, to: int, q: PParams, g: Genesis)
    requires
        2 <= from,
        to <= 11,
        q.cost_models_unknown is None,
    ensures
        climbed(from, to, q, g).cost_models_unknown is None,
    decreases to - from,
{
    if from < to {
        lemma_no_wildcard_from_shelley(from + 1, to, migrated(from, q, g), g);
    }
}

/// A climb through Shelley that stops at Conway or below carries no
/// wildcard cost model map, and so no PlutusV4 cost model: the step to
/// Shelley starts over from its genesis, and no later step below Dijkstra
/// adds one.
pub proof fn lemma_ladder_below_dijkstra_holds_no_wildcard_models(
    from: int,
    to: int,
    p: PParams,
    g: Genesis,
)
    requires
        0 <= from <= 1 < to <= 11,
    ensures
        climbed(from, to, p, g).cost_models_unknown is None,
{
    if from == 0 {
        assert(climbed(0, to, p, g) == climbed(1, to, migrated(0, p, g), g));
    }
    let q = migrated(0, p, g);
    assert(climbed(1, to, q, g) == climbed(2, to, shelley_params(g.shelley), g));
    assert(climbed(1, to, p, g) == climbed(2, to, shelley_params(g.shelley), g));
    lemma_no_wildcard_from_shelley(2, to, shelley_params(g.shelley), g);
}

/// The step to Dijkstra sets the version to 12, adds the Dijkstra genesis
/// PlutusV4 cost model under its wildcard key, keeps every other wildcard
/// cost model, and changes no other parameter.
pub proof fn lemma_dijkstra_step_adds_only_the_plutus_v4_model(from: int, p: PParams, g: Genesis)
    requires
        0 <= from <= 11,
        g.dijkstra is Some,
    ensures
        ({
            let before = climbed(from, 11, p, g);
            let after = climbed(from, 12, p, g);
            &&& after == PParams {
                protocol_version: Some((12u64, 0u64)),
                cost_models_unknown: after.cost_models_unknown,
                ..before
            }
            &&& wildcard_models(after).dom() == wildcard_models(before).dom().insert(
                PLUTUS_V4_COST_MODEL_KEY,
            )
            &&& wildcard_models(after)[PLUTUS_V4_COST_MODEL_KEY]
                == g.dijkstra.unwrap().plutus_v4_cost_model@
            &&& forall|k: u64|
                #![trigger wildcard_models(before)[k]]
                wildcard_models(before).contains_key(k) && k != PLUTUS_V4_COST_MODEL_KEY
                    ==> wildcard_models(after)[k] == wildcard_models(before)[k]
        }),
{
    lemma_climbed_last_step(from, 12, p, g);
    let before = climbed(from, 11, p, g);
    let after = climbed(from, 12, p, g);
    assert(wildcard_models(after).dom() =~= wildcard_models(before).dom().insert(
        PLUTUS_V4_COST_MODEL_KEY,
    ));
}

/// A climb through Shelley up to Dijkstra carries exactly one wildcard cost
/// model: the PlutusV4 model of the Dijkstra genesis, under its key.
pub proof fn lemma_ladder_to_dijkstra_carries_only_the_genesis_plutus_v4_model(
    from: int,
    p: PParams,
    g: Genesis,
)
    requires
        0 <= from <= 1,
        g.dijkstra is Some,
    ensures
        climbed(from, 12, p, g).cost_models_unknown == Some(
            Map::<u64, Seq<i64>>::empty().insert(
                PLUTUS_V4_COST_MODEL_KEY,
                g.dijkstra.unwrap().plutus_v4_cost_model@,
            ),
        ),
{
    lemma_climbed_last_step(from, 12, p, g);
    lemma_ladder_below_dijkstra_holds_no_wildcard_models(from, 11, p, g);
    let before = climbed(from, 11, p, g);
    assert(wildcard_models(before) =~= Map::empty());
}

} // verus!
