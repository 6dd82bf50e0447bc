use dolos::forks::{
    force_pparams_version, from_byron_genesis, from_shelley_genesis, intra_era_hardfork,
    into_alonzo, into_babbage, into_conway, into_dijkstra, migrate_pparams_version,
    protocol_constants, shelley_genesis_readable, try_force_pparams_version, LadderError,
};
use dolos::genesis::{
    AlonzoGenesis, BlockVersionData, ByronGenesis, ConwayGenesis, DijkstraGenesis,
    ExecutionPrices, ExtraEntropy, Genesis, GenesisExUnits, Language, ShelleyGenesis,
    ShelleyProtocolParams, ShelleyProtocolVersion, TxFeePolicy,
};
use dolos::pparams::{
    DRepVotingThresholds, NonceVariant, PParamValue, PParamsSet, PoolVotingThresholds,
    RationalNumber,
};

fn ratio(numerator: u64, denominator: u64) -> RationalNumber {
    RationalNumber {
        numerator,
        denominator,
    }
}

fn byron() -> ByronGenesis {
    ByronGenesis {
        block_version_data: BlockVersionData {
            max_block_size: 2000000,
            max_header_size: 2000000,
            max_tx_size: 4096,
            slot_duration: 20000,
            tx_fee_policy: TxFeePolicy {
                multiplier: 43946000000,
                summand: 155381000000000,
            },
        },
        start_time: 1506203091,
    }
}

fn shelley() -> ShelleyGenesis {
    ShelleyGenesis {
        epoch_length: Some(432000),
        slot_length: Some(1),
        system_start: Some("2017-09-23T21:44:51Z".to_string()),
        protocol_params: ShelleyProtocolParams {
            protocol_version: ShelleyProtocolVersion { minor: 0, major: 2 },
            max_tx_size: 16384,
            max_block_body_size: 65536,
            max_block_header_size: 1100,
            key_deposit: 2000000,
            min_utxo_value: 1000000,
            min_fee_a: 44,
            min_fee_b: 155381,
            pool_deposit: 500000000,
            n_opt: 150,
            min_pool_cost: 340000000,
            e_max: 18,
            extra_entropy: ExtraEntropy {
                tag: NonceVariant::NeutralNonce,
                hash: None,
            },
            decentralisation_param: ratio(1, 1),
            rho: ratio(3, 1000),
            tau: ratio(1, 5),
            a0: ratio(3, 10),
        },
    }
}

fn alonzo() -> AlonzoGenesis {
    AlonzoGenesis {
        lovelace_per_utxo_word: 34482,
        execution_prices: ExecutionPrices {
            pr_steps: ratio(721, 10000000),
            pr_mem: ratio(577, 10000),
        },
        max_tx_ex_units: GenesisExUnits {
            ex_units_mem: 10000000,
            ex_units_steps: 10000000000,
        },
        max_block_ex_units: GenesisExUnits {
            ex_units_mem: 50000000,
            ex_units_steps: 40000000000,
        },
        max_value_size: 5000,
        collateral_percentage: 150,
        max_collateral_inputs: 3,
        cost_models: vec![
            (Language::PlutusV1, vec![197209, 0, 1, 1]),
            (Language::PlutusV2, vec![205665, 812, 1, 1]),
        ],
    }
}

fn conway() -> ConwayGenesis {
    ConwayGenesis {
        pool_voting_thresholds: PoolVotingThresholds {
            motion_no_confidence: ratio(51, 100),
            committee_normal: ratio(51, 100),
            committee_no_confidence: ratio(51, 100),
            hard_fork_initiation: ratio(51, 100),
            security_voting_threshold: ratio(51, 100),
        },
        d_rep_voting_thresholds: DRepVotingThresholds {
            motion_no_confidence: ratio(67, 100),
            committee_normal: ratio(67, 100),
            committee_no_confidence: ratio(3, 5),
            update_constitution: ratio(3, 4),
            hard_fork_initiation: ratio(3, 5),
            pp_network_group: ratio(67, 100),
            pp_economic_group: ratio(67, 100),
            pp_technical_group: ratio(67, 100),
            pp_governance_group: ratio(3, 4),
            treasury_withdrawal: ratio(67, 100),
        },
        committee_min_size: 7,
        committee_max_term_length: 146,
        gov_action_lifetime: 6,
        gov_action_deposit: 100000000000,
        d_rep_deposit: 500000000,
        d_rep_activity: 20,
        min_fee_ref_script_cost_per_byte: 15,
        plutus_v3_cost_model: vec![100788, 420, 1, 1, 1000],
    }
}

/// A PlutusV4 cost model of the Musashi node's length, with the first, the
/// fifty-third and the last entries the node's own.
fn plutus_v4_cost_model() -> Vec<i64> {
    let mut model: Vec<i64> = (0..251).map(|i| 1000 + i as i64).collect();
    model[0] = 100788;
    model[52] = -900;
    model[250] = 1;
    model
}

fn mainnet_genesis() -> Genesis {
    Genesis {
        byron: byron(),
        shelley: shelley(),
        alonzo: alonzo(),
        conway: conway(),
        dijkstra: None,
    }
}

fn genesis_with_dijkstra() -> Genesis {
    Genesis {
        dijkstra: Some(DijkstraGenesis {
            plutus_v4_cost_model: plutus_v4_cost_model(),
        }),
        ..mainnet_genesis()
    }
}

#[test]
fn force_pparams_to_van_rossem() {
    let genesis = mainnet_genesis();
    let initial = from_byron_genesis(&genesis.byron);
    let result = force_pparams_version(&initial, &genesis, 0, 11).unwrap();

    assert_eq!(result.protocol_major(), Some(11));
}

#[test]
fn force_pparams_to_dijkstra() {
    let genesis = genesis_with_dijkstra();
    let initial = from_byron_genesis(&genesis.byron);

    let at_eleven = force_pparams_version(&initial, &genesis, 0, 11).unwrap();
    let at_twelve = force_pparams_version(&initial, &genesis, 0, 12).unwrap();

    assert_eq!(at_twelve.protocol_major(), Some(12));

    let mut unknown = at_eleven.cost_models_unknown_or_default();
    unknown.insert(
        3,
        genesis
            .dijkstra
            .as_ref()
            .unwrap()
            .plutus_v4_cost_model
            .clone(),
    );

    let expected = at_eleven
        .with(PParamValue::ProtocolVersion((12, 0)))
        .with(PParamValue::CostModelsUnknown(unknown));

    assert_eq!(at_twelve, expected);
}

#[test]
fn the_dijkstra_step_carries_the_genesis_plutus_v4_cost_model() {
    let genesis = genesis_with_dijkstra();
    let initial = from_byron_genesis(&genesis.byron);

    let at_twelve = force_pparams_version(&initial, &genesis, 0, 12).unwrap();
    let carried = at_twelve.cost_models_unknown_or_default();

    let model = carried.get(&3).expect("no cost model under the PlutusV4 key");

    assert_eq!(model.len(), 251);
    assert_eq!(model[0], 100788);
    assert_eq!(model[52], -900);
    assert_eq!(model[250], 1);
    assert_eq!(
        model,
        &genesis.dijkstra.as_ref().unwrap().plutus_v4_cost_model
    );
}

#[test]
fn the_step_before_dijkstra_carries_no_plutus_v4_cost_model() {
    let genesis = genesis_with_dijkstra();
    let initial = from_byron_genesis(&genesis.byron);

    let at_eleven = force_pparams_version(&initial, &genesis, 0, 11).unwrap();

    assert_eq!(at_eleven.cost_models_unknown_or_default().get(&3), None);
}

#[test]
fn the_dijkstra_step_adds_one_cost_model_key_and_changes_no_other() {
    let genesis = genesis_with_dijkstra();
    let initial = from_byron_genesis(&genesis.byron);

    let at_eleven = force_pparams_version(&initial, &genesis, 0, 11).unwrap();
    let at_twelve = force_pparams_version(&initial, &genesis, 0, 12).unwrap();

    let before = at_eleven.cost_models_unknown_or_default();
    let after = at_twelve.cost_models_unknown_or_default();

    let added: Vec<u64> = after
        .keys()
        .filter(|key| !before.contains_key(key))
        .copied()
        .collect();
    assert_eq!(added, vec![3]);

    for (key, model) in before.iter() {
        assert_eq!(after.get(key), Some(model), "cost model {key} changed");
    }

    assert_eq!(
        at_twelve.cost_models_plutus_v1(),
        at_eleven.cost_models_plutus_v1()
    );
    assert_eq!(
        at_twelve.cost_models_plutus_v2(),
        at_eleven.cost_models_plutus_v2()
    );
    assert_eq!(
        at_twelve.cost_models_plutus_v3(),
        at_eleven.cost_models_plutus_v3()
    );
}

#[test]
fn a_dijkstra_step_without_the_genesis_file_stops() {
    let genesis = mainnet_genesis();
    let initial = from_byron_genesis(&genesis.byron);

    let result = try_force_pparams_version(&initial, &genesis, 0, 12);

    assert_eq!(result.err(), Some(LadderError::MissingDijkstraGenesis));
}

#[test]
fn a_version_with_no_rule_is_still_refused() {
    let genesis = genesis_with_dijkstra();
    let initial = from_byron_genesis(&genesis.byron);

    let result = try_force_pparams_version(&initial, &genesis, 0, 13);

    assert_eq!(result.err(), Some(LadderError::UnknownStep { from: 12 }));
}

#[test]
fn the_byron_parameters_are_read_from_the_byron_genesis() {
    let set = from_byron_genesis(&byron());

    assert_eq!(set.protocol_version(), Some((0, 0)));
    assert_eq!(set.system_start(), Some(1506203091));
    assert_eq!(set.slot_length(), Some(20));
    assert_eq!(set.epoch_length(), Some(21600));
    assert_eq!(set.min_fee_a(), Some(43946000000));
    assert_eq!(set.min_fee_b(), Some(155381000000000));
    assert_eq!(set.max_block_body_size(), Some(2000000));
    assert_eq!(set.max_transaction_size(), Some(4096));
    assert_eq!(set.max_block_header_size(), Some(2000000));
    assert_eq!(set.key_deposit(), None);
}

#[test]
fn the_shelley_parameters_are_read_from_the_shelley_genesis() {
    let set = from_shelley_genesis(&shelley());

    assert_eq!(set.system_start(), Some(1506203091));
    assert_eq!(set.protocol_version(), Some((2, 0)));
    assert_eq!(set.epoch_length(), Some(432000));
    assert_eq!(set.slot_length(), Some(1));
    assert_eq!(set.min_fee_a(), Some(44));
    assert_eq!(set.min_utxo_value(), Some(1000000));
    assert_eq!(set.desired_number_of_stake_pools(), Some(150));
    assert_eq!(set.expansion_rate(), Some(ratio(3, 1000)));
    assert_eq!(set.extra_entropy().unwrap().variant, NonceVariant::NeutralNonce);
    assert_eq!(set.extra_entropy().unwrap().hash, None);
}

#[test]
fn a_nonce_hash_is_read_from_its_hexadecimal_digits() {
    let mut genesis = shelley();
    genesis.protocol_params.extra_entropy = ExtraEntropy {
        tag: NonceVariant::Nonce,
        hash: Some("0f".repeat(32)),
    };
    let set = from_shelley_genesis(&genesis);

    assert_eq!(set.extra_entropy().unwrap().hash, Some([0x0f; 32]));
}

#[test]
fn a_shelley_genesis_with_no_readable_start_cannot_be_climbed_through() {
    let mut genesis = mainnet_genesis();
    genesis.shelley.system_start = Some("the day after".to_string());
    assert!(!shelley_genesis_readable(&genesis.shelley));

    let initial = from_byron_genesis(&genesis.byron);
    let result = try_force_pparams_version(&initial, &genesis, 0, 5);
    assert_eq!(result.err(), Some(LadderError::UnreadableShelleyGenesis));

    let mut genesis = mainnet_genesis();
    genesis.shelley.protocol_params.extra_entropy.hash = Some("short".to_string());
    assert!(!shelley_genesis_readable(&genesis.shelley));
}

#[test]
fn a_climb_that_starts_past_shelley_needs_no_shelley_genesis() {
    let mut genesis = mainnet_genesis();
    genesis.shelley.system_start = None;
    let start = from_byron_genesis(&genesis.byron).with(PParamValue::ProtocolVersion((4, 0)));

    let at_five = try_force_pparams_version(&start, &genesis, 4, 5).unwrap();
    assert_eq!(at_five.protocol_version(), Some((5, 0)));
}

#[test]
fn an_intra_era_hard_fork_changes_only_the_version() {
    let set = from_byron_genesis(&byron());
    let forked = intra_era_hardfork(&set, 1);

    assert_eq!(forked.protocol_version(), Some((1, 0)));
    assert_eq!(forked.with(PParamValue::ProtocolVersion((0, 0))), set);
}

#[test]
fn an_intra_era_hard_fork_raises_the_version_by_one() {
    let at_five = PParamsSet::new().with(PParamValue::ProtocolVersion((5, 3)));

    assert_eq!(intra_era_hardfork(&at_five, 9).protocol_version(), Some((6, 0)));
    assert_eq!(
        intra_era_hardfork(&PParamsSet::new(), 9).protocol_version(),
        Some((9, 0))
    );
}

#[test]
fn the_alonzo_step_reads_the_alonzo_genesis() {
    let set = into_alonzo(&PParamsSet::new(), &alonzo());

    assert_eq!(set.protocol_version(), Some((5, 0)));
    assert_eq!(set.ada_per_utxo_byte(), Some(34482));
    assert_eq!(set.max_value_size(), Some(5000));
    assert_eq!(set.cost_models_plutus_v1(), Some(vec![197209, 0, 1, 1]));
    assert_eq!(set.cost_models_plutus_v2(), None);
    assert_eq!(set.max_tx_ex_units().unwrap().steps, 10000000000);
    assert_eq!(set.execution_costs().unwrap().mem_price, ratio(577, 10000));
}

#[test]
fn the_babbage_step_counts_the_deposit_per_byte() {
    let at_alonzo = into_alonzo(&PParamsSet::new(), &alonzo());
    let set = into_babbage(&at_alonzo, &alonzo());

    assert_eq!(set.protocol_version(), Some((7, 0)));
    assert_eq!(set.ada_per_utxo_byte(), Some(4310));
    assert_eq!(set.cost_models_plutus_v2(), Some(vec![205665, 812, 1, 1]));
    assert_eq!(set.cost_models_plutus_v1(), Some(vec![197209, 0, 1, 1]));

    let from_nothing = into_babbage(&PParamsSet::new(), &alonzo());
    assert_eq!(from_nothing.ada_per_utxo_byte(), Some(0));
}

#[test]
fn the_conway_step_reads_the_conway_genesis() {
    let set = into_conway(&PParamsSet::new(), &conway());

    assert_eq!(set.protocol_version(), Some((9, 0)));
    assert_eq!(set.cost_models_plutus_v3(), Some(vec![100788, 420, 1, 1, 1000]));
    assert_eq!(set.committee_term_limit(), Some(146));
    assert_eq!(set.drep_inactivity_period(), Some(20));
    assert_eq!(set.min_fee_ref_script_cost_per_byte(), Some(ratio(15, 1)));
    assert_eq!(
        set.drep_voting_thresholds().unwrap().update_constitution,
        ratio(3, 4)
    );
}

#[test]
fn the_dijkstra_step_keeps_wildcard_models_already_there() {
    let mut wildcard = std::collections::BTreeMap::new();
    wildcard.insert(7u64, vec![7i64]);
    let set = PParamsSet::new().with(PParamValue::CostModelsUnknown(wildcard));

    let at_twelve = into_dijkstra(&set, &genesis_with_dijkstra());
    let carried = at_twelve.cost_models_unknown().unwrap();

    assert_eq!(carried.len(), 2);
    assert_eq!(carried.get(&7), Some(&vec![7i64]));
    assert_eq!(carried.get(&3), Some(&plutus_v4_cost_model()));
}

#[test]
fn each_step_moves_one_version_up() {
    let genesis = genesis_with_dijkstra();
    let mut set = from_byron_genesis(&genesis.byron);
    for from in 0u16..12 {
        set = migrate_pparams_version(from, from + 1, &set, &genesis);
        assert_eq!(set.protocol_major(), Some(from as u64 + 1));
    }
}

#[test]
fn byron_constants_are_five_days_of_slots() {
    let genesis = mainnet_genesis();

    let byron = protocol_constants(1, &genesis);
    assert_eq!(byron.slot_length, 20);
    assert_eq!(byron.epoch_length, 21600);

    let shelley = protocol_constants(2, &genesis);
    assert_eq!(shelley.slot_length, 1);
    assert_eq!(shelley.epoch_length, 432000);
}

#[test]
fn a_climb_that_starts_past_the_ladder_names_the_step_it_cannot_take() {
    let genesis = genesis_with_dijkstra();
    let start = PParamsSet::new();

    assert_eq!(
        try_force_pparams_version(&start, &genesis, 14, 16).err(),
        Some(LadderError::UnknownStep { from: 14 })
    );
    assert_eq!(
        try_force_pparams_version(&start, &genesis, 7, 7).unwrap(),
        PParamsSet::new()
    );
}

/// The parameters the Musashi node's Dijkstra genesis declares that no
/// member of `PParamsSet` can hold, as that file spells them.
const DIJKSTRA_GENESIS_PARAMETERS: &[&str] = &[
    "leiosAnnouncementPeriodLength",
    "leiosCommitteeSize",
    "leiosDiffusionPeriodLength",
    "leiosQuorumStakeThreshold",
    "leiosVotePeriodLength",
    "maxEndorserBlockExecutionUnits",
    "maxEndorserBlockReferencesSize",
    "maxEndorserBlockTxsSize",
    "maxPledgeLeverage",
    "maxRefScriptSizePerBlock",
    "maxRefScriptSizePerEndorserBlock",
    "maxRefScriptSizePerTx",
    "minPoolMargin",
    "refScriptCostMultiplier",
    "refScriptCostStride",
];

/// Case and separators removed, so a parameter is compared by its name and
/// not by the spelling two files chose for it.
fn flatten(name: &str) -> String {
    name.chars()
        .filter(|c| c.is_ascii_alphanumeric())
        .map(|c| c.to_ascii_lowercase())
        .collect()
}

/// The names of the parameters a set holds a value for, read off its debug
/// rendering, where each member reads `name: Some(..)` or `name: None`.
fn carried_names(set: &PParamsSet) -> Vec<String> {
    let text = format!("{:?}", set);
    let mut names = Vec::new();
    for piece in text.split(", ") {
        let piece = piece.trim_start_matches("PParamsSet { ");
        if let Some((name, value)) = piece.split_once(": ") {
            if value.starts_with("Some(") {
                names.push(flatten(name));
            }
        }
    }
    names
}

#[test]
fn the_dijkstra_parameters_are_absent_from_the_transitioned_set() {
    let genesis = genesis_with_dijkstra();
    let initial = from_byron_genesis(&genesis.byron);

    let at_twelve = force_pparams_version(&initial, &genesis, 0, 12).unwrap();

    let carried = carried_names(&at_twelve);

    for name in DIJKSTRA_GENESIS_PARAMETERS {
        assert!(
            !carried.contains(&flatten(name)),
            "{name} reached the version 12 set, so the transition now has to source it",
        );
    }

    assert!(
        carried.contains(&flatten("protocolVersion")),
        "the comparison matches nothing at all, so the absences above mean nothing",
    );
}
