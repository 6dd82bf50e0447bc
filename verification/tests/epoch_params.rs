use dolos::epoch_params::{
    epoch_param_model, EpochContentModelBuilder, EpochState, ModelError, ParametersModelBuilder,
    RollingStats,
};
use dolos::forks::{force_pparams_version, from_byron_genesis};
use dolos::genesis::{
    AlonzoGenesis, BlockVersionData, ByronGenesis, ConwayGenesis, ExecutionPrices, ExtraEntropy,
    Genesis, GenesisExUnits, Language, ShelleyGenesis, ShelleyProtocolParams,
    ShelleyProtocolVersion, TxFeePolicy,
};
use dolos::pparams::{
    DRepVotingThresholds, NonceVariant, PParamValue, PParamsSet, PoolVotingThresholds,
    RationalNumber,
};

fn ratio(numerator: u64, denominator: u64) -> RationalNumber {
    RationalNumber {
        numerator,
        denominator,
    }
}

fn shelley_params() -> ShelleyProtocolParams {
    ShelleyProtocolParams {
        protocol_version: ShelleyProtocolVersion { minor: 0, major: 2 },
        max_tx_size: 16384,
        max_block_body_size: 65536,
        max_block_header_size: 1100,
        key_deposit: 2000000,
        min_utxo_value: 1000000,
        min_fee_a: 44,
        min_fee_b: 155381,
        pool_deposit: 500000000,
        n_opt: 150,
        min_pool_cost: 340000000,
        e_max: 18,
        extra_entropy: ExtraEntropy {
            tag: NonceVariant::NeutralNonce,
            hash: None,
        },
        decentralisation_param: ratio(1, 1),
        rho: ratio(3, 1000),
        tau: ratio(1, 5),
        a0: ratio(3, 10),
    }
}

fn genesis() -> Genesis {
    Genesis {
        byron: ByronGenesis {
            block_version_data: BlockVersionData {
                max_block_size: 2000000,
                max_header_size: 2000000,
                max_tx_size: 4096,
                slot_duration: 20000,
                tx_fee_policy: TxFeePolicy {
                    multiplier: 43946000000,
                    summand: 155381000000000,
                },
            },
            start_time: 1506203091,
        },
        shelley: ShelleyGenesis {
            epoch_length: Some(432000),
            slot_length: Some(1),
            system_start: Some("2017-09-23T21:44:51Z".to_string()),
            protocol_params: shelley_params(),
        },
        alonzo: AlonzoGenesis {
            lovelace_per_utxo_word: 34482,
            execution_prices: ExecutionPrices {
                pr_steps: ratio(721, 10000000),
                pr_mem: ratio(577, 10000),
            },
            max_tx_ex_units: GenesisExUnits {
                ex_units_mem: 10000000,
                ex_units_steps: 10000000000,
            },
            max_block_ex_units: GenesisExUnits {
                ex_units_mem: 50000000,
                ex_units_steps: 40000000000,
            },
            max_value_size: 5000,
            collateral_percentage: 150,
            max_collateral_inputs: 3,
            cost_models: vec![
                (Language::PlutusV1, vec![197209, 0, 1, 1]),
                (Language::PlutusV2, vec![205665, 812, 1, 1]),
            ],
        },
        conway: ConwayGenesis {
            pool_voting_thresholds: PoolVotingThresholds {
                motion_no_confidence: ratio(51, 100),
                committee_normal: ratio(51, 100),
                committee_no_confidence: ratio(51, 100),
                hard_fork_initiation: ratio(51, 100),
                security_voting_threshold: ratio(51, 100),
            },
            d_rep_voting_thresholds: DRepVotingThresholds {
                motion_no_confidence: ratio(67, 100),
                committee_normal: ratio(67, 100),
                committee_no_confidence: ratio(3, 5),
                update_constitution: ratio(3, 4),
                hard_fork_initiation: ratio(3, 5),
                pp_network_group: ratio(67, 100),
                pp_economic_group: ratio(67, 100),
                pp_technical_group: ratio(67, 100),
                pp_governance_group: ratio(3, 4),
                treasury_withdrawal: ratio(67, 100),
            },
            committee_min_size: 7,
            committee_max_term_length: 146,
            gov_action_lifetime: 6,
            gov_action_deposit: 100000000000,
            d_rep_deposit: 500000000,
            d_rep_activity: 20,
            min_fee_ref_script_cost_per_byte: 15,
            plutus_v3_cost_model: vec![100788, 420, 1, 1, 1000],
        },
        dijkstra: None,
    }
}

#[test]
fn a_collateral_percentage_past_i32_is_refused_and_not_wrapped() {
    let params = PParamsSet::new().with(PParamValue::CollateralPercentage(1 << 31));
    assert_eq!(
        epoch_param_model(5, &params, &shelley_params(), None),
        Err(ModelError::CountPastI32)
    );

    let params = PParamsSet::new().with(PParamValue::MaxCollateralInputs(u32::MAX));
    assert_eq!(
        epoch_param_model(5, &params, &shelley_params(), None),
        Err(ModelError::CountPastI32)
    );
}

#[test]
fn a_collateral_count_at_i32_max_is_rendered() {
    let params = PParamsSet::new()
        .with(PParamValue::CollateralPercentage(i32::MAX as u32))
        .with(PParamValue::MaxCollateralInputs(3));
    let model = epoch_param_model(5, &params, &shelley_params(), None).unwrap();

    assert_eq!(model.collateral_percent, Some(i32::MAX));
    assert_eq!(model.max_collateral_inputs, Some(3));
}

#[test]
fn the_minimum_utxo_falls_back_to_the_shelley_genesis() {
    let empty = PParamsSet::new();
    let model = epoch_param_model(5, &empty, &shelley_params(), None).unwrap();
    assert_eq!(model.min_utxo, 1000000);
    assert_eq!(model.coins_per_utxo_size, None);

    let set = PParamsSet::new().with(PParamValue::AdaPerUtxoByte(4310));
    let model = epoch_param_model(5, &set, &shelley_params(), None).unwrap();
    assert_eq!(model.min_utxo, 4310);
    assert_eq!(model.coins_per_utxo_size, Some(4310));
    assert_eq!(model.coins_per_utxo_word, Some(4310));
}

#[test]
fn an_empty_set_renders_zeros_and_no_nonce() {
    let model = epoch_param_model(7, &PParamsSet::new(), &shelley_params(), None).unwrap();

    assert_eq!(model.epoch, 7);
    assert_eq!(model.max_tx_size, 0);
    assert_eq!(model.key_deposit, 0);
    assert_eq!(model.protocol_major_ver, 0);
    assert_eq!(model.protocol_minor_ver, 0);
    assert_eq!(model.rho, None);
    assert_eq!(model.nonce, "");
    assert_eq!(model.extra_entropy, None);
    assert_eq!(model.e_max, 18);
    assert_eq!(model.a0, ratio(3, 10));
}

#[test]
fn a_count_the_set_holds_past_i32_is_rendered_wrapped() {
    let set = PParamsSet::new().with(PParamValue::MaxTransactionSize(3_000_000_000));
    let model = epoch_param_model(7, &set, &shelley_params(), None).unwrap();

    assert_eq!(model.max_tx_size, 3_000_000_000u64 as i32);
}

#[test]
fn the_parameters_of_a_conway_epoch_are_rendered() {
    let genesis = genesis();
    let initial = from_byron_genesis(&genesis.byron);
    let params = force_pparams_version(&initial, &genesis, 0, 10).unwrap();

    let model = ParametersModelBuilder {
        epoch: 500,
        params,
        genesis: &genesis,
        nonce: Some("ab".repeat(32)),
    }
    .into_model()
    .unwrap();

    assert_eq!(model.epoch, 500);
    assert_eq!(model.protocol_major_ver, 10);
    assert_eq!(model.protocol_minor_ver, 0);
    assert_eq!(model.max_tx_size, 16384);
    assert_eq!(model.min_fee_a, 44);
    assert_eq!(model.collateral_percent, Some(150));
    assert_eq!(model.max_collateral_inputs, Some(3));
    assert_eq!(model.max_val_size, Some(5000));
    assert_eq!(model.min_utxo, 34482 / 8);
    assert_eq!(model.coins_per_utxo_word, model.coins_per_utxo_size);
    assert_eq!(model.pvtpp_security_group, Some(ratio(51, 100)));
    assert_eq!(model.pvt_p_p_security_group, model.pvtpp_security_group);
    assert_eq!(model.dvt_update_to_constitution, Some(ratio(3, 4)));
    assert_eq!(model.drep_activity, Some(20));
    assert_eq!(model.gov_action_lifetime, Some(6));
    assert_eq!(model.price_mem, Some(ratio(577, 10000)));
    assert_eq!(model.max_block_ex_steps, Some(40000000000));
    assert_eq!(model.cost_models.plutus_v3, Some(vec![100788, 420, 1, 1, 1000]));
    assert_eq!(model.nonce, "ab".repeat(32));
    assert_eq!(model.extra_entropy, None);
}

fn content_builder(rolling: Option<RollingStats>) -> EpochContentModelBuilder {
    EpochContentModelBuilder {
        state: EpochState {
            number: 500,
            rolling,
        },
        start_time: 1_700_000_000,
        end_time: 1_700_432_000,
        first_block_time: 1_700_000_020,
        last_block_time: 1_700_431_980,
        tx_count: 12345,
        output: 45_000_000_000_000_000_000u128,
        active_stake: Some(22_000_000_000_000_000),
    }
}

#[test]
fn an_epoch_is_rendered_with_its_live_counts() {
    let builder = content_builder(Some(RollingStats {
        blocks_minted: 21000,
        gathered_fees: 9_876_543,
    }));
    assert_eq!(builder.sort_key(), Some(500));

    let model = builder.into_model().unwrap();
    assert_eq!(model.epoch, 500);
    assert_eq!(model.start_time, 1_700_000_000);
    assert_eq!(model.last_block_time, 1_700_431_980);
    assert_eq!(model.block_count, 21000);
    assert_eq!(model.tx_count, 12345);
    assert_eq!(model.output, 45_000_000_000_000_000_000u128);
    assert_eq!(model.fees, 9_876_543);
    assert_eq!(model.active_stake, Some(22_000_000_000_000_000));
}

#[test]
fn an_epoch_with_no_live_counts_renders_zero_blocks_and_fees() {
    let model = content_builder(None).into_model().unwrap();
    assert_eq!(model.block_count, 0);
    assert_eq!(model.fees, 0);
}

#[test]
fn a_time_past_i32_is_rendered_wrapped() {
    let mut builder = content_builder(None);
    builder.end_time = 3_000_000_000;
    assert_eq!(builder.into_model().unwrap().end_time, 3_000_000_000u64 as i32);
}
