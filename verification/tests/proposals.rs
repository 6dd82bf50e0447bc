use std::collections::BTreeMap;

use dolos::cost_models::{CostModels, PLUTUS_V4_COST_MODEL_KEY};
use dolos::genesis::Language;
use dolos::pparams::{ExUnits, RationalNumber};
use dolos::proposals::{
    parse_gov_action, parse_treasury_withdrawals, pre_conway_to_pparamset, unrecordable_param,
    wildcard_cost_models, BabbageCostModels, ChainError, Credential, DijkstraParam,
    DijkstraProposed, GovAction, GovActionId, GovActionKind, GovPurpose, ParamUpdate,
    PreConwayUpdate, ProposalAction, ProposedCostModels, UpdateEra,
};

fn nothing_proposed() -> DijkstraProposed {
    DijkstraProposed {
        max_ref_script_size_per_block: false,
        max_ref_script_size_per_tx: false,
        ref_script_cost_stride: false,
        ref_script_cost_multiplier: false,
        max_pledge_leverage: false,
        min_pool_margin: false,
        leios_announcement_period_length: false,
        leios_vote_period_length: false,
        leios_diffusion_period_length: false,
        leios_committee_size: false,
        leios_quorum_stake_threshold: false,
        max_endorser_block_references_size: false,
        max_endorser_block_txs_size: false,
        max_endorser_block_execution_units: false,
        max_ref_script_size_per_endorser_block: false,
    }
}

fn empty_update(era: UpdateEra) -> ParamUpdate {
    ParamUpdate {
        era,
        minfee_a: None,
        minfee_b: None,
        max_block_body_size: None,
        max_transaction_size: None,
        max_block_header_size: None,
        key_deposit: None,
        pool_deposit: None,
        desired_number_of_stake_pools: None,
        ada_per_utxo_byte: None,
        min_pool_cost: None,
        expansion_rate: None,
        treasury_growth_rate: None,
        maximum_epoch: None,
        pool_pledge_influence: None,
        max_value_size: None,
        collateral_percentage: None,
        max_collateral_inputs: None,
        pool_voting_thresholds: None,
        drep_voting_thresholds: None,
        min_committee_size: None,
        committee_term_limit: None,
        governance_action_validity_period: None,
        governance_action_deposit: None,
        drep_deposit: None,
        drep_inactivity_period: None,
        max_tx_ex_units: None,
        max_block_ex_units: None,
        minfee_refscript_cost_per_byte: None,
        execution_costs: None,
        cost_models_for_script_languages: None,
        era_wildcard_cost_models: None,
        dijkstra_only: nothing_proposed(),
    }
}

fn parameter_change(update: ParamUpdate) -> GovAction {
    GovAction {
        id: None,
        kind: GovActionKind::ParameterChange(update),
    }
}

/// Every Dijkstra-only parameter, with the name its refusal carries, and an
/// update proposing it alone.
fn dijkstra_only_keys() -> Vec<(DijkstraParam, &'static str, DijkstraProposed)> {
    let base = nothing_proposed();
    vec![
        (DijkstraParam::MaxRefScriptSizePerBlock, "max_ref_script_size_per_block", DijkstraProposed { max_ref_script_size_per_block: true, ..base }),
        (DijkstraParam::MaxRefScriptSizePerTx, "max_ref_script_size_per_tx", DijkstraProposed { max_ref_script_size_per_tx: true, ..base }),
        (DijkstraParam::RefScriptCostStride, "ref_script_cost_stride", DijkstraProposed { ref_script_cost_stride: true, ..base }),
        (DijkstraParam::RefScriptCostMultiplier, "ref_script_cost_multiplier", DijkstraProposed { ref_script_cost_multiplier: true, ..base }),
        (DijkstraParam::MaxPledgeLeverage, "max_pledge_leverage", DijkstraProposed { max_pledge_leverage: true, ..base }),
        (DijkstraParam::MinPoolMargin, "min_pool_margin", DijkstraProposed { min_pool_margin: true, ..base }),
        (DijkstraParam::LeiosAnnouncementPeriodLength, "leios_announcement_period_length", DijkstraProposed { leios_announcement_period_length: true, ..base }),
        (DijkstraParam::LeiosVotePeriodLength, "leios_vote_period_length", DijkstraProposed { leios_vote_period_length: true, ..base }),
        (DijkstraParam::LeiosDiffusionPeriodLength, "leios_diffusion_period_length", DijkstraProposed { leios_diffusion_period_length: true, ..base }),
        (DijkstraParam::LeiosCommitteeSize, "leios_committee_size", DijkstraProposed { leios_committee_size: true, ..base }),
        (DijkstraParam::LeiosQuorumStakeThreshold, "leios_quorum_stake_threshold", DijkstraProposed { leios_quorum_stake_threshold: true, ..base }),
        (DijkstraParam::MaxEndorserBlockReferencesSize, "max_endorser_block_references_size", DijkstraProposed { max_endorser_block_references_size: true, ..base }),
        (DijkstraParam::MaxEndorserBlockTxsSize, "max_endorser_block_txs_size", DijkstraProposed { max_endorser_block_txs_size: true, ..base }),
        (DijkstraParam::MaxEndorserBlockExecutionUnits, "max_endorser_block_execution_units", DijkstraProposed { max_endorser_block_execution_units: true, ..base }),
        (DijkstraParam::MaxRefScriptSizePerEndorserBlock, "max_ref_script_size_per_endorser_block", DijkstraProposed { max_ref_script_size_per_endorser_block: true, ..base }),
    ]
}

#[test]
fn every_dijkstra_only_parameter_key_is_refused_by_name() {
    for (param, name, proposed) in dijkstra_only_keys() {
        let mut update = empty_update(UpdateEra::Dijkstra);
        update.dijkstra_only = proposed;
        update.minfee_a = Some(500);
        assert_eq!(unrecordable_param(&update), Some(param));
        assert_eq!(param.name(), name);

        let error = parse_gov_action(&parameter_change(update))
            .err()
            .unwrap_or_else(|| panic!("{name} was recorded"));

        match error {
            ChainError::UnrecordableProposalPart(text) => assert!(
                text.contains(name),
                "{name} was refused without naming it: {text}"
            ),
            other => panic!("{name} was refused as {other:?}"),
        }
    }
}

#[test]
fn a_dijkstra_update_of_a_shared_parameter_is_recorded() {
    let mut update = empty_update(UpdateEra::Dijkstra);
    update.minfee_a = Some(500);

    let (recorded, parent, purpose) = parse_gov_action(&parameter_change(update)).unwrap();

    assert_eq!(parent, None);
    assert_eq!(purpose, Some(GovPurpose::PParamUpdate));

    let ProposalAction::ParamChange(set) = recorded else {
        panic!("a parameter change was recorded as {recorded:?}");
    };

    assert_eq!(set.min_fee_a(), Some(500));
}

#[test]
fn a_dijkstra_plutus_v4_cost_model_is_recorded_under_the_wildcard_key() {
    let mut update = empty_update(UpdateEra::Dijkstra);
    update.cost_models_for_script_languages = Some(ProposedCostModels {
        plutus_v1: None,
        plutus_v2: None,
        plutus_v3: None,
        plutus_v4: Some(vec![1, 2]),
    });

    let (recorded, _, _) = parse_gov_action(&parameter_change(update)).unwrap();

    let ProposalAction::ParamChange(set) = recorded else {
        panic!("a parameter change was recorded as {recorded:?}");
    };

    assert_eq!(
        set.cost_models_unknown(),
        Some(BTreeMap::from([(PLUTUS_V4_COST_MODEL_KEY, vec![1, 2])]))
    );
}

#[test]
fn a_conway_cost_model_under_a_wildcard_key_is_kept() {
    let mut update = empty_update(UpdateEra::Conway);
    update.cost_models_for_script_languages = Some(ProposedCostModels {
        plutus_v1: None,
        plutus_v2: None,
        plutus_v3: None,
        plutus_v4: None,
    });
    update.era_wildcard_cost_models = Some(BTreeMap::from([(5, vec![1, 2])]));

    let (recorded, _, _) = parse_gov_action(&parameter_change(update)).unwrap();

    let ProposalAction::ParamChange(set) = recorded else {
        panic!("a parameter change was recorded as {recorded:?}");
    };

    assert_eq!(
        set.cost_models_unknown(),
        Some(BTreeMap::from([(5, vec![1, 2])]))
    );
}

#[test]
fn the_first_dijkstra_only_parameter_in_search_order_is_named() {
    let mut update = empty_update(UpdateEra::Dijkstra);
    update.dijkstra_only = DijkstraProposed {
        min_pool_margin: true,
        leios_committee_size: true,
        ..nothing_proposed()
    };

    assert_eq!(unrecordable_param(&update), Some(DijkstraParam::MinPoolMargin));
    assert_eq!(unrecordable_param(&empty_update(UpdateEra::Dijkstra)), None);
}

#[test]
fn cost_models_of_an_era_the_node_does_not_read_are_refused() {
    let mut update = empty_update(UpdateEra::Other);
    assert!(wildcard_cost_models(&update).is_err());

    update.cost_models_for_script_languages = Some(ProposedCostModels {
        plutus_v1: Some(vec![1]),
        plutus_v2: None,
        plutus_v3: None,
        plutus_v4: None,
    });
    let error = parse_gov_action(&parameter_change(update)).err().unwrap();

    assert_eq!(
        error,
        ChainError::UnrecordableProposalPart(
            "cost models of an era this node does not read".to_string()
        )
    );
}

#[test]
fn the_deposit_per_byte_is_recorded_under_both_of_its_names() {
    let mut update = empty_update(UpdateEra::Conway);
    update.ada_per_utxo_byte = Some(4310);
    update.max_tx_ex_units = Some(ExUnits { mem: 10, steps: 20 });
    update.desired_number_of_stake_pools = Some(500);

    let (recorded, _, _) = parse_gov_action(&parameter_change(update)).unwrap();
    let ProposalAction::ParamChange(set) = recorded else {
        panic!("a parameter change was recorded as {recorded:?}");
    };

    assert_eq!(set.ada_per_utxo_byte(), Some(4310));
    assert_eq!(set.min_utxo_value(), Some(4310));
    assert_eq!(set.max_tx_ex_units(), Some(ExUnits { mem: 10, steps: 20 }));
    assert_eq!(set.desired_number_of_stake_pools(), Some(500));
    assert_eq!(set.cost_models_unknown(), None);
    assert_eq!(set.protocol_version(), None);
}

#[test]
fn each_kind_of_action_keeps_its_lineage() {
    let id = GovActionId {
        transaction_id: [9u8; 32],
        action_index: 1,
    };

    let hard_fork = GovAction {
        id: Some(id),
        kind: GovActionKind::HardForkInitiation((10, 0)),
    };
    let (action, parent, purpose) = parse_gov_action(&hard_fork).unwrap();
    assert_eq!(action, ProposalAction::HardFork((10, 0)));
    assert_eq!(parent, Some(id));
    assert_eq!(purpose, Some(GovPurpose::HardFork));

    let info = GovAction {
        id: None,
        kind: GovActionKind::Information,
    };
    assert_eq!(parse_gov_action(&info).unwrap(), (ProposalAction::Info, None, None));

    let no_confidence = GovAction {
        id: Some(id),
        kind: GovActionKind::NoConfidence,
    };
    assert_eq!(
        parse_gov_action(&no_confidence).unwrap(),
        (ProposalAction::NoConfidence, Some(id), Some(GovPurpose::Committee))
    );

    let unknown = GovAction {
        id: None,
        kind: GovActionKind::Unknown,
    };
    assert_eq!(
        parse_gov_action(&unknown).err(),
        Some(ChainError::UnrecordableProposalPart(
            "a governance action of a kind this node does not read".to_string()
        ))
    );
}

#[test]
fn a_committee_update_is_recorded_as_proposed() {
    let action = GovAction {
        id: None,
        kind: GovActionKind::UpdateCommittee {
            to_remove: vec![Credential::AddrKeyhash([1u8; 28])],
            to_add: vec![(Credential::ScriptHash([2u8; 28]), 300)],
            threshold: RationalNumber {
                numerator: 2,
                denominator: 3,
            },
        },
    };

    let (recorded, _, purpose) = parse_gov_action(&action).unwrap();

    assert_eq!(purpose, Some(GovPurpose::Committee));
    assert_eq!(
        recorded,
        ProposalAction::UpdateCommittee {
            to_remove: vec![Credential::AddrKeyhash([1u8; 28])],
            to_add: vec![(Credential::ScriptHash([2u8; 28]), 300)],
            threshold: RationalNumber {
                numerator: 2,
                denominator: 3
            },
        }
    );
}

#[test]
fn a_withdrawal_to_an_unreadable_account_is_malformed() {
    let good = Credential::AddrKeyhash([3u8; 28]);

    assert_eq!(
        parse_treasury_withdrawals(&vec![(Some(good), 10), (Some(good), 20)]),
        Ok(ProposalAction::TreasuryWithdrawal(vec![(good, 10), (good, 20)]))
    );
    assert_eq!(
        parse_treasury_withdrawals(&vec![(Some(good), 10), (None, 20)]),
        Err(ChainError::InvalidProposalParams)
    );

    let action = GovAction {
        id: None,
        kind: GovActionKind::TreasuryWithdrawals(vec![(Some(good), 10)]),
    };
    let (_, _, purpose) = parse_gov_action(&action).unwrap();
    assert_eq!(purpose, None);
}

fn empty_pre_conway() -> PreConwayUpdate {
    PreConwayUpdate {
        all_proposed_minfee_a: vec![],
        all_proposed_minfee_b: vec![],
        all_proposed_max_block_body_size: vec![],
        all_proposed_max_transaction_size: vec![],
        all_proposed_max_block_header_size: vec![],
        all_proposed_key_deposit: vec![],
        all_proposed_pool_deposit: vec![],
        all_proposed_desired_number_of_stake_pools: vec![],
        all_proposed_protocol_version: vec![],
        all_proposed_ada_per_utxo_byte: vec![],
        all_proposed_min_pool_cost: vec![],
        all_proposed_expansion_rate: vec![],
        all_proposed_treasury_growth_rate: vec![],
        all_proposed_maximum_epoch: vec![],
        all_proposed_pool_pledge_influence: vec![],
        all_proposed_decentralization_constant: vec![],
        all_proposed_extra_entropy: vec![],
        all_proposed_execution_costs: vec![],
        all_proposed_max_tx_ex_units: vec![],
        all_proposed_max_block_ex_units: vec![],
        all_proposed_max_value_size: vec![],
        all_proposed_collateral_percentage: vec![],
        all_proposed_max_collateral_inputs: vec![],
        all_proposed_pool_voting_thresholds: vec![],
        all_proposed_drep_voting_thresholds: vec![],
        all_proposed_min_committee_size: vec![],
        all_proposed_committee_term_limit: vec![],
        all_proposed_governance_action_validity_period: vec![],
        all_proposed_governance_action_deposit: vec![],
        all_proposed_drep_deposit: vec![],
        all_proposed_drep_inactivity_period: vec![],
        all_proposed_minfee_refscript_cost_per_byte: vec![],
        byron_proposed_block_version: None,
        alonzo_first_proposed_cost_models: None,
        babbage_first_proposed_cost_models: None,
        conway_first_proposed_cost_models: None,
    }
}

#[test]
fn a_pre_conway_update_records_the_first_value_proposed() {
    let mut update = empty_pre_conway();
    update.all_proposed_minfee_a = vec![44, 45];
    update.all_proposed_protocol_version = vec![(6, 0), (7, 0)];
    update.all_proposed_ada_per_utxo_byte = vec![34482];

    let set = pre_conway_to_pparamset(&update);

    assert_eq!(set.min_fee_a(), Some(44));
    assert_eq!(set.protocol_version(), Some((6, 0)));
    assert_eq!(set.min_utxo_value(), Some(34482));
    assert_eq!(set.ada_per_utxo_byte(), Some(34482));
    assert_eq!(set.min_fee_b(), None);
}

#[test]
fn a_byron_block_version_overrides_other_proposed_versions() {
    let mut update = empty_pre_conway();
    update.all_proposed_protocol_version = vec![(6, 0)];
    update.byron_proposed_block_version = Some((1, 0, 0));

    assert_eq!(pre_conway_to_pparamset(&update).protocol_version(), Some((1, 0)));
}

#[test]
fn the_latest_era_that_proposes_a_cost_model_wins() {
    let mut update = empty_pre_conway();
    update.alonzo_first_proposed_cost_models =
        Some(vec![(Language::PlutusV2, vec![22]), (Language::PlutusV1, vec![11])]);
    update.babbage_first_proposed_cost_models = Some(BabbageCostModels {
        plutus_v1: None,
        plutus_v2: Some(vec![222]),
    });
    update.conway_first_proposed_cost_models = Some(CostModels {
        plutus_v1: None,
        plutus_v2: None,
        plutus_v3: Some(vec![3333]),
        unknown: BTreeMap::new(),
    });

    let set = pre_conway_to_pparamset(&update);

    assert_eq!(set.cost_models_plutus_v1(), Some(vec![11]));
    assert_eq!(set.cost_models_plutus_v2(), Some(vec![222]));
    assert_eq!(set.cost_models_plutus_v3(), Some(vec![3333]));
    assert_eq!(set.cost_models_unknown(), None);
}
