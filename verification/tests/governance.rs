use dolos::governance::{
    GovernanceDelta, ProposalProcedure, ProposalVisitor, TxVotes, Vote, VoteCast, Voter,
    WorkDeltas,
};
use dolos::pparams::{PParamValue, PParamsSet};
use dolos::proposals::{
    PreConwayUpdate, Anchor, ChainError, Constitution, Credential, GovAction, GovActionId, GovActionKind, GovPurpose,
    ProposalAction,
};

fn rooted() -> ProposalVisitor {
    let mut visitor = ProposalVisitor::new();
    let pparams = PParamsSet::new().with(PParamValue::GovernanceActionValidityPeriod(6));
    visitor.visit_root(&pparams, 764824073, 500, 10);
    visitor
}

fn anchor() -> Anchor {
    Anchor {
        url: "https://example.com/proposal.json".to_string(),
        content_hash: [8u8; 32],
    }
}

fn info_proposal(account: Option<Credential>) -> ProposalProcedure {
    ProposalProcedure {
        gov_action: GovAction {
            id: None,
            kind: GovActionKind::Information,
        },
        reward_account: account,
        deposit: 100000000000,
        anchor: anchor(),
    }
}

#[test]
fn a_vote_on_a_proposal_of_the_same_block_comes_after_it() {
    let mut visitor = rooted();
    let mut deltas = WorkDeltas { entries: vec![] };
    let tx = [1u8; 32];
    let voter = Voter::DRepKey([2u8; 28]);

    let votes = TxVotes {
        is_valid: true,
        hash: tx,
        voting_procedures: Some(vec![(
            voter,
            vec![(
                GovActionId {
                    transaction_id: tx,
                    action_index: 0,
                },
                Vote::Yes,
            )],
        )]),
    };
    visitor.visit_tx(&votes, 42);
    assert!(deltas.entries.is_empty());

    visitor
        .visit_proposal(&mut deltas, 42, tx, &info_proposal(Some(Credential::AddrKeyhash([3u8; 28]))), 0)
        .unwrap();
    visitor.flush(&mut deltas);

    assert_eq!(deltas.entries.len(), 2);
    match &deltas.entries[0] {
        GovernanceDelta::NewProposal(p) => {
            assert_eq!(p.action, ProposalAction::Info);
            assert_eq!(p.validity_period, Some(6));
            assert_eq!(p.epoch, 500);
            assert_eq!(p.network_magic, 764824073);
            assert_eq!(p.protocol, 10);
            assert_eq!(p.deposit, Some(100000000000));
            assert_eq!(p.anchor, Some(anchor()));
            assert_eq!(p.purpose, None);
        }
        other => panic!("the proposal was recorded as {other:?}"),
    }
    assert_eq!(
        deltas.entries[1],
        GovernanceDelta::VoteCast(VoteCast {
            transaction_id: tx,
            action_index: 0,
            voter,
            vote: Vote::Yes,
            slot: 42,
        })
    );
    assert!(visitor.pending_votes.is_empty());
}

#[test]
fn an_invalid_transaction_casts_no_vote() {
    let mut visitor = rooted();
    let votes = TxVotes {
        is_valid: false,
        hash: [1u8; 32],
        voting_procedures: Some(vec![(
            Voter::StakePoolKey([4u8; 28]),
            vec![(
                GovActionId {
                    transaction_id: [5u8; 32],
                    action_index: 1,
                },
                Vote::No,
            )],
        )]),
    };

    visitor.visit_tx(&votes, 7);

    assert!(visitor.pending_votes.is_empty());
}

#[test]
fn a_deposit_from_an_account_with_no_credential_is_refused() {
    let visitor = rooted();
    let mut deltas = WorkDeltas { entries: vec![] };

    let result = visitor.visit_proposal(&mut deltas, 1, [1u8; 32], &info_proposal(None), 0);

    assert_eq!(result, Err(ChainError::InvalidProposalParams));
    assert!(deltas.entries.is_empty());
}

#[test]
fn a_hard_fork_proposal_keeps_its_lineage() {
    let visitor = rooted();
    let mut deltas = WorkDeltas { entries: vec![] };
    let parent = GovActionId {
        transaction_id: [6u8; 32],
        action_index: 2,
    };
    let proposal = ProposalProcedure {
        gov_action: GovAction {
            id: Some(parent),
            kind: GovActionKind::HardForkInitiation((11, 0)),
        },
        reward_account: Some(Credential::ScriptHash([7u8; 28])),
        deposit: 1,
        anchor: anchor(),
    };

    visitor
        .visit_proposal(&mut deltas, 9, [9u8; 32], &proposal, 3)
        .unwrap();

    match &deltas.entries[0] {
        GovernanceDelta::NewProposal(p) => {
            assert_eq!(p.parent, Some(parent));
            assert_eq!(p.purpose, Some(GovPurpose::HardFork));
            assert_eq!(p.index, 3);
            assert_eq!(p.action, ProposalAction::HardFork((11, 0)));
        }
        other => panic!("the proposal was recorded as {other:?}"),
    }
}

#[test]
fn a_pre_conway_update_is_recorded_under_the_hash_it_came_with() {
    let visitor = rooted();
    let mut deltas = WorkDeltas { entries: vec![] };
    let update = PreConwayUpdate {
        all_proposed_minfee_a: vec![45],
        all_proposed_minfee_b: vec![],
        all_proposed_max_block_body_size: vec![],
        all_proposed_max_transaction_size: vec![],
        all_proposed_max_block_header_size: vec![],
        all_proposed_key_deposit: vec![],
        all_proposed_pool_deposit: vec![],
        all_proposed_desired_number_of_stake_pools: vec![],
        all_proposed_protocol_version: vec![],
        all_proposed_ada_per_utxo_byte: vec![],
        all_proposed_min_pool_cost: vec![],
        all_proposed_expansion_rate: vec![],
        all_proposed_treasury_growth_rate: vec![],
        all_proposed_maximum_epoch: vec![],
        all_proposed_pool_pledge_influence: vec![],
        all_proposed_decentralization_constant: vec![],
        all_proposed_extra_entropy: vec![],
        all_proposed_execution_costs: vec![],
        all_proposed_max_tx_ex_units: vec![],
        all_proposed_max_block_ex_units: vec![],
        all_proposed_max_value_size: vec![],
        all_proposed_collateral_percentage: vec![],
        all_proposed_max_collateral_inputs: vec![],
        all_proposed_pool_voting_thresholds: vec![],
        all_proposed_drep_voting_thresholds: vec![],
        all_proposed_min_committee_size: vec![],
        all_proposed_committee_term_limit: vec![],
        all_proposed_governance_action_validity_period: vec![],
        all_proposed_governance_action_deposit: vec![],
        all_proposed_drep_deposit: vec![],
        all_proposed_drep_inactivity_period: vec![],
        all_proposed_minfee_refscript_cost_per_byte: vec![],
        byron_proposed_block_version: None,
        alonzo_first_proposed_cost_models: None,
        babbage_first_proposed_cost_models: None,
        conway_first_proposed_cost_models: None,
    };

    visitor.visit_update(&mut deltas, 77, [5u8; 32], &update);

    match &deltas.entries[0] {
        GovernanceDelta::NewProposal(p) => {
            assert_eq!(p.slot, 77);
            assert_eq!(p.transaction, [5u8; 32]);
            assert_eq!(p.index, 0);
            assert_eq!(p.deposit, None);
            assert_eq!(p.parent, None);
            match &p.action {
                ProposalAction::ParamChange(set) => assert_eq!(set.min_fee_a(), Some(45)),
                other => panic!("the update was recorded as {other:?}"),
            }
        }
        other => panic!("the update was recorded as {other:?}"),
    }
}

#[test]
fn each_proposal_is_recorded_as_what_its_action_asks_with_its_purpose_and_anchor() {
    let visitor = rooted();
    let mut deltas = WorkDeltas { entries: vec![] };
    let account = Some(Credential::AddrKeyhash([3u8; 28]));
    let constitution_anchor = Anchor {
        url: "https://example.com/constitution.txt".to_string(),
        content_hash: [5u8; 32],
    };
    let kinds = vec![
        GovActionKind::NoConfidence,
        GovActionKind::NewConstitution(Constitution {
            anchor: Anchor {
                url: constitution_anchor.url.clone(),
                content_hash: constitution_anchor.content_hash,
            },
            guardrail_script: Some([4u8; 28]),
        }),
        GovActionKind::Information,
    ];
    for (index, kind) in kinds.into_iter().enumerate() {
        let proposal = ProposalProcedure {
            gov_action: GovAction { id: None, kind },
            reward_account: account,
            deposit: 1,
            anchor: anchor(),
        };
        visitor
            .visit_proposal(&mut deltas, 9, [9u8; 32], &proposal, index as u32)
            .unwrap();
    }

    let recorded: Vec<(&ProposalAction, Option<GovPurpose>, &Option<Anchor>)> = deltas
        .entries
        .iter()
        .map(|entry| match entry {
            GovernanceDelta::NewProposal(p) => (&p.action, p.purpose, &p.anchor),
            other => panic!("the proposal was recorded as {other:?}"),
        })
        .collect();

    assert_eq!(recorded[0].0, &ProposalAction::NoConfidence);
    assert_eq!(recorded[0].1, Some(GovPurpose::Committee));
    assert_eq!(
        recorded[1].0,
        &ProposalAction::NewConstitution {
            anchor: constitution_anchor,
            guardrail_script: Some([4u8; 28]),
        }
    );
    assert_eq!(recorded[1].1, Some(GovPurpose::Constitution));
    assert_eq!(recorded[2].0, &ProposalAction::Info);
    assert_eq!(recorded[2].1, None);
    for (_, _, a) in &recorded {
        assert_eq!(*a, &Some(anchor()));
    }
}
