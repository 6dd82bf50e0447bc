use std::collections::BTreeMap;

use dolos::pparams::{ExUnitPrices, ExUnits, PParamValue, PParamsSet, PoolVotingThresholds, RationalNumber};
use dolos::query_params::{build_protocol_params, QueryExUnits, QueryRational};

fn ratio(numerator: u64, denominator: u64) -> RationalNumber {
    RationalNumber {
        numerator,
        denominator,
    }
}

#[test]
fn a_reply_carries_each_parameter_of_the_set() {
    let set = PParamsSet::new()
        .with(PParamValue::MinFeeA(44))
        .with(PParamValue::DesiredNumberOfStakePools(500))
        .with(PParamValue::ProtocolVersion((10, 0)))
        .with(PParamValue::ExpansionRate(ratio(3, 1000)))
        .with(PParamValue::MaxTxExUnits(ExUnits { mem: 1, steps: 2 }))
        .with(PParamValue::ExecutionCosts(ExUnitPrices {
            mem_price: ratio(577, 10000),
            step_price: ratio(721, 10000000),
        }));

    let reply = build_protocol_params(&set);

    assert_eq!(reply.minfee_a, Some(44));
    assert_eq!(reply.minfee_b, None);
    assert_eq!(reply.desired_number_of_stake_pools, Some(500));
    assert_eq!(reply.protocol_version, Some((10, 0)));
    assert_eq!(
        reply.expansion_rate,
        Some(QueryRational {
            numerator: 3,
            denominator: 1000
        })
    );
    assert_eq!(reply.max_tx_ex_units, Some(QueryExUnits { mem: 1, steps: 2 }));
    assert_eq!(reply.execution_costs.unwrap().step_price.denominator, 10000000);
}

#[test]
fn the_security_group_threshold_is_the_security_voting_threshold() {
    let thresholds = PoolVotingThresholds {
        motion_no_confidence: ratio(1, 2),
        committee_normal: ratio(1, 3),
        committee_no_confidence: ratio(1, 4),
        hard_fork_initiation: ratio(1, 5),
        security_voting_threshold: ratio(1, 6),
    };
    let set = PParamsSet::new().with(PParamValue::PoolVotingThresholds(thresholds));

    let reply = build_protocol_params(&set);
    let pool = reply.pool_voting_thresholds.unwrap();

    assert_eq!(pool.pp_security_group.denominator, 6);
    assert_eq!(pool.hard_fork_initiation.denominator, 5);
}

#[test]
fn a_reply_names_the_plutus_v4_model_and_lists_the_rest() {
    let mut wildcard = BTreeMap::new();
    wildcard.insert(3u64, vec![4i64]);
    wildcard.insert(9u64, vec![9i64]);
    let set = PParamsSet::new()
        .with(PParamValue::CostModelsPlutusV1(vec![1]))
        .with(PParamValue::CostModelsUnknown(wildcard));

    let reply = build_protocol_params(&set);
    let models = reply.cost_models_for_script_languages.unwrap();

    assert_eq!(models.plutus_v1, Some(vec![1]));
    assert_eq!(models.plutus_v2, None);
    assert_eq!(models.plutus_v4, Some(vec![4]));
    assert_eq!(models.unknown, vec![(9, vec![9])]);
}
