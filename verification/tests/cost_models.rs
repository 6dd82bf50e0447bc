use std::collections::BTreeMap;

use dolos::cost_models::{
    cost_models_to_key_value, to_q16_cost_models, CostModels, PLUTUS_V4_COST_MODEL_KEY,
};

fn cost_models_with(keys: &[u64]) -> CostModels {
    let mut unknown = BTreeMap::new();
    for key in keys {
        unknown.insert(*key, vec![*key as i64]);
    }

    CostModels {
        plutus_v1: Some(vec![1]),
        plutus_v2: Some(vec![2]),
        plutus_v3: Some(vec![3]),
        unknown,
    }
}

#[test]
fn a_plutus_v4_cost_model_under_the_wildcard_key_is_reported_as_plutus_v4() {
    let reply = to_q16_cost_models(&cost_models_with(&[PLUTUS_V4_COST_MODEL_KEY]));

    assert_eq!(reply.plutus_v4, Some(vec![3]));
    assert!(reply.unknown.is_empty());
}

#[test]
fn a_cost_model_under_any_other_key_stays_in_the_wildcard() {
    let reply = to_q16_cost_models(&cost_models_with(&[4, 5]));

    assert_eq!(reply.plutus_v4, None);
    assert_eq!(reply.unknown.len(), 2);
}

#[test]
fn every_cost_model_is_reported_exactly_once_across_the_named_fields_and_the_wildcard() {
    let models = cost_models_with(&[PLUTUS_V4_COST_MODEL_KEY, 4, 5]);
    let reply = to_q16_cost_models(&models);

    let present = [
        models.plutus_v1.is_some(),
        models.plutus_v2.is_some(),
        models.plutus_v3.is_some(),
    ]
    .iter()
    .filter(|x| **x)
    .count()
        + models.unknown.len();

    let reported = [
        reply.plutus_v1.is_some(),
        reply.plutus_v2.is_some(),
        reply.plutus_v3.is_some(),
        reply.plutus_v4.is_some(),
    ]
    .iter()
    .filter(|x| **x)
    .count()
        + reply.unknown.len();

    assert_eq!(present, 6);
    assert_eq!(reported, present);

    let wildcard_keys: Vec<u64> = reply.unknown.iter().map(|(k, _)| *k).collect();
    assert_eq!(wildcard_keys, vec![4, 5]);
}

#[test]
fn the_three_named_cost_models_are_carried_across_unchanged() {
    let reply = to_q16_cost_models(&cost_models_with(&[]));

    assert_eq!(reply.plutus_v1, Some(vec![1]));
    assert_eq!(reply.plutus_v2, Some(vec![2]));
    assert_eq!(reply.plutus_v3, Some(vec![3]));
    assert_eq!(reply.plutus_v4, None);
}

fn long_cost_models_with(wildcard: &[u64]) -> CostModels {
    let mut unknown = BTreeMap::new();
    for key in wildcard {
        unknown.insert(*key, vec![*key as i64; 251]);
    }

    CostModels {
        plutus_v1: Some(vec![1; 332]),
        plutus_v2: Some(vec![2; 332]),
        plutus_v3: Some(vec![3; 350]),
        unknown,
    }
}

fn names(models: &CostModels) -> Vec<&'static str> {
    cost_models_to_key_value(models)
        .into_iter()
        .map(|(name, _, _)| name)
        .collect()
}

#[test]
fn a_cost_model_under_another_wildcard_key_is_reported_under_no_language() {
    let models = long_cost_models_with(&[4, 5]);
    let listed = cost_models_to_key_value(&models);

    assert_eq!(listed.len(), 3);
    assert!(!names(&models).contains(&"PlutusV4"));
}

#[test]
fn the_model_under_the_plutus_v4_key_is_reported_as_plutus_v4() {
    let models = long_cost_models_with(&[PLUTUS_V4_COST_MODEL_KEY]);
    let listed = cost_models_to_key_value(&models);

    assert_eq!(listed.len(), 4);
    let v4 = listed.iter().find(|(name, _, _)| *name == "PlutusV4").unwrap();
    assert_eq!(v4.1, 4);
    assert_eq!(v4.2.len(), 251);
}

#[test]
fn the_three_named_models_keep_their_operation_names() {
    let models = long_cost_models_with(&[PLUTUS_V4_COST_MODEL_KEY]);
    let listed = cost_models_to_key_value(&models);

    assert_eq!(
        listed
            .iter()
            .map(|(name, version, model)| (*name, *version, model.len()))
            .collect::<Vec<_>>(),
        vec![
            ("PlutusV1", 1, 332),
            ("PlutusV2", 2, 332),
            ("PlutusV3", 3, 350),
            ("PlutusV4", 4, 251)
        ]
    );
}

#[test]
fn parameters_with_no_cost_model_report_none() {
    let models = CostModels {
        plutus_v1: None,
        plutus_v2: None,
        plutus_v3: None,
        unknown: BTreeMap::new(),
    };

    assert!(cost_models_to_key_value(&models).is_empty());
}
