use vstd::prelude::*;
use std::collections::BTreeMap;
use crate::seqs::first_n;
use vstd::std_specs::iter::IteratorSpec;
use vstd::std_specs::cmp::OrdSpec;

verus! {

broadcast use vstd::std_specs::btree::group_btree_axioms;

/// The costs a script language's operations are charged.
pub type CostModel = Vec<i64>;

/// The key of the wildcard cost model map under which the PlutusV4 model is
/// carried, since the cost model set names only three languages.
pub const PLUTUS_V4_COST_MODEL_KEY: u64 = 3;

/// The cost models of a parameter set: three named languages, and every
/// further language under its key in a wildcard map.
#[derive(Debug, PartialEq)]
pub struct CostModels {
    pub plutus_v1: Option<CostModel>,
    pub plutus_v2: Option<CostModel>,
    pub plutus_v3: Option<CostModel>,
    pub unknown: BTreeMap<u64, CostModel>,
}

/// The cost models of a protocol parameters reply, which names four
/// languages and lists the rest under their keys.
#[derive(Debug, PartialEq)]
pub struct QueryCostModels {
    pub plutus_v1: Option<CostModel>,
    pub plutus_v2: Option<CostModel>,
    pub plutus_v3: Option<CostModel>,
    pub plutus_v4: Option<CostModel>,
    pub unknown: Vec<(u64, CostModel)>,
}

/// The contents of an optional cost model.
pub open spec fn model_view(m: Option<CostModel>) -> Option<Seq<i64>> {
    match m {
        Some(v) => Some(v@),
        None => None,
    }
}

/// What a wildcard map holds under a key.
pub open spec fn wildcard_at(m: Map<u64, CostModel>, key: u64) -> Option<Seq<i64>> {
    if m.contains_key(key) {
        Some(m[key]@)
    } else {
        None
    }
}

/// Whether a list of keyed cost models lists exactly the entries of a map,
/// each once, by increasing key.
pub open spec fn lists_in_key_order(s: Seq<(u64, CostModel)>, m: Map<u64, CostModel>) -> bool {
    &&& forall|i: int, j: int| 0 <= i < j < s.len() ==> s[i].0 < s[j].0
    &&& forall|i: int| 0 <= i < s.len() ==> m.contains_key(#[trigger] s[i].0) && m[s[i].0]@ == s[i].1@
    &&& forall|k: u64| #[trigger] m.contains_key(k) ==> exists|i: int| 0 <= i < s.len() && s[i].0 == k
}

/// Whether a reply reports the cost models of a parameter set: the three
/// named ones unchanged, the PlutusV4 model read out of the wildcard map by
/// its key, and every other wildcard entry listed once by increasing key.
pub open spec fn reports(c: CostModels, r: QueryCostModels) -> bool {
    &&& model_view(r.plutus_v1) == model_view(c.plutus_v1)
    &&& model_view(r.plutus_v2) == model_view(c.plutus_v2)
    &&& model_view(r.plutus_v3) == model_view(c.plutus_v3)
    &&& model_view(r.plutus_v4) == wildcard_at(c.unknown@, PLUTUS_V4_COST_MODEL_KEY)
    &&& lists_in_key_order(r.unknown@, c.unknown@.remove(PLUTUS_V4_COST_MODEL_KEY))
}

/// A copy of a cost model.
pub fn copy_model(v: &CostModel) -> (r: CostModel)
    ensures
        r@ == v@,
{
    let mut out: Vec<i64> = Vec::new();
    let mut i: usize = 0;
    while i < v.len()
        invariant
            i <= v.len(),
            out@ == v@.take(i as int),
        decreases v.len() - i,
    {
        out.push(v[i]);
        i = i + 1;
        assert(out@ =~= v@.take(i as int));
    }
    assert(v@.take(v.len() as int) =~= v@);
    out
}

fn copy_optional(v: &Option<CostModel>) -> (r: Option<CostModel>)
    ensures
        model_view(r) == model_view(*v),
{
    match v {
        Some(m) => Some(copy_model(m)),
        None => None,
    }
}

/// The keys of a map in increasing order.
pub(crate) fn sorted_keys<V>(m: &BTreeMap<u64, V>) -> (keys: Vec<u64>)
    ensures
        forall|i: int, j: int| 0 <= i < j < keys@.len() ==> keys@[i] < keys@[j],
        forall|i: int| 0 <= i < keys@.len() ==> m@.contains_key(#[trigger] keys@[i]),
        forall|k: u64| #[trigger] m@.contains_key(k) ==> keys@.contains(k),
{
    let mut keys: Vec<u64> = Vec::new();
    let ghost all = vstd::std_specs::btree::spec_keys_iter(m).remaining();
    for k in it: m.keys()
        invariant
            all == it.seq(),
            keys@ == first_n(it.seq(), it.index()).unref(),
    {
        let ghost before = it.index();
        keys.push(*k);
        proof {
            assert(keys@ =~= first_n(it.seq(), before + 1).unref());
        }
    }
    proof {
        assert(first_n(all, all.len() + 0int) =~= all);
        assert(keys@ =~= all.unref());
        assert(vstd::std_specs::btree::increasing_seq(all));
        broadcast use vstd::laws_cmp::group_laws_cmp, vstd::laws_cmp::lemma_ref_obeys_cmp_spec;
        vstd::std_specs::btree::axiom_increasing_seq_meaning::<&u64>(all);
        assert forall|i: int, j: int| 0 <= i < j < keys@.len() implies keys@[i] < keys@[j] by {
            assert(OrdSpec::cmp_spec(&all[i], &all[j]) is Less);
        }
        assert forall|i: int| 0 <= i < keys@.len() implies m@.contains_key(#[trigger] keys@[i]) by {
            assert(all.unref().to_set().contains(keys@[i]));
        }
        assert forall|k: u64| #[trigger] m@.contains_key(k) implies keys@.contains(k) by {
            assert(all.unref().to_set().contains(k));
        }
    }
    keys
}

/// The cost models of a parameter set as a protocol parameters reply
/// reports them. The reply names the PlutusV4 model, so it is read out of
/// the wildcard map by its key and left out of the wildcard list, or a
/// client reading both would count it twice.
pub fn to_q16_cost_models(c: &CostModels) -> (r: QueryCostModels)
    ensures
        reports(*c, r),
{
    let keys = sorted_keys(&c.unknown);
    let ghost m = c.unknown@;
    let mut plutus_v4: Option<CostModel> = None;
    let mut unknown: Vec<(u64, CostModel)> = Vec::new();
    let mut i: usize = 0;
    while i < keys.len()
        invariant
            m == c.unknown@,
            i <= keys@.len(),
            forall|a: int, b: int| 0 <= a < b < keys@.len() ==> keys@[a] < keys@[b],
            forall|a: int| 0 <= a < keys@.len() ==> m.contains_key(#[trigger] keys@[a]),
            forall|j: int|
                0 <= j < unknown@.len() ==> m.contains_key(#[trigger] unknown@[j].0) && m[unknown@[j].0]@
                    == unknown@[j].1@ && unknown@[j].0 != PLUTUS_V4_COST_MODEL_KEY,
            forall|a: int, b: int| 0 <= a < b < unknown@.len() ==> unknown@[a].0 < unknown@[b].0,
            forall|j: int, l: int|
                0 <= j < unknown@.len() && i <= l < keys@.len() ==> unknown@[j].0 < keys@[l],
            forall|l: int|
                0 <= l < i && keys@[l] != PLUTUS_V4_COST_MODEL_KEY ==> exists|j: int|
                    0 <= j < unknown@.len() && unknown@[j].0 == #[trigger] keys@[l],
            model_view(plutus_v4) == if exists|l: int|
                0 <= l < i && #[trigger] keys@[l] == PLUTUS_V4_COST_MODEL_KEY {
                Some(m[PLUTUS_V4_COST_MODEL_KEY]@)
            } else {
                None
            },
        decreases keys@.len() - i,
    {
        let key = keys[i];
        let ghost before = unknown@;
        let model = match c.unknown.get(&key) {
            Some(v) => copy_model(v),
            None => Vec::new(),
        };
        if key == PLUTUS_V4_COST_MODEL_KEY {
            plutus_v4 = Some(model);
        } else {
            unknown.push((key, model));
            proof {
                assert forall|l: int|
                    0 <= l < i + 1 && keys@[l] != PLUTUS_V4_COST_MODEL_KEY implies exists|j: int|
                    0 <= j < unknown@.len() && unknown@[j].0 == #[trigger] keys@[l] by {
                    if l == i {
                        assert(unknown@[before.len() as int].0 == keys@[l]);
                    } else {
                        let j = choose|j: int| 0 <= j < before.len() && before[j].0 == keys@[l];
                        assert(unknown@[j] == before[j]);
                    }
                }
            }
        }
        proof {
            if exists|l: int| 0 <= l < i + 1 && #[trigger] keys@[l] == PLUTUS_V4_COST_MODEL_KEY {
                let l = choose|l: int| 0 <= l < i + 1 && #[trigger] keys@[l] == PLUTUS_V4_COST_MODEL_KEY;
                if l < i {
                    assert(key != PLUTUS_V4_COST_MODEL_KEY);
                }
            }
        }
        i = i + 1;
    }
    let r = QueryCostModels {
        plutus_v1: copy_optional(&c.plutus_v1),
        plutus_v2: copy_optional(&c.plutus_v2),
        plutus_v3: copy_optional(&c.plutus_v3),
        plutus_v4,
        unknown,
    };
    proof {
        let rest = m.remove(PLUTUS_V4_COST_MODEL_KEY);
        assert forall|k: u64| #[trigger] rest.contains_key(k) implies exists|j: int|
            0 <= j < unknown@.len() && unknown@[j].0 == k by {
            assert(keys@.contains(k));
            let l = choose|l: int| 0 <= l < keys@.len() && keys@[l] == k;
            assert(keys@[l] == k);
        }
        if m.contains_key(PLUTUS_V4_COST_MODEL_KEY) {
            assert(keys@.contains(PLUTUS_V4_COST_MODEL_KEY));
            let l = choose|l: int| 0 <= l < keys@.len() && keys@[l] == PLUTUS_V4_COST_MODEL_KEY;
            assert(keys@[l] == PLUTUS_V4_COST_MODEL_KEY);
        }
    }
    r
}

/// One when a cost model is there, none otherwise.
pub open spec fn present(m: Option<Seq<i64>>) -> nat {
    if m is Some {
        1
    } else {
        0
    }
}

/// How many cost models a parameter set carries.
pub open spec fn carried_count(c: CostModels) -> nat {
    present(model_view(c.plutus_v1)) + present(model_view(c.plutus_v2)) + present(
        model_view(c.plutus_v3),
    ) + c.unknown@.dom().len()
}

/// How many cost models a reply reports, across its named fields and its
/// wildcard list.
pub open spec fn reported_count(r: QueryCostModels) -> nat {
    present(model_view(r.plutus_v1)) + present(model_view(r.plutus_v2)) + present(
        model_view(r.plutus_v3),
    ) + present(model_view(r.plutus_v4)) + r.unknown@.len()
}

proof fn lemma_listed_len(s: Seq<(u64, CostModel)>, m: Map<u64, CostModel>)
    requires
        lists_in_key_order(s, m),
        m.dom().finite(),
    ensures
        s.len() == m.dom().len(),
{
    let keys = s.map_values(|p: (u64, CostModel)| p.0);
    assert(keys.no_duplicates()) by {
        assert forall|i: int, j: int| 0 <= i < keys.len() && 0 <= j < keys.len() && i != j implies keys[i]
            != keys[j] by {
            if i < j {
                assert(s[i].0 < s[j].0);
            } else {
                assert(s[j].0 < s[i].0);
            }
        }
    }
    keys.unique_seq_to_set();
    assert(keys.to_set() =~= m.dom()) by {
        assert forall|k: u64| keys.to_set().contains(k) implies m.dom().contains(k) by {
            let i = choose|i: int| 0 <= i < keys.len() && keys[i] == k;
            assert(m.contains_key(s[i].0));
        }
        assert forall|k: u64| m.dom().contains(k) implies keys.to_set().contains(k) by {
            assert(m.contains_key(k));
            let i = choose|i: int| 0 <= i < s.len() && s[i].0 == k;
            assert(keys[i] == k);
        }
    }
}

/// A reply reports every cost model the parameter set carries exactly once
/// across its four named fields and its wildcard list: the PlutusV4 model
/// moves from the wildcard map to its named field, and nothing is dropped
/// or counted twice.
pub proof fn lemma_every_cost_model_reported_once(c: CostModels, r: QueryCostModels)
    requires
        reports(c, r),
    ensures
        reported_count(r) == carried_count(c),
        forall|i: int| 0 <= i < r.unknown@.len() ==> (#[trigger] r.unknown@[i]).0 != PLUTUS_V4_COST_MODEL_KEY,
{
    let m = c.unknown@;
    let rest = m.remove(PLUTUS_V4_COST_MODEL_KEY);
    lemma_listed_len(r.unknown@, rest);
    if m.dom().contains(PLUTUS_V4_COST_MODEL_KEY) {
        m.lemma_remove_key_len(PLUTUS_V4_COST_MODEL_KEY);
    } else {
        assert(rest =~= m);
    }
    assert forall|i: int| 0 <= i < r.unknown@.len() implies (#[trigger] r.unknown@[i]).0 != PLUTUS_V4_COST_MODEL_KEY by {
        assert(rest.contains_key(r.unknown@[i].0));
    }
}

/// A cost model listed with the language it is read for, if it is there.
pub open spec fn entry(name: Seq<char>, version: u64, m: Option<Seq<i64>>) -> Seq<
    (Seq<char>, u64, Seq<i64>),
> {
    match m {
        Some(v) => seq![(name, version, v)],
        None => Seq::empty(),
    }
}

/// Every cost model a parameter set carries, each with the Plutus language
/// it is read for: the three named models and the PlutusV4 model under its
/// wildcard key, in language order.
pub open spec fn language_entries(c: CostModels) -> Seq<(Seq<char>, u64, Seq<i64>)> {
    entry("PlutusV1"@, 1, model_view(c.plutus_v1)) + entry("PlutusV2"@, 2, model_view(c.plutus_v2))
        + entry("PlutusV3"@, 3, model_view(c.plutus_v3)) + entry(
        "PlutusV4"@,
        4,
        wildcard_at(c.unknown@, PLUTUS_V4_COST_MODEL_KEY),
    )
}

/// Whether a list of cost models is the list of language entries given.
pub open spec fn lists_entries(
    r: Seq<(&'static str, u64, &[i64])>,
    e: Seq<(Seq<char>, u64, Seq<i64>)>,
) -> bool {
    &&& r.len() == e.len()
    &&& forall|i: int|
        0 <= i < r.len() ==> (#[trigger] r[i]).0@ == e[i].0 && r[i].1 == e[i].1 && r[i].2@ == e[i].2
}

fn push_entry<'a>(
    out: &mut Vec<(&'static str, u64, &'a [i64])>,
    name: &'static str,
    version: u64,
    model: Option<&'a CostModel>,
)
    ensures
        lists_entries(
            final(out)@,
            Seq::new(old(out)@.len(), |i: int| (old(out)@[i].0@, old(out)@[i].1, old(out)@[i].2@))
                + entry(
                name@,
                version,
                match model {
                    Some(v) => Some(v@),
                    None => None,
                },
            ),
        ),
{
    if let Some(v) = model {
        out.push((name, version, v.as_slice()));
    }
}

/// Every cost model the parameters carry, each with the Plutus version
/// whose operation names it is read with.
///
/// The cost model set names three languages and reads every further key
/// into a wildcard map, so the PlutusV4 model is taken from that map by key.
pub fn cost_models_to_key_value<'a>(cost_models: &'a CostModels) -> (r: Vec<
    (&'static str, u64, &'a [i64]),
>)
    ensures
        lists_entries(r@, language_entries(*cost_models)),
{
    let mut out: Vec<(&'static str, u64, &'a [i64])> = Vec::new();
    proof {
        reveal_strlit("PlutusV1");
        reveal_strlit("PlutusV2");
        reveal_strlit("PlutusV3");
        reveal_strlit("PlutusV4");
    }
    push_entry(&mut out, "PlutusV1", 1, cost_models.plutus_v1.as_ref());
    push_entry(&mut out, "PlutusV2", 2, cost_models.plutus_v2.as_ref());
    push_entry(&mut out, "PlutusV3", 3, cost_models.plutus_v3.as_ref());
    push_entry(&mut out, "PlutusV4", 4, cost_models.unknown.get(&PLUTUS_V4_COST_MODEL_KEY));
    proof {
        let e = language_entries(*cost_models);
        assert(lists_entries(out@, e));
    }
    out
}

/// Each cost model is listed with the language it belongs to: a listed
/// model of version 1, 2 or 3 is the set's model of that language under
/// that language's name, one of version 4 is the model under the PlutusV4
/// wildcard key, the versions rise along the list so no language is
/// listed twice, and every model the set carries for a language is listed.
pub proof fn lemma_each_model_listed_with_its_language(c: CostModels)
    ensures
        ({
            let e = language_entries(c);
            &&& forall|i: int|
                #![trigger e[i]]
                0 <= i < e.len() ==> {
                    &&& 1 <= e[i].1 <= 4
                    &&& e[i].1 == 1 ==> e[i].0 == "PlutusV1"@ && model_view(c.plutus_v1) == Some(
                        e[i].2,
                    )
                    &&& e[i].1 == 2 ==> e[i].0 == "PlutusV2"@ && model_view(c.plutus_v2) == Some(
                        e[i].2,
                    )
                    &&& e[i].1 == 3 ==> e[i].0 == "PlutusV3"@ && model_view(c.plutus_v3) == Some(
                        e[i].2,
                    )
                    &&& e[i].1 == 4 ==> e[i].0 == "PlutusV4"@ && c.unknown@.contains_key(
                        PLUTUS_V4_COST_MODEL_KEY,
                    ) && c.unknown@[PLUTUS_V4_COST_MODEL_KEY]@ == e[i].2
                }
            &&& forall|i: int, j: int| 0 <= i < j < e.len() ==> #[trigger] e[i].1 < #[trigger] e[j].1
            &&& e.len() == present(model_view(c.plutus_v1)) + present(model_view(c.plutus_v2))
                + present(model_view(c.plutus_v3)) + present(
                wildcard_at(c.unknown@, PLUTUS_V4_COST_MODEL_KEY),
            )
        }),
{
    let e1 = entry("PlutusV1"@, 1, model_view(c.plutus_v1));
    let e2 = entry("PlutusV2"@, 2, model_view(c.plutus_v2));
    let e3 = entry("PlutusV3"@, 3, model_view(c.plutus_v3));
    let e4 = entry("PlutusV4"@, 4, wildcard_at(c.unknown@, PLUTUS_V4_COST_MODEL_KEY));
    let e = language_entries(c);
    assert(e == e1 + e2 + e3 + e4);
    assert(e1.len() <= 1 && e2.len() <= 1 && e3.len() <= 1 && e4.len() <= 1);
    assert forall|i: int| 0 <= i < e.len() implies (e[i].1 == 1 && e[i] == e1[0]) || (e[i].1 == 2
        && e[i] == e2[0]) || (e[i].1 == 3 && e[i] == e3[0]) || (e[i].1 == 4 && e[i] == e4[0]) by {
        if i < e1.len() {
        } else if i < e1.len() + e2.len() {
        } else if i < e1.len() + e2.len() + e3.len() {
        } else {
        }
    }
}

/// A reply names each language's cost model as the set carries it: the
/// three named models under their own languages, the model under the
/// PlutusV4 wildcard key as the PlutusV4 model, and any other wildcard
/// model under its own key.
pub proof fn lemma_reply_names_each_model_by_its_language(c: CostModels, r: QueryCostModels)
    requires
        reports(c, r),
    ensures
        model_view(r.plutus_v1) == model_view(c.plutus_v1),
        model_view(r.plutus_v2) == model_view(c.plutus_v2),
        model_view(r.plutus_v3) == model_view(c.plutus_v3),
        c.unknown@.contains_key(PLUTUS_V4_COST_MODEL_KEY) ==> (r.plutus_v4 matches Some(v) && v@
            == c.unknown@[PLUTUS_V4_COST_MODEL_KEY]@),
        !c.unknown@.contains_key(PLUTUS_V4_COST_MODEL_KEY) ==> r.plutus_v4 is None,
        forall|i: int|
            0 <= i < r.unknown@.len() ==> c.unknown@.contains_key((#[trigger] r.unknown@[i]).0)
                && c.unknown@[r.unknown@[i].0]@ == r.unknown@[i].1@,
{
    assert forall|i: int| 0 <= i < r.unknown@.len() implies c.unknown@.contains_key(
        (#[trigger] r.unknown@[i]).0,
    ) && c.unknown@[r.unknown@[i].0]@ == r.unknown@[i].1@ by {
        let rest = c.unknown@.remove(PLUTUS_V4_COST_MODEL_KEY);
        assert(rest.contains_key(r.unknown@[i].0));
    }
}

} // verus!
