use vstd::prelude::*;
use crate::point::{BlockHash, BlockSlot};
use crate::ledger::{
    apply_all, cbor_view, entries_map, lookup, put_all, put_entries, same_txo, EraCbor, LedgerDelta,
    LedgerError, LedgerStore, TxoRef, UtxoMap,
};

verus! {

/// A transaction of a block: its hash, the outputs it spends, and the
/// outputs it creates, by index.
pub struct BlockTx {
    pub hash: BlockHash,
    pub consumes: Vec<TxoRef>,
    pub produces: Vec<(u32, EraCbor)>,
}

/// What a block reads of an output it spends: the output a change not yet
/// applied leaves, before the one a transaction of the block itself
/// creates, before the one the store holds; nothing for an output it does
/// not spend or that none of them holds.
pub proof fn lemma_a_spent_output_is_read_from_the_latest_source(
    stored: Map<TxoRef, (u16, Seq<u8>)>,
    block: Seq<BlockTx>,
    deltas: Seq<LedgerDelta>,
    t: TxoRef,
)
    ensures
        ({
            let r = resolved(stored, block, deltas);
            let spent = consumed_refs(block).contains(t);
            &&& r.contains_key(t) ==> spent
            &&& spent && pending_map(deltas).contains_key(t) ==> r.contains_key(t) && r[t]
                == pending_map(deltas)[t]
            &&& spent && !pending_map(deltas).contains_key(t) && produced_map(block).contains_key(t)
                ==> r.contains_key(t) && r[t] == produced_map(block)[t]
            &&& spent && !pending_map(deltas).contains_key(t) && !produced_map(block).contains_key(t)
                && stored.contains_key(t) ==> r.contains_key(t) && r[t] == stored[t]
            &&& spent && !pending_map(deltas).contains_key(t) && !produced_map(block).contains_key(t)
                && !stored.contains_key(t) ==> !r.contains_key(t)
        }),
{
    let consumed = consumed_refs(block).to_set();
    assert(consumed_refs(block).contains(t) <==> consumed.contains(t)) by {
        broadcast use vstd::seq_lib::group_seq_properties;
    }
}

/// The part of the ledger a block reads: the outputs its transactions
/// spend, with their encodings.
#[derive(Debug)]
pub struct LedgerSlice {
    pub resolved_inputs: UtxoMap,
}

/// The outputs the transactions of a block spend, in order.
pub open spec fn consumed_refs(block: Seq<BlockTx>) -> Seq<TxoRef>
    decreases block.len(),
{
    if block.len() == 0 {
        Seq::empty()
    } else {
        consumed_refs(block.drop_last()) + block.last().consumes@
    }
}

/// The outputs a transaction creates, by reference; a later entry for an
/// index replacing an earlier one.
pub open spec fn outputs_map(hash: BlockHash, s: Seq<(u32, EraCbor)>) -> Map<
    TxoRef,
    (u16, Seq<u8>),
>
    decreases s.len(),
{
    if s.len() == 0 {
        Map::empty()
    } else {
        outputs_map(hash, s.drop_last()).insert(
            TxoRef(hash, s.last().0),
            cbor_view(s.last().1.0, s.last().1.1),
        )
    }
}

/// The outputs the transactions of a block create, a later transaction's
/// replacing an earlier one's under the same reference.
pub open spec fn produced_map(block: Seq<BlockTx>) -> Map<TxoRef, (u16, Seq<u8>)>
    decreases block.len(),
{
    if block.len() == 0 {
        Map::empty()
    } else {
        produced_map(block.drop_last()).union_prefer_right(
            outputs_map(block.last().hash, block.last().produces@),
        )
    }
}

/// The outputs deltas not yet applied make unspent: those each produces and
/// those each recovers, a later one replacing an earlier one.
pub open spec fn pending_map(deltas: Seq<LedgerDelta>) -> Map<TxoRef, (u16, Seq<u8>)>
    decreases deltas.len(),
{
    if deltas.len() == 0 {
        Map::empty()
    } else {
        put_all(
            put_all(pending_map(deltas.drop_last()), deltas.last().produced_utxo@),
            deltas.last().recovered_stxi@,
        )
    }
}

/// The outputs a block spends, resolved: those its own transactions create,
/// then those deltas not yet applied make unspent, and the rest as the
/// store holds them.
pub open spec fn resolved(
    stored: Map<TxoRef, (u16, Seq<u8>)>,
    block: Seq<BlockTx>,
    deltas: Seq<LedgerDelta>,
) -> Map<TxoRef, (u16, Seq<u8>)> {
    let consumed = consumed_refs(block).to_set();
    let same = produced_map(block).restrict(consumed);
    let pending = pending_map(deltas).restrict(consumed);
    stored.restrict(consumed.difference(same.dom()).difference(pending.dom())).union_prefer_right(
        same,
    ).union_prefer_right(pending)
}

proof fn lemma_put_all_is_union(m: Map<TxoRef, (u16, Seq<u8>)>, s: Seq<(TxoRef, EraCbor)>)
    ensures
        put_all(m, s) == m.union_prefer_right(entries_map(s)),
    decreases s.len(),
{
    if s.len() > 0 {
        lemma_put_all_is_union(m, s.drop_last());
        assert(put_all(m, s) =~= m.union_prefer_right(entries_map(s)));
    } else {
        assert(m.union_prefer_right(entries_map(s)) =~= m);
    }
}

/// The entries of a list whose reference is among those given.
fn keep_consumed(s: &Vec<(TxoRef, EraCbor)>, consumed: &Vec<TxoRef>) -> (r: Vec<(TxoRef, EraCbor)>)
    ensures
        entries_map(r@) == entries_map(s@).restrict(consumed@.to_set()),
{
    let ghost c = consumed@.to_set();
    let mut out: Vec<(TxoRef, EraCbor)> = Vec::new();
    let mut i: usize = 0;
    while i < s.len()
        invariant
            i <= s@.len(),
            c == consumed@.to_set(),
            entries_map(out@) == entries_map(s@.take(i as int)).restrict(c),
        decreases s@.len() - i,
    {
        let key = s[i].0;
        let found = contains_ref(consumed, &key);
        proof {
            assert(s@.take(i + 1).drop_last() =~= s@.take(i as int));
            assert(s@.take(i + 1).last() == s@[i as int]);
        }
        if found {
            let ghost before = out@;
            out.push((key, EraCbor(s[i].1.0, crate::ledger::copy_bytes(&s[i].1.1))));
            proof {
                assert(out@.drop_last() =~= before);
                assert(entries_map(out@) =~= entries_map(s@.take(i + 1)).restrict(c));
            }
        } else {
            assert(entries_map(out@) =~= entries_map(s@.take(i + 1)).restrict(c));
        }
        i = i + 1;
    }
    assert(s@.take(s@.len() as int) =~= s@);
    out
}

/// Whether a list of references holds one.
fn contains_ref(v: &Vec<TxoRef>, r: &TxoRef) -> (b: bool)
    ensures
        b == v@.contains(*r),
{
    let mut i: usize = 0;
    while i < v.len()
        invariant
            i <= v@.len(),
            forall|j: int| 0 <= j < i ==> v@[j] != *r,
        decreases v@.len() - i,
    {
        if same_txo(&v[i], r) {
            assert(v@[i as int] == *r);
            return true;
        }
        i = i + 1;
    }
    false
}

/// The references the transactions of a block spend.
fn block_consumed(block: &Vec<BlockTx>) -> (r: Vec<TxoRef>)
    ensures
        r@ == consumed_refs(block@),
{
    let mut out: Vec<TxoRef> = Vec::new();
    let mut i: usize = 0;
    while i < block.len()
        invariant
            i <= block@.len(),
            out@ == consumed_refs(block@.take(i as int)),
        decreases block@.len() - i,
    {
        let tx = &block[i];
        let ghost before = out@;
        let mut j: usize = 0;
        while j < tx.consumes.len()
            invariant
                j <= tx.consumes@.len(),
                out@ == before + tx.consumes@.take(j as int),
            decreases tx.consumes@.len() - j,
        {
            out.push(tx.consumes[j]);
            j = j + 1;
            assert(out@ =~= before + tx.consumes@.take(j as int));
        }
        proof {
            assert(tx.consumes@.take(j as int) =~= tx.consumes@);
            assert(block@.take(i + 1).drop_last() =~= block@.take(i as int));
        }
        i = i + 1;
    }
    assert(block@.take(block@.len() as int) =~= block@);
    out
}

/// The outputs the transactions of a block create.
fn block_produced(block: &Vec<BlockTx>) -> (r: Vec<(TxoRef, EraCbor)>)
    ensures
        entries_map(r@) == produced_map(block@),
{
    let mut out: Vec<(TxoRef, EraCbor)> = Vec::new();
    let mut i: usize = 0;
    while i < block.len()
        invariant
            i <= block@.len(),
            entries_map(out@) == produced_map(block@.take(i as int)),
        decreases block@.len() - i,
    {
        let tx = &block[i];
        let ghost base = produced_map(block@.take(i as int));
        let mut j: usize = 0;
        while j < tx.produces.len()
            invariant
                j <= tx.produces@.len(),
                entries_map(out@) == base.union_prefer_right(
                    outputs_map(tx.hash, tx.produces@.take(j as int)),
                ),
            decreases tx.produces@.len() - j,
        {
            let ghost before = out@;
            let (index, output) = (tx.produces[j].0, &tx.produces[j].1);
            out.push((TxoRef(tx.hash, index), EraCbor(output.0, crate::ledger::copy_bytes(&output.1))));
            proof {
                assert(out@.drop_last() =~= before);
                assert(tx.produces@.take(j + 1).drop_last() =~= tx.produces@.take(j as int));
                assert(tx.produces@.take(j + 1).last() == tx.produces@[j as int]);
                assert(entries_map(out@) =~= base.union_prefer_right(
                    outputs_map(tx.hash, tx.produces@.take(j + 1)),
                ));
            }
            j = j + 1;
        }
        proof {
            assert(tx.produces@.take(j as int) =~= tx.produces@);
            assert(block@.take(i + 1).drop_last() =~= block@.take(i as int));
        }
        i = i + 1;
    }
    assert(block@.take(block@.len() as int) =~= block@);
    out
}

/// The outputs deltas not yet applied make unspent.
fn deltas_pending(deltas: &[LedgerDelta]) -> (r: Vec<(TxoRef, EraCbor)>)
    ensures
        entries_map(r@) == pending_map(deltas@),
{
    let mut out: Vec<(TxoRef, EraCbor)> = Vec::new();
    let mut i: usize = 0;
    while i < deltas.len()
        invariant
            i <= deltas@.len(),
            entries_map(out@) == pending_map(deltas@.take(i as int)),
        decreases deltas@.len() - i,
    {
        put_entries(&mut out, &deltas[i].produced_utxo);
        put_entries(&mut out, &deltas[i].recovered_stxi);
        proof {
            assert(deltas@.take(i + 1).drop_last() =~= deltas@.take(i as int));
        }
        i = i + 1;
    }
    assert(deltas@.take(deltas@.len() as int) =~= deltas@);
    out
}

/// The part of the ledger a block reads: the outputs its transactions spend,
/// taken from the block itself where one of its transactions creates them,
/// then from deltas not yet applied, and from the store for the rest.
pub fn load_slice_for_block(
    block: &Vec<BlockTx>,
    store: &LedgerStore,
    unapplied_deltas: &[LedgerDelta],
) -> (r: Result<LedgerSlice, LedgerError>)
    ensures
        r matches Ok(slice) && entries_map(slice.resolved_inputs@) == resolved(
            store@.utxos,
            block@,
            unapplied_deltas@,
        ),
{
    let consumed = block_consumed(block);
    let ghost c = consumed@.to_set();
    let same = keep_consumed(&block_produced(block), &consumed);
    let pending = keep_consumed(&deltas_pending(unapplied_deltas), &consumed);
    let ghost same_map = entries_map(same@);
    let ghost pending_map_v = entries_map(pending@);
    let mut to_fetch: Vec<TxoRef> = Vec::new();
    let mut i: usize = 0;
    while i < consumed.len()
        invariant
            i <= consumed@.len(),
            same_map == entries_map(same@),
            pending_map_v == entries_map(pending@),
            forall|t: TxoRef|
                to_fetch@.contains(t) <==> (consumed@.take(i as int).contains(t)
                    && !same_map.contains_key(t) && !pending_map_v.contains_key(t)),
        decreases consumed@.len() - i,
    {
        let key = consumed[i];
        let in_same = lookup(&same, &key).is_some();
        let in_pending = lookup(&pending, &key).is_some();
        let ghost before = to_fetch@;
        if !in_same && !in_pending {
            to_fetch.push(key);
        }
        proof {
            assert(consumed@.take(i + 1) =~= consumed@.take(i as int).push(key));
            assert forall|t: TxoRef|
                to_fetch@.contains(t) <==> (consumed@.take(i + 1).contains(t)
                    && !same_map.contains_key(t) && !pending_map_v.contains_key(t)) by {
                if to_fetch@.contains(t) && !before.contains(t) {
                    assert(t == key);
                    assert(consumed@.take(i + 1)[i as int] == key);
                }
                if consumed@.take(i + 1).contains(t) && !consumed@.take(i as int).contains(t) {
                    assert(t == key);
                    if !in_same && !in_pending {
                        assert(to_fetch@[to_fetch@.len() - 1] == key);
                    }
                }
                if before.contains(t) {
                    let k = choose|k: int| 0 <= k < before.len() && before[k] == t;
                    assert(to_fetch@[k] == t);
                }
                if consumed@.take(i as int).contains(t) {
                    let k = choose|k: int| 0 <= k < i && consumed@.take(i as int)[k] == t;
                    assert(consumed@.take(i + 1)[k] == t);
                }
            }
        }
        i = i + 1;
    }
    assert(consumed@.take(consumed@.len() as int) =~= consumed@);
    let ghost fetch_list = to_fetch@;
    let mut resolved_inputs = match store.get_utxos(to_fetch) {
        Ok(found) => found,
        Err(e) => {
            return Err(e);
        },
    };
    let ghost fetched = entries_map(resolved_inputs@);
    put_entries(&mut resolved_inputs, &same);
    put_entries(&mut resolved_inputs, &pending);
    proof {
        lemma_put_all_is_union(fetched, same@);
        lemma_put_all_is_union(fetched.union_prefer_right(same_map), pending@);
        let fetch_set = c.difference(same_map.dom()).difference(pending_map_v.dom());
        assert(fetched =~= store@.utxos.restrict(fetch_set)) by {
            assert forall|t: TxoRef| #[trigger] fetch_set.contains(t) <==> fetch_list.to_set().contains(t) by {
                assert(fetch_list.contains(t) <==> fetch_list.to_set().contains(t));
                assert(consumed@.contains(t) <==> c.contains(t));
            }
            assert(fetch_set =~= fetch_list.to_set());
        }
        assert(entries_map(resolved_inputs@) =~= resolved(
            store@.utxos,
            block@,
            unapplied_deltas@,
        ));
    }
    Ok(LedgerSlice { resolved_inputs })
}

/// Whether `deltas` are the changes a run of blocks makes, each computed by
/// `compute_delta` from its block and the slice of the ledger it reads,
/// given the stored outputs and the changes of the blocks before it.
pub open spec fn computed_in_turn<F: Fn(&Vec<BlockTx>, LedgerSlice) -> Result<LedgerDelta, String>>(
    stored: Map<TxoRef, (u16, Seq<u8>)>,
    blocks: Seq<Vec<BlockTx>>,
    deltas: Seq<LedgerDelta>,
    slices: Seq<LedgerSlice>,
    compute_delta: F,
) -> bool {
    &&& deltas.len() == blocks.len()
    &&& slices.len() == blocks.len()
    &&& forall|i: int|
        #![trigger deltas[i]]
        0 <= i < blocks.len() ==> reads_in_turn(stored, blocks[i], deltas, slices[i], i)
            && compute_delta.ensures((&blocks[i], slices[i]), Ok::<LedgerDelta, String>(deltas[i]))
}

/// Whether the slice the `i`-th block of a run read holds what the store
/// and the changes of the blocks before it resolve its inputs to.
pub open spec fn reads_in_turn(
    stored: Map<TxoRef, (u16, Seq<u8>)>,
    block: Vec<BlockTx>,
    deltas: Seq<LedgerDelta>,
    slice: LedgerSlice,
    i: int,
) -> bool {
    entries_map(slice.resolved_inputs@) == resolved(stored, block@, deltas.take(i))
}

#[verifier::spinoff_prover]
proof fn lemma_computed_one_more<F: Fn(&Vec<BlockTx>, LedgerSlice) -> Result<LedgerDelta, String>>(
    stored: Map<TxoRef, (u16, Seq<u8>)>,
    blocks: Seq<Vec<BlockTx>>,
    deltas: Seq<LedgerDelta>,
    slices: Seq<LedgerSlice>,
    compute_delta: F,
    delta: LedgerDelta,
    slice: LedgerSlice,
    i: int,
)
    requires
        0 <= i < blocks.len(),
        computed_in_turn(stored, blocks.take(i), deltas, slices, compute_delta),
        entries_map(slice.resolved_inputs@) == resolved(stored, blocks[i]@, deltas),
        compute_delta.ensures((&blocks[i], slice), Ok::<LedgerDelta, String>(delta)),
    ensures
        computed_in_turn(stored, blocks.take(i + 1), deltas.push(delta), slices.push(slice), compute_delta),
{
    let bs = blocks.take(i + 1);
    let ds = deltas.push(delta);
    let ss = slices.push(slice);
    assert forall|k: int| #![trigger ds[k]] 0 <= k < bs.len() implies reads_in_turn(
        stored,
        bs[k],
        ds,
        ss[k],
        k,
    ) && compute_delta.ensures((&bs[k], ss[k]), Ok::<LedgerDelta, String>(ds[k])) by {
        if k < i {
            assert(ds[k] == deltas[k]);
            assert(ss[k] == slices[k]);
            assert(ds.take(k) =~= deltas.take(k));
            assert(bs[k] == blocks.take(i)[k]);
            assert(reads_in_turn(stored, blocks.take(i)[k], deltas, slices[k], k));
        } else {
            assert(ds[k] == delta);
            assert(ss[k] == slice);
            assert(bs[k] == blocks[i]);
            assert(ds.take(k) =~= deltas);
        }
    }
}

/// Imports a batch of blocks: the change each makes is computed by
/// `compute_delta` from the block and the slice of the ledger it reads,
/// the slices seeing the changes of the blocks before it, and the changes
/// are applied together once all are computed. The store is then made
/// final up to the slot `immutable_slot` names for the point of the last
/// block. A change that cannot be computed is a broken invariant, and
/// nothing is applied.
pub fn import_block_batch<
    F: Fn(&Vec<BlockTx>, LedgerSlice) -> Result<LedgerDelta, String>,
    G: Fn(BlockSlot) -> BlockSlot,
>(
    blocks: &Vec<Vec<BlockTx>>,
    store: &mut LedgerStore,
    compute_delta: F,
    immutable_slot: G,
) -> (r: Result<(), LedgerError>)
    requires
        blocks@.len() > 0,
        forall|b: &Vec<BlockTx>, s: LedgerSlice| compute_delta.requires((b, s)),
        forall|t: BlockSlot| immutable_slot.requires((t,)),
        forall|s: LedgerSlice, d: LedgerDelta|
            compute_delta.ensures((&blocks@.last(), s), Ok::<LedgerDelta, String>(d))
                ==> d.new_position is Some,
    ensures
        r is Ok ==> exists|deltas: Seq<LedgerDelta>, slices: Seq<LedgerSlice>|
            computed_in_turn(old(store)@.utxos, blocks@, deltas, slices, compute_delta)
                && final(store)@ == apply_all(old(store)@, deltas),
        r is Err ==> final(store)@ == old(store)@,
        r matches Err(LedgerError::BrokenInvariant(m)) ==> exists|i: int, s: LedgerSlice|
            0 <= i < blocks@.len() && compute_delta.ensures(
                (&blocks@[i], s),
                Err::<LedgerDelta, String>(m),
            ),
{
    let mut deltas: Vec<LedgerDelta> = Vec::new();
    let ghost mut slices: Seq<LedgerSlice> = Seq::empty();
    let ghost stored = store@.utxos;
    let mut i: usize = 0;
    while i < blocks.len()
        invariant
            i <= blocks@.len(),
            stored == store@.utxos,
            store@ == old(store)@,
            forall|b: &Vec<BlockTx>, s: LedgerSlice| compute_delta.requires((b, s)),
            computed_in_turn(stored, blocks@.take(i as int), deltas@, slices, compute_delta),
        decreases blocks@.len() - i,
    {
        let block = &blocks[i];
        let context = match load_slice_for_block(block, store, deltas.as_slice()) {
            Ok(c) => c,
            Err(e) => {
                return Err(e);
            },
        };
        let ghost slice = context;
        let delta = match compute_delta(block, context) {
            Ok(d) => d,
            Err(m) => {
                assert(compute_delta.ensures((&blocks@[i as int], slice), Err::<LedgerDelta, String>(m)));
                let res: Result<(), LedgerError> = Err(LedgerError::BrokenInvariant(m));
                assert(res->Err_0->BrokenInvariant_0 == m);
                return res;
            },
        };
        proof {
            lemma_computed_one_more(stored, blocks@, deltas@, slices, compute_delta, delta, slice, i as int);
        }
        deltas.push(delta);
        proof {
            slices = slices.push(slice);
        }
        i = i + 1;
    }
    proof {
        assert(blocks@.take(blocks@.len() as int) =~= blocks@);
    }
    let last = deltas.len() - 1;
    proof {
        assert(blocks@[last as int] == blocks@.last());
    }
    let tip = match deltas[last].new_position {
        Some((slot, _)) => slot,
        None => {
            proof {
                assert(false);
            }
            0
        },
    };
    match store.apply(deltas.as_slice()) {
        Ok(()) => {},
        Err(e) => {
            return Err(e);
        },
    }
    let to_finalize = immutable_slot(tip);
    match store.finalize(to_finalize) {
        Ok(()) => {},
        Err(e) => {
            return Err(e);
        },
    }
    assert(computed_in_turn(old(store)@.utxos, blocks@, deltas@, slices, compute_delta));
    Ok(())
}

} // verus!
