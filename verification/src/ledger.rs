use vstd::prelude::*;
use std::collections::BTreeMap;
use crate::point::{same_hash, BlockHash, BlockSlot, ChainPoint};
use crate::cost_models::sorted_keys;

verus! {

broadcast use vstd::std_specs::btree::group_btree_axioms;

/// An output of a transaction: the transaction's hash and the output's index.
#[derive(Debug, Clone, Copy, PartialEq, Eq)]
pub struct TxoRef(pub BlockHash, pub u32);

/// A value encoded in CBOR, with the number of the era whose encoding it
/// uses.
#[derive(Debug, Clone, PartialEq, Eq)]
pub struct EraCbor(pub u16, pub Vec<u8>);

/// The protocol parameters of an era, encoded in CBOR.
#[derive(Debug, Clone, PartialEq, Eq)]
pub struct PParamsBody(pub u16, pub Vec<u8>);

/// What an encoded value holds: its era and its bytes.
pub open spec fn cbor_view(era: u16, bytes: Vec<u8>) -> (u16, Seq<u8>) {
    (era, bytes@)
}

/// The change a block, or the undoing of one, makes to the ledger.
pub struct LedgerDelta {
    /// The point the ledger moves to, when a block is applied.
    pub new_position: Option<(BlockSlot, BlockHash)>,
    /// The point the ledger leaves, when a block is undone.
    pub undone_position: Option<(BlockSlot, BlockHash)>,
    /// The outputs the block creates.
    pub produced_utxo: Vec<(TxoRef, EraCbor)>,
    /// The outputs the block spends.
    pub consumed_utxo: Vec<(TxoRef, EraCbor)>,
    /// The outputs an undone block had spent, which are unspent again.
    pub recovered_stxi: Vec<(TxoRef, EraCbor)>,
    /// The outputs an undone block had created, which are gone again.
    pub undone_utxo: Vec<(TxoRef, EraCbor)>,
    /// The protocol parameters the block brings into force.
    pub new_pparams: Vec<PParamsBody>,
}

/// A failure of the ledger: a block whose change breaks an invariant of the
/// ledger, with what was broken. The store held in memory does not itself
/// fail.
#[derive(Debug, Clone, PartialEq, Eq)]
pub enum LedgerError {
    BrokenInvariant(String),
}

/// What a ledger store holds: the points it has been moved to, by slot; the
/// unspent outputs; and the protocol parameters, by the slot that brought
/// them.
pub struct LedgerView {
    pub positions: Map<BlockSlot, BlockHash>,
    pub utxos: Map<TxoRef, (u16, Seq<u8>)>,
    pub pparams: Map<BlockSlot, (u16, Seq<u8>)>,
}

/// The outputs a list of entries holds, a later entry for a reference
/// replacing an earlier one.
pub open spec fn entries_map(s: Seq<(TxoRef, EraCbor)>) -> Map<TxoRef, (u16, Seq<u8>)>
    decreases s.len(),
{
    if s.len() == 0 {
        Map::empty()
    } else {
        entries_map(s.drop_last()).insert(s.last().0, cbor_view(s.last().1.0, s.last().1.1))
    }
}

/// The entries of a list but those for one reference.
pub open spec fn without(s: Seq<(TxoRef, EraCbor)>, r: TxoRef) -> Seq<(TxoRef, EraCbor)>
    decreases s.len(),
{
    if s.len() == 0 {
        s
    } else if s.last().0 == r {
        without(s.drop_last(), r)
    } else {
        without(s.drop_last(), r).push(s.last())
    }
}

/// Outputs added to a set of outputs, one after the other.
pub open spec fn put_all(m: Map<TxoRef, (u16, Seq<u8>)>, s: Seq<(TxoRef, EraCbor)>) -> Map<
    TxoRef,
    (u16, Seq<u8>),
>
    decreases s.len(),
{
    if s.len() == 0 {
        m
    } else {
        put_all(m, s.drop_last()).insert(s.last().0, cbor_view(s.last().1.0, s.last().1.1))
    }
}

/// Outputs taken out of a set of outputs, one after the other.
pub open spec fn drop_all(m: Map<TxoRef, (u16, Seq<u8>)>, s: Seq<(TxoRef, EraCbor)>) -> Map<
    TxoRef,
    (u16, Seq<u8>),
>
    decreases s.len(),
{
    if s.len() == 0 {
        m
    } else {
        drop_all(m, s.drop_last()).remove(s.last().0)
    }
}

/// What a ledger store holds after one delta: the new point and the
/// parameters it brings are recorded at its slot, the point undone and the
/// parameters it brought are dropped, and the outputs move in the order
/// produced, undone, recovered, consumed.
pub open spec fn apply_delta(s: LedgerView, d: LedgerDelta) -> LedgerView {
    let s1 = match d.new_position {
        Some((slot, hash)) => LedgerView {
            positions: s.positions.insert(slot, hash),
            pparams: if d.new_pparams@.len() > 0 {
                s.pparams.insert(slot, cbor_view(d.new_pparams@.last().0, d.new_pparams@.last().1))
            } else {
                s.pparams
            },
            ..s
        },
        None => s,
    };
    let s2 = match d.undone_position {
        Some((slot, _)) => LedgerView {
            positions: s1.positions.remove(slot),
            pparams: s1.pparams.remove(slot),
            ..s1
        },
        None => s1,
    };
    LedgerView {
        utxos: drop_all(
            put_all(drop_all(put_all(s2.utxos, d.produced_utxo@), d.undone_utxo@), d.recovered_stxi@),
            d.consumed_utxo@,
        ),
        ..s2
    }
}

/// What a ledger store holds after a run of deltas, applied in order.
pub open spec fn apply_all(s: LedgerView, ds: Seq<LedgerDelta>) -> LedgerView
    decreases ds.len(),
{
    if ds.len() == 0 {
        s
    } else {
        apply_delta(apply_all(s, ds.drop_last()), ds.last())
    }
}

/// Whether a point is the one a ledger store stands at: the point recorded
/// at its greatest slot, or none when it records no point.
pub open spec fn is_cursor(positions: Map<BlockSlot, BlockHash>, c: Option<ChainPoint>) -> bool {
    match c {
        None => positions.dom().is_empty(),
        Some(ChainPoint::Specific(slot, hash)) => {
            &&& positions.contains_key(slot)
            &&& positions[slot] == hash
            &&& forall|k: BlockSlot| #[trigger] positions.contains_key(k) ==> k <= slot
        },
        Some(_) => false,
    }
}

/// The address an output encoded in an era's CBOR pays to, as `pallas`
/// decodes it, or `None` when the bytes do not decode to an output with an
/// address.
pub uninterp spec fn output_address(era: u16, cbor: Seq<u8>) -> Option<Seq<u8>>;

/// `pallas::ledger::traverse::MultiEraOutput::decode` in the era the number
/// names, then `address()` and `to_vec()`; `None` where any of them fails.
#[verifier::external_body]
fn decode_output_address(era: u16, cbor: &[u8]) -> (r: Option<Vec<u8>>)
    ensures
        match r {
            Some(a) => output_address(era, cbor@) == Some(a@),
            None => output_address(era, cbor@) is None,
        },
{
    let era = pallas::ledger::traverse::Era::try_from(era).ok()?;
    let output = pallas::ledger::traverse::MultiEraOutput::decode(era, cbor).ok()?;
    output.address().ok().map(|a| a.to_vec())
}

/// Whether two output references name the same output.
pub fn same_txo(a: &TxoRef, b: &TxoRef) -> (r: bool)
    ensures
        r == (*a == *b),
{
    let h = same_hash(&a.0, &b.0);
    h && a.1 == b.1
}

pub(crate) fn copy_bytes(v: &Vec<u8>) -> (r: Vec<u8>)
    ensures
        r@ == v@,
{
    let mut out: Vec<u8> = Vec::new();
    let mut i: usize = 0;
    while i < v.len()
        invariant
            i <= v@.len(),
            out@ == v@.take(i as int),
        decreases v@.len() - i,
    {
        out.push(v[i]);
        i = i + 1;
        assert(out@ =~= v@.take(i as int));
    }
    assert(v@.take(v@.len() as int) =~= v@);
    out
}

fn copy_cbor(v: &EraCbor) -> (r: EraCbor)
    ensures
        r.0 == v.0,
        r.1@ == v.1@,
{
    EraCbor(v.0, copy_bytes(&v.1))
}

proof fn lemma_entries_after(s: Seq<(TxoRef, EraCbor)>, j: int, r: TxoRef)
    requires
        0 <= j <= s.len(),
        forall|k: int| j <= k < s.len() ==> (#[trigger] s[k]).0 != r,
    ensures
        entries_map(s).contains_key(r) == entries_map(s.take(j)).contains_key(r),
        entries_map(s).contains_key(r) ==> entries_map(s)[r] == entries_map(s.take(j))[r],
    decreases s.len() - j,
{
    if j < s.len() {
        assert(s.drop_last().take(j) =~= s.take(j));
        lemma_entries_after(s.drop_last(), j, r);
    } else {
        assert(s.take(j) =~= s);
    }
}

/// The last entry for a reference, if the list holds one.
pub(crate) fn lookup(s: &Vec<(TxoRef, EraCbor)>, r: &TxoRef) -> (found: Option<usize>)
    ensures
        match found {
            Some(i) => i < s@.len() && s@[i as int].0 == *r && entries_map(s@).contains_key(*r)
                && entries_map(s@)[*r] == cbor_view(s@[i as int].1.0, s@[i as int].1.1) && forall|
                k: int,
            | i < k < s@.len() ==> (#[trigger] s@[k]).0 != *r,
            None => !entries_map(s@).contains_key(*r),
        },
{
    let mut j: usize = s.len();
    while j > 0
        invariant
            j <= s@.len(),
            forall|k: int| j <= k < s@.len() ==> (#[trigger] s@[k]).0 != *r,
        decreases j,
    {
        if same_txo(&s[j - 1].0, r) {
            proof {
                lemma_entries_after(s@, j as int, *r);
                let t = s@.take(j as int);
                assert(t.drop_last() =~= s@.take(j - 1));
                assert(t.last() == s@[j - 1]);
            }
            return Some(j - 1);
        }
        j = j - 1;
    }
    proof {
        lemma_entries_after(s@, 0, *r);
        assert(s@.take(0) =~= Seq::<(TxoRef, EraCbor)>::empty());
    }
    None
}

proof fn lemma_without(s: Seq<(TxoRef, EraCbor)>, r: TxoRef)
    ensures
        entries_map(without(s, r)) == entries_map(s).remove(r),
    decreases s.len(),
{
    if s.len() > 0 {
        lemma_without(s.drop_last(), r);
        if s.last().0 != r {
            let w = without(s.drop_last(), r);
            assert(w.push(s.last()).drop_last() =~= w);
        }
        assert(entries_map(without(s, r)) =~= entries_map(s).remove(r));
    }
}

/// Takes every entry for a reference out of a list.
fn remove_entries(s: &mut Vec<(TxoRef, EraCbor)>, r: &TxoRef)
    ensures
        entries_map(final(s)@) == entries_map(old(s)@).remove(*r),
{
    let mut rest: Vec<(TxoRef, EraCbor)> = Vec::new();
    std::mem::swap(s, &mut rest);
    let ghost all = rest@;
    assert(all.len() == rest.len());
    let mut kept: Vec<(TxoRef, EraCbor)> = Vec::new();
    let mut i: usize = 0;
    while rest.len() > 0
        invariant
            i <= all.len() <= usize::MAX,
            rest@ == all.skip(i as int),
            kept@ == without(all.take(i as int), *r),
        decreases rest@.len(),
    {
        let entry = rest.remove(0);
        proof {
            assert(entry == all[i as int]);
            assert(all.take(i + 1).drop_last() =~= all.take(i as int));
            assert(all.take(i + 1).last() == all[i as int]);
            assert(rest@ =~= all.skip(i + 1));
        }
        if !same_txo(&entry.0, r) {
            kept.push(entry);
        }
        i = i + 1;
    }
    proof {
        assert(all.take(all.len() as int) =~= all);
        lemma_without(all, *r);
    }
    *s = kept;
}

/// The state a ledger store holds in memory.
pub struct LedgerState {
    positions: BTreeMap<BlockSlot, BlockHash>,
    utxos: Vec<(TxoRef, EraCbor)>,
    pparams: BTreeMap<BlockSlot, PParamsBody>,
}

impl View for LedgerState {
    type V = LedgerView;

    closed spec fn view(&self) -> LedgerView {
        LedgerView {
            positions: self.positions@,
            utxos: entries_map(self.utxos@),
            pparams: self.pparams@.map_values(|b: PParamsBody| cbor_view(b.0, b.1)),
        }
    }
}


/// The ledger store that holds nothing.
pub open spec fn empty_ledger() -> LedgerView {
    LedgerView { positions: Map::empty(), utxos: Map::empty(), pparams: Map::empty() }
}

/// Whether the entry at an index is the last entry for its reference.
pub open spec fn last_entry(s: Seq<(TxoRef, EraCbor)>, k: int) -> bool {
    forall|j: int| k < j < s.len() ==> (#[trigger] s[j]).0 != s[k].0
}

proof fn lemma_live_entry(s: Seq<(TxoRef, EraCbor)>, r: TxoRef)
    requires
        entries_map(s).contains_key(r),
    ensures
        exists|k: int|
            0 <= k < s.len() && (#[trigger] s[k]).0 == r && last_entry(s, k) && entries_map(s)[r]
                == cbor_view(s[k].1.0, s[k].1.1),
    decreases s.len(),
{
    let n = s.len() - 1;
    if s[n].0 == r {
        assert(last_entry(s, n));
    } else {
        lemma_live_entry(s.drop_last(), r);
        let k = choose|k: int|
            0 <= k < s.drop_last().len() && (#[trigger] s.drop_last()[k]).0 == r && last_entry(
                s.drop_last(),
                k,
            ) && entries_map(s.drop_last())[r] == cbor_view(
                s.drop_last()[k].1.0,
                s.drop_last()[k].1.1,
            );
        assert(s[k] == s.drop_last()[k]);
        assert forall|j: int| k < j < s.len() implies (#[trigger] s[j]).0 != s[k].0 by {
            if j < n {
                assert(s[j] == s.drop_last()[j]);
            }
        }
        assert(last_entry(s, k));
    }
}

proof fn lemma_last_entry_live(s: Seq<(TxoRef, EraCbor)>, k: int)
    requires
        0 <= k < s.len(),
        last_entry(s, k),
    ensures
        entries_map(s).contains_key(s[k].0),
        entries_map(s)[s[k].0] == cbor_view(s[k].1.0, s[k].1.1),
{
    lemma_entries_after(s, k + 1, s[k].0);
    assert(s.take(k + 1).drop_last() =~= s.take(k));
    assert(s.take(k + 1).last() == s[k]);
}

/// Whether an output pays to an address.
pub open spec fn pays_to(v: (u16, Seq<u8>), address: Seq<u8>) -> bool {
    output_address(v.0, v.1) == Some(address)
}

/// Whether a list of parameter bodies is those recorded at the slots up to
/// `until`, in the order of their slots, which `slots` lists.
pub open spec fn lists_pparams_upto(
    pparams: Map<BlockSlot, (u16, Seq<u8>)>,
    until: BlockSlot,
    slots: Seq<BlockSlot>,
    v: Seq<PParamsBody>,
) -> bool {
    &&& slots.len() == v.len()
    &&& forall|i: int, j: int| 0 <= i < j < slots.len() ==> slots[i] < slots[j]
    &&& forall|k: BlockSlot| (#[trigger] pparams.contains_key(k) && k <= until) <==> slots.contains(k)
    &&& forall|i: int|
        0 <= i < slots.len() ==> pparams[#[trigger] slots[i]] == cbor_view(v[i].0, v[i].1)
}

impl LedgerState {
    /// A store that holds nothing.
    pub fn new() -> (r: LedgerState)
        ensures
            r@ == empty_ledger(),
    {
        let r = LedgerState { positions: BTreeMap::new(), utxos: Vec::new(), pparams: BTreeMap::new() };
        assert(r@.pparams =~= Map::empty());
        assert(r@.utxos =~= Map::empty());
        r
    }

    /// The point the store stands at: the one recorded at its greatest slot.
    pub fn cursor(&self) -> (r: Result<Option<ChainPoint>, LedgerError>)
        ensures
            r matches Ok(c) && is_cursor(self@.positions, c),
    {
        let slots = sorted_keys(&self.positions);
        if slots.len() == 0 {
            proof {
                assert forall|k: BlockSlot| !self@.positions.contains_key(k) by {
                    if self@.positions.contains_key(k) {
                        assert(slots@.contains(k));
                    }
                }
                assert(self@.positions.dom() =~= Set::empty());
            }
            return Ok(None);
        }
        let slot = slots[slots.len() - 1];
        let hash = *self.positions.get(&slot).unwrap();
        proof {
            assert forall|k: BlockSlot| #[trigger] self@.positions.contains_key(k) implies k <= slot by {
                assert(slots@.contains(k));
                let i = choose|i: int| 0 <= i < slots@.len() && slots@[i] == k;
                if i < slots@.len() - 1 {
                    assert(slots@[i] < slots@[slots@.len() - 1]);
                }
            }
        }
        Ok(Some(ChainPoint::Specific(slot, hash)))
    }

    /// Whether the store records no point.
    pub fn is_empty(&self) -> (r: bool)
        ensures
            r == self@.positions.dom().is_empty(),
    {
        let r = self.positions.is_empty();
        proof {
            if !r {
                assert(self@.positions.len() > 0);
                assert(self@.positions.dom().len() > 0);
            } else {
                assert(self@.positions.dom() =~= Set::empty());
            }
        }
        r
    }

    /// The protocol parameters recorded at slots up to `until`, in the order
    /// of their slots.
    pub fn get_pparams(&self, until: BlockSlot) -> (r: Result<Vec<PParamsBody>, LedgerError>)
        ensures
            r is Ok,
            r matches Ok(v) ==> exists|slots: Seq<BlockSlot>| #[trigger]
                lists_pparams_upto(self@.pparams, until, slots, v@),
    {
        let keys = sorted_keys(&self.pparams);
        let mut out: Vec<PParamsBody> = Vec::new();
        let ghost mut slots: Seq<BlockSlot> = Seq::empty();
        let mut i: usize = 0;
        while i < keys.len()
            invariant
                i <= keys@.len(),
                forall|a: int, b: int| 0 <= a < b < keys@.len() ==> keys@[a] < keys@[b],
                forall|a: int| 0 <= a < keys@.len() ==> self@.pparams.contains_key(#[trigger] keys@[a]),
                forall|k: BlockSlot| #[trigger] self@.pparams.contains_key(k) ==> keys@.contains(k),
                slots.len() == out@.len(),
                forall|a: int, b: int| 0 <= a < b < slots.len() ==> slots[a] < slots[b],
                forall|a: int| 0 <= a < slots.len() ==> exists|c: int| 0 <= c < i && keys@[c] == #[trigger] slots[a],
                forall|c: int| 0 <= c < i && keys@[c] <= until ==> slots.contains(#[trigger] keys@[c]),
                forall|a: int| 0 <= a < slots.len() ==> #[trigger] slots[a] <= until,
                forall|a: int|
                    0 <= a < slots.len() ==> self@.pparams[#[trigger] slots[a]] == cbor_view(
                        out@[a].0,
                        out@[a].1,
                    ),
                forall|a: int| 0 <= a < slots.len() && i > 0 ==> #[trigger] slots[a] <= keys@[i - 1],
            decreases keys@.len() - i,
        {
            let k = keys[i];
            if k <= until {
                let body = self.pparams.get(&k).unwrap();
                out.push(PParamsBody(body.0, copy_bytes(&body.1)));
                proof {
                    let old_slots = slots;
                    slots = slots.push(k);
                    assert forall|a: int| 0 <= a < slots.len() implies exists|c: int|
                        0 <= c < i + 1 && keys@[c] == #[trigger] slots[a] by {
                        if a < old_slots.len() {
                            assert(slots[a] == old_slots[a]);
                        } else {
                            assert(keys@[i as int] == slots[a]);
                        }
                    }
                    assert forall|c: int| 0 <= c < i + 1 && keys@[c] <= until implies slots.contains(
                        #[trigger] keys@[c],
                    ) by {
                        if c < i {
                            assert(old_slots.contains(keys@[c]));
                            let a = choose|a: int| 0 <= a < old_slots.len() && old_slots[a] == keys@[c];
                            assert(slots[a] == keys@[c]);
                        } else {
                            assert(slots[slots.len() - 1] == keys@[c]);
                        }
                    }
                    assert forall|a: int, b: int| 0 <= a < b < slots.len() implies slots[a] < slots[b] by {
                        if b == slots.len() - 1 && i > 0 {
                            assert(old_slots[a] <= keys@[i - 1]);
                            assert(keys@[i - 1] < keys@[i as int]);
                        }
                    }
                }
            }
            i = i + 1;
        }
        proof {
            assert forall|k: BlockSlot| (#[trigger] self@.pparams.contains_key(k) && k <= until) <==> slots.contains(k) by {
                if self@.pparams.contains_key(k) && k <= until {
                    assert(keys@.contains(k));
                    let c = choose|c: int| 0 <= c < keys@.len() && keys@[c] == k;
                    assert(slots.contains(keys@[c]));
                }
                if slots.contains(k) {
                    let a = choose|a: int| 0 <= a < slots.len() && slots[a] == k;
                    let c = choose|c: int| 0 <= c < i && keys@[c] == #[trigger] slots[a];
                    assert(self@.pparams.contains_key(keys@[c]));
                }
            }
        }
        assert(lists_pparams_upto(self@.pparams, until, slots, out@));
        let ghost seen = out@;
        let res: Result<Vec<PParamsBody>, LedgerError> = Ok(out);
        assert(res matches Ok(v) && v@ == seen);
        assert(exists|sl: Seq<BlockSlot>| #[trigger] lists_pparams_upto(self@.pparams, until, sl, seen));
        res
    }

    /// The unspent outputs among those named, each with its encoding.
    pub fn get_utxos(&self, refs: Vec<TxoRef>) -> (r: Result<UtxoMap, LedgerError>)
        ensures
            r is Ok,
            r matches Ok(m) ==> entries_map(m@) == self@.utxos.restrict(refs@.to_set()),
    {
        let mut out: UtxoMap = Vec::new();
        let mut i: usize = 0;
        while i < refs.len()
            invariant
                i <= refs@.len(),
                entries_map(out@) == self@.utxos.restrict(refs@.take(i as int).to_set()),
            decreases refs@.len() - i,
        {
            let r = refs[i];
            proof {
                assert(refs@.take(i + 1) =~= refs@.take(i as int).push(r));
                assert(refs@.take(i + 1).to_set() =~= refs@.take(i as int).to_set().insert(r)) by {
                    broadcast use vstd::seq_lib::group_seq_properties;
                }
            }
            match lookup(&self.utxos, &r) {
                Some(j) => {
                    let ghost before = out@;
                    out.push((r, copy_cbor(&self.utxos[j].1)));
                    proof {
                        assert(out@.drop_last() =~= before);
                        assert(entries_map(out@) =~= self@.utxos.restrict(
                            refs@.take(i + 1).to_set(),
                        ));
                    }
                },
                None => {
                    assert(entries_map(out@) =~= self@.utxos.restrict(refs@.take(i + 1).to_set()));
                },
            }
            i = i + 1;
        }
        assert(refs@.take(refs@.len() as int) =~= refs@);
        Ok(out)
    }

    /// The unspent outputs that pay to an address, each named once.
    pub fn get_utxo_by_address_set(&self, address: &[u8]) -> (r: Result<Vec<TxoRef>, LedgerError>)
        ensures
            r is Ok,
            r matches Ok(v) ==> v@.no_duplicates() && v@.to_set() == Set::new(
                |t: TxoRef| self@.utxos.contains_key(t) && pays_to(self@.utxos[t], address@),
            ),
    {
        let s = &self.utxos;
        let mut out: Vec<TxoRef> = Vec::new();
        let ghost mut idx: Seq<int> = Seq::empty();
        let mut k: usize = 0;
        while k < s.len()
            invariant
                k <= s@.len(),
                idx.len() == out@.len(),
                forall|a: int| 0 <= a < idx.len() ==> 0 <= #[trigger] idx[a] < k,
                forall|a: int, b: int| 0 <= a < b < idx.len() ==> idx[a] < idx[b],
                forall|a: int|
                    0 <= a < idx.len() ==> last_entry(s@, #[trigger] idx[a]) && s@[idx[a]].0
                        == out@[a] && pays_to(cbor_view(s@[idx[a]].1.0, s@[idx[a]].1.1), address@),
                forall|c: int|
                    0 <= c < k && last_entry(s@, c) && pays_to(
                        cbor_view(s@[c].1.0, s@[c].1.1),
                        address@,
                    ) ==> exists|a: int| 0 <= a < idx.len() && #[trigger] idx[a] == c,
            decreases s@.len() - k,
        {
            let ghost old_idx = idx;
            let live = match lookup(s, &s[k].0) {
                Some(j) => j == k,
                None => false,
            };
            proof {
                if live {
                    assert(last_entry(s@, k as int));
                } else if last_entry(s@, k as int) {
                    lemma_last_entry_live(s@, k as int);
                }
            }
            if live {
                let paid = match decode_output_address(s[k].1.0, s[k].1.1.as_slice()) {
                    Some(a) => same_bytes(a.as_slice(), address),
                    None => false,
                };
                if paid {
                    out.push(s[k].0);
                    proof {
                        idx = idx.push(k as int);
                    }
                }
            }
            proof {
                assert forall|c: int|
                    0 <= c < k + 1 && last_entry(s@, c) && pays_to(
                        cbor_view(s@[c].1.0, s@[c].1.1),
                        address@,
                    ) implies exists|a: int| 0 <= a < idx.len() && #[trigger] idx[a] == c by {
                    if c < k {
                        let a = choose|a: int| 0 <= a < old_idx.len() && #[trigger] old_idx[a] == c;
                        assert(idx[a] == c);
                    } else {
                        assert(idx[idx.len() - 1] == c);
                    }
                }
            }
            k = k + 1;
        }
        proof {
            let target = Set::new(
                |t: TxoRef| self@.utxos.contains_key(t) && pays_to(self@.utxos[t], address@),
            );
            assert forall|t: TxoRef| #[trigger] out@.to_set().contains(t) <==> target.contains(t) by {
                if out@.to_set().contains(t) {
                    assert(out@.contains(t));
                    let a = choose|a: int| 0 <= a < out@.len() && out@[a] == t;
                    lemma_last_entry_live(s@, idx[a]);
                }
                if target.contains(t) {
                    lemma_live_entry(s@, t);
                    let c = choose|c: int|
                        0 <= c < s@.len() && (#[trigger] s@[c]).0 == t && last_entry(s@, c)
                            && entries_map(s@)[t] == cbor_view(s@[c].1.0, s@[c].1.1);
                    let a = choose|a: int| 0 <= a < idx.len() && #[trigger] idx[a] == c;
                    assert(out@[a] == t);
                }
            }
            assert(out@.to_set() =~= target);
            assert forall|a: int, b: int| 0 <= a < out@.len() && 0 <= b < out@.len() && a != b implies out@[a]
                != out@[b] by {
                if a < b {
                    assert(idx[a] < idx[b]);
                    assert(s@[idx[b]].0 != s@[idx[a]].0);
                } else {
                    assert(idx[b] < idx[a]);
                    assert(s@[idx[a]].0 != s@[idx[b]].0);
                }
            }
        }
        Ok(out)
    }
}

/// The unspent outputs among those asked for, with their encodings.
pub type UtxoMap = Vec<(TxoRef, EraCbor)>;

/// Whether two byte strings are the same.
fn same_bytes(a: &[u8], b: &[u8]) -> (r: bool)
    ensures
        r == (a@ == b@),
{
    if a.len() != b.len() {
        return false;
    }
    let mut i: usize = 0;
    while i < a.len()
        invariant
            i <= a@.len(),
            a@.len() == b@.len(),
            forall|j: int| 0 <= j < i ==> a@[j] == b@[j],
        decreases a@.len() - i,
    {
        if a[i] != b[i] {
            return false;
        }
        i = i + 1;
    }
    assert(a@ =~= b@);
    true
}


/// Adds outputs to a list of entries, one after the other.
pub(crate) fn put_entries(utxos: &mut Vec<(TxoRef, EraCbor)>, s: &Vec<(TxoRef, EraCbor)>)
    ensures
        entries_map(final(utxos)@) == put_all(entries_map(old(utxos)@), s@),
{
    let ghost start = entries_map(utxos@);
    let mut i: usize = 0;
    while i < s.len()
        invariant
            i <= s@.len(),
            entries_map(utxos@) == put_all(start, s@.take(i as int)),
        decreases s@.len() - i,
    {
        let ghost before = utxos@;
        utxos.push((s[i].0, copy_cbor(&s[i].1)));
        proof {
            assert(utxos@.drop_last() =~= before);
            assert(s@.take(i + 1).drop_last() =~= s@.take(i as int));
        }
        i = i + 1;
    }
    assert(s@.take(s@.len() as int) =~= s@);
}

/// Takes outputs out of a list of entries, one after the other.
fn drop_entries(utxos: &mut Vec<(TxoRef, EraCbor)>, s: &Vec<(TxoRef, EraCbor)>)
    ensures
        entries_map(final(utxos)@) == drop_all(entries_map(old(utxos)@), s@),
{
    let ghost start = entries_map(utxos@);
    let mut i: usize = 0;
    while i < s.len()
        invariant
            i <= s@.len(),
            entries_map(utxos@) == drop_all(start, s@.take(i as int)),
        decreases s@.len() - i,
    {
        remove_entries(utxos, &s[i].0);
        proof {
            assert(s@.take(i + 1).drop_last() =~= s@.take(i as int));
        }
        i = i + 1;
    }
    assert(s@.take(s@.len() as int) =~= s@);
}

impl LedgerState {
    /// Applies one delta.
    fn apply_one(&mut self, d: &LedgerDelta)
        ensures
            final(self)@ == apply_delta(old(self)@, *d),
    {
        let ghost s0 = self@;
        match d.new_position {
            Some((slot, hash)) => {
                self.positions.insert(slot, hash);
                if d.new_pparams.len() > 0 {
                    let last = &d.new_pparams[d.new_pparams.len() - 1];
                    self.pparams.insert(slot, PParamsBody(last.0, copy_bytes(&last.1)));
                }
            },
            None => {},
        }
        let ghost s1 = match d.new_position {
            Some((slot, hash)) => LedgerView {
                positions: s0.positions.insert(slot, hash),
                pparams: if d.new_pparams@.len() > 0 {
                    s0.pparams.insert(
                        slot,
                        cbor_view(d.new_pparams@.last().0, d.new_pparams@.last().1),
                    )
                } else {
                    s0.pparams
                },
                ..s0
            },
            None => s0,
        };
        assert(self@.pparams =~= s1.pparams);
        match d.undone_position {
            Some((slot, _)) => {
                self.positions.remove(&slot);
                self.pparams.remove(&slot);
            },
            None => {},
        }
        let ghost s2 = match d.undone_position {
            Some((slot, _)) => LedgerView {
                positions: s1.positions.remove(slot),
                pparams: s1.pparams.remove(slot),
                ..s1
            },
            None => s1,
        };
        assert(self@.pparams =~= s2.pparams);
        assert(self@.positions =~= s2.positions);
        put_entries(&mut self.utxos, &d.produced_utxo);
        drop_entries(&mut self.utxos, &d.undone_utxo);
        put_entries(&mut self.utxos, &d.recovered_stxi);
        drop_entries(&mut self.utxos, &d.consumed_utxo);
    }

    /// Applies deltas in order.
    pub fn apply(&mut self, deltas: &[LedgerDelta]) -> (r: Result<(), LedgerError>)
        ensures
            r is Ok,
            final(self)@ == apply_all(old(self)@, deltas@),
    {
        let ghost start = self@;
        let mut i: usize = 0;
        while i < deltas.len()
            invariant
                i <= deltas@.len(),
                self@ == apply_all(start, deltas@.take(i as int)),
            decreases deltas@.len() - i,
        {
            self.apply_one(&deltas[i]);
            proof {
                assert(deltas@.take(i + 1).drop_last() =~= deltas@.take(i as int));
            }
            i = i + 1;
        }
        assert(deltas@.take(deltas@.len() as int) =~= deltas@);
        Ok(())
    }

    /// Makes the state up to a slot final. The store keeps no information to
    /// undo a block with, so there is nothing to discard and what it holds
    /// stays as it is.
    pub fn finalize(&mut self, until: BlockSlot) -> (r: Result<(), LedgerError>)
        ensures
            r is Ok,
            final(self)@ == old(self)@,
    {
        Ok(())
    }
}

/// A store of ledger state.
pub enum LedgerStore {
    /// A store that holds its state in memory.
    InMemory(LedgerState),
}

impl View for LedgerStore {
    type V = LedgerView;

    open spec fn view(&self) -> LedgerView {
        match self {
            LedgerStore::InMemory(x) => x@,
        }
    }
}

impl LedgerStore {
    /// The point the store stands at: the one recorded at its greatest slot.
    pub fn cursor(&self) -> (r: Result<Option<ChainPoint>, LedgerError>)
        ensures
            r matches Ok(c) && is_cursor(self@.positions, c),
    {
        match self {
            LedgerStore::InMemory(x) => x.cursor(),
        }
    }

    /// Whether the store records no point.
    pub fn is_empty(&self) -> (r: bool)
        ensures
            r == self@.positions.dom().is_empty(),
    {
        match self {
            LedgerStore::InMemory(x) => x.is_empty(),
        }
    }

    /// The protocol parameters recorded at slots up to `until`, in the order
    /// of their slots.
    pub fn get_pparams(&self, until: BlockSlot) -> (r: Result<Vec<PParamsBody>, LedgerError>)
        ensures
            r is Ok,
            r matches Ok(v) ==> exists|slots: Seq<BlockSlot>| #[trigger]
                lists_pparams_upto(self@.pparams, until, slots, v@),
    {
        match self {
            LedgerStore::InMemory(x) => {
                let r = x.get_pparams(until);
                proof {
                    if let Ok(v) = &r {
                        let ghost seen = v@;
                        assert(self@ == x@);
                        assert(exists|sl: Seq<BlockSlot>| #[trigger]
                            lists_pparams_upto(self@.pparams, until, sl, seen));
                    }
                }
                r
            },
        }
    }

    /// The unspent outputs among those named, each with its encoding.
    pub fn get_utxos(&self, refs: Vec<TxoRef>) -> (r: Result<UtxoMap, LedgerError>)
        ensures
            r is Ok,
            r matches Ok(m) ==> entries_map(m@) == self@.utxos.restrict(refs@.to_set()),
    {
        match self {
            LedgerStore::InMemory(x) => x.get_utxos(refs),
        }
    }

    /// The unspent outputs that pay to an address, each named once.
    pub fn get_utxo_by_address_set(&self, address: &[u8]) -> (r: Result<Vec<TxoRef>, LedgerError>)
        ensures
            r is Ok,
            r matches Ok(v) ==> v@.no_duplicates() && v@.to_set() == Set::new(
                |t: TxoRef| self@.utxos.contains_key(t) && pays_to(self@.utxos[t], address@),
            ),
    {
        match self {
            LedgerStore::InMemory(x) => x.get_utxo_by_address_set(address),
        }
    }

    /// Applies deltas in order.
    pub fn apply(&mut self, deltas: &[LedgerDelta]) -> (r: Result<(), LedgerError>)
        ensures
            r is Ok,
            final(self)@ == apply_all(old(self)@, deltas@),
    {
        match self {
            LedgerStore::InMemory(x) => x.apply(deltas),
        }
    }

    /// Makes the state up to a slot final; what the store holds stays as it
    /// is.
    pub fn finalize(&mut self, until: BlockSlot) -> (r: Result<(), LedgerError>)
        ensures
            r is Ok,
            final(self)@ == old(self)@,
    {
        match self {
            LedgerStore::InMemory(x) => x.finalize(until),
        }
    }
}

impl From<LedgerState> for LedgerStore {
    fn from(value: LedgerState) -> (r: Self) {
        LedgerStore::InMemory(value)
    }
}

impl vstd::std_specs::convert::FromSpecImpl<LedgerState> for LedgerStore {
    open spec fn obeys_from_spec() -> bool {
        true
    }

    open spec fn from_spec(v: LedgerState) -> LedgerStore {
        LedgerStore::InMemory(v)
    }
}


/// Applying deltas in two runs is applying them in one.
pub proof fn lemma_apply_in_batches(s: LedgerView, a: Seq<LedgerDelta>, b: Seq<LedgerDelta>)
    ensures
        apply_all(apply_all(s, a), b) == apply_all(s, a + b),
    decreases b.len(),
{
    if b.len() == 0 {
        assert(a + b =~= a);
    } else {
        lemma_apply_in_batches(s, a, b.drop_last());
        assert((a + b).drop_last() =~= a + b.drop_last());
        assert((a + b).last() == b.last());
    }
}

/// A block applied past every point the store records becomes the point the
/// store stands at.
pub proof fn lemma_cursor_moves_to_a_newer_block(s: LedgerView, d: LedgerDelta)
    requires
        d.new_position matches Some((slot, _)) && forall|k: BlockSlot|
            #[trigger] s.positions.contains_key(k) ==> k < slot,
        d.undone_position is None,
    ensures
        is_cursor(
            apply_delta(s, d).positions,
            Some(ChainPoint::Specific(d.new_position.unwrap().0, d.new_position.unwrap().1)),
        ),
{
}

/// Undoing the block a store stands at, when it records a point before
/// it, moves the store back to the newest point before it.
pub proof fn lemma_undo_moves_the_cursor_back(
    s: LedgerView,
    d: LedgerDelta,
    slot: BlockSlot,
    hash: BlockHash,
    previous: BlockSlot,
)
    requires
        is_cursor(s.positions, Some(ChainPoint::Specific(slot, hash))),
        d.new_position is None,
        d.undone_position matches Some((u, _)) && u == slot,
        previous < slot,
        s.positions.contains_key(previous),
        forall|k: BlockSlot| #[trigger] s.positions.contains_key(k) && k < slot ==> k <= previous,
    ensures
        is_cursor(
            apply_delta(s, d).positions,
            Some(ChainPoint::Specific(previous, s.positions[previous])),
        ),
{
}

/// Whether an entry of a list names an output.
pub open spec fn names_output(s: Seq<(TxoRef, EraCbor)>, t: TxoRef) -> bool {
    exists|i: int| 0 <= i < s.len() && (#[trigger] s[i]).0 == t
}

proof fn lemma_drop_all_at(m: Map<TxoRef, (u16, Seq<u8>)>, s: Seq<(TxoRef, EraCbor)>, t: TxoRef)
    ensures
        names_output(s, t) ==> !drop_all(m, s).contains_key(t),
        !names_output(s, t) ==> (drop_all(m, s).contains_key(t) == m.contains_key(t) && (
        m.contains_key(t) ==> drop_all(m, s)[t] == m[t])),
    decreases s.len(),
{
    if s.len() > 0 {
        let init = s.drop_last();
        lemma_drop_all_at(m, init, t);
        if names_output(s, t) && s.last().0 != t {
            let i = choose|i: int| 0 <= i < s.len() && (#[trigger] s[i]).0 == t;
            assert(init[i].0 == t);
        }
        if names_output(init, t) {
            let i = choose|i: int| 0 <= i < init.len() && (#[trigger] init[i]).0 == t;
            assert(s[i].0 == t);
        }
        if s.last().0 == t {
            assert(s[s.len() - 1].0 == t);
        }
    }
}

proof fn lemma_put_all_at(m: Map<TxoRef, (u16, Seq<u8>)>, s: Seq<(TxoRef, EraCbor)>, t: TxoRef)
    ensures
        names_output(s, t) ==> put_all(m, s).contains_key(t),
        !names_output(s, t) ==> (put_all(m, s).contains_key(t) == m.contains_key(t) && (
        m.contains_key(t) ==> put_all(m, s)[t] == m[t])),
    decreases s.len(),
{
    if s.len() > 0 {
        let init = s.drop_last();
        lemma_put_all_at(m, init, t);
        if names_output(s, t) && s.last().0 != t {
            let i = choose|i: int| 0 <= i < s.len() && (#[trigger] s[i]).0 == t;
            assert(init[i].0 == t);
        }
        if names_output(init, t) {
            let i = choose|i: int| 0 <= i < init.len() && (#[trigger] init[i]).0 == t;
            assert(s[i].0 == t);
        }
        if s.last().0 == t {
            assert(s[s.len() - 1].0 == t);
        }
    }
}

/// After a change, an output it spends is spent, an output it creates is
/// unspent unless the same change spends it or undoes it again, and an
/// output it does not name is as it was.
pub proof fn lemma_a_change_spends_and_creates_what_it_names(s: LedgerView, d: LedgerDelta, t: TxoRef)
    ensures
        names_output(d.consumed_utxo@, t) ==> !apply_delta(s, d).utxos.contains_key(t),
        names_output(d.produced_utxo@, t) && !names_output(d.undone_utxo@, t) && !names_output(
            d.consumed_utxo@,
            t,
        ) ==> apply_delta(s, d).utxos.contains_key(t),
        names_output(d.recovered_stxi@, t) && !names_output(d.consumed_utxo@, t)
            ==> apply_delta(s, d).utxos.contains_key(t),
        !names_output(d.produced_utxo@, t) && !names_output(d.undone_utxo@, t) && !names_output(
            d.recovered_stxi@,
            t,
        ) && !names_output(d.consumed_utxo@, t) ==> (apply_delta(s, d).utxos.contains_key(t)
            == s.utxos.contains_key(t) && (s.utxos.contains_key(t) ==> apply_delta(s, d).utxos[t]
            == s.utxos[t])),
{
    let m0 = s.utxos;
    let m1 = put_all(m0, d.produced_utxo@);
    let m2 = drop_all(m1, d.undone_utxo@);
    let m3 = put_all(m2, d.recovered_stxi@);
    lemma_put_all_at(m0, d.produced_utxo@, t);
    lemma_drop_all_at(m1, d.undone_utxo@, t);
    lemma_put_all_at(m2, d.recovered_stxi@, t);
    lemma_drop_all_at(m3, d.consumed_utxo@, t);
}

} // verus!
