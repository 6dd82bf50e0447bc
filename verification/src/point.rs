use vstd::prelude::*;
use crate::seqs::after;
use vstd::std_specs::cmp::PartialEqSpecImpl;
use vstd::std_specs::cmp::PartialEqSpec;
use vstd::std_specs::cmp::PartialOrdSpecImpl;
use std::cmp::Ordering;

verus! {

broadcast use vstd::array::group_array_axioms;

/// A slot number on the chain.
pub type BlockSlot = u64;

/// The 32-byte hash that names a block.
pub type BlockHash = [u8; 32];

/// A position on the chain: its start, a slot with no block named, or a
/// block named by its slot and hash.
#[derive(Debug, Clone, Copy, Eq)]
pub enum ChainPoint {
    Origin,
    Slot(BlockSlot),
    Specific(BlockSlot, BlockHash),
}

/// Whether two hashes hold the same bytes.
pub fn same_hash(a: &BlockHash, b: &BlockHash) -> (r: bool)
    ensures
        r == (*a == *b),
{
    let mut i: usize = 0;
    while i < 32
        invariant
            i <= 32,
            forall|j: int| 0 <= j < i ==> a[j] == b[j],
        decreases 32 - i,
    {
        if a[i] != b[i] {
            return false;
        }
        i = i + 1;
    }
    assert(*a =~= *b);
    true
}

/// Whether every byte of a hash is zero.
pub open spec fn zero_hash(h: BlockHash) -> bool {
    forall|i: int| 0 <= i < 32 ==> h[i] == 0
}

fn is_zero_hash(h: &BlockHash) -> (r: bool)
    ensures
        r == zero_hash(*h),
{
    let mut i: usize = 0;
    while i < 32
        invariant
            i <= 32,
            forall|j: int| 0 <= j < i ==> h[j] == 0,
        decreases 32 - i,
    {
        if h[i] != 0 {
            return false;
        }
        i = i + 1;
    }
    true
}

/// The order of two numbers.
pub open spec fn num_order(a: u64, b: u64) -> Ordering {
    if a < b {
        Ordering::Less
    } else if a > b {
        Ordering::Greater
    } else {
        Ordering::Equal
    }
}

/// The order of two ranks.
pub open spec fn rank_order(a: u8, b: u8) -> Ordering {
    if a < b {
        Ordering::Less
    } else if a > b {
        Ordering::Greater
    } else {
        Ordering::Equal
    }
}

/// The lexicographic order of two byte strings, a proper prefix first.
pub open spec fn bytes_order(a: Seq<u8>, b: Seq<u8>) -> Ordering
    decreases a.len(),
{
    if a.len() == 0 {
        if b.len() == 0 {
            Ordering::Equal
        } else {
            Ordering::Less
        }
    } else if b.len() == 0 {
        Ordering::Greater
    } else if a[0] < b[0] {
        Ordering::Less
    } else if a[0] > b[0] {
        Ordering::Greater
    } else {
        bytes_order(a.drop_first(), b.drop_first())
    }
}

/// The order of two optional hashes: no hash first, then hashes by their
/// bytes.
pub open spec fn hash_order(a: Option<BlockHash>, b: Option<BlockHash>) -> Ordering {
    match (a, b) {
        (None, None) => Ordering::Equal,
        (None, Some(_)) => Ordering::Less,
        (Some(_), None) => Ordering::Greater,
        (Some(x), Some(y)) => bytes_order(x@, y@),
    }
}

/// The first order unless it is `Equal`, then the second.
pub open spec fn order_then(first: Ordering, second: Ordering) -> Ordering {
    if first == Ordering::Equal {
        second
    } else {
        first
    }
}

/// The order of two chain points: by slot, then by hash with no hash first,
/// then origin before a bare slot before a named block.
pub open spec fn point_order(a: ChainPoint, b: ChainPoint) -> Ordering {
    if a.slot_of() != b.slot_of() {
        num_order(a.slot_of(), b.slot_of())
    } else {
        order_then(
            hash_order(a.hash_of(), b.hash_of()),
            rank_order(a.rank_of(), b.rank_of()),
        )
    }
}

/// The order with both sides swapped.
pub open spec fn reversed(o: Ordering) -> Ordering {
    match o {
        Ordering::Less => Ordering::Greater,
        Ordering::Equal => Ordering::Equal,
        Ordering::Greater => Ordering::Less,
    }
}

fn order_numbers(a: u64, b: u64) -> (r: Ordering)
    ensures
        r == num_order(a, b),
{
    if a < b {
        Ordering::Less
    } else if a > b {
        Ordering::Greater
    } else {
        Ordering::Equal
    }
}

/// Compares two hashes byte by byte.
pub fn order_hashes(a: &BlockHash, b: &BlockHash) -> (r: Ordering)
    ensures
        r == bytes_order(a@, b@),
{
    let mut i: usize = 0;
    assert(after(a@, 0) =~= a@);
    assert(after(b@, 0) =~= b@);
    while i < 32
        invariant
            i <= 32,
            a@.len() == 32,
            b@.len() == 32,
            bytes_order(a@, b@) == bytes_order(after(a@, i), after(b@, i)),
        decreases 32 - i,
    {
        let x = a[i];
        let y = b[i];
        let next: usize = i + 1;
        assert(after(a@, i).drop_first() =~= after(a@, next));
        assert(after(b@, i).drop_first() =~= after(b@, next));
        if x < y {
            return Ordering::Less;
        }
        if x > y {
            return Ordering::Greater;
        }
        i = next;
    }
    Ordering::Equal
}

impl PartialEq for ChainPoint {
    fn eq(&self, other: &Self) -> (r: bool) {
        match (self, other) {
            (ChainPoint::Origin, ChainPoint::Origin) => true,
            (ChainPoint::Slot(l), ChainPoint::Slot(r)) => *l == *r,
            (ChainPoint::Specific(ls, lh), ChainPoint::Specific(rs, rh)) => *ls == *rs && same_hash(
                lh,
                rh,
            ),
            _ => false,
        }
    }
}

impl PartialEqSpecImpl for ChainPoint {
    open spec fn obeys_eq_spec() -> bool {
        true
    }

    open spec fn eq_spec(&self, other: &Self) -> bool {
        *self == *other
    }
}

impl PartialOrd for ChainPoint {
    fn partial_cmp(&self, other: &Self) -> (r: Option<Ordering>) {
        Some(self.cmp(other))
    }
}

impl PartialOrdSpecImpl for ChainPoint {
    open spec fn obeys_partial_cmp_spec() -> bool {
        true
    }

    open spec fn partial_cmp_spec(&self, other: &Self) -> Option<Ordering> {
        Some(point_order(*self, *other))
    }
}

impl ChainPoint {
    /// The slot a point stands at; the origin stands at slot zero.
    pub open spec fn slot_of(self) -> u64 {
        match self {
            ChainPoint::Origin => 0,
            ChainPoint::Slot(s) => s,
            ChainPoint::Specific(s, _) => s,
        }
    }

    /// The hash a point carries, if it names a block.
    pub open spec fn hash_of(self) -> Option<BlockHash> {
        match self {
            ChainPoint::Specific(_, h) => Some(h),
            _ => None,
        }
    }

    /// A point can serve for an intersection when it is the origin or names a
    /// block by a hash that is not all zero bytes.
    pub open spec fn fully_defined(self) -> bool {
        match self {
            ChainPoint::Origin => true,
            ChainPoint::Specific(_, h) => !zero_hash(h),
            ChainPoint::Slot(_) => false,
        }
    }

    /// Two points may be the same block when they are equal, or when one of
    /// them is a slot with no hash and the other names a block at that slot.
    pub open spec fn may_be_same(self, other: Self) -> bool {
        match (self, other) {
            (ChainPoint::Specific(l, _), ChainPoint::Slot(r)) => l == r,
            (ChainPoint::Slot(l), ChainPoint::Specific(r, _)) => l == r,
            _ => self == other,
        }
    }

    /// Orders the variants at one slot that carry no hash.
    pub open spec fn rank_of(self) -> u8 {
        match self {
            ChainPoint::Origin => 0,
            ChainPoint::Slot(_) => 1,
            ChainPoint::Specific(_, _) => 2,
        }
    }

    pub fn slot(&self) -> (r: BlockSlot)
        ensures
            r == self.slot_of(),
    {
        match self {
            ChainPoint::Origin => 0,
            ChainPoint::Slot(slot) => *slot,
            ChainPoint::Specific(slot, _) => *slot,
        }
    }

    pub fn hash(&self) -> (r: Option<BlockHash>)
        ensures
            r == self.hash_of(),
    {
        match self {
            ChainPoint::Specific(_, hash) => Some(*hash),
            _ => None,
        }
    }

    /// Returns true if this point can be used for an intersection.
    /// Origin and Specific points with non-zero hashes are fully defined;
    /// Slot-only points and zero-hash Specifics are not.
    pub fn is_fully_defined(&self) -> (r: bool)
        ensures
            r == self.fully_defined(),
    {
        match self {
            ChainPoint::Origin => true,
            ChainPoint::Specific(_, hash) => !is_zero_hash(hash),
            ChainPoint::Slot(_) => false,
        }
    }

    /// Whether two points can be the same block, comparing only what both of
    /// them carry, so a slot without a hash matches the block at that slot.
    ///
    /// This is not equality: it holds between a hashless point and two
    /// different blocks at one slot, which are not each other.
    pub fn may_be_same_block(&self, other: &Self) -> (r: bool)
        ensures
            r == self.may_be_same(*other),
    {
        match (self, other) {
            (ChainPoint::Specific(l, _), ChainPoint::Slot(r)) => *l == *r,
            (ChainPoint::Slot(l), ChainPoint::Specific(r, _)) => *l == *r,
            _ => self.eq(other),
        }
    }

    /// The total order of chain points: by slot, then by hash with a point
    /// that has none first, then origin before a bare slot before a block.
    /// Origin and slot zero both stand at slot zero with no hash, and
    /// equality tells them apart, so the order does too.
    pub fn cmp(&self, other: &Self) -> (r: Ordering)
        ensures
            r == point_order(*self, *other),
    {
        let l_slot = self.slot();
        let r_slot = other.slot();
        if l_slot != r_slot {
            return order_numbers(l_slot, r_slot);
        }
        let by_hash = match (self.hash(), other.hash()) {
            (None, None) => Ordering::Equal,
            (None, Some(_)) => Ordering::Less,
            (Some(_), None) => Ordering::Greater,
            (Some(x), Some(y)) => order_hashes(&x, &y),
        };
        match by_hash {
            Ordering::Equal => {
                let lr = self.rank();
                let rr = other.rank();
                if lr < rr {
                    Ordering::Less
                } else if lr > rr {
                    Ordering::Greater
                } else {
                    Ordering::Equal
                }
            },
            other_order => other_order,
        }
    }

    /// Orders the variants at one slot with no hash, which nothing else
    /// distinguishes.
    fn rank(&self) -> (r: u8)
        ensures
            r == self.rank_of(),
    {
        match self {
            ChainPoint::Origin => 0,
            ChainPoint::Slot(_) => 1,
            ChainPoint::Specific(_, _) => 2,
        }
    }
}

} // verus!

verus! {

/// Two byte strings compare equal exactly when they are the same string.
pub proof fn lemma_bytes_order_equal(a: Seq<u8>, b: Seq<u8>)
    ensures
        (bytes_order(a, b) == Ordering::Equal) <==> (a == b),
    decreases a.len(),
{
    if a.len() > 0 && b.len() > 0 {
        lemma_bytes_order_equal(a.drop_first(), b.drop_first());
        if a[0] == b[0] && a.drop_first() == b.drop_first() {
            assert(a =~= seq![a[0]] + a.drop_first());
            assert(b =~= seq![b[0]] + b.drop_first());
        }
        if a == b {
            assert(a.drop_first() =~= b.drop_first());
        }
    } else if a.len() == 0 && b.len() == 0 {
        assert(a =~= b);
    }
}

/// Swapping two byte strings reverses their order.
pub proof fn lemma_bytes_order_reversed(a: Seq<u8>, b: Seq<u8>)
    ensures
        bytes_order(b, a) == reversed(bytes_order(a, b)),
    decreases a.len(),
{
    if a.len() > 0 && b.len() > 0 {
        lemma_bytes_order_reversed(a.drop_first(), b.drop_first());
    }
}

/// The byte order is transitive.
pub proof fn lemma_bytes_order_transitive(a: Seq<u8>, b: Seq<u8>, c: Seq<u8>)
    requires
        bytes_order(a, b) == Ordering::Less,
        bytes_order(b, c) == Ordering::Less,
    ensures
        bytes_order(a, c) == Ordering::Less,
    decreases a.len(),
{
    if a.len() > 0 && b.len() > 0 && c.len() > 0 {
        if a[0] == b[0] && b[0] == c[0] {
            lemma_bytes_order_transitive(a.drop_first(), b.drop_first(), c.drop_first());
        }
    }
}

proof fn lemma_hash_order_equal(a: Option<BlockHash>, b: Option<BlockHash>)
    ensures
        (hash_order(a, b) == Ordering::Equal) <==> (a == b),
{
    match (a, b) {
        (Some(x), Some(y)) => {
            lemma_bytes_order_equal(x@, y@);
            if x@ == y@ {
                assert(x =~= y);
            }
        },
        _ => {},
    }
}

/// Two chain points compare equal exactly when they are equal, so the order
/// and equality agree on every pair.
pub proof fn lemma_order_agrees_with_equality(a: ChainPoint, b: ChainPoint)
    ensures
        (point_order(a, b) == Ordering::Equal) <==> (a == b),
{
    lemma_hash_order_equal(a.hash_of(), b.hash_of());
}

/// Swapping two chain points reverses their order.
pub proof fn lemma_order_antisymmetric(a: ChainPoint, b: ChainPoint)
    ensures
        point_order(b, a) == reversed(point_order(a, b)),
{
    match (a.hash_of(), b.hash_of()) {
        (Some(x), Some(y)) => lemma_bytes_order_reversed(x@, y@),
        _ => {},
    }
}

/// The order of chain points is transitive.
pub proof fn lemma_order_transitive(a: ChainPoint, b: ChainPoint, c: ChainPoint)
    requires
        point_order(a, b) == Ordering::Less,
        point_order(b, c) == Ordering::Less,
    ensures
        point_order(a, c) == Ordering::Less,
{
    if a.slot_of() == b.slot_of() && b.slot_of() == c.slot_of() {
        lemma_hash_order_equal(a.hash_of(), b.hash_of());
        lemma_hash_order_equal(b.hash_of(), c.hash_of());
        lemma_hash_order_equal(a.hash_of(), c.hash_of());
        match (a.hash_of(), b.hash_of(), c.hash_of()) {
            (Some(x), Some(y), Some(z)) => {
                if hash_order(a.hash_of(), b.hash_of()) == Ordering::Less && hash_order(
                    b.hash_of(),
                    c.hash_of(),
                ) == Ordering::Less {
                    lemma_bytes_order_transitive(x@, y@, z@);
                }
            },
            _ => {},
        }
    }
}

/// Equality of chain points answers the same whichever side holds the hash.
pub proof fn lemma_equality_symmetric(a: ChainPoint, b: ChainPoint)
    ensures
        PartialEqSpec::eq_spec(&a, &b) == PartialEqSpec::eq_spec(&b, &a),
{
}

/// Whether two points may be the same block does not depend on their order,
/// holds of every point with itself, and holds of equal points.
pub proof fn lemma_may_be_same_block(a: ChainPoint, b: ChainPoint)
    ensures
        a.may_be_same(b) == b.may_be_same(a),
        a.may_be_same(a),
        a == b ==> a.may_be_same(b),
        a.may_be_same(b) ==> a.slot_of() == b.slot_of(),
{
}

} // verus!

verus! {

/// The order of two natural numbers.
pub open spec fn nat_order(a: nat, b: nat) -> Ordering {
    if a < b {
        Ordering::Less
    } else if a > b {
        Ordering::Greater
    } else {
        Ordering::Equal
    }
}

proof fn lemma_bytes_order_concat(a: Seq<u8>, c: Seq<u8>, b: Seq<u8>, d: Seq<u8>)
    requires
        a.len() == b.len(),
    ensures
        bytes_order(a + c, b + d) == order_then(bytes_order(a, b), bytes_order(c, d)),
    decreases a.len(),
{
    if a.len() > 0 {
        assert((a + c).drop_first() =~= a.drop_first() + c);
        assert((b + d).drop_first() =~= b.drop_first() + d);
        lemma_bytes_order_concat(a.drop_first(), c, b.drop_first(), d);
    } else {
        assert(a + c =~= c);
        assert(b + d =~= d);
    }
}

proof fn lemma_be_order(x: u64, y: u64, n: nat)
    requires
        n <= 8,
    ensures
        bytes_order(crate::bytes::be_bytes(x, n), crate::bytes::be_bytes(y, n)) == nat_order(
            crate::bytes::as_nat(x) % crate::bytes::pow256(n),
            crate::bytes::as_nat(y) % crate::bytes::pow256(n),
        ),
    decreases n,
{
    crate::bytes::lemma_be_bytes_len(x, n);
    crate::bytes::lemma_be_bytes_len(y, n);
    if n == 0 {
        assert(crate::bytes::pow256(0) == 1);
        assert(crate::bytes::as_nat(x) % 1 == 0);
        assert(crate::bytes::as_nat(y) % 1 == 0);
        assert(crate::bytes::be_bytes(x, 0).len() == 0);
        assert(crate::bytes::be_bytes(y, 0).len() == 0);
    } else {
        let m = crate::bytes::prev(n);
        lemma_be_order(x / 256, y / 256, m);
        crate::bytes::lemma_split_low_byte(x, n);
        crate::bytes::lemma_split_low_byte(y, n);
        crate::bytes::lemma_be_bytes_len(x / 256, m);
        crate::bytes::lemma_be_bytes_len(y / 256, m);
        let bx = crate::bytes::be_bytes(x / 256, m);
        let by = crate::bytes::be_bytes(y / 256, m);
        let lx = crate::bytes::low_byte(x);
        let ly = crate::bytes::low_byte(y);
        assert(crate::bytes::be_bytes(x, n) =~= bx + seq![lx]);
        assert(crate::bytes::be_bytes(y, n) =~= by + seq![ly]);
        lemma_bytes_order_concat(bx, seq![lx], by, seq![ly]);
        assert(seq![lx].drop_first() =~= Seq::<u8>::empty());
        assert(seq![ly].drop_first() =~= Seq::<u8>::empty());
        let ax = crate::bytes::as_nat(x / 256) % crate::bytes::pow256(m);
        let ay = crate::bytes::as_nat(y / 256) % crate::bytes::pow256(m);
        let vx = ax * 256 + lx;
        let vy = ay * 256 + ly;
        assert(ax < ay ==> vx < vy) by (nonlinear_arith)
            requires
                lx < 256,
                ly < 256,
                vx == ax * 256 + lx,
                vy == ay * 256 + ly,
        ;
        assert(ax > ay ==> vx > vy) by (nonlinear_arith)
            requires
                lx < 256,
                ly < 256,
                vx == ax * 256 + lx,
                vy == ay * 256 + ly,
        ;
        assert(bytes_order(bx, by) == nat_order(ax, ay));
        assert(crate::bytes::as_nat(x) % crate::bytes::pow256(n) == vx);
        assert(crate::bytes::as_nat(y) % crate::bytes::pow256(n) == vy);
        reveal_with_fuel(bytes_order, 2);
        assert(bytes_order(seq![lx], seq![ly]) == (if lx < ly {
            Ordering::Less
        } else if lx > ly {
            Ordering::Greater
        } else {
            Ordering::Equal
        }));
    }
}

/// Two named blocks order the same way as their forty-byte encodings, read
/// byte by byte, so a store keyed by those bytes keeps points in order.
pub proof fn lemma_bytes_keep_order(p: ChainPoint, q: ChainPoint)
    requires
        p is Specific,
        q is Specific,
    ensures
        bytes_order(crate::bytes::point_bytes(p), crate::bytes::point_bytes(q)) == point_order(
            p,
            q,
        ),
{
    let sp = p.slot_of();
    let sq = q.slot_of();
    let hp = p.hash_of().unwrap();
    let hq = q.hash_of().unwrap();
    crate::bytes::lemma_be_bytes_len(sp, 8);
    crate::bytes::lemma_be_bytes_len(sq, 8);
    lemma_bytes_order_concat(
        crate::bytes::be_bytes(sp, 8),
        hp@,
        crate::bytes::be_bytes(sq, 8),
        hq@,
    );
    lemma_be_order(sp, sq, 8);
    crate::bytes::lemma_split_low_byte(sp, 8);
    crate::bytes::lemma_split_low_byte(sq, 8);
}


proof fn lemma_zeros_come_first(z: Seq<u8>, h: Seq<u8>)
    requires
        z.len() == h.len(),
        forall|i: int| 0 <= i < z.len() ==> z[i] == 0,
    ensures
        bytes_order(z, h) != Ordering::Greater,
    decreases z.len(),
{
    if z.len() > 0 && z[0] == h[0] {
        lemma_zeros_come_first(z.drop_first(), h.drop_first());
    }
}

/// For any two points, the first's forty bytes never come after the
/// second's when the first point does not come after the second; the
/// origin and a bare slot that share bytes compare equal there.
pub proof fn lemma_bytes_never_reorder(p: ChainPoint, q: ChainPoint)
    requires
        point_order(p, q) != Ordering::Greater,
    ensures
        bytes_order(crate::bytes::point_bytes(p), crate::bytes::point_bytes(q))
            != Ordering::Greater,
{
    let sp = p.slot_of();
    let sq = q.slot_of();
    let tp = match p.hash_of() {
        Some(h) => h@,
        None => crate::bytes::zero_bytes(),
    };
    let tq = match q.hash_of() {
        Some(h) => h@,
        None => crate::bytes::zero_bytes(),
    };
    crate::bytes::lemma_be_bytes_len(sp, 8);
    crate::bytes::lemma_be_bytes_len(sq, 8);
    lemma_bytes_order_concat(crate::bytes::be_bytes(sp, 8), tp, crate::bytes::be_bytes(sq, 8), tq);
    lemma_be_order(sp, sq, 8);
    crate::bytes::lemma_split_low_byte(sp, 8);
    crate::bytes::lemma_split_low_byte(sq, 8);
    if sp == sq {
        match (p.hash_of(), q.hash_of()) {
            (None, None) => {
                lemma_bytes_order_equal(tp, tq);
            },
            (None, Some(h)) => {
                lemma_zeros_come_first(tp, tq);
            },
            (Some(_), None) => {},
            (Some(_), Some(_)) => {},
        }
    }
}

/// Points come in the order of their slots; at one slot the origin comes
/// before a bare slot, and a bare slot before any block named there.
pub proof fn lemma_points_order_by_slot_then_kind(a: ChainPoint, b: ChainPoint, s: u64, h: BlockHash)
    ensures
        a.slot_of() < b.slot_of() ==> point_order(a, b) == Ordering::Less,
        a.slot_of() > b.slot_of() ==> point_order(a, b) == Ordering::Greater,
        point_order(ChainPoint::Origin, ChainPoint::Slot(0)) == Ordering::Less,
        point_order(ChainPoint::Slot(s), ChainPoint::Specific(s, h)) == Ordering::Less,
        point_order(ChainPoint::Specific(s, h), ChainPoint::Specific(s, h)) == Ordering::Equal,
{
    lemma_bytes_order_equal(h@, h@);
}

} // verus!
