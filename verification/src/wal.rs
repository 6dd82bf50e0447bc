use vstd::prelude::*;
use std::sync::Arc;
use crate::point::{BlockHash, ChainPoint};

verus! {

/// A block as the chain carries it.
pub type RawBlock = Arc<Vec<u8>>;

/// Whether two points name the same block.
///
/// Origin names no block at all, so it never matches one, though its slot
/// reads as zero. A point that has no hash names every block at its slot.
pub open spec fn same_block(a: ChainPoint, b: ChainPoint) -> bool {
    match (a, b) {
        (ChainPoint::Origin, _) => false,
        (_, ChainPoint::Origin) => false,
        (ChainPoint::Specific(sa, ha), ChainPoint::Specific(sb, hb)) => sa == sb && ha == hb,
        _ => a.slot_of() == b.slot_of(),
    }
}

/// Whether a block at `point` is one a caller resuming at `from` has not
/// applied yet.
pub open spec fn not_yet_applied(from: Option<ChainPoint>, point: ChainPoint) -> bool {
    match from {
        Some(f) => !same_block(f, point),
        None => true,
    }
}

/// Whether two points name the same block.
///
/// The two points are matched by shape rather than compared with `==`, so
/// a point with no hash names every block at its slot and the origin names
/// none.
fn names_the_same_block(a: &ChainPoint, b: &ChainPoint) -> (r: bool)
    ensures
        r == same_block(*a, *b),
{
    match (a, b) {
        (ChainPoint::Origin, _) => false,
        (_, ChainPoint::Origin) => false,
        (ChainPoint::Specific(_, a_hash), ChainPoint::Specific(_, b_hash)) => a.slot() == b.slot()
            && crate::point::same_hash(a_hash, b_hash),
        _ => a.slot() == b.slot(),
    }
}

/// The point a caller resumes at, if it names one.
pub open spec fn resume_point(from: Option<&ChainPoint>) -> Option<ChainPoint> {
    match from {
        Some(f) => Some(*f),
        None => None,
    }
}

/// The blocks of a sequence that a caller resuming at `from` has not
/// applied, in their order.
pub open spec fn kept_blocks(from: Option<ChainPoint>, s: Seq<(ChainPoint, RawBlock)>) -> Seq<
    (ChainPoint, RawBlock),
>
    decreases s.len(),
{
    if s.len() == 0 {
        s
    } else {
        let init = kept_blocks(from, s.drop_last());
        if not_yet_applied(from, s.last().0) {
            init.push(s.last())
        } else {
            init
        }
    }
}

/// The blocks a caller resuming at `from` has not applied, in their order.
///
/// A wal block iteration opened at a point starts with that point, and the
/// caller named that point as the block it last applied, so it is dropped.
pub fn blocks_after(from: Option<&ChainPoint>, blocks: Vec<(ChainPoint, RawBlock)>) -> (r: Vec<
    (ChainPoint, RawBlock),
>)
    ensures
        r@ == kept_blocks(resume_point(from), blocks@),
{
    let ghost start = resume_point(from);
    let ghost all = blocks@;
    let mut out: Vec<(ChainPoint, RawBlock)> = Vec::new();
    for item in it: blocks.into_iter()
        invariant
            all == it.seq(),
            out@ == kept_blocks(start, it.seq().take(it.index() as int)),
            start == resume_point(from),
    {
        let ghost before = it.index();
        proof {
            assert(it.seq().take(before + 1).drop_last() =~= it.seq().take(before as int));
            assert(item == it.seq()[before as int]);
        }
        let keep_it = match from {
            Some(f) => !names_the_same_block(f, &item.0),
            None => true,
        };
        if keep_it {
            out.push(item);
        }
    }
    proof {
        assert(all.take(all.len() as int) =~= all);
    }
    out
}

/// Two to the power `k`.
pub open spec fn two_to(k: nat) -> nat
    decreases k,
{
    if k == 0 {
        1
    } else {
        2 * two_to((k - 1) as nat)
    }
}

/// A sequence without its first `k` elements, or empty when it has fewer.
pub open spec fn skip_upto<T>(s: Seq<T>, k: nat) -> Seq<T> {
    if k >= s.len() {
        Seq::empty()
    } else {
        s.skip(k as int)
    }
}

/// The points an exponential crawl picks from `rest`, newest first, once it
/// has picked `taken` points: each fully defined point it meets is picked,
/// the crawl stops once it holds `max` points (or one, when `max` is zero),
/// and after its `k`-th pick it passes over the next `2^k - 1` entries.
pub open spec fn crawl(rest: Seq<ChainPoint>, taken: nat, max: nat) -> Seq<ChainPoint>
    decreases rest.len(),
{
    if rest.len() == 0 {
        Seq::empty()
    } else if !rest[0].fully_defined() {
        crawl(rest.drop_first(), taken, max)
    } else if taken + 1 >= max {
        seq![rest[0]]
    } else {
        seq![rest[0]] + crawl(
            skip_upto(rest.drop_first(), (two_to(taken + 1) - 1) as nat),
            taken + 1,
            max,
        )
    }
}

/// The points a peer is offered to find where its chain meets the wal,
/// given the wal's points oldest first: the wal is crawled from its tip with
/// exponentially growing gaps, so a few points cover a long history, and a
/// point that is not fully defined (a slot-only or zero-hash entry) is never
/// offered.
pub fn intersect_candidates(points: &Vec<ChainPoint>, max_items: usize) -> (out: Vec<ChainPoint>)
    ensures
        out@ == crawl(points@.reverse(), 0, max_items as nat),
{
    let n = points.len();
    let ghost newest_first = points@.reverse();
    let ghost max = max_items as nat;
    let mut out: Vec<ChainPoint> = Vec::new();
    let mut i: usize = 0;
    let mut gap: u64 = 1;
    proof {
        assert(newest_first.skip(0) =~= newest_first);
        assert(out@ + crawl(newest_first, 0, max) =~= crawl(newest_first, 0, max));
    }
    while i < n
        invariant
            n == points@.len(),
            newest_first == points@.reverse(),
            max == max_items as nat,
            i <= n,
            out.len() < 64,
            gap == two_to(out.len() as nat),
            out.len() == 0 || out.len() < max_items,
            out@ + crawl(newest_first.skip(i as int), out.len() as nat, max) == crawl(
                newest_first,
                0,
                max,
            ),
        decreases n - i,
    {
        let point = points[n - 1 - i];
        let ghost rest = newest_first.skip(i as int);
        let ghost taken = out.len() as nat;
        let ghost before = out@;
        proof {
            assert(rest[0] == point);
            assert(rest.drop_first() =~= newest_first.skip(i + 1));
        }
        i = i + 1;
        if !point.is_fully_defined() {
            continue;
        }
        out.push(point);
        proof {
            assert(out@ =~= before + seq![point]);
        }
        if out.len() >= max_items {
            proof {
                assert(out@ + Seq::<ChainPoint>::empty() =~= out@);
            }
            return out;
        }
        let remaining: usize = n - i;
        let ghost after_pick = newest_first.skip(i as int);
        proof {
            lemma_crawl_pick(rest, taken, max);
            assert(before + crawl(rest, taken, max) =~= out@ + crawl(
                skip_upto(after_pick, (two_to(taken + 1) - 1) as nat),
                taken + 1,
                max,
            ));
        }
        if out.len() >= 64 {
            proof {
                lemma_two_to_grows(64, out.len() as nat);
                lemma_two_to_64();
                assert(skip_upto(after_pick, (two_to(taken + 1) - 1) as nat) =~= Seq::<
                    ChainPoint,
                >::empty());
                assert(out@ + Seq::<ChainPoint>::empty() =~= out@);
            }
            return out;
        } else {
            proof {
                lemma_two_to_grows(out.len() as nat, 63);
                lemma_two_to_grows(0, out.len() as nat);
                lemma_two_to_64();
            }
            gap = gap * 2;
            let skip: u64 = gap - 1;
            if skip >= remaining as u64 {
                proof {
                    assert(skip_upto(after_pick, (two_to(taken + 1) - 1) as nat) =~= newest_first.skip(
                        n as int,
                    ));
                }
                i = n;
            } else {
                proof {
                    assert(skip_upto(after_pick, (two_to(taken + 1) - 1) as nat) =~= newest_first.skip(
                        i + skip,
                    ));
                }
                i = i + skip as usize;
            }
        }
    }
    proof {
        assert(newest_first.skip(i as int).len() == 0);
        assert(out@ + Seq::<ChainPoint>::empty() =~= out@);
    }
    out
}

proof fn lemma_crawl_pick(rest: Seq<ChainPoint>, taken: nat, max: nat)
    requires
        rest.len() > 0,
        rest[0].fully_defined(),
        taken + 1 < max,
    ensures
        crawl(rest, taken, max) == seq![rest[0]] + crawl(
            skip_upto(rest.drop_first(), (two_to(taken + 1) - 1) as nat),
            taken + 1,
            max,
        ),
{
}

proof fn lemma_two_to_64()
    ensures
        two_to(63) == 0x8000000000000000,
        two_to(64) == 0x10000000000000000,
{
    reveal_with_fuel(two_to, 65);
}

proof fn lemma_two_to_grows(a: nat, b: nat)
    requires
        a <= b,
    ensures
        two_to(a) <= two_to(b),
    decreases b - a,
{
    if a < b {
        lemma_two_to_grows(a, (b - 1) as nat);
    }
}

/// The first fully defined point of a sequence, by position.
pub open spec fn first_defined_at(rest: Seq<ChainPoint>, k: int) -> bool {
    &&& 0 <= k < rest.len()
    &&& rest[k].fully_defined()
    &&& forall|j: int| 0 <= j < k ==> !(#[trigger] rest[j]).fully_defined()
}

proof fn lemma_crawl_members(rest: Seq<ChainPoint>, taken: nat, max: nat)
    ensures
        forall|i: int|
            0 <= i < crawl(rest, taken, max).len() ==> (#[trigger] crawl(rest, taken, max)[i]).fully_defined()
                && rest.contains(crawl(rest, taken, max)[i]),
    decreases rest.len(),
{
    if rest.len() > 0 {
        let tail = rest.drop_first();
        let c = crawl(rest, taken, max);
        if !rest[0].fully_defined() {
            lemma_crawl_members(tail, taken, max);
            assert(c == crawl(tail, taken, max));
            assert forall|i: int| 0 <= i < c.len() implies (#[trigger] c[i]).fully_defined()
                && rest.contains(c[i]) by {
                assert(c[i] == crawl(tail, taken, max)[i]);
                assert(tail.contains(c[i]));
                let j = choose|j: int| 0 <= j < tail.len() && tail[j] == c[i];
                assert(rest[j + 1] == c[i]);
            }
        } else if taken + 1 >= max {
            assert(rest[0] == c[0]);
        } else {
            let k = (two_to(taken + 1) - 1) as nat;
            let next = skip_upto(tail, k);
            lemma_crawl_members(next, taken + 1, max);
            assert forall|i: int| 0 <= i < c.len() implies (#[trigger] c[i]).fully_defined()
                && rest.contains(c[i]) by {
                if i > 0 {
                    let x = crawl(next, taken + 1, max)[i - 1];
                    assert(c[i] == x);
                    assert(next.contains(x));
                    let j = choose|j: int| 0 <= j < next.len() && next[j] == x;
                    assert(rest[1 + k + j] == x);
                } else {
                    assert(rest[0] == c[0]);
                }
            }
        }
    }
}

proof fn lemma_crawl_len(rest: Seq<ChainPoint>, taken: nat, max: nat)
    ensures
        crawl(rest, taken, max).len() <= if max > taken {
            max - taken
        } else {
            1
        },
    decreases rest.len(),
{
    if rest.len() > 0 {
        let tail = rest.drop_first();
        if !rest[0].fully_defined() {
            lemma_crawl_len(tail, taken, max);
        } else if taken + 1 < max {
            lemma_crawl_len(skip_upto(tail, (two_to(taken + 1) - 1) as nat), taken + 1, max);
        }
    }
}

proof fn lemma_crawl_first(rest: Seq<ChainPoint>, taken: nat, max: nat, k: int)
    requires
        first_defined_at(rest, k),
    ensures
        crawl(rest, taken, max).len() > 0,
        crawl(rest, taken, max)[0] == rest[k],
    decreases rest.len(),
{
    let tail = rest.drop_first();
    if k > 0 {
        assert(!rest[0].fully_defined());
        assert forall|j: int| 0 <= j < k - 1 implies !(#[trigger] tail[j]).fully_defined() by {
            assert(tail[j] == rest[j + 1]);
        }
        lemma_crawl_first(tail, taken, max, k - 1);
    }
}

/// Every point offered for an intersection is fully defined and is one the
/// wal holds; no more are offered than `max_items` (one when it is zero);
/// and when the wal holds any fully defined point, the first one offered is
/// the newest of them.
pub proof fn lemma_intersect_candidates(points: Seq<ChainPoint>, max_items: nat)
    ensures
        forall|i: int|
            0 <= i < crawl(points.reverse(), 0, max_items).len() ==> (#[trigger] crawl(
                points.reverse(),
                0,
                max_items,
            )[i]).fully_defined() && points.contains(crawl(points.reverse(), 0, max_items)[i]),
        crawl(points.reverse(), 0, max_items).len() <= if max_items > 0 {
            max_items
        } else {
            1
        },
        forall|k: int|
            first_defined_at(points.reverse(), k) ==> crawl(points.reverse(), 0, max_items)[0]
                == points[points.len() - 1 - k],
{
    let r = points.reverse();
    lemma_crawl_members(r, 0, max_items);
    lemma_crawl_len(r, 0, max_items);
    assert forall|k: int| first_defined_at(r, k) implies crawl(r, 0, max_items)[0] == points[points.len() - 1 - k] by {
        lemma_crawl_first(r, 0, max_items, k);
    }
    let c = crawl(r, 0, max_items);
    assert forall|i: int| 0 <= i < c.len() implies (#[trigger] c[i]).fully_defined()
        && points.contains(c[i]) by {
        assert(r.contains(c[i]));
        let j = choose|j: int| 0 <= j < r.len() && r[j] == c[i];
        assert(points[points.len() - 1 - j] == c[i]);
    }
}

/// A caller that names no point, or names the origin, has applied no
/// block, so every block is kept; and no block kept names the block the
/// caller named.
pub proof fn lemma_blocks_after(from: Option<ChainPoint>, s: Seq<(ChainPoint, RawBlock)>)
    ensures
        (from is None || from == Some(ChainPoint::Origin)) ==> kept_blocks(from, s) == s,
        forall|i: int|
            0 <= i < kept_blocks(from, s).len() ==> not_yet_applied(
                from,
                (#[trigger] kept_blocks(from, s)[i]).0,
            ),
        kept_blocks(from, s).len() <= s.len(),
    decreases s.len(),
{
    if s.len() > 0 {
        lemma_blocks_after(from, s.drop_last());
        let init = kept_blocks(from, s.drop_last());
        if not_yet_applied(from, s.last().0) {
            assert forall|i: int| 0 <= i < kept_blocks(from, s).len() implies not_yet_applied(
                from,
                (#[trigger] kept_blocks(from, s)[i]).0,
            ) by {
                if i < init.len() {
                    assert(kept_blocks(from, s)[i] == init[i]);
                }
            }
        }
        if from is None || from == Some(ChainPoint::Origin) {
            assert(s =~= s.drop_last().push(s.last()));
        }
    }
}


/// Why a write-ahead log cannot answer.
#[derive(Debug, Clone, Copy, PartialEq, Eq)]
pub enum WalError {
    /// The log holds no entry at the point.
    PointNotFound(ChainPoint),
}

/// Whether the log, by the points of its entries, holds an entry at a point.
pub fn contains_point(log: &Vec<ChainPoint>, point: &ChainPoint) -> (r: bool)
    ensures
        r == log@.contains(*point),
{
    let mut i: usize = 0;
    while i < log.len()
        invariant
            i <= log@.len(),
            forall|j: int| 0 <= j < i ==> log@[j] != *point,
        decreases log@.len() - i,
    {
        if log[i] == *point {
            return true;
        }
        i = i + 1;
    }
    false
}

/// That the log holds an entry at a point, or an error naming the point.
pub fn assert_point(log: &Vec<ChainPoint>, point: &ChainPoint) -> (r: Result<(), WalError>)
    ensures
        r is Ok <==> log@.contains(*point),
        r matches Err(e) ==> e == WalError::PointNotFound(*point),
{
    if !contains_point(log, point) {
        return Err(WalError::PointNotFound(*point));
    }
    Ok(())
}

/// The first of the candidates the log holds an entry at, if it holds any.
pub fn find_intersect(log: &Vec<ChainPoint>, intersect: &[ChainPoint]) -> (r: Option<ChainPoint>)
    ensures
        match r {
            Some(p) => exists|k: int|
                0 <= k < intersect@.len() && intersect@[k] == p && log@.contains(p) && forall|j: int|
                    0 <= j < k ==> !log@.contains(#[trigger] intersect@[j]),
            None => forall|j: int| 0 <= j < intersect@.len() ==> !log@.contains(#[trigger] intersect@[j]),
        },
{
    let mut i: usize = 0;
    while i < intersect.len()
        invariant
            i <= intersect@.len(),
            forall|j: int| 0 <= j < i ==> !log@.contains(#[trigger] intersect@[j]),
        decreases intersect@.len() - i,
    {
        if contains_point(log, &intersect[i]) {
            return Some(intersect[i]);
        }
        i = i + 1;
    }
    None
}

/// A caller resuming at a point is handed every logged block it has not
/// applied, in the log's order, and no other: the blocks kept are exactly
/// the log's blocks that do not name the resume point's block.
pub proof fn lemma_every_unapplied_block_is_kept(from: Option<ChainPoint>, s: Seq<(ChainPoint, RawBlock)>)
    ensures
        kept_blocks(from, s) == s.filter(|b: (ChainPoint, RawBlock)| not_yet_applied(from, b.0)),
    decreases s.len(),
{
    reveal_with_fuel(Seq::filter, 1);
    if s.len() > 0 {
        lemma_every_unapplied_block_is_kept(from, s.drop_last());
    }
}

/// A named block is the same block as itself and as a bare point at its
/// slot, and no other block at another slot or with another hash; the
/// origin names no block at all, so a caller resuming at it has applied
/// nothing.
pub proof fn lemma_which_points_name_one_block(s: u64, h: BlockHash, t: u64, k: BlockHash, p: ChainPoint)
    ensures
        same_block(ChainPoint::Specific(s, h), ChainPoint::Specific(s, h)),
        same_block(ChainPoint::Slot(s), ChainPoint::Specific(s, h)),
        same_block(ChainPoint::Specific(s, h), ChainPoint::Slot(s)),
        (s != t || h != k) ==> !same_block(ChainPoint::Specific(s, h), ChainPoint::Specific(t, k)),
        s != t ==> !same_block(ChainPoint::Slot(s), ChainPoint::Specific(t, k)),
        !same_block(ChainPoint::Origin, p),
        !same_block(p, ChainPoint::Origin),
        not_yet_applied(Some(ChainPoint::Origin), p),
        not_yet_applied(None, p),
{
}

} // verus!
