use vstd::prelude::*;

verus! {

/// What is left of a sequence after its first `i` elements.
pub open spec fn after<T>(s: Seq<T>, i: usize) -> Seq<T> {
    s.skip(i as int)
}

} // verus!

verus! {

/// The first `n` elements of a sequence.
pub open spec fn first_n<T>(s: Seq<T>, n: int) -> Seq<T> {
    s.take(n as int)
}

} // verus!
