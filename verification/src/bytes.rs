use vstd::prelude::*;
use crate::point::{BlockHash, ChainPoint};

verus! {

broadcast use vstd::array::group_array_axioms;

/// The lowest byte of a number.
pub open spec fn low_byte(x: u64) -> u8 {
    (x % 256) as u8
}

/// The last `n` bytes of a number written big-endian.
pub open spec fn be_bytes(x: u64, n: nat) -> Seq<u8>
    decreases n,
{
    if n == 0 {
        Seq::empty()
    } else {
        be_bytes(x / 256, (n - 1) as nat).push(low_byte(x))
    }
}

/// The number that a string of bytes spells big-endian.
pub open spec fn be_value(s: Seq<u8>) -> nat
    decreases s.len(),
{
    if s.len() == 0 {
        0
    } else {
        be_value(s.drop_last()) * 256 + s.last() as nat
    }
}

/// 256 to the power `n`.
pub open spec fn pow256(n: nat) -> nat
    decreases n,
{
    if n == 0 {
        1
    } else {
        256 * pow256((n - 1) as nat)
    }
}

proof fn lemma_pow256_facts(n: nat)
    requires
        n <= 8,
    ensures
        pow256(n) > 0,
        pow256(n) <= pow256(8),
        pow256(8) == 0x1_0000_0000_0000_0000,
        pow256(7) == 0x1_0000_0000_0000_00,
    decreases 8 - n,
{
    reveal_with_fuel(pow256, 9);
    if n < 8 {
        lemma_pow256_facts(n + 1);
    }
}

/// Thirty-two zero bytes.
pub open spec fn zero_bytes() -> Seq<u8> {
    Seq::new(32, |i: int| 0u8)
}

/// The forty bytes that stand for a point: its slot big-endian, then its
/// hash, or zero bytes where it has none.
pub open spec fn point_bytes(p: ChainPoint) -> Seq<u8> {
    be_bytes(p.slot_of(), 8) + match p.hash_of() {
        Some(h) => h@,
        None => zero_bytes(),
    }
}

/// Whether forty bytes are all zero, the bytes that stand for the origin.
pub open spec fn origin_bytes(b: Seq<u8>) -> bool {
    forall|i: int| 0 <= i < 40 ==> b[i] == 0
}

pub proof fn lemma_be_bytes_len(x: u64, n: nat)
    ensures
        be_bytes(x, n).len() == n,
    decreases n,
{
    if n > 0 {
        lemma_be_bytes_len(x / 256, (n - 1) as nat);
    }
}

proof fn lemma_low_byte(x: u64)
    ensures
        low_byte(x) == x % 256,
{
}

/// Reading back the last `n` bytes of a number gives the number modulo
/// `256^n`.
pub proof fn lemma_be_value_of_bytes(x: u64, n: nat)
    requires
        n <= 8,
    ensures
        be_value(be_bytes(x, n)) == (x as nat) % pow256(n),
    decreases n,
{
    lemma_pow256_facts(n);
    if n > 0 {
        lemma_be_value_of_bytes(x / 256, (n - 1) as nat);
        let s = be_bytes(x, n);
        assert(s.drop_last() =~= be_bytes(x / 256, (n - 1) as nat));
        lemma_low_byte(x);
        let p = pow256((n - 1) as nat);
        lemma_pow256_facts((n - 1) as nat);
        let xi = x as int;
        let pi = p as int;
        assert(((xi / 256) % pi) * 256 + xi % 256 == xi % (256 * pi)) by {
            vstd::arithmetic::div_mod::lemma_breakdown(xi, 256, pi);
        }
    }
}

/// Writing out the number that eight bytes spell gives the bytes back.
pub proof fn lemma_bytes_of_be_value(s: Seq<u8>, n: nat)
    requires
        s.len() == n,
        n <= 8,
    ensures
        be_value(s) < pow256(n),
        be_bytes(be_value(s) as u64, n) == s,
    decreases n,
{
    if n == 0 {
        assert(be_bytes(be_value(s) as u64, n) =~= s);
    } else {
        let init = s.drop_last();
        lemma_bytes_of_be_value(init, (n - 1) as nat);
        let p = pow256((n - 1) as nat);
        lemma_pow256_facts((n - 1) as nat);
        lemma_pow256_facts(n);
        let v = be_value(init);
        let last = s.last();
        assert(be_value(s) == v * 256 + last);
        assert(v * 256 + last < 256 * p) by (nonlinear_arith)
            requires
                v < p,
                last < 256,
        ;
        let w = be_value(s) as u64;
        assert(w / 256 == v) by (nonlinear_arith)
            requires
                w == v * 256 + last,
                last < 256,
        ;
        assert(w % 256 == last) by (nonlinear_arith)
            requires
                w == v * 256 + last,
                last < 256,
        ;
        lemma_low_byte(w);
        assert(be_bytes(w, n) =~= s);
    }
}

/// One less than a positive count.
pub open spec fn prev(n: nat) -> nat {
    (n - 1) as nat
}

/// A slot read as a natural number.
pub open spec fn as_nat(x: u64) -> nat {
    x as nat
}

/// The last `n` bytes of a number are its value modulo `256^n`, which splits
/// into the bytes before the last and the last one.
pub proof fn lemma_split_low_byte(x: u64, n: nat)
    requires
        1 <= n <= 8,
    ensures
        as_nat(x) % pow256(n) == (as_nat(x / 256) % pow256(prev(n))) * 256 + low_byte(
            x,
        ) as nat,
        as_nat(x) % pow256(8) == as_nat(x),
        as_nat(x) % pow256(0) == 0,
        pow256(n) == 256 * pow256((n - 1) as nat),
        as_nat(x) == x,
        low_byte(x) == x % 256,
{
    lemma_pow256_facts(n);
    lemma_pow256_facts((n - 1) as nat);
    lemma_low_byte(x);
    let xi = x as int;
    let pi = pow256((n - 1) as nat) as int;
    assert(((xi / 256) % pi) * 256 + xi % 256 == xi % (256 * pi)) by {
        vstd::arithmetic::div_mod::lemma_breakdown(xi, 256, pi);
    }
}

/// The forty bytes of a point hold its slot in their first eight and its
/// hash in the rest, and they are all zero exactly when the point stands at
/// slot zero with no hash or an all-zero one. With the contract of
/// `from_bytes` this gives back every point other than a bare slot and other
/// than slot zero with an all-zero hash.
pub proof fn lemma_point_bytes_read_back(p: ChainPoint)
    ensures
        point_bytes(p).len() == 40,
        point_bytes(p).subrange(0, 8) == be_bytes(p.slot_of(), 8),
        be_value(point_bytes(p).subrange(0, 8)) == p.slot_of(),
        p matches ChainPoint::Specific(_, h) ==> point_bytes(p).subrange(8, 40) == h@,
        origin_bytes(point_bytes(p)) <==> (p.slot_of() == 0 && match p {
            ChainPoint::Specific(_, h) => crate::point::zero_hash(h),
            _ => true,
        }),
{
    lemma_be_bytes_len(p.slot_of(), 8);
    let b = point_bytes(p);
    assert(b.subrange(0, 8) =~= be_bytes(p.slot_of(), 8));
    lemma_be_value_of_bytes(p.slot_of(), 8);
    lemma_pow256_facts(8);
    if let ChainPoint::Specific(_, h) = p {
        assert(b.subrange(8, 40) =~= h@);
    }
    if origin_bytes(b) {
        let z = be_bytes(p.slot_of(), 8);
        assert(forall|i: int| 0 <= i < 8 ==> z[i] == 0);
        lemma_zero_value(z, 8);
        if let ChainPoint::Specific(_, h) = p {
            assert forall|i: int| 0 <= i < 32 implies h[i] == 0 by {
                assert(b[8 + i] == h@[i]);
            }
        }
    }
    if p.slot_of() == 0 {
        lemma_bytes_of_zero(8);
        let tail = match p.hash_of() {
            Some(h) => h@,
            None => zero_bytes(),
        };
        if (match p {
            ChainPoint::Specific(_, h) => crate::point::zero_hash(h),
            _ => true,
        }) {
            assert forall|i: int| 0 <= i < 40 implies b[i] == 0 by {
                if i >= 8 {
                    assert(b[i] == tail[i - 8]);
                }
            }
        }
    }
}

proof fn lemma_zero_value(s: Seq<u8>, n: nat)
    requires
        s.len() == n,
        forall|i: int| 0 <= i < n ==> s[i] == 0,
    ensures
        be_value(s) == 0,
    decreases n,
{
    if n > 0 {
        lemma_zero_value(s.drop_last(), (n - 1) as nat);
    }
}

proof fn lemma_bytes_of_zero(n: nat)
    ensures
        forall|i: int| 0 <= i < n ==> #[trigger] be_bytes(0, n)[i] == 0,
        be_bytes(0, n).len() == n,
    decreases n,
{
    lemma_be_bytes_len(0, n);
    if n > 0 {
        lemma_bytes_of_zero((n - 1) as nat);
    }
}

/// Forty bytes that a point was read from come back from that point: the
/// bytes of the origin are all zero, and a named block gives back the slot
/// bytes and the hash it was read from.
pub proof fn lemma_bytes_written_back(b: Seq<u8>, p: ChainPoint)
    requires
        b.len() == 40,
        origin_bytes(b) ==> p == ChainPoint::Origin,
        !origin_bytes(b) ==> (p matches ChainPoint::Specific(slot, hash) && slot == be_value(
            b.subrange(0, 8),
        ) && hash@ == b.subrange(8, 40)),
    ensures
        point_bytes(p) == b,
{
    if origin_bytes(b) {
        lemma_bytes_of_zero(8);
        assert(point_bytes(p) =~= b);
    } else {
        lemma_bytes_of_be_value(b.subrange(0, 8), 8);
        assert(point_bytes(p) =~= b.subrange(0, 8) + b.subrange(8, 40));
        assert(point_bytes(p) =~= b);
    }
}

/// Whether every byte of a forty-byte array is zero.
fn all_zero(b: &[u8; 40]) -> (r: bool)
    ensures
        r == origin_bytes(b@),
{
    let mut i: usize = 0;
    while i < 40
        invariant
            i <= 40,
            forall|j: int| 0 <= j < i ==> b[j] == 0,
        decreases 40 - i,
    {
        if b[i] != 0 {
            return false;
        }
        i = i + 1;
    }
    true
}

impl ChainPoint {
    /// The forty bytes that stand for this point: its slot big-endian, then
    /// its hash, or zero bytes where it carries none.
    pub fn into_bytes(self) -> (out: [u8; 40])
        ensures
            out@ == point_bytes(self),
    {
        let slot = self.slot();
        let hash: BlockHash = match self.hash() {
            Some(hash) => hash,
            None => [0u8; 32],
        };
        let mut out = [0u8; 40];
        let mut cur: u64 = slot;
        let mut k: usize = 0;
        proof {
            lemma_be_bytes_len(slot, 8);
        }
        while k < 8
            invariant
                k <= 8,
                out@.len() == 40,
                be_bytes(slot, 8) == be_bytes(cur, (8 - k) as nat) + out@.subrange(
                    8 - k as int,
                    8,
                ),
            decreases 8 - k,
        {
            let pos: usize = 7 - k;
            let ghost before = out@;
            out[pos] = (cur % 256) as u8;
            proof {
                assert(be_bytes(cur, (8 - k) as nat) == be_bytes(cur / 256, (7 - k) as nat).push(
                    low_byte(cur),
                ));
                assert(out@.subrange(pos as int, 8) =~= seq![low_byte(cur)] + before.subrange(
                    8 - k as int,
                    8,
                ));
            }
            cur = cur / 256;
            k = k + 1;
        }
        assert(be_bytes(cur, 0) =~= Seq::<u8>::empty());
        let mut j: usize = 0;
        while j < 32
            invariant
                j <= 32,
                out@.len() == 40,
                out@.subrange(0, 8) == be_bytes(slot, 8),
                forall|i: int| 0 <= i < j ==> out[8 + i] == hash[i],
            decreases 32 - j,
        {
            let ghost before = out@;
            out[8 + j] = hash[j];
            assert(out@.subrange(0, 8) =~= before.subrange(0, 8));
            j = j + 1;
        }
        let ghost tail = match self.hash_of() {
            Some(h) => h@,
            None => zero_bytes(),
        };
        assert(hash@ =~= tail);
        assert(out@ =~= point_bytes(self));
        out
    }

    /// The point that forty bytes stand for: the origin when every byte is
    /// zero, otherwise the block at the slot the first eight bytes spell
    /// big-endian, named by the last thirty-two.
    pub fn from_bytes(value: [u8; 40]) -> (p: ChainPoint)
        ensures
            reads_back(value@, p),
    {
        if all_zero(&value) {
            return ChainPoint::Origin;
        }
        let mut slot: u64 = 0;
        let mut i: usize = 0;
        while i < 8
            invariant
                i <= 8,
                value@.len() == 40,
                slot == be_value(value@.subrange(0, i as int)),
                be_value(value@.subrange(0, i as int)) < pow256(i as nat),
            decreases 8 - i,
        {
            proof {
                lemma_bytes_of_be_value(value@.subrange(0, i + 1), (i + 1) as nat);
                assert(value@.subrange(0, i + 1).drop_last() =~= value@.subrange(0, i as int));
                lemma_pow256_facts((i + 1) as nat);
            }
            slot = slot * 256 + value[i] as u64;
            i = i + 1;
        }
        let mut hash = [0u8; 32];
        let mut j: usize = 0;
        while j < 32
            invariant
                j <= 32,
                value@.len() == 40,
                forall|k: int| 0 <= k < j ==> hash[k] == value[8 + k],
            decreases 32 - j,
        {
            hash[j] = value[8 + j];
            j = j + 1;
        }
        assert(hash@ =~= value@.subrange(8, 40));
        ChainPoint::Specific(slot, hash)
    }
}


/// Whether forty bytes stand for a point: the origin when every byte is
/// zero, otherwise the block at the slot the first eight bytes spell
/// big-endian, named by the last thirty-two.
pub open spec fn reads_back(b: Seq<u8>, p: ChainPoint) -> bool {
    &&& origin_bytes(b) ==> p == ChainPoint::Origin
    &&& !origin_bytes(b) ==> (p matches ChainPoint::Specific(slot, hash) && slot == be_value(
        b.subrange(0, 8),
    ) && hash@ == b.subrange(8, 40))
}

/// The origin and every block but the one at slot zero with the zero hash
/// read back from their bytes as themselves.
pub proof fn lemma_bytes_round_trip(p: ChainPoint, q: ChainPoint)
    requires
        p is Origin || (p matches ChainPoint::Specific(slot, hash) && !(slot == 0
            && crate::point::zero_hash(hash))),
        reads_back(point_bytes(p), q),
    ensures
        q == p,
{
    lemma_point_bytes_read_back(p);
    if let ChainPoint::Specific(slot, hash) = p {
        if let ChainPoint::Specific(qs, qh) = q {
            assert(qh@ =~= hash@);
            assert(qh == hash);
        }
    }
}

} // verus!
