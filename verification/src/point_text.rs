use vstd::prelude::*;
use crate::point::{BlockHash, ChainPoint};
use crate::text::{
    digit_char, digit_value, digits_value, hex_char, hex_value, is_hex, is_whitespace, trim_start, trim_end, all_hex,
    all_ascii, all_digits, bracket_shape, decimal, decimal_text, digit_like, hex_bytes, hex_lower,
    hex_decode, hex_pairs, hex_text, is_digit, parse_slot, parse_u64, point_shape, same_text, shape_digits,
    shape_hash, split_point_text, trim, trim_text,
};

verus! {

/// How a point is written: `Origin`, a bare slot in decimal, or a slot in
/// decimal followed by its hash in lower-case hexadecimal within brackets.
pub open spec fn display(p: ChainPoint) -> Seq<char> {
    match p {
        ChainPoint::Origin => "Origin"@,
        ChainPoint::Slot(slot) => decimal(slot),
        ChainPoint::Specific(slot, hash) => decimal(slot) + seq!['('] + hex_lower(hash@) + seq![
            ')',
        ],
    }
}

/// Whether a text, once trimmed of surrounding whitespace, names the point
/// `p`: the word `Origin`; or a decimal slot followed by sixty-four
/// hexadecimal digits in brackets; or, failing that shape, a slot in the
/// form `str::parse::<u64>` reads.
pub open spec fn denotes(s: Seq<char>, p: ChainPoint) -> bool {
    let t = trim(s);
    if t == "Origin"@ {
        p == ChainPoint::Origin
    } else if point_shape(t) {
        p matches ChainPoint::Specific(slot, hash) && parse_u64(shape_digits(t)) == Some(slot)
            && hash@ == hex_pairs(shape_hash(t))
    } else {
        p matches ChainPoint::Slot(slot) && parse_u64(t) == Some(slot)
    }
}

/// Whether a text names any point.
pub open spec fn parses(s: Seq<char>) -> bool {
    let t = trim(s);
    if t == "Origin"@ {
        true
    } else if point_shape(t) {
        parse_u64(shape_digits(t)) is Some
    } else {
        parse_u64(t) is Some
    }
}

proof fn lemma_hex_pairs_len(s: Seq<char>)
    ensures
        hex_pairs(s).len() == s.len() / 2,
    decreases s.len(),
{
    if s.len() >= 2 {
        lemma_hex_pairs_len(s.subrange(2, s.len() as int));
    }
}

proof fn lemma_bracket_not_slot(t: Seq<char>)
    requires
        bracket_shape(t),
    ensures
        parse_u64(t) is None,
{
    let digits = if t.len() > 0 && t[0] == '+' {
        t.drop_first()
    } else {
        t
    };
    let k = t.len() - 66;
    if t[0] == '+' {
        assert(digits[k - 1] == t[k]);
        assert(!is_digit(digits[k - 1]));
    } else {
        assert(!is_digit(digits[k]));
    }
}

proof fn lemma_not_digits_not_slot(d: Seq<char>)
    requires
        digit_like(d),
        !all_digits(d),
    ensures
        parse_u64(d) is None,
{
    if d.len() > 0 && d[0] == '+' {
        assert(is_digit(d[0]) || (d[0] as u32) >= 128);
        assert(false);
    }
}

impl ChainPoint {
    /// The text a point is written as: `Origin`, the slot in decimal, or the
    /// slot followed by the hash in lower-case hexadecimal within brackets.
    pub fn to_string(&self) -> (s: String)
        ensures
            s@ == display(*self),
    {
        match self {
            ChainPoint::Origin => {
                let mut out = String::new();
                out.append("Origin");
                proof {
                    reveal_strlit("Origin");
                }
                assert(out@ =~= "Origin"@);
                out
            },
            ChainPoint::Slot(slot) => decimal_text(*slot),
            ChainPoint::Specific(slot, hash) => {
                let mut out = decimal_text(*slot);
                out.append("(");
                let hex = hex_text(hash);
                out.append(hex.as_str());
                out.append(")");
                proof {
                    reveal_strlit("(");
                    reveal_strlit(")");
                }
                assert(out@ =~= display(*self));
                out
            },
        }
    }

    /// Reads a point from text: `Origin`, a decimal slot followed by its
    /// sixty-four digit hexadecimal hash in brackets, or a bare slot, with
    /// surrounding whitespace ignored.
    pub fn from_str(s: &str) -> (r: Result<ChainPoint, String>)
        ensures
            r is Ok <==> parses(s@),
            r matches Ok(p) ==> denotes(s@, p),
            r matches Err(m) ==> m@ == "invalid slot"@ || m@ == "invalid format"@,
            point_shape(trim(s@)) ==> (r matches Err(m) ==> m@ == "invalid slot"@),
            !bracket_shape(trim(s@)) ==> (r matches Err(m) ==> m@ == "invalid format"@),
    {
        let t = trim_text(s);
        proof {
            reveal_strlit("Origin");
        }
        if same_text(t, "Origin") {
            return Ok(ChainPoint::Origin);
        }
        match split_point_text(t) {
            Some((digits, hex)) => {
                let slot = match parse_slot(digits.as_str()) {
                    Some(slot) => slot,
                    None => {
                        proof {
                            if !point_shape(t@) {
                                lemma_bracket_not_slot(t@);
                            }
                        }
                        return Err(String::from_str("invalid slot"));
                    },
                };
                proof {
                    if !point_shape(t@) {
                        lemma_not_digits_not_slot(digits@);
                    }
                    assert(all_ascii(hex@));
                }
                let bytes = match hex_bytes(hex.as_str()) {
                    Some(bytes) => bytes,
                    None => {
                        proof {
                            assert(hex_decode(hex@) is Some);
                        }
                        return Err(String::from_str("invalid hash"));
                    },
                };
                proof {
                    lemma_hex_pairs_len(hex@);
                }
                let mut hash: BlockHash = [0u8; 32];
                let mut i: usize = 0;
                while i < 32
                    invariant
                        i <= 32,
                        bytes@.len() == 32,
                        forall|j: int| 0 <= j < i ==> hash[j] == bytes@[j],
                    decreases 32 - i,
                {
                    hash[i] = bytes[i];
                    i = i + 1;
                }
                assert(hash@ =~= bytes@);
                Ok(ChainPoint::Specific(slot, hash))
            },
            None => match parse_slot(t) {
                Some(slot) => Ok(ChainPoint::Slot(slot)),
                None => Err(String::from_str("invalid format")),
            },
        }
    }
}

} // verus!

verus! {

broadcast use vstd::array::group_array_axioms;

proof fn lemma_digit_char(d: nat)
    requires
        d < 10,
    ensures
        is_digit(digit_char(d)),
        digit_value(digit_char(d)) == d,
        !is_whitespace(digit_char(d)),
        (digit_char(d) as u32) < 128,
{
    if d == 0 {
    } else if d == 1 {
    } else if d == 2 {
    } else if d == 3 {
    } else if d == 4 {
    } else if d == 5 {
    } else if d == 6 {
    } else if d == 7 {
    } else if d == 8 {
    } else {
    }
}

proof fn lemma_hex_char(d: nat)
    requires
        d < 16,
    ensures
        is_hex(hex_char(d)),
        hex_value(hex_char(d)) == d,
        (hex_char(d) as u32) < 128,
{
    if d == 0 {
    } else if d == 1 {
    } else if d == 2 {
    } else if d == 3 {
    } else if d == 4 {
    } else if d == 5 {
    } else if d == 6 {
    } else if d == 7 {
    } else if d == 8 {
    } else if d == 9 {
    } else if d == 10 {
    } else if d == 11 {
    } else if d == 12 {
    } else if d == 13 {
    } else if d == 14 {
    } else {
    }
}

/// The decimal text of a number is a non-empty run of ASCII digits that
/// spells the number.
pub proof fn lemma_decimal(n: u64)
    ensures
        decimal(n).len() >= 1,
        all_digits(decimal(n)),
        digits_value(decimal(n)) == n,
        all_ascii(decimal(n)),
        forall|i: int| 0 <= i < decimal(n).len() ==> !is_whitespace(#[trigger] decimal(n)[i]),
    decreases n,
{
    if n < 10 {
        lemma_digit_char(n as nat);
        let s = decimal(n);
        assert(s.drop_last() =~= Seq::<char>::empty());
        assert(digits_value(s.drop_last()) == 0);
    } else {
        lemma_decimal(n / 10);
        lemma_digit_char((n % 10) as nat);
        let s = decimal(n);
        assert(s.drop_last() =~= decimal(n / 10));
        assert(digits_value(s) == digits_value(decimal(n / 10)) * 10 + digit_value(s.last()));
        assert((n / 10) * 10 + n % 10 == n);
    }
}

/// `str::parse::<u64>` reads a number back from its decimal text.
pub proof fn lemma_parse_decimal(n: u64)
    ensures
        parse_u64(decimal(n)) == Some(n),
{
    lemma_decimal(n);
    assert(is_digit(decimal(n)[0]));
}

/// The lower-case hexadecimal text of some bytes holds two hexadecimal
/// digits per byte, and reading its digit pairs gives the bytes back.
pub proof fn lemma_hex_round_trip(b: Seq<u8>)
    ensures
        hex_lower(b).len() == 2 * b.len(),
        all_hex(hex_lower(b)),
        all_ascii(hex_lower(b)),
        hex_pairs(hex_lower(b)) == b,
    decreases b.len(),
{
    if b.len() > 0 {
        lemma_hex_round_trip(b.drop_first());
        let hi = (b[0] / 16) as nat;
        let lo = (b[0] % 16) as nat;
        lemma_hex_char(hi);
        lemma_hex_char(lo);
        let s = hex_lower(b);
        let rest = hex_lower(b.drop_first());
        assert(s.subrange(2, s.len() as int) =~= rest);
        assert(hi * 16 + lo == b[0]);
        assert(hex_pairs(s) =~= seq![b[0]] + b.drop_first());
        assert(b =~= seq![b[0]] + b.drop_first());
    } else {
        assert(hex_pairs(hex_lower(b)) =~= b);
    }
}

proof fn lemma_trim_keeps(s: Seq<char>)
    requires
        s.len() > 0,
        !is_whitespace(s[0]),
        !is_whitespace(s.last()),
    ensures
        trim(s) == s,
{
    assert(trim_start(s) == s);
}

proof fn lemma_origin_text()
    ensures
        "Origin"@.len() == 6,
        "Origin"@[0] == 'O',
        trim("Origin"@) == "Origin"@,
{
    reveal_strlit("Origin");
    lemma_trim_keeps("Origin"@);
}

/// Every point reads back from the text it is written as, and no other
/// point does: `from_str` applied to `to_string` gives the point back.
pub proof fn lemma_text_round_trip(p: ChainPoint)
    ensures
        parses(display(p)),
        denotes(display(p), p),
{
    lemma_origin_text();
    match p {
        ChainPoint::Origin => {},
        ChainPoint::Slot(slot) => {
            let t = decimal(slot);
            lemma_decimal(slot);
            lemma_parse_decimal(slot);
            lemma_trim_keeps(t);
            lemma_digit_char(0);
            assert(t != "Origin"@) by {
                assert(is_digit(t[0]));
            }
            assert(!point_shape(t)) by {
                assert(is_digit(t[t.len() - 1]));
            }
        },
        ChainPoint::Specific(slot, hash) => {
            let d = decimal(slot);
            let h = hex_lower(hash@);
            let t = display(p);
            lemma_decimal(slot);
            lemma_parse_decimal(slot);
            lemma_hex_round_trip(hash@);
            assert(t.len() == d.len() + 66);
            assert(t[0] == d[0]);
            lemma_trim_keeps(t);
            assert(t != "Origin"@) by {
                assert(is_digit(t[0]));
            }
            assert(shape_digits(t) =~= d);
            assert(shape_hash(t) =~= h);
            assert(t[t.len() - 66] == '(');
            assert(point_shape(t));
        },
    }
}

/// A text names at most one point.
pub proof fn lemma_denotes_one_point(s: Seq<char>, p: ChainPoint, q: ChainPoint)
    requires
        denotes(s, p),
        denotes(s, q),
    ensures
        p == q,
{
    if let (ChainPoint::Specific(_, a), ChainPoint::Specific(_, b)) = (p, q) {
        assert(a@ == b@);
        assert(a =~= b);
    }
}

proof fn lemma_trim_start_skips(l: Seq<char>, s: Seq<char>)
    requires
        forall|i: int| 0 <= i < l.len() ==> is_whitespace(#[trigger] l[i]),
        s.len() > 0,
        !is_whitespace(s[0]),
    ensures
        trim_start(l + s) == s,
    decreases l.len(),
{
    if l.len() == 0 {
        assert(l + s =~= s);
    } else {
        assert((l + s)[0] == l[0]);
        assert((l + s).drop_first() =~= l.drop_first() + s);
        lemma_trim_start_skips(l.drop_first(), s);
    }
}

proof fn lemma_trim_end_skips(s: Seq<char>, r: Seq<char>)
    requires
        forall|i: int| 0 <= i < r.len() ==> is_whitespace(#[trigger] r[i]),
        s.len() > 0,
        !is_whitespace(s.last()),
    ensures
        trim_end(s + r) == s,
    decreases r.len(),
{
    if r.len() == 0 {
        assert(s + r =~= s);
    } else {
        assert((s + r).last() == r[r.len() - 1]);
        assert((s + r).drop_last() =~= s + r.drop_last());
        lemma_trim_end_skips(s, r.drop_last());
    }
}

/// A point's text with any whitespace before and after it still reads back
/// as that point: `from_str` trims what surrounds the text.
pub proof fn lemma_padded_text_round_trip(p: ChainPoint, left: Seq<char>, right: Seq<char>)
    requires
        forall|i: int| 0 <= i < left.len() ==> is_whitespace(#[trigger] left[i]),
        forall|i: int| 0 <= i < right.len() ==> is_whitespace(#[trigger] right[i]),
    ensures
        parses(left + display(p) + right),
        denotes(left + display(p) + right, p),
{
    let d = display(p);
    lemma_text_round_trip(p);
    lemma_origin_text();
    match p {
        ChainPoint::Origin => {
            reveal_strlit("Origin");
            assert(d.last() == 'n');
        },
        ChainPoint::Slot(slot) => {
            lemma_decimal(slot);
            assert(!is_whitespace(d[d.len() - 1]));
        },
        ChainPoint::Specific(slot, hash) => {
            lemma_decimal(slot);
            assert(d[0] == decimal(slot)[0]);
            assert(d.last() == ')');
        },
    }
    assert(d.len() > 0 && !is_whitespace(d[0]) && !is_whitespace(d.last()));
    lemma_trim_keeps(d);
    lemma_trim_end_skips(d, right);
    assert((d + right)[0] == d[0]);
    lemma_trim_start_skips(left, d + right);
    assert(left + d + right =~= left + (d + right));
    assert(trim(left + d + right) == trim(d));
}

impl std::str::FromStr for ChainPoint {
    type Err = String;

    fn from_str(s: &str) -> (r: Result<ChainPoint, String>)
        ensures
            r is Ok <==> parses(s@),
            r matches Ok(p) ==> denotes(s@, p),
            r matches Err(m) ==> m@ == "invalid slot"@ || m@ == "invalid format"@,
            point_shape(trim(s@)) ==> (r matches Err(m) ==> m@ == "invalid slot"@),
            !bracket_shape(trim(s@)) ==> (r matches Err(m) ==> m@ == "invalid format"@),
    {
        ChainPoint::from_str(s)
    }
}

} // verus!
