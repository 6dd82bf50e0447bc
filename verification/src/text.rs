use vstd::prelude::*;
use regex::Regex;

verus! {

/// Whether a character is one of the ten ASCII digits.
pub open spec fn is_digit(c: char) -> bool {
    '0' <= c && c <= '9'
}

/// The value of an ASCII digit.
pub open spec fn digit_value(c: char) -> nat {
    (c as u32 - '0' as u32) as nat
}

/// The ASCII digit of a value below ten.
pub open spec fn digit_char(d: nat) -> char {
    seq!['0', '1', '2', '3', '4', '5', '6', '7', '8', '9'][d as int]
}

/// Whether every character of a text is an ASCII digit.
pub open spec fn all_digits(s: Seq<char>) -> bool {
    forall|i: int| 0 <= i < s.len() ==> is_digit(#[trigger] s[i])
}

/// The number that a text of ASCII digits spells in decimal.
pub open spec fn digits_value(s: Seq<char>) -> nat
    decreases s.len(),
{
    if s.len() == 0 {
        0
    } else {
        digits_value(s.drop_last()) * 10 + digit_value(s.last())
    }
}

/// A number written in decimal with no leading zeros.
pub open spec fn decimal(n: u64) -> Seq<char>
    decreases n,
{
    if n < 10 {
        seq![digit_char(n as nat)]
    } else {
        decimal(n / 10).push(digit_char((n % 10) as nat))
    }
}

/// What `str::parse::<u64>` reads from a text: an optional `+` and then one
/// or more ASCII digits whose value fits in 64 bits.
pub open spec fn parse_u64(s: Seq<char>) -> Option<u64> {
    let digits = if s.len() > 0 && s[0] == '+' {
        s.drop_first()
    } else {
        s
    };
    if digits.len() > 0 && all_digits(digits) && digits_value(digits) <= u64::MAX {
        Some(digits_value(digits) as u64)
    } else {
        None
    }
}

/// Whether a character is a hexadecimal digit of either case.
pub open spec fn is_hex(c: char) -> bool {
    ('0' <= c && c <= '9') || ('a' <= c && c <= 'f') || ('A' <= c && c <= 'F')
}

/// The value of a hexadecimal digit.
pub open spec fn hex_value(c: char) -> nat {
    if '0' <= c && c <= '9' {
        (c as u32 - '0' as u32) as nat
    } else if 'a' <= c && c <= 'f' {
        (c as u32 - 'a' as u32 + 10) as nat
    } else {
        (c as u32 - 'A' as u32 + 10) as nat
    }
}

/// The lower-case hexadecimal digit of a value below sixteen.
pub open spec fn hex_char(d: nat) -> char {
    seq!['0', '1', '2', '3', '4', '5', '6', '7', '8', '9', 'a', 'b', 'c', 'd', 'e', 'f'][d as int]
}

/// Bytes written in lower-case hexadecimal, two digits each, high first.
pub open spec fn hex_lower(b: Seq<u8>) -> Seq<char>
    decreases b.len(),
{
    if b.len() == 0 {
        Seq::empty()
    } else {
        seq![hex_char((b[0] / 16) as nat), hex_char((b[0] % 16) as nat)] + hex_lower(
            b.drop_first(),
        )
    }
}

/// The bytes that pairs of hexadecimal digits spell, high digit first.
pub open spec fn hex_pairs(s: Seq<char>) -> Seq<u8>
    decreases s.len(),
{
    if s.len() < 2 {
        Seq::empty()
    } else {
        seq![(hex_value(s[0]) * 16 + hex_value(s[1])) as u8] + hex_pairs(s.subrange(2, s.len() as int))
    }
}

/// Whether every character of a text is a hexadecimal digit.
pub open spec fn all_hex(s: Seq<char>) -> bool {
    forall|i: int| 0 <= i < s.len() ==> is_hex(#[trigger] s[i])
}

/// What `hex::decode` reads from a text: the bytes its digit pairs spell,
/// if it has an even number of characters and all of them are hexadecimal
/// digits.
pub open spec fn hex_decode(s: Seq<char>) -> Option<Seq<u8>> {
    if s.len() % 2 == 0 && all_hex(s) {
        Some(hex_pairs(s))
    } else {
        None
    }
}

/// Whether every character of a text is ASCII.
pub open spec fn all_ascii(s: Seq<char>) -> bool {
    forall|i: int| 0 <= i < s.len() ==> '\0' <= #[trigger] s[i] <= '\u{7f}'
}

/// Whether a character has the Unicode `White_Space` property, which is what
/// `char::is_whitespace` and `str::trim` test.
pub open spec fn is_whitespace(c: char) -> bool {
    let u = c as u32;
    (0x9 <= u && u <= 0xd) || u == 0x20 || u == 0x85 || u == 0xa0 || u == 0x1680 || (0x2000 <= u
        && u <= 0x200a) || u == 0x2028 || u == 0x2029 || u == 0x202f || u == 0x205f || u == 0x3000
}

/// A text without its leading whitespace.
pub open spec fn trim_start(s: Seq<char>) -> Seq<char>
    decreases s.len(),
{
    if s.len() > 0 && is_whitespace(s[0]) {
        trim_start(s.drop_first())
    } else {
        s
    }
}

/// A text without its trailing whitespace.
pub open spec fn trim_end(s: Seq<char>) -> Seq<char>
    decreases s.len(),
{
    if s.len() > 0 && is_whitespace(s.last()) {
        trim_end(s.drop_last())
    } else {
        s
    }
}

/// A text without its leading and trailing whitespace.
pub open spec fn trim(s: Seq<char>) -> Seq<char> {
    trim_end(trim_start(s))
}

/// The slot digits of a text shaped `digits(hash)`.
pub open spec fn shape_digits(t: Seq<char>) -> Seq<char> {
    t.subrange(0, t.len() - 66)
}

/// The hash digits of a text shaped `digits(hash)`.
pub open spec fn shape_hash(t: Seq<char>) -> Seq<char> {
    t.subrange(t.len() - 65, t.len() - 1)
}

/// Whether a text is shaped `slot(hash)`: something before an opening
/// bracket, sixty-four hexadecimal digits and a closing bracket at the end.
pub open spec fn bracket_shape(t: Seq<char>) -> bool {
    &&& t.len() >= 67
    &&& t[t.len() - 66] == '('
    &&& t[t.len() - 1] == ')'
    &&& all_hex(shape_hash(t))
}

/// Whether a text is ASCII digits, then sixty-four hexadecimal digits in
/// brackets.
pub open spec fn point_shape(t: Seq<char>) -> bool {
    bracket_shape(t) && all_digits(shape_digits(t))
}

/// The decimal digits `str::parse` and the pattern below accept, read
/// loosely: the ASCII digits and any character outside ASCII, among which
/// the other Unicode decimal digits lie.
pub open spec fn digit_like(s: Seq<char>) -> bool {
    forall|i: int| 0 <= i < s.len() ==> is_digit(#[trigger] s[i]) || (s[i] as u32) >= 128
}

/// The decimal digits of a number, as `u64::to_string` writes them.
pub(crate) fn decimal_text(n: u64) -> (s: String)
    ensures
        s@ == decimal(n),
    decreases n,
{
    let digits = "0123456789";
    proof {
        reveal_strlit("0123456789");
        assert(digits@ =~= seq!['0', '1', '2', '3', '4', '5', '6', '7', '8', '9']);
    }
    if n < 10 {
        let d: usize = n as usize;
        let s = String::from_str(digits.substring_char(d, d + 1));
        assert(s@ =~= decimal(n));
        s
    } else {
        let d: usize = (n % 10) as usize;
        let mut s = decimal_text(n / 10);
        s.append(digits.substring_char(d, d + 1));
        assert(s@ =~= decimal(n));
        s
    }
}

/// `hex::encode`: the lower-case hexadecimal text of a hash.
#[verifier::external_body]
pub(crate) fn hex_text(bytes: &[u8; 32]) -> (s: String)
    ensures
        s@ == hex_lower(bytes@),
{
    hex::encode(bytes)
}

/// `hex::decode`, with its error read as `None`. `hex::decode` works on the
/// UTF-8 bytes of the text, which are its characters when the text is
/// ASCII; for any other text the result is left unsaid here.
#[verifier::external_body]
pub(crate) fn hex_bytes(text: &str) -> (r: Option<Vec<u8>>)
    ensures
        all_ascii(text@) ==> match r {
            Some(v) => hex_decode(text@) == Some(v@),
            None => hex_decode(text@) is None,
        },
{
    hex::decode(text).ok()
}

proof fn lemma_digits_prefix(s: Seq<char>, k: int)
    requires
        all_digits(s),
        0 <= k <= s.len(),
    ensures
        digits_value(s.subrange(0, k)) <= digits_value(s),
    decreases s.len(),
{
    if k < s.len() {
        lemma_digits_prefix(s.drop_last(), k);
        assert(s.drop_last().subrange(0, k) =~= s.subrange(0, k));
    } else {
        assert(s.subrange(0, k) =~= s);
    }
}

/// A number read from its decimal digits the way `str::parse::<u64>` reads
/// it: an optional `+`, then one or more ASCII digits whose value fits in
/// 64 bits; anything else is `None`.
pub(crate) fn parse_slot(text: &str) -> (r: Option<u64>)
    ensures
        r == parse_u64(text@),
{
    let n = text.unicode_len();
    let start: usize = if n > 0 && text.get_char(0) == '+' {
        1
    } else {
        0
    };
    let ghost digits = text@.subrange(start as int, n as int);
    assert(digits =~= (if text@.len() > 0 && text@[0] == '+' {
        text@.drop_first()
    } else {
        text@
    }));
    if start == n {
        return None;
    }
    let mut value: u64 = 0;
    let mut i: usize = start;
    while i < n
        invariant
            start <= i <= n,
            n == text@.len(),
            digits == text@.subrange(start as int, n as int),
            digits == (if text@.len() > 0 && text@[0] == '+' {
                text@.drop_first()
            } else {
                text@
            }),
            all_digits(text@.subrange(start as int, i as int)),
            value == digits_value(text@.subrange(start as int, i as int)),
        decreases n - i,
    {
        let c = text.get_char(i);
        if !('0' <= c && c <= '9') {
            assert(digits[i - start] == c);
            return None;
        }
        let d: u64 = (c as u32 - 48) as u64;
        let ghost before = text@.subrange(start as int, i as int);
        let ghost after = text@.subrange(start as int, i + 1);
        assert(after.drop_last() =~= before);
        assert(digits_value(after) == value * 10 + d);
        if value > (u64::MAX - d) / 10 {
            assert(value * 10 + d > u64::MAX) by (nonlinear_arith)
                requires
                    value > (u64::MAX - d) / 10,
                    d < 10,
            ;
            proof {
                if all_digits(digits) {
                    let k: int = i + 1 - start;
                    assert(digits.subrange(0, k) =~= after);
                    lemma_digits_prefix(digits, k);
                }
            }
            return None;
        }
        assert(value * 10 + d <= u64::MAX) by (nonlinear_arith)
            requires
                value <= (u64::MAX - d) / 10,
                d < 10,
        ;
        value = value * 10 + d;
        i = i + 1;
    }
    Some(value)
}

/// Whether a character is whitespace, as `char::is_whitespace` decides.
fn white_char(c: char) -> (r: bool)
    ensures
        r == is_whitespace(c),
{
    let u = c as u32;
    (0x9 <= u && u <= 0xd) || u == 0x20 || u == 0x85 || u == 0xa0 || u == 0x1680 || (0x2000 <= u
        && u <= 0x200a) || u == 0x2028 || u == 0x2029 || u == 0x202f || u == 0x205f || u == 0x3000
}

/// The text without leading and trailing whitespace, as `str::trim` gives
/// it.
pub(crate) fn trim_text(s: &str) -> (r: &str)
    ensures
        r@ == trim(s@),
{
    let n = s.unicode_len();
    let mut start: usize = 0;
    assert(s@.subrange(0, n as int) =~= s@);
    while start < n && white_char(s.get_char(start))
        invariant
            start <= n,
            n == s@.len(),
            trim_start(s@) == trim_start(s@.subrange(start as int, n as int)),
        decreases n - start,
    {
        assert(s@.subrange(start as int, n as int).drop_first() =~= s@.subrange(
            start + 1,
            n as int,
        ));
        start = start + 1;
    }
    let mut end: usize = n;
    while end > start && white_char(s.get_char(end - 1))
        invariant
            start <= end <= n,
            n == s@.len(),
            trim_start(s@) == s@.subrange(start as int, n as int),
            trim_end(s@.subrange(start as int, n as int)) == trim_end(
                s@.subrange(start as int, end as int),
            ),
        decreases end - start,
    {
        assert(s@.subrange(start as int, end as int).drop_last() =~= s@.subrange(
            start as int,
            end - 1,
        ));
        end = end - 1;
    }
    s.substring_char(start, end)
}

/// Whether two texts hold the same characters.
pub(crate) fn same_text(a: &str, b: &str) -> (r: bool)
    ensures
        r == (a@ == b@),
{
    let n = a.unicode_len();
    if n != b.unicode_len() {
        return false;
    }
    let mut i: usize = 0;
    while i < n
        invariant
            i <= n,
            n == a@.len(),
            n == b@.len(),
            forall|j: int| 0 <= j < i ==> a@[j] == b@[j],
        decreases n - i,
    {
        if a.get_char(i) != b.get_char(i) {
            return false;
        }
        i = i + 1;
    }
    assert(a@ =~= b@);
    true
}

/// `Regex::captures` with the pattern `^(\d+)\(([0-9a-fA-F]{64})\)$`,
/// handing back the two captured groups. A text of ASCII digits followed by
/// sixty-four hexadecimal digits in brackets always matches, and a match
/// always has that shape, with the slot group made of characters the
/// pattern's `\d` reads as digits; which non-ASCII digits those are is left
/// unsaid here.
#[verifier::external_body]
pub(crate) fn split_point_text(s: &str) -> (r: Option<(String, String)>)
    ensures
        point_shape(s@) ==> r is Some,
        r matches Some((d, h)) ==> bracket_shape(s@) && d@ == shape_digits(s@) && h@
            == shape_hash(s@) && digit_like(d@),
{
    let re = Regex::new(r"^(\d+)\(([0-9a-fA-F]{64})\)$").unwrap();
    re.captures(s).map(|caps| (caps[1].to_string(), caps[2].to_string()))
}

} // verus!
