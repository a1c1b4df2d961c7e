//! Text handling shared by the parsers: trimming and unsigned decimal numbers.

use vstd::prelude::*;
use vstd::string::*;

verus! {

/// Whether `c` is whitespace in the sense of `char::is_whitespace`, that is,
/// whether it has the Unicode property `White_Space`.
pub uninterp spec fn is_whitespace(c: char) -> bool;

/// `s` without its leading whitespace.
pub open spec fn trimmed_start(s: Seq<char>) -> Seq<char>
    decreases s.len(),
{
    if s.len() > 0 && is_whitespace(s.first()) {
        trimmed_start(s.drop_first())
    } else {
        s
    }
}

/// `s` without its trailing whitespace.
pub open spec fn trimmed_end(s: Seq<char>) -> Seq<char>
    decreases s.len(),
{
    if s.len() > 0 && is_whitespace(s.last()) {
        trimmed_end(s.drop_last())
    } else {
        s
    }
}

/// `s` without its leading and trailing whitespace.
pub open spec fn trimmed(s: Seq<char>) -> Seq<char> {
    trimmed_end(trimmed_start(s))
}

/// What is left of a text without its leading whitespace does not start
/// with whitespace.
proof fn lemma_trimmed_start(s: Seq<char>)
    ensures
        trimmed_start(s).len() > 0 ==> !is_whitespace(trimmed_start(s).first()),
    decreases s.len(),
{
    if s.len() > 0 && is_whitespace(s.first()) {
        lemma_trimmed_start(s.drop_first());
    }
}

/// What is left of a text without its trailing whitespace does not end
/// with whitespace, and starts as the text does.
proof fn lemma_trimmed_end(s: Seq<char>)
    ensures
        trimmed_end(s).len() > 0 ==> !is_whitespace(trimmed_end(s).last()) && trimmed_end(
            s,
        ).first() == s.first(),
    decreases s.len(),
{
    if s.len() > 0 && is_whitespace(s.last()) {
        lemma_trimmed_end(s.drop_last());
    }
}

/// Trimming a trimmed text changes nothing.
pub proof fn lemma_trimmed_twice(s: Seq<char>)
    ensures
        trimmed(trimmed(s)) == trimmed(s),
{
    lemma_trimmed_start(s);
    lemma_trimmed_end(trimmed_start(s));
}

/// `str::trim`.  The contract restates its documentation: the result is the
/// input with leading and trailing whitespace removed, so that it neither
/// starts nor ends with whitespace, where whitespace is what
/// `char::is_whitespace` accepts.  Not proved.
#[verifier::external_body]
pub(crate) fn trim(s: &str) -> (r: &str)
    ensures
        r@ == trimmed(s@),
        r@.len() > 0 ==> !is_whitespace(r@.first()) && !is_whitespace(r@.last()),
{
    s.trim()
}

/// Whether `a` comes before `b`, or is the same, in the order of `str`:
/// character by character, by code point, a text before its extensions.
pub open spec fn text_le(a: Seq<char>, b: Seq<char>) -> bool
    decreases a.len(),
{
    if a.len() == 0 {
        true
    } else if b.len() == 0 {
        false
    } else if a.first() != b.first() {
        a.first() < b.first()
    } else {
        text_le(a.drop_first(), b.drop_first())
    }
}

/// The mathematical values of a run of strings.
pub open spec fn texts(strings: Seq<String>) -> Seq<Seq<char>> {
    strings.map_values(|s: String| s@)
}

/// `<[String]>::sort`.  The contract restates its documentation: the same
/// strings, each as often as before, in ascending order, where strings are
/// ordered as their documentation says, lexicographically by code point.
/// Not proved.
#[verifier::external_body]
pub(crate) fn sort_strings(strings: &mut Vec<String>)
    ensures
        texts(final(strings)@).to_multiset() == texts(old(strings)@).to_multiset(),
        forall|i: int, j: int|
            0 <= i < j < final(strings)@.len() ==> text_le(
                #[trigger] final(strings)@[i]@,
                #[trigger] final(strings)@[j]@,
            ),
{
    strings.sort()
}

/// Whether two texts are the same, character by character.
pub fn same_text(a: &str, b: &str) -> (r: bool)
    ensures
        r == (a@ == b@),
{
    let x = a.as_bytes();
    let y = b.as_bytes();
    proof {
        vstd::utf8::encode_utf8_decode_utf8(a@);
        vstd::utf8::encode_utf8_decode_utf8(b@);
    }
    if x.len() != y.len() {
        return false;
    }
    let mut i: usize = 0;
    while i < x.len()
        invariant
            x.len() == y.len(),
            forall|j: int| 0 <= j < i ==> x@[j] == y@[j],
            a@ == b@ ==> x@ == y@,
        decreases x.len() - i,
    {
        if x[i] != y[i] {
            return false;
        }
        i = i + 1;
    }
    assert(x@ =~= y@);
    true
}

/// Whether `c` is one of the ten decimal digits.
pub open spec fn is_digit(c: char) -> bool {
    '0' <= c && c <= '9'
}

/// The number a decimal digit stands for.
pub open spec fn digit_value(c: char) -> nat {
    (c as int - '0' as int) as nat
}

/// The number that a sequence of decimal digits denotes, most significant
/// digit first.
pub open spec fn decimal_value(digits: Seq<char>) -> nat
    decreases digits.len(),
{
    if digits.len() == 0 {
        0
    } else {
        10 * decimal_value(digits.drop_last()) + digit_value(digits.last())
    }
}

/// Whether every element of `digits` is a decimal digit.
pub open spec fn all_digits(digits: Seq<char>) -> bool {
    forall|i: int| 0 <= i < digits.len() ==> is_digit(#[trigger] digits[i])
}

/// The digits of a number written as an optional `+` followed by digits.
pub open spec fn digits_of(s: Seq<char>) -> Seq<char> {
    if s.len() > 0 && s.first() == '+' {
        s.drop_first()
    } else {
        s
    }
}

/// The non-negative integer that `s` denotes: an optional `+`, then one or
/// more decimal digits and nothing else.  Any other text denotes no number.
pub open spec fn unsigned_decimal(s: Seq<char>) -> Option<nat> {
    let digits = digits_of(s);
    if digits.len() > 0 && all_digits(digits) {
        Some(decimal_value(digits))
    } else {
        None
    }
}

/// `unsigned_decimal`, limited to what fits in 64 bits.
pub open spec fn decimal_u64(s: Seq<char>) -> Option<u64> {
    match unsigned_decimal(s) {
        Some(v) => if v <= u64::MAX {
            Some(v as u64)
        } else {
            None
        },
        None => None,
    }
}

/// `unsigned_decimal`, limited to what fits in a `usize`.
pub open spec fn decimal_usize(s: Seq<char>) -> Option<usize> {
    match unsigned_decimal(s) {
        Some(v) => if v <= usize::MAX {
            Some(v as usize)
        } else {
            None
        },
        None => None,
    }
}

/// A number never gets smaller when more digits follow.
pub proof fn lemma_decimal_value_prefix(digits: Seq<char>, k: int)
    requires
        0 <= k <= digits.len(),
    ensures
        decimal_value(digits.subrange(0, k)) <= decimal_value(digits),
    decreases digits.len() - k,
{
    if k == digits.len() {
        assert(digits.subrange(0, k) =~= digits);
    } else {
        lemma_decimal_value_prefix(digits.drop_last(), k);
        assert(digits.drop_last().subrange(0, k) =~= digits.subrange(0, k));
    }
}

/// Text with a character outside ASCII denotes no number.
proof fn lemma_not_ascii_not_decimal(s: Seq<char>)
    requires
        !vstd::utf8::is_ascii_chars(s),
    ensures
        unsigned_decimal(s) is None,
{
    let i = choose|i: int| 0 <= i < s.len() && !('\0' <= #[trigger] s[i] <= '\u{7f}');
    if digits_of(s).len() < s.len() {
        assert(digits_of(s)[i - 1] == s[i]);
    }
}

/// Reads a non-negative decimal number of at most 64 bits.
pub fn parse_u64(s: &str) -> (r: Option<u64>)
    ensures
        r == decimal_u64(s@),
{
    if !s.is_ascii() {
        proof {
            lemma_not_ascii_not_decimal(s@);
        }
        return None;
    }
    let bytes = s.as_bytes();
    let n = bytes.len();
    let ghost digits = digits_of(s@);
    let mut start: usize = 0;
    if n > 0 && bytes[0] == 43u8 {
        start = 1;
    }
    if start == n {
        return None;
    }
    let mut i: usize = start;
    let mut acc: u64 = 0;
    while i < n
        invariant
            start <= i <= n,
            n == s@.len(),
            n == bytes@.len(),
            forall|j: int| 0 <= j < n ==> bytes@[j] == (#[trigger] s@[j]) as u8,
            forall|j: int| 0 <= j < n ==> '\0' <= (#[trigger] s@[j]) <= '\u{7f}',
            digits == digits_of(s@),
            digits == s@.subrange(start as int, n as int),
            all_digits(digits.subrange(0, i - start)),
            acc == decimal_value(digits.subrange(0, i - start)),
        decreases n - i,
    {
        let b = bytes[i];
        let ghost seen = digits.subrange(0, i - start);
        let ghost next = digits.subrange(0, i - start + 1);
        assert(digits[i - start] == s@[i as int]);
        assert(next.drop_last() =~= seen);
        if b < 48u8 || b > 57u8 {
            return None;
        }
        let d: u64 = (b - 48u8) as u64;
        proof {
            lemma_decimal_value_prefix(digits, i - start + 1);
        }
        let tens = match acc.checked_mul(10) {
            Some(t) => t,
            None => {
                return None;
            },
        };
        let sum = match tens.checked_add(d) {
            Some(t) => t,
            None => {
                return None;
            },
        };
        acc = sum;
        i = i + 1;
    }
    assert(digits.subrange(0, n - start) =~= digits);
    Some(acc)
}

/// Reads a non-negative decimal number that fits in a `usize`.
pub fn parse_usize(s: &str) -> (r: Option<usize>)
    ensures
        r == decimal_usize(s@),
{
    match parse_u64(s) {
        Some(v) => {
            if v <= usize::MAX as u64 {
                Some(v as usize)
            } else {
                None
            }
        },
        None => None,
    }
}

} // verus!
