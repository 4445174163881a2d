//! Reading one line of input: trimming white space and reading a decimal
//! number.

use vstd::prelude::*;

verus! {

/// White space: the characters that Unicode gives the property
/// `White_Space`.
pub open spec fn is_whitespace(c: char) -> bool {
    let u = c as u32;
    ||| 0x09 <= u <= 0x0D
    ||| u == 0x20
    ||| u == 0x85
    ||| u == 0xA0
    ||| u == 0x1680
    ||| 0x2000 <= u <= 0x200A
    ||| u == 0x2028
    ||| u == 0x2029
    ||| u == 0x202F
    ||| u == 0x205F
    ||| u == 0x3000
}

/// `s` without the white space it begins with.
pub open spec fn trim_start(s: Seq<char>) -> Seq<char>
    decreases s.len(),
{
    if s.len() > 0 && is_whitespace(s.first()) {
        trim_start(s.drop_first())
    } else {
        s
    }
}

/// `s` without the white space it ends with.
pub open spec fn trim_end(s: Seq<char>) -> Seq<char>
    decreases s.len(),
{
    if s.len() > 0 && is_whitespace(s.last()) {
        trim_end(s.drop_last())
    } else {
        s
    }
}

/// `s` without the white space around it.
pub open spec fn trimmed(s: Seq<char>) -> Seq<char> {
    trim_end(trim_start(s))
}

/// A decimal digit, `0` to `9`.
pub open spec fn is_digit(c: char) -> bool {
    0x30 <= c as u32 <= 0x39
}

/// The number a decimal digit stands for.
pub open spec fn digit_value(c: char) -> nat {
    (c as u32 - 0x30) as nat
}

/// Whether `s` holds decimal digits only.
pub open spec fn all_digits(s: Seq<char>) -> bool {
    forall|i: int| 0 <= i < s.len() ==> is_digit(#[trigger] s[i])
}

/// The number that a sequence of decimal digits denotes; the empty sequence
/// denotes zero.
pub open spec fn decimal_value(s: Seq<char>) -> nat
    decreases s.len(),
{
    if s.len() == 0 {
        0
    } else {
        decimal_value(s.drop_last()) * 10 + digit_value(s.last())
    }
}

/// `s` without a plus sign in front.
pub open spec fn unsigned_part(s: Seq<char>) -> Seq<char> {
    if s.len() > 0 && s[0] == '+' {
        s.skip(1)
    } else {
        s
    }
}

/// The number that `s` denotes, if it denotes one: an optional plus sign,
/// then at least one decimal digit and nothing else, the value no greater
/// than `u64::MAX`.
pub open spec fn parsed_number(s: Seq<char>) -> Option<u64> {
    let digits = unsigned_part(s);
    if digits.len() > 0 && all_digits(digits) && decimal_value(digits) <= u64::MAX {
        Some(decimal_value(digits) as u64)
    } else {
        None
    }
}

/// Whether `c` is white space.
pub fn is_space(c: char) -> (b: bool)
    ensures
        b == is_whitespace(c),
{
    let u: u32 = c as u32;
    (0x09 <= u && u <= 0x0D) || u == 0x20 || u == 0x85 || u == 0xA0 || u == 0x1680 || (0x2000 <= u
        && u <= 0x200A) || u == 0x2028 || u == 0x2029 || u == 0x202F || u == 0x205F || u == 0x3000
}

/// The characters of `s`, in order.
pub fn characters(s: &str) -> (chars: Vec<char>)
    ensures
        chars@ == s@,
{
    let mut chars: Vec<char> = Vec::new();
    for c in it: s.chars()
        invariant
            chars@ == it.seq().take(it.index() as int),
            it.seq() == s@,
    {
        chars.push(c);
    }
    chars
}

/// Skipping white space at the front does not change what trimming the
/// front gives.
proof fn lemma_trim_start_skips(s: Seq<char>, lo: int)
    requires
        0 <= lo < s.len(),
        is_whitespace(s[lo]),
    ensures
        trim_start(s.skip(lo)) == trim_start(s.skip(lo + 1)),
{
    assert(s.skip(lo).drop_first() =~= s.skip(lo + 1));
}

/// Dropping white space at the back does not change what trimming the back
/// gives.
proof fn lemma_trim_end_drops(s: Seq<char>, lo: int, hi: int)
    requires
        0 <= lo < hi <= s.len(),
        is_whitespace(s[hi - 1]),
    ensures
        trim_end(s.subrange(lo, hi)) == trim_end(s.subrange(lo, hi - 1)),
{
    assert(s.subrange(lo, hi).drop_last() =~= s.subrange(lo, hi - 1));
}

/// `line` without the white space around it.
pub fn trim(line: &str) -> (token: &str)
    ensures
        token@ == trimmed(line@),
{
    let chars = characters(line);
    let n = chars.len();
    let mut lo: usize = 0;
    assert(chars@.skip(0) =~= chars@);
    while lo < n && is_space(chars[lo])
        invariant
            n == chars@.len(),
            lo <= n,
            trim_start(chars@) == trim_start(chars@.skip(lo as int)),
        decreases n - lo,
    {
        proof {
            lemma_trim_start_skips(chars@, lo as int);
        }
        lo += 1;
    }
    assert(trim_start(chars@) == chars@.skip(lo as int));
    assert(chars@.skip(lo as int) =~= chars@.subrange(lo as int, n as int));
    let mut hi: usize = n;
    while hi > lo && is_space(chars[hi - 1])
        invariant
            n == chars@.len(),
            lo <= hi <= n,
            trimmed(chars@) == trim_end(chars@.subrange(lo as int, hi as int)),
        decreases hi,
    {
        proof {
            lemma_trim_end_drops(chars@, lo as int, hi as int);
        }
        hi -= 1;
    }
    line.substring_char(lo, hi)
}

/// A longer run of digits denotes no less than the run it begins with.
proof fn lemma_decimal_value_grows(s: Seq<char>, k: int)
    requires
        0 <= k <= s.len(),
    ensures
        decimal_value(s.take(k)) <= decimal_value(s),
    decreases s.len(),
{
    if k == s.len() {
        assert(s.take(k) =~= s);
    } else {
        lemma_decimal_value_grows(s.drop_last(), k);
        assert(s.drop_last().take(k) =~= s.take(k));
    }
}

/// The number that `token` denotes, if it denotes one.
pub fn parse_number(token: &str) -> (number: Option<u64>)
    ensures
        number == parsed_number(token@),
{
    let chars = characters(token);
    let n = chars.len();
    let start: usize = if n > 0 && chars[0] == '+' {
        1
    } else {
        0
    };
    let ghost digits = unsigned_part(chars@);
    assert(digits =~= chars@.skip(start as int));
    if start == n {
        return None;
    }
    let mut value: u64 = 0;
    let mut i: usize = start;
    while i < n
        invariant
            n == chars@.len(),
            start <= i <= n,
            chars@ == token@,
            digits == unsigned_part(chars@),
            digits == chars@.skip(start as int),
            all_digits(digits.take(i - start)),
            value == decimal_value(digits.take(i - start)),
        decreases n - i,
    {
        let c: char = chars[i];
        let u: u32 = c as u32;
        let ghost k = i - start;
        assert(digits[k] == c);
        if u < 0x30 || u > 0x39 {
            assert(!is_digit(digits[k]));
            return None;
        }
        let d: u64 = (u - 0x30) as u64;
        proof {
            assert(digits.take(k + 1).drop_last() =~= digits.take(k));
            assert(digits.take(k + 1).last() == digits[k]);
            assert forall|j: int| 0 <= j < k + 1 implies is_digit(#[trigger] digits.take(k + 1)[j]) by {
                if j < k {
                    assert(digits.take(k + 1)[j] == digits.take(k)[j]);
                }
            }
            lemma_decimal_value_grows(digits, k + 1);
        }
        if value > (u64::MAX - d) / 10 {
            assert(decimal_value(digits.take(k + 1)) > u64::MAX);
            return None;
        }
        value = value * 10 + d;
        i += 1;
    }
    assert(digits.take(n - start) =~= digits);
    Some(value)
}

} // verus!
