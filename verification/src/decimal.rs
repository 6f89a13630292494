//! Decimal numerals: writing integers out and reading them back.

use crate::text::{chars_of, push_char};
use vstd::prelude::*;

verus! {

/// The character for a digit from 0 to 9.
pub open spec fn digit_char(d: int) -> char {
    (48 + d) as char
}

/// Whether `c` is one of `0` to `9`.
pub open spec fn is_digit(c: char) -> bool {
    48 <= c as u32 <= 57
}

/// The digit that `c` stands for.
pub open spec fn digit_value(c: char) -> int {
    c as u32 - 48
}

/// The decimal numeral of `n`, without sign or leading zeros.
pub open spec fn decimal(n: nat) -> Seq<char>
    decreases n,
{
    if n < 10 {
        seq![digit_char(n as int)]
    } else {
        decimal(n / 10).push(digit_char((n % 10) as int))
    }
}

/// The decimal numeral of `n`, with `-` in front of a negative one.
pub open spec fn signed_decimal(n: int) -> Seq<char> {
    if n < 0 {
        seq!['-'] + decimal((-n) as nat)
    } else {
        decimal(n as nat)
    }
}

/// Whether `s` is a non-empty run of digits.
pub open spec fn all_digits(s: Seq<char>) -> bool {
    s.len() > 0 && forall|i: int| 0 <= i < s.len() ==> is_digit(#[trigger] s[i])
}

/// The number that a run of digits stands for.
pub open spec fn digits_value(s: Seq<char>) -> nat
    decreases s.len(),
{
    if s.len() == 0 {
        0
    } else {
        (digits_value(s.drop_last()) * 10 + digit_value(s.last())) as nat
    }
}

/// The integer that `s` spells: an optional sign, then digits and nothing
/// else. `None` for anything else.
pub open spec fn parse_integer(s: Seq<char>) -> Option<int> {
    if s.len() > 0 && s[0] == '-' {
        if all_digits(s.skip(1)) {
            Some(-(digits_value(s.skip(1)) as int))
        } else {
            None
        }
    } else if s.len() > 0 && s[0] == '+' {
        if all_digits(s.skip(1)) {
            Some(digits_value(s.skip(1)) as int)
        } else {
            None
        }
    } else if all_digits(s) {
        Some(digits_value(s) as int)
    } else {
        None
    }
}

/// The `i64` that `s` spells, if it spells one that fits.
pub open spec fn parse_i64_spec(s: Seq<char>) -> Option<i64> {
    match parse_integer(s) {
        Some(n) => if i64::MIN <= n <= i64::MAX {
            Some(n as i64)
        } else {
            None
        },
        None => None,
    }
}

/// The `u64` that `s` spells, if it spells one that fits. A numeral with a
/// minus sign spells none.
pub open spec fn parse_u64_spec(s: Seq<char>) -> Option<u64> {
    if s.len() > 0 && s[0] == '-' {
        None
    } else {
        match parse_integer(s) {
            Some(n) => if n <= u64::MAX {
                Some(n as u64)
            } else {
                None
            },
            None => None,
        }
    }
}

/// The flag that `s` spells: `true` or `false`, in exactly these letters.
pub open spec fn parse_bool_spec(s: Seq<char>) -> Option<bool> {
    if s == seq!['t', 'r', 'u', 'e'] {
        Some(true)
    } else if s == seq!['f', 'a', 'l', 's', 'e'] {
        Some(false)
    } else {
        None
    }
}

/// A numeral is a run of digits and stands for the number it was made from.
pub proof fn lemma_decimal_value(n: nat)
    ensures
        all_digits(decimal(n)),
        digits_value(decimal(n)) == n,
    decreases n,
{
    if n < 10 {
        let s = decimal(n);
        assert(s.drop_last() =~= Seq::<char>::empty());
        assert(digits_value(s.drop_last()) == 0);
    } else {
        lemma_decimal_value(n / 10);
        let s = decimal(n);
        assert(s.drop_last() =~= decimal(n / 10));
        assert forall|i: int| 0 <= i < s.len() implies is_digit(#[trigger] s[i]) by {
            if i < s.len() - 1 {
                assert(s[i] == decimal(n / 10)[i]);
            }
        }
    }
}

/// Reading back what was written gives the number that was written.
pub proof fn lemma_parse_signed_decimal(n: int)
    ensures
        parse_integer(signed_decimal(n)) == Some(n),
{
    if n < 0 {
        lemma_decimal_value((-n) as nat);
        assert(signed_decimal(n).skip(1) =~= decimal((-n) as nat));
    } else {
        lemma_decimal_value(n as nat);
        let s = decimal(n as nat);
        assert(is_digit(s[0]));
    }
}

/// A longer run of digits stands for no smaller number than its beginning.
proof fn lemma_digits_value_prefix(s: Seq<char>, k: int)
    requires
        0 <= k <= s.len(),
        forall|i: int| 0 <= i < s.len() ==> is_digit(#[trigger] s[i]),
    ensures
        digits_value(s.take(k)) <= digits_value(s),
    decreases s.len() - k,
{
    if k < s.len() {
        lemma_digits_value_prefix(s, k + 1);
        assert(s.take(k + 1).drop_last() =~= s.take(k));
        assert(is_digit(s[k]));
        assert(s.take(k + 1).last() == s[k]);
    } else {
        assert(s.take(k) =~= s);
    }
}

/// Appends the numeral of `n` to `out`.
fn push_decimal(out: &mut String, n: u64)
    ensures
        final(out)@ == old(out)@ + decimal(n as nat),
    decreases n,
{
    if n >= 10 {
        push_decimal(out, n / 10);
    }
    let d: u8 = (n % 10) as u8;
    push_char(out, (48u8 + d) as char);
    assert(final(out)@ =~= old(out)@ + decimal(n as nat)) by {
        assert(((48u8 + d) as char) == digit_char((n % 10) as int));
    }
}

/// The decimal numeral of `n`.
pub fn format_u64(n: u64) -> (s: String)
    ensures
        s@ == decimal(n as nat),
{
    let mut s = String::new();
    push_decimal(&mut s, n);
    assert(Seq::<char>::empty() + decimal(n as nat) =~= decimal(n as nat));
    s
}

/// The decimal numeral of `n`, with `-` in front of a negative one.
pub fn format_i64(n: i64) -> (s: String)
    ensures
        s@ == signed_decimal(n as int),
{
    let mut s = String::new();
    if n < 0 {
        push_char(&mut s, '-');
        let magnitude: u64 = (-(n + 1)) as u64 + 1;
        push_decimal(&mut s, magnitude);
        assert(s@ =~= seq!['-'] + decimal((-n) as nat));
    } else {
        push_decimal(&mut s, n as u64);
        assert(Seq::<char>::empty() + decimal(n as nat) =~= decimal(n as nat));
    }
    s
}

/// The number that the digits `v[from..]` stand for, if they are digits, at
/// least one, and the number fits in a `u64`.
fn read_digits(v: &Vec<char>, from: usize) -> (r: Option<u64>)
    requires
        from <= v.len(),
    ensures
        match r {
            Some(n) => all_digits(v@.skip(from as int)) && digits_value(v@.skip(from as int)) == n,
            None => !all_digits(v@.skip(from as int)) || digits_value(v@.skip(from as int))
                > u64::MAX,
        },
{
    let ghost body = v@.skip(from as int);
    if from == v.len() {
        return None;
    }
    let mut i: usize = from;
    while i < v.len()
        invariant
            from <= i <= v.len(),
            body == v@.skip(from as int),
            forall|j: int| 0 <= j < i - from ==> is_digit(#[trigger] body[j]),
        decreases v.len() - i,
    {
        let c: u32 = v[i] as u32;
        assert(body[i - from] == v@[i as int]);
        if c < 48 || c > 57 {
            return None;
        }
        i += 1;
    }
    assert(all_digits(body));
    let mut acc: u64 = 0;
    let mut k: usize = from;
    assert(body.take(0) =~= Seq::<char>::empty());
    while k < v.len()
        invariant
            from <= k <= v.len(),
            from < v.len(),
            body == v@.skip(from as int),
            all_digits(body),
            acc == digits_value(body.take(k - from)),
        decreases v.len() - k,
    {
        assert(body[k - from] == v@[k as int]);
        assert(is_digit(body[k - from]));
        let d: u64 = (v[k] as u32 - 48) as u64;
        proof {
            assert(body.take(k - from + 1).drop_last() =~= body.take(k - from));
            assert(body.take(k - from + 1).last() == body[k - from]);
            lemma_digits_value_prefix(body, k - from + 1);
        }
        if acc > (u64::MAX - d) / 10 {
            assert(acc * 10 + d > u64::MAX);
            return None;
        }
        acc = acc * 10 + d;
        k += 1;
    }
    assert(body.take(body.len() as int) =~= body);
    Some(acc)
}

/// Reads a `u64` from its decimal numeral. A `+` may stand in front.
pub fn parse_u64(s: &str) -> (r: Option<u64>)
    ensures
        r == parse_u64_spec(s@),
{
    let v = chars_of(s);
    if v.len() > 0 && v[0] == '-' {
        return None;
    }
    if v.len() > 0 && v[0] == '+' {
        read_digits(&v, 1)
    } else {
        assert(v@.skip(0) =~= v@);
        read_digits(&v, 0)
    }
}

/// Reads an `i64` from its decimal numeral. A sign may stand in front.
pub fn parse_i64(s: &str) -> (r: Option<i64>)
    ensures
        r == parse_i64_spec(s@),
{
    let v = chars_of(s);
    if v.len() > 0 && v[0] == '-' {
        match read_digits(&v, 1) {
            Some(m) => {
                if m <= 0x7fff_ffff_ffff_ffff {
                    Some(-(m as i64))
                } else if m == 0x8000_0000_0000_0000 {
                    Some(i64::MIN)
                } else {
                    None
                }
            },
            None => None,
        }
    } else {
        let magnitude = if v.len() > 0 && v[0] == '+' {
            read_digits(&v, 1)
        } else {
            assert(v@.skip(0) =~= v@);
            read_digits(&v, 0)
        };
        match magnitude {
            Some(m) => if m <= 0x7fff_ffff_ffff_ffff {
                Some(m as i64)
            } else {
                None
            },
            None => None,
        }
    }
}

/// Reads a flag: `true` or `false`.
pub fn parse_bool(s: &str) -> (r: Option<bool>)
    ensures
        r == parse_bool_spec(s@),
{
    let v = chars_of(s);
    if v.len() == 4 && v[0] == 't' && v[1] == 'r' && v[2] == 'u' && v[3] == 'e' {
        assert(v@ =~= seq!['t', 'r', 'u', 'e']);
        Some(true)
    } else if v.len() == 5 && v[0] == 'f' && v[1] == 'a' && v[2] == 'l' && v[3] == 's' && v[4]
        == 'e' {
        assert(v@ =~= seq!['f', 'a', 'l', 's', 'e']);
        Some(false)
    } else {
        None
    }
}

} // verus!
