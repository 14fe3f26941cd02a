//! Field decoders: total conversions from the character payload of a field
//! element into the field's target type, with an exact statement of which
//! payloads are accepted and what value they denote.

use vstd::prelude::*;

verus! {

/// A decimal digit.
pub open spec fn is_digit(c: char) -> bool {
    '0' <= c && c <= '9'
}

/// The numeric value of a decimal digit.
pub open spec fn digit_val(c: char) -> int {
    c as int - '0' as int
}

/// Every character of `s` is a decimal digit.
pub open spec fn all_digits(s: Seq<char>) -> bool {
    forall|i: int| 0 <= i < s.len() ==> is_digit(#[trigger] s[i])
}

/// The value of `s` read as a base-10 numeral.
pub open spec fn dec_val(s: Seq<char>) -> int
    decreases s.len(),
{
    if s.len() == 0 {
        0
    } else {
        dec_val(s.drop_last()) * 10 + digit_val(s.last())
    }
}

/// `s` is a well-formed unsigned 32-bit numeral: one or more digits whose
/// value fits in a `u32`. No sign, no surrounding whitespace.
pub open spec fn u32_text_ok(s: Seq<char>) -> bool {
    s.len() > 0 && all_digits(s) && dec_val(s) <= u32::MAX
}

/// The value of a digit string is never negative.
proof fn lemma_dec_val_nonneg(s: Seq<char>)
    requires
        all_digits(s),
    ensures
        dec_val(s) >= 0,
    decreases s.len(),
{
    if s.len() > 0 {
        assert(all_digits(s.drop_last()));
        lemma_dec_val_nonneg(s.drop_last());
    }
}

/// Extending a digit string on the right never decreases its value.
proof fn lemma_dec_val_prefix_le(s: Seq<char>, i: int)
    requires
        all_digits(s),
        0 <= i <= s.len(),
    ensures
        dec_val(s.subrange(0, i)) <= dec_val(s),
    decreases s.len() - i,
{
    if i < s.len() {
        let t = s.subrange(0, i + 1);
        assert(all_digits(t));
        assert(t.drop_last() =~= s.subrange(0, i));
        lemma_dec_val_nonneg(s.subrange(0, i));
        lemma_dec_val_prefix_le(s, i + 1);
    } else {
        assert(s.subrange(0, i) =~= s);
    }
}

/// The digits of a signed numeral: everything after an optional leading
/// sign.
pub open spec fn signed_body(s: Seq<char>) -> Seq<char> {
    if s.len() > 0 && (s[0] == '+' || s[0] == '-') {
        s.subrange(1, s.len() as int)
    } else {
        s
    }
}

/// The numeral carries a leading minus sign.
pub open spec fn signed_neg(s: Seq<char>) -> bool {
    s.len() > 0 && s[0] == '-'
}

/// `s` is a well-formed signed 64-bit numeral: an optional sign, then one
/// or more digits, whose value fits in an `i64`.
pub open spec fn i64_text_ok(s: Seq<char>) -> bool {
    let b = signed_body(s);
    &&& b.len() > 0
    &&& all_digits(b)
    &&& if signed_neg(s) {
        dec_val(b) <= i64::MAX as int + 1
    } else {
        dec_val(b) <= i64::MAX as int
    }
}

/// The value a well-formed signed 64-bit numeral denotes.
pub open spec fn i64_text_val(s: Seq<char>) -> int {
    if signed_neg(s) {
        -dec_val(signed_body(s))
    } else {
        dec_val(signed_body(s))
    }
}

/// Decode a base-10 unsigned 32-bit numeral. Returns `None` exactly on
/// empty text, a non-digit character, or overflow.
pub fn parse_u32(s: &str) -> (r: Option<u32>)
    ensures
        match r {
            Some(v) => u32_text_ok(s@) && v == dec_val(s@),
            None => !u32_text_ok(s@),
        },
{
    let n = s.unicode_len();
    if n == 0 {
        return None;
    }
    let mut acc: u64 = 0;
    let mut i: usize = 0;
    while i < n
        invariant
            0 < n == s@.len(),
            0 <= i <= n,
            all_digits(s@.subrange(0, i as int)),
            acc == dec_val(s@.subrange(0, i as int)),
            acc <= u32::MAX,
        decreases n - i,
    {
        let c = s.get_char(i);
        if c < '0' || c > '9' {
            assert(!is_digit(s@[i as int]));
            return None;
        }
        let d: u64 = (c as u32 as u64) - ('0' as u32 as u64);
        acc = acc * 10 + d;
        proof {
            assert(s@.subrange(0, i + 1).drop_last() =~= s@.subrange(0, i as int));
        }
        i = i + 1;
        if acc > u32::MAX as u64 {
            proof {
                if all_digits(s@) {
                    lemma_dec_val_prefix_le(s@, i as int);
                }
            }
            return None;
        }
    }
    proof {
        assert(s@.subrange(0, n as int) =~= s@);
    }
    Some(acc as u32)
}

/// Decode a base-10 signed 64-bit numeral with an optional leading sign.
/// Returns `None` exactly on an empty digit part, a non-digit character,
/// or overflow.
pub fn parse_i64(s: &str) -> (r: Option<i64>)
    ensures
        match r {
            Some(v) => i64_text_ok(s@) && v == i64_text_val(s@),
            None => !i64_text_ok(s@),
        },
{
    let n = s.unicode_len();
    let mut start: usize = 0;
    let mut neg = false;
    if n > 0 {
        let c = s.get_char(0);
        if c == '+' || c == '-' {
            start = 1;
            neg = c == '-';
        }
    }
    proof {
        assert(neg == signed_neg(s@));
        assert(s@.subrange(start as int, n as int) =~= signed_body(s@));
    }
    let ghost body = signed_body(s@);
    if start == n {
        return None;
    }
    let bound: u64 = if neg {
        9223372036854775808u64
    } else {
        9223372036854775807u64
    };
    let mut acc: u64 = 0;
    let mut i: usize = start;
    while i < n
        invariant
            start <= i <= n == s@.len(),
            start < n,
            body == s@.subrange(start as int, n as int),
            body == signed_body(s@),
            neg == signed_neg(s@),
            bound == if neg {
                9223372036854775808u64
            } else {
                9223372036854775807u64
            },
            all_digits(s@.subrange(start as int, i as int)),
            acc == dec_val(s@.subrange(start as int, i as int)),
            acc <= bound <= 9223372036854775808u64,
        decreases n - i,
    {
        let c = s.get_char(i);
        if c < '0' || c > '9' {
            assert(body[i - start] == s@[i as int]);
            assert(!is_digit(body[i - start]));
            return None;
        }
        let d: u64 = (c as u32 as u64) - ('0' as u32 as u64);
        proof {
            assert(s@.subrange(start as int, i + 1).drop_last() =~= s@.subrange(
                start as int,
                i as int,
            ));
        }
        let wide: u128 = (acc as u128) * 10 + (d as u128);
        assert(wide == dec_val(s@.subrange(start as int, i + 1)));
        if wide > bound as u128 {
            proof {
                if all_digits(body) {
                    assert(s@.subrange(start as int, i + 1) =~= body.subrange(
                        0,
                        i + 1 - start,
                    ));
                    lemma_dec_val_prefix_le(body, i + 1 - start);
                }
            }
            return None;
        }
        acc = wide as u64;
        i = i + 1;
    }
    proof {
        assert(s@.subrange(start as int, n as int) =~= body);
    }
    if neg {
        if acc == 9223372036854775808u64 {
            Some(i64::MIN)
        } else {
            Some(-(acc as i64))
        }
    } else {
        Some(acc as i64)
    }
}

/// The first position at or after `i` whose character is not a decimal
/// digit, or the end of `s`.
pub open spec fn skip_digits(s: Seq<char>, i: int) -> int
    decreases s.len() - i,
{
    if i < s.len() && is_digit(s[i]) {
        skip_digits(s, i + 1)
    } else {
        i
    }
}

proof fn lemma_skip_digits_bounds(s: Seq<char>, i: int)
    requires
        0 <= i <= s.len(),
    ensures
        i <= skip_digits(s, i) <= s.len(),
    decreases s.len() - i,
{
    if i < s.len() && is_digit(s[i]) {
        lemma_skip_digits_bounds(s, i + 1);
    }
}

/// `c` is `lower` or `upper`: one letter, either case.
pub open spec fn either_case(c: char, lower: char, upper: char) -> bool {
    c == lower || c == upper
}

/// The characters of `s` from `i` on spell `inf`, in any mix of cases.
pub open spec fn spells_inf(s: Seq<char>, i: int) -> bool {
    &&& s.len() == i + 3
    &&& either_case(s[i], 'i', 'I')
    &&& either_case(s[i + 1], 'n', 'N')
    &&& either_case(s[i + 2], 'f', 'F')
}

/// The characters of `s` from `i` on spell `infinity`, in any mix of cases.
pub open spec fn spells_infinity(s: Seq<char>, i: int) -> bool {
    &&& s.len() == i + 8
    &&& either_case(s[i], 'i', 'I')
    &&& either_case(s[i + 1], 'n', 'N')
    &&& either_case(s[i + 2], 'f', 'F')
    &&& either_case(s[i + 3], 'i', 'I')
    &&& either_case(s[i + 4], 'n', 'N')
    &&& either_case(s[i + 5], 'i', 'I')
    &&& either_case(s[i + 6], 't', 'T')
    &&& either_case(s[i + 7], 'y', 'Y')
}

/// The characters of `s` from `i` on spell `nan`, in any mix of cases.
pub open spec fn spells_nan(s: Seq<char>, i: int) -> bool {
    &&& s.len() == i + 3
    &&& either_case(s[i], 'n', 'N')
    &&& either_case(s[i + 1], 'a', 'A')
    &&& either_case(s[i + 2], 'n', 'N')
}

/// The characters of `s` from `i` on form an optional exponent part:
/// nothing, or `e`/`E`, an optional sign, and one or more digits reaching
/// the end of `s`.
pub open spec fn exp_ok(s: Seq<char>, i: int) -> bool {
    i == s.len() || {
        &&& (s[i] == 'e' || s[i] == 'E')
        &&& {
            let j = if i + 1 < s.len() && (s[i + 1] == '+' || s[i + 1] == '-') {
                i + 2
            } else {
                i + 1
            };
            j < s.len() && skip_digits(s, j) == s.len()
        }
    }
}

/// The characters of `s` from `i` on form a number: a mantissa with at
/// least one digit, an optional decimal point, and an optional exponent.
pub open spec fn number_ok(s: Seq<char>, i: int) -> bool {
    let p = skip_digits(s, i);
    if p < s.len() && s[p] == '.' {
        let q = skip_digits(s, p + 1);
        (p > i || q > p + 1) && exp_ok(s, q)
    } else {
        p > i && exp_ok(s, p)
    }
}

/// `s` matches the standard textual grammar of a 64-bit binary
/// floating-point number: an optional sign, then `inf`, `infinity`, `nan`
/// (any case) or a number with an optional fraction and exponent.
pub open spec fn float_text_ok(s: Seq<char>) -> bool {
    let i: int = if s.len() > 0 && (s[0] == '+' || s[0] == '-') {
        1
    } else {
        0
    };
    ||| spells_inf(s, i)
    ||| spells_infinity(s, i)
    ||| spells_nan(s, i)
    ||| number_ok(s, i)
}

/// Advance over decimal digits, returning the first position at or after
/// `from` that holds none.
fn scan_digits(s: &str, from: usize, n: usize) -> (r: usize)
    requires
        n == s@.len(),
        from <= n,
    ensures
        from <= r <= n,
        r == skip_digits(s@, from as int),
{
    let mut i = from;
    while i < n
        invariant
            from <= i <= n == s@.len(),
            skip_digits(s@, from as int) == skip_digits(s@, i as int),
        decreases n - i,
    {
        let c = s.get_char(i);
        if c < '0' || c > '9' {
            return i;
        }
        i = i + 1;
    }
    i
}

/// The character at `idx` is `lower` or `upper`.
fn char_either_case(s: &str, idx: usize, lower: char, upper: char) -> (r: bool)
    requires
        idx < s@.len(),
    ensures
        r == either_case(s@[idx as int], lower, upper),
{
    let c = s.get_char(idx);
    c == lower || c == upper
}

/// The characters from `i` on form an optional exponent part.
fn exp_part(s: &str, i: usize, n: usize) -> (r: bool)
    requires
        n == s@.len(),
        i <= n,
    ensures
        r == exp_ok(s@, i as int),
{
    if i == n {
        return true;
    }
    let c = s.get_char(i);
    if !(c == 'e' || c == 'E') {
        return false;
    }
    let mut j = i + 1;
    if j < n {
        let c2 = s.get_char(j);
        if c2 == '+' || c2 == '-' {
            j = j + 1;
        }
    }
    if j >= n {
        return false;
    }
    let e = scan_digits(s, j, n);
    e == n
}

/// Decide whether `s` matches the textual grammar of a 64-bit
/// floating-point number. The value itself is not computed here: the
/// extractor carries the validated text, and a numeric consumer parses it.
pub fn is_float_text(s: &str) -> (r: bool)
    ensures
        r == float_text_ok(s@),
{
    let n = s.unicode_len();
    let mut i: usize = 0;
    if n > 0 {
        let c = s.get_char(0);
        if c == '+' || c == '-' {
            i = 1;
        }
    }
    if n >= i && n - i == 3 && char_either_case(s, i, 'i', 'I') && char_either_case(
        s,
        i + 1,
        'n',
        'N',
    ) && char_either_case(s, i + 2, 'f', 'F') {
        return true;
    }
    if n >= i && n - i == 8 && char_either_case(s, i, 'i', 'I') && char_either_case(
        s,
        i + 1,
        'n',
        'N',
    ) && char_either_case(s, i + 2, 'f', 'F') && char_either_case(s, i + 3, 'i', 'I')
        && char_either_case(s, i + 4, 'n', 'N') && char_either_case(s, i + 5, 'i', 'I')
        && char_either_case(s, i + 6, 't', 'T') && char_either_case(s, i + 7, 'y', 'Y') {
        return true;
    }
    if n >= i && n - i == 3 && char_either_case(s, i, 'n', 'N') && char_either_case(
        s,
        i + 1,
        'a',
        'A',
    ) && char_either_case(s, i + 2, 'n', 'N') {
        return true;
    }
    let p = scan_digits(s, i, n);
    proof {
        lemma_skip_digits_bounds(s@, i as int);
    }
    if p < n && s.get_char(p) == '.' {
        let q = scan_digits(s, p + 1, n);
        if !(p > i || q > p + 1) {
            return false;
        }
        exp_part(s, q, n)
    } else {
        if p == i {
            return false;
        }
        exp_part(s, p, n)
    }
}

} // verus!
