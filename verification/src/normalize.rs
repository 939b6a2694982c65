use vstd::prelude::*;
use crate::errors::FieldFault;
use crate::text::{
    is_ascii_space, is_decimal_digit, digit_value, eq_ignore_case, first_content, first_space,
    lemma_first_content, lemma_first_space, upper_of,
};

verus! {

/// Every character is a decimal digit.
pub open spec fn all_digits(s: Seq<char>) -> bool {
    forall|i: int| 0 <= i < s.len() ==> is_decimal_digit(s[i])
}

/// The number denoted by a digit string, most significant digit first.
pub open spec fn digits_value(s: Seq<char>) -> int
    decreases s.len(),
{
    if s.len() == 0 {
        0
    } else {
        digits_value(s.drop_last()) * 10 + digit_value(s.last())
    }
}

/// The integer denoted by a decimal string with an optional leading sign;
/// nothing if any other character occurs or no digit follows the sign.
pub open spec fn spec_parse_int(s: Seq<char>) -> Option<int> {
    if s.len() > 0 && (s[0] == '+' || s[0] == '-') {
        let mag = s.skip(1);
        if mag.len() > 0 && all_digits(mag) {
            Some(if s[0] == '-' { -digits_value(mag) } else { digits_value(mag) })
        } else {
            None
        }
    } else if s.len() > 0 && all_digits(s) {
        Some(digits_value(s))
    } else {
        None
    }
}

proof fn lemma_digits_value_nonneg(s: Seq<char>)
    requires
        all_digits(s),
    ensures
        digits_value(s) >= 0,
    decreases s.len(),
{
    if s.len() > 0 {
        assert(all_digits(s.drop_last()));
        lemma_digits_value_nonneg(s.drop_last());
        assert(digits_value(s.drop_last()) * 10 >= 0) by (nonlinear_arith)
            requires digits_value(s.drop_last()) >= 0;
    }
}

/// A digit string is worth at least any of its prefixes.
proof fn lemma_digits_value_prefix(s: Seq<char>, i: int)
    requires
        all_digits(s),
        0 <= i <= s.len(),
    ensures
        digits_value(s.take(i)) <= digits_value(s),
    decreases s.len(),
{
    if i == s.len() {
        assert(s.take(i) =~= s);
    } else {
        assert(s.take(i) =~= s.drop_last().take(i));
        assert(all_digits(s.drop_last()));
        lemma_digits_value_prefix(s.drop_last(), i);
        lemma_digits_value_nonneg(s.drop_last());
        assert(digits_value(s.drop_last()) * 10 >= digits_value(s.drop_last())) by (nonlinear_arith)
            requires digits_value(s.drop_last()) >= 0;
    }
}

/// Reads the digit run `s[start..end]` as a number.
fn parse_digit_run(s: &str, start: usize, end: usize) -> (r: Option<u64>)
    requires
        start <= end <= s@.len(),
    ensures
        match r {
            Some(v) => all_digits(s@.subrange(start as int, end as int))
                && v == digits_value(s@.subrange(start as int, end as int)),
            None => !all_digits(s@.subrange(start as int, end as int))
                || digits_value(s@.subrange(start as int, end as int)) > u64::MAX,
        },
{
    let ghost whole = s@.subrange(start as int, end as int);
    let mut acc: u64 = 0;
    let mut i: usize = start;
    proof {
        assert(s@.subrange(start as int, start as int) =~= whole.take(0));
    }
    while i < end
        invariant
            start <= i <= end <= s@.len(),
            whole == s@.subrange(start as int, end as int),
            all_digits(whole.take(i - start)),
            acc == digits_value(whole.take(i - start)),
        decreases end - i,
    {
        let c = s.get_char(i);
        proof {
            assert(whole[i - start] == s@[i as int]);
        }
        let u = c as u32;
        if u < 48 || u > 57 {
            proof {
                assert(!is_decimal_digit(whole[i - start]));
            }
            return None;
        }
        let d: u64 = (u - 48) as u64;
        proof {
            assert(whole.take(i - start + 1).drop_last() =~= whole.take(i - start));
            assert(whole.take(i - start + 1).last() == whole[i - start]);
        }
        let shifted = match acc.checked_mul(10) {
            Some(x) => x,
            None => {
                proof {
                    lemma_digits_overflow(whole, i - start + 1);
                }
                return None;
            },
        };
        let next = match shifted.checked_add(d) {
            Some(x) => x,
            None => {
                proof {
                    lemma_digits_overflow(whole, i - start + 1);
                }
                return None;
            },
        };
        acc = next;
        i += 1;
    }
    proof {
        assert(whole.take(end - start) =~= whole);
    }
    Some(acc)
}

/// If some prefix of a digit run is already worth more than `u64::MAX`,
/// so is the whole run.
proof fn lemma_digits_overflow(s: Seq<char>, i: int)
    requires
        0 <= i <= s.len(),
        all_digits(s.take(i)),
        digits_value(s.take(i)) > u64::MAX,
    ensures
        !all_digits(s) || digits_value(s) > u64::MAX,
{
    if all_digits(s) {
        lemma_digits_value_prefix(s, i);
    }
}

/// Numeric-string normalizer: the parsed integer of a decimal string with an
/// optional sign, `InvalidIntegerFormat` for non-numeric content or a value
/// outside the 64-bit signed range.
pub fn parse_i64(s: &str) -> (r: Result<i64, FieldFault>)
    ensures
        match r {
            Ok(n) => spec_parse_int(s@) == Some(n as int),
            Err(f) => f == FieldFault::InvalidIntegerFormat && match spec_parse_int(s@) {
                Some(v) => v < i64::MIN || v > i64::MAX,
                None => true,
            },
        },
{
    let len = s.unicode_len();
    if len == 0 {
        return Err(FieldFault::InvalidIntegerFormat);
    }
    let c0 = s.get_char(0);
    let signed = c0 == '+' || c0 == '-';
    let negative = c0 == '-';
    let start: usize = if signed { 1 } else { 0 };
    if start == len {
        return Err(FieldFault::InvalidIntegerFormat);
    }
    proof {
        if signed {
            assert(s@.subrange(1, len as int) =~= s@.skip(1));
        } else {
            assert(s@.subrange(0, len as int) =~= s@);
        }
    }
    let mag = match parse_digit_run(s, start, len) {
        Some(v) => v,
        None => {
            proof {
                let ghost run = if signed { s@.skip(1) } else { s@ };
                if all_digits(run) && digits_value(run) > u64::MAX {
                    lemma_digits_value_nonneg(run);
                }
            }
            return Err(FieldFault::InvalidIntegerFormat);
        },
    };
    if !negative {
        if mag <= i64::MAX as u64 {
            Ok(mag as i64)
        } else {
            Err(FieldFault::InvalidIntegerFormat)
        }
    } else {
        if mag <= i64::MAX as u64 {
            Ok(-(mag as i64))
        } else if mag == 9223372036854775808u64 {
            Ok(i64::MIN)
        } else {
            Err(FieldFault::InvalidIntegerFormat)
        }
    }
}

/// The byte multiplier of a size unit: a power of 1024 for the known units,
/// no scaling for anything else.
pub open spec fn unit_multiplier(u: Seq<char>) -> int {
    if eq_ignore_case(u, "KB"@) {
        1024
    } else if eq_ignore_case(u, "MB"@) {
        1048576
    } else if eq_ignore_case(u, "GB"@) {
        1073741824
    } else {
        1
    }
}

/// The byte count denoted by a free-text size: the first whitespace-separated
/// token as a non-negative number, scaled by the unit named in the second
/// token. A missing or unknown unit means no scaling; a missing or malformed
/// numeric portion means nothing.
pub open spec fn spec_parse_size(s: Seq<char>) -> Option<int> {
    let a = first_content(s, 0);
    let b = first_space(s, a);
    let c = first_content(s, b);
    let d = first_space(s, c);
    if a == s.len() {
        None
    } else if !all_digits(s.subrange(a, b)) {
        None
    } else {
        Some(digits_value(s.subrange(a, b)) * unit_multiplier(s.subrange(c, d)))
    }
}

/// Scans past whitespace; returns the first non-whitespace index at or
/// after `from`, or the length.
fn scan_content(s: &str, from: usize, len: usize) -> (r: usize)
    requires
        from <= len,
        len == s@.len(),
    ensures
        from <= r <= len,
        r == first_content(s@, from as int),
{
    let mut i = from;
    while i < len
        invariant
            from <= i <= len,
            len == s@.len(),
            forall|j: int| from <= j < i ==> is_ascii_space(s@[j]),
        decreases len - i,
    {
        let c = s.get_char(i);
        if !(c == ' ' || c == '\t' || c == '\n' || c == '\r' || c == '\u{c}') {
            proof {
                lemma_first_content(s@, from as int, i as int);
            }
            return i;
        }
        i += 1;
    }
    proof {
        lemma_first_content(s@, from as int, len as int);
    }
    len
}

/// Scans past non-whitespace; returns the first whitespace index at or
/// after `from`, or the length.
fn scan_space(s: &str, from: usize, len: usize) -> (r: usize)
    requires
        from <= len,
        len == s@.len(),
    ensures
        from <= r <= len,
        r == first_space(s@, from as int),
{
    let mut i = from;
    while i < len
        invariant
            from <= i <= len,
            len == s@.len(),
            forall|j: int| from <= j < i ==> !is_ascii_space(s@[j]),
        decreases len - i,
    {
        let c = s.get_char(i);
        if c == ' ' || c == '\t' || c == '\n' || c == '\r' || c == '\u{c}' {
            proof {
                lemma_first_space(s@, from as int, i as int);
            }
            return i;
        }
        i += 1;
    }
    proof {
        lemma_first_space(s@, from as int, len as int);
    }
    len
}

/// The multiplier of the unit token `s[c..d]`.
fn unit_multiplier_of(s: &str, c: usize, d: usize) -> (r: u64)
    requires
        c <= d <= s@.len(),
    ensures
        r == unit_multiplier(s@.subrange(c as int, d as int)),
        1 <= r <= 1073741824,
{
    let ghost u = s@.subrange(c as int, d as int);
    proof {
        reveal_strlit("KB");
        reveal_strlit("MB");
        reveal_strlit("GB");
    }
    if d - c == 2 {
        let u0 = upper_of(s.get_char(c));
        let u1 = upper_of(s.get_char(c + 1));
        proof {
            assert(u[0] == s@[c as int]);
            assert(u[1] == s@[c as int + 1]);
        }
        if u1 == 66 {
            if u0 == 75 {
                return 1024;
            }
            if u0 == 77 {
                return 1048576;
            }
            if u0 == 71 {
                return 1073741824;
            }
        }
        1
    } else {
        1
    }
}

/// Size-string normalizer: the byte count of a free-text `<number> <unit>`
/// size, `InvalidSizeFormat` when the numeric portion is missing or
/// malformed, or the byte count does not fit 64 bits.
pub fn parse_size(s: &str) -> (r: Result<u64, FieldFault>)
    ensures
        match r {
            Ok(v) => spec_parse_size(s@) == Some(v as int),
            Err(f) => f == FieldFault::InvalidSizeFormat && match spec_parse_size(s@) {
                Some(v) => v > u64::MAX,
                None => true,
            },
        },
{
    let len = s.unicode_len();
    let a = scan_content(s, 0, len);
    if a == len {
        return Err(FieldFault::InvalidSizeFormat);
    }
    let b = scan_space(s, a, len);
    let c = scan_content(s, b, len);
    let d = scan_space(s, c, len);
    let num = match parse_digit_run(s, a, b) {
        Some(v) => v,
        None => {
            proof {
                let ghost nrun = s@.subrange(a as int, b as int);
                if all_digits(nrun) && digits_value(nrun) > u64::MAX {
                    lemma_digits_value_nonneg(nrun);
                    let ghost m = unit_multiplier(s@.subrange(c as int, d as int));
                    assert(digits_value(nrun) * m > u64::MAX) by (nonlinear_arith)
                        requires digits_value(nrun) > u64::MAX, m >= 1;
                }
            }
            return Err(FieldFault::InvalidSizeFormat);
        },
    };
    let mult = unit_multiplier_of(s, c, d);
    match num.checked_mul(mult) {
        Some(v) => Ok(v),
        None => Err(FieldFault::InvalidSizeFormat),
    }
}

/// The character of a decimal digit.
pub open spec fn digit_char(d: int) -> char {
    if d == 0 {
        '0'
    } else if d == 1 {
        '1'
    } else if d == 2 {
        '2'
    } else if d == 3 {
        '3'
    } else if d == 4 {
        '4'
    } else if d == 5 {
        '5'
    } else if d == 6 {
        '6'
    } else if d == 7 {
        '7'
    } else if d == 8 {
        '8'
    } else {
        '9'
    }
}

/// The decimal digit string of a non-negative number.
pub open spec fn decimal_digits(n: int) -> Seq<char>
    decreases n when n >= 0
{
    if n < 10 {
        seq![digit_char(n)]
    } else {
        decimal_digits(n / 10) + seq![digit_char(n % 10)]
    }
}

/// The decimal representation of an integer, with a sign only when
/// negative.
pub open spec fn decimal_repr(n: int) -> Seq<char> {
    if n < 0 {
        seq!['-'] + decimal_digits(-n)
    } else {
        decimal_digits(n)
    }
}

proof fn lemma_decimal_digits_ok(n: int)
    requires
        n >= 0,
    ensures
        decimal_digits(n).len() > 0,
        all_digits(decimal_digits(n)),
        digits_value(decimal_digits(n)) == n,
    decreases n,
{
    if n < 10 {
        let s = seq![digit_char(n)];
        assert(s.drop_last() =~= Seq::<char>::empty());
        assert(digits_value(s.drop_last()) == 0);
        assert(digits_value(s) == digits_value(s.drop_last()) * 10 + digit_value(s.last()));
        assert(is_decimal_digit(digit_char(n)) && digit_value(digit_char(n)) == n);
    } else {
        lemma_decimal_digits_ok(n / 10);
        let s = decimal_digits(n);
        assert(s.drop_last() =~= decimal_digits(n / 10));
        assert(s.last() == digit_char(n % 10));
        assert(is_decimal_digit(digit_char(n % 10)) && digit_value(digit_char(n % 10)) == n % 10);
        vstd::arithmetic::div_mod::lemma_fundamental_div_mod(n, 10);
        assert(digits_value(s) == n);
        assert forall|i: int| 0 <= i < s.len() implies is_decimal_digit(s[i]) by {
            if i < s.len() - 1 {
                assert(s[i] == decimal_digits(n / 10)[i]);
            }
        }
    }
}

/// Law: the numeric-string normalizer round-trips every integer. The
/// decimal representation of an integer — optional sign, then digits —
/// parses back to the same integer.
pub proof fn lemma_int_round_trip(n: int)
    ensures
        spec_parse_int(decimal_repr(n)) == Some(n),
{
    if n >= 0 {
        lemma_decimal_digits_ok(n);
        let s = decimal_repr(n);
        assert(is_decimal_digit(s[0]));
        assert(s[0] != '+' && s[0] != '-') by {
            assert('+' as u32 == 43 && '-' as u32 == 45);
        }
    } else {
        lemma_decimal_digits_ok(-n);
        let s = decimal_repr(n);
        assert(s[0] == '-');
        assert(s.skip(1) =~= decimal_digits(-n));
    }
}

/// Law: for every size string of the form `<digits> <unit>` — a
/// non-negative number, one space, a whitespace-free unit token — the size
/// normalizer yields the number scaled by the unit's byte multiplier: 1024
/// for kilobytes, 1024 squared for megabytes, 1024 cubed for gigabytes,
/// case-insensitively, and no scaling for any other token.
pub proof fn lemma_size_formula(num: Seq<char>, unit: Seq<char>)
    requires
        num.len() > 0,
        all_digits(num),
        unit.len() > 0,
        forall|i: int| 0 <= i < unit.len() ==> !is_ascii_space(unit[i]),
    ensures
        spec_parse_size(num + " "@ + unit) == Some(digits_value(num) * unit_multiplier(unit)),
{
    let s = num + " "@ + unit;
    reveal_strlit(" ");
    let mid = num.len() as int;
    let total = s.len() as int;
    assert(s[mid] == ' ');
    assert forall|i: int| 0 <= i < mid implies !is_ascii_space(s[i]) by {
        assert(s[i] == num[i]);
        assert(is_decimal_digit(num[i]));
        assert(' ' as u32 == 32 && '\t' as u32 == 9 && '\n' as u32 == 10 && '\r' as u32 == 13
            && '\u{c}' as u32 == 12);
    }
    assert forall|i: int| mid + 1 <= i < total implies !is_ascii_space(s[i]) by {
        assert(s[i] == unit[i - (mid + 1)]);
    }
    lemma_first_content(s, 0, 0);
    lemma_first_space(s, 0, mid);
    lemma_first_content(s, mid, mid + 1);
    lemma_first_space(s, mid + 1, total);
    assert(s.subrange(0, mid) =~= num);
    assert(s.subrange(mid + 1, total) =~= unit);
}

} // verus!

