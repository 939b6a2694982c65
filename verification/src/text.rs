use vstd::prelude::*;

verus! {

/// The five ASCII whitespace characters that free-text fields are split on.
pub open spec fn is_ascii_space(c: char) -> bool {
    c == ' ' || c == '\t' || c == '\n' || c == '\r' || c == '\u{c}'
}

/// A decimal digit.
pub open spec fn is_decimal_digit(c: char) -> bool {
    48 <= c as u32 && c as u32 <= 57
}

/// The numeric value of a decimal digit.
pub open spec fn digit_value(c: char) -> int {
    c as u32 - 48
}

/// The character code with an ASCII lower-case letter folded to upper case.
pub open spec fn upper_code(c: char) -> int {
    if 97 <= c as u32 && c as u32 <= 122 {
        c as u32 - 32
    } else {
        c as u32 as int
    }
}

/// Equality of two texts up to ASCII case.
pub open spec fn eq_ignore_case(a: Seq<char>, b: Seq<char>) -> bool {
    a.len() == b.len() && (forall|i: int| 0 <= i < a.len() ==> upper_code(a[i]) == upper_code(b[i]))
}

/// Index of the first non-whitespace character at or after `i`, or the length.
pub open spec fn first_content(s: Seq<char>, i: int) -> int
    decreases s.len() - i when 0 <= i <= s.len()
{
    if i >= s.len() {
        s.len() as int
    } else if is_ascii_space(s[i]) {
        first_content(s, i + 1)
    } else {
        i
    }
}

/// Index of the first whitespace character at or after `i`, or the length.
pub open spec fn first_space(s: Seq<char>, i: int) -> int
    decreases s.len() - i when 0 <= i <= s.len()
{
    if i >= s.len() {
        s.len() as int
    } else if is_ascii_space(s[i]) {
        i
    } else {
        first_space(s, i + 1)
    }
}

/// `first_content` lands on the first index at or after `i` whose character is
/// not whitespace.
pub proof fn lemma_first_content(s: Seq<char>, i: int, k: int)
    requires
        0 <= i <= k <= s.len(),
        forall|j: int| i <= j < k ==> is_ascii_space(s[j]),
        k == s.len() || !is_ascii_space(s[k]),
    ensures
        first_content(s, i) == k,
    decreases k - i,
{
    if i < k {
        lemma_first_content(s, i + 1, k);
    }
}

/// `first_space` lands on the first index at or after `i` whose character is
/// whitespace.
pub proof fn lemma_first_space(s: Seq<char>, i: int, k: int)
    requires
        0 <= i <= k <= s.len(),
        forall|j: int| i <= j < k ==> !is_ascii_space(s[j]),
        k == s.len() || is_ascii_space(s[k]),
    ensures
        first_space(s, i) == k,
    decreases k - i,
{
    if i < k {
        lemma_first_space(s, i + 1, k);
    }
}

/// The view of an optional string.
pub open spec fn opt_string_view(r: Option<String>) -> Option<Seq<char>> {
    match r {
        Some(s) => Some(s@),
        None => None,
    }
}

/// Character-for-character string equality.
pub fn str_eq(a: &str, b: &str) -> (r: bool)
    ensures
        r == (a@ == b@),
{
    let alen = a.unicode_len();
    let blen = b.unicode_len();
    if alen != blen {
        return false;
    }
    let mut i: usize = 0;
    while i < alen
        invariant
            alen == a@.len(),
            blen == b@.len(),
            alen == blen,
            i <= alen,
            forall|j: int| 0 <= j < i ==> a@[j] == b@[j],
        decreases alen - i,
    {
        if a.get_char(i) != b.get_char(i) {
            return false;
        }
        i += 1;
    }
    proof {
        assert(a@ =~= b@);
    }
    true
}

/// The character code of `c`, folded to ASCII upper case.
pub fn upper_of(c: char) -> (r: u32)
    ensures
        r == upper_code(c),
{
    let u = c as u32;
    if 97 <= u && u <= 122 {
        u - 32
    } else {
        u
    }
}

/// String equality up to ASCII case.
pub fn str_eq_ignore_case(a: &str, b: &str) -> (r: bool)
    ensures
        r == eq_ignore_case(a@, b@),
{
    let alen = a.unicode_len();
    let blen = b.unicode_len();
    if alen != blen {
        return false;
    }
    let mut i: usize = 0;
    while i < alen
        invariant
            alen == a@.len(),
            blen == b@.len(),
            alen == blen,
            i <= alen,
            forall|j: int| 0 <= j < i ==> upper_code(a@[j]) == upper_code(b@[j]),
        decreases alen - i,
    {
        if upper_of(a.get_char(i)) != upper_of(b.get_char(i)) {
            return false;
        }
        i += 1;
    }
    true
}

} // verus!
