//! Low-level text scanning: whitespace, identifiers, qualified names,
//! numbers, string literals, annotation tokens, comment extents, and
//! line/column accounting.  Every runtime scanner is pinned to a spec-level
//! scanner over the byte sequence.

use vstd::prelude::*;

use crate::util::{is_digit, is_ident_cont, is_ident_start, is_ws};

verus! {

// ---------------------------------------------------------------------------
// Spec scanners
// ---------------------------------------------------------------------------
/// First position at or after `i` holding a byte that is not whitespace.
pub open spec fn skip_ws(s: Seq<u8>, i: int) -> int
    decreases s.len() - i,
{
    if 0 <= i && i < s.len() && is_ws(s[i]) {
        skip_ws(s, i + 1)
    } else {
        i
    }
}

/// End of a run of identifier-continuation bytes starting at `i`.
pub open spec fn ident_end(s: Seq<u8>, i: int) -> int
    decreases s.len() - i,
{
    if 0 <= i && i < s.len() && is_ident_cont(s[i]) {
        ident_end(s, i + 1)
    } else {
        i
    }
}

/// End of a dot-qualified name: identifier bytes, and a dot only when an
/// identifier start follows it.
pub open spec fn qual_end(s: Seq<u8>, i: int) -> int
    decreases s.len() - i,
{
    if 0 <= i && i < s.len() && (is_ident_cont(s[i]) || (s[i] == 46 && i + 1 < s.len()
        && is_ident_start(s[i + 1]))) {
        qual_end(s, i + 1)
    } else {
        i
    }
}

/// End of a run of decimal digits starting at `i`.
pub open spec fn digits_end(s: Seq<u8>, i: int) -> int
    decreases s.len() - i,
{
    if 0 <= i && i < s.len() && is_digit(s[i]) {
        digits_end(s, i + 1)
    } else {
        i
    }
}

/// The numeric value of one digit byte; bytes outside `0`..`9` count as 0.
pub open spec fn digit_of(c: u8) -> nat {
    if 48 <= c <= 57 {
        (c - 48) as nat
    } else {
        0
    }
}

/// The value of the digit run `s[i..j)`, read left to right.
pub open spec fn digits_val(s: Seq<u8>, i: int, j: int) -> nat
    decreases j - i,
{
    if i < j {
        digits_val(s, i, j - 1) * 10 + (if 0 <= j - 1 < s.len() {
            digit_of(s[j - 1])
        } else {
            0
        })
    } else {
        0
    }
}

/// Position of the line feed that ends the line starting at `i`, or the end
/// of the input.
pub open spec fn line_end(s: Seq<u8>, i: int) -> int
    decreases s.len() - i,
{
    if 0 <= i && i < s.len() && s[i] != 10 {
        line_end(s, i + 1)
    } else {
        i
    }
}

/// End of the content of a string literal opened before `i`: the position of
/// the closing quote, a line feed, or the end of the input.
pub open spec fn strlit_end(s: Seq<u8>, i: int) -> int
    decreases s.len() - i,
{
    if 0 <= i && i < s.len() && s[i] != 34 && s[i] != 10 {
        strlit_end(s, i + 1)
    } else {
        i
    }
}

/// Powers of ten.
pub open spec fn pow10(n: nat) -> nat
    decreases n,
{
    if n == 0 {
        1
    } else {
        10 * pow10((n - 1) as nat)
    }
}

// ---------------------------------------------------------------------------
// Range lemmas
// ---------------------------------------------------------------------------
/// Skipping whitespace stays within the input.
pub proof fn lemma_skip_ws_range(s: Seq<u8>, i: int)
    requires
        0 <= i <= s.len(),
    ensures
        i <= skip_ws(s, i) <= s.len(),
    decreases s.len() - i,
{
    if i < s.len() && is_ws(s[i]) {
        lemma_skip_ws_range(s, i + 1);
    }
}

/// An identifier run stays within the input.
pub proof fn lemma_ident_end_range(s: Seq<u8>, i: int)
    requires
        0 <= i <= s.len(),
    ensures
        i <= ident_end(s, i) <= s.len(),
    decreases s.len() - i,
{
    if i < s.len() && is_ident_cont(s[i]) {
        lemma_ident_end_range(s, i + 1);
    }
}

/// A qualified-name run stays within the input.
pub proof fn lemma_qual_end_range(s: Seq<u8>, i: int)
    requires
        0 <= i <= s.len(),
    ensures
        i <= qual_end(s, i) <= s.len(),
    decreases s.len() - i,
{
    if i < s.len() && (is_ident_cont(s[i]) || (s[i] == 46 && i + 1 < s.len() && is_ident_start(
        s[i + 1],
    ))) {
        lemma_qual_end_range(s, i + 1);
    }
}

/// A digit run stays within the input.
pub proof fn lemma_digits_end_range(s: Seq<u8>, i: int)
    requires
        0 <= i <= s.len(),
    ensures
        i <= digits_end(s, i) <= s.len(),
    decreases s.len() - i,
{
    if i < s.len() && is_digit(s[i]) {
        lemma_digits_end_range(s, i + 1);
    }
}

/// A line extent stays within the input.
pub proof fn lemma_line_end_range(s: Seq<u8>, i: int)
    requires
        0 <= i <= s.len(),
    ensures
        i <= line_end(s, i) <= s.len(),
    decreases s.len() - i,
{
    if i < s.len() && s[i] != 10 {
        lemma_line_end_range(s, i + 1);
    }
}

/// A string-literal extent stays within the input.
pub proof fn lemma_strlit_end_range(s: Seq<u8>, i: int)
    requires
        0 <= i <= s.len(),
    ensures
        i <= strlit_end(s, i) <= s.len(),
    decreases s.len() - i,
{
    if i < s.len() && s[i] != 34 && s[i] != 10 {
        lemma_strlit_end_range(s, i + 1);
    }
}

/// Every byte of a digit run is a digit.
pub proof fn lemma_digits_end_digits(s: Seq<u8>, i: int)
    requires
        0 <= i <= s.len(),
    ensures
        forall|m: int| i <= m < digits_end(s, i) ==> is_digit(#[trigger] s[m]),
    decreases s.len() - i,
{
    if i < s.len() && is_digit(s[i]) {
        lemma_digits_end_digits(s, i + 1);
    }
}

/// A digit run of width `j - i` has a value below `pow10(j - i)`.
pub proof fn lemma_digits_val_bound(s: Seq<u8>, i: int, j: int)
    requires
        i <= j,
    ensures
        digits_val(s, i, j) < pow10((j - i) as nat),
    decreases j - i,
{
    if i < j {
        lemma_digits_val_bound(s, i, j - 1);
    }
}

/// Powers of ten grow with the exponent.
pub proof fn lemma_pow10_mono(a: nat, b: nat)
    requires
        a <= b,
    ensures
        pow10(a) <= pow10(b),
    decreases b,
{
    if a < b {
        lemma_pow10_mono(a, (b - 1) as nat);
    }
}

/// The numeric value of eighteen decimal digits fits far below `u64::MAX`.
pub proof fn lemma_pow10_18()
    ensures
        pow10(18) == 0x0de0_b6b3_a764_0000,
{
    assert(pow10(18) == 0x0de0_b6b3_a764_0000) by {
        reveal_with_fuel(pow10, 19);
    }
}

// ---------------------------------------------------------------------------
// Runtime scanners
// ---------------------------------------------------------------------------
/// Skips whitespace from `i`.
pub fn scan_ws(s: &[u8], i: usize) -> (r: usize)
    requires
        i <= s.len(),
    ensures
        r as int == skip_ws(s@, i as int),
        i <= r <= s.len(),
{
    let mut k: usize = i;
    while k < s.len() && is_ws(s[k])
        invariant
            i <= k <= s.len(),
            skip_ws(s@, i as int) == skip_ws(s@, k as int),
        decreases s.len() - k,
    {
        k = k + 1;
    }
    k
}

/// Scans to the end of an identifier run from `i`.
pub fn scan_ident_end(s: &[u8], i: usize) -> (r: usize)
    requires
        i <= s.len(),
    ensures
        r as int == ident_end(s@, i as int),
        i <= r <= s.len(),
{
    let mut k: usize = i;
    while k < s.len() && is_ident_cont(s[k])
        invariant
            i <= k <= s.len(),
            ident_end(s@, i as int) == ident_end(s@, k as int),
        decreases s.len() - k,
    {
        k = k + 1;
    }
    k
}

/// Scans to the end of a qualified-name run from `i`.
pub fn scan_qual_end(s: &[u8], i: usize) -> (r: usize)
    requires
        i <= s.len(),
    ensures
        r as int == qual_end(s@, i as int),
        i <= r <= s.len(),
{
    let mut k: usize = i;
    while k < s.len() && (is_ident_cont(s[k]) || (s[k] == 46 && k + 1 < s.len() && is_ident_start(
        s[k + 1],
    )))
        invariant
            i <= k <= s.len(),
            qual_end(s@, i as int) == qual_end(s@, k as int),
        decreases s.len() - k,
    {
        k = k + 1;
    }
    k
}

/// Scans to the end of a digit run from `i`.
pub fn scan_digits_end(s: &[u8], i: usize) -> (r: usize)
    requires
        i <= s.len(),
    ensures
        r as int == digits_end(s@, i as int),
        i <= r <= s.len(),
{
    let mut k: usize = i;
    while k < s.len() && is_digit(s[k])
        invariant
            i <= k <= s.len(),
            digits_end(s@, i as int) == digits_end(s@, k as int),
        decreases s.len() - k,
    {
        k = k + 1;
    }
    k
}

/// Scans to the line feed (or end of input) from `i`.
pub fn scan_line_end(s: &[u8], i: usize) -> (r: usize)
    requires
        i <= s.len(),
    ensures
        r as int == line_end(s@, i as int),
        i <= r <= s.len(),
{
    let mut k: usize = i;
    while k < s.len() && s[k] != 10
        invariant
            i <= k <= s.len(),
            line_end(s@, i as int) == line_end(s@, k as int),
        decreases s.len() - k,
    {
        k = k + 1;
    }
    k
}

/// Scans to the end of string-literal content from `i`.
pub fn scan_strlit_end(s: &[u8], i: usize) -> (r: usize)
    requires
        i <= s.len(),
    ensures
        r as int == strlit_end(s@, i as int),
        i <= r <= s.len(),
{
    let mut k: usize = i;
    while k < s.len() && s[k] != 34 && s[k] != 10
        invariant
            i <= k <= s.len(),
            strlit_end(s@, i as int) == strlit_end(s@, k as int),
        decreases s.len() - k,
    {
        k = k + 1;
    }
    k
}

// ---------------------------------------------------------------------------
// Token parsers
// ---------------------------------------------------------------------------
/// Spec parse of one identifier at `i`: its bytes and the position past it.
pub open spec fn spec_ident(s: Seq<u8>, i: int) -> Option<(Seq<u8>, int)> {
    if 0 <= i < s.len() && is_ident_start(s[i]) {
        Some((s.subrange(i, ident_end(s, i + 1)), ident_end(s, i + 1)))
    } else {
        None
    }
}

/// Spec parse of one dot-qualified name at `i`.
pub open spec fn spec_qual(s: Seq<u8>, i: int) -> Option<(Seq<u8>, int)> {
    if 0 <= i < s.len() && is_ident_start(s[i]) {
        Some((s.subrange(i, qual_end(s, i + 1)), qual_end(s, i + 1)))
    } else {
        None
    }
}

/// Spec parse of one quoted string literal at `i`: its content bytes and the
/// position past the closing quote.  The content may not hold a quote or a
/// line feed; there are no escapes.
pub open spec fn spec_strlit(s: Seq<u8>, i: int) -> Option<(Seq<u8>, int)> {
    if 0 <= i < s.len() && s[i] == 34 {
        if strlit_end(s, i + 1) < s.len() && s[strlit_end(s, i + 1)] == 34 {
            Some((s.subrange(i + 1, strlit_end(s, i + 1)), strlit_end(s, i + 1) + 1))
        } else {
            None
        }
    } else {
        None
    }
}

/// Spec parse of one decimal number at `i`.  A run longer than eighteen
/// digits is rejected so the value always fits the target integer width.
pub open spec fn spec_number(s: Seq<u8>, i: int) -> Option<(u64, int)> {
    if 0 <= i < s.len() && is_digit(s[i]) {
        if digits_end(s, i) - i <= 18 {
            Some((digits_val(s, i, digits_end(s, i)) as u64, digits_end(s, i)))
        } else {
            None
        }
    } else {
        None
    }
}

/// Relates a runtime token result to a spec token result.
pub open spec fn tok_eq(r: Option<(Vec<u8>, usize)>, g: Option<(Seq<u8>, int)>) -> bool {
    match r {
        Some(e) => g matches Some(t) && e.0@ == t.0 && e.1 as int == t.1,
        None => g is None,
    }
}

/// Parses one identifier at `i`.
pub fn p_ident(s: &[u8], i: usize) -> (r: Option<(Vec<u8>, usize)>)
    requires
        i <= s.len(),
    ensures
        tok_eq(r, spec_ident(s@, i as int)),
        r matches Some(e) ==> i < e.1 <= s.len(),
{
    if i < s.len() && is_ident_start(s[i]) {
        let j = scan_ident_end(s, i + 1);
        Some((crate::util::copy_range(s, i, j), j))
    } else {
        None
    }
}

/// Parses one dot-qualified name at `i`.
pub fn p_qual(s: &[u8], i: usize) -> (r: Option<(Vec<u8>, usize)>)
    requires
        i <= s.len(),
    ensures
        tok_eq(r, spec_qual(s@, i as int)),
        r matches Some(e) ==> i < e.1 <= s.len(),
{
    if i < s.len() && is_ident_start(s[i]) {
        let j = scan_qual_end(s, i + 1);
        Some((crate::util::copy_range(s, i, j), j))
    } else {
        None
    }
}

/// Parses one quoted string literal at `i`, returning its content.
pub fn p_strlit(s: &[u8], i: usize) -> (r: Option<(Vec<u8>, usize)>)
    requires
        i <= s.len(),
    ensures
        tok_eq(r, spec_strlit(s@, i as int)),
        r matches Some(e) ==> i < e.1 <= s.len(),
{
    if i < s.len() && s[i] == 34 {
        let j = scan_strlit_end(s, i + 1);
        if j < s.len() && s[j] == 34 {
            Some((crate::util::copy_range(s, i + 1, j), j + 1))
        } else {
            None
        }
    } else {
        None
    }
}

/// Parses one decimal number at `i`.
pub fn p_number(s: &[u8], i: usize) -> (r: Option<(u64, usize)>)
    requires
        i <= s.len(),
    ensures
        (match r {
            Some(e) => spec_number(s@, i as int) matches Some(t) && e.0 == t.0 && e.1 as int
                == t.1,
            None => spec_number(s@, i as int) is None,
        }),
        r matches Some(e) ==> i < e.1 <= s.len(),
{
    if i < s.len() && is_digit(s[i]) {
        let j = scan_digits_end(s, i);
        assert(i < j) by {
            assert(digits_end(s@, i as int) == digits_end(s@, i as int + 1));
            crate::scan::lemma_digits_end_range(s@, i as int + 1);
        }
        if j - i > 18 {
            return None;
        }
        let ghost jg = j as int;
        let mut acc: u64 = 0;
        let mut k: usize = i;
        proof {
            lemma_digits_end_digits(s@, i as int);
            lemma_digits_val_bound(s@, i as int, jg);
            lemma_pow10_18();
        }
        while k < j
            invariant
                i <= k <= j <= s.len(),
                j - i <= 18,
                jg == j as int,
                digits_end(s@, i as int) == jg,
                acc == digits_val(s@, i as int, k as int),
                forall|m: int| i <= m < jg ==> is_digit(s@[m]),
            decreases j - k,
        {
            proof {
                lemma_digits_val_bound(s@, i as int, k as int);
                lemma_pow10_mono((k - i) as nat, 17);
                lemma_pow10_18();
                assert(pow10(18) == 10 * pow10(17));
                assert(acc < pow10(17));
            }
            let d = s[k] - 48;
            acc = acc * 10 + (d as u64);
            k = k + 1;
        }
        Some((acc, j))
    } else {
        None
    }
}

// ---------------------------------------------------------------------------
// Line and column accounting
// ---------------------------------------------------------------------------
/// 1-based line number of byte position `p`.
pub open spec fn spec_line(s: Seq<u8>, p: int) -> int
    decreases p,
{
    if p <= 0 {
        1
    } else {
        spec_line(s, p - 1) + (if 0 <= p - 1 < s.len() && s[p - 1] == 10 {
            1int
        } else {
            0int
        })
    }
}

/// 1-based column number of byte position `p`.
pub open spec fn spec_col(s: Seq<u8>, p: int) -> int
    decreases p,
{
    if p <= 0 {
        1
    } else if 0 <= p - 1 < s.len() && s[p - 1] == 10 {
        1
    } else {
        spec_col(s, p - 1) + 1
    }
}

/// Computes the 1-based line and column of byte position `p`.
pub fn line_col(s: &[u8], p: usize) -> (r: (usize, usize))
    requires
        p <= s.len(),
        p < usize::MAX,
    ensures
        r.0 as int == spec_line(s@, p as int),
        r.1 as int == spec_col(s@, p as int),
{
    let mut line: usize = 1;
    let mut col: usize = 1;
    let mut k: usize = 0;
    while k < p
        invariant
            k <= p <= s.len(),
            p < usize::MAX,
            line as int == spec_line(s@, k as int),
            col as int == spec_col(s@, k as int),
            line <= k + 1,
            col <= k + 1,
        decreases p - k,
    {
        if s[k] == 10 {
            line = line + 1;
            col = 1;
        } else {
            col = col + 1;
        }
        k = k + 1;
    }
    (line, col)
}

} // verus!
