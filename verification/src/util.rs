//! Byte classifiers and small helpers over byte slices and byte vectors.

use vstd::prelude::*;

verus! {

/// Space, horizontal tab, carriage return and line feed separate tokens.
#[verifier::allow_in_spec]
pub fn is_ws(c: u8) -> bool
    returns
        (c == 32 || c == 9 || c == 13 || c == 10),
{
    c == 32 || c == 9 || c == 13 || c == 10
}

/// An identifier starts with an ASCII letter.
#[verifier::allow_in_spec]
pub fn is_ident_start(c: u8) -> bool
    returns
        (65 <= c <= 90 || 97 <= c <= 122),
{
    65 <= c && c <= 90 || 97 <= c && c <= 122
}

/// After the first byte an identifier continues with letters, digits and
/// underscores.
#[verifier::allow_in_spec]
pub fn is_ident_cont(c: u8) -> bool
    returns
        (65 <= c <= 90 || 97 <= c <= 122 || 48 <= c <= 57 || c == 95),
{
    65 <= c && c <= 90 || 97 <= c && c <= 122 || 48 <= c && c <= 57 || c == 95
}

/// An ASCII decimal digit.
#[verifier::allow_in_spec]
pub fn is_digit(c: u8) -> bool
    returns
        (48 <= c <= 57),
{
    48 <= c && c <= 57
}

/// The first byte of an ASCII letter pair, upper-cased.
#[verifier::allow_in_spec]
pub fn to_upper(c: u8) -> u8
    returns
        (if 97 <= c <= 122 {
            (c - 32) as u8
        } else {
            c
        }),
{
    if 97 <= c && c <= 122 {
        c - 32
    } else {
        c
    }
}

/// An ASCII letter, lower-cased.
#[verifier::allow_in_spec]
pub fn to_lower(c: u8) -> u8
    returns
        (if 65 <= c <= 90 {
            (c + 32) as u8
        } else {
            c
        }),
{
    if 65 <= c && c <= 90 {
        c + 32
    } else {
        c
    }
}

/// A hexadecimal digit, lower case.
#[verifier::allow_in_spec]
pub fn hex_digit(n: u8) -> u8
    requires
        n < 16,
    returns
        (if n < 10 {
            (48 + n) as u8
        } else {
            (87 + n) as u8
        }),
{
    if n < 10 {
        48 + n
    } else {
        87 + n
    }
}

/// True exactly when the two byte slices hold the same bytes.
pub fn bytes_eq(a: &[u8], b: &[u8]) -> (r: bool)
    ensures
        r == (a@ == b@),
{
    if a.len() != b.len() {
        return false;
    }
    let mut k: usize = 0;
    while k < a.len()
        invariant
            k <= a.len(),
            a.len() == b.len(),
            forall|m: int| 0 <= m < k ==> a@[m] == b@[m],
        decreases a.len() - k,
    {
        if a[k] != b[k] {
            return false;
        }
        k = k + 1;
    }
    proof {
        assert(a@ =~= b@);
    }
    true
}

/// Appends all bytes of `s` to `out`.
pub fn push_bytes(out: &mut Vec<u8>, s: &[u8])
    ensures
        final(out)@ == old(out)@ + s@,
{
    let ghost base = out@;
    let mut k: usize = 0;
    proof {
        assert(base + s@.subrange(0, 0) =~= base);
    }
    while k < s.len()
        invariant
            k <= s.len(),
            out@ == base + s@.subrange(0, k as int),
        decreases s.len() - k,
    {
        out.push(s[k]);
        k = k + 1;
        proof {
            assert(s@.subrange(0, k as int) =~= s@.subrange(0, k as int - 1).push(s@[k as int
                - 1]));
        }
    }
    proof {
        assert(s@.subrange(0, s@.len() as int) =~= s@);
    }
}

/// Appends all bytes of the vector `s` to `out`.
pub fn push_vec(out: &mut Vec<u8>, s: &Vec<u8>)
    ensures
        final(out)@ == old(out)@ + s@,
{
    push_bytes(out, s.as_slice());
}

/// Copies the byte range `[from, to)` of `s` into a fresh vector.
pub fn copy_range(s: &[u8], from: usize, to: usize) -> (r: Vec<u8>)
    requires
        from <= to <= s.len(),
    ensures
        r@ == s@.subrange(from as int, to as int),
{
    let mut r: Vec<u8> = Vec::new();
    let mut k: usize = from;
    proof {
        assert(r@ =~= s@.subrange(from as int, from as int));
    }
    while k < to
        invariant
            from <= k <= to <= s.len(),
            r@ == s@.subrange(from as int, k as int),
        decreases to - k,
    {
        r.push(s[k]);
        k = k + 1;
        proof {
            assert(s@.subrange(from as int, k as int) =~= s@.subrange(from as int, k as int
                - 1).push(s@[k as int - 1]));
        }
    }
    r
}

} // verus!
