//! The name and type mapper: the fixed primitive lookup table, the lexical
//! rewrite of dotted qualifiers to the target path separator, and the case
//! transform for switch labels.

use vstd::prelude::*;

use crate::lit::{
    s_e_colcol, s_p_bytes, s_p_uint32, s_p_uint64, s_r_bytes, s_r_u32, s_r_u64, v_p_bytes,
    v_p_uint32, v_p_uint64, v_r_bytes, v_r_u32, v_r_u64,
};
use crate::util::{bytes_eq, copy_range, push_vec, to_lower, to_upper};

verus! {

/// The fixed primitive table: `bytes` becomes the byte-slice type, `uint64`
/// and `uint32` the unsigned integer types; every other name passes through
/// unchanged, taken to refer to another generated declaration.
pub open spec fn spec_map_primitive(n: Seq<u8>) -> Seq<u8> {
    if n == s_p_bytes() {
        s_r_bytes()
    } else if n == s_p_uint64() {
        s_r_u64()
    } else if n == s_p_uint32() {
        s_r_u32()
    } else {
        n
    }
}

/// The dot rewrite applied to the first `k` bytes of `n`: every `.` becomes
/// the two-byte path separator, every other byte stays.
pub open spec fn dots_upto(n: Seq<u8>, k: int) -> Seq<u8>
    decreases k,
{
    if k <= 0 {
        Seq::empty()
    } else {
        dots_upto(n, k - 1) + (if 0 <= k - 1 < n.len() && n[k - 1] == 46 {
            s_e_colcol()
        } else if 0 <= k - 1 < n.len() {
            seq![n[k - 1]]
        } else {
            Seq::empty()
        })
    }
}

/// The dot rewrite of a whole name.
pub open spec fn spec_dots(n: Seq<u8>) -> Seq<u8> {
    dots_upto(n, n.len() as int)
}

/// A simple type name, mapped: primitive lookup first, then the lexical
/// qualifier rewrite.
pub open spec fn spec_emit_simple(n: Seq<u8>) -> Seq<u8> {
    spec_dots(spec_map_primitive(n))
}

/// The case transform for switch labels: the first byte upper-cased, all
/// following bytes lower-cased, with no regard for word boundaries.
pub open spec fn spec_case_ident(l: Seq<u8>) -> Seq<u8> {
    Seq::new(
        l.len(),
        |i: int|
            if i == 0 {
                to_upper(l[0])
            } else {
                to_lower(l[i])
            },
    )
}

/// Looks a type name up in the primitive table.
pub fn map_primitive(n: &[u8]) -> (r: Vec<u8>)
    ensures
        r@ == spec_map_primitive(n@),
{
    if bytes_eq(n, v_p_bytes().as_slice()) {
        v_r_bytes()
    } else if bytes_eq(n, v_p_uint64().as_slice()) {
        v_r_u64()
    } else if bytes_eq(n, v_p_uint32().as_slice()) {
        v_r_u32()
    } else {
        copy_range(n, 0, n.len())
    }
}

/// Rewrites every dot of a qualified name to the target path separator.
pub fn rewrite_dots(n: &[u8]) -> (r: Vec<u8>)
    ensures
        r@ == spec_dots(n@),
{
    let mut out: Vec<u8> = Vec::new();
    let mut k: usize = 0;
    while k < n.len()
        invariant
            k <= n.len(),
            out@ == dots_upto(n@, k as int),
        decreases n.len() - k,
    {
        if n[k] == 46 {
            out.push(58);
            out.push(58);
            proof {
                assert(out@ =~= dots_upto(n@, k as int) + s_e_colcol());
            }
        } else {
            out.push(n[k]);
            proof {
                assert(out@ =~= dots_upto(n@, k as int) + seq![n@[k as int]]);
            }
        }
        k = k + 1;
    }
    out
}

/// Maps a simple type name for emission: primitive lookup, then the dot
/// rewrite.
pub fn emit_simple(n: &[u8]) -> (r: Vec<u8>)
    ensures
        r@ == spec_emit_simple(n@),
{
    let mapped = map_primitive(n);
    rewrite_dots(mapped.as_slice())
}

/// Derives the emitted case identifier from a switch label.
pub fn case_ident(l: &[u8]) -> (r: Vec<u8>)
    ensures
        r@ == spec_case_ident(l@),
{
    let mut out: Vec<u8> = Vec::new();
    let mut k: usize = 0;
    while k < l.len()
        invariant
            k <= l.len(),
            out@.len() == k,
            forall|m: int| 0 <= m < k ==> out@[m] == spec_case_ident(l@)[m],
        decreases l.len() - k,
    {
        if k == 0 {
            out.push(to_upper(l[0]));
        } else {
            out.push(to_lower(l[k]));
        }
        k = k + 1;
    }
    proof {
        assert(out@ =~= spec_case_ident(l@));
    }
    out
}

} // verus!
