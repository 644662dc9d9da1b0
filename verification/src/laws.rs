//! Laws of the compiler, proved once over all inputs: the import round
//! trip, the enum passthrough idempotence, and the refusal of union shapes
//! beyond the null shorthand.

use vstd::prelude::*;

use crate::emit::{
    join_upto, spec_emit_decl, spec_emit_import, spec_find_anchor, spec_split,
};
use crate::lit::{s_e_as, s_e_semi, s_e_use, s_kw_null, s_kw_union};
use crate::model::{Emitted, GDecl, GImport, GTy, GEmitConfig, Parsed};
use crate::parse::{
    lemma_enum_items_range, spec_enum_decl, spec_enum_items, spec_import, spec_ty,
};
use crate::scan::{
    ident_end, lemma_ident_end_range, lemma_skip_ws_range, line_end, skip_ws, spec_ident,
    spec_qual,
};
use crate::util::{is_ident_cont, is_ws};

verus! {

// ---------------------------------------------------------------------------
// Window lemmas: a scan confined to a span of the input behaves the same on
// that span taken alone.
// ---------------------------------------------------------------------------
/// Whitespace skipping confined to a window equals the skip on the window.
pub proof fn lemma_skip_ws_window(s: Seq<u8>, t: Seq<u8>, off: int, i: int)
    requires
        0 <= off,
        0 <= i <= t.len(),
        off + t.len() <= s.len(),
        t == s.subrange(off, off + t.len()),
        skip_ws(s, off + i) <= off + t.len(),
    ensures
        skip_ws(t, i) == skip_ws(s, off + i) - off,
    decreases t.len() - i,
{
    if i < t.len() && is_ws(t[i]) {
        assert(t[i] == s[off + i]);
        lemma_skip_ws_window(s, t, off, i + 1);
    } else if i < t.len() {
        assert(t[i] == s[off + i]);
    } else {
        lemma_skip_ws_range(s, off + i);
    }
}

/// An identifier scan confined to a window equals the scan on the window.
pub proof fn lemma_ident_end_window(s: Seq<u8>, t: Seq<u8>, off: int, i: int)
    requires
        0 <= off,
        0 <= i <= t.len(),
        off + t.len() <= s.len(),
        t == s.subrange(off, off + t.len()),
        ident_end(s, off + i) <= off + t.len(),
    ensures
        ident_end(t, i) == ident_end(s, off + i) - off,
    decreases t.len() - i,
{
    if i < t.len() && is_ident_cont(t[i]) {
        assert(t[i] == s[off + i]);
        lemma_ident_end_window(s, t, off, i + 1);
    } else if i < t.len() {
        assert(t[i] == s[off + i]);
    } else {
        lemma_ident_end_range(s, off + i);
    }
}

/// A line scan confined to a window equals the scan on the window.
pub proof fn lemma_line_end_window(s: Seq<u8>, t: Seq<u8>, off: int, i: int)
    requires
        0 <= off,
        0 <= i <= t.len(),
        off + t.len() <= s.len(),
        t == s.subrange(off, off + t.len()),
        line_end(s, off + i) <= off + t.len(),
    ensures
        line_end(t, i) == line_end(s, off + i) - off,
    decreases t.len() - i,
{
    if i < t.len() && t[i] != 10 {
        assert(t[i] == s[off + i]);
        lemma_line_end_window(s, t, off, i + 1);
    } else if i < t.len() {
        assert(t[i] == s[off + i]);
    } else {
        crate::scan::lemma_line_end_range(s, off + i);
    }
}

/// An identifier token read inside a window is the same token.
pub proof fn lemma_ident_tok_window(s: Seq<u8>, t: Seq<u8>, off: int, i: int)
    requires
        0 <= off,
        0 <= i < t.len(),
        off + t.len() <= s.len(),
        t == s.subrange(off, off + t.len()),
        spec_ident(s, off + i) matches Some(w) && w.1 <= off + t.len(),
    ensures
        spec_ident(t, i) matches Some(w2) && spec_ident(s, off + i) matches Some(w) && w2.0
            == w.0 && w2.1 == w.1 - off,
{
    assert(t[i] == s[off + i]);
    lemma_ident_end_range(s, off + i + 1);
    lemma_ident_end_window(s, t, off, i + 1);
    let e_s = ident_end(s, off + i + 1);
    assert(t.subrange(i, e_s - off) =~= s.subrange(off + i, e_s));
}

/// An enum body scan confined to a window equals the scan on the window.
pub proof fn lemma_enum_items_window(s: Seq<u8>, t: Seq<u8>, off: int, i: int)
    requires
        0 <= off,
        0 <= i <= t.len(),
        off + t.len() <= s.len(),
        t == s.subrange(off, off + t.len()),
        spec_enum_items(s, off + i) matches Some(j) && j <= off + t.len(),
    ensures
        spec_enum_items(t, i) matches Some(j2) && spec_enum_items(s, off + i) matches Some(j)
            && j2 == j - off,
    decreases t.len() - i,
{
    let j = spec_enum_items(s, off + i)->Some_0;
    lemma_enum_items_range(s, off + i);
    lemma_skip_ws_range(s, off + i);
    let k_s = skip_ws(s, off + i);
    if s[k_s] == 125 {
        assert(j == k_s + 1);
        lemma_skip_ws_window(s, t, off, i);
        assert(t[k_s - off] == s[k_s]);
    } else if s[k_s] == 47 && k_s + 1 < s.len() && s[k_s + 1] == 47 {
        let e_s = line_end(s, k_s + 2);
        crate::scan::lemma_line_end_range(s, k_s + 2);
        lemma_enum_items_range(s, e_s);
        assert(e_s < j);
        lemma_skip_ws_window(s, t, off, i);
        assert(t[k_s - off] == s[k_s]);
        assert(t[k_s - off + 1] == s[k_s + 1]);
        lemma_line_end_window(s, t, off, k_s - off + 2);
        lemma_enum_items_window(s, t, off, e_s - off);
    } else {
        let e_s = ident_end(s, k_s + 1);
        lemma_ident_end_range(s, k_s + 1);
        let c_s = skip_ws(s, e_s);
        lemma_skip_ws_range(s, e_s);
        if c_s < s.len() && s[c_s] == 44 {
            lemma_enum_items_range(s, c_s + 1);
            assert(c_s < j);
            lemma_skip_ws_window(s, t, off, i);
            assert(t[k_s - off] == s[k_s]);
            lemma_ident_end_window(s, t, off, k_s - off + 1);
            lemma_skip_ws_window(s, t, off, e_s - off);
            assert(t[c_s - off] == s[c_s]);
            lemma_enum_items_window(s, t, off, c_s - off + 1);
        } else {
            lemma_enum_items_range(s, c_s);
            assert(c_s < j);
            lemma_skip_ws_window(s, t, off, i);
            assert(t[k_s - off] == s[k_s]);
            lemma_ident_end_window(s, t, off, k_s - off + 1);
            lemma_skip_ws_window(s, t, off, e_s - off);
            assert(t[c_s - off] == s[c_s]);
            lemma_enum_items_window(s, t, off, c_s - off);
        }
    }
}

// ---------------------------------------------------------------------------
// The enum passthrough law
// ---------------------------------------------------------------------------
/// An enum declaration passes through the compiler verbatim, and the
/// passthrough is idempotent: the emitted text is exactly the matched
/// source span, re-parsing that text consumes all of it and yields the very
/// same declaration, so emitting again gives byte-identical output.
#[verifier::rlimit(100)]
pub proof fn lemma_enum_round_trip(
    s: Seq<u8>,
    i: int,
    name: Seq<u8>,
    raw: Seq<u8>,
    j: int,
    cfg: GEmitConfig,
)
    requires
        0 <= i <= s.len(),
        spec_enum_decl(s, i) == Parsed::Found(GDecl::EnumDecl { name, raw }, j),
    ensures
        spec_emit_decl(GDecl::EnumDecl { name, raw }, cfg) == Emitted::Text(raw),
        raw == s.subrange(i, j),
        spec_enum_decl(raw, 0) == Parsed::Found(
            GDecl::EnumDecl { name, raw },
            raw.len() as int,
        ),
{
    crate::parse::lemma_enum_decl_advances(s, i);
    lemma_ident_end_range(s, i + 1);
    let j0 = ident_end(s, i + 1);
    lemma_skip_ws_range(s, j0);
    let k = skip_ws(s, j0);
    lemma_ident_end_range(s, k + 1);
    let a = ident_end(s, k + 1);
    lemma_skip_ws_range(s, a);
    let b = skip_ws(s, a);
    lemma_enum_items_range(s, b + 1);
    let t = s.subrange(i, j);
    assert(t.len() == j - i);
    // the keyword token inside the window
    lemma_ident_tok_window(s, t, i, 0);
    assert(t.subrange(0, j0 - i) =~= s.subrange(i, j0));
    // the name token inside the window
    lemma_skip_ws_window(s, t, i, j0 - i);
    lemma_ident_tok_window(s, t, i, k - i);
    assert(t.subrange(k - i, a - i) =~= s.subrange(k, a));
    // the opening brace and the items
    lemma_skip_ws_window(s, t, i, a - i);
    assert(t[b - i] == s[b]);
    lemma_enum_items_window(s, t, i, b - i + 1);
    // the raw span of the re-parse is the whole window
    assert(t.subrange(0, j - i) =~= t);
}

// ---------------------------------------------------------------------------
// The import round-trip law
// ---------------------------------------------------------------------------
/// For every import declaration parsed from source, the emitted statement
/// reproduces the module path: the root marker followed by the retained
/// path segments, and an alias clause exactly when the alias differs from
/// the final path segment.
pub proof fn lemma_import_round_trip(
    s: Seq<u8>,
    i: int,
    d: GImport,
    j: int,
    cfg: GEmitConfig,
    k: int,
)
    requires
        0 <= i <= s.len(),
        spec_import(s, i) == Parsed::Found(GDecl::Import(d), j),
        spec_find_anchor(spec_split(d.path), cfg.anchor, 0) == Some(k),
        k + cfg.anchor_drop < spec_split(d.path).len(),
    ensures
        ({
            let segs = spec_split(d.path);
            let start = k + cfg.anchor_drop;
            let joined = join_upto(segs, start, segs.len() - start);
            &&& (segs.last() == d.alias ==> spec_emit_import(d, cfg) == Emitted::Text(
                s_e_use() + cfg.root + joined + s_e_semi(),
            ))
            &&& (segs.last() != d.alias ==> spec_emit_import(d, cfg) == Emitted::Text(
                s_e_use() + cfg.root + joined + s_e_as() + d.alias + s_e_semi(),
            ))
        }),
{
    assert(d.kind == crate::lit::s_kw_idl());
    let segs = spec_split(d.path);
    let start = k + cfg.anchor_drop;
    let joined = join_upto(segs, start, segs.len() - start);
    if segs.last() == d.alias {
        assert(s_e_use() + cfg.root + joined + Seq::<u8>::empty() + s_e_semi() =~= s_e_use()
            + cfg.root + joined + s_e_semi());
    } else {
        assert(s_e_use() + cfg.root + joined + (s_e_as() + d.alias) + s_e_semi() =~= s_e_use()
            + cfg.root + joined + s_e_as() + d.alias + s_e_semi());
    }
}

// ---------------------------------------------------------------------------
// The union refusal law
// ---------------------------------------------------------------------------
/// A union type beyond the null/one-type shorthand is judged unsupported,
/// never guessed at: a union whose first arm is not `null`, a union of only
/// `null`, and a union with arms after the shorthand pair each end in the
/// unsupported outcome.  The proof is by unfolding the type parser.
pub proof fn lemma_union_not_shorthand(s: Seq<u8>, i: int)
    requires
        0 <= i <= s.len(),
        spec_ident(s, i) matches Some(w) && w.0 == s_kw_union(),
    ensures
        ({
            let j = ident_end(s, i + 1);
            let k = skip_ws(s, j);
            k < s.len() && s[k] == 123 ==> {
                let a = skip_ws(s, k + 1);
                &&& (spec_qual(s, a) matches Some(q) && q.0 != s_kw_null() ==> spec_ty(s, i)
                    == Parsed::<GTy>::Unsup(a))
                &&& (spec_qual(s, a) is Some && spec_qual(s, a)->Some_0.0 == s_kw_null() ==> {
                    let b = skip_ws(s, spec_qual(s, a)->Some_0.1);
                    &&& (b < s.len() && s[b] == 125 ==> spec_ty(s, i) == Parsed::<GTy>::Unsup(
                        b,
                    ))
                    &&& (b < s.len() && s[b] == 44 ==> {
                        let c = skip_ws(s, b + 1);
                        spec_ty(s, c) matches Parsed::Found(t, e) ==> {
                            let f = skip_ws(s, e);
                            f < s.len() && s[f] == 44 ==> spec_ty(s, i) == Parsed::<GTy>::Unsup(
                                f,
                            )
                        }
                    })
                })
            }
        }),
{
}

} // verus!
