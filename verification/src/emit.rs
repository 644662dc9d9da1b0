//! The emitter: one rendering function per declaration variant, each pinned
//! to a spec-level rendering over the ghost model, writing Rust type
//! declaration syntax.

use vstd::prelude::*;

use crate::lit::{
    s_e_as, s_e_assign, s_e_case_close, s_e_colcol, s_e_colon, s_e_comma_nl, s_e_comment,
    s_e_close_brace, s_e_enum, s_e_fixed_close, s_e_fixed_open, s_e_gt, s_e_indent, s_e_lparen,
    s_e_nl, s_e_open_brace, s_e_option, s_e_semi, s_e_struct, s_e_type, s_e_use, s_kw_idl,
    v_c_import_kind, v_e_as, v_e_assign, v_e_enum, v_e_fixed_close, v_e_fixed_open,
    v_e_open_brace, v_e_option, v_e_struct, v_e_type, v_e_use, v_f_source_path, v_kw_idl,
    v_kw_import,
};
use crate::mapper::{case_ident, emit_simple, spec_case_ident, spec_emit_simple};
use crate::model::{
    CaseDecl, CompileError, Declaration, EmitConfig, Emitted, FieldDecl, GCase, GDecl,
    GEmitConfig, GField, GImport, GTy, ImportDecl, TypeExpr, attrs_view, cases_view, fields_view,
};
use crate::util::{bytes_eq, copy_range, push_bytes, push_vec};

verus! {

// ---------------------------------------------------------------------------
// Numbers
// ---------------------------------------------------------------------------
/// The decimal digits of `n`.
pub open spec fn spec_dec(n: nat) -> Seq<u8>
    decreases n,
{
    if n < 10 {
        seq![(48 + n) as u8]
    } else {
        spec_dec(n / 10) + seq![(48 + n % 10) as u8]
    }
}

/// Renders `n` in decimal.
pub fn dec_u64(n: u64) -> (r: Vec<u8>)
    ensures
        r@ == spec_dec(n as nat),
    decreases n,
{
    if n < 10 {
        let mut out: Vec<u8> = Vec::new();
        out.push(48 + (n as u8));
        proof {
            assert(out@ =~= spec_dec(n as nat));
        }
        out
    } else {
        let mut out = dec_u64(n / 10);
        out.push(48 + ((n % 10) as u8));
        proof {
            assert(out@ =~= spec_dec((n / 10) as nat) + seq![(48 + (n as nat) % 10) as u8]);
        }
        out
    }
}

// ---------------------------------------------------------------------------
// Type expressions
// ---------------------------------------------------------------------------
/// The rendered text of a type expression: the mapped simple name wrapped in
/// one `Option<`...`>` layer per optional depth.
pub open spec fn spec_emit_ty(t: GTy) -> Seq<u8>
    decreases t.depth,
{
    if t.depth == 0 {
        spec_emit_simple(t.name)
    } else {
        s_e_option() + spec_emit_ty(GTy { depth: (t.depth - 1) as nat, name: t.name }) + s_e_gt()
    }
}

/// Renders a type expression.
pub fn emit_ty(t: &TypeExpr) -> (r: Vec<u8>)
    ensures
        r@ == spec_emit_ty(t@),
    decreases t,
{
    match t {
        TypeExpr::Simple(n) => emit_simple(n.as_slice()),
        TypeExpr::Optional(inner) => {
            let mut out = v_e_option();
            let mid = emit_ty(inner);
            push_vec(&mut out, &mid);
            out.push(62);
            proof {
                assert((GTy { depth: (t@.depth - 1) as nat, name: t@.name }) == (**inner)@);
                assert(out@ =~= s_e_option() + spec_emit_ty((**inner)@) + s_e_gt());
            }
            out
        },
    }
}

// ---------------------------------------------------------------------------
// Attribute comment lines
// ---------------------------------------------------------------------------
/// The first `k` attributes rendered as comment lines, one per attribute.
pub open spec fn attr_lines_upto(attrs: Seq<Seq<u8>>, k: int) -> Seq<u8>
    decreases k,
{
    if k <= 0 {
        Seq::empty()
    } else {
        attr_lines_upto(attrs, k - 1) + s_e_comment() + (if 0 <= k - 1 < attrs.len() {
            attrs[k - 1]
        } else {
            Seq::empty()
        }) + s_e_nl()
    }
}

/// All attributes rendered as comment lines.
pub open spec fn spec_attr_lines(attrs: Seq<Seq<u8>>) -> Seq<u8> {
    attr_lines_upto(attrs, attrs.len() as int)
}

/// Appends each attribute as its own comment line.
pub fn push_attr_lines(out: &mut Vec<u8>, attrs: &Vec<Vec<u8>>)
    ensures
        final(out)@ == old(out)@ + spec_attr_lines(attrs_view(attrs@)),
{
    let ghost base = out@;
    let mut k: usize = 0;
    proof {
        assert(base + attr_lines_upto(attrs_view(attrs@), 0) =~= base);
    }
    while k < attrs.len()
        invariant
            k <= attrs.len(),
            out@ == base + attr_lines_upto(attrs_view(attrs@), k as int),
        decreases attrs.len() - k,
    {
        out.push(47);
        out.push(47);
        out.push(32);
        push_vec(out, &attrs[k]);
        out.push(10);
        proof {
            assert(out@ =~= base + attr_lines_upto(attrs_view(attrs@), k as int) + s_e_comment()
                + attrs_view(attrs@)[k as int] + s_e_nl());
        }
        k = k + 1;
    }
}

// ---------------------------------------------------------------------------
// Records
// ---------------------------------------------------------------------------
/// One rendered field: its attribute comment lines, then
/// `name: <mapped type>,`.
pub open spec fn spec_emit_field(f: GField) -> Seq<u8> {
    spec_attr_lines(f.attrs) + f.name + s_e_colon() + spec_emit_ty(f.ty) + s_e_comma_nl()
}

/// The first `k` fields rendered in order.
pub open spec fn fields_text_upto(fs: Seq<GField>, k: int) -> Seq<u8>
    decreases k,
{
    if k <= 0 {
        Seq::empty()
    } else {
        fields_text_upto(fs, k - 1) + (if 0 <= k - 1 < fs.len() {
            spec_emit_field(fs[k - 1])
        } else {
            Seq::empty()
        })
    }
}

/// A rendered record declaration.
pub open spec fn spec_emit_record(name: Seq<u8>, fields: Seq<GField>) -> Seq<u8> {
    s_e_struct() + name + s_e_open_brace() + fields_text_upto(fields, fields.len() as int)
        + s_e_close_brace()
}

/// Renders a record declaration.
pub fn emit_record(name: &Vec<u8>, fields: &Vec<FieldDecl>) -> (r: Vec<u8>)
    ensures
        r@ == spec_emit_record(name@, fields_view(fields@)),
{
    let mut out = v_e_struct();
    push_vec(&mut out, name);
    push_bytes(&mut out, v_e_open_brace().as_slice());
    let ghost base = out@;
    let mut k: usize = 0;
    proof {
        assert(base + fields_text_upto(fields_view(fields@), 0) =~= base);
    }
    while k < fields.len()
        invariant
            k <= fields.len(),
            out@ == base + fields_text_upto(fields_view(fields@), k as int),
        decreases fields.len() - k,
    {
        push_attr_lines(&mut out, &fields[k].attrs);
        push_vec(&mut out, &fields[k].name);
        out.push(58);
        out.push(32);
        let ty = emit_ty(&fields[k].ty);
        push_vec(&mut out, &ty);
        out.push(44);
        out.push(10);
        proof {
            assert(out@ =~= base + fields_text_upto(fields_view(fields@), k as int)
                + spec_emit_field(fields_view(fields@)[k as int]));
        }
        k = k + 1;
    }
    out.push(125);
    proof {
        assert(out@ =~= spec_emit_record(name@, fields_view(fields@)));
    }
    out
}

// ---------------------------------------------------------------------------
// Variants
// ---------------------------------------------------------------------------
/// One rendered case: indentation, the transformed case identifier, and the
/// payload type in parentheses.
pub open spec fn spec_emit_case(c: GCase) -> Seq<u8> {
    s_e_indent() + spec_case_ident(c.label) + s_e_lparen() + spec_emit_ty(c.payload)
        + s_e_case_close()
}

/// The first `k` cases rendered in order.
pub open spec fn cases_text_upto(cs: Seq<GCase>, k: int) -> Seq<u8>
    decreases k,
{
    if k <= 0 {
        Seq::empty()
    } else {
        cases_text_upto(cs, k - 1) + (if 0 <= k - 1 < cs.len() {
            spec_emit_case(cs[k - 1])
        } else {
            Seq::empty()
        })
    }
}

/// A rendered variant declaration: a tagged union.
pub open spec fn spec_emit_variant(name: Seq<u8>, cases: Seq<GCase>) -> Seq<u8> {
    s_e_enum() + name + s_e_open_brace() + cases_text_upto(cases, cases.len() as int)
        + s_e_close_brace()
}

/// Renders a variant declaration.
pub fn emit_variant(name: &Vec<u8>, cases: &Vec<CaseDecl>) -> (r: Vec<u8>)
    ensures
        r@ == spec_emit_variant(name@, cases_view(cases@)),
{
    let mut out = v_e_enum();
    push_vec(&mut out, name);
    push_bytes(&mut out, v_e_open_brace().as_slice());
    let ghost base = out@;
    let mut k: usize = 0;
    proof {
        assert(base + cases_text_upto(cases_view(cases@), 0) =~= base);
    }
    while k < cases.len()
        invariant
            k <= cases.len(),
            out@ == base + cases_text_upto(cases_view(cases@), k as int),
        decreases cases.len() - k,
    {
        out.push(32);
        out.push(32);
        let ci = case_ident(cases[k].label.as_slice());
        push_vec(&mut out, &ci);
        out.push(40);
        let ty = emit_ty(&cases[k].payload);
        push_vec(&mut out, &ty);
        out.push(41);
        out.push(44);
        out.push(10);
        proof {
            assert(out@ =~= base + cases_text_upto(cases_view(cases@), k as int) + spec_emit_case(
                cases_view(cases@)[k as int],
            ));
        }
        k = k + 1;
    }
    out.push(125);
    proof {
        assert(out@ =~= spec_emit_variant(name@, cases_view(cases@)));
    }
    out
}

// ---------------------------------------------------------------------------
// Type aliases and fixed declarations
// ---------------------------------------------------------------------------
/// A rendered typedef: its annotations as comment lines, then
/// `type Name = <mapped target>;`.
pub open spec fn spec_emit_typedef(name: Seq<u8>, target: GTy, attrs: Seq<Seq<u8>>) -> Seq<u8> {
    spec_attr_lines(attrs) + s_e_type() + name + s_e_assign() + spec_emit_ty(target) + s_e_semi()
}

/// Renders a typedef declaration.
pub fn emit_typedef(name: &Vec<u8>, target: &TypeExpr, attrs: &Vec<Vec<u8>>) -> (r: Vec<u8>)
    ensures
        r@ == spec_emit_typedef(name@, target@, attrs_view(attrs@)),
{
    let mut out: Vec<u8> = Vec::new();
    push_attr_lines(&mut out, attrs);
    push_bytes(&mut out, v_e_type().as_slice());
    push_vec(&mut out, name);
    push_bytes(&mut out, v_e_assign().as_slice());
    let ty = emit_ty(target);
    push_vec(&mut out, &ty);
    out.push(59);
    proof {
        assert(out@ =~= spec_emit_typedef(name@, target@, attrs_view(attrs@)));
    }
    out
}

/// A rendered fixed declaration: `type Name = [u8;<size>];`.
pub open spec fn spec_emit_fixed(name: Seq<u8>, size: u64) -> Seq<u8> {
    s_e_type() + name + s_e_assign() + s_e_fixed_open() + spec_dec(size as nat)
        + s_e_fixed_close()
}

/// Renders a fixed declaration.
pub fn emit_fixed(name: &Vec<u8>, size: u64) -> (r: Vec<u8>)
    ensures
        r@ == spec_emit_fixed(name@, size),
{
    let mut out = v_e_type();
    push_vec(&mut out, name);
    push_bytes(&mut out, v_e_assign().as_slice());
    push_bytes(&mut out, v_e_fixed_open().as_slice());
    let digits = dec_u64(size);
    push_vec(&mut out, &digits);
    push_bytes(&mut out, v_e_fixed_close().as_slice());
    proof {
        assert(out@ =~= spec_emit_fixed(name@, size));
    }
    out
}

// ---------------------------------------------------------------------------
// Imports
// ---------------------------------------------------------------------------
/// End of the path segment starting at `i`: the next slash, or the end.
pub open spec fn seg_end(p: Seq<u8>, i: int) -> int
    decreases p.len() - i,
{
    if 0 <= i && i < p.len() && p[i] != 47 {
        seg_end(p, i + 1)
    } else {
        i
    }
}

/// A path segment run stays within the input.
pub proof fn lemma_seg_end_range(p: Seq<u8>, i: int)
    requires
        0 <= i <= p.len(),
    ensures
        i <= seg_end(p, i) <= p.len(),
    decreases p.len() - i,
{
    if i < p.len() && p[i] != 47 {
        lemma_seg_end_range(p, i + 1);
    }
}

/// The slash-separated segments of `p` from position `i` on.  An empty path
/// yields one empty segment, as splitting does.
pub open spec fn spec_segs(p: Seq<u8>, i: int) -> Seq<Seq<u8>>
    decreases p.len() - i,
{
    if !(0 <= i <= p.len()) {
        Seq::empty()
    } else {
        let e = seg_end(p, i);
        if e < p.len() {
            proof {
                lemma_seg_end_range(p, i);
            }
            seq![p.subrange(i, e)] + spec_segs(p, e + 1)
        } else {
            seq![p.subrange(i, e)]
        }
    }
}

/// The slash-separated segments of a whole path.
pub open spec fn spec_split(p: Seq<u8>) -> Seq<Seq<u8>> {
    spec_segs(p, 0)
}

/// Index of the first segment equal to the anchor, scanning from `k`.
pub open spec fn spec_find_anchor(segs: Seq<Seq<u8>>, anchor: Seq<u8>, k: int) -> Option<int>
    decreases segs.len() - k,
{
    if 0 <= k < segs.len() {
        if segs[k] == anchor {
            Some(k)
        } else {
            spec_find_anchor(segs, anchor, k + 1)
        }
    } else {
        None
    }
}

/// The first `k` retained segments, each preceded by the path separator.
pub open spec fn join_upto(segs: Seq<Seq<u8>>, start: int, k: int) -> Seq<u8>
    decreases k,
{
    if k <= 0 {
        Seq::empty()
    } else {
        join_upto(segs, start, k - 1) + s_e_colcol() + (if 0 <= start + k - 1 < segs.len() {
            segs[start + k - 1]
        } else {
            Seq::empty()
        })
    }
}

/// A rendered import declaration.
///
/// The source path is split on slashes; the first segment equal to the
/// configured anchor locates the interesting tail, of which the first
/// `anchor_drop` segments (starting with the anchor itself) are dropped.
/// The retained segments, prefixed by the configured root marker, form the
/// module path; an alias clause appears only when the alias differs from
/// the final retained segment.  A path without the anchor, or one whose
/// retained tail is empty, has no usable module path and is reported as a
/// structurally incomplete declaration; a kind other than `idl` is
/// unsupported.
pub open spec fn spec_emit_import(d: GImport, cfg: GEmitConfig) -> Emitted {
    if d.kind != s_kw_idl() {
        Emitted::Unsup
    } else {
        let segs = spec_split(d.path);
        match spec_find_anchor(segs, cfg.anchor, 0) {
            None => Emitted::Missing,
            Some(k) => {
                if segs.len() <= k + cfg.anchor_drop {
                    Emitted::Missing
                } else {
                    let start = k + cfg.anchor_drop;
                    let joined = join_upto(segs, start, segs.len() - start);
                    let alias_clause: Seq<u8> = if segs.last() == d.alias {
                        Seq::empty()
                    } else {
                        s_e_as() + d.alias
                    };
                    Emitted::Text(s_e_use() + cfg.root + joined + alias_clause + s_e_semi())
                }
            },
        }
    }
}

/// Splits a path on slashes from position `i`.
fn split_segs(p: &[u8], i: usize) -> (r: Vec<Vec<u8>>)
    requires
        i <= p.len(),
    ensures
        attrs_view(r@) == spec_segs(p@, i as int),
        r@.len() > 0,
    decreases p.len() - i,
{
    let mut e: usize = i;
    while e < p.len() && p[e] != 47
        invariant
            i <= e <= p.len(),
            seg_end(p@, i as int) == seg_end(p@, e as int),
        decreases p.len() - e,
    {
        e = e + 1;
    }
    let head = copy_range(p, i, e);
    if e < p.len() {
        let mut rest = split_segs(p, e + 1);
        let ghost restv = rest@;
        let mut out: Vec<Vec<u8>> = Vec::new();
        out.push(head);
        out.append(&mut rest);
        proof {
            assert(attrs_view(out@) =~= seq![out@[0]@] + attrs_view(restv));
        }
        out
    } else {
        let mut out: Vec<Vec<u8>> = Vec::new();
        out.push(head);
        proof {
            assert(attrs_view(out@) =~= seq![out@[0]@]);
        }
        out
    }
}

/// Renders an import declaration under the given configuration.
pub fn emit_import(d: &ImportDecl, cfg: &EmitConfig) -> (r: Result<Vec<u8>, CompileError>)
    ensures
        (match spec_emit_import(d@, cfg@) {
            Emitted::Text(t) => r matches Ok(out) && out@ == t,
            Emitted::Unsup => r matches Err(e) && e is Unsupported,
            Emitted::Missing => r matches Err(e) && e is MissingChild,
        }),
{
    if !bytes_eq(d.kind.as_slice(), v_kw_idl().as_slice()) {
        return Err(CompileError::Unsupported { construct: v_c_import_kind() });
    }
    let segs = split_segs(d.path.as_slice(), 0);
    let ghost gsegs = attrs_view(segs@);
    let mut k: usize = 0;
    let mut found: bool = false;
    while k < segs.len() && !found
        invariant
            0 <= k <= segs.len(),
            gsegs == attrs_view(segs@),
            !found ==> spec_find_anchor(gsegs, cfg.anchor@, 0) == spec_find_anchor(
                gsegs,
                cfg.anchor@,
                k as int,
            ),
            found ==> k < segs.len() && spec_find_anchor(gsegs, cfg.anchor@, 0) == Some(
                k as int,
            ),
        decreases segs.len() - k + (if found {
            0int
        } else {
            1int
        }),
    {
        if bytes_eq(segs[k].as_slice(), cfg.anchor.as_slice()) {
            found = true;
        } else {
            k = k + 1;
        }
    }
    if !found {
        return Err(
            CompileError::MissingChild { declaration: v_kw_import(), field: v_f_source_path() },
        );
    }
    if segs.len() - k <= cfg.anchor_drop {
        return Err(
            CompileError::MissingChild { declaration: v_kw_import(), field: v_f_source_path() },
        );
    }
    let start = k + cfg.anchor_drop;
    let mut out = v_e_use();
    push_vec(&mut out, &cfg.root);
    let ghost base = out@;
    let mut m: usize = start;
    proof {
        assert(base + join_upto(gsegs, start as int, 0) =~= base);
    }
    while m < segs.len()
        invariant
            start <= m <= segs.len(),
            segs@.len() == gsegs.len(),
            gsegs == attrs_view(segs@),
            out@ == base + join_upto(gsegs, start as int, m - start),
        decreases segs.len() - m,
    {
        out.push(58);
        out.push(58);
        push_vec(&mut out, &segs[m]);
        proof {
            assert(out@ =~= base + join_upto(gsegs, start as int, m - start) + s_e_colcol()
                + gsegs[m as int]);
        }
        m = m + 1;
    }
    let last = segs.len() - 1;
    if !bytes_eq(segs[last].as_slice(), d.alias.as_slice()) {
        push_bytes(&mut out, v_e_as().as_slice());
        push_vec(&mut out, &d.alias);
    }
    out.push(59);
    proof {
        assert(gsegs.last() == gsegs[gsegs.len() - 1]);
        assert(out@ =~= s_e_use() + cfg.root@ + join_upto(
            gsegs,
            start as int,
            gsegs.len() - start,
        ) + (if gsegs.last() == d.alias@ {
            Seq::<u8>::empty()
        } else {
            s_e_as() + d.alias@
        }) + s_e_semi());
    }
    Ok(out)
}

// ---------------------------------------------------------------------------
// Declarations
// ---------------------------------------------------------------------------
/// A rendered declaration, without its terminating line feed.  Comments and
/// enum bodies pass through verbatim; only imports can fail.
pub open spec fn spec_emit_decl(d: GDecl, cfg: GEmitConfig) -> Emitted {
    match d {
        GDecl::Import(imp) => spec_emit_import(imp, cfg),
        GDecl::Comment(text) => Emitted::Text(text),
        GDecl::TypeAlias { name, target, attrs } => Emitted::Text(
            spec_emit_typedef(name, target, attrs),
        ),
        GDecl::EnumDecl { name, raw } => Emitted::Text(raw),
        GDecl::FixedDecl { name, size } => Emitted::Text(spec_emit_fixed(name, size)),
        GDecl::RecordDecl { name, fields } => Emitted::Text(spec_emit_record(name, fields)),
        GDecl::VariantDecl { name, cases } => Emitted::Text(spec_emit_variant(name, cases)),
    }
}

/// Renders one declaration under the given configuration.
pub fn emit_declaration(d: &Declaration, cfg: &EmitConfig) -> (r: Result<Vec<u8>, CompileError>)
    ensures
        (match spec_emit_decl(d@, cfg@) {
            Emitted::Text(t) => r matches Ok(out) && out@ == t,
            Emitted::Unsup => r matches Err(e) && e is Unsupported,
            Emitted::Missing => r matches Err(e) && e is MissingChild,
        }),
{
    match d {
        Declaration::Import(imp) => emit_import(imp, cfg),
        Declaration::Comment(text) => Ok(copy_range(text.as_slice(), 0, text.len())),
        Declaration::TypeAlias { name, target, attrs } => Ok(emit_typedef(name, target, attrs)),
        Declaration::EnumDecl { name, raw } => Ok(copy_range(raw.as_slice(), 0, raw.len())),
        Declaration::FixedDecl { name, size } => Ok(emit_fixed(name, *size)),
        Declaration::RecordDecl { name, fields } => Ok(emit_record(name, fields)),
        Declaration::VariantDecl { name, cases } => Ok(emit_variant(name, cases)),
    }
}

} // verus!
