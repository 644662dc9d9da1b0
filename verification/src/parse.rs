//! The grammar parser and declaration extractor: recursive descent over the
//! source bytes, producing the typed domain model in one pass.  Every
//! runtime parser is pinned to a spec-level parser; success, the produced
//! model value, and the position reached are all fixed by the contract, and
//! so is the error class (syntax mismatch against recognized-but-unsupported
//! construct).

use vstd::prelude::*;

use crate::lit::{
    s_kw_as, s_kw_case, s_kw_enum, s_kw_fixed, s_kw_idl, s_kw_import, s_kw_namespace, s_kw_null,
    s_kw_protocol, s_kw_record, s_kw_switch, s_kw_typedef, s_kw_union, s_kw_variant,
    v_c_import_kind, v_c_union, v_kw_as, v_kw_case, v_kw_enum, v_kw_fixed, v_kw_idl, v_kw_import,
    v_kw_namespace, v_kw_null, v_kw_protocol, v_kw_record, v_kw_switch, v_kw_typedef, v_kw_union,
    v_kw_variant, v_x_decl, v_x_end, v_x_ident, v_x_number, v_x_string, v_x_token, v_x_type,
};
use crate::model::{
    attrs_view, cases_view, decls_view, fields_view, CaseDecl, CompileError, Declaration, Fault,
    FieldDecl, GCase, GDecl, GField, GImport, GProtocol, GTy, ImportDecl, Parsed, ProtocolFile,
    TypeExpr,
};
use crate::scan::{
    digits_end, ident_end, lemma_digits_end_range, lemma_ident_end_range, lemma_line_end_range,
    lemma_qual_end_range, lemma_skip_ws_range, lemma_strlit_end_range, line_end, p_ident, p_number,
    p_qual, p_strlit, qual_end, scan_digits_end, scan_ident_end, scan_line_end, scan_ws, skip_ws,
    spec_col, spec_ident, spec_line, spec_number, spec_qual, spec_strlit, strlit_end,
};
use crate::util::{bytes_eq, copy_range, is_digit, is_ident_start};

verus! {

// ---------------------------------------------------------------------------
// Annotations
// ---------------------------------------------------------------------------
/// Model of one parsed annotation `@name(arg)`: the name, the argument (the
/// content of a quoted argument, otherwise the bare token), and the verbatim
/// source span.
pub ghost struct GAnn {
    pub name: Seq<u8>,
    pub arg: Seq<u8>,
    pub raw: Seq<u8>,
}

/// One parsed annotation at runtime.
pub struct AnnTok {
    pub name: Vec<u8>,
    pub arg: Vec<u8>,
    pub raw: Vec<u8>,
}

impl View for AnnTok {
    type V = GAnn;

    open spec fn view(&self) -> GAnn {
        GAnn { name: self.name@, arg: self.arg@, raw: self.raw@ }
    }
}

/// Spec parse of one annotation `@name(arg)` at `i`.  The argument is a
/// quoted string, an identifier, or a digit run.
pub open spec fn spec_annotation(s: Seq<u8>, i: int) -> Option<(GAnn, int)> {
    if 0 <= i < s.len() && s[i] == 64 {
        match spec_ident(s, i + 1) {
            Some((name, j)) => {
                let k = skip_ws(s, j);
                if k < s.len() && s[k] == 40 {
                    let a = skip_ws(s, k + 1);
                    let arg_tok: Option<(Seq<u8>, int)> = if a < s.len() && s[a] == 34 {
                        spec_strlit(s, a)
                    } else if a < s.len() && is_ident_start(s[a]) {
                        spec_ident(s, a)
                    } else if a < s.len() && is_digit(s[a]) {
                        Some((s.subrange(a, digits_end(s, a)), digits_end(s, a)))
                    } else {
                        None
                    };
                    match arg_tok {
                        Some((arg, e)) => {
                            let f = skip_ws(s, e);
                            if f < s.len() && s[f] == 41 {
                                Some(
                                    (GAnn { name, arg, raw: s.subrange(i, f + 1) }, f + 1),
                                )
                            } else {
                                None
                            }
                        },
                        None => None,
                    }
                } else {
                    None
                }
            },
            None => None,
        }
    } else {
        None
    }
}

/// A parsed annotation ends after its opening position and within the input.
pub proof fn lemma_annotation_advances(s: Seq<u8>, i: int)
    requires
        0 <= i <= s.len(),
    ensures
        spec_annotation(s, i) matches Some(t) ==> i < t.1 <= s.len(),
{
    if spec_annotation(s, i) is Some {
        lemma_ident_end_range(s, i + 1);
        let j = ident_end(s, i + 1);
        lemma_skip_ws_range(s, j);
        let k = skip_ws(s, j);
        if k < s.len() && s[k] == 40 {
            lemma_skip_ws_range(s, k + 1);
            let a = skip_ws(s, k + 1);
            if a < s.len() && s[a] == 34 {
                lemma_strlit_end_range(s, a + 1);
                lemma_skip_ws_range(s, strlit_end(s, a + 1) + 1);
            } else if a < s.len() && is_ident_start(s[a]) {
                lemma_ident_end_range(s, a + 1);
                lemma_skip_ws_range(s, ident_end(s, a + 1));
            } else if a < s.len() && is_digit(s[a]) {
                lemma_digits_end_range(s, a);
                lemma_skip_ws_range(s, digits_end(s, a));
            }
        }
    }
}

/// Relates a runtime annotation result to the spec parse.
pub open spec fn ann_eq(r: Option<(AnnTok, usize)>, g: Option<(GAnn, int)>) -> bool {
    match r {
        Some(e) => g matches Some(t) && e.0@ == t.0 && e.1 as int == t.1,
        None => g is None,
    }
}

/// Parses one annotation `@name(arg)` at `i`.
pub fn p_annotation(s: &[u8], i: usize) -> (r: Option<(AnnTok, usize)>)
    requires
        i <= s.len(),
    ensures
        ann_eq(r, spec_annotation(s@, i as int)),
        r matches Some(e) ==> i < e.1 <= s.len(),
{
    proof {
        lemma_annotation_advances(s@, i as int);
    }
    if i < s.len() && s[i] == 64 {
        match p_ident(s, i + 1) {
            Some((name, j)) => {
                let k = scan_ws(s, j);
                if k < s.len() && s[k] == 40 {
                    let a = scan_ws(s, k + 1);
                    let arg_tok: Option<(Vec<u8>, usize)> = if a < s.len() && s[a] == 34 {
                        p_strlit(s, a)
                    } else if a < s.len() && is_ident_start(s[a]) {
                        p_ident(s, a)
                    } else if a < s.len() && is_digit(s[a]) {
                        let de = scan_digits_end(s, a);
                        Some((copy_range(s, a, de), de))
                    } else {
                        None
                    };
                    match arg_tok {
                        Some((arg, e)) => {
                            let f = scan_ws(s, e);
                            if f < s.len() && s[f] == 41 {
                                let raw = copy_range(s, i, f + 1);
                                Some((AnnTok { name, arg, raw }, f + 1))
                            } else {
                                None
                            }
                        },
                        None => None,
                    }
                } else {
                    None
                }
            },
            None => None,
        }
    } else {
        None
    }
}

// ---------------------------------------------------------------------------
// Type expressions
// ---------------------------------------------------------------------------
/// Spec parse of one type expression at `i`.
///
/// A type is a dot-qualified name, or the union-with-null shorthand
/// `union { null, T }` which wraps the inner type `T` in one optional layer.
/// Any other union shape is recognized and reported unsupported: a union
/// whose first arm is not `null`, a union of only `null`, and a union with
/// arms beyond the shorthand pair.  Once a union is judged unsupported no
/// further content is examined, since compilation aborts there.
pub open spec fn spec_ty(s: Seq<u8>, i: int) -> Parsed<GTy>
    decreases s.len() - i,
{
    match spec_ident(s, i) {
        None => Parsed::Fail,
        Some((w, j)) => {
            if w != s_kw_union() {
                match spec_qual(s, i) {
                    Some((q, j2)) => Parsed::Found(GTy { depth: 0, name: q }, j2),
                    None => Parsed::Fail,
                }
            } else {
                let k = skip_ws(s, j);
                if !(k < s.len() && s[k] == 123) {
                    Parsed::Fail
                } else {
                    let a = skip_ws(s, k + 1);
                    match spec_qual(s, a) {
                        None => Parsed::Fail,
                        Some((q, m)) => {
                            if q != s_kw_null() {
                                Parsed::Unsup(a)
                            } else {
                                let b = skip_ws(s, m);
                                if b < s.len() && s[b] == 44 {
                                    let c = skip_ws(s, b + 1);
                                    proof {
                                        lemma_spec_ty_positions(s, i);
                                    }
                                    match spec_ty(s, c) {
                                        Parsed::Found(t, e) => {
                                            let f = skip_ws(s, e);
                                            if f < s.len() && s[f] == 125 {
                                                Parsed::Found(
                                                    GTy { depth: t.depth + 1, name: t.name },
                                                    f + 1,
                                                )
                                            } else if f < s.len() && s[f] == 44 {
                                                Parsed::Unsup(f)
                                            } else {
                                                Parsed::Fail
                                            }
                                        },
                                        Parsed::Unsup(p) => Parsed::Unsup(p),
                                        Parsed::Fail => Parsed::Fail,
                                    }
                                } else if b < s.len() && s[b] == 125 {
                                    Parsed::Unsup(b)
                                } else {
                                    Parsed::Fail
                                }
                            }
                        },
                    }
                }
            }
        },
    }
}

/// Bounds for the intermediate positions the type parser steps through,
/// used for its termination argument.
pub proof fn lemma_spec_ty_positions(s: Seq<u8>, i: int)
    requires
        0 <= i < s.len(),
        is_ident_start(s[i]),
    ensures
        i < ident_end(s, i + 1) <= s.len(),
        ({
            let j = ident_end(s, i + 1);
            let k = skip_ws(s, j);
            j <= k <= s.len() && (k < s.len() ==> {
                let a = skip_ws(s, k + 1);
                k < a <= s.len() && (0 <= a < s.len() && is_ident_start(s[a]) ==> {
                    let m = qual_end(s, a + 1);
                    let b = skip_ws(s, m);
                    a < m <= s.len() && m <= b <= s.len() && (b < s.len() ==> b < skip_ws(
                        s,
                        b + 1,
                    ) <= s.len())
                })
            })
        }),
{
    lemma_ident_end_range(s, i + 1);
    let j = ident_end(s, i + 1);
    lemma_skip_ws_range(s, j);
    let k = skip_ws(s, j);
    if k < s.len() {
        lemma_skip_ws_range(s, k + 1);
        let a = skip_ws(s, k + 1);
        if 0 <= a < s.len() && is_ident_start(s[a]) {
            lemma_qual_end_range(s, a + 1);
            let m = qual_end(s, a + 1);
            lemma_skip_ws_range(s, m);
            let b = skip_ws(s, m);
            if b < s.len() {
                lemma_skip_ws_range(s, b + 1);
            }
        }
    }
}

/// A successfully parsed type ends after its starting position and within
/// the input.
pub proof fn lemma_ty_advances(s: Seq<u8>, i: int)
    requires
        0 <= i <= s.len(),
    ensures
        spec_ty(s, i) matches Parsed::Found(t, j) ==> i < j <= s.len(),
    decreases s.len() - i,
{
    if spec_ty(s, i) matches Parsed::Found(t, j) {
        lemma_spec_ty_positions(s, i);
        let j0 = ident_end(s, i + 1);
        let w = s.subrange(i, j0);
        if w != s_kw_union() {
            lemma_qual_end_range(s, i + 1);
        } else {
            let k = skip_ws(s, j0);
            let a = skip_ws(s, k + 1);
            let m = qual_end(s, a + 1);
            let b = skip_ws(s, m);
            let c = skip_ws(s, b + 1);
            lemma_ty_advances(s, c);
            match spec_ty(s, c) {
                Parsed::Found(t2, e) => lemma_skip_ws_range(s, e),
                _ => (),
            }
        }
    }
}

/// Parses one type expression at `i`.
pub fn p_ty(s: &[u8], i: usize) -> (r: Result<(TypeExpr, usize), Fault>)
    requires
        i <= s.len(),
    ensures
        (match spec_ty(s@, i as int) {
            Parsed::Found(t, j) => r matches Ok(e) && e.0@ == t && e.1 as int == j && i < e.1
                <= s.len(),
            Parsed::Unsup(_) => r matches Err(f) && f.unsupported && f.pos <= s.len(),
            Parsed::Fail => r matches Err(f) && !f.unsupported && f.pos <= s.len(),
        }),
    decreases s.len() - i,
{
    proof {
        lemma_ty_advances(s@, i as int);
    }
    match p_ident(s, i) {
        None => Err(Fault { pos: i, expected: v_x_type(), unsupported: false }),
        Some((w, j)) => {
            if !bytes_eq(w.as_slice(), v_kw_union().as_slice()) {
                match p_qual(s, i) {
                    Some((q, j2)) => Ok((TypeExpr::Simple(q), j2)),
                    None => Err(Fault { pos: i, expected: v_x_type(), unsupported: false }),
                }
            } else {
                let k = scan_ws(s, j);
                if !(k < s.len() && s[k] == 123) {
                    Err(Fault { pos: k, expected: v_x_type(), unsupported: false })
                } else {
                    let a = scan_ws(s, k + 1);
                    match p_qual(s, a) {
                        None => Err(Fault { pos: a, expected: v_x_type(), unsupported: false }),
                        Some((q, m)) => {
                            if !bytes_eq(q.as_slice(), v_kw_null().as_slice()) {
                                Err(Fault { pos: a, expected: v_c_union(), unsupported: true })
                            } else {
                                let b = scan_ws(s, m);
                                if b < s.len() && s[b] == 44 {
                                    let c = scan_ws(s, b + 1);
                                    match p_ty(s, c) {
                                        Ok((t, e)) => {
                                            let f = scan_ws(s, e);
                                            if f < s.len() && s[f] == 125 {
                                                Ok((TypeExpr::Optional(Box::new(t)), f + 1))
                                            } else if f < s.len() && s[f] == 44 {
                                                Err(
                                                    Fault {
                                                        pos: f,
                                                        expected: v_c_union(),
                                                        unsupported: true,
                                                    },
                                                )
                                            } else {
                                                Err(
                                                    Fault {
                                                        pos: f,
                                                        expected: v_x_type(),
                                                        unsupported: false,
                                                    },
                                                )
                                            }
                                        },
                                        Err(f) => Err(f),
                                    }
                                } else if b < s.len() && s[b] == 125 {
                                    Err(Fault { pos: b, expected: v_c_union(), unsupported: true })
                                } else {
                                    Err(Fault { pos: b, expected: v_x_type(), unsupported: false })
                                }
                            }
                        },
                    }
                }
            }
        },
    }
}

// ---------------------------------------------------------------------------
// Attribute lists
// ---------------------------------------------------------------------------
/// Spec parse of a run of annotations, each captured verbatim.  Returns the
/// captured spans and the position of the first token that is not an
/// annotation, with leading whitespace skipped.
pub open spec fn spec_attrs(s: Seq<u8>, i: int) -> (Seq<Seq<u8>>, int)
    decreases s.len() - i,
{
    if !(0 <= i <= s.len()) {
        (Seq::empty(), i)
    } else {
        let k = skip_ws(s, i);
        if k < s.len() && s[k] == 64 {
            match spec_annotation(s, k) {
                Some((ann, j)) => {
                    proof {
                        lemma_skip_ws_range(s, i);
                        lemma_annotation_advances(s, k);
                    }
                    let (rest, e) = spec_attrs(s, j);
                    (seq![ann.raw] + rest, e)
                },
                None => (Seq::empty(), k),
            }
        } else {
            (Seq::empty(), k)
        }
    }
}

/// An attribute run neither regresses nor leaves the input.
pub proof fn lemma_attrs_range(s: Seq<u8>, i: int)
    requires
        0 <= i <= s.len(),
    ensures
        i <= spec_attrs(s, i).1 <= s.len(),
    decreases s.len() - i,
{
    lemma_skip_ws_range(s, i);
    let k = skip_ws(s, i);
    if k < s.len() && s[k] == 64 {
        match spec_annotation(s, k) {
            Some((ann, j)) => {
                lemma_annotation_advances(s, k);
                lemma_attrs_range(s, j);
            },
            None => (),
        }
    }
}

// ---------------------------------------------------------------------------
// Record fields
// ---------------------------------------------------------------------------
/// Spec parse of one record field at `i`: leading annotations, a type, the
/// field name, and the closing semicolon.
pub open spec fn spec_field(s: Seq<u8>, i: int) -> Parsed<GField> {
    let (attrs, a) = spec_attrs(s, i);
    match spec_ty(s, a) {
        Parsed::Found(t, j) => {
            let b = skip_ws(s, j);
            match spec_ident(s, b) {
                Some((nm, c)) => {
                    let d = skip_ws(s, c);
                    if d < s.len() && s[d] == 59 {
                        Parsed::Found(GField { name: nm, ty: t, attrs }, d + 1)
                    } else {
                        Parsed::Fail
                    }
                },
                None => Parsed::Fail,
            }
        },
        Parsed::Unsup(p) => Parsed::Unsup(p),
        Parsed::Fail => Parsed::Fail,
    }
}

/// A parsed field ends after its starting position and within the input.
pub proof fn lemma_field_advances(s: Seq<u8>, i: int)
    requires
        0 <= i <= s.len(),
    ensures
        spec_field(s, i) matches Parsed::Found(f, j) ==> i < j <= s.len(),
{
    lemma_attrs_range(s, i);
    let a = spec_attrs(s, i).1;
    lemma_ty_advances(s, a);
    match spec_ty(s, a) {
        Parsed::Found(t, j) => {
            lemma_skip_ws_range(s, j);
            let b = skip_ws(s, j);
            match spec_ident(s, b) {
                Some((nm, c)) => {
                    lemma_ident_end_range(s, b + 1);
                    lemma_skip_ws_range(s, c);
                },
                None => (),
            }
        },
        _ => (),
    }
}

/// Spec parse of the field list of a record body, ending after the closing
/// brace.
pub open spec fn spec_fields(s: Seq<u8>, i: int) -> Parsed<Seq<GField>>
    decreases s.len() - i,
{
    if !(0 <= i <= s.len()) {
        Parsed::Fail
    } else {
        let k = skip_ws(s, i);
        if k < s.len() && s[k] == 125 {
            Parsed::Found(Seq::empty(), k + 1)
        } else {
            match spec_field(s, k) {
                Parsed::Found(f, j) => {
                    proof {
                        lemma_skip_ws_range(s, i);
                        lemma_field_advances(s, k);
                    }
                    match spec_fields(s, j) {
                        Parsed::Found(fs, m) => Parsed::Found(seq![f] + fs, m),
                        Parsed::Unsup(p) => Parsed::Unsup(p),
                        Parsed::Fail => Parsed::Fail,
                    }
                },
                Parsed::Unsup(p) => Parsed::Unsup(p),
                Parsed::Fail => Parsed::Fail,
            }
        }
    }
}

/// A parsed field list ends after its starting position and within the
/// input.
pub proof fn lemma_fields_range(s: Seq<u8>, i: int)
    requires
        0 <= i <= s.len(),
    ensures
        spec_fields(s, i) matches Parsed::Found(fs, j) ==> i < j <= s.len(),
    decreases s.len() - i,
{
    lemma_skip_ws_range(s, i);
    let k = skip_ws(s, i);
    if k < s.len() && s[k] == 125 {
    } else {
        match spec_field(s, k) {
            Parsed::Found(f, j) => {
                lemma_field_advances(s, k);
                lemma_fields_range(s, j);
            },
            _ => (),
        }
    }
}

// ---------------------------------------------------------------------------
// Variant cases
// ---------------------------------------------------------------------------
/// Spec parse of one switch case at `i`: `case LABEL : Type ;`.
pub open spec fn spec_case(s: Seq<u8>, i: int) -> Parsed<GCase> {
    match spec_ident(s, i) {
        Some((w, j)) => {
            if w != s_kw_case() {
                Parsed::Fail
            } else {
                let k = skip_ws(s, j);
                match spec_ident(s, k) {
                    Some((label, a)) => {
                        let b = skip_ws(s, a);
                        if b < s.len() && s[b] == 58 {
                            let c = skip_ws(s, b + 1);
                            match spec_ty(s, c) {
                                Parsed::Found(t, e) => {
                                    let d = skip_ws(s, e);
                                    if d < s.len() && s[d] == 59 {
                                        Parsed::Found(GCase { label, payload: t }, d + 1)
                                    } else {
                                        Parsed::Fail
                                    }
                                },
                                Parsed::Unsup(p) => Parsed::Unsup(p),
                                Parsed::Fail => Parsed::Fail,
                            }
                        } else {
                            Parsed::Fail
                        }
                    },
                    None => Parsed::Fail,
                }
            }
        },
        None => Parsed::Fail,
    }
}

/// A parsed case ends after its starting position and within the input.
pub proof fn lemma_case_advances(s: Seq<u8>, i: int)
    requires
        0 <= i <= s.len(),
    ensures
        spec_case(s, i) matches Parsed::Found(c, j) ==> i < j <= s.len(),
{
    match spec_ident(s, i) {
        Some((w, j)) => {
            lemma_ident_end_range(s, i + 1);
            lemma_skip_ws_range(s, j);
            let k = skip_ws(s, j);
            match spec_ident(s, k) {
                Some((label, a)) => {
                    lemma_ident_end_range(s, k + 1);
                    lemma_skip_ws_range(s, a);
                    let b = skip_ws(s, a);
                    if b < s.len() && s[b] == 58 {
                        lemma_skip_ws_range(s, b + 1);
                        let c = skip_ws(s, b + 1);
                        lemma_ty_advances(s, c);
                        match spec_ty(s, c) {
                            Parsed::Found(t, e) => {
                                lemma_skip_ws_range(s, e);
                            },
                            _ => (),
                        }
                    }
                },
                None => (),
            }
        },
        None => (),
    }
}

/// Spec parse of the case list of a variant body, ending after the closing
/// brace.
pub open spec fn spec_cases(s: Seq<u8>, i: int) -> Parsed<Seq<GCase>>
    decreases s.len() - i,
{
    if !(0 <= i <= s.len()) {
        Parsed::Fail
    } else {
        let k = skip_ws(s, i);
        if k < s.len() && s[k] == 125 {
            Parsed::Found(Seq::empty(), k + 1)
        } else {
            match spec_case(s, k) {
                Parsed::Found(c, j) => {
                    proof {
                        lemma_skip_ws_range(s, i);
                        lemma_case_advances(s, k);
                    }
                    match spec_cases(s, j) {
                        Parsed::Found(cs, m) => Parsed::Found(seq![c] + cs, m),
                        Parsed::Unsup(p) => Parsed::Unsup(p),
                        Parsed::Fail => Parsed::Fail,
                    }
                },
                Parsed::Unsup(p) => Parsed::Unsup(p),
                Parsed::Fail => Parsed::Fail,
            }
        }
    }
}

/// A parsed case list ends after its starting position and within the
/// input.
pub proof fn lemma_cases_range(s: Seq<u8>, i: int)
    requires
        0 <= i <= s.len(),
    ensures
        spec_cases(s, i) matches Parsed::Found(cs, j) ==> i < j <= s.len(),
    decreases s.len() - i,
{
    lemma_skip_ws_range(s, i);
    let k = skip_ws(s, i);
    if k < s.len() && s[k] == 125 {
    } else {
        match spec_case(s, k) {
            Parsed::Found(c, j) => {
                lemma_case_advances(s, k);
                lemma_cases_range(s, j);
            },
            _ => (),
        }
    }
}

// ---------------------------------------------------------------------------
// Enum bodies
// ---------------------------------------------------------------------------
/// Spec scan of an enum body after its opening brace: identifiers with
/// optional commas and line comments, ending after the closing brace.
/// Returns the position just past the brace.
pub open spec fn spec_enum_items(s: Seq<u8>, i: int) -> Option<int>
    decreases s.len() - i,
{
    if !(0 <= i <= s.len()) {
        None
    } else {
        let k = skip_ws(s, i);
        if !(k < s.len()) {
            None
        } else if s[k] == 125 {
            Some(k + 1)
        } else if s[k] == 47 && k + 1 < s.len() && s[k + 1] == 47 {
            proof {
                lemma_skip_ws_range(s, i);
                lemma_line_end_range(s, k + 2);
            }
            spec_enum_items(s, line_end(s, k + 2))
        } else if is_ident_start(s[k]) {
            proof {
                lemma_skip_ws_range(s, i);
                lemma_ident_end_range(s, k + 1);
                lemma_skip_ws_range(s, ident_end(s, k + 1));
            }
            let c = skip_ws(s, ident_end(s, k + 1));
            if c < s.len() && s[c] == 44 {
                spec_enum_items(s, c + 1)
            } else {
                spec_enum_items(s, c)
            }
        } else {
            None
        }
    }
}

/// A scanned enum body ends after its starting position and within the
/// input.
pub proof fn lemma_enum_items_range(s: Seq<u8>, i: int)
    requires
        0 <= i <= s.len(),
    ensures
        spec_enum_items(s, i) matches Some(j) ==> i < j <= s.len(),
    decreases s.len() - i,
{
    lemma_skip_ws_range(s, i);
    let k = skip_ws(s, i);
    if k < s.len() {
        if s[k] == 125 {
        } else if s[k] == 47 && k + 1 < s.len() && s[k + 1] == 47 {
            lemma_line_end_range(s, k + 2);
            lemma_enum_items_range(s, line_end(s, k + 2));
        } else if is_ident_start(s[k]) {
            lemma_ident_end_range(s, k + 1);
            lemma_skip_ws_range(s, ident_end(s, k + 1));
            let c = skip_ws(s, ident_end(s, k + 1));
            if c < s.len() && s[c] == 44 {
                lemma_enum_items_range(s, c + 1);
            } else {
                lemma_enum_items_range(s, c);
            }
        }
    }
}

// ---------------------------------------------------------------------------
// Declarations
// ---------------------------------------------------------------------------
/// Spec parse of an import declaration:
/// `import <kind> "<path>" as <alias> ;`.  The declaration is parsed in
/// full; a kind other than `idl` is then reported unsupported.
pub open spec fn spec_import(s: Seq<u8>, i: int) -> Parsed<GDecl> {
    match spec_ident(s, i) {
        Some((w, j)) => {
            if w != s_kw_import() {
                Parsed::Fail
            } else {
                let k = skip_ws(s, j);
                match spec_ident(s, k) {
                    Some((kind, a)) => {
                        let b = skip_ws(s, a);
                        match spec_strlit(s, b) {
                            Some((path, c)) => {
                                let d = skip_ws(s, c);
                                match spec_ident(s, d) {
                                    Some((w2, e)) => {
                                        if w2 != s_kw_as() {
                                            Parsed::Fail
                                        } else {
                                            let f = skip_ws(s, e);
                                            match spec_ident(s, f) {
                                                Some((alias, g)) => {
                                                    let h = skip_ws(s, g);
                                                    if h < s.len() && s[h] == 59 {
                                                        if kind == s_kw_idl() {
                                                            Parsed::Found(
                                                                GDecl::Import(
                                                                    GImport { kind, path, alias },
                                                                ),
                                                                h + 1,
                                                            )
                                                        } else {
                                                            Parsed::Unsup(k)
                                                        }
                                                    } else {
                                                        Parsed::Fail
                                                    }
                                                },
                                                None => Parsed::Fail,
                                            }
                                        }
                                    },
                                    None => Parsed::Fail,
                                }
                            },
                            None => Parsed::Fail,
                        }
                    },
                    None => Parsed::Fail,
                }
            }
        },
        None => Parsed::Fail,
    }
}

/// A parsed import ends after its starting position and within the input.
pub proof fn lemma_import_advances(s: Seq<u8>, i: int)
    requires
        0 <= i <= s.len(),
    ensures
        spec_import(s, i) matches Parsed::Found(d, j) ==> i < j <= s.len(),
{
    if spec_import(s, i) matches Parsed::Found(d, j) {
        lemma_ident_end_range(s, i + 1);
        let j0 = ident_end(s, i + 1);
        lemma_skip_ws_range(s, j0);
        let k = skip_ws(s, j0);
        lemma_ident_end_range(s, k + 1);
        let a = ident_end(s, k + 1);
        lemma_skip_ws_range(s, a);
        let b = skip_ws(s, a);
        lemma_strlit_end_range(s, b + 1);
        let c = strlit_end(s, b + 1) + 1;
        lemma_skip_ws_range(s, c);
        let d = skip_ws(s, c);
        lemma_ident_end_range(s, d + 1);
        let e = ident_end(s, d + 1);
        lemma_skip_ws_range(s, e);
        let f = skip_ws(s, e);
        lemma_ident_end_range(s, f + 1);
        let g = ident_end(s, f + 1);
        lemma_skip_ws_range(s, g);
    }
}

/// Spec parse of a typedef declaration:
/// `@typedef("<target>")` followed by further annotations and an empty
/// record shell naming the alias.  The quoted target must itself read as a
/// qualified name.
pub open spec fn spec_typedef(s: Seq<u8>, i: int) -> Parsed<GDecl> {
    match spec_annotation(s, i) {
        Some((ann, j)) => {
            if ann.name != s_kw_typedef() {
                Parsed::Fail
            } else if !(spec_qual(ann.arg, 0) matches Some(t) && t.1 == ann.arg.len()) {
                Parsed::Fail
            } else {
                let (attrs, a) = spec_attrs(s, j);
                match spec_ident(s, a) {
                    Some((w2, b)) => {
                        if w2 != s_kw_record() {
                            Parsed::Fail
                        } else {
                            let c = skip_ws(s, b);
                            match spec_ident(s, c) {
                                Some((nm, d)) => {
                                    let e = skip_ws(s, d);
                                    if e < s.len() && s[e] == 123 {
                                        let f = skip_ws(s, e + 1);
                                        if f < s.len() && s[f] == 125 {
                                            Parsed::Found(
                                                GDecl::TypeAlias {
                                                    name: nm,
                                                    target: GTy { depth: 0, name: ann.arg },
                                                    attrs,
                                                },
                                                f + 1,
                                            )
                                        } else {
                                            Parsed::Fail
                                        }
                                    } else {
                                        Parsed::Fail
                                    }
                                },
                                None => Parsed::Fail,
                            }
                        }
                    },
                    None => Parsed::Fail,
                }
            }
        },
        None => Parsed::Fail,
    }
}

/// A parsed typedef ends after its starting position and within the input.
pub proof fn lemma_typedef_advances(s: Seq<u8>, i: int)
    requires
        0 <= i <= s.len(),
    ensures
        spec_typedef(s, i) matches Parsed::Found(d, j) ==> i < j <= s.len(),
{
    if spec_typedef(s, i) matches Parsed::Found(d, j) {
        lemma_annotation_advances(s, i);
        match spec_annotation(s, i) {
            Some((ann, j0)) => {
                lemma_attrs_range(s, j0);
                let a = spec_attrs(s, j0).1;
                lemma_ident_end_range(s, a + 1);
                let b = ident_end(s, a + 1);
                lemma_skip_ws_range(s, b);
                let c = skip_ws(s, b);
                lemma_ident_end_range(s, c + 1);
                let d0 = ident_end(s, c + 1);
                lemma_skip_ws_range(s, d0);
                let e = skip_ws(s, d0);
                lemma_skip_ws_range(s, e + 1);
            },
            None => (),
        }
    }
}

/// Spec parse of a fixed-size declaration: `fixed Name ( <size> ) ;`.
pub open spec fn spec_fixed(s: Seq<u8>, i: int) -> Parsed<GDecl> {
    match spec_ident(s, i) {
        Some((w, j)) => {
            if w != s_kw_fixed() {
                Parsed::Fail
            } else {
                let k = skip_ws(s, j);
                match spec_ident(s, k) {
                    Some((nm, a)) => {
                        let b = skip_ws(s, a);
                        if b < s.len() && s[b] == 40 {
                            let c = skip_ws(s, b + 1);
                            match spec_number(s, c) {
                                Some((v, d)) => {
                                    let e = skip_ws(s, d);
                                    if e < s.len() && s[e] == 41 {
                                        let f = skip_ws(s, e + 1);
                                        if f < s.len() && s[f] == 59 {
                                            Parsed::Found(
                                                GDecl::FixedDecl { name: nm, size: v },
                                                f + 1,
                                            )
                                        } else {
                                            Parsed::Fail
                                        }
                                    } else {
                                        Parsed::Fail
                                    }
                                },
                                None => Parsed::Fail,
                            }
                        } else {
                            Parsed::Fail
                        }
                    },
                    None => Parsed::Fail,
                }
            }
        },
        None => Parsed::Fail,
    }
}

/// A parsed fixed declaration ends after its starting position and within
/// the input.
pub proof fn lemma_fixed_advances(s: Seq<u8>, i: int)
    requires
        0 <= i <= s.len(),
    ensures
        spec_fixed(s, i) matches Parsed::Found(d, j) ==> i < j <= s.len(),
{
    if spec_fixed(s, i) matches Parsed::Found(d, j) {
        lemma_ident_end_range(s, i + 1);
        let j0 = ident_end(s, i + 1);
        lemma_skip_ws_range(s, j0);
        let k = skip_ws(s, j0);
        lemma_ident_end_range(s, k + 1);
        let a = ident_end(s, k + 1);
        lemma_skip_ws_range(s, a);
        let b = skip_ws(s, a);
        lemma_skip_ws_range(s, b + 1);
        let c = skip_ws(s, b + 1);
        lemma_digits_end_range(s, c);
        let d0 = digits_end(s, c);
        lemma_skip_ws_range(s, d0);
        let e = skip_ws(s, d0);
        lemma_skip_ws_range(s, e + 1);
    }
}

/// Spec parse of an enum declaration.  The whole matched span is kept
/// verbatim, since the source syntax already reads as the target syntax.
pub open spec fn spec_enum_decl(s: Seq<u8>, i: int) -> Parsed<GDecl> {
    match spec_ident(s, i) {
        Some((w, j)) => {
            if w != s_kw_enum() {
                Parsed::Fail
            } else {
                let k = skip_ws(s, j);
                match spec_ident(s, k) {
                    Some((nm, a)) => {
                        let b = skip_ws(s, a);
                        if b < s.len() && s[b] == 123 {
                            match spec_enum_items(s, b + 1) {
                                Some(e) => Parsed::Found(
                                    GDecl::EnumDecl { name: nm, raw: s.subrange(i, e) },
                                    e,
                                ),
                                None => Parsed::Fail,
                            }
                        } else {
                            Parsed::Fail
                        }
                    },
                    None => Parsed::Fail,
                }
            }
        },
        None => Parsed::Fail,
    }
}

/// A parsed enum declaration ends after its starting position and within
/// the input.
pub proof fn lemma_enum_decl_advances(s: Seq<u8>, i: int)
    requires
        0 <= i <= s.len(),
    ensures
        spec_enum_decl(s, i) matches Parsed::Found(d, j) ==> i < j <= s.len(),
{
    if spec_enum_decl(s, i) matches Parsed::Found(d, j) {
        lemma_ident_end_range(s, i + 1);
        let j0 = ident_end(s, i + 1);
        lemma_skip_ws_range(s, j0);
        let k = skip_ws(s, j0);
        lemma_ident_end_range(s, k + 1);
        let a = ident_end(s, k + 1);
        lemma_skip_ws_range(s, a);
        let b = skip_ws(s, a);
        lemma_enum_items_range(s, b + 1);
    }
}

/// Spec parse of a record declaration: `record Name { <fields> }`.
pub open spec fn spec_record(s: Seq<u8>, i: int) -> Parsed<GDecl> {
    match spec_ident(s, i) {
        Some((w, j)) => {
            if w != s_kw_record() {
                Parsed::Fail
            } else {
                let k = skip_ws(s, j);
                match spec_ident(s, k) {
                    Some((nm, a)) => {
                        let b = skip_ws(s, a);
                        if b < s.len() && s[b] == 123 {
                            match spec_fields(s, b + 1) {
                                Parsed::Found(fs, e) => Parsed::Found(
                                    GDecl::RecordDecl { name: nm, fields: fs },
                                    e,
                                ),
                                Parsed::Unsup(p) => Parsed::Unsup(p),
                                Parsed::Fail => Parsed::Fail,
                            }
                        } else {
                            Parsed::Fail
                        }
                    },
                    None => Parsed::Fail,
                }
            }
        },
        None => Parsed::Fail,
    }
}

/// A parsed record ends after its starting position and within the input.
pub proof fn lemma_record_advances(s: Seq<u8>, i: int)
    requires
        0 <= i <= s.len(),
    ensures
        spec_record(s, i) matches Parsed::Found(d, j) ==> i < j <= s.len(),
{
    if spec_record(s, i) matches Parsed::Found(d, j) {
        lemma_ident_end_range(s, i + 1);
        let j0 = ident_end(s, i + 1);
        lemma_skip_ws_range(s, j0);
        let k = skip_ws(s, j0);
        lemma_ident_end_range(s, k + 1);
        let a = ident_end(s, k + 1);
        lemma_skip_ws_range(s, a);
        let b = skip_ws(s, a);
        lemma_fields_range(s, b + 1);
    }
}

/// Spec parse of a variant declaration:
/// `variant Name switch ( <Type> <ident> ) { <cases> }`.  The discriminant
/// is parsed and validated but not kept: the target union tag replaces it.
pub open spec fn spec_variant(s: Seq<u8>, i: int) -> Parsed<GDecl> {
    match spec_ident(s, i) {
        Some((w, j)) => {
            if w != s_kw_variant() {
                Parsed::Fail
            } else {
                let k = skip_ws(s, j);
                match spec_ident(s, k) {
                    Some((nm, a)) => {
                        let b = skip_ws(s, a);
                        match spec_ident(s, b) {
                            Some((w2, c)) => {
                                if w2 != s_kw_switch() {
                                    Parsed::Fail
                                } else {
                                    let d = skip_ws(s, c);
                                    if d < s.len() && s[d] == 40 {
                                        let e = skip_ws(s, d + 1);
                                        match spec_ty(s, e) {
                                            Parsed::Found(t, f) => {
                                                let g = skip_ws(s, f);
                                                match spec_ident(s, g) {
                                                    Some((w3, h)) => {
                                                        let m = skip_ws(s, h);
                                                        if m < s.len() && s[m] == 41 {
                                                            let n = skip_ws(s, m + 1);
                                                            if n < s.len() && s[n] == 123 {
                                                                match spec_cases(s, n + 1) {
                                                                    Parsed::Found(
                                                                        cs,
                                                                        e2,
                                                                    ) => Parsed::Found(
                                                                        GDecl::VariantDecl {
                                                                            name: nm,
                                                                            cases: cs,
                                                                        },
                                                                        e2,
                                                                    ),
                                                                    Parsed::Unsup(
                                                                        p,
                                                                    ) => Parsed::Unsup(p),
                                                                    Parsed::Fail => Parsed::Fail,
                                                                }
                                                            } else {
                                                                Parsed::Fail
                                                            }
                                                        } else {
                                                            Parsed::Fail
                                                        }
                                                    },
                                                    None => Parsed::Fail,
                                                }
                                            },
                                            Parsed::Unsup(p) => Parsed::Unsup(p),
                                            Parsed::Fail => Parsed::Fail,
                                        }
                                    } else {
                                        Parsed::Fail
                                    }
                                }
                            },
                            None => Parsed::Fail,
                        }
                    },
                    None => Parsed::Fail,
                }
            }
        },
        None => Parsed::Fail,
    }
}

/// A parsed variant ends after its starting position and within the input.
pub proof fn lemma_variant_advances(s: Seq<u8>, i: int)
    requires
        0 <= i <= s.len(),
    ensures
        spec_variant(s, i) matches Parsed::Found(d, j) ==> i < j <= s.len(),
{
    if spec_variant(s, i) matches Parsed::Found(d, j) {
        lemma_ident_end_range(s, i + 1);
        let j0 = ident_end(s, i + 1);
        lemma_skip_ws_range(s, j0);
        let k = skip_ws(s, j0);
        lemma_ident_end_range(s, k + 1);
        let a = ident_end(s, k + 1);
        lemma_skip_ws_range(s, a);
        let b = skip_ws(s, a);
        lemma_ident_end_range(s, b + 1);
        let c = ident_end(s, b + 1);
        lemma_skip_ws_range(s, c);
        let d0 = skip_ws(s, c);
        lemma_skip_ws_range(s, d0 + 1);
        let e = skip_ws(s, d0 + 1);
        lemma_ty_advances(s, e);
        match spec_ty(s, e) {
            Parsed::Found(t, f) => {
                lemma_skip_ws_range(s, f);
                let g = skip_ws(s, f);
                lemma_ident_end_range(s, g + 1);
                let h = ident_end(s, g + 1);
                lemma_skip_ws_range(s, h);
                let m = skip_ws(s, h);
                lemma_skip_ws_range(s, m + 1);
                let n = skip_ws(s, m + 1);
                lemma_cases_range(s, n + 1);
            },
            _ => (),
        }
    }
}

/// Spec parse of a body-level comment: a line starting with two slashes,
/// kept verbatim without its line feed.
pub open spec fn spec_comment(s: Seq<u8>, i: int) -> Parsed<GDecl> {
    if 0 <= i && i + 1 < s.len() && s[i] == 47 && s[i + 1] == 47 {
        let e = line_end(s, i + 2);
        Parsed::Found(
            GDecl::Comment(s.subrange(i, e)),
            if e < s.len() {
                e + 1
            } else {
                e
            },
        )
    } else {
        Parsed::Fail
    }
}

/// A parsed comment ends after its starting position and within the input.
pub proof fn lemma_comment_advances(s: Seq<u8>, i: int)
    requires
        0 <= i <= s.len(),
    ensures
        spec_comment(s, i) matches Parsed::Found(d, j) ==> i < j <= s.len(),
{
    if spec_comment(s, i) matches Parsed::Found(d, j) {
        lemma_line_end_range(s, i + 2);
    }
}

/// Spec parse of one body declaration at `i` (whitespace already skipped):
/// dispatch on the leading token.
pub open spec fn spec_body_item(s: Seq<u8>, i: int) -> Parsed<GDecl> {
    if 0 <= i < s.len() && s[i] == 47 {
        spec_comment(s, i)
    } else if 0 <= i < s.len() && s[i] == 64 {
        spec_typedef(s, i)
    } else {
        match spec_ident(s, i) {
            Some((w, j)) => {
                if w == s_kw_import() {
                    spec_import(s, i)
                } else if w == s_kw_enum() {
                    spec_enum_decl(s, i)
                } else if w == s_kw_fixed() {
                    spec_fixed(s, i)
                } else if w == s_kw_record() {
                    spec_record(s, i)
                } else if w == s_kw_variant() {
                    spec_variant(s, i)
                } else {
                    Parsed::Fail
                }
            },
            None => Parsed::Fail,
        }
    }
}

/// A parsed body declaration ends after its starting position and within
/// the input.
pub proof fn lemma_body_item_advances(s: Seq<u8>, i: int)
    requires
        0 <= i <= s.len(),
    ensures
        spec_body_item(s, i) matches Parsed::Found(d, j) ==> i < j <= s.len(),
{
    lemma_comment_advances(s, i);
    lemma_typedef_advances(s, i);
    lemma_import_advances(s, i);
    lemma_enum_decl_advances(s, i);
    lemma_fixed_advances(s, i);
    lemma_record_advances(s, i);
    lemma_variant_advances(s, i);
}

/// Spec parse of the protocol body: declarations until the closing brace,
/// ending after it.
pub open spec fn spec_body(s: Seq<u8>, i: int) -> Parsed<Seq<GDecl>>
    decreases s.len() - i,
{
    if !(0 <= i <= s.len()) {
        Parsed::Fail
    } else {
        let k = skip_ws(s, i);
        if k < s.len() && s[k] == 125 {
            Parsed::Found(Seq::empty(), k + 1)
        } else {
            match spec_body_item(s, k) {
                Parsed::Found(d, j) => {
                    proof {
                        lemma_skip_ws_range(s, i);
                        lemma_body_item_advances(s, k);
                    }
                    match spec_body(s, j) {
                        Parsed::Found(ds, m) => Parsed::Found(seq![d] + ds, m),
                        Parsed::Unsup(p) => Parsed::Unsup(p),
                        Parsed::Fail => Parsed::Fail,
                    }
                },
                Parsed::Unsup(p) => Parsed::Unsup(p),
                Parsed::Fail => Parsed::Fail,
            }
        }
    }
}

/// Spec parse of everything after the optional namespace annotation: the
/// protocol header, its body, and the end of the input.
pub open spec fn spec_file_tail(s: Seq<u8>, ns: Option<Seq<u8>>, i: int) -> Parsed<GProtocol> {
    let k = skip_ws(s, i);
    match spec_ident(s, k) {
        Some((w, j)) => {
            if w != s_kw_protocol() {
                Parsed::Fail
            } else {
                let a = skip_ws(s, j);
                match spec_ident(s, a) {
                    Some((nm, b)) => {
                        let c = skip_ws(s, b);
                        if c < s.len() && s[c] == 123 {
                            match spec_body(s, c + 1) {
                                Parsed::Found(ds, e) => {
                                    if skip_ws(s, e) == s.len() {
                                        Parsed::Found(
                                            GProtocol { namespace: ns, name: nm, decls: ds },
                                            s.len() as int,
                                        )
                                    } else {
                                        Parsed::Fail
                                    }
                                },
                                Parsed::Unsup(p) => Parsed::Unsup(p),
                                Parsed::Fail => Parsed::Fail,
                            }
                        } else {
                            Parsed::Fail
                        }
                    },
                    None => Parsed::Fail,
                }
            }
        },
        None => Parsed::Fail,
    }
}

/// Spec parse of a whole protocol file: an optional `@namespace("...")`
/// annotation, then the protocol block, then the end of the input.
pub open spec fn spec_file(s: Seq<u8>) -> Parsed<GProtocol> {
    let i0 = skip_ws(s, 0);
    if i0 < s.len() && s[i0] == 64 {
        match spec_annotation(s, i0) {
            Some((ann, j)) => {
                if ann.name == s_kw_namespace() {
                    spec_file_tail(s, Some(ann.arg), j)
                } else {
                    Parsed::Fail
                }
            },
            None => Parsed::Fail,
        }
    } else {
        spec_file_tail(s, None, i0)
    }
}

// ---------------------------------------------------------------------------
// Runtime parsers
// ---------------------------------------------------------------------------
/// Parses a run of annotations, returning their verbatim spans.
pub fn p_attrs(s: &[u8], i: usize) -> (r: (Vec<Vec<u8>>, usize))
    requires
        i <= s.len(),
    ensures
        attrs_view(r.0@) == spec_attrs(s@, i as int).0,
        r.1 as int == spec_attrs(s@, i as int).1,
        i <= r.1 <= s.len(),
    decreases s.len() - i,
{
    proof {
        lemma_attrs_range(s@, i as int);
    }
    let k = scan_ws(s, i);
    if k < s.len() && s[k] == 64 {
        match p_annotation(s, k) {
            Some((ann, j)) => {
                let (mut rest, e) = p_attrs(s, j);
                let ghost restv = rest@;
                let mut out: Vec<Vec<u8>> = Vec::new();
                out.push(ann.raw);
                out.append(&mut rest);
                proof {
                    assert(attrs_view(out@) =~= seq![out@[0]@] + attrs_view(restv));
                }
                (out, e)
            },
            None => {
                let out: Vec<Vec<u8>> = Vec::new();
                proof {
                    assert(attrs_view(out@) =~= Seq::<Seq<u8>>::empty());
                }
                (out, k)
            },
        }
    } else {
        let out: Vec<Vec<u8>> = Vec::new();
        proof {
            assert(attrs_view(out@) =~= Seq::<Seq<u8>>::empty());
        }
        (out, k)
    }
}

/// Parses one record field.
pub fn p_field(s: &[u8], i: usize) -> (r: Result<(FieldDecl, usize), Fault>)
    requires
        i <= s.len(),
    ensures
        (match spec_field(s@, i as int) {
            Parsed::Found(f, j) => r matches Ok(e) && e.0@ == f && e.1 as int == j && i < e.1
                <= s.len(),
            Parsed::Unsup(_) => r matches Err(ft) && ft.unsupported && ft.pos <= s.len(),
            Parsed::Fail => r matches Err(ft) && !ft.unsupported && ft.pos <= s.len(),
        }),
{
    proof {
        lemma_field_advances(s@, i as int);
    }
    let (attrs, a) = p_attrs(s, i);
    match p_ty(s, a) {
        Ok((t, j)) => {
            let b = scan_ws(s, j);
            match p_ident(s, b) {
                Some((nm, c)) => {
                    let d = scan_ws(s, c);
                    if d < s.len() && s[d] == 59 {
                        Ok((FieldDecl { name: nm, ty: t, attrs }, d + 1))
                    } else {
                        Err(Fault { pos: d, expected: v_x_token(), unsupported: false })
                    }
                },
                None => Err(Fault { pos: b, expected: v_x_ident(), unsupported: false }),
            }
        },
        Err(f) => Err(f),
    }
}

/// Parses the field list of a record body.
pub fn p_fields(s: &[u8], i: usize) -> (r: Result<(Vec<FieldDecl>, usize), Fault>)
    requires
        i <= s.len(),
    ensures
        (match spec_fields(s@, i as int) {
            Parsed::Found(fs, j) => r matches Ok(e) && fields_view(e.0@) == fs && e.1 as int == j
                && i < e.1 <= s.len(),
            Parsed::Unsup(_) => r matches Err(ft) && ft.unsupported && ft.pos <= s.len(),
            Parsed::Fail => r matches Err(ft) && !ft.unsupported && ft.pos <= s.len(),
        }),
    decreases s.len() - i,
{
    proof {
        lemma_fields_range(s@, i as int);
    }
    let k = scan_ws(s, i);
    if k < s.len() && s[k] == 125 {
        let out: Vec<FieldDecl> = Vec::new();
        proof {
            assert(fields_view(out@) =~= Seq::<GField>::empty());
        }
        Ok((out, k + 1))
    } else {
        match p_field(s, k) {
            Ok((f, j)) => {
                match p_fields(s, j) {
                    Ok((mut rest, m)) => {
                        let ghost restv = rest@;
                        let mut out: Vec<FieldDecl> = Vec::new();
                        out.push(f);
                        out.append(&mut rest);
                        proof {
                            assert(fields_view(out@) =~= seq![out@[0]@] + fields_view(restv));
                        }
                        Ok((out, m))
                    },
                    Err(f2) => Err(f2),
                }
            },
            Err(f2) => Err(f2),
        }
    }
}

/// Parses one switch case.
pub fn p_case(s: &[u8], i: usize) -> (r: Result<(CaseDecl, usize), Fault>)
    requires
        i <= s.len(),
    ensures
        (match spec_case(s@, i as int) {
            Parsed::Found(c, j) => r matches Ok(e) && e.0@ == c && e.1 as int == j && i < e.1
                <= s.len(),
            Parsed::Unsup(_) => r matches Err(ft) && ft.unsupported && ft.pos <= s.len(),
            Parsed::Fail => r matches Err(ft) && !ft.unsupported && ft.pos <= s.len(),
        }),
{
    proof {
        lemma_case_advances(s@, i as int);
    }
    match p_ident(s, i) {
        Some((w, j)) => {
            if !bytes_eq(w.as_slice(), v_kw_case().as_slice()) {
                return Err(Fault { pos: i, expected: v_x_token(), unsupported: false });
            }
            let k = scan_ws(s, j);
            match p_ident(s, k) {
                Some((label, a)) => {
                    let b = scan_ws(s, a);
                    if b < s.len() && s[b] == 58 {
                        let c = scan_ws(s, b + 1);
                        match p_ty(s, c) {
                            Ok((t, e)) => {
                                let d = scan_ws(s, e);
                                if d < s.len() && s[d] == 59 {
                                    Ok((CaseDecl { label, payload: t }, d + 1))
                                } else {
                                    Err(
                                        Fault {
                                            pos: d,
                                            expected: v_x_token(),
                                            unsupported: false,
                                        },
                                    )
                                }
                            },
                            Err(f) => Err(f),
                        }
                    } else {
                        Err(Fault { pos: b, expected: v_x_token(), unsupported: false })
                    }
                },
                None => Err(Fault { pos: k, expected: v_x_ident(), unsupported: false }),
            }
        },
        None => Err(Fault { pos: i, expected: v_x_ident(), unsupported: false }),
    }
}

/// Parses the case list of a variant body.
pub fn p_cases(s: &[u8], i: usize) -> (r: Result<(Vec<CaseDecl>, usize), Fault>)
    requires
        i <= s.len(),
    ensures
        (match spec_cases(s@, i as int) {
            Parsed::Found(cs, j) => r matches Ok(e) && cases_view(e.0@) == cs && e.1 as int == j
                && i < e.1 <= s.len(),
            Parsed::Unsup(_) => r matches Err(ft) && ft.unsupported && ft.pos <= s.len(),
            Parsed::Fail => r matches Err(ft) && !ft.unsupported && ft.pos <= s.len(),
        }),
    decreases s.len() - i,
{
    proof {
        lemma_cases_range(s@, i as int);
    }
    let k = scan_ws(s, i);
    if k < s.len() && s[k] == 125 {
        let out: Vec<CaseDecl> = Vec::new();
        proof {
            assert(cases_view(out@) =~= Seq::<GCase>::empty());
        }
        Ok((out, k + 1))
    } else {
        match p_case(s, k) {
            Ok((c, j)) => {
                match p_cases(s, j) {
                    Ok((mut rest, m)) => {
                        let ghost restv = rest@;
                        let mut out: Vec<CaseDecl> = Vec::new();
                        out.push(c);
                        out.append(&mut rest);
                        proof {
                            assert(cases_view(out@) =~= seq![out@[0]@] + cases_view(restv));
                        }
                        Ok((out, m))
                    },
                    Err(f2) => Err(f2),
                }
            },
            Err(f2) => Err(f2),
        }
    }
}

/// Scans an enum body after its opening brace, ending after the closing
/// brace.
pub fn p_enum_items(s: &[u8], i: usize) -> (r: Result<usize, Fault>)
    requires
        i <= s.len(),
    ensures
        (match spec_enum_items(s@, i as int) {
            Some(j) => r matches Ok(p) && p as int == j && i < p <= s.len(),
            None => r matches Err(ft) && !ft.unsupported && ft.pos <= s.len(),
        }),
{
    proof {
        lemma_enum_items_range(s@, i as int);
    }
    let mut cur: usize = i;
    loop
        invariant
            i <= cur <= s.len(),
            spec_enum_items(s@, i as int) == spec_enum_items(s@, cur as int),
        decreases s.len() - cur,
    {
        let k = scan_ws(s, cur);
        if k >= s.len() {
            return Err(Fault { pos: k, expected: v_x_token(), unsupported: false });
        }
        if s[k] == 125 {
            return Ok(k + 1);
        }
        if s[k] == 47 && k + 1 < s.len() && s[k + 1] == 47 {
            let e = scan_line_end(s, k + 2);
            proof {
                lemma_line_end_range(s@, k as int + 2);
            }
            cur = e;
        } else if is_ident_start(s[k]) {
            let e = scan_ident_end(s, k + 1);
            let c = scan_ws(s, e);
            if c < s.len() && s[c] == 44 {
                cur = c + 1;
            } else {
                cur = c;
            }
        } else {
            return Err(Fault { pos: k, expected: v_x_ident(), unsupported: false });
        }
    }
}

/// Parses an import declaration.
pub fn p_import(s: &[u8], i: usize) -> (r: Result<(Declaration, usize), Fault>)
    requires
        i <= s.len(),
    ensures
        (match spec_import(s@, i as int) {
            Parsed::Found(d, j) => r matches Ok(e) && e.0@ == d && e.1 as int == j && i < e.1
                <= s.len(),
            Parsed::Unsup(_) => r matches Err(ft) && ft.unsupported && ft.pos <= s.len(),
            Parsed::Fail => r matches Err(ft) && !ft.unsupported && ft.pos <= s.len(),
        }),
{
    proof {
        lemma_import_advances(s@, i as int);
    }
    match p_ident(s, i) {
        Some((w, j)) => {
            if !bytes_eq(w.as_slice(), v_kw_import().as_slice()) {
                return Err(Fault { pos: i, expected: v_x_decl(), unsupported: false });
            }
            let k = scan_ws(s, j);
            match p_ident(s, k) {
                Some((kind, a)) => {
                    let b = scan_ws(s, a);
                    match p_strlit(s, b) {
                        Some((path, c)) => {
                            let d = scan_ws(s, c);
                            match p_ident(s, d) {
                                Some((w2, e)) => {
                                    if !bytes_eq(w2.as_slice(), v_kw_as().as_slice()) {
                                        return Err(
                                            Fault {
                                                pos: d,
                                                expected: v_x_token(),
                                                unsupported: false,
                                            },
                                        );
                                    }
                                    let f = scan_ws(s, e);
                                    match p_ident(s, f) {
                                        Some((alias, g)) => {
                                            let h = scan_ws(s, g);
                                            if h < s.len() && s[h] == 59 {
                                                if bytes_eq(
                                                    kind.as_slice(),
                                                    v_kw_idl().as_slice(),
                                                ) {
                                                    Ok(
                                                        (
                                                            Declaration::Import(
                                                                ImportDecl { kind, path, alias },
                                                            ),
                                                            h + 1,
                                                        ),
                                                    )
                                                } else {
                                                    Err(
                                                        Fault {
                                                            pos: k,
                                                            expected: v_c_import_kind(),
                                                            unsupported: true,
                                                        },
                                                    )
                                                }
                                            } else {
                                                Err(
                                                    Fault {
                                                        pos: h,
                                                        expected: v_x_token(),
                                                        unsupported: false,
                                                    },
                                                )
                                            }
                                        },
                                        None => Err(
                                            Fault {
                                                pos: f,
                                                expected: v_x_ident(),
                                                unsupported: false,
                                            },
                                        ),
                                    }
                                },
                                None => Err(
                                    Fault { pos: d, expected: v_x_ident(), unsupported: false },
                                ),
                            }
                        },
                        None => Err(
                            Fault { pos: b, expected: v_x_string(), unsupported: false },
                        ),
                    }
                },
                None => Err(Fault { pos: k, expected: v_x_ident(), unsupported: false }),
            }
        },
        None => Err(Fault { pos: i, expected: v_x_decl(), unsupported: false }),
    }
}

/// Parses a typedef declaration.
pub fn p_typedef(s: &[u8], i: usize) -> (r: Result<(Declaration, usize), Fault>)
    requires
        i <= s.len(),
    ensures
        (match spec_typedef(s@, i as int) {
            Parsed::Found(d, j) => r matches Ok(e) && e.0@ == d && e.1 as int == j && i < e.1
                <= s.len(),
            Parsed::Unsup(_) => r matches Err(ft) && ft.unsupported && ft.pos <= s.len(),
            Parsed::Fail => r matches Err(ft) && !ft.unsupported && ft.pos <= s.len(),
        }),
{
    proof {
        lemma_typedef_advances(s@, i as int);
    }
    match p_annotation(s, i) {
        Some((ann, j)) => {
            if !bytes_eq(ann.name.as_slice(), v_kw_typedef().as_slice()) {
                return Err(Fault { pos: i, expected: v_x_decl(), unsupported: false });
            }
            let arg_ok: bool = match p_qual(ann.arg.as_slice(), 0) {
                Some((q, e)) => e == ann.arg.len(),
                None => false,
            };
            if !arg_ok {
                return Err(Fault { pos: i, expected: v_x_type(), unsupported: false });
            }
            let (attrs, a) = p_attrs(s, j);
            match p_ident(s, a) {
                Some((w2, b)) => {
                    if !bytes_eq(w2.as_slice(), v_kw_record().as_slice()) {
                        return Err(Fault { pos: a, expected: v_x_token(), unsupported: false });
                    }
                    let c = scan_ws(s, b);
                    match p_ident(s, c) {
                        Some((nm, d)) => {
                            let e = scan_ws(s, d);
                            if e < s.len() && s[e] == 123 {
                                let f = scan_ws(s, e + 1);
                                if f < s.len() && s[f] == 125 {
                                    Ok(
                                        (
                                            Declaration::TypeAlias {
                                                name: nm,
                                                target: TypeExpr::Simple(ann.arg),
                                                attrs,
                                            },
                                            f + 1,
                                        ),
                                    )
                                } else {
                                    Err(
                                        Fault {
                                            pos: f,
                                            expected: v_x_token(),
                                            unsupported: false,
                                        },
                                    )
                                }
                            } else {
                                Err(Fault { pos: e, expected: v_x_token(), unsupported: false })
                            }
                        },
                        None => Err(
                            Fault { pos: c, expected: v_x_ident(), unsupported: false },
                        ),
                    }
                },
                None => Err(Fault { pos: a, expected: v_x_ident(), unsupported: false }),
            }
        },
        None => Err(Fault { pos: i, expected: v_x_decl(), unsupported: false }),
    }
}

/// Parses a fixed-size declaration.
pub fn p_fixed(s: &[u8], i: usize) -> (r: Result<(Declaration, usize), Fault>)
    requires
        i <= s.len(),
    ensures
        (match spec_fixed(s@, i as int) {
            Parsed::Found(d, j) => r matches Ok(e) && e.0@ == d && e.1 as int == j && i < e.1
                <= s.len(),
            Parsed::Unsup(_) => r matches Err(ft) && ft.unsupported && ft.pos <= s.len(),
            Parsed::Fail => r matches Err(ft) && !ft.unsupported && ft.pos <= s.len(),
        }),
{
    proof {
        lemma_fixed_advances(s@, i as int);
    }
    match p_ident(s, i) {
        Some((w, j)) => {
            if !bytes_eq(w.as_slice(), v_kw_fixed().as_slice()) {
                return Err(Fault { pos: i, expected: v_x_decl(), unsupported: false });
            }
            let k = scan_ws(s, j);
            match p_ident(s, k) {
                Some((nm, a)) => {
                    let b = scan_ws(s, a);
                    if b < s.len() && s[b] == 40 {
                        let c = scan_ws(s, b + 1);
                        match p_number(s, c) {
                            Some((v, d)) => {
                                let e = scan_ws(s, d);
                                if e < s.len() && s[e] == 41 {
                                    let f = scan_ws(s, e + 1);
                                    if f < s.len() && s[f] == 59 {
                                        Ok(
                                            (
                                                Declaration::FixedDecl { name: nm, size: v },
                                                f + 1,
                                            ),
                                        )
                                    } else {
                                        Err(
                                            Fault {
                                                pos: f,
                                                expected: v_x_token(),
                                                unsupported: false,
                                            },
                                        )
                                    }
                                } else {
                                    Err(
                                        Fault {
                                            pos: e,
                                            expected: v_x_token(),
                                            unsupported: false,
                                        },
                                    )
                                }
                            },
                            None => Err(
                                Fault { pos: c, expected: v_x_number(), unsupported: false },
                            ),
                        }
                    } else {
                        Err(Fault { pos: b, expected: v_x_token(), unsupported: false })
                    }
                },
                None => Err(Fault { pos: k, expected: v_x_ident(), unsupported: false }),
            }
        },
        None => Err(Fault { pos: i, expected: v_x_decl(), unsupported: false }),
    }
}

/// Parses an enum declaration, keeping its whole span verbatim.
pub fn p_enum_decl(s: &[u8], i: usize) -> (r: Result<(Declaration, usize), Fault>)
    requires
        i <= s.len(),
    ensures
        (match spec_enum_decl(s@, i as int) {
            Parsed::Found(d, j) => r matches Ok(e) && e.0@ == d && e.1 as int == j && i < e.1
                <= s.len(),
            Parsed::Unsup(_) => r matches Err(ft) && ft.unsupported && ft.pos <= s.len(),
            Parsed::Fail => r matches Err(ft) && !ft.unsupported && ft.pos <= s.len(),
        }),
{
    proof {
        lemma_enum_decl_advances(s@, i as int);
    }
    match p_ident(s, i) {
        Some((w, j)) => {
            if !bytes_eq(w.as_slice(), v_kw_enum().as_slice()) {
                return Err(Fault { pos: i, expected: v_x_decl(), unsupported: false });
            }
            let k = scan_ws(s, j);
            match p_ident(s, k) {
                Some((nm, a)) => {
                    let b = scan_ws(s, a);
                    if b < s.len() && s[b] == 123 {
                        match p_enum_items(s, b + 1) {
                            Ok(e) => {
                                let raw = copy_range(s, i, e);
                                Ok((Declaration::EnumDecl { name: nm, raw }, e))
                            },
                            Err(f) => Err(f),
                        }
                    } else {
                        Err(Fault { pos: b, expected: v_x_token(), unsupported: false })
                    }
                },
                None => Err(Fault { pos: k, expected: v_x_ident(), unsupported: false }),
            }
        },
        None => Err(Fault { pos: i, expected: v_x_decl(), unsupported: false }),
    }
}

/// Parses a record declaration.
pub fn p_record(s: &[u8], i: usize) -> (r: Result<(Declaration, usize), Fault>)
    requires
        i <= s.len(),
    ensures
        (match spec_record(s@, i as int) {
            Parsed::Found(d, j) => r matches Ok(e) && e.0@ == d && e.1 as int == j && i < e.1
                <= s.len(),
            Parsed::Unsup(_) => r matches Err(ft) && ft.unsupported && ft.pos <= s.len(),
            Parsed::Fail => r matches Err(ft) && !ft.unsupported && ft.pos <= s.len(),
        }),
{
    proof {
        lemma_record_advances(s@, i as int);
    }
    match p_ident(s, i) {
        Some((w, j)) => {
            if !bytes_eq(w.as_slice(), v_kw_record().as_slice()) {
                return Err(Fault { pos: i, expected: v_x_decl(), unsupported: false });
            }
            let k = scan_ws(s, j);
            match p_ident(s, k) {
                Some((nm, a)) => {
                    let b = scan_ws(s, a);
                    if b < s.len() && s[b] == 123 {
                        match p_fields(s, b + 1) {
                            Ok((fs, e)) => Ok(
                                (Declaration::RecordDecl { name: nm, fields: fs }, e),
                            ),
                            Err(f) => Err(f),
                        }
                    } else {
                        Err(Fault { pos: b, expected: v_x_token(), unsupported: false })
                    }
                },
                None => Err(Fault { pos: k, expected: v_x_ident(), unsupported: false }),
            }
        },
        None => Err(Fault { pos: i, expected: v_x_decl(), unsupported: false }),
    }
}

/// Parses a variant declaration.
pub fn p_variant(s: &[u8], i: usize) -> (r: Result<(Declaration, usize), Fault>)
    requires
        i <= s.len(),
    ensures
        (match spec_variant(s@, i as int) {
            Parsed::Found(d, j) => r matches Ok(e) && e.0@ == d && e.1 as int == j && i < e.1
                <= s.len(),
            Parsed::Unsup(_) => r matches Err(ft) && ft.unsupported && ft.pos <= s.len(),
            Parsed::Fail => r matches Err(ft) && !ft.unsupported && ft.pos <= s.len(),
        }),
{
    proof {
        lemma_variant_advances(s@, i as int);
    }
    match p_ident(s, i) {
        Some((w, j)) => {
            if !bytes_eq(w.as_slice(), v_kw_variant().as_slice()) {
                return Err(Fault { pos: i, expected: v_x_decl(), unsupported: false });
            }
            let k = scan_ws(s, j);
            match p_ident(s, k) {
                Some((nm, a)) => {
                    let b = scan_ws(s, a);
                    match p_ident(s, b) {
                        Some((w2, c)) => {
                            if !bytes_eq(w2.as_slice(), v_kw_switch().as_slice()) {
                                return Err(
                                    Fault { pos: b, expected: v_x_token(), unsupported: false },
                                );
                            }
                            let d = scan_ws(s, c);
                            if d < s.len() && s[d] == 40 {
                                let e = scan_ws(s, d + 1);
                                match p_ty(s, e) {
                                    Ok((_t, f)) => {
                                        let g = scan_ws(s, f);
                                        match p_ident(s, g) {
                                            Some((_w3, h)) => {
                                                let m = scan_ws(s, h);
                                                if m < s.len() && s[m] == 41 {
                                                    let n = scan_ws(s, m + 1);
                                                    if n < s.len() && s[n] == 123 {
                                                        match p_cases(s, n + 1) {
                                                            Ok((cs, e2)) => Ok(
                                                                (
                                                                    Declaration::VariantDecl {
                                                                        name: nm,
                                                                        cases: cs,
                                                                    },
                                                                    e2,
                                                                ),
                                                            ),
                                                            Err(f2) => Err(f2),
                                                        }
                                                    } else {
                                                        Err(
                                                            Fault {
                                                                pos: n,
                                                                expected: v_x_token(),
                                                                unsupported: false,
                                                            },
                                                        )
                                                    }
                                                } else {
                                                    Err(
                                                        Fault {
                                                            pos: m,
                                                            expected: v_x_token(),
                                                            unsupported: false,
                                                        },
                                                    )
                                                }
                                            },
                                            None => Err(
                                                Fault {
                                                    pos: g,
                                                    expected: v_x_ident(),
                                                    unsupported: false,
                                                },
                                            ),
                                        }
                                    },
                                    Err(f2) => Err(f2),
                                }
                            } else {
                                Err(Fault { pos: d, expected: v_x_token(), unsupported: false })
                            }
                        },
                        None => Err(
                            Fault { pos: b, expected: v_x_ident(), unsupported: false },
                        ),
                    }
                },
                None => Err(Fault { pos: k, expected: v_x_ident(), unsupported: false }),
            }
        },
        None => Err(Fault { pos: i, expected: v_x_decl(), unsupported: false }),
    }
}

/// Parses a body-level comment line.
pub fn p_comment(s: &[u8], i: usize) -> (r: Result<(Declaration, usize), Fault>)
    requires
        i <= s.len(),
    ensures
        (match spec_comment(s@, i as int) {
            Parsed::Found(d, j) => r matches Ok(e) && e.0@ == d && e.1 as int == j && i < e.1
                <= s.len(),
            Parsed::Unsup(_) => r matches Err(ft) && ft.unsupported && ft.pos <= s.len(),
            Parsed::Fail => r matches Err(ft) && !ft.unsupported && ft.pos <= s.len(),
        }),
{
    proof {
        lemma_comment_advances(s@, i as int);
    }
    if i < s.len() && s[i] == 47 && i + 1 < s.len() && s[i + 1] == 47 {
        let e = scan_line_end(s, i + 2);
        let text = copy_range(s, i, e);
        if e < s.len() {
            Ok((Declaration::Comment(text), e + 1))
        } else {
            Ok((Declaration::Comment(text), e))
        }
    } else {
        Err(Fault { pos: i, expected: v_x_decl(), unsupported: false })
    }
}

/// Parses one body declaration, dispatching on the leading token.
pub fn p_body_item(s: &[u8], i: usize) -> (r: Result<(Declaration, usize), Fault>)
    requires
        i <= s.len(),
    ensures
        (match spec_body_item(s@, i as int) {
            Parsed::Found(d, j) => r matches Ok(e) && e.0@ == d && e.1 as int == j && i < e.1
                <= s.len(),
            Parsed::Unsup(_) => r matches Err(ft) && ft.unsupported && ft.pos <= s.len(),
            Parsed::Fail => r matches Err(ft) && !ft.unsupported && ft.pos <= s.len(),
        }),
{
    if i < s.len() && s[i] == 47 {
        p_comment(s, i)
    } else if i < s.len() && s[i] == 64 {
        p_typedef(s, i)
    } else {
        match p_ident(s, i) {
            Some((w, _j)) => {
                if bytes_eq(w.as_slice(), v_kw_import().as_slice()) {
                    p_import(s, i)
                } else if bytes_eq(w.as_slice(), v_kw_enum().as_slice()) {
                    p_enum_decl(s, i)
                } else if bytes_eq(w.as_slice(), v_kw_fixed().as_slice()) {
                    p_fixed(s, i)
                } else if bytes_eq(w.as_slice(), v_kw_record().as_slice()) {
                    p_record(s, i)
                } else if bytes_eq(w.as_slice(), v_kw_variant().as_slice()) {
                    p_variant(s, i)
                } else {
                    Err(Fault { pos: i, expected: v_x_decl(), unsupported: false })
                }
            },
            None => Err(Fault { pos: i, expected: v_x_decl(), unsupported: false }),
        }
    }
}

/// Parses the protocol body up to and past its closing brace.
pub fn p_body(s: &[u8], i: usize) -> (r: Result<(Vec<Declaration>, usize), Fault>)
    requires
        i <= s.len(),
    ensures
        (match spec_body(s@, i as int) {
            Parsed::Found(ds, j) => r matches Ok(e) && decls_view(e.0@) == ds && e.1 as int == j
                && i < e.1 <= s.len(),
            Parsed::Unsup(_) => r matches Err(ft) && ft.unsupported && ft.pos <= s.len(),
            Parsed::Fail => r matches Err(ft) && !ft.unsupported && ft.pos <= s.len(),
        }),
    decreases s.len() - i,
{
    let k = scan_ws(s, i);
    if k < s.len() && s[k] == 125 {
        let out: Vec<Declaration> = Vec::new();
        proof {
            assert(decls_view(out@) =~= Seq::<GDecl>::empty());
        }
        Ok((out, k + 1))
    } else {
        match p_body_item(s, k) {
            Ok((d, j)) => {
                match p_body(s, j) {
                    Ok((mut rest, m)) => {
                        let ghost restv = rest@;
                        let mut out: Vec<Declaration> = Vec::new();
                        out.push(d);
                        out.append(&mut rest);
                        proof {
                            assert(decls_view(out@) =~= seq![out@[0]@] + decls_view(restv));
                        }
                        Ok((out, m))
                    },
                    Err(f2) => Err(f2),
                }
            },
            Err(f2) => Err(f2),
        }
    }
}

/// Parses a whole protocol file against the spec-level grammar, as an
/// internal fault on mismatch.
fn p_file(s: &[u8]) -> (r: Result<ProtocolFile, Fault>)
    requires
        s.len() < usize::MAX,
    ensures
        (match spec_file(s@) {
            Parsed::Found(p, _) => r matches Ok(pf) && pf@ == p,
            Parsed::Unsup(_) => r matches Err(ft) && ft.unsupported && ft.pos <= s.len(),
            Parsed::Fail => r matches Err(ft) && !ft.unsupported && ft.pos <= s.len(),
        }),
{
    let i0 = scan_ws(s, 0);
    let (ns, start): (Option<Vec<u8>>, usize) = if i0 < s.len() && s[i0] == 64 {
        match p_annotation(s, i0) {
            Some((ann, j)) => {
                if bytes_eq(ann.name.as_slice(), v_kw_namespace().as_slice()) {
                    (Some(ann.arg), j)
                } else {
                    return Err(Fault { pos: i0, expected: v_x_decl(), unsupported: false });
                }
            },
            None => {
                return Err(Fault { pos: i0, expected: v_x_decl(), unsupported: false });
            },
        }
    } else {
        (None, i0)
    };
    let k = scan_ws(s, start);
    match p_ident(s, k) {
        Some((w, j)) => {
            if !bytes_eq(w.as_slice(), v_kw_protocol().as_slice()) {
                return Err(Fault { pos: k, expected: v_x_decl(), unsupported: false });
            }
            let a = scan_ws(s, j);
            match p_ident(s, a) {
                Some((nm, b)) => {
                    let c = scan_ws(s, b);
                    if c < s.len() && s[c] == 123 {
                        match p_body(s, c + 1) {
                            Ok((ds, e)) => {
                                let f = scan_ws(s, e);
                                if f == s.len() {
                                    Ok(ProtocolFile { namespace: ns, name: nm, decls: ds })
                                } else {
                                    Err(
                                        Fault {
                                            pos: f,
                                            expected: v_x_end(),
                                            unsupported: false,
                                        },
                                    )
                                }
                            },
                            Err(f2) => Err(f2),
                        }
                    } else {
                        Err(Fault { pos: c, expected: v_x_token(), unsupported: false })
                    }
                },
                None => Err(Fault { pos: a, expected: v_x_ident(), unsupported: false }),
            }
        },
        None => Err(Fault { pos: k, expected: v_x_ident(), unsupported: false }),
    }
}

/// Parses one protocol source file into its domain model.
///
/// On success the returned model is exactly the spec-level parse of the
/// input.  A grammar mismatch is reported as a `Syntax` error whose line and
/// column agree with its byte position; a recognized-but-unsupported
/// construct (a union beyond the null shorthand, an import kind other than
/// `idl`) is reported as `Unsupported`.  The input must be shorter than the
/// machine's address range so a failure column always stays representable.
pub fn parse_protocol(src: &[u8]) -> (r: Result<ProtocolFile, CompileError>)
    requires
        src.len() < usize::MAX,
    ensures
        (match spec_file(src@) {
            Parsed::Found(p, _) => r matches Ok(pf) && pf@ == p,
            Parsed::Unsup(_) => r matches Err(e) && e is Unsupported,
            Parsed::Fail => r matches Err(e) && (e matches CompileError::Syntax {
                pos,
                line,
                col,
                ..
            } && pos <= src.len() && line as int == spec_line(src@, pos as int) && col as int
                == spec_col(src@, pos as int)),
        }),
{
    match p_file(src) {
        Ok(pf) => Ok(pf),
        Err(f) => {
            if f.unsupported {
                Err(CompileError::Unsupported { construct: f.expected })
            } else {
                let (line, col) = crate::scan::line_col(src, f.pos);
                Err(
                    CompileError::Syntax { pos: f.pos, line, col, expected: f.expected },
                )
            }
        },
    }
}

} // verus!
