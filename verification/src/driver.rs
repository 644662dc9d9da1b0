//! The protocol driver: renders a parsed file's declarations in source
//! order, each terminated by a line feed, and composes parsing with
//! emission.  Any single declaration failure aborts the whole file; there is
//! no partial output.

use vstd::prelude::*;

use crate::emit::{emit_declaration, spec_emit_decl};
use crate::lit::s_e_nl;
use crate::model::{
    decls_view, CompileError, Declaration, EmitConfig, Emitted, GDecl, GEmitConfig, GProtocol,
    Parsed, ProtocolFile,
};
use crate::parse::{parse_protocol, spec_file};
use crate::scan::{spec_col, spec_line};
use crate::util::push_vec;

verus! {

/// The first `k` declarations rendered and newline-terminated, or the first
/// failure among them.
pub open spec fn decls_text_upto(ds: Seq<GDecl>, cfg: GEmitConfig, k: int) -> Emitted
    decreases k,
{
    if k <= 0 {
        Emitted::Text(Seq::empty())
    } else {
        match decls_text_upto(ds, cfg, k - 1) {
            Emitted::Text(acc) => {
                let cur = if 0 <= k - 1 < ds.len() {
                    spec_emit_decl(ds[k - 1], cfg)
                } else {
                    Emitted::Text(Seq::empty())
                };
                match cur {
                    Emitted::Text(t) => Emitted::Text(acc + t + s_e_nl()),
                    Emitted::Unsup => Emitted::Unsup,
                    Emitted::Missing => Emitted::Missing,
                }
            },
            Emitted::Unsup => Emitted::Unsup,
            Emitted::Missing => Emitted::Missing,
        }
    }
}

/// A failure among the first `k` declarations stays the result for every
/// longer prefix.
pub proof fn lemma_decls_text_error(ds: Seq<GDecl>, cfg: GEmitConfig, k: int, k2: int)
    requires
        k <= k2,
        !(decls_text_upto(ds, cfg, k) is Text),
    ensures
        decls_text_upto(ds, cfg, k2) == decls_text_upto(ds, cfg, k),
    decreases k2 - k,
{
    if k < k2 {
        lemma_decls_text_error(ds, cfg, k, k2 - 1);
    }
}

/// The rendered output of a whole protocol file: its declarations in source
/// order, each followed by a line feed.
pub open spec fn spec_emit_protocol(p: GProtocol, cfg: GEmitConfig) -> Emitted {
    decls_text_upto(p.decls, cfg, p.decls.len() as int)
}

/// Renders a parsed protocol file under the given configuration.
pub fn emit_protocol(p: &ProtocolFile, cfg: &EmitConfig) -> (r: Result<Vec<u8>, CompileError>)
    ensures
        (match spec_emit_protocol(p@, cfg@) {
            Emitted::Text(t) => r matches Ok(out) && out@ == t,
            Emitted::Unsup => r matches Err(e) && e is Unsupported,
            Emitted::Missing => r matches Err(e) && e is MissingChild,
        }),
{
    let ghost ds = decls_view(p.decls@);
    let mut out: Vec<u8> = Vec::new();
    let mut k: usize = 0;
    proof {
        assert(decls_text_upto(ds, cfg@, 0) == Emitted::Text(Seq::<u8>::empty()));
        assert(out@ =~= Seq::<u8>::empty());
    }
    while k < p.decls.len()
        invariant
            k <= p.decls.len(),
            ds == decls_view(p.decls@),
            decls_text_upto(ds, cfg@, k as int) == Emitted::Text(out@),
        decreases p.decls.len() - k,
    {
        match emit_declaration(&p.decls[k], cfg) {
            Ok(piece) => {
                push_vec(&mut out, &piece);
                out.push(10);
                proof {
                    assert(ds[k as int] == p.decls@[k as int]@);
                    assert(out@ =~= decls_text_upto(ds, cfg@, k as int)->Text_0 + piece@
                        + s_e_nl());
                }
            },
            Err(e) => {
                proof {
                    assert(ds[k as int] == p.decls@[k as int]@);
                    lemma_decls_text_error(ds, cfg@, k as int + 1, ds.len() as int);
                }
                return Err(e);
            },
        }
        k = k + 1;
    }
    Ok(out)
}

/// Compiles one protocol source file: parses it and renders every body
/// declaration in source order.  The first failing stage or declaration
/// aborts the compilation with its error; there is no best-effort output.
/// The input must be shorter than the machine's address range so a failure
/// column always stays representable.
pub fn compile(src: &[u8], cfg: &EmitConfig) -> (r: Result<Vec<u8>, CompileError>)
    requires
        src.len() < usize::MAX,
    ensures
        (match spec_file(src@) {
            Parsed::Found(p, _) => (match spec_emit_protocol(p, cfg@) {
                Emitted::Text(t) => r matches Ok(out) && out@ == t,
                Emitted::Unsup => r matches Err(e) && e is Unsupported,
                Emitted::Missing => r matches Err(e) && e is MissingChild,
            }),
            Parsed::Unsup(_) => r matches Err(e) && e is Unsupported,
            Parsed::Fail => r matches Err(e) && (e matches CompileError::Syntax {
                pos,
                line,
                col,
                ..
            } && pos <= src.len() && line as int == spec_line(src@, pos as int) && col as int
                == spec_col(src@, pos as int)),
        }),
{
    match parse_protocol(src) {
        Ok(pf) => emit_protocol(&pf, cfg),
        Err(e) => Err(e),
    }
}

} // verus!
