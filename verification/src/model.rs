//! The domain model of one protocol file: type expressions, declarations,
//! the file itself, the emitter configuration, and the error taxonomy.
//!
//! Each runtime type has a ghost counterpart (its mathematical model) that
//! the contracts of the parser and the emitters speak about.

use vstd::prelude::*;

verus! {

// ---------------------------------------------------------------------------
// Ghost models
// ---------------------------------------------------------------------------
/// Model of a type expression: a (possibly dot-qualified) base name wrapped
/// in `depth` optional layers.  The only leaf of the type grammar is a plain
/// name, so nesting of the union-with-null shorthand collapses to a wrap
/// count.
pub ghost struct GTy {
    pub depth: nat,
    pub name: Seq<u8>,
}

/// Model of one record field: its name, its type and the annotation lines
/// captured verbatim in source order.
pub ghost struct GField {
    pub name: Seq<u8>,
    pub ty: GTy,
    pub attrs: Seq<Seq<u8>>,
}

/// Model of one switch case of a variant declaration.
pub ghost struct GCase {
    pub label: Seq<u8>,
    pub payload: GTy,
}

/// Model of an import declaration: the kind word, the quoted source path and
/// the alias after `as`.
pub ghost struct GImport {
    pub kind: Seq<u8>,
    pub path: Seq<u8>,
    pub alias: Seq<u8>,
}

/// Model of one body declaration of a protocol file.
pub ghost enum GDecl {
    Import(GImport),
    Comment(Seq<u8>),
    TypeAlias { name: Seq<u8>, target: GTy, attrs: Seq<Seq<u8>> },
    EnumDecl { name: Seq<u8>, raw: Seq<u8> },
    FixedDecl { name: Seq<u8>, size: u64 },
    RecordDecl { name: Seq<u8>, fields: Seq<GField> },
    VariantDecl { name: Seq<u8>, cases: Seq<GCase> },
}

/// Model of a whole protocol file: the optional namespace annotation, the
/// protocol name, and the body declarations in source order.
pub ghost struct GProtocol {
    pub namespace: Option<Seq<u8>>,
    pub name: Seq<u8>,
    pub decls: Seq<GDecl>,
}

/// Model of the emitter configuration.
pub ghost struct GEmitConfig {
    pub anchor: Seq<u8>,
    pub root: Seq<u8>,
    pub anchor_drop: nat,
}

/// Outcome of a spec-level parse: a value and the position just past it,
/// a recognized-but-unsupported construct (with the position reached), or a
/// plain mismatch.
pub ghost enum Parsed<T> {
    Found(T, int),
    Unsup(int),
    Fail,
}

/// Outcome of a spec-level emission: the rendered text, an unsupported
/// construct, or a structurally incomplete declaration.
pub ghost enum Emitted {
    Text(Seq<u8>),
    Unsup,
    Missing,
}

// ---------------------------------------------------------------------------
// Runtime types
// ---------------------------------------------------------------------------
/// A type expression as parsed from source: a plain (possibly qualified)
/// name, or the union-with-null shorthand wrapping an inner type.
pub enum TypeExpr {
    Simple(Vec<u8>),
    Optional(Box<TypeExpr>),
}

/// One record field with its leading annotation lines.
pub struct FieldDecl {
    pub name: Vec<u8>,
    pub ty: TypeExpr,
    pub attrs: Vec<Vec<u8>>,
}

/// One switch case of a variant declaration.
pub struct CaseDecl {
    pub label: Vec<u8>,
    pub payload: TypeExpr,
}

/// An import declaration.
pub struct ImportDecl {
    pub kind: Vec<u8>,
    pub path: Vec<u8>,
    pub alias: Vec<u8>,
}

/// One body declaration of a protocol file.
pub enum Declaration {
    Import(ImportDecl),
    Comment(Vec<u8>),
    TypeAlias { name: Vec<u8>, target: TypeExpr, attrs: Vec<Vec<u8>> },
    EnumDecl { name: Vec<u8>, raw: Vec<u8> },
    FixedDecl { name: Vec<u8>, size: u64 },
    RecordDecl { name: Vec<u8>, fields: Vec<FieldDecl> },
    VariantDecl { name: Vec<u8>, cases: Vec<CaseDecl> },
}

/// A parsed protocol file.  Declaration names are expected to be unique
/// within a file; the compiler neither checks nor relies on that, it only
/// keeps the declarations in source order.
pub struct ProtocolFile {
    pub namespace: Option<Vec<u8>>,
    pub name: Vec<u8>,
    pub decls: Vec<Declaration>,
}

/// Settings of the import-path rewrite: the anchor segment that locates the
/// interesting tail of a source path, the root marker of the target module
/// path, and how many segments (starting with the anchor itself) to drop.
/// `anchor_drop == 0` keeps the anchor segment in the rewritten path.
pub struct EmitConfig {
    pub anchor: Vec<u8>,
    pub root: Vec<u8>,
    pub anchor_drop: usize,
}

/// The error taxonomy.  `Syntax` reports a grammar mismatch with its byte
/// position, 1-based line and column, and a word for what was expected;
/// `Unsupported` reports a recognized construct this compiler refuses;
/// `MissingChild` reports a structurally incomplete declaration.
#[derive(Debug)]
pub enum CompileError {
    Syntax { pos: usize, line: usize, col: usize, expected: Vec<u8> },
    Unsupported { construct: Vec<u8> },
    MissingChild { declaration: Vec<u8>, field: Vec<u8> },
}

/// Internal parse fault: the position reached, a word for what was expected
/// there, and whether the construct was recognized but is unsupported.
#[derive(Debug)]
pub struct Fault {
    pub pos: usize,
    pub expected: Vec<u8>,
    pub unsupported: bool,
}

// ---------------------------------------------------------------------------
// Views
// ---------------------------------------------------------------------------
/// The model of a vector of byte vectors: the sequence of byte sequences.
pub open spec fn attrs_view(v: Seq<Vec<u8>>) -> Seq<Seq<u8>> {
    Seq::new(v.len(), |i: int| v[i]@)
}

/// The model of a sequence of fields.
pub open spec fn fields_view(v: Seq<FieldDecl>) -> Seq<GField> {
    Seq::new(v.len(), |i: int| v[i]@)
}

/// The model of a sequence of cases.
pub open spec fn cases_view(v: Seq<CaseDecl>) -> Seq<GCase> {
    Seq::new(v.len(), |i: int| v[i]@)
}

/// The model of a sequence of declarations.
pub open spec fn decls_view(v: Seq<Declaration>) -> Seq<GDecl> {
    Seq::new(v.len(), |i: int| v[i]@)
}

impl View for TypeExpr {
    type V = GTy;

    open spec fn view(&self) -> GTy
        decreases self,
    {
        match self {
            TypeExpr::Simple(n) => GTy { depth: 0, name: n@ },
            TypeExpr::Optional(inner) => GTy {
                depth: (**inner)@.depth + 1,
                name: (**inner)@.name,
            },
        }
    }
}

impl View for FieldDecl {
    type V = GField;

    open spec fn view(&self) -> GField {
        GField { name: self.name@, ty: self.ty@, attrs: attrs_view(self.attrs@) }
    }
}

impl View for CaseDecl {
    type V = GCase;

    open spec fn view(&self) -> GCase {
        GCase { label: self.label@, payload: self.payload@ }
    }
}

impl View for ImportDecl {
    type V = GImport;

    open spec fn view(&self) -> GImport {
        GImport { kind: self.kind@, path: self.path@, alias: self.alias@ }
    }
}

impl View for Declaration {
    type V = GDecl;

    open spec fn view(&self) -> GDecl {
        match self {
            Declaration::Import(d) => GDecl::Import(d@),
            Declaration::Comment(text) => GDecl::Comment(text@),
            Declaration::TypeAlias { name, target, attrs } => GDecl::TypeAlias {
                name: name@,
                target: target@,
                attrs: attrs_view(attrs@),
            },
            Declaration::EnumDecl { name, raw } => GDecl::EnumDecl { name: name@, raw: raw@ },
            Declaration::FixedDecl { name, size } => GDecl::FixedDecl { name: name@, size: *size },
            Declaration::RecordDecl { name, fields } => GDecl::RecordDecl {
                name: name@,
                fields: fields_view(fields@),
            },
            Declaration::VariantDecl { name, cases } => GDecl::VariantDecl {
                name: name@,
                cases: cases_view(cases@),
            },
        }
    }
}

impl View for ProtocolFile {
    type V = GProtocol;

    open spec fn view(&self) -> GProtocol {
        GProtocol {
            namespace: match &self.namespace {
                Some(n) => Some(n@),
                None => None,
            },
            name: self.name@,
            decls: decls_view(self.decls@),
        }
    }
}

impl View for EmitConfig {
    type V = GEmitConfig;

    open spec fn view(&self) -> GEmitConfig {
        GEmitConfig {
            anchor: self.anchor@,
            root: self.root@,
            anchor_drop: self.anchor_drop as nat,
        }
    }
}

impl EmitConfig {
    /// The settings used for the Keybase protocol tree: anchor `protocol`,
    /// root `crate`, and no segments dropped, so the anchor segment itself
    /// stays in the rewritten module path.
    pub fn standard() -> (c: EmitConfig)
        ensures
            c@ == (GEmitConfig {
                anchor: crate::lit::s_kw_protocol(),
                root: crate::lit::s_r_crate(),
                anchor_drop: 0,
            }),
    {
        EmitConfig {
            anchor: crate::lit::v_kw_protocol(),
            root: crate::lit::v_r_crate(),
            anchor_drop: 0,
        }
    }
}

} // verus!
