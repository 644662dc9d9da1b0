//! Byte-string constants shared by the parser, the emitters and the
//! request builders, each as a spec sequence with a matching runtime value.

use vstd::prelude::*;

verus! {

/// The byte string `import`.
pub open spec fn s_kw_import() -> Seq<u8> {
    seq![105u8, 109, 112, 111, 114, 116]
}

/// The bytes of `import`.
pub fn v_kw_import() -> (v: Vec<u8>)
    ensures
        v@ == s_kw_import(),
{
    let mut v: Vec<u8> = Vec::new();
    v.push(105);
    v.push(109);
    v.push(112);
    v.push(111);
    v.push(114);
    v.push(116);
    proof {
        assert(v@ =~= s_kw_import());
    }
    v
}

/// The byte string `idl`.
pub open spec fn s_kw_idl() -> Seq<u8> {
    seq![105u8, 100, 108]
}

/// The bytes of `idl`.
pub fn v_kw_idl() -> (v: Vec<u8>)
    ensures
        v@ == s_kw_idl(),
{
    let mut v: Vec<u8> = Vec::new();
    v.push(105);
    v.push(100);
    v.push(108);
    proof {
        assert(v@ =~= s_kw_idl());
    }
    v
}

/// The byte string `as`.
pub open spec fn s_kw_as() -> Seq<u8> {
    seq![97u8, 115]
}

/// The bytes of `as`.
pub fn v_kw_as() -> (v: Vec<u8>)
    ensures
        v@ == s_kw_as(),
{
    let mut v: Vec<u8> = Vec::new();
    v.push(97);
    v.push(115);
    proof {
        assert(v@ =~= s_kw_as());
    }
    v
}

/// The byte string `record`.
pub open spec fn s_kw_record() -> Seq<u8> {
    seq![114u8, 101, 99, 111, 114, 100]
}

/// The bytes of `record`.
pub fn v_kw_record() -> (v: Vec<u8>)
    ensures
        v@ == s_kw_record(),
{
    let mut v: Vec<u8> = Vec::new();
    v.push(114);
    v.push(101);
    v.push(99);
    v.push(111);
    v.push(114);
    v.push(100);
    proof {
        assert(v@ =~= s_kw_record());
    }
    v
}

/// The byte string `enum`.
pub open spec fn s_kw_enum() -> Seq<u8> {
    seq![101u8, 110, 117, 109]
}

/// The bytes of `enum`.
pub fn v_kw_enum() -> (v: Vec<u8>)
    ensures
        v@ == s_kw_enum(),
{
    let mut v: Vec<u8> = Vec::new();
    v.push(101);
    v.push(110);
    v.push(117);
    v.push(109);
    proof {
        assert(v@ =~= s_kw_enum());
    }
    v
}

/// The byte string `fixed`.
pub open spec fn s_kw_fixed() -> Seq<u8> {
    seq![102u8, 105, 120, 101, 100]
}

/// The bytes of `fixed`.
pub fn v_kw_fixed() -> (v: Vec<u8>)
    ensures
        v@ == s_kw_fixed(),
{
    let mut v: Vec<u8> = Vec::new();
    v.push(102);
    v.push(105);
    v.push(120);
    v.push(101);
    v.push(100);
    proof {
        assert(v@ =~= s_kw_fixed());
    }
    v
}

/// The byte string `variant`.
pub open spec fn s_kw_variant() -> Seq<u8> {
    seq![118u8, 97, 114, 105, 97, 110, 116]
}

/// The bytes of `variant`.
pub fn v_kw_variant() -> (v: Vec<u8>)
    ensures
        v@ == s_kw_variant(),
{
    let mut v: Vec<u8> = Vec::new();
    v.push(118);
    v.push(97);
    v.push(114);
    v.push(105);
    v.push(97);
    v.push(110);
    v.push(116);
    proof {
        assert(v@ =~= s_kw_variant());
    }
    v
}

/// The byte string `switch`.
pub open spec fn s_kw_switch() -> Seq<u8> {
    seq![115u8, 119, 105, 116, 99, 104]
}

/// The bytes of `switch`.
pub fn v_kw_switch() -> (v: Vec<u8>)
    ensures
        v@ == s_kw_switch(),
{
    let mut v: Vec<u8> = Vec::new();
    v.push(115);
    v.push(119);
    v.push(105);
    v.push(116);
    v.push(99);
    v.push(104);
    proof {
        assert(v@ =~= s_kw_switch());
    }
    v
}

/// The byte string `case`.
pub open spec fn s_kw_case() -> Seq<u8> {
    seq![99u8, 97, 115, 101]
}

/// The bytes of `case`.
pub fn v_kw_case() -> (v: Vec<u8>)
    ensures
        v@ == s_kw_case(),
{
    let mut v: Vec<u8> = Vec::new();
    v.push(99);
    v.push(97);
    v.push(115);
    v.push(101);
    proof {
        assert(v@ =~= s_kw_case());
    }
    v
}

/// The byte string `union`.
pub open spec fn s_kw_union() -> Seq<u8> {
    seq![117u8, 110, 105, 111, 110]
}

/// The bytes of `union`.
pub fn v_kw_union() -> (v: Vec<u8>)
    ensures
        v@ == s_kw_union(),
{
    let mut v: Vec<u8> = Vec::new();
    v.push(117);
    v.push(110);
    v.push(105);
    v.push(111);
    v.push(110);
    proof {
        assert(v@ =~= s_kw_union());
    }
    v
}

/// The byte string `null`.
pub open spec fn s_kw_null() -> Seq<u8> {
    seq![110u8, 117, 108, 108]
}

/// The bytes of `null`.
pub fn v_kw_null() -> (v: Vec<u8>)
    ensures
        v@ == s_kw_null(),
{
    let mut v: Vec<u8> = Vec::new();
    v.push(110);
    v.push(117);
    v.push(108);
    v.push(108);
    proof {
        assert(v@ =~= s_kw_null());
    }
    v
}

/// The byte string `protocol`.
pub open spec fn s_kw_protocol() -> Seq<u8> {
    seq![112u8, 114, 111, 116, 111, 99, 111, 108]
}

/// The bytes of `protocol`.
pub fn v_kw_protocol() -> (v: Vec<u8>)
    ensures
        v@ == s_kw_protocol(),
{
    let mut v: Vec<u8> = Vec::new();
    v.push(112);
    v.push(114);
    v.push(111);
    v.push(116);
    v.push(111);
    v.push(99);
    v.push(111);
    v.push(108);
    proof {
        assert(v@ =~= s_kw_protocol());
    }
    v
}

/// The byte string `typedef`.
pub open spec fn s_kw_typedef() -> Seq<u8> {
    seq![116u8, 121, 112, 101, 100, 101, 102]
}

/// The bytes of `typedef`.
pub fn v_kw_typedef() -> (v: Vec<u8>)
    ensures
        v@ == s_kw_typedef(),
{
    let mut v: Vec<u8> = Vec::new();
    v.push(116);
    v.push(121);
    v.push(112);
    v.push(101);
    v.push(100);
    v.push(101);
    v.push(102);
    proof {
        assert(v@ =~= s_kw_typedef());
    }
    v
}

/// The byte string `namespace`.
pub open spec fn s_kw_namespace() -> Seq<u8> {
    seq![110u8, 97, 109, 101, 115, 112, 97, 99, 101]
}

/// The bytes of `namespace`.
pub fn v_kw_namespace() -> (v: Vec<u8>)
    ensures
        v@ == s_kw_namespace(),
{
    let mut v: Vec<u8> = Vec::new();
    v.push(110);
    v.push(97);
    v.push(109);
    v.push(101);
    v.push(115);
    v.push(112);
    v.push(97);
    v.push(99);
    v.push(101);
    proof {
        assert(v@ =~= s_kw_namespace());
    }
    v
}

/// The byte string `bytes`.
pub open spec fn s_p_bytes() -> Seq<u8> {
    seq![98u8, 121, 116, 101, 115]
}

/// The bytes of `bytes`.
pub fn v_p_bytes() -> (v: Vec<u8>)
    ensures
        v@ == s_p_bytes(),
{
    let mut v: Vec<u8> = Vec::new();
    v.push(98);
    v.push(121);
    v.push(116);
    v.push(101);
    v.push(115);
    proof {
        assert(v@ =~= s_p_bytes());
    }
    v
}

/// The byte string `uint64`.
pub open spec fn s_p_uint64() -> Seq<u8> {
    seq![117u8, 105, 110, 116, 54, 52]
}

/// The bytes of `uint64`.
pub fn v_p_uint64() -> (v: Vec<u8>)
    ensures
        v@ == s_p_uint64(),
{
    let mut v: Vec<u8> = Vec::new();
    v.push(117);
    v.push(105);
    v.push(110);
    v.push(116);
    v.push(54);
    v.push(52);
    proof {
        assert(v@ =~= s_p_uint64());
    }
    v
}

/// The byte string `uint32`.
pub open spec fn s_p_uint32() -> Seq<u8> {
    seq![117u8, 105, 110, 116, 51, 50]
}

/// The bytes of `uint32`.
pub fn v_p_uint32() -> (v: Vec<u8>)
    ensures
        v@ == s_p_uint32(),
{
    let mut v: Vec<u8> = Vec::new();
    v.push(117);
    v.push(105);
    v.push(110);
    v.push(116);
    v.push(51);
    v.push(50);
    proof {
        assert(v@ =~= s_p_uint32());
    }
    v
}

/// The byte string `[u8]`.
pub open spec fn s_r_bytes() -> Seq<u8> {
    seq![91u8, 117, 56, 93]
}

/// The bytes of `[u8]`.
pub fn v_r_bytes() -> (v: Vec<u8>)
    ensures
        v@ == s_r_bytes(),
{
    let mut v: Vec<u8> = Vec::new();
    v.push(91);
    v.push(117);
    v.push(56);
    v.push(93);
    proof {
        assert(v@ =~= s_r_bytes());
    }
    v
}

/// The byte string `u64`.
pub open spec fn s_r_u64() -> Seq<u8> {
    seq![117u8, 54, 52]
}

/// The bytes of `u64`.
pub fn v_r_u64() -> (v: Vec<u8>)
    ensures
        v@ == s_r_u64(),
{
    let mut v: Vec<u8> = Vec::new();
    v.push(117);
    v.push(54);
    v.push(52);
    proof {
        assert(v@ =~= s_r_u64());
    }
    v
}

/// The byte string `u32`.
pub open spec fn s_r_u32() -> Seq<u8> {
    seq![117u8, 51, 50]
}

/// The bytes of `u32`.
pub fn v_r_u32() -> (v: Vec<u8>)
    ensures
        v@ == s_r_u32(),
{
    let mut v: Vec<u8> = Vec::new();
    v.push(117);
    v.push(51);
    v.push(50);
    proof {
        assert(v@ =~= s_r_u32());
    }
    v
}

/// The byte string `use `.
pub open spec fn s_e_use() -> Seq<u8> {
    seq![117u8, 115, 101, 32]
}

/// The bytes of `use `.
pub fn v_e_use() -> (v: Vec<u8>)
    ensures
        v@ == s_e_use(),
{
    let mut v: Vec<u8> = Vec::new();
    v.push(117);
    v.push(115);
    v.push(101);
    v.push(32);
    proof {
        assert(v@ =~= s_e_use());
    }
    v
}

/// The byte string `::`.
pub open spec fn s_e_colcol() -> Seq<u8> {
    seq![58u8, 58]
}

/// The byte string ` as `.
pub open spec fn s_e_as() -> Seq<u8> {
    seq![32u8, 97, 115, 32]
}

/// The bytes of ` as `.
pub fn v_e_as() -> (v: Vec<u8>)
    ensures
        v@ == s_e_as(),
{
    let mut v: Vec<u8> = Vec::new();
    v.push(32);
    v.push(97);
    v.push(115);
    v.push(32);
    proof {
        assert(v@ =~= s_e_as());
    }
    v
}

/// The byte string `;`.
pub open spec fn s_e_semi() -> Seq<u8> {
    seq![59u8]
}

/// The byte string `type `.
pub open spec fn s_e_type() -> Seq<u8> {
    seq![116u8, 121, 112, 101, 32]
}

/// The bytes of `type `.
pub fn v_e_type() -> (v: Vec<u8>)
    ensures
        v@ == s_e_type(),
{
    let mut v: Vec<u8> = Vec::new();
    v.push(116);
    v.push(121);
    v.push(112);
    v.push(101);
    v.push(32);
    proof {
        assert(v@ =~= s_e_type());
    }
    v
}

/// The byte string ` = `.
pub open spec fn s_e_assign() -> Seq<u8> {
    seq![32u8, 61, 32]
}

/// The bytes of ` = `.
pub fn v_e_assign() -> (v: Vec<u8>)
    ensures
        v@ == s_e_assign(),
{
    let mut v: Vec<u8> = Vec::new();
    v.push(32);
    v.push(61);
    v.push(32);
    proof {
        assert(v@ =~= s_e_assign());
    }
    v
}

/// The byte string `[u8;`.
pub open spec fn s_e_fixed_open() -> Seq<u8> {
    seq![91u8, 117, 56, 59]
}

/// The bytes of `[u8;`.
pub fn v_e_fixed_open() -> (v: Vec<u8>)
    ensures
        v@ == s_e_fixed_open(),
{
    let mut v: Vec<u8> = Vec::new();
    v.push(91);
    v.push(117);
    v.push(56);
    v.push(59);
    proof {
        assert(v@ =~= s_e_fixed_open());
    }
    v
}

/// The byte string `];`.
pub open spec fn s_e_fixed_close() -> Seq<u8> {
    seq![93u8, 59]
}

/// The bytes of `];`.
pub fn v_e_fixed_close() -> (v: Vec<u8>)
    ensures
        v@ == s_e_fixed_close(),
{
    let mut v: Vec<u8> = Vec::new();
    v.push(93);
    v.push(59);
    proof {
        assert(v@ =~= s_e_fixed_close());
    }
    v
}

/// The byte string `struct `.
pub open spec fn s_e_struct() -> Seq<u8> {
    seq![115u8, 116, 114, 117, 99, 116, 32]
}

/// The bytes of `struct `.
pub fn v_e_struct() -> (v: Vec<u8>)
    ensures
        v@ == s_e_struct(),
{
    let mut v: Vec<u8> = Vec::new();
    v.push(115);
    v.push(116);
    v.push(114);
    v.push(117);
    v.push(99);
    v.push(116);
    v.push(32);
    proof {
        assert(v@ =~= s_e_struct());
    }
    v
}

/// The byte string ` {\\n`.
pub open spec fn s_e_open_brace() -> Seq<u8> {
    seq![32u8, 123, 10]
}

/// The bytes of ` {\\n`.
pub fn v_e_open_brace() -> (v: Vec<u8>)
    ensures
        v@ == s_e_open_brace(),
{
    let mut v: Vec<u8> = Vec::new();
    v.push(32);
    v.push(123);
    v.push(10);
    proof {
        assert(v@ =~= s_e_open_brace());
    }
    v
}

/// The byte string `// `.
pub open spec fn s_e_comment() -> Seq<u8> {
    seq![47u8, 47, 32]
}

/// The byte string `: `.
pub open spec fn s_e_colon() -> Seq<u8> {
    seq![58u8, 32]
}

/// The byte string `,\\n`.
pub open spec fn s_e_comma_nl() -> Seq<u8> {
    seq![44u8, 10]
}

/// The byte string `}`.
pub open spec fn s_e_close_brace() -> Seq<u8> {
    seq![125u8]
}

/// The byte string `enum `.
pub open spec fn s_e_enum() -> Seq<u8> {
    seq![101u8, 110, 117, 109, 32]
}

/// The bytes of `enum `.
pub fn v_e_enum() -> (v: Vec<u8>)
    ensures
        v@ == s_e_enum(),
{
    let mut v: Vec<u8> = Vec::new();
    v.push(101);
    v.push(110);
    v.push(117);
    v.push(109);
    v.push(32);
    proof {
        assert(v@ =~= s_e_enum());
    }
    v
}

/// The byte string `  `.
pub open spec fn s_e_indent() -> Seq<u8> {
    seq![32u8, 32]
}

/// The byte string `(`.
pub open spec fn s_e_lparen() -> Seq<u8> {
    seq![40u8]
}

/// The byte string `),\\n`.
pub open spec fn s_e_case_close() -> Seq<u8> {
    seq![41u8, 44, 10]
}

/// The byte string `Option<`.
pub open spec fn s_e_option() -> Seq<u8> {
    seq![79u8, 112, 116, 105, 111, 110, 60]
}

/// The bytes of `Option<`.
pub fn v_e_option() -> (v: Vec<u8>)
    ensures
        v@ == s_e_option(),
{
    let mut v: Vec<u8> = Vec::new();
    v.push(79);
    v.push(112);
    v.push(116);
    v.push(105);
    v.push(111);
    v.push(110);
    v.push(60);
    proof {
        assert(v@ =~= s_e_option());
    }
    v
}

/// The byte string `>`.
pub open spec fn s_e_gt() -> Seq<u8> {
    seq![62u8]
}

/// The byte string `\\n`.
pub open spec fn s_e_nl() -> Seq<u8> {
    seq![10u8]
}

/// The byte string `crate`.
pub open spec fn s_r_crate() -> Seq<u8> {
    seq![99u8, 114, 97, 116, 101]
}

/// The bytes of `crate`.
pub fn v_r_crate() -> (v: Vec<u8>)
    ensures
        v@ == s_r_crate(),
{
    let mut v: Vec<u8> = Vec::new();
    v.push(99);
    v.push(114);
    v.push(97);
    v.push(116);
    v.push(101);
    proof {
        assert(v@ =~= s_r_crate());
    }
    v
}

/// The byte string `identifier`.
pub open spec fn s_x_ident() -> Seq<u8> {
    seq![105u8, 100, 101, 110, 116, 105, 102, 105, 101, 114]
}

/// The bytes of `identifier`.
pub fn v_x_ident() -> (v: Vec<u8>)
    ensures
        v@ == s_x_ident(),
{
    let mut v: Vec<u8> = Vec::new();
    v.push(105);
    v.push(100);
    v.push(101);
    v.push(110);
    v.push(116);
    v.push(105);
    v.push(102);
    v.push(105);
    v.push(101);
    v.push(114);
    proof {
        assert(v@ =~= s_x_ident());
    }
    v
}

/// The byte string `declaration`.
pub open spec fn s_x_decl() -> Seq<u8> {
    seq![100u8, 101, 99, 108, 97, 114, 97, 116, 105, 111, 110]
}

/// The bytes of `declaration`.
pub fn v_x_decl() -> (v: Vec<u8>)
    ensures
        v@ == s_x_decl(),
{
    let mut v: Vec<u8> = Vec::new();
    v.push(100);
    v.push(101);
    v.push(99);
    v.push(108);
    v.push(97);
    v.push(114);
    v.push(97);
    v.push(116);
    v.push(105);
    v.push(111);
    v.push(110);
    proof {
        assert(v@ =~= s_x_decl());
    }
    v
}

/// The byte string `number`.
pub open spec fn s_x_number() -> Seq<u8> {
    seq![110u8, 117, 109, 98, 101, 114]
}

/// The bytes of `number`.
pub fn v_x_number() -> (v: Vec<u8>)
    ensures
        v@ == s_x_number(),
{
    let mut v: Vec<u8> = Vec::new();
    v.push(110);
    v.push(117);
    v.push(109);
    v.push(98);
    v.push(101);
    v.push(114);
    proof {
        assert(v@ =~= s_x_number());
    }
    v
}

/// The byte string `string literal`.
pub open spec fn s_x_string() -> Seq<u8> {
    seq![115u8, 116, 114, 105, 110, 103, 32, 108, 105, 116, 101, 114, 97, 108]
}

/// The bytes of `string literal`.
pub fn v_x_string() -> (v: Vec<u8>)
    ensures
        v@ == s_x_string(),
{
    let mut v: Vec<u8> = Vec::new();
    v.push(115);
    v.push(116);
    v.push(114);
    v.push(105);
    v.push(110);
    v.push(103);
    v.push(32);
    v.push(108);
    v.push(105);
    v.push(116);
    v.push(101);
    v.push(114);
    v.push(97);
    v.push(108);
    proof {
        assert(v@ =~= s_x_string());
    }
    v
}

/// The byte string `type`.
pub open spec fn s_x_type() -> Seq<u8> {
    seq![116u8, 121, 112, 101]
}

/// The bytes of `type`.
pub fn v_x_type() -> (v: Vec<u8>)
    ensures
        v@ == s_x_type(),
{
    let mut v: Vec<u8> = Vec::new();
    v.push(116);
    v.push(121);
    v.push(112);
    v.push(101);
    proof {
        assert(v@ =~= s_x_type());
    }
    v
}

/// The byte string `token`.
pub open spec fn s_x_token() -> Seq<u8> {
    seq![116u8, 111, 107, 101, 110]
}

/// The bytes of `token`.
pub fn v_x_token() -> (v: Vec<u8>)
    ensures
        v@ == s_x_token(),
{
    let mut v: Vec<u8> = Vec::new();
    v.push(116);
    v.push(111);
    v.push(107);
    v.push(101);
    v.push(110);
    proof {
        assert(v@ =~= s_x_token());
    }
    v
}

/// The byte string `end of input`.
pub open spec fn s_x_end() -> Seq<u8> {
    seq![101u8, 110, 100, 32, 111, 102, 32, 105, 110, 112, 117, 116]
}

/// The bytes of `end of input`.
pub fn v_x_end() -> (v: Vec<u8>)
    ensures
        v@ == s_x_end(),
{
    let mut v: Vec<u8> = Vec::new();
    v.push(101);
    v.push(110);
    v.push(100);
    v.push(32);
    v.push(111);
    v.push(102);
    v.push(32);
    v.push(105);
    v.push(110);
    v.push(112);
    v.push(117);
    v.push(116);
    proof {
        assert(v@ =~= s_x_end());
    }
    v
}

/// The byte string `union shape`.
pub open spec fn s_c_union() -> Seq<u8> {
    seq![117u8, 110, 105, 111, 110, 32, 115, 104, 97, 112, 101]
}

/// The bytes of `union shape`.
pub fn v_c_union() -> (v: Vec<u8>)
    ensures
        v@ == s_c_union(),
{
    let mut v: Vec<u8> = Vec::new();
    v.push(117);
    v.push(110);
    v.push(105);
    v.push(111);
    v.push(110);
    v.push(32);
    v.push(115);
    v.push(104);
    v.push(97);
    v.push(112);
    v.push(101);
    proof {
        assert(v@ =~= s_c_union());
    }
    v
}

/// The byte string `import kind`.
pub open spec fn s_c_import_kind() -> Seq<u8> {
    seq![105u8, 109, 112, 111, 114, 116, 32, 107, 105, 110, 100]
}

/// The bytes of `import kind`.
pub fn v_c_import_kind() -> (v: Vec<u8>)
    ensures
        v@ == s_c_import_kind(),
{
    let mut v: Vec<u8> = Vec::new();
    v.push(105);
    v.push(109);
    v.push(112);
    v.push(111);
    v.push(114);
    v.push(116);
    v.push(32);
    v.push(107);
    v.push(105);
    v.push(110);
    v.push(100);
    proof {
        assert(v@ =~= s_c_import_kind());
    }
    v
}

/// The byte string `source path`.
pub open spec fn s_f_source_path() -> Seq<u8> {
    seq![115u8, 111, 117, 114, 99, 101, 32, 112, 97, 116, 104]
}

/// The bytes of `source path`.
pub fn v_f_source_path() -> (v: Vec<u8>)
    ensures
        v@ == s_f_source_path(),
{
    let mut v: Vec<u8> = Vec::new();
    v.push(115);
    v.push(111);
    v.push(117);
    v.push(114);
    v.push(99);
    v.push(101);
    v.push(32);
    v.push(112);
    v.push(97);
    v.push(116);
    v.push(104);
    proof {
        assert(v@ =~= s_f_source_path());
    }
    v
}

/// The byte string `{"method":"send","params":{"options":{"channel":`.
pub open spec fn s_j_send_open() -> Seq<u8> {
    seq![123u8, 34, 109, 101, 116, 104, 111, 100, 34, 58, 34, 115, 101, 110, 100, 34, 44, 34, 112, 97, 114, 97, 109, 115, 34, 58, 123, 34, 111, 112, 116, 105, 111, 110, 115, 34, 58, 123, 34, 99, 104, 97, 110, 110, 101, 108, 34, 58]
}

/// The bytes of `{"method":"send","params":{"options":{"channel":`.
pub fn v_j_send_open() -> (v: Vec<u8>)
    ensures
        v@ == s_j_send_open(),
{
    let mut v: Vec<u8> = Vec::new();
    v.push(123);
    v.push(34);
    v.push(109);
    v.push(101);
    v.push(116);
    v.push(104);
    v.push(111);
    v.push(100);
    v.push(34);
    v.push(58);
    v.push(34);
    v.push(115);
    v.push(101);
    v.push(110);
    v.push(100);
    v.push(34);
    v.push(44);
    v.push(34);
    v.push(112);
    v.push(97);
    v.push(114);
    v.push(97);
    v.push(109);
    v.push(115);
    v.push(34);
    v.push(58);
    v.push(123);
    v.push(34);
    v.push(111);
    v.push(112);
    v.push(116);
    v.push(105);
    v.push(111);
    v.push(110);
    v.push(115);
    v.push(34);
    v.push(58);
    v.push(123);
    v.push(34);
    v.push(99);
    v.push(104);
    v.push(97);
    v.push(110);
    v.push(110);
    v.push(101);
    v.push(108);
    v.push(34);
    v.push(58);
    proof {
        assert(v@ =~= s_j_send_open());
    }
    v
}

/// The byte string `,"message":{"body":"`.
pub open spec fn s_j_message() -> Seq<u8> {
    seq![44u8, 34, 109, 101, 115, 115, 97, 103, 101, 34, 58, 123, 34, 98, 111, 100, 121, 34, 58, 34]
}

/// The bytes of `,"message":{"body":"`.
pub fn v_j_message() -> (v: Vec<u8>)
    ensures
        v@ == s_j_message(),
{
    let mut v: Vec<u8> = Vec::new();
    v.push(44);
    v.push(34);
    v.push(109);
    v.push(101);
    v.push(115);
    v.push(115);
    v.push(97);
    v.push(103);
    v.push(101);
    v.push(34);
    v.push(58);
    v.push(123);
    v.push(34);
    v.push(98);
    v.push(111);
    v.push(100);
    v.push(121);
    v.push(34);
    v.push(58);
    v.push(34);
    proof {
        assert(v@ =~= s_j_message());
    }
    v
}

/// The byte string `"}}}}`.
pub open spec fn s_j_send_close() -> Seq<u8> {
    seq![34u8, 125, 125, 125, 125]
}

/// The bytes of `"}}}}`.
pub fn v_j_send_close() -> (v: Vec<u8>)
    ensures
        v@ == s_j_send_close(),
{
    let mut v: Vec<u8> = Vec::new();
    v.push(34);
    v.push(125);
    v.push(125);
    v.push(125);
    v.push(125);
    proof {
        assert(v@ =~= s_j_send_close());
    }
    v
}

/// The byte string `{"method":"attach","params":{"options":{"channel":`.
pub open spec fn s_j_attach_open() -> Seq<u8> {
    seq![123u8, 34, 109, 101, 116, 104, 111, 100, 34, 58, 34, 97, 116, 116, 97, 99, 104, 34, 44, 34, 112, 97, 114, 97, 109, 115, 34, 58, 123, 34, 111, 112, 116, 105, 111, 110, 115, 34, 58, 123, 34, 99, 104, 97, 110, 110, 101, 108, 34, 58]
}

/// The bytes of `{"method":"attach","params":{"options":{"channel":`.
pub fn v_j_attach_open() -> (v: Vec<u8>)
    ensures
        v@ == s_j_attach_open(),
{
    let mut v: Vec<u8> = Vec::new();
    v.push(123);
    v.push(34);
    v.push(109);
    v.push(101);
    v.push(116);
    v.push(104);
    v.push(111);
    v.push(100);
    v.push(34);
    v.push(58);
    v.push(34);
    v.push(97);
    v.push(116);
    v.push(116);
    v.push(97);
    v.push(99);
    v.push(104);
    v.push(34);
    v.push(44);
    v.push(34);
    v.push(112);
    v.push(97);
    v.push(114);
    v.push(97);
    v.push(109);
    v.push(115);
    v.push(34);
    v.push(58);
    v.push(123);
    v.push(34);
    v.push(111);
    v.push(112);
    v.push(116);
    v.push(105);
    v.push(111);
    v.push(110);
    v.push(115);
    v.push(34);
    v.push(58);
    v.push(123);
    v.push(34);
    v.push(99);
    v.push(104);
    v.push(97);
    v.push(110);
    v.push(110);
    v.push(101);
    v.push(108);
    v.push(34);
    v.push(58);
    proof {
        assert(v@ =~= s_j_attach_open());
    }
    v
}

/// The byte string `,"filename":"`.
pub open spec fn s_j_filename() -> Seq<u8> {
    seq![44u8, 34, 102, 105, 108, 101, 110, 97, 109, 101, 34, 58, 34]
}

/// The bytes of `,"filename":"`.
pub fn v_j_filename() -> (v: Vec<u8>)
    ensures
        v@ == s_j_filename(),
{
    let mut v: Vec<u8> = Vec::new();
    v.push(44);
    v.push(34);
    v.push(102);
    v.push(105);
    v.push(108);
    v.push(101);
    v.push(110);
    v.push(97);
    v.push(109);
    v.push(101);
    v.push(34);
    v.push(58);
    v.push(34);
    proof {
        assert(v@ =~= s_j_filename());
    }
    v
}

/// The byte string `","title":"`.
pub open spec fn s_j_title() -> Seq<u8> {
    seq![34u8, 44, 34, 116, 105, 116, 108, 101, 34, 58, 34]
}

/// The bytes of `","title":"`.
pub fn v_j_title() -> (v: Vec<u8>)
    ensures
        v@ == s_j_title(),
{
    let mut v: Vec<u8> = Vec::new();
    v.push(34);
    v.push(44);
    v.push(34);
    v.push(116);
    v.push(105);
    v.push(116);
    v.push(108);
    v.push(101);
    v.push(34);
    v.push(58);
    v.push(34);
    proof {
        assert(v@ =~= s_j_title());
    }
    v
}

/// The byte string `"}}}`.
pub open spec fn s_j_attach_close() -> Seq<u8> {
    seq![34u8, 125, 125, 125]
}

/// The bytes of `"}}}`.
pub fn v_j_attach_close() -> (v: Vec<u8>)
    ensures
        v@ == s_j_attach_close(),
{
    let mut v: Vec<u8> = Vec::new();
    v.push(34);
    v.push(125);
    v.push(125);
    v.push(125);
    proof {
        assert(v@ =~= s_j_attach_close());
    }
    v
}

/// The byte string `{"method":"read","params":{"options":{"channel":`.
pub open spec fn s_j_read_open() -> Seq<u8> {
    seq![123u8, 34, 109, 101, 116, 104, 111, 100, 34, 58, 34, 114, 101, 97, 100, 34, 44, 34, 112, 97, 114, 97, 109, 115, 34, 58, 123, 34, 111, 112, 116, 105, 111, 110, 115, 34, 58, 123, 34, 99, 104, 97, 110, 110, 101, 108, 34, 58]
}

/// The bytes of `{"method":"read","params":{"options":{"channel":`.
pub fn v_j_read_open() -> (v: Vec<u8>)
    ensures
        v@ == s_j_read_open(),
{
    let mut v: Vec<u8> = Vec::new();
    v.push(123);
    v.push(34);
    v.push(109);
    v.push(101);
    v.push(116);
    v.push(104);
    v.push(111);
    v.push(100);
    v.push(34);
    v.push(58);
    v.push(34);
    v.push(114);
    v.push(101);
    v.push(97);
    v.push(100);
    v.push(34);
    v.push(44);
    v.push(34);
    v.push(112);
    v.push(97);
    v.push(114);
    v.push(97);
    v.push(109);
    v.push(115);
    v.push(34);
    v.push(58);
    v.push(123);
    v.push(34);
    v.push(111);
    v.push(112);
    v.push(116);
    v.push(105);
    v.push(111);
    v.push(110);
    v.push(115);
    v.push(34);
    v.push(58);
    v.push(123);
    v.push(34);
    v.push(99);
    v.push(104);
    v.push(97);
    v.push(110);
    v.push(110);
    v.push(101);
    v.push(108);
    v.push(34);
    v.push(58);
    proof {
        assert(v@ =~= s_j_read_open());
    }
    v
}

/// The byte string `}}}`.
pub open spec fn s_j_read_close() -> Seq<u8> {
    seq![125u8, 125, 125]
}

/// The bytes of `}}}`.
pub fn v_j_read_close() -> (v: Vec<u8>)
    ensures
        v@ == s_j_read_close(),
{
    let mut v: Vec<u8> = Vec::new();
    v.push(125);
    v.push(125);
    v.push(125);
    proof {
        assert(v@ =~= s_j_read_close());
    }
    v
}

/// The byte string `{"method":"list","params":null}`.
pub open spec fn s_j_list() -> Seq<u8> {
    seq![123u8, 34, 109, 101, 116, 104, 111, 100, 34, 58, 34, 108, 105, 115, 116, 34, 44, 34, 112, 97, 114, 97, 109, 115, 34, 58, 110, 117, 108, 108, 125]
}

/// The bytes of `{"method":"list","params":null}`.
pub fn v_j_list() -> (v: Vec<u8>)
    ensures
        v@ == s_j_list(),
{
    let mut v: Vec<u8> = Vec::new();
    v.push(123);
    v.push(34);
    v.push(109);
    v.push(101);
    v.push(116);
    v.push(104);
    v.push(111);
    v.push(100);
    v.push(34);
    v.push(58);
    v.push(34);
    v.push(108);
    v.push(105);
    v.push(115);
    v.push(116);
    v.push(34);
    v.push(44);
    v.push(34);
    v.push(112);
    v.push(97);
    v.push(114);
    v.push(97);
    v.push(109);
    v.push(115);
    v.push(34);
    v.push(58);
    v.push(110);
    v.push(117);
    v.push(108);
    v.push(108);
    v.push(125);
    proof {
        assert(v@ =~= s_j_list());
    }
    v
}

/// The byte string `{"name":"`.
pub open spec fn s_j_name_open() -> Seq<u8> {
    seq![123u8, 34, 110, 97, 109, 101, 34, 58, 34]
}

/// The bytes of `{"name":"`.
pub fn v_j_name_open() -> (v: Vec<u8>)
    ensures
        v@ == s_j_name_open(),
{
    let mut v: Vec<u8> = Vec::new();
    v.push(123);
    v.push(34);
    v.push(110);
    v.push(97);
    v.push(109);
    v.push(101);
    v.push(34);
    v.push(58);
    v.push(34);
    proof {
        assert(v@ =~= s_j_name_open());
    }
    v
}

/// The byte string `","members_type":`.
pub open spec fn s_j_members() -> Seq<u8> {
    seq![34u8, 44, 34, 109, 101, 109, 98, 101, 114, 115, 95, 116, 121, 112, 101, 34, 58]
}

/// The bytes of `","members_type":`.
pub fn v_j_members() -> (v: Vec<u8>)
    ensures
        v@ == s_j_members(),
{
    let mut v: Vec<u8> = Vec::new();
    v.push(34);
    v.push(44);
    v.push(34);
    v.push(109);
    v.push(101);
    v.push(109);
    v.push(98);
    v.push(101);
    v.push(114);
    v.push(115);
    v.push(95);
    v.push(116);
    v.push(121);
    v.push(112);
    v.push(101);
    v.push(34);
    v.push(58);
    proof {
        assert(v@ =~= s_j_members());
    }
    v
}

/// The byte string `,"topic_name":`.
pub open spec fn s_j_topic() -> Seq<u8> {
    seq![44u8, 34, 116, 111, 112, 105, 99, 95, 110, 97, 109, 101, 34, 58]
}

/// The bytes of `,"topic_name":`.
pub fn v_j_topic() -> (v: Vec<u8>)
    ensures
        v@ == s_j_topic(),
{
    let mut v: Vec<u8> = Vec::new();
    v.push(44);
    v.push(34);
    v.push(116);
    v.push(111);
    v.push(112);
    v.push(105);
    v.push(99);
    v.push(95);
    v.push(110);
    v.push(97);
    v.push(109);
    v.push(101);
    v.push(34);
    v.push(58);
    proof {
        assert(v@ =~= s_j_topic());
    }
    v
}

/// The byte string `keybase_bot_`.
pub open spec fn s_b_dir_prefix() -> Seq<u8> {
    seq![107u8, 101, 121, 98, 97, 115, 101, 95, 98, 111, 116, 95]
}

/// The bytes of `keybase_bot_`.
pub fn v_b_dir_prefix() -> (v: Vec<u8>)
    ensures
        v@ == s_b_dir_prefix(),
{
    let mut v: Vec<u8> = Vec::new();
    v.push(107);
    v.push(101);
    v.push(121);
    v.push(98);
    v.push(97);
    v.push(115);
    v.push(101);
    v.push(95);
    v.push(98);
    v.push(111);
    v.push(116);
    v.push(95);
    proof {
        assert(v@ =~= s_b_dir_prefix());
    }
    v
}

/// The byte string `\"`.
pub open spec fn s_x_esc_quote() -> Seq<u8> {
    seq![92u8, 34]
}

/// The byte string `\\\\`.
pub open spec fn s_x_esc_bs() -> Seq<u8> {
    seq![92u8, 92]
}

/// The byte string `\b`.
pub open spec fn s_x_esc_b() -> Seq<u8> {
    seq![92u8, 98]
}

/// The byte string `\t`.
pub open spec fn s_x_esc_t() -> Seq<u8> {
    seq![92u8, 116]
}

/// The byte string `\n`.
pub open spec fn s_x_esc_n() -> Seq<u8> {
    seq![92u8, 110]
}

/// The byte string `\f`.
pub open spec fn s_x_esc_f() -> Seq<u8> {
    seq![92u8, 102]
}

/// The byte string `\r`.
pub open spec fn s_x_esc_r() -> Seq<u8> {
    seq![92u8, 114]
}

/// The byte string `\u00`.
pub open spec fn s_x_esc_u00() -> Seq<u8> {
    seq![92u8, 117, 48, 48]
}

} // verus!
