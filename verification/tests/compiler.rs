//! Tests of the protocol compiler: per-declaration conversions, whole-file
//! compilation, and the error taxonomy.

use keybase_bot_api::driver::{compile, emit_protocol};
use keybase_bot_api::emit::emit_declaration;
use keybase_bot_api::mapper::case_ident;
use keybase_bot_api::model::{CompileError, Declaration, EmitConfig};
use keybase_bot_api::parse::{
    p_enum_decl, p_fixed, p_import, p_record, p_typedef, p_variant, parse_protocol,
};

fn emit_one(d: &Declaration) -> String {
    let out = emit_declaration(d, &EmitConfig::standard()).expect("emission failed");
    String::from_utf8(out).unwrap()
}

#[test]
fn test_convert_import() {
    let src = br#"import idl "github.com/keybase/client/go/protocol/gregor1" as gregor1;"#;
    let (d, used) = p_import(src, 0).expect("parse failed");
    assert_eq!(used, src.len());
    assert_eq!(emit_one(&d), "use crate::protocol::gregor1;");

    let src2 = br#"import idl "github.com/keybase/client/go/protocol/gregor1" as otherGregor;"#;
    let (d2, _) = p_import(src2, 0).expect("parse failed");
    assert_eq!(emit_one(&d2), "use crate::protocol::gregor1 as otherGregor;");
}

#[test]
fn test_typedef() {
    let src = br#"@typedef("bytes")  record ThreadID {}"#;
    let (d, used) = p_typedef(src, 0).expect("parse failed");
    assert_eq!(used, src.len());
    assert_eq!(emit_one(&d), "type ThreadID = [u8];");
}

#[test]
fn test_enum() {
    let src = br#"enum RetentionPolicyType {
  NONE_0,
  RETAIN_1, // Keep messages forever
  EXPIRE_2, // Delete after a while
  INHERIT_3, // Use the team's policy
  EPHEMERAL_4 // Force all messages to be exploding.
}"#;
    let (d, used) = p_enum_decl(src, 0).expect("parse failed");
    assert_eq!(used, src.len());
    assert_eq!(emit_one(&d), String::from_utf8(src.to_vec()).unwrap());
}

#[test]
fn test_record() {
    let src = br#"record InboxVersInfo {
  gregor1.UID uid;
  InboxVers vers;
}"#;
    let (d, used) = p_record(src, 0).expect("parse failed");
    assert_eq!(used, src.len());
    assert_eq!(
        emit_one(&d),
        "struct InboxVersInfo {\nuid: gregor1::UID,\nvers: InboxVers,\n}"
    );

    let src2 = br#"record InboxVersInfo {
    @mpackkey("b") @jsonkey("b")
    union { null, gregor1.UID } botUID;
    @mpackkey("c") @jsonkey("c")
    InboxVers vers;
}"#;
    let (d2, _) = p_record(src2, 0).expect("parse failed");
    assert_eq!(
        emit_one(&d2),
        r#"struct InboxVersInfo {
// @mpackkey("b")
// @jsonkey("b")
botUID: Option<gregor1::UID>,
// @mpackkey("c")
// @jsonkey("c")
vers: InboxVers,
}"#
    );
}

#[test]
fn test_fixed() {
    let src = br#"fixed Bytes32(32);"#;
    let (d, used) = p_fixed(src, 0).expect("parse failed");
    assert_eq!(used, src.len());
    assert_eq!(emit_one(&d), "type Bytes32 = [u8;32];");
}

#[test]
fn test_variant() {
    let src = br#"variant AssetMetadata switch (AssetMetadataType assetType) {
  case IMAGE: AssetMetadataImage;
  case VIDEO: AssetMetadataVideo;
  case AUDIO: AssetMetadataAudio;
}"#;
    let (d, used) = p_variant(src, 0).expect("parse failed");
    assert_eq!(used, src.len());
    assert_eq!(
        emit_one(&d),
        "enum AssetMetadata {
  Image(AssetMetadataImage),
  Video(AssetMetadataVideo),
  Audio(AssetMetadataAudio),
}"
    );
}

#[test]
fn enum_passthrough_is_idempotent() {
    let src = br#"enum Kind {
  A_1, // first
  B_2
}"#;
    let (d, _) = p_enum_decl(src, 0).expect("parse failed");
    let first = emit_one(&d);
    let (d2, used) = p_enum_decl(first.as_bytes(), 0).expect("re-parse failed");
    assert_eq!(used, first.len());
    assert_eq!(emit_one(&d2), first);
}

#[test]
fn case_transform_is_not_title_casing() {
    assert_eq!(case_ident(b"IMAGE"), b"Image".to_vec());
    assert_eq!(case_ident(b"VIDEO"), b"Video".to_vec());
    assert_eq!(case_ident(b"AUDIO"), b"Audio".to_vec());
    // one upper-cased head, everything else lower-cased, word boundaries
    // ignored
    assert_eq!(case_ident(b"FooBar"), b"Foobar".to_vec());
    assert_eq!(case_ident(b"NONE_0"), b"None_0".to_vec());
}

#[test]
fn whole_file_compiles_in_source_order() {
    let src = br#"@namespace("keybase.1")
protocol common {
  // header comment
  import idl "github.com/keybase/client/go/protocol/gregor1" as gregor1;
  @typedef("bytes")  record ThreadID {}
  fixed Bytes32(32);
  record InboxVersInfo {
    gregor1.UID uid;
    union { null, gregor1.UID } botUID;
  }
  variant AssetMetadata switch (AssetMetadataType assetType) {
    case IMAGE: AssetMetadataImage;
  }
}"#;
    let out = compile(src, &EmitConfig::standard()).expect("compile failed");
    let expected = "// header comment\n\
use crate::protocol::gregor1;\n\
type ThreadID = [u8];\n\
type Bytes32 = [u8;32];\n\
struct InboxVersInfo {\nuid: gregor1::UID,\nbotUID: Option<gregor1::UID>,\n}\n\
enum AssetMetadata {\n  Image(AssetMetadataImage),\n}\n";
    assert_eq!(String::from_utf8(out).unwrap(), expected);
}

#[test]
fn protocol_file_model_is_kept() {
    let src = br#"@namespace("chat.1")
protocol chat {
}"#;
    let pf = parse_protocol(src).expect("parse failed");
    assert_eq!(pf.namespace, Some(b"chat.1".to_vec()));
    assert_eq!(pf.name, b"chat".to_vec());
    assert_eq!(pf.decls.len(), 0);
}

#[test]
fn multi_arm_union_is_unsupported() {
    let src = br#"protocol p {
  record R {
    union { A, B, C } x;
  }
}"#;
    match compile(src, &EmitConfig::standard()) {
        Err(CompileError::Unsupported { .. }) => {}
        other => panic!("expected an unsupported-feature error, got {:?}", other.is_ok()),
    }
}

#[test]
fn union_of_null_alone_is_unsupported() {
    let src = br#"protocol p {
  record R {
    union { null } x;
  }
}"#;
    match compile(src, &EmitConfig::standard()) {
        Err(CompileError::Unsupported { .. }) => {}
        other => panic!("expected an unsupported-feature error, got {:?}", other.is_ok()),
    }
}

#[test]
fn union_with_extra_arms_is_unsupported() {
    let src = br#"protocol p {
  record R {
    union { null, A, B } x;
  }
}"#;
    match compile(src, &EmitConfig::standard()) {
        Err(CompileError::Unsupported { .. }) => {}
        other => panic!("expected an unsupported-feature error, got {:?}", other.is_ok()),
    }
}

#[test]
fn nested_null_shorthand_nests_the_option() {
    let src = br#"protocol p {
  record R {
    union { null, union { null, A } } x;
  }
}"#;
    let out = compile(src, &EmitConfig::standard()).expect("compile failed");
    assert_eq!(
        String::from_utf8(out).unwrap(),
        "struct R {\nx: Option<Option<A>>,\n}\n"
    );
}

#[test]
fn import_kind_other_than_idl_is_unsupported() {
    let src = br#"protocol p {
  import avpr "github.com/keybase/client/go/protocol/gregor1" as gregor1;
}"#;
    match compile(src, &EmitConfig::standard()) {
        Err(CompileError::Unsupported { .. }) => {}
        other => panic!("expected an unsupported-feature error, got {:?}", other.is_ok()),
    }
}

#[test]
fn import_path_without_anchor_is_missing_child() {
    let src = br#"protocol p {
  import idl "github.com/somewhere/else" as other;
}"#;
    match compile(src, &EmitConfig::standard()) {
        Err(CompileError::MissingChild { .. }) => {}
        other => panic!("expected a missing-child error, got {:?}", other.is_ok()),
    }
}

#[test]
fn syntax_error_reports_line_and_column() {
    let src = b"protocol p {\n  fixed Broken(32)\n}";
    match parse_protocol(src) {
        Err(CompileError::Syntax { pos, line, col, .. }) => {
            // the missing semicolon is noticed at the closing brace
            assert_eq!(pos, 32);
            assert_eq!(line, 3);
            assert_eq!(col, 1);
        }
        other => panic!("expected a syntax error, got {:?}", other.is_ok()),
    }
}

#[test]
fn malformed_input_is_never_skipped() {
    // a construct outside every production fails the whole file
    let src = b"protocol p {\n  message Foo {}\n}";
    assert!(parse_protocol(src).is_err());
    // trailing text after the protocol block fails too
    let src2 = b"protocol p {} trailing";
    assert!(parse_protocol(src2).is_err());
}

#[test]
fn anchor_drop_leaves_anchor_out() {
    let cfg = EmitConfig {
        anchor: b"protocol".to_vec(),
        root: b"crate".to_vec(),
        anchor_drop: 1,
    };
    let src = br#"import idl "github.com/keybase/client/go/protocol/gregor1" as gregor1;"#;
    let (d, _) = p_import(src, 0).expect("parse failed");
    let out = emit_declaration(&d, &cfg).expect("emission failed");
    assert_eq!(String::from_utf8(out).unwrap(), "use crate::gregor1;");
}

#[test]
fn eighteen_digit_sizes_are_the_limit() {
    let src = br#"protocol p {
  fixed Big(123456789012345678);
}"#;
    let pf = parse_protocol(src).expect("parse failed");
    match &pf.decls[0] {
        Declaration::FixedDecl { size, .. } => assert_eq!(*size, 123456789012345678u64),
        _ => panic!("expected a fixed declaration"),
    }
    let src2 = br#"protocol p {
  fixed TooBig(1234567890123456789);
}"#;
    assert!(parse_protocol(src2).is_err());
}

#[test]
fn emit_protocol_matches_compile() {
    let src = br#"protocol p {
  fixed Bytes32(32);
}"#;
    let pf = parse_protocol(src).expect("parse failed");
    let a = emit_protocol(&pf, &EmitConfig::standard()).expect("emission failed");
    let b = compile(src, &EmitConfig::standard()).expect("compile failed");
    assert_eq!(a, b);
}
