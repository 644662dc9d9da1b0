//! Tests of the chat request builders: byte-exact request framing and JSON
//! string escaping.

use keybase_bot_api::chat::{
    list_request, list_rpc, read_conv_request, read_conv_rpc, send_msg_request,
    upload_attachment_request, ChannelParams,
};

#[test]
fn rpc_values_carry_method_and_params() {
    let rpc = list_rpc();
    assert_eq!(rpc.method, "list");
    assert!(rpc.params.is_none());

    let channel = ChannelParams::named(String::from("you,them"));
    let read = read_conv_rpc(channel);
    assert_eq!(read.method, "read");
    assert_eq!(read.params.unwrap().options.channel.name, "you,them");
}

#[test]
fn send_request_is_byte_exact() {
    let channel = ChannelParams::named(String::from("you,them"));
    let req = send_msg_request(&channel, "is it cold today?");
    assert_eq!(
        String::from_utf8(req).unwrap(),
        r#"{"method":"send","params":{"options":{"channel":{"name":"you,them","members_type":null,"topic_name":null},"message":{"body":"is it cold today?"}}}}"#
    );
}

#[test]
fn send_request_escapes_the_message() {
    let channel = ChannelParams::named(String::from("a\"b\\c"));
    let req = send_msg_request(&channel, "line\nbreak\ttab \u{1} end");
    assert_eq!(
        String::from_utf8(req).unwrap(),
        "{\"method\":\"send\",\"params\":{\"options\":{\"channel\":{\"name\":\"a\\\"b\\\\c\",\"members_type\":null,\"topic_name\":null},\"message\":{\"body\":\"line\\nbreak\\ttab \\u0001 end\"}}}}"
    );
}

#[test]
fn send_request_passes_multibyte_text_through() {
    let channel = ChannelParams::named(String::from("t\u{e9}am"));
    let req = send_msg_request(&channel, "caf\u{e9}");
    assert_eq!(
        String::from_utf8(req).unwrap(),
        "{\"method\":\"send\",\"params\":{\"options\":{\"channel\":{\"name\":\"t\u{e9}am\",\"members_type\":null,\"topic_name\":null},\"message\":{\"body\":\"caf\u{e9}\"}}}}"
    );
}

#[test]
fn list_request_is_byte_exact() {
    assert_eq!(
        String::from_utf8(list_request()).unwrap(),
        r#"{"method":"list","params":null}"#
    );
}

#[test]
fn read_request_renders_optional_fields() {
    let channel = ChannelParams {
        name: String::from("team.general"),
        members_type: Some(String::from("team")),
        topic_name: Some(String::from("general")),
    };
    let req = read_conv_request(&channel);
    assert_eq!(
        String::from_utf8(req).unwrap(),
        r#"{"method":"read","params":{"options":{"channel":{"name":"team.general","members_type":"team","topic_name":"general"}}}}"#
    );
}

#[test]
fn attach_request_is_byte_exact() {
    let channel = ChannelParams::named(String::from("you,them"));
    let req = upload_attachment_request(&channel, "photo.jpg", "Sunset last night");
    assert_eq!(
        String::from_utf8(req).unwrap(),
        r#"{"method":"attach","params":{"options":{"channel":{"name":"you,them","members_type":null,"topic_name":null},"filename":"photo.jpg","title":"Sunset last night"}}}"#
    );
}
