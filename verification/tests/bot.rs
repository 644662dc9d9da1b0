//! Tests of the bot helpers and the reply-envelope decision.

use keybase_bot_api::api::{api_result_to_result, APIResult, ApiResponseError, KBError};
use keybase_bot_api::bot::bot_home_dir_name;

#[test]
fn ls_inbox() {
}

#[test]
fn home_dir_name_hex_encodes_the_id() {
    let name = bot_home_dir_name(&[0x00, 0xab, 0xff]);
    assert_eq!(String::from_utf8(name).unwrap(), "keybase_bot_00abff");
}

#[test]
fn home_dir_name_of_empty_id_is_the_prefix() {
    let name = bot_home_dir_name(&[]);
    assert_eq!(String::from_utf8(name).unwrap(), "keybase_bot_");
}

#[test]
fn envelope_error_wins() {
    let env: APIResult<u32> = APIResult {
        result: Some(7),
        error: Some(KBError { code: 42, message: String::from("nope") }),
    };
    match api_result_to_result(env) {
        Err(ApiResponseError::Rejected(e)) => {
            assert_eq!(e.code, 42);
            assert_eq!(e.message, "nope");
        }
        other => panic!("expected a rejection, got {:?}", other.is_ok()),
    }
}

#[test]
fn envelope_result_is_returned() {
    let env: APIResult<u32> = APIResult { result: Some(7), error: None };
    assert_eq!(api_result_to_result(env).unwrap(), 7);
}

#[test]
fn empty_envelope_is_an_error_not_a_panic() {
    let env: APIResult<u32> = APIResult { result: None, error: None };
    match api_result_to_result(env) {
        Err(ApiResponseError::MissingResult) => {}
        other => panic!("expected a missing-result error, got {:?}", other.is_ok()),
    }
}
