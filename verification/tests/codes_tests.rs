use ncm_api::codes::{check_api_code, check_codes, check_upload_code, checked_reply, code_accepted, parsed_reply};
use ncm_api::error::NcmError;

fn json(s: &str) -> serde_json::Value {
    serde_json::from_str(s).unwrap()
}

#[test]
fn api_code_200_accepted() {
    assert!(check_api_code(&json("{\"code\":200,\"data\":[]}")).is_ok());
}

#[test]
fn api_code_other_rejected_with_reply() {
    let v = json("{\"code\":301,\"msg\":\"login\"}");
    match check_api_code(&v) {
        Err(NcmError::Api(r)) => assert_eq!(r, v),
        other => panic!("unexpected {:?}", other),
    }
}

#[test]
fn missing_code_reads_as_zero() {
    assert!(check_api_code(&json("{\"data\":1}")).is_err());
    assert!(check_codes(&json("{\"data\":1}"), &[0]).is_ok());
    assert!(check_codes(&json("{\"code\":\"200\"}"), &[0]).is_ok());
}

#[test]
fn upload_accepts_400() {
    assert!(check_upload_code(&json("{\"code\":400}")).is_ok());
    assert!(check_upload_code(&json("{\"code\":200}")).is_ok());
    assert!(check_upload_code(&json("{\"code\":502}")).is_err());
}

#[test]
fn large_codes_are_not_cut() {
    assert!(!code_accepted(Some(200 + (1i64 << 32)), &[200]));
    assert!(!code_accepted(None, &[200]));
    assert!(code_accepted(None, &[0]));
    let v = json("{\"code\":4294967496}");
    match check_codes(&v, &[200]) {
        Err(NcmError::Api(r)) => assert_eq!(r, v),
        other => panic!("unexpected {:?}", other),
    }
}

#[test]
fn checked_reply_parses_and_checks() {
    let ok = checked_reply("{\"code\":200,\"x\":1}").unwrap();
    assert_eq!(ok["x"].as_i64(), Some(1));
    match checked_reply("not json") {
        Err(NcmError::Json(_)) => {}
        other => panic!("unexpected {:?}", other),
    }
    match checked_reply("{\"code\":404}") {
        Err(NcmError::Api(v)) => assert_eq!(v["code"].as_i64(), Some(404)),
        other => panic!("unexpected {:?}", other),
    }
}

#[test]
fn parsed_reply_keeps_any_code() {
    let v = parsed_reply("{\"code\":404}").unwrap();
    assert_eq!(v["code"].as_i64(), Some(404));
    match parsed_reply("{oops") {
        Err(NcmError::Json(_)) => {}
        other => panic!("unexpected {:?}", other),
    }
}
