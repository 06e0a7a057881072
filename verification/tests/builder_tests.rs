use ncm_api::builder::{default_user_agent, random_ua, NcmClient, NcmClientBuilder, USER_AGENT_COUNT};
use ncm_api::error::NcmError;
use std::path::PathBuf;
use std::time::Duration;

#[test]
fn random_ua_is_a_default() {
    let all: Vec<&str> = (0..USER_AGENT_COUNT).map(default_user_agent).collect();
    for _ in 0..20 {
        let ua = random_ua();
        assert!(all.contains(&ua.as_str()));
    }
}

#[test]
fn build_with_configured_values() {
    let c = NcmClient::builder()
        .cookie_path(PathBuf::from("/tmp/c.json"))
        .timeout(Duration::from_secs(5))
        .user_agent("my-agent")
        .build(PathBuf::from("fallback.json"))
        .unwrap();
    assert_eq!(c.user_agent(), "my-agent");
    assert_eq!(c.cookie_path(), &PathBuf::from("/tmp/c.json"));
}

#[test]
fn build_with_defaults() {
    let c = NcmClientBuilder::default().build(PathBuf::from("fallback.json")).unwrap();
    assert_eq!(c.cookie_path(), &PathBuf::from("fallback.json"));
    let all: Vec<&str> = (0..USER_AGENT_COUNT).map(default_user_agent).collect();
    assert!(all.contains(&c.user_agent()));
}

#[test]
fn build_with_valid_proxy() {
    let c = NcmClient::builder().proxy("socks5://127.0.0.1:1080").build(PathBuf::from("f"));
    assert!(c.is_ok());
}

#[test]
fn build_with_invalid_proxy() {
    match NcmClient::builder().proxy("not a url at all").build(PathBuf::from("f")) {
        Err(NcmError::Session(m)) => assert!(m.starts_with("invalid proxy: ")),
        Err(other) => panic!("unexpected {:?}", other),
        Ok(_) => panic!("expected an error"),
    }
}
