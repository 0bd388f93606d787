use ton_deploy::model::Signer;
use ton_deploy::resolve::{
    address_signer, contains_brace, load_abi, load_keypair, message_signer, params_source,
    ParamsSource,
};

#[test]
fn load_abi_present_hands_back_the_path() {
    let r = load_abi(Some("contract.abi.json"));
    assert_eq!(r, Ok("contract.abi.json".to_string()));
}

#[test]
fn load_abi_missing_reports_the_config_fault() {
    let r = load_abi(None);
    assert_eq!(
        r,
        Err("ABI file is not defined. Supply it in the config.json.".to_string())
    );
}

#[test]
fn contains_brace_finds_the_marker() {
    assert!(contains_brace("{}"));
    assert!(contains_brace("  {\"a\": 1}"));
    assert!(contains_brace("tail{"));
    assert!(!contains_brace(""));
    assert!(!contains_brace("params.json"));
    assert!(!contains_brace("}"));
}

#[test]
fn params_with_brace_are_inline_json() {
    match params_source("{\"count\": 3}") {
        ParamsSource::Inline { text } => assert_eq!(text, "{\"count\": 3}"),
        ParamsSource::FromFile { .. } => panic!("inline params treated as a file path"),
    }
}

#[test]
fn params_without_brace_name_a_file() {
    match params_source("params.json") {
        ParamsSource::FromFile { path } => assert_eq!(path, "params.json"),
        ParamsSource::Inline { .. } => panic!("file path treated as inline params"),
    }
}

#[test]
fn keypair_needs_both_fields() {
    let kp = load_keypair(Some("pub0"), Some("sec0")).expect("both keys form a pair");
    assert_eq!(kp.public, "pub0");
    assert_eq!(kp.secret, "sec0");
    assert!(load_keypair(Some("pub0"), None).is_none());
    assert!(load_keypair(None, Some("sec0")).is_none());
    assert!(load_keypair(None, None).is_none());
}

#[test]
fn address_signer_is_unsigned_without_a_secret() {
    assert!(matches!(address_signer(Some("pub0"), None), Signer::Unsigned));
    assert!(matches!(address_signer(None, Some("sec0")), Signer::Unsigned));
    assert!(matches!(address_signer(None, None), Signer::Unsigned));
}

#[test]
fn address_signer_is_external_with_a_full_pair() {
    match address_signer(Some("pub0"), Some("sec0")) {
        Signer::External { public_key } => assert_eq!(public_key, "pub0"),
        _ => panic!("a full key pair must sign the address computation externally"),
    }
}

#[test]
fn message_signer_uses_the_pair_or_none() {
    match message_signer(Some("pub0"), Some("sec0")) {
        Signer::WithKeys { keys } => {
            assert_eq!(keys.public, "pub0");
            assert_eq!(keys.secret, "sec0");
        },
        _ => panic!("a full key pair must sign the message"),
    }
    assert!(matches!(message_signer(Some("pub0"), None), Signer::Unsigned));
}
