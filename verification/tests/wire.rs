use forkforge::auth::types::{AuthError, GitHubUser};
use forkforge::auth::wire::{
    device_code_from_fields, encode_form, form_body_from, read_device_code_response,
    read_github_user, user_from_fields, CheckUserAuthorisedRequestParams, DeviceCodeRequestParams,
    GITHUB_CHECK_USER_AUTHORISED_URL, GITHUB_DEVICE_CODE_REQUEST_URL, GITHUB_USER_URL,
};
use forkforge::errors::DomainError;

fn pair(name: &str, value: &str) -> (String, String) {
    (name.to_string(), value.to_string())
}

fn is_unreadable<T: std::fmt::Debug>(result: Result<T, DomainError>) -> bool {
    match result {
        Err(DomainError::ExternalService(detail)) => detail == "Failed to parse response",
        _ => false,
    }
}

#[test]
fn endpoints_are_the_fixed_ones() {
    assert_eq!(GITHUB_DEVICE_CODE_REQUEST_URL, "https://github.com/login/device/code");
    assert_eq!(
        GITHUB_CHECK_USER_AUTHORISED_URL,
        "https://github.com/login/oauth/access_token"
    );
    assert_eq!(GITHUB_USER_URL, "https://api.github.com/user");
}

#[test]
fn device_code_request_asks_for_user_scope() {
    let params = DeviceCodeRequestParams::for_client(Some("Iv1.abc".to_string())).unwrap();
    assert_eq!(params.client_id, "Iv1.abc");
    assert_eq!(params.scope, "user");
    assert_eq!(
        params.form_pairs(),
        vec![pair("client_id", "Iv1.abc"), pair("scope", "user")]
    );
    assert_eq!(params.to_form().unwrap(), "client_id=Iv1.abc&scope=user");
}

#[test]
fn device_code_request_needs_a_client_id() {
    match DeviceCodeRequestParams::for_client(None) {
        Err(AuthError::ServerConfigurationError { debug_info }) => {
            assert_eq!(debug_info, "GitHub client ID not configured")
        }
        other => panic!("unexpected {:?}", other),
    }
}

#[test]
fn poll_request_carries_the_device_grant_type() {
    let params =
        CheckUserAuthorisedRequestParams::for_device(Some("abc".to_string()), "dev 1".to_string())
            .unwrap();
    assert_eq!(params.grant_type, "urn:ietf:params:oauth:grant-type:device_code");
    assert_eq!(
        params.form_pairs(),
        vec![
            pair("client_id", "abc"),
            pair("device_code", "dev 1"),
            pair("grant_type", "urn:ietf:params:oauth:grant-type:device_code"),
        ]
    );
    assert_eq!(
        params.to_form().unwrap(),
        "client_id=abc&device_code=dev+1&grant_type=urn%3Aietf%3Aparams%3Aoauth%3Agrant-type%3Adevice_code"
    );
}

#[test]
fn poll_request_needs_a_client_id() {
    match CheckUserAuthorisedRequestParams::for_device(None, "dev".to_string()) {
        Err(AuthError::ServerConfigurationError { debug_info }) => {
            assert_eq!(debug_info, "GitHub client ID not configured")
        }
        other => panic!("unexpected {:?}", other),
    }
}

#[test]
fn form_encoding_escapes_names_and_values() {
    assert_eq!(encode_form(&vec![]).unwrap(), "");
    assert_eq!(
        encode_form(&vec![pair("bread", "baguette"), pair("cheese", "comté")]).unwrap(),
        "bread=baguette&cheese=comt%C3%A9"
    );
    assert_eq!(
        encode_form(&vec![pair("a b", "c&d=e"), pair("", "")]).unwrap(),
        "a+b=c%26d%3De&="
    );
}

#[test]
fn form_body_from_maps_a_missing_text_to_an_internal_error() {
    assert_eq!(form_body_from(Some("a=b".to_string())).unwrap(), "a=b");
    match form_body_from(None) {
        Err(AuthError::InternalServerError { debug_info }) => {
            assert_eq!(debug_info, "Failed to serialize request params")
        }
        other => panic!("unexpected {:?}", other),
    }
}

#[test]
fn device_code_response_is_read() {
    let body = r#"{"device_code":"3584d83530557fdd1f46af8289938c8ef79f9dc5","user_code":"WDJB-MJHT","verification_uri":"https://github.com/login/device","expires_in":900,"interval":5}"#;
    let response = read_device_code_response(body).unwrap();
    assert_eq!(response.device_code, "3584d83530557fdd1f46af8289938c8ef79f9dc5");
    assert_eq!(response.user_code, "WDJB-MJHT");
    assert_eq!(response.verification_uri, "https://github.com/login/device");
    assert_eq!(response.expires_in, 900);
    assert_eq!(response.interval, 5);
}

#[test]
fn device_code_response_takes_numbers_up_to_32_bits() {
    let body = r#"{"device_code":"d","user_code":"u","verification_uri":"v","expires_in":4294967295,"interval":0}"#;
    let response = read_device_code_response(body).unwrap();
    assert_eq!(response.expires_in, u32::MAX);
    assert_eq!(response.interval, 0);
}

#[test]
fn device_code_response_with_missing_or_mistyped_members_is_unreadable() {
    for body in [
        "",
        "null",
        r#"{"user_code":"u","verification_uri":"v","expires_in":900,"interval":5}"#,
        r#"{"device_code":"d","verification_uri":"v","expires_in":900,"interval":5}"#,
        r#"{"device_code":"d","user_code":"u","expires_in":900,"interval":5}"#,
        r#"{"device_code":"d","user_code":"u","verification_uri":"v","interval":5}"#,
        r#"{"device_code":"d","user_code":"u","verification_uri":"v","expires_in":900}"#,
        r#"{"device_code":"d","user_code":"u","verification_uri":"v","expires_in":"900","interval":5}"#,
        r#"{"device_code":"d","user_code":"u","verification_uri":"v","expires_in":900,"interval":-5}"#,
        r#"{"device_code":"d","user_code":"u","verification_uri":"v","expires_in":900,"interval":5.5}"#,
        r#"{"device_code":"d","user_code":"u","verification_uri":"v","expires_in":4294967296,"interval":5}"#,
        r#"{"device_code":7,"user_code":"u","verification_uri":"v","expires_in":900,"interval":5}"#,
    ] {
        assert!(is_unreadable(read_device_code_response(body)), "{}", body);
    }
}

#[test]
fn device_code_from_fields_follows_the_same_rule() {
    let s = |t: &str| Some(t.to_string());
    let ok = device_code_from_fields(s("d"), s("u"), s("v"), Some(900), Some(5)).unwrap();
    assert_eq!(ok.device_code, "d");
    assert_eq!(ok.user_code, "u");
    assert_eq!(ok.verification_uri, "v");
    assert_eq!(ok.expires_in, 900);
    assert_eq!(ok.interval, 5);
    assert!(is_unreadable(device_code_from_fields(None, s("u"), s("v"), Some(900), Some(5))));
    assert!(is_unreadable(device_code_from_fields(s("d"), s("u"), s("v"), None, Some(5))));
    assert!(is_unreadable(device_code_from_fields(
        s("d"),
        s("u"),
        s("v"),
        Some(900),
        Some(u64::MAX)
    )));
}

#[test]
fn github_user_is_read() {
    let body = r#"{"login":"octocat","id":583231,"node_id":"MDQ6","name":"The Octocat","email":null,"site_admin":false}"#;
    let user = read_github_user(body).unwrap();
    assert_eq!(user.id, 583231);
    assert_eq!(user.login, "octocat");
    assert_eq!(user.email, None);
    assert_eq!(user.name.as_deref(), Some("The Octocat"));
}

#[test]
fn github_user_needs_id_and_login() {
    let user = read_github_user(r#"{"id":1,"login":"a"}"#).unwrap();
    assert_eq!(user.id, 1);
    assert_eq!(user.login, "a");
    assert_eq!(user.email, None);
    assert_eq!(user.name, None);
    for body in [r#"{"id":1}"#, r#"{"login":"a"}"#, r#"{"id":"1","login":"a"}"#,
        r#"{"id":-1,"login":"a"}"#, r#"{"id":1,"login":null}"#, "[1,\"a\"]", "{"]
    {
        assert!(is_unreadable(read_github_user(body)), "{}", body);
    }
}

#[test]
fn github_user_takes_the_largest_id() {
    let user = read_github_user(r#"{"id":18446744073709551615,"login":"a","email":"a@b.c"}"#).unwrap();
    assert_eq!(user.id, u64::MAX);
    assert_eq!(user.email.as_deref(), Some("a@b.c"));
    let identity = user.into_authenticated();
    assert_eq!(identity.provider_id, "18446744073709551615");
}

#[test]
fn user_from_fields_follows_the_same_rule() {
    let user = user_from_fields(Some(7), Some("a".to_string()), None, Some("A".to_string())).unwrap();
    assert_eq!(user.id, 7);
    assert_eq!(user.login, "a");
    assert_eq!(user.name.as_deref(), Some("A"));
    assert!(is_unreadable(user_from_fields(None, Some("a".to_string()), None, None)));
    assert!(is_unreadable(user_from_fields(Some(7), None, None, None)));
}

#[test]
fn github_user_becomes_provider_independent_identity() {
    let user = GitHubUser {
        id: 583231,
        login: "octocat".to_string(),
        email: Some("octo@github.com".to_string()),
        name: None,
    };
    let identity = user.into_authenticated();
    assert_eq!(identity.provider_id, "583231");
    assert_eq!(identity.username, "octocat");
    assert_eq!(identity.email.as_deref(), Some("octo@github.com"));
    assert_eq!(identity.display_name, None);
    let zero = GitHubUser { id: 0, login: "z".to_string(), email: None, name: None };
    assert_eq!(zero.into_authenticated().provider_id, "0");
}
