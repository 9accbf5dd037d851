use forkforge::auth::types::AuthError;
use forkforge::errors::DomainError;
use forkforge::http::{
    check_authorized_response, check_form_response, is_success, read_failure, send_failure,
    status_for,
};
use forkforge::text::{decimal_text, has_part, has_prefix, joined, same_text};

const VAGUE: &str = "Something went wrong on our end. We're looking into it.";

#[test]
fn user_messages_never_disclose_debug_info() {
    assert_eq!(
        AuthError::UserAuthenticationTimeout.message(),
        "Authentication timed out. Please try logging in again."
    );
    assert_eq!(
        AuthError::UserDeniedAuthentication.message(),
        "Authentication was denied. Please check your permissions and try again."
    );
    let config = AuthError::ServerConfigurationError { debug_info: "secret detail".to_string() };
    let internal = AuthError::InternalServerError { debug_info: "secret detail".to_string() };
    assert_eq!(config.message(), VAGUE);
    assert_eq!(internal.message(), VAGUE);
}

#[test]
fn developer_messages_disclose_debug_info() {
    let config = AuthError::ServerConfigurationError { debug_info: "bad client id".to_string() };
    let internal = AuthError::InternalServerError { debug_info: "odd reply".to_string() };
    assert_eq!(config.debug_message(), "Server configuration error. [DEBUG: bad client id]");
    assert_eq!(internal.debug_message(), "Internal server error. [DEBUG: odd reply]");
    assert_eq!(
        AuthError::UserAuthenticationTimeout.debug_message(),
        "Authentication timed out. Please try logging in again."
    );
    assert_eq!(
        AuthError::UserDeniedAuthentication.debug_message(),
        "Authentication was denied. Please check your permissions and try again."
    );
}

#[test]
fn domain_errors_are_described_by_kind_and_detail() {
    assert_eq!(DomainError::NotFound("user 7".to_string()).describe(), "Not found: user 7");
    assert_eq!(DomainError::Unauthorized("no".to_string()).describe(), "Unauthorized: no");
    assert_eq!(DomainError::InvalidInput("x".to_string()).describe(), "Invalid input: x");
    assert_eq!(
        DomainError::ExternalService("down".to_string()).describe(),
        "External service error: down"
    );
    assert_eq!(DomainError::Internal("".to_string()).describe(), "Internal error: ");
}

#[test]
fn success_statuses_are_the_two_hundreds() {
    assert!(!is_success(0));
    assert!(!is_success(199));
    assert!(is_success(200));
    assert!(is_success(204));
    assert!(is_success(299));
    assert!(!is_success(300));
    assert!(!is_success(401));
    assert!(!is_success(u16::MAX));
}

#[test]
fn form_response_is_its_body_on_success() {
    assert_eq!(check_form_response(200, "200 OK", "body".to_string()).unwrap(), "body");
    match check_form_response(503, "503 Service Unavailable", "body".to_string()) {
        Err(DomainError::ExternalService(detail)) => {
            assert_eq!(detail, "HTTP request failed with status: 503 Service Unavailable")
        }
        other => panic!("unexpected {:?}", other),
    }
    match check_form_response(401, "401 Unauthorized", "body".to_string()) {
        Err(DomainError::ExternalService(detail)) => {
            assert_eq!(detail, "HTTP request failed with status: 401 Unauthorized")
        }
        other => panic!("unexpected {:?}", other),
    }
}

#[test]
fn authorized_response_tells_a_rejected_token_apart() {
    assert_eq!(check_authorized_response(200, "200 OK", "{}".to_string()).unwrap(), "{}");
    match check_authorized_response(401, "401 Unauthorized", "{}".to_string()) {
        Err(DomainError::Unauthorized(detail)) => assert_eq!(detail, "Invalid access token"),
        other => panic!("unexpected {:?}", other),
    }
    match check_authorized_response(403, "403 Forbidden", "{}".to_string()) {
        Err(DomainError::ExternalService(detail)) => {
            assert_eq!(detail, "HTTP request failed with status: 403 Forbidden")
        }
        other => panic!("unexpected {:?}", other),
    }
}

#[test]
fn transport_failures_are_failures_of_the_external_service() {
    match send_failure("connection refused") {
        DomainError::ExternalService(detail) => {
            assert_eq!(detail, "HTTP request failed: connection refused")
        }
        other => panic!("unexpected {:?}", other),
    }
    match read_failure("body cut short") {
        DomainError::ExternalService(detail) => {
            assert_eq!(detail, "Failed to read response: body cut short")
        }
        other => panic!("unexpected {:?}", other),
    }
}

#[test]
fn login_failures_map_to_statuses() {
    assert_eq!(status_for(&AuthError::UserAuthenticationTimeout), 408);
    assert_eq!(status_for(&AuthError::UserDeniedAuthentication), 401);
    assert_eq!(
        status_for(&AuthError::ServerConfigurationError { debug_info: String::new() }),
        500
    );
    assert_eq!(status_for(&AuthError::InternalServerError { debug_info: String::new() }), 500);
}

#[test]
fn text_helpers() {
    assert!(same_text("", ""));
    assert!(same_text("abc", "abc"));
    assert!(!same_text("abc", "abd"));
    assert!(!same_text("abc", "ab"));
    assert_eq!(joined("ab", "cd"), "abcd");
    assert_eq!(joined("", ""), "");
    assert_eq!(decimal_text(0), "0");
    assert_eq!(decimal_text(9), "9");
    assert_eq!(decimal_text(10), "10");
    assert_eq!(decimal_text(3000), "3000");
    assert_eq!(decimal_text(u64::MAX), "18446744073709551615");
}

#[test]
fn prefix_and_part_search() {
    assert!(has_prefix("sqlite:x", "sqlite:"));
    assert!(has_prefix("sqlite:", "sqlite:"));
    assert!(has_prefix("anything", ""));
    assert!(!has_prefix("sqlit", "sqlite:"));
    assert!(!has_prefix("xsqlite:", "sqlite:"));
    assert!(has_part("a?mode=rw", "?mode="));
    assert!(has_part("?mode=", "?mode="));
    assert!(has_part("é?mode=é", "?mode="));
    assert!(has_part("abc", ""));
    assert!(has_part("", ""));
    assert!(!has_part("", "a"));
    assert!(!has_part("a?mode", "?mode="));
    assert!(!has_part("?mod=e", "?mode="));
    assert!(has_part("aab", "ab"));
}
