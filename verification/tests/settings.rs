use forkforge::billing::{
    classify_event, CustomerId, HeliusClient, PaymentMethodId, PaymentProcessor, StripeEventKind,
    StripeSdk, StripeSubscription, SubscriptionId,
};
use forkforge::routes::{
    bearer, device_code_url, github_login_url, wait_for_authorization_url, DEVICE_CODE_ROUTE,
    GITHUB_LOGIN_ROUTE, WAIT_FOR_AUTHORIZATION_ROUTE,
};
use forkforge::config::{sqlite_connect_url, Config};
use forkforge::errors::DomainError;
use forkforge::models::{SessionStatus, SubscriptionStatus, SubscriptionTier};
use forkforge::presentation::{says_yes, wants_browser};

fn subscription(status: &str) -> StripeSubscription {
    StripeSubscription {
        id: "sub_1".to_string(),
        customer: "cus_1".to_string(),
        status: status.to_string(),
        current_period_end: 0,
        items: Vec::new(),
    }
}

#[test]
fn default_config_is_a_local_server_without_credentials() {
    let config = Config::default();
    assert_eq!(config.api_host, "127.0.0.1");
    assert_eq!(config.api_port, 3000);
    assert_eq!(config.api_base_url, "http://localhost:3000");
    assert_eq!(config.database_url, "sqlite://forkforge.db");
    assert_eq!(config.stripe_webhook_secret, "");
    assert_eq!(config.api_timeout_seconds, 30);
    assert_eq!(config.stripe_publishable_key, None);
    assert_eq!(config.stripe_secret_key, None);
    assert_eq!(config.stripe_product_id_entry_tier, None);
    assert_eq!(config.stripe_product_id_lite_tier, None);
    assert_eq!(config.stripe_product_id_pro_tier, None);
    assert_eq!(config.github_client_id, None);
    assert_eq!(config.github_client_secret, None);
}

#[test]
fn bind_address_is_host_colon_port() {
    let mut config = Config::default();
    assert_eq!(config.bind_address(), "127.0.0.1:3000");
    config.api_host = "0.0.0.0".to_string();
    config.api_port = 65535;
    assert_eq!(config.bind_address(), "0.0.0.0:65535");
    config.api_port = 0;
    assert_eq!(config.bind_address(), "0.0.0.0:0");
}

#[test]
fn stripe_is_configured_only_with_a_secret_key() {
    let mut config = Config::default();
    assert!(config.stripe().is_none());
    config.stripe_secret_key = Some("sk_live_x".to_string());
    let sdk = config.stripe().unwrap();
    assert!(sdk.lacks_webhook_secret());
    config.stripe_webhook_secret = "whsec_x".to_string();
    assert!(!config.stripe().unwrap().lacks_webhook_secret());
}

#[test]
fn stripe_handles_are_made() {
    assert!(!StripeSdk::test().lacks_webhook_secret());
    assert!(StripeSdk::new("k".to_string(), String::new()).lacks_webhook_secret());
    assert!(!StripeSdk::new("k".to_string(), "w".to_string()).lacks_webhook_secret());
    let _ = HeliusClient::new("key".to_string());
}

#[test]
fn connect_url_gets_a_mode_where_it_names_none() {
    assert_eq!(
        sqlite_connect_url("sqlite://forkforge.db").unwrap(),
        "sqlite://forkforge.db?mode=rwc"
    );
    assert_eq!(sqlite_connect_url("sqlite:").unwrap(), "sqlite:?mode=rwc");
    assert_eq!(
        sqlite_connect_url("sqlite:./forkforge_dev.db?mode=rwc").unwrap(),
        "sqlite:./forkforge_dev.db?mode=rwc"
    );
    assert_eq!(
        sqlite_connect_url("sqlite::memory:?mode=ro&cache=shared").unwrap(),
        "sqlite::memory:?mode=ro&cache=shared"
    );
}

#[test]
fn connect_url_of_another_scheme_is_refused() {
    for url in ["", "postgres://localhost/db", "sqlite", "SQLITE:db", " sqlite:db"] {
        match sqlite_connect_url(url) {
            Err(DomainError::InvalidInput(detail)) => {
                assert_eq!(detail, "Only SQLite databases are supported")
            }
            other => panic!("unexpected {:?}", other),
        }
    }
}

#[test]
fn stripe_status_words_are_mapped() {
    assert_eq!(subscription("active").to_domain_status(), SubscriptionStatus::Active);
    assert_eq!(subscription("past_due").to_domain_status(), SubscriptionStatus::PastDue);
    assert_eq!(subscription("canceled").to_domain_status(), SubscriptionStatus::Cancelled);
    assert_eq!(subscription("unpaid").to_domain_status(), SubscriptionStatus::Cancelled);
    assert_eq!(subscription("trialing").to_domain_status(), SubscriptionStatus::Cancelled);
    assert_eq!(subscription("").to_domain_status(), SubscriptionStatus::Cancelled);
}

#[test]
fn price_ids_are_mapped() {
    let sub = subscription("active");
    assert_eq!(sub.to_domain_tier("price_entry"), SubscriptionTier::Entry);
    assert_eq!(sub.to_domain_tier("price_lite"), SubscriptionTier::Lite);
    assert_eq!(sub.to_domain_tier("price_pro"), SubscriptionTier::Pro);
    assert_eq!(sub.to_domain_tier("price_other"), SubscriptionTier::Entry);
    assert_eq!(sub.to_domain_tier(""), SubscriptionTier::Entry);
}

#[test]
fn stripe_events_are_classified_by_type() {
    assert_eq!(
        classify_event("customer.subscription.created"),
        StripeEventKind::SubscriptionCreated
    );
    assert_eq!(
        classify_event("customer.subscription.updated"),
        StripeEventKind::SubscriptionUpdated
    );
    assert_eq!(
        classify_event("customer.subscription.deleted"),
        StripeEventKind::SubscriptionDeleted
    );
    assert_eq!(classify_event("invoice.paid"), StripeEventKind::Unknown);
    assert_eq!(classify_event(""), StripeEventKind::Unknown);
}

#[test]
fn identifiers_compare_by_their_text() {
    assert_eq!(CustomerId("cus_1".to_string()), CustomerId("cus_1".to_string()));
    assert_ne!(SubscriptionId("sub_1".to_string()), SubscriptionId("sub_2".to_string()));
    assert_eq!(PaymentMethodId("pm_1".to_string()).0, "pm_1");
    assert_ne!(SessionStatus::Starting, SessionStatus::Running);
}

#[test]
fn browser_is_opened_on_a_yes() {
    assert!(wants_browser("y"));
    assert!(wants_browser("Y"));
    assert!(wants_browser("  y \n"));
    assert!(wants_browser("\tY\r\n"));
    assert!(!wants_browser(""));
    assert!(!wants_browser("\n"));
    assert!(!wants_browser("n"));
    assert!(!wants_browser("yes"));
    assert!(!wants_browser("y y"));
    assert!(says_yes("y"));
    assert!(!says_yes("Y"));
    assert!(!says_yes(" y"));
}

#[test]
fn server_urls_hang_off_the_base_url() {
    let base = "http://localhost:3000";
    assert_eq!(device_code_url(base), "http://localhost:3000/auth/github/device-code");
    assert_eq!(
        wait_for_authorization_url(base),
        "http://localhost:3000/auth/github/wait-for-authorization"
    );
    assert_eq!(github_login_url(base), "http://localhost:3000/auth/github-login");
    assert_eq!(device_code_url(""), DEVICE_CODE_ROUTE);
    assert_eq!(wait_for_authorization_url(""), WAIT_FOR_AUTHORIZATION_ROUTE);
    assert_eq!(github_login_url(""), GITHUB_LOGIN_ROUTE);
    assert_eq!(bearer("gho_abc"), "Bearer gho_abc");
    assert_eq!(bearer(""), "Bearer ");
}

#[test]
fn stand_in_payment_processor_issues_fresh_identifiers() {
    let sdk = StripeSdk::test();
    let customer = sdk.create_customer("a@b.c", "user-1").unwrap();
    let other = sdk.create_customer("a@b.c", "user-1").unwrap();
    assert_ne!(customer, other);
    assert_eq!(customer.0.len(), 36);
    assert!(customer.0.starts_with("cus_"));
    assert!(customer.0[4..].chars().all(|c| c.is_ascii_digit() || ('a'..='f').contains(&c)));
    let subscription = sdk.create_subscription(&customer, SubscriptionTier::Pro).unwrap();
    assert_eq!(subscription.0.len(), 36);
    assert!(subscription.0.starts_with("sub_"));
    assert!(subscription.0[4..].chars().all(|c| c.is_ascii_digit() || ('a'..='f').contains(&c)));
    assert!(sdk.update_subscription(&subscription, SubscriptionTier::Lite).is_ok());
    assert!(sdk.cancel_subscription(&subscription).is_ok());
    assert_eq!(sdk.verify_webhook_signature(b"payload", "t=1,v1=abc").unwrap(), true);
}
