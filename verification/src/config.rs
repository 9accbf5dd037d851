//! Settings of the server, with the values they take where nothing else is
//! configured, and what follows from them.

use vstd::prelude::*;
use vstd::string::*;
use crate::billing::StripeSdk;
use crate::errors::{DomainError, Failure};
use crate::text::{decimal, decimal_text, has_part, has_prefix, joined, occurs_in, starts_with};

verus! {

/// Settings of the server.
#[derive(Debug, Clone)]
pub struct Config {
    pub api_host: String,
    pub api_port: u16,
    pub api_base_url: String,
    pub database_url: String,
    pub stripe_webhook_secret: String,
    pub api_timeout_seconds: u64,
    pub stripe_publishable_key: Option<String>,
    pub stripe_secret_key: Option<String>,
    pub stripe_product_id_entry_tier: Option<String>,
    pub stripe_product_id_lite_tier: Option<String>,
    pub stripe_product_id_pro_tier: Option<String>,
    pub github_client_id: Option<String>,
    pub github_client_secret: Option<String>,
}

fn default_api_host() -> (host: String)
    ensures
        host@ == "127.0.0.1"@,
{
    "127.0.0.1".to_owned()
}

fn default_api_port() -> (port: u16)
    ensures
        port == 3000,
{
    3000
}

fn default_api_base_url() -> (url: String)
    ensures
        url@ == "http://localhost:3000"@,
{
    "http://localhost:3000".to_owned()
}

fn default_database_url() -> (url: String)
    ensures
        url@ == "sqlite://forkforge.db"@,
{
    "sqlite://forkforge.db".to_owned()
}

fn default_api_timeout_seconds() -> (seconds: u64)
    ensures
        seconds == 30,
{
    30
}

impl Config {
    /// Whether the settings are the ones that hold where nothing is
    /// configured: a local server on port 3000, a local SQLite database, a
    /// timeout of 30 seconds, and no credentials of any kind.
    pub open spec fn is_default(&self) -> bool {
        &&& self.api_host@ == "127.0.0.1"@
        &&& self.api_port == 3000
        &&& self.api_base_url@ == "http://localhost:3000"@
        &&& self.database_url@ == "sqlite://forkforge.db"@
        &&& self.stripe_webhook_secret@ == Seq::<char>::empty()
        &&& self.api_timeout_seconds == 30
        &&& self.stripe_publishable_key is None
        &&& self.stripe_secret_key is None
        &&& self.stripe_product_id_entry_tier is None
        &&& self.stripe_product_id_lite_tier is None
        &&& self.stripe_product_id_pro_tier is None
        &&& self.github_client_id is None
        &&& self.github_client_secret is None
    }

    /// The address the server listens on: host, colon, port.
    pub open spec fn address(&self) -> Seq<char> {
        self.api_host@ + ":"@ + decimal(self.api_port as nat)
    }

    /// Writes the address the server listens on.
    pub fn bind_address(&self) -> (address: String)
        ensures
            address@ == self.address(),
    {
        let host = joined(self.api_host.as_str(), ":");
        let port = decimal_text(self.api_port as u64);
        joined(host.as_str(), port.as_str())
    }

    /// The Stripe credentials, where a secret key is configured; the
    /// webhook secret is taken as it is, empty or not.
    pub fn stripe(&self) -> (sdk: Option<StripeSdk>)
        ensures
            match self.stripe_secret_key {
                Some(key) => sdk is Some && sdk->0.api_key() == key@ && sdk->0.webhook_secret()
                    == self.stripe_webhook_secret@,
                None => sdk is None,
            },
    {
        match &self.stripe_secret_key {
            Some(key) => Some(StripeSdk::new(key.clone(), self.stripe_webhook_secret.clone())),
            None => None,
        }
    }
}

impl Default for Config {
    fn default() -> (config: Config)
        ensures
            config.is_default(),
    {
        Config {
            api_host: default_api_host(),
            api_port: default_api_port(),
            api_base_url: default_api_base_url(),
            database_url: default_database_url(),
            stripe_webhook_secret: String::new(),
            api_timeout_seconds: default_api_timeout_seconds(),
            stripe_publishable_key: None,
            stripe_secret_key: None,
            stripe_product_id_entry_tier: None,
            stripe_product_id_lite_tier: None,
            stripe_product_id_pro_tier: None,
            github_client_id: None,
            github_client_secret: None,
        }
    }
}

/// The URL to connect to a SQLite database with: the configured URL, with
/// the mode that creates a missing database where the URL names no mode.
/// Only URLs of the `sqlite:` scheme have one.
pub open spec fn connect_url(database_url: Seq<char>) -> Option<Seq<char>> {
    if !starts_with(database_url, "sqlite:"@) {
        None
    } else if occurs_in(database_url, "?mode="@) {
        Some(database_url)
    } else {
        Some(database_url + "?mode=rwc"@)
    }
}

/// Works out the URL to connect to the database with. A URL of another
/// scheme is invalid input.
pub fn sqlite_connect_url(database_url: &str) -> (url: Result<String, DomainError>)
    ensures
        match url {
            Ok(text) => connect_url(database_url@) == Some(text@),
            Err(error) => connect_url(database_url@) is None && error@ == Failure::InvalidInput(
                "Only SQLite databases are supported"@,
            ),
        },
{
    if !has_prefix(database_url, "sqlite:") {
        Err(DomainError::InvalidInput("Only SQLite databases are supported".to_owned()))
    } else if has_part(database_url, "?mode=") {
        Ok(database_url.to_owned())
    } else {
        Ok(joined(database_url, "?mode=rwc"))
    }
}

} // verus!
