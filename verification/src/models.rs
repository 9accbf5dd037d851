//! Entities of the domain, held as plain values.

use vstd::prelude::*;

verus! {

/// Where a fork session stands in its life.
#[derive(Debug, Clone, Copy, PartialEq, Eq, Structural)]
pub enum SessionStatus {
    Starting,
    Running,
    Stopped,
    Failed,
}

/// What a user's subscription entitles them to.
#[derive(Debug, Clone, Copy, PartialEq, Eq, Structural)]
pub enum SubscriptionTier {
    Entry,
    Lite,
    Pro,
}

/// Whether a subscription is paid up.
#[derive(Debug, Clone, Copy, PartialEq, Eq, Structural)]
pub enum SubscriptionStatus {
    Active,
    PastDue,
    Cancelled,
}

/// The record stored for an issued API token. Only the hash of the token is
/// kept. Identifiers are UUIDs in hyphenated form; times are seconds since
/// the Unix epoch.
#[derive(Debug, Clone)]
pub struct AuthToken {
    pub id: String,
    pub user_id: String,
    pub token_hash: String,
    pub name: Option<String>,
    pub last_used_at: Option<i64>,
    pub expires_at: Option<i64>,
    pub created_at: i64,
}

} // verus!
