//! Payment-side identifiers and the provider's view of customers and
//! subscriptions.

use vstd::prelude::*;
use vstd::string::*;
use crate::errors::DomainError;
use crate::models::{SubscriptionStatus, SubscriptionTier};
use crate::auth::token_service::{is_hex_digit, random_uuid_text};
use crate::text::same_text;

verus! {

/// Identifier of a customer at the payment provider.
#[derive(Debug, Clone, PartialEq, Eq, Hash)]
pub struct CustomerId(pub String);

/// Identifier of a subscription at the payment provider.
#[derive(Debug, Clone, PartialEq, Eq, Hash)]
pub struct SubscriptionId(pub String);

/// Identifier of a payment method at the payment provider.
#[derive(Debug, Clone, PartialEq, Eq, Hash)]
pub struct PaymentMethodId(pub String);

/// What the domain asks of a payment provider. Implementations talk to the
/// provider; nothing is promised of what they return.
pub trait PaymentProcessor {
    /// Registers a customer; `external_id` is this system's user id.
    fn create_customer(&self, email: &str, external_id: &str) -> Result<CustomerId, DomainError>;

    /// Subscribes a customer to a tier.
    fn create_subscription(&self, customer_id: &CustomerId, tier: SubscriptionTier) -> Result<
        SubscriptionId,
        DomainError,
    >;

    /// Moves a subscription to another tier.
    fn update_subscription(
        &self,
        subscription_id: &SubscriptionId,
        new_tier: SubscriptionTier,
    ) -> Result<(), DomainError>;

    /// Ends a subscription.
    fn cancel_subscription(&self, subscription_id: &SubscriptionId) -> Result<(), DomainError>;

    /// Says whether a webhook payload carries a valid signature.
    fn verify_webhook_signature(&self, payload: &[u8], signature: &str) -> Result<
        bool,
        DomainError,
    >;
}

/// What the domain asks of a handler of payment webhooks. `Ok(true)` means
/// the payload was processed, `Ok(false)` that it was not recognized.
pub trait PaymentWebhookHandler {
    fn handle_webhook(&self, payload: &[u8], signature: &str) -> Result<bool, DomainError>;
}

/// What this system attaches to a Stripe customer.
#[derive(Debug, Clone)]
pub struct CustomerMetadata {
    pub github_id: Option<String>,
    pub user_id: String,
}

/// A customer as Stripe describes one.
#[derive(Debug, Clone)]
pub struct StripeCustomer {
    pub id: String,
    pub email: String,
    pub created: i64,
}

/// A price as Stripe describes one.
#[derive(Debug, Clone)]
pub struct Price {
    pub id: String,
    pub product: String,
    pub unit_amount: Option<i64>,
    pub currency: String,
}

/// One line of a subscription.
#[derive(Debug, Clone)]
pub struct SubscriptionItem {
    pub id: String,
    pub price: Price,
}

/// A subscription as Stripe describes one.
#[derive(Debug, Clone)]
pub struct StripeSubscription {
    pub id: String,
    pub customer: String,
    pub status: String,
    pub current_period_end: i64,
    pub items: Vec<SubscriptionItem>,
}

/// The domain's status for one of Stripe's status words: `active` and
/// `past_due` keep their meaning, every other word counts as cancelled.
pub open spec fn domain_status(status: Seq<char>) -> SubscriptionStatus {
    if status == "active"@ {
        SubscriptionStatus::Active
    } else if status == "past_due"@ {
        SubscriptionStatus::PastDue
    } else {
        SubscriptionStatus::Cancelled
    }
}

/// The tier a price identifier stands for; an unknown price counts as the
/// entry tier.
pub open spec fn domain_tier(price_id: Seq<char>) -> SubscriptionTier {
    if price_id == "price_lite"@ {
        SubscriptionTier::Lite
    } else if price_id == "price_pro"@ {
        SubscriptionTier::Pro
    } else {
        SubscriptionTier::Entry
    }
}

impl StripeSubscription {
    /// Maps Stripe's status word into the domain's status.
    pub fn to_domain_status(&self) -> (status: SubscriptionStatus)
        ensures
            status == domain_status(self.status@),
    {
        if same_text(self.status.as_str(), "active") {
            SubscriptionStatus::Active
        } else if same_text(self.status.as_str(), "past_due") {
            SubscriptionStatus::PastDue
        } else {
            SubscriptionStatus::Cancelled
        }
    }

    /// Maps a price identifier to the tier it stands for.
    pub fn to_domain_tier(&self, price_id: &str) -> (tier: SubscriptionTier)
        ensures
            tier == domain_tier(price_id@),
    {
        if same_text(price_id, "price_lite") {
            SubscriptionTier::Lite
        } else if same_text(price_id, "price_pro") {
            SubscriptionTier::Pro
        } else {
            SubscriptionTier::Entry
        }
    }
}

/// What a Stripe webhook event is about.
#[derive(Debug, Clone, Copy, PartialEq, Eq, Structural)]
pub enum StripeEventKind {
    SubscriptionCreated,
    SubscriptionUpdated,
    SubscriptionDeleted,
    Unknown,
}

/// The kind of event an event type names.
pub open spec fn event_kind(event_type: Seq<char>) -> StripeEventKind {
    if event_type == "customer.subscription.created"@ {
        StripeEventKind::SubscriptionCreated
    } else if event_type == "customer.subscription.updated"@ {
        StripeEventKind::SubscriptionUpdated
    } else if event_type == "customer.subscription.deleted"@ {
        StripeEventKind::SubscriptionDeleted
    } else {
        StripeEventKind::Unknown
    }
}

/// Decides what a verified Stripe event is about, from its type.
pub fn classify_event(event_type: &str) -> (kind: StripeEventKind)
    ensures
        kind == event_kind(event_type@),
{
    if same_text(event_type, "customer.subscription.created") {
        StripeEventKind::SubscriptionCreated
    } else if same_text(event_type, "customer.subscription.updated") {
        StripeEventKind::SubscriptionUpdated
    } else if same_text(event_type, "customer.subscription.deleted") {
        StripeEventKind::SubscriptionDeleted
    } else {
        StripeEventKind::Unknown
    }
}

/// Credentials for Stripe's API. They belong on the server only.
pub struct StripeSdk {
    api_key: String,
    webhook_secret: String,
}

impl StripeSdk {
    /// The API key the handle was made with.
    pub closed spec fn api_key(&self) -> Seq<char> {
        self.api_key@
    }

    /// The webhook secret the handle was made with.
    pub closed spec fn webhook_secret(&self) -> Seq<char> {
        self.webhook_secret@
    }

    /// Makes a handle from an API key and a webhook secret.
    pub fn new(api_key: String, webhook_secret: String) -> (sdk: StripeSdk)
        ensures
            sdk.api_key() == api_key@,
            sdk.webhook_secret() == webhook_secret@,
    {
        StripeSdk { api_key, webhook_secret }
    }

    /// Makes a handle with dummy credentials, for tests and development.
    pub fn test() -> (sdk: StripeSdk)
        ensures
            sdk.api_key() == "sk_test_dummy"@,
            sdk.webhook_secret() == "whsec_test_dummy"@,
    {
        StripeSdk {
            api_key: "sk_test_dummy".to_owned(),
            webhook_secret: "whsec_test_dummy".to_owned(),
        }
    }

    /// Whether the webhook secret is missing, so that signatures cannot be
    /// checked.
    pub fn lacks_webhook_secret(&self) -> (r: bool)
        ensures
            r == (self.webhook_secret().len() == 0),
    {
        self.webhook_secret.as_str().is_empty()
    }
}

/// A UUID in hyphenated form without its four hyphens.
pub open spec fn compact(uuid: Seq<char>) -> Seq<char> {
    uuid.subrange(0, 8) + uuid.subrange(9, 13) + uuid.subrange(14, 18) + uuid.subrange(19, 23)
        + uuid.subrange(24, 36)
}

/// Whether an identifier is `prefix` followed by 32 lower-case hexadecimal
/// digits.
pub open spec fn is_generated_id(id: Seq<char>, prefix: Seq<char>) -> bool {
    &&& id.len() == prefix.len() + 32
    &&& id.subrange(0, prefix.len() as int) == prefix
    &&& forall|i: int| prefix.len() <= i < id.len() ==> is_hex_digit(#[trigger] id[i])
}

/// Draws an identifier: `prefix`, then a random UUID without hyphens.
fn generated_id(prefix: &str) -> (id: String)
    ensures
        is_generated_id(id@, prefix@),
{
    let uuid = random_uuid_text();
    let text = uuid.as_str();
    let mut id = prefix.to_owned();
    id.append(text.substring_char(0, 8));
    id.append(text.substring_char(9, 13));
    id.append(text.substring_char(14, 18));
    id.append(text.substring_char(19, 23));
    id.append(text.substring_char(24, 36));
    proof {
        let digits = compact(uuid@);
        assert(id@ =~= prefix@ + digits);
        assert(id@.subrange(0, prefix@.len() as int) =~= prefix@);
        assert forall|i: int| prefix@.len() <= i < id@.len() implies is_hex_digit(
            #[trigger] id@[i],
        ) by {
            let k = i - prefix@.len();
            let from = if k < 8 {
                k
            } else if k < 12 {
                k + 1
            } else if k < 16 {
                k + 2
            } else if k < 20 {
                k + 3
            } else {
                k + 4
            };
            assert(digits[k] == uuid@[from]);
            assert(is_hex_digit(uuid@[from]));
        }
    }
    id
}

/// Stands in for Stripe until the real calls are made: customers and
/// subscriptions get fresh local identifiers, updates and cancellations
/// succeed without effect, and every signature counts as valid.
impl PaymentProcessor for StripeSdk {
    fn create_customer(&self, email: &str, external_id: &str) -> (customer: Result<
        CustomerId,
        DomainError,
    >)
        ensures
            customer is Ok,
            is_generated_id(customer->Ok_0.0@, "cus_"@),
    {
        Ok(CustomerId(generated_id("cus_")))
    }

    fn create_subscription(&self, customer_id: &CustomerId, tier: SubscriptionTier) -> (subscription:
        Result<SubscriptionId, DomainError>)
        ensures
            subscription is Ok,
            is_generated_id(subscription->Ok_0.0@, "sub_"@),
    {
        Ok(SubscriptionId(generated_id("sub_")))
    }

    fn update_subscription(
        &self,
        subscription_id: &SubscriptionId,
        new_tier: SubscriptionTier,
    ) -> (done: Result<(), DomainError>)
        ensures
            done is Ok,
    {
        Ok(())
    }

    fn cancel_subscription(&self, subscription_id: &SubscriptionId) -> (done: Result<
        (),
        DomainError,
    >)
        ensures
            done is Ok,
    {
        Ok(())
    }

    fn verify_webhook_signature(&self, payload: &[u8], signature: &str) -> (valid: Result<
        bool,
        DomainError,
    >)
        ensures
            valid == Ok::<bool, DomainError>(true),
    {
        Ok(true)
    }
}

/// Placeholder for a client of the Helius RPC service.
pub struct HeliusClient;

impl HeliusClient {
    /// Makes a client. The key is not used yet.
    pub fn new(_api_key: String) -> (client: HeliusClient)
        ensures
            client == HeliusClient,
    {
        HeliusClient
    }
}

} // verus!
