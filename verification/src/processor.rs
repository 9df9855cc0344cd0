//! The payment processor as the workflows see it: the calls they ask for and
//! what comes back, reduced to the fields the decisions read.

use vstd::prelude::*;
use vstd::string::*;
use crate::text::{has_marker, mentions};

verus! {

/// Billing period unit of a recurring price.
#[derive(Debug, Clone, Copy, PartialEq, Eq, Structural)]
pub enum BillingInterval {
    Day,
    Week,
    Month,
    Year,
}

/// Currency of a new payment intent or price.
#[derive(Debug, Clone, Copy, PartialEq, Eq, Structural)]
pub enum Currency {
    Usd,
    Eur,
    Gbp,
}

/// Status of a payment intent, as the processor enumerates it.
#[derive(Debug, Clone, Copy, PartialEq, Eq, Structural)]
pub enum IntentStatus {
    Canceled,
    Processing,
    RequiresAction,
    RequiresCapture,
    RequiresConfirmation,
    RequiresPaymentMethod,
    Succeeded,
}

impl IntentStatus {
    /// The processor's name for the status.
    pub open spec fn label(self) -> Seq<char> {
        match self {
            IntentStatus::Canceled => "canceled"@,
            IntentStatus::Processing => "processing"@,
            IntentStatus::RequiresAction => "requires_action"@,
            IntentStatus::RequiresCapture => "requires_capture"@,
            IntentStatus::RequiresConfirmation => "requires_confirmation"@,
            IntentStatus::RequiresPaymentMethod => "requires_payment_method"@,
            IntentStatus::Succeeded => "succeeded"@,
        }
    }

    /// Computes `label`.
    pub fn name(self) -> (r: String)
        ensures
            r@ == self.label(),
    {
        match self {
            IntentStatus::Canceled => String::from_str("canceled"),
            IntentStatus::Processing => String::from_str("processing"),
            IntentStatus::RequiresAction => String::from_str("requires_action"),
            IntentStatus::RequiresCapture => String::from_str("requires_capture"),
            IntentStatus::RequiresConfirmation => String::from_str("requires_confirmation"),
            IntentStatus::RequiresPaymentMethod => String::from_str("requires_payment_method"),
            IntentStatus::Succeeded => String::from_str("succeeded"),
        }
    }
}

/// Card metadata of a payment method.
#[derive(Debug, Clone, PartialEq, Eq)]
pub struct CardDetails {
    pub brand: String,
    pub last4: String,
    pub exp_month: i64,
    pub exp_year: i64,
}

/// A payment method as the processor reports it.
#[derive(Debug, Clone, PartialEq, Eq)]
pub struct MethodSnapshot {
    pub id: String,
    /// The customer the method is attached to, if any.
    pub customer: Option<String>,
    pub card: Option<CardDetails>,
}

/// A subscription as the processor reports it.
#[derive(Debug, Clone, PartialEq, Eq)]
pub struct SubscriptionSnapshot {
    pub id: String,
    pub customer: String,
    pub status: String,
    pub current_period_end: i64,
    /// Price of the first subscription item, if there is one.
    pub first_price: Option<String>,
}

/// How often a recurring price bills.
#[derive(Debug, Clone, Copy, PartialEq, Eq, Structural)]
pub struct Recurrence {
    pub interval: BillingInterval,
    pub interval_count: u64,
}

/// A price as the processor reports it.
#[derive(Debug, Clone, PartialEq, Eq)]
pub struct PriceSnapshot {
    pub id: String,
    pub product: Option<String>,
    pub unit_amount: Option<i64>,
    pub currency: Option<String>,
    pub recurring: Option<Recurrence>,
}

/// A product as the processor reports it.
#[derive(Debug, Clone, PartialEq, Eq)]
pub struct ProductSnapshot {
    pub id: String,
    pub name: Option<String>,
    pub description: Option<String>,
}

/// A payment intent as the processor reports it.
#[derive(Debug, Clone, PartialEq, Eq)]
pub struct IntentSnapshot {
    pub id: String,
    pub status: IntentStatus,
    pub amount: i64,
    pub currency: String,
    pub client_secret: Option<String>,
    /// The `price_id` entry of the intent's metadata, if present.
    pub price_id: Option<String>,
}

/// A setup intent as the processor reports it.
#[derive(Debug, Clone, PartialEq, Eq)]
pub struct SetupSnapshot {
    pub id: String,
    pub client_secret: Option<String>,
}

/// A customer as the processor reports it.
#[derive(Debug, Clone, PartialEq, Eq)]
pub struct CustomerSnapshot {
    pub id: String,
    pub email: Option<String>,
    pub name: Option<String>,
}

/// A connected account as the processor reports it.
#[derive(Debug, Clone, PartialEq, Eq)]
pub struct ConnectSnapshot {
    pub account_id: String,
    pub requirements_completed: bool,
}

/// One call to the payment processor.
#[derive(Debug, Clone, PartialEq, Eq)]
pub enum ProcessorCall {
    RetrievePaymentMethod { payment_method_id: String },
    AttachPaymentMethod { payment_method_id: String, customer_id: String },
    DetachPaymentMethod { payment_method_id: String },
    /// Makes the method the default of the customer's invoice settings.
    SetDefaultPaymentMethod { customer_id: String, payment_method_id: String },
    /// Lists the customer's payment methods of type card.
    ListCards { customer_id: String },
    /// Creates a setup intent for the customer that accepts cards.
    CreateSetupIntent { customer_id: String },
    /// Looks for at most one customer with this e-mail address.
    FindCustomer { email: String },
    CreateCustomer { email: String, full_name: Option<String> },
    /// Creates a card payment intent.
    CreatePaymentIntent { amount: i64, unit: Currency, customer: Option<String> },
    /// Creates and confirms a payment intent on a stored method, with manual
    /// confirmation.
    ChargeStoredMethod { amount: i64, currency: String, payment_method_id: String },
    RetrievePaymentIntent { payment_intent_id: String },
    /// Creates a subscription of quantity one with the method as its explicit
    /// default, tagged with the user id.
    CreateSubscription {
        customer_id: String,
        price_id: String,
        payment_method_id: String,
        user_id: String,
    },
    /// Asks for cancellation at the end of the current period.
    CancelAtPeriodEnd { subscription_id: String },
    RetrieveSubscription { subscription_id: String },
    RetrievePrice { price_id: String },
    RetrieveProduct { product_id: String },
    /// Lists the active prices of a product.
    ListActivePrices { product_id: String, limit: Option<u64> },
    CreateRecurringPrice {
        product_id: String,
        amount: i64,
        currency: String,
        interval: BillingInterval,
        interval_count: Option<u64>,
    },
    CreateProduct { name: String, description: String },
    CreateConnectAccount { user_id: String, contractor_type: String, email: String },
}

/// What a call to the processor came to.
#[derive(Debug, Clone, PartialEq, Eq)]
pub enum ProcessorReply {
    /// The call succeeded and nothing of its answer is read.
    Done,
    Method(MethodSnapshot),
    Methods(Vec<MethodSnapshot>),
    Subscription(SubscriptionSnapshot),
    Price(PriceSnapshot),
    Prices(Vec<PriceSnapshot>),
    Product(ProductSnapshot),
    Intent(IntentSnapshot),
    Setup(SetupSnapshot),
    Customer(CustomerSnapshot),
    Customers(Vec<CustomerSnapshot>),
    Connect(ConnectSnapshot),
    /// The processor, or the client in front of it, refused the call; `detail`
    /// is the message it gave.
    Rejected { detail: String },
}

/// The processor's message says that the payment method can never be attached
/// again: it was used once without being attached to a customer.
pub open spec fn permanently_unusable(message: Seq<char>) -> bool {
    mentions(message, "was previously used without being attached"@) || mentions(
        message,
        "may not be used again"@,
    )
}

/// Computes `permanently_unusable`.
pub fn is_permanently_unusable(message: &str) -> (r: bool)
    ensures
        r == permanently_unusable(message@),
{
    has_marker(message, "was previously used without being attached") || has_marker(
        message,
        "may not be used again",
    )
}

/// The processor's message says that the payment method is attached to no
/// customer, so that there is nothing to detach.
pub open spec fn already_detached(message: Seq<char>) -> bool {
    mentions(message, "not attached to a customer"@) || mentions(
        message,
        "detachment is impossible"@,
    )
}

/// Computes `already_detached`.
pub fn is_already_detached(message: &str) -> (r: bool)
    ensures
        r == already_detached(message@),
{
    has_marker(message, "not attached to a customer") || has_marker(
        message,
        "detachment is impossible",
    )
}

} // verus!
