//! Rows of the relational backend and the payloads exchanged with callers.

use vstd::prelude::*;

verus! {

/// A user's profile row, including the customer and subscription mirror.
#[derive(Debug, Clone, PartialEq, Eq)]
pub struct Profile {
    pub id: String,
    pub updated_at: Option<String>,
    pub username: Option<String>,
    pub full_name: Option<String>,
    pub avatar_url: Option<String>,
    pub onboarding_complete: Option<bool>,
    pub stripe_customer_id: Option<String>,
    pub subscription_id: Option<String>,
    pub subscription_status: Option<String>,
    pub subscription_period_end: Option<i64>,
    pub total_tokens: Option<i64>,
    pub tokens_remaining: Option<i64>,
    pub tokens_used: Option<i64>,
    pub total_purchases: Option<i32>,
    pub total_spent_cents: Option<i64>,
    pub last_purchase_at: Option<String>,
}

/// Where the relational backend lives and how to authenticate against it.
#[derive(Debug, Clone, PartialEq, Eq)]
pub struct DatabaseConfig {
    pub database_url: String,
    pub access_token: String,
    pub anon_key: String,
}

/// A stored payment method: card metadata only, never the card number.
#[derive(Debug, Clone, PartialEq, Eq)]
pub struct PaymentMethod {
    pub id: String,
    pub user_id: String,
    pub stripe_customer_id: String,
    pub stripe_payment_method_id: String,
    pub card_brand: String,
    pub card_last4: String,
    pub card_exp_month: i32,
    pub card_exp_year: i32,
    pub is_default: bool,
    pub is_active: bool,
    pub created_at: Option<String>,
    pub updated_at: Option<String>,
    pub last_used_at: Option<String>,
}

/// What is needed to store a payment method.
#[derive(Debug, Clone, PartialEq, Eq)]
pub struct CreatePaymentMethodRequest {
    pub user_id: String,
    pub stripe_customer_id: String,
    pub stripe_payment_method_id: String,
    pub card_brand: String,
    pub card_last4: String,
    pub card_exp_month: i32,
    pub card_exp_year: i32,
    pub is_default: Option<bool>,
}

/// A completed one-time purchase.
#[derive(Debug, Clone, PartialEq, Eq)]
pub struct Purchase {
    pub id: String,
    pub user_id: String,
    pub stripe_payment_intent_id: String,
    pub stripe_price_id: String,
    pub stripe_product_id: Option<String>,
    pub package_id: Option<String>,
    pub package_price_id: Option<String>,
    pub amount_paid: i64,
    pub currency: String,
    pub tokens_purchased: Option<i64>,
    pub status: String,
    pub completed_at: Option<String>,
    pub created_at: Option<String>,
    pub updated_at: Option<String>,
}

/// A change of flags on one stored payment method.
#[derive(Debug, Clone, PartialEq, Eq)]
pub struct UpdatePaymentMethodRequest {
    pub payment_method_id: String,
    pub user_id: String,
    pub is_default: Option<bool>,
    pub is_active: Option<bool>,
}

/// A subscription plan of the local catalog. `features` holds the stored JSON
/// text as it is.
#[derive(Debug, Clone, PartialEq, Eq)]
pub struct SubscriptionPlan {
    pub id: String,
    pub name: String,
    pub description: Option<String>,
    pub stripe_product_id: String,
    pub features: Option<String>,
    pub is_active: bool,
    pub sort_order: i32,
    pub created_at: Option<String>,
    pub updated_at: Option<String>,
}

/// A price of a subscription plan.
#[derive(Debug, Clone, PartialEq, Eq)]
pub struct SubscriptionPrice {
    pub id: String,
    pub subscription_plan_id: String,
    pub stripe_price_id: String,
    pub amount_cents: i64,
    pub currency: String,
    pub interval_type: String,
    pub interval_count: i32,
    pub token_amount: i64,
    pub trial_period_days: i32,
    pub is_active: bool,
    pub created_at: Option<String>,
    pub updated_at: Option<String>,
}

/// A plan together with the prices that belong to it.
#[derive(Debug, Clone, PartialEq, Eq)]
pub struct SubscriptionPlanWithPrices {
    pub plan: SubscriptionPlan,
    pub prices: Vec<SubscriptionPrice>,
}

/// A token package of the local catalog. `features` holds the stored JSON text
/// as it is.
#[derive(Debug, Clone, PartialEq, Eq)]
pub struct Package {
    pub id: String,
    pub name: String,
    pub description: Option<String>,
    pub stripe_product_id: String,
    pub features: Option<String>,
    pub is_active: bool,
    pub sort_order: i32,
    pub created_at: Option<String>,
    pub updated_at: Option<String>,
}

/// A price of a token package.
#[derive(Debug, Clone, PartialEq, Eq)]
pub struct PackagePrice {
    pub id: String,
    pub package_id: String,
    pub stripe_price_id: String,
    pub amount_cents: i64,
    pub currency: String,
    pub interval_type: String,
    pub interval_count: i32,
    pub token_amount: i64,
    pub is_active: bool,
    pub created_at: Option<String>,
    pub updated_at: Option<String>,
}

/// A package together with the prices that belong to it.
#[derive(Debug, Clone, PartialEq, Eq)]
pub struct PackageWithPrices {
    pub package: Package,
    pub prices: Vec<PackagePrice>,
}

/// Postal address given during contractor onboarding.
#[derive(Debug, Clone, PartialEq, Eq)]
pub struct ContractorAddress {
    pub line1: String,
    pub line2: Option<String>,
    pub city: String,
    pub state: String,
    pub postal_code: String,
    pub country: String,
}

/// Bank account given during contractor onboarding.
#[derive(Debug, Clone, PartialEq, Eq)]
pub struct ContractorBankAccount {
    pub account_holder_name: String,
    pub account_number: String,
    pub routing_number: String,
    pub bank_name: String,
    pub account_type: String,
}

/// The onboarding form of a contractor, as the user filled it in.
#[derive(Debug, Clone, PartialEq, Eq)]
pub struct ContractorKycFormData {
    pub contractor_type: String,
    pub email: String,
    pub first_name: Option<String>,
    pub last_name: Option<String>,
    pub phone: Option<String>,
    pub date_of_birth: Option<String>,
    pub national_id_number: Option<String>,
    pub national_id_type: Option<String>,
    pub business_name: Option<String>,
    pub business_tax_id: Option<String>,
    pub business_url: Option<String>,
    pub business_description: Option<String>,
    pub industry_mcc_code: Option<String>,
    pub company_registration_number: Option<String>,
    pub company_structure: Option<String>,
    pub address: Option<ContractorAddress>,
    pub bank_account: Option<ContractorBankAccount>,
}

/// A contractor row.
#[derive(Debug, Clone, PartialEq, Eq)]
pub struct Contractor {
    pub id: String,
    pub user_id: String,
    pub profile_id: String,
    pub contractor_type: String,
    pub kyc_status: String,
    pub is_active: bool,
    pub stripe_connect_account_id: Option<String>,
    pub stripe_connect_account_status: Option<String>,
    pub stripe_connect_requirements_completed: Option<bool>,
    pub business_name: Option<String>,
    pub business_tax_id: Option<String>,
    pub business_website_url: Option<String>,
    pub business_description: Option<String>,
    pub industry_mcc_code: Option<String>,
    pub company_registration_number: Option<String>,
    pub company_structure: Option<String>,
    pub first_name: Option<String>,
    pub last_name: Option<String>,
    pub date_of_birth: Option<String>,
    pub phone_number: Option<String>,
    pub national_id_number: Option<String>,
    pub national_id_type: Option<String>,
    pub created_at: Option<String>,
    pub updated_at: Option<String>,
}

/// A representative of a contractor business.
#[derive(Debug, Clone, PartialEq, Eq)]
pub struct Representative {
    pub id: String,
    pub contractor_id: String,
    pub first_name: String,
    pub last_name: String,
    pub date_of_birth: String,
    pub email: Option<String>,
    pub phone_number: Option<String>,
    pub street_address: String,
    pub street_address_2: Option<String>,
    pub city: String,
    pub state_province: Option<String>,
    pub postal_code: String,
    pub country: String,
    pub title: String,
    pub is_authorized_signatory: bool,
    pub national_id_number: Option<String>,
    pub national_id_type: Option<String>,
    pub is_verified: bool,
    pub verified_at: Option<String>,
    pub verification_notes: Option<String>,
    pub created_at: Option<String>,
    pub updated_at: Option<String>,
}

/// A document handed in for contractor verification.
#[derive(Debug, Clone, PartialEq, Eq)]
pub struct DocumentUpload {
    pub id: String,
    pub contractor_id: String,
    pub document_type: String,
    pub document_purpose: String,
    pub file_name: String,
    pub file_size: Option<i64>,
    pub mime_type: Option<String>,
    pub stripe_file_id: Option<String>,
    pub stripe_upload_status: String,
    pub stripe_upload_error: Option<String>,
    pub local_file_path: Option<String>,
    pub file_hash: Option<String>,
    pub verification_status: String,
    pub verification_notes: Option<String>,
    pub verified_at: Option<String>,
    pub required_for_capability: Option<Vec<String>>,
    pub requirement_id: Option<String>,
    pub created_at: Option<String>,
    pub updated_at: Option<String>,
}

/// Client secret and id of a payment intent.
#[derive(Debug, Clone, PartialEq, Eq)]
pub struct PaymentIntentResponse {
    pub client_secret: String,
    pub payment_intent_id: String,
}

/// A subscription as reported to the caller.
#[derive(Debug, Clone, PartialEq, Eq)]
pub struct SubscriptionResponse {
    pub subscription_id: String,
    pub customer_id: String,
    pub status: String,
    pub current_period_end: i64,
    pub price_id: String,
}

/// Outcome of refreshing every subscription of a user.
#[derive(Debug, Clone, PartialEq, Eq)]
pub struct SubscriptionSyncResult {
    pub updated_subscriptions: u32,
    pub errors: Vec<String>,
}

/// One price of a processor product.
#[derive(Debug, Clone, PartialEq, Eq)]
pub struct ProductPrice {
    pub id: String,
    pub amount: i64,
    pub currency: String,
    pub interval: String,
    pub interval_count: i64,
}

/// A processor product with its active prices.
#[derive(Debug, Clone, PartialEq, Eq)]
pub struct ProductWithPrices {
    pub id: String,
    pub name: String,
    pub description: Option<String>,
    pub prices: Vec<ProductPrice>,
}

/// A card as listed by the processor.
#[derive(Debug, Clone, PartialEq, Eq)]
pub struct PaymentMethodResponse {
    pub id: String,
    pub card_brand: String,
    pub card_last4: String,
    pub card_exp_month: i64,
    pub card_exp_year: i64,
    pub is_default: bool,
}

/// Client secret and id of a setup intent.
#[derive(Debug, Clone, PartialEq, Eq)]
pub struct SetupIntentResponse {
    pub client_secret: String,
    pub setup_intent_id: String,
}

/// Session tokens as the caller supplies them.
#[derive(Debug, Clone, PartialEq, Eq)]
pub struct TokensRequest {
    pub access_token: String,
    pub refresh_token: String,
}

/// Session tokens as they are handed back.
#[derive(Debug, Clone, PartialEq, Eq)]
pub struct TokensResponse {
    pub access_token: String,
    pub refresh_token: String,
}

/// Bookkeeping of one local key-value store.
#[derive(Debug, Clone, PartialEq, Eq)]
pub struct StoreMetadata {
    pub store_id: String,
    pub last_updated: u64,
    pub size: usize,
    pub version: u32,
}

} // verus!
