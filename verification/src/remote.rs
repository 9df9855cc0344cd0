//! The relational backend as the workflows see it: the operations they ask
//! for, the answers that come back, and the actions and events that tie a
//! workflow to its surroundings.

use vstd::prelude::*;
use crate::failure::{ErrorKind, Failure, Step};
use crate::processor::{BillingInterval, ProcessorCall, ProcessorReply};
use crate::records::{Contractor, PaymentMethod, Profile};

verus! {

/// Which columns of a profile are asked for.
#[derive(Debug, Clone, Copy, PartialEq, Eq, Structural)]
pub enum ProfileColumns {
    /// No `select` parameter.
    Unspecified,
    /// `select=*`.
    All,
    /// The token totals and purchase counters.
    TokenTotals,
}

/// Which columns of a package are asked for.
#[derive(Debug, Clone, Copy, PartialEq, Eq, Structural)]
pub enum PackageColumns {
    Id,
    IdName,
    IdNameProduct,
}

/// One operation on the relational backend, by meaning. `wire` says how each
/// is put on the wire.
#[derive(Debug, Clone, PartialEq, Eq)]
pub enum StoreOp {
    FetchProfile { user_id: String, columns: ProfileColumns },
    CreateProfile {
        user_id: String,
        full_name: Option<String>,
        avatar_url: Option<String>,
        onboarding_complete: Option<bool>,
    },
    UpdateProfile {
        user_id: String,
        username: Option<String>,
        full_name: Option<String>,
        avatar_url: Option<String>,
        onboarding_complete: Option<bool>,
    },
    FindUsername { candidate: String },
    /// Overwrites the subscription mirror on the profile.
    MirrorSubscription {
        user_id: String,
        customer_id: String,
        subscription_id: String,
        status: String,
        period_end: i64,
    },
    /// Writes the customer reference onto the profile.
    LinkCustomer { user_id: String, customer_id: String },
    MarkContractor { profile_id: String, contractor_id: String },
    /// Lists a user's payment methods; `ordered` asks for defaults first, then
    /// newest first.
    ListPaymentMethods { user_id: String, ordered: bool },
    InsertPaymentMethod {
        user_id: String,
        customer_id: String,
        payment_method_id: String,
        card_brand: String,
        card_last4: String,
        card_exp_month: i32,
        card_exp_year: i32,
        is_default: bool,
    },
    /// Changes flags on the rows of one processor payment method of one user.
    UpdatePaymentMethod {
        payment_method_id: String,
        user_id: String,
        set_default: Option<bool>,
        set_active: Option<bool>,
    },
    DeletePaymentMethod { payment_method_id: String, user_id: String },
    MarkPaymentMethodUsed { payment_method_id: String, user_id: String },
    /// Clears `is_default` on every active default row of the user.
    UnsetDefaultPaymentMethods { user_id: String },
    FindPackage { product_id: String, select: PackageColumns },
    /// Creates the default package row for a product that has none.
    CreateDefaultPackage { product_id: String },
    FindPackagePrice { price_id: String },
    InsertPackagePrice {
        package_id: String,
        price_id: String,
        amount_cents: i64,
        currency: String,
        interval: Option<BillingInterval>,
        interval_count: Option<i64>,
        merge_duplicates: bool,
    },
    /// Inserts a purchase with status `completed` and a completion time.
    InsertPurchase {
        user_id: String,
        payment_intent_id: String,
        price_id: String,
        product_id: String,
        package_id: String,
        package_price_id: Option<String>,
        amount_paid: i64,
        currency: String,
        tokens_purchased: i64,
    },
    ListPurchases { user_id: String },
    ListActivePlans,
    ListActivePlanPrices,
    ListActivePackages,
    ListActivePackagePrices,
    /// Probes the purchases table without reading rows.
    ProbePurchases,
    /// Reads the token columns of one arbitrary profile.
    ProbeProfiles,
    /// Asks for the first profile row only, to see whether the table exists.
    ProbeSchema,
    InsertContractor {
        user_id: String,
        profile_id: String,
        contractor_type: String,
        connect_account_id: String,
        requirements_completed: bool,
        business_name: Option<String>,
        business_tax_id: Option<String>,
    },
    InsertContractorAddress {
        contractor_id: String,
        line1: String,
        line2: Option<String>,
        city: String,
        state: String,
        postal_code: String,
        country: String,
    },
    FetchContractor { user_id: String },
    /// Stores the onboarding form, given as JSON text.
    SaveKycForm { user_id: String, kyc_json: String },
    LoadKycForm { user_id: String },
    InsertRepresentative {
        contractor_id: String,
        first_name: String,
        last_name: String,
        date_of_birth: String,
        email: Option<String>,
        phone_number: Option<String>,
        street_address: String,
        street_address_2: Option<String>,
        city: String,
        state_province: Option<String>,
        postal_code: String,
        country: String,
        title: String,
        is_authorized_signatory: bool,
        national_id_number: Option<String>,
        national_id_type: Option<String>,
    },
    ListRepresentatives { contractor_id: String },
    ListBeneficialOwners { contractor_id: String },
    InsertDocumentUpload {
        contractor_id: String,
        document_type: String,
        document_purpose: String,
        file_name: String,
        file_size: Option<i64>,
        mime_type: Option<String>,
        stripe_file_id: Option<String>,
        local_file_path: Option<String>,
        file_hash: Option<String>,
        required_for_capability: Option<Vec<String>>,
        requirement_id: Option<String>,
    },
    ListDocumentUploads { contractor_id: String },
    UpdateDocumentUpload {
        document_id: String,
        stripe_file_id: Option<String>,
        stripe_upload_status: Option<String>,
        stripe_upload_error: Option<String>,
        verification_status: Option<String>,
        verification_notes: Option<String>,
    },
}

/// Rows decoded from an answer body, by the kind of row the operation yields.
#[derive(Debug, Clone, PartialEq, Eq)]
pub enum Rows {
    /// The body was not decoded into rows; `detail` says why.
    Unread { detail: String },
    Profiles(Vec<Profile>),
    PaymentMethods(Vec<PaymentMethod>),
    Contractors(Vec<Contractor>),
}

/// What an operation on the relational backend came to.
#[derive(Debug, Clone, PartialEq, Eq)]
pub enum StoreReply {
    /// No request was sent: the connection settings or the session are missing.
    Unavailable { failure: Failure },
    /// The request was sent and no answer came back.
    Unreachable { detail: String },
    /// The backend answered.
    Answered { status: u16, body: String, rows: Rows },
}

/// What a workflow asks its surroundings to do next.
#[derive(Debug, PartialEq, Eq)]
pub enum Action<T> {
    Store(StoreOp),
    Processor(ProcessorCall),
    /// Wait this long, then report `Event::Resumed`.
    Pause { millis: u64 },
    /// The workflow is over.
    Finish(Result<T, Failure>),
}

/// What the surroundings report back.
#[derive(Debug, Clone, PartialEq, Eq)]
pub enum Event {
    Store(StoreReply),
    Processor(ProcessorReply),
    Resumed,
}

/// One more, as far as the count can go.
pub open spec fn one_more(count: usize) -> usize {
    if count < usize::MAX {
        (count + 1) as usize
    } else {
        count
    }
}

/// Computes `one_more`.
pub(crate) fn count_one(count: usize) -> (r: usize)
    ensures
        r == one_more(count),
{
    if count < usize::MAX {
        count + 1
    } else {
        count
    }
}

/// The statuses the backend uses for success: 200 to 299.
pub open spec fn success_status(status: u16) -> bool {
    200 <= status < 300
}

/// Computes `success_status`.
pub fn is_success(status: u16) -> (r: bool)
    ensures
        r == success_status(status),
{
    200 <= status && status < 300
}

impl<T> Action<T> {
    /// True when the action ends the workflow with this failure.
    pub open spec fn fails_with(
        self,
        kind: crate::failure::ErrorKind,
        step: crate::failure::Step,
        status: Option<u16>,
        detail: Seq<char>,
    ) -> bool {
        self matches Action::Finish(Err(f)) && f.is(kind, step, status, detail)
    }

    /// True when the action ends the workflow with a failure of this kind,
    /// step and status, whatever its detail.
    pub open spec fn fails_like(
        self,
        kind: crate::failure::ErrorKind,
        step: crate::failure::Step,
        status: Option<u16>,
    ) -> bool {
        self matches Action::Finish(Err(f)) && f.kind == kind && f.step == step
            && f.status == status
    }
}

/// The backend answered the operation with a success status.
pub open spec fn accepted(reply: StoreReply) -> bool {
    reply matches StoreReply::Answered { status, .. } && success_status(status)
}

/// The payment-method rows of an accepted answer that was decoded as such.
pub open spec fn method_rows(reply: StoreReply) -> Option<Vec<PaymentMethod>> {
    match reply {
        StoreReply::Answered { status, rows: Rows::PaymentMethods(v), .. } => if success_status(
            status,
        ) {
            Some(v)
        } else {
            None
        },
        _ => None,
    }
}

/// The profile rows of an accepted answer that was decoded as such.
pub open spec fn profile_rows(reply: StoreReply) -> Option<Vec<Profile>> {
    match reply {
        StoreReply::Answered { status, rows: Rows::Profiles(v), .. } => if success_status(status) {
            Some(v)
        } else {
            None
        },
        _ => None,
    }
}

/// The failure that stands for a reply which did not yield what `step` needed:
/// the failure that kept the request from being sent; else a
/// `RemoteStoreError` with the transport's message, or with the status and
/// the body of a refusal, or with the status and the decoder's message, or,
/// for rows of another kind, with the status and the body.
pub open spec fn unusable(reply: StoreReply, step: Step, f: Failure) -> bool {
    match reply {
        StoreReply::Unavailable { failure } => f == failure,
        StoreReply::Unreachable { detail } => f.is(
            ErrorKind::RemoteStoreError,
            step,
            None,
            detail@,
        ),
        StoreReply::Answered { status, body, rows } => if !success_status(status) {
            f.is(ErrorKind::RemoteStoreError, step, Some(status), body@)
        } else {
            match rows {
                Rows::Unread { detail } => f.is(
                    ErrorKind::RemoteStoreError,
                    step,
                    Some(status),
                    detail@,
                ),
                _ => f.is(ErrorKind::RemoteStoreError, step, Some(status), body@),
            }
        },
    }
}

/// Whether the backend accepted the operation, and the failure if it did not.
pub fn acknowledge(reply: StoreReply, step: Step) -> (r: Result<(), Failure>)
    ensures
        accepted(reply) ==> r is Ok,
        !accepted(reply) ==> (r matches Err(f) && unusable(reply, step, f)),
{
    match reply {
        StoreReply::Unavailable { failure } => Err(failure),
        StoreReply::Unreachable { detail } => Err(
            Failure::reported(ErrorKind::RemoteStoreError, step, detail),
        ),
        StoreReply::Answered { status, body, rows: _ } => {
            if is_success(status) {
                Ok(())
            } else {
                Err(Failure::answered(step, status, body))
            }
        },
    }
}

/// The body of an answer that the backend accepted, or the failure that
/// stands for the reply.
pub fn accepted_body(reply: StoreReply, step: Step) -> (r: Result<String, Failure>)
    ensures
        accepted(reply) ==> r == Ok::<String, Failure>(reply->Answered_body),
        !accepted(reply) ==> (r matches Err(f) && unusable(reply, step, f)),
{
    match reply {
        StoreReply::Unavailable { failure } => Err(failure),
        StoreReply::Unreachable { detail } => Err(
            Failure::reported(ErrorKind::RemoteStoreError, step, detail),
        ),
        StoreReply::Answered { status, body, rows: _ } => {
            if is_success(status) {
                Ok(body)
            } else {
                Err(Failure::answered(step, status, body))
            }
        },
    }
}

/// The payment-method rows of a reply, or the failure that stands for it.
pub fn read_methods(reply: StoreReply, step: Step) -> (r: Result<Vec<PaymentMethod>, Failure>)
    ensures
        match method_rows(reply) {
            Some(v) => r == Ok::<Vec<PaymentMethod>, Failure>(v),
            None => r matches Err(f) && unusable(reply, step, f),
        },
{
    match reply {
        StoreReply::Unavailable { failure } => Err(failure),
        StoreReply::Unreachable { detail } => Err(
            Failure::reported(ErrorKind::RemoteStoreError, step, detail),
        ),
        StoreReply::Answered { status, body, rows } => {
            if !is_success(status) {
                Err(Failure::answered(step, status, body))
            } else {
                match rows {
                    Rows::PaymentMethods(v) => Ok(v),
                    Rows::Unread { detail } => Err(
                        Failure {
                            kind: ErrorKind::RemoteStoreError,
                            step,
                            status: Some(status),
                            detail,
                        },
                    ),
                    _ => Err(Failure::answered(step, status, body)),
                }
            }
        },
    }
}

/// The profile rows of a reply, or the failure that stands for it.
pub fn read_profiles(reply: StoreReply, step: Step) -> (r: Result<Vec<Profile>, Failure>)
    ensures
        match profile_rows(reply) {
            Some(v) => r == Ok::<Vec<Profile>, Failure>(v),
            None => r matches Err(f) && unusable(reply, step, f),
        },
{
    match reply {
        StoreReply::Unavailable { failure } => Err(failure),
        StoreReply::Unreachable { detail } => Err(
            Failure::reported(ErrorKind::RemoteStoreError, step, detail),
        ),
        StoreReply::Answered { status, body, rows } => {
            if !is_success(status) {
                Err(Failure::answered(step, status, body))
            } else {
                match rows {
                    Rows::Profiles(v) => Ok(v),
                    Rows::Unread { detail } => Err(
                        Failure {
                            kind: ErrorKind::RemoteStoreError,
                            step,
                            status: Some(status),
                            detail,
                        },
                    ),
                    _ => Err(Failure::answered(step, status, body)),
                }
            }
        },
    }
}

/// The contractor rows of an accepted answer that was decoded as such.
pub open spec fn contractor_rows(reply: StoreReply) -> Option<Vec<Contractor>> {
    match reply {
        StoreReply::Answered { status, rows: Rows::Contractors(v), .. } => if success_status(
            status,
        ) {
            Some(v)
        } else {
            None
        },
        _ => None,
    }
}

/// The contractor rows of a reply, or the failure that stands for it.
pub fn read_contractors(reply: StoreReply, step: Step) -> (r: Result<Vec<Contractor>, Failure>)
    ensures
        match contractor_rows(reply) {
            Some(v) => r == Ok::<Vec<Contractor>, Failure>(v),
            None => r matches Err(f) && unusable(reply, step, f),
        },
{
    match reply {
        StoreReply::Unavailable { failure } => Err(failure),
        StoreReply::Unreachable { detail } => Err(
            Failure::reported(ErrorKind::RemoteStoreError, step, detail),
        ),
        StoreReply::Answered { status, body, rows } => {
            if !is_success(status) {
                Err(Failure::answered(step, status, body))
            } else {
                match rows {
                    Rows::Contractors(v) => Ok(v),
                    Rows::Unread { detail } => Err(
                        Failure {
                            kind: ErrorKind::RemoteStoreError,
                            step,
                            status: Some(status),
                            detail,
                        },
                    ),
                    _ => Err(Failure::answered(step, status, body)),
                }
            }
        },
    }
}

} // verus!
