//! The error model: a tagged kind, the step that failed, and the detail the
//! outside system reported.

use vstd::prelude::*;

verus! {

/// What went wrong, so that callers can branch without reading message text.
#[derive(Debug, Clone, Copy, PartialEq, Eq, Structural)]
pub enum ErrorKind {
    /// Processor credentials are missing or empty.
    ConfigurationError,
    /// No local session, or no token for the relational backend.
    AuthenticationRequired,
    /// A processor lookup failed or returned unusable data.
    ProcessorLookupError,
    /// A processor mutation failed.
    ProcessorOperationError,
    /// The processor will never accept this payment method again.
    PermanentlyUnusable,
    /// The relational backend could not be reached, refused the request, or
    /// answered with something unreadable.
    RemoteStoreError,
    /// A row that must exist is absent.
    NotFound,
    /// The user has no customer reference yet.
    NoCustomer,
    /// The user has no stored payment method.
    NoPaymentMethod,
    /// The payment intent has not succeeded.
    PaymentNotSucceeded,
    /// An argument was rejected before any outside work.
    InvalidInput,
    /// An outcome arrived that the workflow was not waiting for.
    UnexpectedEvent,
}

/// The step of a workflow during which a failure arose.
#[derive(Debug, Clone, Copy, PartialEq, Eq, Structural)]
pub enum Step {
    Protocol,
    Settings,
    Session,
    Credentials,
    RetrievePaymentMethod,
    CheckAttachment,
    AttachPaymentMethod,
    DetachPaymentMethod,
    SetProcessorDefault,
    ReadCard,
    ListPaymentMethods,
    StorePaymentMethod,
    UpdatePaymentMethod,
    DeletePaymentMethod,
    UnsetDefaults,
    MarkUsed,
    LinkCustomer,
    LoadProfile,
    SaveProfile,
    CheckUsername,
    CreateSubscription,
    CancelSubscription,
    RetrieveSubscription,
    MirrorSubscription,
    RetrievePrice,
    ResolveProduct,
    FindPackage,
    CreatePackage,
    FindPackagePrice,
    CreatePackagePrice,
    InsertPurchase,
    ListPurchases,
    RetrievePaymentIntent,
    CreatePaymentIntent,
    CheckPayment,
    FindCustomer,
    CreateCustomer,
    CreateSetupIntent,
    RetrieveProduct,
    CreateProduct,
    ListPrices,
    CreatePrice,
    ListCatalog,
    CreateConnectAccount,
    CreateContractor,
    LoadContractor,
    SaveKycForm,
    LoadKycForm,
    SaveRecord,
    LoadRecords,
    Password,
    Initialization,
    Migration,
}

/// A failure as the library reports it.
#[derive(Debug, Clone, PartialEq, Eq)]
pub struct Failure {
    pub kind: ErrorKind,
    pub step: Step,
    /// HTTP status of the relational backend's answer, where there was one.
    pub status: Option<u16>,
    /// Text reported by the outside system; empty where the library itself
    /// raised the failure.
    pub detail: String,
}

impl Failure {
    /// True when `self` has exactly this kind, step, status and detail text.
    pub open spec fn is(
        self,
        kind: ErrorKind,
        step: Step,
        status: Option<u16>,
        detail: Seq<char>,
    ) -> bool {
        &&& self.kind == kind
        &&& self.step == step
        &&& self.status == status
        &&& self.detail@ == detail
    }

    /// A failure raised by the library's own rules, with no outside detail.
    pub fn rule(kind: ErrorKind, step: Step) -> (f: Failure)
        ensures
            f.is(kind, step, None, Seq::empty()),
    {
        Failure { kind, step, status: None, detail: String::new() }
    }

    /// A failure that carries the text an outside system reported.
    pub fn reported(kind: ErrorKind, step: Step, detail: String) -> (f: Failure)
        ensures
            f.is(kind, step, None, detail@),
            f.detail == detail,
    {
        Failure { kind, step, status: None, detail }
    }

    /// A failure that carries the relational backend's status and answer body.
    pub fn answered(step: Step, status: u16, body: String) -> (f: Failure)
        ensures
            f.is(ErrorKind::RemoteStoreError, step, Some(status), body@),
            f.detail == body,
    {
        Failure { kind: ErrorKind::RemoteStoreError, step, status: Some(status), detail: body }
    }

    /// The same failure, attributed to another step.
    pub fn during(self, step: Step) -> (f: Failure)
        ensures
            f.is(self.kind, step, self.status, self.detail@),
    {
        Failure { kind: self.kind, step, status: self.status, detail: self.detail }
    }

    /// Whether retrying the same call can succeed without outside intervention:
    /// processor failures and backend failures other than validation (422) and
    /// authorization (401, 403) answers.
    pub open spec fn retryable(self) -> bool {
        match self.kind {
            ErrorKind::ProcessorLookupError | ErrorKind::ProcessorOperationError => true,
            ErrorKind::RemoteStoreError => match self.status {
                Some(s) => s != 422 && s != 401 && s != 403,
                None => true,
            },
            _ => false,
        }
    }

    /// Computes `retryable`.
    pub fn is_retryable(&self) -> (r: bool)
        ensures
            r == self.retryable(),
    {
        match self.kind {
            ErrorKind::ProcessorLookupError | ErrorKind::ProcessorOperationError => true,
            ErrorKind::RemoteStoreError => match self.status {
                Some(s) => s != 422 && s != 401 && s != 403,
                None => true,
            },
            _ => false,
        }
    }
}

} // verus!
