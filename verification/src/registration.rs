//! Registering a payment method once its setup is confirmed: attach it where
//! the processor reports it unattached, decide whether it becomes the
//! default, and persist its card metadata.

use vstd::prelude::*;
use vstd::string::*;
use crate::failure::{ErrorKind, Failure, Step};
use crate::payment_methods::{
    attach_call, default_call, first_method, first_stored_method, resolve_default,
    should_be_default,
};
use crate::processor::{
    is_permanently_unusable, permanently_unusable, CardDetails, ProcessorCall, ProcessorReply,
};
use crate::records::{CreatePaymentMethodRequest, PaymentMethod};
use crate::remote::{
    accepted, acknowledge, method_rows, read_methods, unusable, Action, Event, StoreOp,
};
use crate::text::{lowercased, to_lowercase};

verus! {

/// What is registered: the method, the customer it belongs to, the user, and
/// whether the caller asked for it to become the default.
#[derive(Debug, Clone, PartialEq, Eq)]
pub struct Registration {
    pub customer_id: String,
    pub payment_method_id: String,
    pub user_id: String,
    pub is_default: Option<bool>,
}

/// Where a registration stands.
#[derive(Debug, Clone, PartialEq, Eq)]
pub enum RegisterStage {
    /// Waiting for the processor's view of the method.
    AwaitMethod,
    /// Waiting for the method to be attached to the customer.
    AwaitAttach { card: Option<CardDetails> },
    /// Waiting for the local record of an unusable method to be deleted.
    AwaitCleanup,
    /// Waiting for the list of the user's stored methods.
    AwaitExisting { card: Option<CardDetails> },
    /// Waiting for the old defaults to be cleared.
    AwaitUnset { card: Option<CardDetails> },
    /// Waiting for the processor to take the method as the customer's default.
    AwaitProcessorDefault { card: Option<CardDetails> },
    /// Waiting for the stored row.
    AwaitInsert,
    /// Waiting for the customer reference to be written onto the profile.
    AwaitLink { record: PaymentMethod },
    Finished,
}

/// A registration in progress.
#[derive(Debug, Clone, PartialEq, Eq)]
pub struct RegisterFlow {
    pub request: Registration,
    pub stage: RegisterStage,
}

/// The registration goes on to list the user's stored methods.
pub open spec fn lists_existing(
    request: Registration,
    card: Option<CardDetails>,
    next: RegisterFlow,
    action: Action<PaymentMethod>,
) -> bool {
    &&& next.stage == (RegisterStage::AwaitExisting { card })
    &&& action == Action::<PaymentMethod>::Store(
        StoreOp::ListPaymentMethods { user_id: request.user_id, ordered: true },
    )
}

/// The registration has ended with this failure.
pub open spec fn register_fails(
    next: RegisterFlow,
    action: Action<PaymentMethod>,
    kind: ErrorKind,
    step: Step,
    detail: Seq<char>,
) -> bool {
    next.stage == RegisterStage::Finished && action.fails_with(kind, step, None, detail)
}

/// The stored brand, last four digits and expiry of a card: the brand in
/// lower case, month and year cut to 32 bits.
pub open spec fn stores_card(
    card: CardDetails,
    brand: String,
    last4: String,
    exp_month: i32,
    exp_year: i32,
) -> bool {
    &&& brand@ == lowercased(card.brand@)
    &&& last4 == card.last4
    &&& exp_month == card.exp_month as i32
    &&& exp_year == card.exp_year as i32
}

/// The registration goes on to persist the method, or ends because the
/// processor reported no card for it.
pub open spec fn persists(
    request: Registration,
    card: Option<CardDetails>,
    make_default: bool,
    next: RegisterFlow,
    action: Action<PaymentMethod>,
) -> bool {
    match card {
        None => register_fails(
            next,
            action,
            ErrorKind::ProcessorLookupError,
            Step::ReadCard,
            Seq::empty(),
        ),
        Some(details) => {
            &&& next.stage == RegisterStage::AwaitInsert
            &&& action matches Action::Store(
                StoreOp::InsertPaymentMethod {
                    user_id,
                    customer_id,
                    payment_method_id,
                    card_brand,
                    card_last4,
                    card_exp_month,
                    card_exp_year,
                    is_default,
                },
            )
            &&& user_id == request.user_id
            &&& customer_id == request.customer_id
            &&& payment_method_id == request.payment_method_id
            &&& stores_card(details, card_brand, card_last4, card_exp_month, card_exp_year)
            &&& is_default == make_default
        },
    }
}

/// One step of a registration.
///
/// A method that the processor reports as unattached is attached to the
/// customer; one that is attached already is left as it is, so that
/// registering the same method again does not fail. A method that the
/// processor declares permanently unusable has its local record deleted, and
/// the registration fails with `PermanentlyUnusable`. The method becomes the
/// default when that was asked for or when the user has no stored method yet:
/// then the user's other defaults are cleared, best effort, and the processor
/// is told before the row is written. The row is written with the card's
/// metadata, and the customer reference is then written onto the profile:
/// the registration succeeds only if the backend accepts that write too. A
/// failure there is reported, and leaves the stored row in place.
pub open spec fn register_step(
    flow: RegisterFlow,
    event: Event,
    next: RegisterFlow,
    action: Action<PaymentMethod>,
) -> bool {
    let request = flow.request;
    &&& next.request == request
    &&& match flow.stage {
        RegisterStage::AwaitMethod => match event {
            Event::Processor(ProcessorReply::Method(method)) => match method.customer {
                Some(_) => lists_existing(request, method.card, next, action),
                None => next.stage == (RegisterStage::AwaitAttach { card: method.card })
                    && action == Action::<PaymentMethod>::Processor(
                    attach_call(request.customer_id, request.payment_method_id),
                ),
            },
            Event::Processor(ProcessorReply::Rejected { detail }) => register_fails(
                next,
                action,
                ErrorKind::ProcessorLookupError,
                Step::RetrievePaymentMethod,
                detail@,
            ),
            _ => register_fails(
                next,
                action,
                ErrorKind::UnexpectedEvent,
                Step::Protocol,
                Seq::empty(),
            ),
        },
        RegisterStage::AwaitAttach { card } => match event {
            Event::Processor(ProcessorReply::Done) => lists_existing(request, card, next, action),
            Event::Processor(ProcessorReply::Rejected { detail }) => if permanently_unusable(
                detail@,
            ) {
                next.stage == RegisterStage::AwaitCleanup && action == Action::<
                    PaymentMethod,
                >::Store(
                    StoreOp::DeletePaymentMethod {
                        payment_method_id: request.payment_method_id,
                        user_id: request.user_id,
                    },
                )
            } else {
                register_fails(
                    next,
                    action,
                    ErrorKind::ProcessorOperationError,
                    Step::AttachPaymentMethod,
                    detail@,
                )
            },
            _ => register_fails(
                next,
                action,
                ErrorKind::UnexpectedEvent,
                Step::Protocol,
                Seq::empty(),
            ),
        },
        RegisterStage::AwaitCleanup => match event {
            Event::Store(_) => register_fails(
                next,
                action,
                ErrorKind::PermanentlyUnusable,
                Step::AttachPaymentMethod,
                Seq::empty(),
            ),
            _ => register_fails(
                next,
                action,
                ErrorKind::UnexpectedEvent,
                Step::Protocol,
                Seq::empty(),
            ),
        },
        RegisterStage::AwaitExisting { card } => match event {
            Event::Store(reply) => match method_rows(reply) {
                Some(rows) => if should_be_default(request.is_default, rows@) {
                    next.stage == (RegisterStage::AwaitUnset { card }) && action == Action::<
                        PaymentMethod,
                    >::Store(StoreOp::UnsetDefaultPaymentMethods { user_id: request.user_id })
                } else {
                    persists(request, card, false, next, action)
                },
                None => next.stage == RegisterStage::Finished && (action matches Action::Finish(
                    Err(f),
                ) && unusable(reply, Step::ListPaymentMethods, f)),
            },
            _ => register_fails(
                next,
                action,
                ErrorKind::UnexpectedEvent,
                Step::Protocol,
                Seq::empty(),
            ),
        },
        RegisterStage::AwaitUnset { card } => match event {
            Event::Store(_) => next.stage == (RegisterStage::AwaitProcessorDefault { card })
                && action == Action::<PaymentMethod>::Processor(
                default_call(request.customer_id, request.payment_method_id),
            ),
            _ => register_fails(
                next,
                action,
                ErrorKind::UnexpectedEvent,
                Step::Protocol,
                Seq::empty(),
            ),
        },
        RegisterStage::AwaitProcessorDefault { card } => match event {
            Event::Processor(ProcessorReply::Done) => persists(request, card, true, next, action),
            Event::Processor(ProcessorReply::Rejected { detail }) => register_fails(
                next,
                action,
                ErrorKind::ProcessorOperationError,
                Step::SetProcessorDefault,
                detail@,
            ),
            _ => register_fails(
                next,
                action,
                ErrorKind::UnexpectedEvent,
                Step::Protocol,
                Seq::empty(),
            ),
        },
        RegisterStage::AwaitInsert => match event {
            Event::Store(reply) => match method_rows(reply) {
                Some(rows) => if rows@.len() > 0 {
                    next.stage == (RegisterStage::AwaitLink { record: rows@[0] }) && action
                        == Action::<PaymentMethod>::Store(
                        StoreOp::LinkCustomer {
                            user_id: request.user_id,
                            customer_id: request.customer_id,
                        },
                    )
                } else {
                    register_fails(
                        next,
                        action,
                        ErrorKind::NotFound,
                        Step::StorePaymentMethod,
                        Seq::empty(),
                    )
                },
                None => next.stage == RegisterStage::Finished && (action matches Action::Finish(
                    Err(f),
                ) && unusable(reply, Step::StorePaymentMethod, f)),
            },
            _ => register_fails(
                next,
                action,
                ErrorKind::UnexpectedEvent,
                Step::Protocol,
                Seq::empty(),
            ),
        },
        RegisterStage::AwaitLink { record } => match event {
            Event::Store(reply) => if accepted(reply) {
                next.stage == RegisterStage::Finished && action == Action::<
                    PaymentMethod,
                >::Finish(Ok(record))
            } else {
                next.stage == RegisterStage::Finished && (action matches Action::Finish(Err(f))
                    && unusable(reply, Step::LinkCustomer, f))
            },
            _ => register_fails(
                next,
                action,
                ErrorKind::UnexpectedEvent,
                Step::Protocol,
                Seq::empty(),
            ),
        },
        RegisterStage::Finished => register_fails(
            next,
            action,
            ErrorKind::UnexpectedEvent,
            Step::Protocol,
            Seq::empty(),
        ),
    }
}

/// Starts registering a payment method after its setup was confirmed: the
/// first thing asked for is the processor's view of the method.
pub fn store_payment_method_after_setup(
    customer_id: String,
    payment_method_id: String,
    user_id: String,
    is_default: Option<bool>,
) -> (r: (RegisterFlow, Action<PaymentMethod>))
    ensures
        r.0 == (RegisterFlow {
            request: Registration { customer_id, payment_method_id, user_id, is_default },
            stage: RegisterStage::AwaitMethod,
        }),
        r.1 == Action::<PaymentMethod>::Processor(
            ProcessorCall::RetrievePaymentMethod { payment_method_id },
        ),
{
    let call = ProcessorCall::RetrievePaymentMethod {
        payment_method_id: payment_method_id.clone(),
    };
    (
        RegisterFlow {
            request: Registration { customer_id, payment_method_id, user_id, is_default },
            stage: RegisterStage::AwaitMethod,
        },
        Action::Processor(call),
    )
}

fn stop(request: Registration, failure: Failure) -> (r: (RegisterFlow, Action<PaymentMethod>))
    ensures
        r.0 == (RegisterFlow { request, stage: RegisterStage::Finished }),
        r.1 == Action::<PaymentMethod>::Finish(Err(failure)),
{
    (RegisterFlow { request, stage: RegisterStage::Finished }, Action::Finish(Err(failure)))
}

fn list_existing(request: Registration, card: Option<CardDetails>) -> (r: (
    RegisterFlow,
    Action<PaymentMethod>,
))
    ensures
        r.0.request == request,
        lists_existing(request, card, r.0, r.1),
{
    let op = StoreOp::ListPaymentMethods { user_id: request.user_id.clone(), ordered: true };
    (RegisterFlow { request, stage: RegisterStage::AwaitExisting { card } }, Action::Store(op))
}

fn persist(request: Registration, card: Option<CardDetails>, make_default: bool) -> (r: (
    RegisterFlow,
    Action<PaymentMethod>,
))
    ensures
        r.0.request == request,
        persists(request, card, make_default, r.0, r.1),
{
    match card {
        None => stop(request, Failure::rule(ErrorKind::ProcessorLookupError, Step::ReadCard)),
        Some(details) => {
            let op = StoreOp::InsertPaymentMethod {
                user_id: request.user_id.clone(),
                customer_id: request.customer_id.clone(),
                payment_method_id: request.payment_method_id.clone(),
                card_brand: to_lowercase(details.brand.as_str()),
                card_last4: details.last4,
                card_exp_month: #[verifier::truncate]
                (details.exp_month as i32),
                card_exp_year: #[verifier::truncate]
                (details.exp_year as i32),
                is_default: make_default,
            };
            (RegisterFlow { request, stage: RegisterStage::AwaitInsert }, Action::Store(op))
        },
    }
}

impl RegisterFlow {
    /// Takes the outcome of the action last asked for and says what comes
    /// next.
    pub fn advance(self, event: Event) -> (r: (RegisterFlow, Action<PaymentMethod>))
        ensures
            register_step(self, event, r.0, r.1),
    {
        let RegisterFlow { request, stage } = self;
        match stage {
            RegisterStage::AwaitMethod => match event {
                Event::Processor(ProcessorReply::Method(method)) => match method.customer {
                    Some(_) => list_existing(request, method.card),
                    None => {
                        let call = ProcessorCall::AttachPaymentMethod {
                            payment_method_id: request.payment_method_id.clone(),
                            customer_id: request.customer_id.clone(),
                        };
                        (
                            RegisterFlow {
                                request,
                                stage: RegisterStage::AwaitAttach { card: method.card },
                            },
                            Action::Processor(call),
                        )
                    },
                },
                Event::Processor(ProcessorReply::Rejected { detail }) => stop(
                    request,
                    Failure::reported(
                        ErrorKind::ProcessorLookupError,
                        Step::RetrievePaymentMethod,
                        detail,
                    ),
                ),
                _ => stop(request, Failure::rule(ErrorKind::UnexpectedEvent, Step::Protocol)),
            },
            RegisterStage::AwaitAttach { card } => match event {
                Event::Processor(ProcessorReply::Done) => list_existing(request, card),
                Event::Processor(ProcessorReply::Rejected { detail }) => {
                    if is_permanently_unusable(detail.as_str()) {
                        let op = StoreOp::DeletePaymentMethod {
                            payment_method_id: request.payment_method_id.clone(),
                            user_id: request.user_id.clone(),
                        };
                        (
                            RegisterFlow { request, stage: RegisterStage::AwaitCleanup },
                            Action::Store(op),
                        )
                    } else {
                        stop(
                            request,
                            Failure::reported(
                                ErrorKind::ProcessorOperationError,
                                Step::AttachPaymentMethod,
                                detail,
                            ),
                        )
                    }
                },
                _ => stop(request, Failure::rule(ErrorKind::UnexpectedEvent, Step::Protocol)),
            },
            RegisterStage::AwaitCleanup => match event {
                Event::Store(_) => stop(
                    request,
                    Failure::rule(ErrorKind::PermanentlyUnusable, Step::AttachPaymentMethod),
                ),
                _ => stop(request, Failure::rule(ErrorKind::UnexpectedEvent, Step::Protocol)),
            },
            RegisterStage::AwaitExisting { card } => match event {
                Event::Store(reply) => match read_methods(reply, Step::ListPaymentMethods) {
                    Ok(rows) => {
                        if resolve_default(request.is_default, &rows) {
                            let op = StoreOp::UnsetDefaultPaymentMethods {
                                user_id: request.user_id.clone(),
                            };
                            (
                                RegisterFlow { request, stage: RegisterStage::AwaitUnset { card } },
                                Action::Store(op),
                            )
                        } else {
                            persist(request, card, false)
                        }
                    },
                    Err(f) => stop(request, f),
                },
                _ => stop(request, Failure::rule(ErrorKind::UnexpectedEvent, Step::Protocol)),
            },
            RegisterStage::AwaitUnset { card } => match event {
                Event::Store(_) => {
                    let call = ProcessorCall::SetDefaultPaymentMethod {
                        customer_id: request.customer_id.clone(),
                        payment_method_id: request.payment_method_id.clone(),
                    };
                    (
                        RegisterFlow {
                            request,
                            stage: RegisterStage::AwaitProcessorDefault { card },
                        },
                        Action::Processor(call),
                    )
                },
                _ => stop(request, Failure::rule(ErrorKind::UnexpectedEvent, Step::Protocol)),
            },
            RegisterStage::AwaitProcessorDefault { card } => match event {
                Event::Processor(ProcessorReply::Done) => persist(request, card, true),
                Event::Processor(ProcessorReply::Rejected { detail }) => stop(
                    request,
                    Failure::reported(
                        ErrorKind::ProcessorOperationError,
                        Step::SetProcessorDefault,
                        detail,
                    ),
                ),
                _ => stop(request, Failure::rule(ErrorKind::UnexpectedEvent, Step::Protocol)),
            },
            RegisterStage::AwaitInsert => match event {
                Event::Store(reply) => match first_stored_method(reply, Step::StorePaymentMethod) {
                    Ok(record) => {
                        let op = StoreOp::LinkCustomer {
                            user_id: request.user_id.clone(),
                            customer_id: request.customer_id.clone(),
                        };
                        (
                            RegisterFlow { request, stage: RegisterStage::AwaitLink { record } },
                            Action::Store(op),
                        )
                    },
                    Err(f) => stop(request, f),
                },
                _ => stop(request, Failure::rule(ErrorKind::UnexpectedEvent, Step::Protocol)),
            },
            RegisterStage::AwaitLink { record } => match event {
                Event::Store(reply) => match acknowledge(reply, Step::LinkCustomer) {
                    Ok(()) => (
                        RegisterFlow { request, stage: RegisterStage::Finished },
                        Action::Finish(Ok(record)),
                    ),
                    Err(f) => stop(request, f),
                },
                _ => stop(request, Failure::rule(ErrorKind::UnexpectedEvent, Step::Protocol)),
            },
            RegisterStage::Finished => stop(
                request,
                Failure::rule(ErrorKind::UnexpectedEvent, Step::Protocol),
            ),
        }
    }
}

/// Where the storing of a payment method stands.
#[derive(Debug, Clone, Copy, PartialEq, Eq, Structural)]
pub enum StoreMethodStage {
    /// Waiting for the list of the user's stored methods.
    AwaitExisting,
    /// Waiting for the old defaults to be cleared.
    AwaitUnset,
    /// Waiting for the stored row.
    AwaitInsert,
    Finished,
}

/// The storing of a payment method in progress; the processor is not
/// involved.
#[derive(Debug, Clone, PartialEq, Eq)]
pub struct StoreMethodFlow {
    pub request: CreatePaymentMethodRequest,
    pub stage: StoreMethodStage,
}

/// The operation that inserts the requested row with the resolved default flag.
pub open spec fn insert_op(request: CreatePaymentMethodRequest, make_default: bool) -> StoreOp {
    StoreOp::InsertPaymentMethod {
        user_id: request.user_id,
        customer_id: request.stripe_customer_id,
        payment_method_id: request.stripe_payment_method_id,
        card_brand: request.card_brand,
        card_last4: request.card_last4,
        card_exp_month: request.card_exp_month,
        card_exp_year: request.card_exp_year,
        is_default: make_default,
    }
}

/// One step of the storing of a payment method: the row becomes the default
/// when that was asked for or when it is the user's first; then the user's
/// other defaults are cleared first, best effort.
pub open spec fn store_method_step(
    flow: StoreMethodFlow,
    event: Event,
    next: StoreMethodFlow,
    action: Action<PaymentMethod>,
) -> bool {
    let request = flow.request;
    &&& next.request == request
    &&& match (flow.stage, event) {
        (StoreMethodStage::AwaitExisting, Event::Store(reply)) => match method_rows(reply) {
            Some(rows) => if should_be_default(request.is_default, rows@) {
                next.stage == StoreMethodStage::AwaitUnset && action == Action::<
                    PaymentMethod,
                >::Store(StoreOp::UnsetDefaultPaymentMethods { user_id: request.user_id })
            } else {
                next.stage == StoreMethodStage::AwaitInsert && action == Action::<
                    PaymentMethod,
                >::Store(insert_op(request, false))
            },
            None => next.stage == StoreMethodStage::Finished && (action matches Action::Finish(
                Err(f),
            ) && unusable(reply, Step::ListPaymentMethods, f)),
        },
        (StoreMethodStage::AwaitUnset, Event::Store(_)) => next.stage
            == StoreMethodStage::AwaitInsert && action == Action::<PaymentMethod>::Store(
            insert_op(request, true),
        ),
        (StoreMethodStage::AwaitInsert, Event::Store(reply)) => next.stage
            == StoreMethodStage::Finished && (action matches Action::Finish(outcome)
            && first_method(reply, Step::StorePaymentMethod, outcome)),
        _ => next.stage == StoreMethodStage::Finished && action.fails_with(
            ErrorKind::UnexpectedEvent,
            Step::Protocol,
            None,
            Seq::empty(),
        ),
    }
}

/// Starts storing a payment method: the first thing asked for is the list of
/// the methods the user has already.
pub fn store_payment_method(request: CreatePaymentMethodRequest) -> (r: (
    StoreMethodFlow,
    Action<PaymentMethod>,
))
    ensures
        r.0 == (StoreMethodFlow { request, stage: StoreMethodStage::AwaitExisting }),
        r.1 == Action::<PaymentMethod>::Store(
            StoreOp::ListPaymentMethods { user_id: request.user_id, ordered: true },
        ),
{
    let op = StoreOp::ListPaymentMethods { user_id: request.user_id.clone(), ordered: true };
    (StoreMethodFlow { request, stage: StoreMethodStage::AwaitExisting }, Action::Store(op))
}

fn insert_row(request: CreatePaymentMethodRequest, make_default: bool) -> (r: (
    StoreMethodFlow,
    Action<PaymentMethod>,
))
    ensures
        r.0 == (StoreMethodFlow { request, stage: StoreMethodStage::AwaitInsert }),
        r.1 == Action::<PaymentMethod>::Store(insert_op(request, make_default)),
{
    let op = StoreOp::InsertPaymentMethod {
        user_id: request.user_id.clone(),
        customer_id: request.stripe_customer_id.clone(),
        payment_method_id: request.stripe_payment_method_id.clone(),
        card_brand: request.card_brand.clone(),
        card_last4: request.card_last4.clone(),
        card_exp_month: request.card_exp_month,
        card_exp_year: request.card_exp_year,
        is_default: make_default,
    };
    (StoreMethodFlow { request, stage: StoreMethodStage::AwaitInsert }, Action::Store(op))
}

impl StoreMethodFlow {
    /// Takes the outcome of the action last asked for and says what comes
    /// next.
    pub fn advance(self, event: Event) -> (r: (StoreMethodFlow, Action<PaymentMethod>))
        ensures
            store_method_step(self, event, r.0, r.1),
    {
        let StoreMethodFlow { request, stage } = self;
        match (stage, event) {
            (StoreMethodStage::AwaitExisting, Event::Store(reply)) => {
                match read_methods(reply, Step::ListPaymentMethods) {
                    Ok(rows) => {
                        if resolve_default(request.is_default, &rows) {
                            let op = StoreOp::UnsetDefaultPaymentMethods {
                                user_id: request.user_id.clone(),
                            };
                            (
                                StoreMethodFlow { request, stage: StoreMethodStage::AwaitUnset },
                                Action::Store(op),
                            )
                        } else {
                            insert_row(request, false)
                        }
                    },
                    Err(f) => (
                        StoreMethodFlow { request, stage: StoreMethodStage::Finished },
                        Action::Finish(Err(f)),
                    ),
                }
            },
            (StoreMethodStage::AwaitUnset, Event::Store(_)) => insert_row(request, true),
            (StoreMethodStage::AwaitInsert, Event::Store(reply)) => {
                let outcome = first_stored_method(reply, Step::StorePaymentMethod);
                (
                    StoreMethodFlow { request, stage: StoreMethodStage::Finished },
                    Action::Finish(outcome),
                )
            },
            _ => (
                StoreMethodFlow { request, stage: StoreMethodStage::Finished },
                Action::Finish(Err(Failure::rule(ErrorKind::UnexpectedEvent, Step::Protocol))),
            ),
        }
    }
}

} // verus!
