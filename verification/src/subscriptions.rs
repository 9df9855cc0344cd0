//! Subscriptions: creating one on a payment method that is known to be
//! attached and default, cancelling at the end of the period, and refreshing
//! the local mirror of the processor's state.

use vstd::prelude::*;
use vstd::string::*;
use crate::failure::{ErrorKind, Failure, Step};
use crate::payment_methods::{attach_call, chosen, default_call, select_payment_method};
use crate::processor::{
    is_permanently_unusable, permanently_unusable, ProcessorCall, ProcessorReply,
    SubscriptionSnapshot,
};
use crate::records::SubscriptionResponse;
use crate::remote::{
    accepted, acknowledge, method_rows, profile_rows, read_methods, read_profiles, unusable, Action,
    Event, ProfileColumns, StoreOp, StoreReply,
};

verus! {

/// Price id reported for a subscription without items.
pub open spec fn unknown_item() -> Seq<char> {
    "unknown"@
}

/// Status written to the local mirror when a cancellation was requested,
/// whatever status the processor reports until the period ends.
pub open spec fn canceled_status() -> Seq<char> {
    "canceled"@
}

/// The subscription as reported to the caller: the processor's values, with
/// the price of the first item or `unknown_item()`.
pub open spec fn reports(snapshot: SubscriptionSnapshot, response: SubscriptionResponse) -> bool {
    &&& response.subscription_id == snapshot.id
    &&& response.customer_id == snapshot.customer
    &&& response.status == snapshot.status
    &&& response.current_period_end == snapshot.current_period_end
    &&& response.price_id@ == match snapshot.first_price {
        Some(p) => p@,
        None => unknown_item(),
    }
}

/// Turns the processor's subscription into the caller's view of it.
pub fn subscription_response(snapshot: SubscriptionSnapshot) -> (response: SubscriptionResponse)
    ensures
        reports(snapshot, response),
{
    let price_id = match snapshot.first_price {
        Some(p) => p,
        None => String::from_str("unknown"),
    };
    SubscriptionResponse {
        subscription_id: snapshot.id,
        customer_id: snapshot.customer,
        status: snapshot.status,
        current_period_end: snapshot.current_period_end,
        price_id,
    }
}

/// The outcome of asking the processor for a subscription's status.
pub open spec fn status_outcome(
    reply: ProcessorReply,
    outcome: Result<SubscriptionResponse, Failure>,
) -> bool {
    match reply {
        ProcessorReply::Subscription(snapshot) => outcome matches Ok(response) && reports(
            snapshot,
            response,
        ),
        ProcessorReply::Rejected { detail } => outcome matches Err(f) && f.is(
            ErrorKind::ProcessorLookupError,
            Step::RetrieveSubscription,
            None,
            detail@,
        ),
        _ => outcome matches Err(f) && f.is(
            ErrorKind::UnexpectedEvent,
            Step::Protocol,
            None,
            Seq::empty(),
        ),
    }
}

/// The call that fetches a subscription's current state.
pub fn get_subscription_status(subscription_id: String) -> (call: ProcessorCall)
    ensures
        call == (ProcessorCall::RetrieveSubscription { subscription_id }),
{
    ProcessorCall::RetrieveSubscription { subscription_id }
}

/// Reads the answer to `get_subscription_status`.
pub fn subscription_status_reply(reply: ProcessorReply) -> (outcome: Result<
    SubscriptionResponse,
    Failure,
>)
    ensures
        status_outcome(reply, outcome),
{
    match reply {
        ProcessorReply::Subscription(snapshot) => Ok(subscription_response(snapshot)),
        ProcessorReply::Rejected { detail } => Err(
            Failure::reported(ErrorKind::ProcessorLookupError, Step::RetrieveSubscription, detail),
        ),
        _ => Err(Failure::rule(ErrorKind::UnexpectedEvent, Step::Protocol)),
    }
}

/// Where the creation of a subscription stands.
#[derive(Debug, Clone, PartialEq, Eq)]
pub enum SubscribeStage {
    /// Waiting for the user's profile.
    AwaitProfile,
    /// Waiting for the user's stored payment methods.
    AwaitMethods { customer_id: String },
    /// Waiting for the processor's view of the chosen method.
    AwaitMethod { customer_id: String, payment_method_id: String },
    /// Waiting for the chosen method to be attached to the customer.
    AwaitAttach { customer_id: String, payment_method_id: String },
    /// Waiting for the local record of a method that can never be attached
    /// again to be deleted.
    AwaitCleanup,
    /// Waiting for the processor to take the method as the customer's default.
    AwaitDefault { customer_id: String, payment_method_id: String },
    /// Waiting for the new subscription.
    AwaitSubscription { customer_id: String },
    /// Waiting for the mirror on the profile to be written.
    AwaitMirror { response: SubscriptionResponse },
    Finished,
}

/// The creation of a subscription in progress.
#[derive(Debug, Clone, PartialEq, Eq)]
pub struct SubscribeFlow {
    pub user_id: String,
    pub price_id: String,
    pub stage: SubscribeStage,
}

/// Position of a stage in the order in which a creation passes through them.
pub open spec fn subscribe_rank(stage: SubscribeStage) -> nat {
    match stage {
        SubscribeStage::AwaitProfile => 0,
        SubscribeStage::AwaitMethods { .. } => 1,
        SubscribeStage::AwaitMethod { .. } => 2,
        SubscribeStage::AwaitAttach { .. } => 3,
        SubscribeStage::AwaitCleanup => 4,
        SubscribeStage::AwaitDefault { .. } => 5,
        SubscribeStage::AwaitSubscription { .. } => 6,
        SubscribeStage::AwaitMirror { .. } => 7,
        SubscribeStage::Finished => 8,
    }
}

/// The creation has ended with this failure.
pub open spec fn subscribe_fails(
    next: SubscribeFlow,
    action: Action<SubscriptionResponse>,
    kind: ErrorKind,
    step: Step,
    detail: Seq<char>,
) -> bool {
    next.stage == SubscribeStage::Finished && action.fails_with(kind, step, None, detail)
}

/// The creation has ended with the failure that stands for an unusable reply.
pub open spec fn subscribe_refused(
    next: SubscribeFlow,
    action: Action<SubscriptionResponse>,
    reply: StoreReply,
    step: Step,
) -> bool {
    next.stage == SubscribeStage::Finished && (action matches Action::Finish(Err(f)) && unusable(
        reply,
        step,
        f,
    ))
}

/// The creation goes on to make the method the customer's default.
pub open spec fn sets_default(
    customer_id: String,
    payment_method_id: String,
    next: SubscribeFlow,
    action: Action<SubscriptionResponse>,
) -> bool {
    &&& next.stage == (SubscribeStage::AwaitDefault { customer_id, payment_method_id })
    &&& action == Action::<SubscriptionResponse>::Processor(
        default_call(customer_id, payment_method_id),
    )
}

/// What follows the user's profile.
pub open spec fn profile_step(
    flow: SubscribeFlow,
    reply: StoreReply,
    next: SubscribeFlow,
    action: Action<SubscriptionResponse>,
) -> bool {
    match profile_rows(reply) {
        Some(rows) => if rows@.len() == 0 {
            subscribe_fails(next, action, ErrorKind::NotFound, Step::LoadProfile, Seq::empty())
        } else {
            match rows@[0].stripe_customer_id {
                Some(customer_id) => next.stage == (SubscribeStage::AwaitMethods { customer_id })
                    && action == Action::<SubscriptionResponse>::Store(
                    StoreOp::ListPaymentMethods { user_id: flow.user_id, ordered: false },
                ),
                None => subscribe_fails(
                    next,
                    action,
                    ErrorKind::NoCustomer,
                    Step::LoadProfile,
                    Seq::empty(),
                ),
            }
        },
        None => subscribe_refused(next, action, reply, Step::LoadProfile),
    }
}

/// What follows the user's stored payment methods: without any the creation
/// fails with `NoPaymentMethod`; else the default method, or the first where
/// none is the default, is looked up at the processor.
pub open spec fn methods_step(
    customer_id: String,
    reply: StoreReply,
    next: SubscribeFlow,
    action: Action<SubscriptionResponse>,
) -> bool {
    match method_rows(reply) {
        Some(rows) => if rows@.len() == 0 {
            subscribe_fails(
                next,
                action,
                ErrorKind::NoPaymentMethod,
                Step::ListPaymentMethods,
                Seq::empty(),
            )
        } else {
            exists|i: int|
                {
                    &&& #[trigger] chosen(rows@, i)
                    &&& next.stage == (SubscribeStage::AwaitMethod {
                        customer_id,
                        payment_method_id: rows@[i].stripe_payment_method_id,
                    })
                    &&& action == Action::<SubscriptionResponse>::Processor(
                        ProcessorCall::RetrievePaymentMethod {
                            payment_method_id: rows@[i].stripe_payment_method_id,
                        },
                    )
                }
        },
        None => subscribe_refused(next, action, reply, Step::ListPaymentMethods),
    }
}

/// One step of the creation of a subscription.
///
/// The user must have a customer reference and at least one stored payment
/// method. The chosen method is attached where the processor reports it
/// unattached, and made the customer's default, right before the
/// subscription is created with it. A method that the processor declares
/// permanently unusable has its local record deleted, and the creation fails
/// with `PermanentlyUnusable`. The processor's status and period end
/// are then written to the profile; if that write fails the creation reports
/// the failure, and the subscription exists at the processor all the same.
pub open spec fn subscribe_step(
    flow: SubscribeFlow,
    event: Event,
    next: SubscribeFlow,
    action: Action<SubscriptionResponse>,
) -> bool {
    &&& next.user_id == flow.user_id
    &&& next.price_id == flow.price_id
    &&& match flow.stage {
        SubscribeStage::AwaitProfile => match event {
            Event::Store(reply) => profile_step(flow, reply, next, action),
            _ => subscribe_fails(
                next,
                action,
                ErrorKind::UnexpectedEvent,
                Step::Protocol,
                Seq::empty(),
            ),
        },
        SubscribeStage::AwaitMethods { customer_id } => match event {
            Event::Store(reply) => methods_step(customer_id, reply, next, action),
            _ => subscribe_fails(
                next,
                action,
                ErrorKind::UnexpectedEvent,
                Step::Protocol,
                Seq::empty(),
            ),
        },
        SubscribeStage::AwaitMethod { customer_id, payment_method_id } => match event {
            Event::Processor(ProcessorReply::Method(method)) => match method.customer {
                Some(_) => sets_default(customer_id, payment_method_id, next, action),
                None => next.stage == (SubscribeStage::AwaitAttach {
                    customer_id,
                    payment_method_id,
                }) && action == Action::<SubscriptionResponse>::Processor(
                    attach_call(customer_id, payment_method_id),
                ),
            },
            Event::Processor(ProcessorReply::Rejected { detail }) => subscribe_fails(
                next,
                action,
                ErrorKind::ProcessorLookupError,
                Step::RetrievePaymentMethod,
                detail@,
            ),
            _ => subscribe_fails(
                next,
                action,
                ErrorKind::UnexpectedEvent,
                Step::Protocol,
                Seq::empty(),
            ),
        },
        SubscribeStage::AwaitAttach { customer_id, payment_method_id } => match event {
            Event::Processor(ProcessorReply::Done) => sets_default(
                customer_id,
                payment_method_id,
                next,
                action,
            ),
            Event::Processor(ProcessorReply::Rejected { detail }) => if permanently_unusable(
                detail@,
            ) {
                next.stage == SubscribeStage::AwaitCleanup && action == Action::<
                    SubscriptionResponse,
                >::Store(StoreOp::DeletePaymentMethod { payment_method_id, user_id: flow.user_id })
            } else {
                subscribe_fails(
                    next,
                    action,
                    ErrorKind::ProcessorOperationError,
                    Step::AttachPaymentMethod,
                    detail@,
                )
            },
            _ => subscribe_fails(
                next,
                action,
                ErrorKind::UnexpectedEvent,
                Step::Protocol,
                Seq::empty(),
            ),
        },
        SubscribeStage::AwaitCleanup => match event {
            Event::Store(_) => subscribe_fails(
                next,
                action,
                ErrorKind::PermanentlyUnusable,
                Step::AttachPaymentMethod,
                Seq::empty(),
            ),
            _ => subscribe_fails(
                next,
                action,
                ErrorKind::UnexpectedEvent,
                Step::Protocol,
                Seq::empty(),
            ),
        },
        SubscribeStage::AwaitDefault { customer_id, payment_method_id } => match event {
            Event::Processor(ProcessorReply::Done) => next.stage
                == (SubscribeStage::AwaitSubscription { customer_id }) && action == Action::<
                SubscriptionResponse,
            >::Processor(
                ProcessorCall::CreateSubscription {
                    customer_id,
                    price_id: flow.price_id,
                    payment_method_id,
                    user_id: flow.user_id,
                },
            ),
            Event::Processor(ProcessorReply::Rejected { detail }) => subscribe_fails(
                next,
                action,
                ErrorKind::ProcessorOperationError,
                Step::SetProcessorDefault,
                detail@,
            ),
            _ => subscribe_fails(
                next,
                action,
                ErrorKind::UnexpectedEvent,
                Step::Protocol,
                Seq::empty(),
            ),
        },
        SubscribeStage::AwaitSubscription { customer_id } => match event {
            Event::Processor(ProcessorReply::Subscription(snapshot)) => {
                &&& next.stage == (SubscribeStage::AwaitMirror {
                    response: SubscriptionResponse {
                        subscription_id: snapshot.id,
                        customer_id,
                        status: snapshot.status,
                        current_period_end: snapshot.current_period_end,
                        price_id: flow.price_id,
                    },
                })
                &&& action == Action::<SubscriptionResponse>::Store(
                    StoreOp::MirrorSubscription {
                        user_id: flow.user_id,
                        customer_id,
                        subscription_id: snapshot.id,
                        status: snapshot.status,
                        period_end: snapshot.current_period_end,
                    },
                )
            },
            Event::Processor(ProcessorReply::Rejected { detail }) => subscribe_fails(
                next,
                action,
                ErrorKind::ProcessorOperationError,
                Step::CreateSubscription,
                detail@,
            ),
            _ => subscribe_fails(
                next,
                action,
                ErrorKind::UnexpectedEvent,
                Step::Protocol,
                Seq::empty(),
            ),
        },
        SubscribeStage::AwaitMirror { response } => match event {
            Event::Store(reply) => if accepted(reply) {
                next.stage == SubscribeStage::Finished && action == Action::<
                    SubscriptionResponse,
                >::Finish(Ok(response))
            } else {
                subscribe_refused(next, action, reply, Step::MirrorSubscription)
            },
            _ => subscribe_fails(
                next,
                action,
                ErrorKind::UnexpectedEvent,
                Step::Protocol,
                Seq::empty(),
            ),
        },
        SubscribeStage::Finished => subscribe_fails(
            next,
            action,
            ErrorKind::UnexpectedEvent,
            Step::Protocol,
            Seq::empty(),
        ),
    }
}

/// Starts creating a subscription: the first thing asked for is the user's
/// profile, which holds the customer reference.
pub fn create_subscription(user_id: String, price_id: String) -> (r: (
    SubscribeFlow,
    Action<SubscriptionResponse>,
))
    ensures
        r.0 == (SubscribeFlow { user_id, price_id, stage: SubscribeStage::AwaitProfile }),
        r.1 == Action::<SubscriptionResponse>::Store(
            StoreOp::FetchProfile { user_id, columns: ProfileColumns::Unspecified },
        ),
{
    let op = StoreOp::FetchProfile {
        user_id: user_id.clone(),
        columns: ProfileColumns::Unspecified,
    };
    (SubscribeFlow { user_id, price_id, stage: SubscribeStage::AwaitProfile }, Action::Store(op))
}

impl SubscribeFlow {
    fn at(self, stage: SubscribeStage) -> (r: SubscribeFlow)
        ensures
            r == (SubscribeFlow { user_id: self.user_id, price_id: self.price_id, stage }),
    {
        SubscribeFlow { user_id: self.user_id, price_id: self.price_id, stage }
    }

    fn stop(self, failure: Failure) -> (r: (SubscribeFlow, Action<SubscriptionResponse>))
        ensures
            r.0 == (SubscribeFlow {
                user_id: self.user_id,
                price_id: self.price_id,
                stage: SubscribeStage::Finished,
            }),
            r.1 == Action::<SubscriptionResponse>::Finish(Err(failure)),
    {
        (self.at(SubscribeStage::Finished), Action::Finish(Err(failure)))
    }

    fn set_default(self, customer_id: String, payment_method_id: String) -> (r: (
        SubscribeFlow,
        Action<SubscriptionResponse>,
    ))
        ensures
            r.0.user_id == self.user_id,
            r.0.price_id == self.price_id,
            sets_default(customer_id, payment_method_id, r.0, r.1),
    {
        let call = ProcessorCall::SetDefaultPaymentMethod {
            customer_id: customer_id.clone(),
            payment_method_id: payment_method_id.clone(),
        };
        (
            self.at(SubscribeStage::AwaitDefault { customer_id, payment_method_id }),
            Action::Processor(call),
        )
    }

    /// Continues with the user's profile.
    fn on_profile(self, reply: StoreReply) -> (r: (SubscribeFlow, Action<SubscriptionResponse>))
        ensures
            r.0.user_id == self.user_id,
            r.0.price_id == self.price_id,
            profile_step(self, reply, r.0, r.1),
    {
        match read_profiles(reply, Step::LoadProfile) {
            Ok(mut rows) => {
                if rows.len() == 0 {
                    self.stop(Failure::rule(ErrorKind::NotFound, Step::LoadProfile))
                } else {
                    let profile = rows.remove(0);
                    match profile.stripe_customer_id {
                        Some(customer_id) => {
                            let op = StoreOp::ListPaymentMethods {
                                user_id: self.user_id.clone(),
                                ordered: false,
                            };
                            (
                                self.at(SubscribeStage::AwaitMethods { customer_id }),
                                Action::Store(op),
                            )
                        },
                        None => self.stop(Failure::rule(ErrorKind::NoCustomer, Step::LoadProfile)),
                    }
                }
            },
            Err(f) => self.stop(f),
        }
    }

    /// Continues with the user's stored payment methods.
    fn on_methods(self, customer_id: String, reply: StoreReply) -> (r: (
        SubscribeFlow,
        Action<SubscriptionResponse>,
    ))
        ensures
            r.0.user_id == self.user_id,
            r.0.price_id == self.price_id,
            methods_step(customer_id, reply, r.0, r.1),
    {
        match read_methods(reply, Step::ListPaymentMethods) {
            Ok(mut rows) => match select_payment_method(&rows) {
                None => self.stop(
                    Failure::rule(ErrorKind::NoPaymentMethod, Step::ListPaymentMethods),
                ),
                Some(i) => {
                    let ghost all = rows@;
                    let row = rows.swap_remove(i);
                    let payment_method_id = row.stripe_payment_method_id;
                    let call = ProcessorCall::RetrievePaymentMethod {
                        payment_method_id: payment_method_id.clone(),
                    };
                    let r = (
                        self.at(SubscribeStage::AwaitMethod { customer_id, payment_method_id }),
                        Action::Processor(call),
                    );
                    assert(chosen(all, i as int));
                    r
                },
            },
            Err(f) => self.stop(f),
        }
    }

    /// Takes the outcome of the action last asked for and says what comes
    /// next.
    pub fn advance(self, event: Event) -> (r: (SubscribeFlow, Action<SubscriptionResponse>))
        ensures
            subscribe_step(self, event, r.0, r.1),
    {
        let SubscribeFlow { user_id, price_id, stage } = self;
        let base = SubscribeFlow { user_id, price_id, stage: SubscribeStage::AwaitProfile };
        match stage {
            SubscribeStage::AwaitProfile => match event {
                Event::Store(reply) => base.on_profile(reply),
                _ => base.stop(Failure::rule(ErrorKind::UnexpectedEvent, Step::Protocol)),
            },
            SubscribeStage::AwaitMethods { customer_id } => match event {
                Event::Store(reply) => base.on_methods(customer_id, reply),
                _ => base.stop(Failure::rule(ErrorKind::UnexpectedEvent, Step::Protocol)),
            },
            SubscribeStage::AwaitMethod { customer_id, payment_method_id } => match event {
                Event::Processor(ProcessorReply::Method(method)) => match method.customer {
                    Some(_) => base.set_default(customer_id, payment_method_id),
                    None => {
                        let call = ProcessorCall::AttachPaymentMethod {
                            payment_method_id: payment_method_id.clone(),
                            customer_id: customer_id.clone(),
                        };
                        (
                            base.at(SubscribeStage::AwaitAttach { customer_id, payment_method_id }),
                            Action::Processor(call),
                        )
                    },
                },
                Event::Processor(ProcessorReply::Rejected { detail }) => base.stop(
                    Failure::reported(
                        ErrorKind::ProcessorLookupError,
                        Step::RetrievePaymentMethod,
                        detail,
                    ),
                ),
                _ => base.stop(Failure::rule(ErrorKind::UnexpectedEvent, Step::Protocol)),
            },
            SubscribeStage::AwaitAttach { customer_id, payment_method_id } => match event {
                Event::Processor(ProcessorReply::Done) => base.set_default(
                    customer_id,
                    payment_method_id,
                ),
                Event::Processor(ProcessorReply::Rejected { detail }) => {
                    if is_permanently_unusable(detail.as_str()) {
                        let op = StoreOp::DeletePaymentMethod {
                            payment_method_id,
                            user_id: base.user_id.clone(),
                        };
                        (base.at(SubscribeStage::AwaitCleanup), Action::Store(op))
                    } else {
                        base.stop(
                            Failure::reported(
                                ErrorKind::ProcessorOperationError,
                                Step::AttachPaymentMethod,
                                detail,
                            ),
                        )
                    }
                },
                _ => base.stop(Failure::rule(ErrorKind::UnexpectedEvent, Step::Protocol)),
            },
            SubscribeStage::AwaitCleanup => match event {
                Event::Store(_) => base.stop(
                    Failure::rule(ErrorKind::PermanentlyUnusable, Step::AttachPaymentMethod),
                ),
                _ => base.stop(Failure::rule(ErrorKind::UnexpectedEvent, Step::Protocol)),
            },
            SubscribeStage::AwaitDefault { customer_id, payment_method_id } => match event {
                Event::Processor(ProcessorReply::Done) => {
                    let call = ProcessorCall::CreateSubscription {
                        customer_id: customer_id.clone(),
                        price_id: base.price_id.clone(),
                        payment_method_id,
                        user_id: base.user_id.clone(),
                    };
                    (
                        base.at(SubscribeStage::AwaitSubscription { customer_id }),
                        Action::Processor(call),
                    )
                },
                Event::Processor(ProcessorReply::Rejected { detail }) => base.stop(
                    Failure::reported(
                        ErrorKind::ProcessorOperationError,
                        Step::SetProcessorDefault,
                        detail,
                    ),
                ),
                _ => base.stop(Failure::rule(ErrorKind::UnexpectedEvent, Step::Protocol)),
            },
            SubscribeStage::AwaitSubscription { customer_id } => match event {
                Event::Processor(ProcessorReply::Subscription(snapshot)) => {
                    let op = StoreOp::MirrorSubscription {
                        user_id: base.user_id.clone(),
                        customer_id: customer_id.clone(),
                        subscription_id: snapshot.id.clone(),
                        status: snapshot.status.clone(),
                        period_end: snapshot.current_period_end,
                    };
                    let response = SubscriptionResponse {
                        subscription_id: snapshot.id,
                        customer_id,
                        status: snapshot.status,
                        current_period_end: snapshot.current_period_end,
                        price_id: base.price_id.clone(),
                    };
                    (base.at(SubscribeStage::AwaitMirror { response }), Action::Store(op))
                },
                Event::Processor(ProcessorReply::Rejected { detail }) => base.stop(
                    Failure::reported(
                        ErrorKind::ProcessorOperationError,
                        Step::CreateSubscription,
                        detail,
                    ),
                ),
                _ => base.stop(Failure::rule(ErrorKind::UnexpectedEvent, Step::Protocol)),
            },
            SubscribeStage::AwaitMirror { response } => match event {
                Event::Store(reply) => match acknowledge(reply, Step::MirrorSubscription) {
                    Ok(()) => (base.at(SubscribeStage::Finished), Action::Finish(Ok(response))),
                    Err(f) => base.stop(f),
                },
                _ => base.stop(Failure::rule(ErrorKind::UnexpectedEvent, Step::Protocol)),
            },
            SubscribeStage::Finished => base.stop(
                Failure::rule(ErrorKind::UnexpectedEvent, Step::Protocol),
            ),
        }
    }
}

/// The creation of a subscription from its start: each step takes the flow
/// and the event at one position to the flow at the next, and emits the
/// action there.
pub open spec fn subscribe_run(
    flows: Seq<SubscribeFlow>,
    events: Seq<Event>,
    actions: Seq<Action<SubscriptionResponse>>,
) -> bool {
    &&& flows.len() == events.len() + 1
    &&& actions.len() == events.len()
    &&& flows[0].stage == SubscribeStage::AwaitProfile
    &&& forall|i: int|
        #![trigger events[i]]
        0 <= i < events.len() ==> subscribe_step(flows[i], events[i], flows[i + 1], actions[i])
}

/// The event reports stored payment methods, and at least one of them.
pub open spec fn reports_methods(event: Event) -> bool {
    event matches Event::Store(reply) && (method_rows(reply) matches Some(rows) && rows@.len() > 0)
}

/// The action asks the processor to create a subscription.
pub open spec fn creates_subscription(action: Action<SubscriptionResponse>) -> bool {
    action matches Action::Processor(ProcessorCall::CreateSubscription { .. })
}

/// Subscription precondition, in one step: when the list of the user's
/// stored payment methods comes back empty, the creation ends at once with
/// `NoPaymentMethod`.
pub proof fn no_methods_fails(
    flow: SubscribeFlow,
    event: Event,
    next: SubscribeFlow,
    action: Action<SubscriptionResponse>,
)
    requires
        flow.stage is AwaitMethods,
        event matches Event::Store(reply) && (method_rows(reply) matches Some(rows) && rows@.len()
            == 0),
        subscribe_step(flow, event, next, action),
    ensures
        next.stage == SubscribeStage::Finished,
        action.fails_with(
            ErrorKind::NoPaymentMethod,
            Step::ListPaymentMethods,
            None,
            Seq::empty(),
        ),
{
}

proof fn stays_before_methods(
    flows: Seq<SubscribeFlow>,
    events: Seq<Event>,
    actions: Seq<Action<SubscriptionResponse>>,
    j: int,
)
    requires
        subscribe_run(flows, events, actions),
        forall|i: int| 0 <= i < events.len() ==> !reports_methods(#[trigger] events[i]),
        0 <= j <= events.len(),
    ensures
        subscribe_rank(flows[j].stage) <= 1 || flows[j].stage == SubscribeStage::Finished,
        j > 0 ==> !creates_subscription(actions[j - 1]),
    decreases j,
{
    if j > 0 {
        stays_before_methods(flows, events, actions, j - 1);
        let _ = events[j - 1];
        assert(subscribe_step(flows[j - 1], events[j - 1], flows[j], actions[j - 1]));
        assert(!reports_methods(events[j - 1]));
    }
}

/// Subscription precondition, over a whole creation: for a user without
/// stored payment methods, that is when no answer ever lists one, the
/// processor is never asked to create a subscription.
pub proof fn no_subscription_without_methods(
    flows: Seq<SubscribeFlow>,
    events: Seq<Event>,
    actions: Seq<Action<SubscriptionResponse>>,
    j: int,
)
    requires
        subscribe_run(flows, events, actions),
        forall|i: int| 0 <= i < events.len() ==> !reports_methods(#[trigger] events[i]),
        0 <= j < events.len(),
    ensures
        !creates_subscription(actions[j]),
{
    stays_before_methods(flows, events, actions, j + 1);
}

/// Every step takes a creation to a later stage, until it is finished; so
/// each action is asked for at most once.
pub proof fn creation_moves_forward(
    flow: SubscribeFlow,
    event: Event,
    next: SubscribeFlow,
    action: Action<SubscriptionResponse>,
)
    requires
        subscribe_step(flow, event, next, action),
    ensures
        flow.stage == SubscribeStage::Finished ==> next.stage == SubscribeStage::Finished,
        flow.stage != SubscribeStage::Finished ==> subscribe_rank(next.stage) > subscribe_rank(
            flow.stage,
        ),
{
}

/// What a refresh or a cancellation is for.
#[derive(Debug, Clone, Copy, PartialEq, Eq, Structural)]
pub enum MirrorPurpose {
    /// The mirror takes the processor's status as it is.
    Sync,
    /// The mirror takes `canceled_status()`.
    Cancel,
}

/// Where a refresh or a cancellation stands.
#[derive(Debug, Clone, PartialEq, Eq)]
pub enum MirrorStage {
    /// Waiting for the processor's subscription.
    AwaitSubscription,
    /// Waiting for the mirror on the profile to be written.
    AwaitMirror { response: SubscriptionResponse },
    Finished,
}

/// A refresh of the local mirror, or a cancellation, in progress.
#[derive(Debug, Clone, PartialEq, Eq)]
pub struct MirrorFlow {
    pub user_id: String,
    pub subscription_id: String,
    pub purpose: MirrorPurpose,
    pub stage: MirrorStage,
}

/// The mirror write that follows the processor's subscription, and the
/// response kept for the caller.
pub open spec fn mirrors(
    flow: MirrorFlow,
    snapshot: SubscriptionSnapshot,
    next: MirrorFlow,
    action: Action<SubscriptionResponse>,
) -> bool {
    &&& next.stage matches MirrorStage::AwaitMirror { response }
    &&& reports(snapshot, response)
    &&& action matches Action::Store(
        StoreOp::MirrorSubscription { user_id, customer_id, subscription_id, status, period_end },
    )
    &&& user_id == flow.user_id
    &&& customer_id == snapshot.customer
    &&& period_end == snapshot.current_period_end
    &&& match flow.purpose {
        MirrorPurpose::Sync => subscription_id == snapshot.id && status == snapshot.status,
        MirrorPurpose::Cancel => subscription_id == flow.subscription_id && status@
            == canceled_status(),
    }
}

/// One step of a refresh or a cancellation.
///
/// The processor is the authority: its answer is written over the local
/// mirror. After a cancellation request the mirror says `canceled_status()`
/// at once, though the subscription runs until the period ends.
pub open spec fn mirror_step(
    flow: MirrorFlow,
    event: Event,
    next: MirrorFlow,
    action: Action<SubscriptionResponse>,
) -> bool {
    &&& next.user_id == flow.user_id
    &&& next.subscription_id == flow.subscription_id
    &&& next.purpose == flow.purpose
    &&& match flow.stage {
        MirrorStage::AwaitSubscription => match event {
            Event::Processor(ProcessorReply::Subscription(snapshot)) => mirrors(
                flow,
                snapshot,
                next,
                action,
            ),
            Event::Processor(ProcessorReply::Rejected { detail }) => next.stage
                == MirrorStage::Finished && action.fails_with(
                match flow.purpose {
                    MirrorPurpose::Sync => ErrorKind::ProcessorLookupError,
                    MirrorPurpose::Cancel => ErrorKind::ProcessorOperationError,
                },
                match flow.purpose {
                    MirrorPurpose::Sync => Step::RetrieveSubscription,
                    MirrorPurpose::Cancel => Step::CancelSubscription,
                },
                None,
                detail@,
            ),
            _ => next.stage == MirrorStage::Finished && action.fails_with(
                ErrorKind::UnexpectedEvent,
                Step::Protocol,
                None,
                Seq::empty(),
            ),
        },
        MirrorStage::AwaitMirror { response } => match event {
            Event::Store(reply) => next.stage == MirrorStage::Finished && if accepted(reply) {
                action == Action::<SubscriptionResponse>::Finish(Ok(response))
            } else {
                action matches Action::Finish(Err(f)) && unusable(
                    reply,
                    Step::MirrorSubscription,
                    f,
                )
            },
            _ => next.stage == MirrorStage::Finished && action.fails_with(
                ErrorKind::UnexpectedEvent,
                Step::Protocol,
                None,
                Seq::empty(),
            ),
        },
        MirrorStage::Finished => next.stage == MirrorStage::Finished && action.fails_with(
            ErrorKind::UnexpectedEvent,
            Step::Protocol,
            None,
            Seq::empty(),
        ),
    }
}

/// Starts cancelling a subscription at the end of its period.
pub fn cancel_subscription(subscription_id: String, user_id: String) -> (r: (
    MirrorFlow,
    Action<SubscriptionResponse>,
))
    ensures
        r.0 == (MirrorFlow {
            user_id,
            subscription_id,
            purpose: MirrorPurpose::Cancel,
            stage: MirrorStage::AwaitSubscription,
        }),
        r.1 == Action::<SubscriptionResponse>::Processor(
            ProcessorCall::CancelAtPeriodEnd { subscription_id },
        ),
{
    let call = ProcessorCall::CancelAtPeriodEnd { subscription_id: subscription_id.clone() };
    (
        MirrorFlow {
            user_id,
            subscription_id,
            purpose: MirrorPurpose::Cancel,
            stage: MirrorStage::AwaitSubscription,
        },
        Action::Processor(call),
    )
}

/// Starts refreshing the local mirror of a subscription from the processor.
pub fn sync_subscription_status(user_id: String, subscription_id: String) -> (r: (
    MirrorFlow,
    Action<SubscriptionResponse>,
))
    ensures
        r.0 == (MirrorFlow {
            user_id,
            subscription_id,
            purpose: MirrorPurpose::Sync,
            stage: MirrorStage::AwaitSubscription,
        }),
        r.1 == Action::<SubscriptionResponse>::Processor(
            ProcessorCall::RetrieveSubscription { subscription_id },
        ),
{
    let call = ProcessorCall::RetrieveSubscription { subscription_id: subscription_id.clone() };
    (
        MirrorFlow {
            user_id,
            subscription_id,
            purpose: MirrorPurpose::Sync,
            stage: MirrorStage::AwaitSubscription,
        },
        Action::Processor(call),
    )
}

impl MirrorFlow {
    fn at(self, stage: MirrorStage) -> (r: MirrorFlow)
        ensures
            r == (MirrorFlow {
                user_id: self.user_id,
                subscription_id: self.subscription_id,
                purpose: self.purpose,
                stage,
            }),
    {
        MirrorFlow {
            user_id: self.user_id,
            subscription_id: self.subscription_id,
            purpose: self.purpose,
            stage,
        }
    }

    fn stop(self, failure: Failure) -> (r: (MirrorFlow, Action<SubscriptionResponse>))
        ensures
            r.0 == (MirrorFlow {
                user_id: self.user_id,
                subscription_id: self.subscription_id,
                purpose: self.purpose,
                stage: MirrorStage::Finished,
            }),
            r.1 == Action::<SubscriptionResponse>::Finish(Err(failure)),
    {
        (self.at(MirrorStage::Finished), Action::Finish(Err(failure)))
    }

    /// Takes the outcome of the action last asked for and says what comes
    /// next.
    pub fn advance(self, event: Event) -> (r: (MirrorFlow, Action<SubscriptionResponse>))
        ensures
            mirror_step(self, event, r.0, r.1),
    {
        let MirrorFlow { user_id, subscription_id, purpose, stage } = self;
        let base = MirrorFlow { user_id, subscription_id, purpose, stage: MirrorStage::Finished };
        match stage {
            MirrorStage::AwaitSubscription => match event {
                Event::Processor(ProcessorReply::Subscription(snapshot)) => {
                    let op = match purpose {
                        MirrorPurpose::Sync => StoreOp::MirrorSubscription {
                            user_id: base.user_id.clone(),
                            customer_id: snapshot.customer.clone(),
                            subscription_id: snapshot.id.clone(),
                            status: snapshot.status.clone(),
                            period_end: snapshot.current_period_end,
                        },
                        MirrorPurpose::Cancel => StoreOp::MirrorSubscription {
                            user_id: base.user_id.clone(),
                            customer_id: snapshot.customer.clone(),
                            subscription_id: base.subscription_id.clone(),
                            status: String::from_str("canceled"),
                            period_end: snapshot.current_period_end,
                        },
                    };
                    let response = subscription_response(snapshot);
                    (base.at(MirrorStage::AwaitMirror { response }), Action::Store(op))
                },
                Event::Processor(ProcessorReply::Rejected { detail }) => {
                    let failure = match purpose {
                        MirrorPurpose::Sync => Failure::reported(
                            ErrorKind::ProcessorLookupError,
                            Step::RetrieveSubscription,
                            detail,
                        ),
                        MirrorPurpose::Cancel => Failure::reported(
                            ErrorKind::ProcessorOperationError,
                            Step::CancelSubscription,
                            detail,
                        ),
                    };
                    base.stop(failure)
                },
                _ => base.stop(Failure::rule(ErrorKind::UnexpectedEvent, Step::Protocol)),
            },
            MirrorStage::AwaitMirror { response } => match event {
                Event::Store(reply) => match acknowledge(reply, Step::MirrorSubscription) {
                    Ok(()) => (base.at(MirrorStage::Finished), Action::Finish(Ok(response))),
                    Err(f) => base.stop(f),
                },
                _ => base.stop(Failure::rule(ErrorKind::UnexpectedEvent, Step::Protocol)),
            },
            MirrorStage::Finished => base.stop(
                Failure::rule(ErrorKind::UnexpectedEvent, Step::Protocol),
            ),
        }
    }
}

/// What a refresh of all of a user's subscriptions came to: how many mirrors
/// were refreshed, and the failures of those that were not.
#[derive(Debug, Clone, PartialEq, Eq)]
pub struct SyncReport {
    pub updated_subscriptions: u32,
    pub errors: Vec<Failure>,
}

/// Where a refresh of all of a user's subscriptions stands.
#[derive(Debug, Clone, PartialEq, Eq)]
pub enum SyncAllStage {
    /// Waiting for the user's profile.
    AwaitProfile,
    /// The profile names a subscription; it is being refreshed.
    Syncing(MirrorFlow),
    Finished,
}

/// A refresh of all of a user's subscriptions in progress.
#[derive(Debug, Clone, PartialEq, Eq)]
pub struct SyncAllFlow {
    pub user_id: String,
    pub stage: SyncAllStage,
}

/// The action reports that nothing was refreshed and nothing failed.
pub open spec fn reports_nothing(action: Action<SyncReport>) -> bool {
    action matches Action::Finish(Ok(report)) && report.updated_subscriptions == 0
        && report.errors@.len() == 0
}

/// One step of a refresh of all of a user's subscriptions.
///
/// A profile that cannot be read, or that does not exist, fails the refresh.
/// The failure of one subscription's refresh does not: it is collected in the
/// report.
pub open spec fn sync_all_step(
    flow: SyncAllFlow,
    event: Event,
    next: SyncAllFlow,
    action: Action<SyncReport>,
) -> bool {
    &&& next.user_id == flow.user_id
    &&& match flow.stage {
        SyncAllStage::AwaitProfile => match event {
            Event::Store(reply) => match profile_rows(reply) {
                Some(rows) => if rows@.len() == 0 {
                    next.stage == SyncAllStage::Finished && action.fails_with(
                        ErrorKind::NotFound,
                        Step::LoadProfile,
                        None,
                        Seq::empty(),
                    )
                } else {
                    match rows@[0].subscription_id {
                        Some(subscription_id) => next.stage == SyncAllStage::Syncing(
                            MirrorFlow {
                                user_id: flow.user_id,
                                subscription_id,
                                purpose: MirrorPurpose::Sync,
                                stage: MirrorStage::AwaitSubscription,
                            },
                        ) && action == Action::<SyncReport>::Processor(
                            ProcessorCall::RetrieveSubscription { subscription_id },
                        ),
                        None => next.stage == SyncAllStage::Finished && reports_nothing(action),
                    }
                },
                None => next.stage == SyncAllStage::Finished && (action matches Action::Finish(
                    Err(f),
                ) && unusable(reply, Step::LoadProfile, f)),
            },
            _ => next.stage == SyncAllStage::Finished && action.fails_with(
                ErrorKind::UnexpectedEvent,
                Step::Protocol,
                None,
                Seq::empty(),
            ),
        },
        SyncAllStage::Syncing(inner) => match action {
            Action::Store(op) => next.stage matches SyncAllStage::Syncing(after) && mirror_step(
                inner,
                event,
                after,
                Action::<SubscriptionResponse>::Store(op),
            ),
            Action::Processor(call) => next.stage matches SyncAllStage::Syncing(after)
                && mirror_step(
                inner,
                event,
                after,
                Action::<SubscriptionResponse>::Processor(call),
            ),
            Action::Pause { millis } => next.stage matches SyncAllStage::Syncing(after)
                && mirror_step(
                inner,
                event,
                after,
                Action::<SubscriptionResponse>::Pause { millis },
            ),
            Action::Finish(Ok(report)) => {
                &&& next.stage == SyncAllStage::Finished
                &&& if report.errors@.len() == 0 {
                    &&& report.updated_subscriptions == 1
                    &&& exists|after: MirrorFlow, response: SubscriptionResponse| #[trigger]
                        mirror_step(
                            inner,
                            event,
                            after,
                            Action::<SubscriptionResponse>::Finish(Ok(response)),
                        )
                } else {
                    &&& report.updated_subscriptions == 0
                    &&& report.errors@.len() == 1
                    &&& exists|after: MirrorFlow| #[trigger]
                        mirror_step(
                            inner,
                            event,
                            after,
                            Action::<SubscriptionResponse>::Finish(Err(report.errors@[0])),
                        )
                }
            },
            Action::Finish(Err(_)) => false,
        },
        SyncAllStage::Finished => next.stage == SyncAllStage::Finished && action.fails_with(
            ErrorKind::UnexpectedEvent,
            Step::Protocol,
            None,
            Seq::empty(),
        ),
    }
}

/// Starts refreshing every subscription of a user: the first thing asked for
/// is the profile, which names the subscription.
pub fn sync_all_user_subscriptions(user_id: String) -> (r: (SyncAllFlow, Action<SyncReport>))
    ensures
        r.0 == (SyncAllFlow { user_id, stage: SyncAllStage::AwaitProfile }),
        r.1 == Action::<SyncReport>::Store(
            StoreOp::FetchProfile { user_id, columns: ProfileColumns::All },
        ),
{
    let op = StoreOp::FetchProfile { user_id: user_id.clone(), columns: ProfileColumns::All };
    (SyncAllFlow { user_id, stage: SyncAllStage::AwaitProfile }, Action::Store(op))
}

impl SyncAllFlow {
    /// Takes the outcome of the action last asked for and says what comes
    /// next.
    pub fn advance(self, event: Event) -> (r: (SyncAllFlow, Action<SyncReport>))
        ensures
            sync_all_step(self, event, r.0, r.1),
    {
        let SyncAllFlow { user_id, stage } = self;
        match stage {
            SyncAllStage::AwaitProfile => match event {
                Event::Store(reply) => match read_profiles(reply, Step::LoadProfile) {
                    Ok(mut rows) => {
                        if rows.len() == 0 {
                            (
                                SyncAllFlow { user_id, stage: SyncAllStage::Finished },
                                Action::Finish(
                                    Err(Failure::rule(ErrorKind::NotFound, Step::LoadProfile)),
                                ),
                            )
                        } else {
                            let profile = rows.remove(0);
                            match profile.subscription_id {
                                Some(subscription_id) => {
                                    let (inner, _first) = sync_subscription_status(
                                        user_id.clone(),
                                        subscription_id.clone(),
                                    );
                                    (
                                        SyncAllFlow {
                                            user_id,
                                            stage: SyncAllStage::Syncing(inner),
                                        },
                                        Action::Processor(
                                            ProcessorCall::RetrieveSubscription { subscription_id },
                                        ),
                                    )
                                },
                                None => (
                                    SyncAllFlow { user_id, stage: SyncAllStage::Finished },
                                    Action::Finish(
                                        Ok(
                                            SyncReport {
                                                updated_subscriptions: 0,
                                                errors: Vec::new(),
                                            },
                                        ),
                                    ),
                                ),
                            }
                        }
                    },
                    Err(f) => (
                        SyncAllFlow { user_id, stage: SyncAllStage::Finished },
                        Action::Finish(Err(f)),
                    ),
                },
                _ => (
                    SyncAllFlow { user_id, stage: SyncAllStage::Finished },
                    Action::Finish(Err(Failure::rule(ErrorKind::UnexpectedEvent, Step::Protocol))),
                ),
            },
            SyncAllStage::Syncing(inner) => {
                let (after, action) = inner.advance(event);
                match action {
                    Action::Store(op) => (
                        SyncAllFlow { user_id, stage: SyncAllStage::Syncing(after) },
                        Action::Store(op),
                    ),
                    Action::Processor(call) => (
                        SyncAllFlow { user_id, stage: SyncAllStage::Syncing(after) },
                        Action::Processor(call),
                    ),
                    Action::Pause { millis } => (
                        SyncAllFlow { user_id, stage: SyncAllStage::Syncing(after) },
                        Action::Pause { millis },
                    ),
                    Action::Finish(Ok(_response)) => (
                        SyncAllFlow { user_id, stage: SyncAllStage::Finished },
                        Action::Finish(
                            Ok(SyncReport { updated_subscriptions: 1, errors: Vec::new() }),
                        ),
                    ),
                    Action::Finish(Err(f)) => {
                        let mut errors: Vec<Failure> = Vec::new();
                        errors.push(f);
                        (
                            SyncAllFlow { user_id, stage: SyncAllStage::Finished },
                            Action::Finish(Ok(SyncReport { updated_subscriptions: 0, errors })),
                        )
                    },
                }
            },
            SyncAllStage::Finished => (
                SyncAllFlow { user_id, stage: SyncAllStage::Finished },
                Action::Finish(Err(Failure::rule(ErrorKind::UnexpectedEvent, Step::Protocol))),
            ),
        }
    }
}

} // verus!
