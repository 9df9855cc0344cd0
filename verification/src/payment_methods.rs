//! Keeping a user's payment methods consistent between the processor and the
//! relational backend: registering a method, choosing the default, removing
//! one and promoting the method that is left.

use vstd::prelude::*;
use vstd::string::*;
use crate::failure::{ErrorKind, Failure, Step};
use crate::processor::{
    already_detached, is_already_detached, is_permanently_unusable, permanently_unusable,
    ProcessorCall, ProcessorReply,
};
use crate::records::{PaymentMethod, UpdatePaymentMethodRequest};
use crate::remote::{
    accepted, acknowledge, method_rows, read_methods, unusable, Action, Event, StoreOp, StoreReply,
};

verus! {

/// Position `i` is the method to charge: the first one marked default, or the
/// first one of all where none is marked.
pub open spec fn chosen(methods: Seq<PaymentMethod>, i: int) -> bool {
    &&& 0 <= i < methods.len()
    &&& forall|j: int| 0 <= j < i ==> !(#[trigger] methods[j]).is_default
    &&& (methods[i].is_default || (i == 0 && forall|j: int|
        0 <= j < methods.len() ==> !(#[trigger] methods[j]).is_default))
}

/// Picks the method to charge: the default one, else the first. `None` only
/// for an empty list.
pub fn select_payment_method(methods: &Vec<PaymentMethod>) -> (r: Option<usize>)
    ensures
        methods@.len() == 0 ==> r is None,
        methods@.len() > 0 ==> (r matches Some(i) && chosen(methods@, i as int)),
{
    if methods.len() == 0 {
        return None;
    }
    let mut i: usize = 0;
    while i < methods.len()
        invariant
            i <= methods@.len(),
            forall|j: int| 0 <= j < i ==> !(#[trigger] methods@[j]).is_default,
        decreases methods@.len() - i,
    {
        if methods[i].is_default {
            return Some(i);
        }
        i += 1;
    }
    Some(0)
}

/// Position `k` holds the only active method of the list.
pub open spec fn sole_active(methods: Seq<PaymentMethod>, k: int) -> bool {
    &&& 0 <= k < methods.len()
    &&& methods[k].is_active
    &&& forall|j: int| 0 <= j < methods.len() && j != k ==> !(#[trigger] methods[j]).is_active
}

/// Position `k` holds the only active method of the list, and it is not the
/// default yet.
pub open spec fn promotable(methods: Seq<PaymentMethod>, k: int) -> bool {
    sole_active(methods, k) && !methods[k].is_default
}

/// The method to promote after a removal: the only active one, if it is not
/// the default already.
pub open spec fn promotion_target(methods: Seq<PaymentMethod>) -> Option<int> {
    if exists|k: int| promotable(methods, k) {
        Some(choose|k: int| promotable(methods, k))
    } else {
        None
    }
}

/// At most one position is promotable.
pub proof fn promotable_is_unique(methods: Seq<PaymentMethod>, a: int, b: int)
    requires
        promotable(methods, a),
        promotable(methods, b),
    ensures
        a == b,
{
    if a != b {
        assert(!methods[b].is_active);
    }
}

/// Finds the method to promote after a removal.
pub fn promotion_candidate(methods: &Vec<PaymentMethod>) -> (r: Option<usize>)
    ensures
        match r {
            Some(k) => promotion_target(methods@) == Some(k as int),
            None => promotion_target(methods@) is None,
        },
{
    let mut found: Option<usize> = None;
    let mut many: bool = false;
    let mut i: usize = 0;
    while i < methods.len()
        invariant
            i <= methods@.len(),
            many ==> exists|a: int, b: int|
                0 <= a < b < i && (#[trigger] methods@[a]).is_active && (
                #[trigger] methods@[b]).is_active,
            !many ==> match found {
                Some(k) => k < i && methods@[k as int].is_active && forall|j: int|
                    0 <= j < i && j != k ==> !(#[trigger] methods@[j]).is_active,
                None => forall|j: int| 0 <= j < i ==> !(#[trigger] methods@[j]).is_active,
            },
        decreases methods@.len() - i,
    {
        if methods[i].is_active && !many {
            match found {
                Some(k) => {
                    many = true;
                    assert(methods@[k as int].is_active && methods@[i as int].is_active);
                },
                None => {
                    found = Some(i);
                },
            }
        }
        i += 1;
    }
    if many {
        let ghost (a, b) = choose|a: int, b: int|
            0 <= a < b < methods@.len() && (#[trigger] methods@[a]).is_active && (
            #[trigger] methods@[b]).is_active;
        assert forall|k: int| !promotable(methods@, k) by {
            if promotable(methods@, k) {
                if k == a {
                    assert(!methods@[b].is_active);
                } else {
                    assert(!methods@[a].is_active);
                }
            }
        }
        return None;
    }
    match found {
        Some(k) => {
            if methods[k].is_default {
                assert forall|j: int| !promotable(methods@, j) by {
                    if promotable(methods@, j) && j != k {
                        assert(!methods@[k as int].is_active);
                    }
                }
                None
            } else {
                assert(promotable(methods@, k as int));
                proof {
                    let c = choose|j: int| promotable(methods@, j);
                    promotable_is_unique(methods@, c, k as int);
                }
                Some(k)
            }
        },
        None => {
            assert forall|j: int| !promotable(methods@, j) by {}
            None
        },
    }
}

/// Whether a new method becomes the default: when that was asked for, or when
/// it is the user's first stored method.
pub open spec fn should_be_default(requested: Option<bool>, existing: Seq<PaymentMethod>) -> bool {
    requested == Some(true) || existing.len() == 0
}

/// Computes `should_be_default`.
pub fn resolve_default(requested: Option<bool>, existing: &Vec<PaymentMethod>) -> (r: bool)
    ensures
        r == should_be_default(requested, existing@),
{
    let asked = match requested {
        Some(flag) => flag,
        None => false,
    };
    asked || existing.len() == 0
}

/// How a local record is removed.
#[derive(Debug, Clone, Copy, PartialEq, Eq, Structural)]
pub enum RemovalMode {
    /// The record stays and is marked inactive.
    Soft,
    /// The record is deleted.
    Hard,
}

/// Where a removal stands.
#[derive(Debug, Clone, PartialEq, Eq)]
pub enum RemovalStage {
    /// Waiting for the processor to detach the method.
    AwaitDetach,
    /// Waiting for the local record to be removed.
    AwaitRemoval,
    /// Waiting for the list of the methods that are left.
    AwaitRemaining,
    /// Waiting for the old defaults to be cleared before the promotion.
    AwaitUnset { candidate: String },
    /// Waiting for the promotion of the method that is left.
    AwaitPromotion { candidate: String },
    Finished,
}

/// A removal in progress.
#[derive(Debug, Clone, PartialEq, Eq)]
pub struct RemovalFlow {
    pub payment_method_id: String,
    pub user_id: String,
    pub mode: RemovalMode,
    pub stage: RemovalStage,
}

/// A finished removal; `promoted` names the method that was made the default
/// in its wake, and is `None` where no method had to be promoted.
#[derive(Debug, Clone, PartialEq, Eq)]
pub struct Removed {
    pub promoted: Option<String>,
}

/// The operation that removes the local record in the given mode.
pub open spec fn removal_op(flow: RemovalFlow) -> StoreOp {
    match flow.mode {
        RemovalMode::Soft => StoreOp::UpdatePaymentMethod {
            payment_method_id: flow.payment_method_id,
            user_id: flow.user_id,
            set_default: None,
            set_active: Some(false),
        },
        RemovalMode::Hard => StoreOp::DeletePaymentMethod {
            payment_method_id: flow.payment_method_id,
            user_id: flow.user_id,
        },
    }
}

/// The next flow is `flow` at another stage.
pub open spec fn removal_at(flow: RemovalFlow, next: RemovalFlow, stage: RemovalStage) -> bool {
    &&& next.payment_method_id == flow.payment_method_id
    &&& next.user_id == flow.user_id
    &&& next.mode == flow.mode
    &&& next.stage == stage
}

/// One step of a removal.
///
/// A detach that the processor refuses because the method is attached to no
/// customer counts as done. Removing the local record must succeed. Then the
/// methods that are left are listed: where exactly one active method is left
/// and it is not the default, the user's defaults are cleared, best effort,
/// and it is promoted. A list that cannot be read, or a promotion that the
/// backend does not accept, fails the removal; the record stays removed.
pub open spec fn removal_step(
    flow: RemovalFlow,
    event: Event,
    next: RemovalFlow,
    action: Action<Removed>,
) -> bool {
    match flow.stage {
        RemovalStage::AwaitDetach => match event {
            Event::Processor(ProcessorReply::Done) => removal_at(
                flow,
                next,
                RemovalStage::AwaitRemoval,
            ) && action == Action::<Removed>::Store(removal_op(flow)),
            Event::Processor(ProcessorReply::Rejected { detail }) => if already_detached(detail@) {
                removal_at(flow, next, RemovalStage::AwaitRemoval) && action == Action::<
                    Removed,
                >::Store(removal_op(flow))
            } else {
                removal_at(flow, next, RemovalStage::Finished) && action.fails_with(
                    ErrorKind::ProcessorOperationError,
                    Step::DetachPaymentMethod,
                    None,
                    detail@,
                )
            },
            _ => removal_at(flow, next, RemovalStage::Finished) && action.fails_with(
                ErrorKind::UnexpectedEvent,
                Step::Protocol,
                None,
                Seq::empty(),
            ),
        },
        RemovalStage::AwaitRemoval => match event {
            Event::Store(reply) => if accepted(reply) {
                removal_at(flow, next, RemovalStage::AwaitRemaining) && action == Action::<
                    Removed,
                >::Store(StoreOp::ListPaymentMethods { user_id: flow.user_id, ordered: true })
            } else {
                removal_at(flow, next, RemovalStage::Finished) && (action matches Action::Finish(
                    Err(f),
                ) && unusable(reply, Step::DeletePaymentMethod, f))
            },
            _ => removal_at(flow, next, RemovalStage::Finished) && action.fails_with(
                ErrorKind::UnexpectedEvent,
                Step::Protocol,
                None,
                Seq::empty(),
            ),
        },
        RemovalStage::AwaitRemaining => match event {
            Event::Store(reply) => match method_rows(reply) {
                Some(rows) => match promotion_target(rows@) {
                    Some(k) => removal_at(
                        flow,
                        next,
                        RemovalStage::AwaitUnset { candidate: rows@[k].stripe_payment_method_id },
                    ) && action == Action::<Removed>::Store(
                        StoreOp::UnsetDefaultPaymentMethods { user_id: flow.user_id },
                    ),
                    None => removal_at(flow, next, RemovalStage::Finished) && action == Action::<
                        Removed,
                    >::Finish(Ok(Removed { promoted: None })),
                },
                None => removal_at(flow, next, RemovalStage::Finished) && (
                action matches Action::Finish(Err(f)) && unusable(
                    reply,
                    Step::ListPaymentMethods,
                    f,
                )),
            },
            _ => removal_at(flow, next, RemovalStage::Finished) && action.fails_with(
                ErrorKind::UnexpectedEvent,
                Step::Protocol,
                None,
                Seq::empty(),
            ),
        },
        RemovalStage::AwaitUnset { candidate } => match event {
            Event::Store(_) => removal_at(
                flow,
                next,
                RemovalStage::AwaitPromotion { candidate },
            ) && action == Action::<Removed>::Store(
                StoreOp::UpdatePaymentMethod {
                    payment_method_id: candidate,
                    user_id: flow.user_id,
                    set_default: Some(true),
                    set_active: None,
                },
            ),
            _ => removal_at(flow, next, RemovalStage::Finished) && action.fails_with(
                ErrorKind::UnexpectedEvent,
                Step::Protocol,
                None,
                Seq::empty(),
            ),
        },
        RemovalStage::AwaitPromotion { candidate } => match event {
            Event::Store(reply) => removal_at(flow, next, RemovalStage::Finished) && if accepted(
                reply,
            ) {
                action == Action::<Removed>::Finish(Ok(Removed { promoted: Some(candidate) }))
            } else {
                action matches Action::Finish(Err(f)) && unusable(
                    reply,
                    Step::UpdatePaymentMethod,
                    f,
                )
            },
            _ => removal_at(flow, next, RemovalStage::Finished) && action.fails_with(
                ErrorKind::UnexpectedEvent,
                Step::Protocol,
                None,
                Seq::empty(),
            ),
        },
        RemovalStage::Finished => removal_at(flow, next, RemovalStage::Finished)
            && action.fails_with(ErrorKind::UnexpectedEvent, Step::Protocol, None, Seq::empty()),
    }
}

/// Starts removing a payment method from both systems: the processor
/// detaches it, then the local record is marked inactive.
pub fn delete_payment_method_integrated(payment_method_id: String, user_id: String) -> (r: (
    RemovalFlow,
    Action<Removed>,
))
    ensures
        r.0 == (RemovalFlow {
            payment_method_id,
            user_id,
            mode: RemovalMode::Soft,
            stage: RemovalStage::AwaitDetach,
        }),
        r.1 == Action::<Removed>::Processor(
            ProcessorCall::DetachPaymentMethod { payment_method_id },
        ),
{
    let call = ProcessorCall::DetachPaymentMethod { payment_method_id: payment_method_id.clone() };
    (
        RemovalFlow {
            payment_method_id,
            user_id,
            mode: RemovalMode::Soft,
            stage: RemovalStage::AwaitDetach,
        },
        Action::Processor(call),
    )
}

/// Starts deleting the local record of a payment method; the processor is
/// not involved.
pub fn delete_payment_method_from_db(payment_method_id: String, user_id: String) -> (r: (
    RemovalFlow,
    Action<Removed>,
))
    ensures
        r.0 == (RemovalFlow {
            payment_method_id,
            user_id,
            mode: RemovalMode::Hard,
            stage: RemovalStage::AwaitRemoval,
        }),
        r.1 == Action::<Removed>::Store(
            StoreOp::DeletePaymentMethod { payment_method_id, user_id },
        ),
{
    let op = StoreOp::DeletePaymentMethod {
        payment_method_id: payment_method_id.clone(),
        user_id: user_id.clone(),
    };
    (
        RemovalFlow {
            payment_method_id,
            user_id,
            mode: RemovalMode::Hard,
            stage: RemovalStage::AwaitRemoval,
        },
        Action::Store(op),
    )
}

impl RemovalFlow {
    fn at(self, stage: RemovalStage) -> (r: RemovalFlow)
        ensures
            removal_at(self, r, stage),
    {
        RemovalFlow {
            payment_method_id: self.payment_method_id,
            user_id: self.user_id,
            mode: self.mode,
            stage,
        }
    }

    fn out_of_turn(self) -> (r: (RemovalFlow, Action<Removed>))
        ensures
            removal_at(self, r.0, RemovalStage::Finished),
            r.1.fails_with(ErrorKind::UnexpectedEvent, Step::Protocol, None, Seq::empty()),
    {
        (
            self.at(RemovalStage::Finished),
            Action::Finish(Err(Failure::rule(ErrorKind::UnexpectedEvent, Step::Protocol))),
        )
    }

    fn remove_locally(self) -> (r: (RemovalFlow, Action<Removed>))
        ensures
            removal_at(self, r.0, RemovalStage::AwaitRemoval),
            r.1 == Action::<Removed>::Store(removal_op(self)),
    {
        let op = match self.mode {
            RemovalMode::Soft => StoreOp::UpdatePaymentMethod {
                payment_method_id: self.payment_method_id.clone(),
                user_id: self.user_id.clone(),
                set_default: None,
                set_active: Some(false),
            },
            RemovalMode::Hard => StoreOp::DeletePaymentMethod {
                payment_method_id: self.payment_method_id.clone(),
                user_id: self.user_id.clone(),
            },
        };
        (self.at(RemovalStage::AwaitRemoval), Action::Store(op))
    }

    /// Takes the outcome of the action last asked for and says what comes
    /// next.
    pub fn advance(self, event: Event) -> (r: (RemovalFlow, Action<Removed>))
        ensures
            removal_step(self, event, r.0, r.1),
    {
        match &self.stage {
            RemovalStage::AwaitDetach => match event {
                Event::Processor(ProcessorReply::Done) => self.remove_locally(),
                Event::Processor(ProcessorReply::Rejected { detail }) => {
                    if is_already_detached(detail.as_str()) {
                        self.remove_locally()
                    } else {
                        (
                            self.at(RemovalStage::Finished),
                            Action::Finish(
                                Err(
                                    Failure::reported(
                                        ErrorKind::ProcessorOperationError,
                                        Step::DetachPaymentMethod,
                                        detail,
                                    ),
                                ),
                            ),
                        )
                    }
                },
                _ => self.out_of_turn(),
            },
            RemovalStage::AwaitRemoval => match event {
                Event::Store(reply) => match acknowledge(reply, Step::DeletePaymentMethod) {
                    Ok(()) => {
                        let op = StoreOp::ListPaymentMethods {
                            user_id: self.user_id.clone(),
                            ordered: true,
                        };
                        (self.at(RemovalStage::AwaitRemaining), Action::Store(op))
                    },
                    Err(f) => (self.at(RemovalStage::Finished), Action::Finish(Err(f))),
                },
                _ => self.out_of_turn(),
            },
            RemovalStage::AwaitRemaining => match event {
                Event::Store(reply) => match read_methods(reply, Step::ListPaymentMethods) {
                    Ok(mut rows) => match promotion_candidate(&rows) {
                        Some(k) => {
                            let row = rows.swap_remove(k);
                            let op = StoreOp::UnsetDefaultPaymentMethods {
                                user_id: self.user_id.clone(),
                            };
                            (
                                self.at(
                                    RemovalStage::AwaitUnset {
                                        candidate: row.stripe_payment_method_id,
                                    },
                                ),
                                Action::Store(op),
                            )
                        },
                        None => (
                            self.at(RemovalStage::Finished),
                            Action::Finish(Ok(Removed { promoted: None })),
                        ),
                    },
                    Err(f) => (self.at(RemovalStage::Finished), Action::Finish(Err(f))),
                },
                _ => self.out_of_turn(),
            },
            RemovalStage::AwaitUnset { candidate } => match event {
                Event::Store(_) => {
                    let candidate = candidate.clone();
                    let op = StoreOp::UpdatePaymentMethod {
                        payment_method_id: candidate.clone(),
                        user_id: self.user_id.clone(),
                        set_default: Some(true),
                        set_active: None,
                    };
                    (self.at(RemovalStage::AwaitPromotion { candidate }), Action::Store(op))
                },
                _ => self.out_of_turn(),
            },
            RemovalStage::AwaitPromotion { candidate } => match event {
                Event::Store(reply) => match acknowledge(reply, Step::UpdatePaymentMethod) {
                    Ok(()) => {
                        let promoted = Some(candidate.clone());
                        (self.at(RemovalStage::Finished), Action::Finish(Ok(Removed { promoted })))
                    },
                    Err(f) => (self.at(RemovalStage::Finished), Action::Finish(Err(f))),
                },
                _ => self.out_of_turn(),
            },
            RemovalStage::Finished => self.out_of_turn(),
        }
    }
}

/// The outcome of an insert or update that must hand back the stored row:
/// the first row of the answer; `NotFound` for an empty answer; else the
/// failure that stands for the reply.
pub open spec fn first_method(
    reply: StoreReply,
    step: Step,
    outcome: Result<PaymentMethod, Failure>,
) -> bool {
    match method_rows(reply) {
        Some(rows) => if rows@.len() > 0 {
            outcome == Ok::<PaymentMethod, Failure>(rows@[0])
        } else {
            outcome matches Err(f) && f.is(ErrorKind::NotFound, step, None, Seq::empty())
        },
        None => outcome matches Err(f) && unusable(reply, step, f),
    }
}

/// Reads the stored row out of the reply to an insert or update.
pub fn first_stored_method(reply: StoreReply, step: Step) -> (outcome: Result<
    PaymentMethod,
    Failure,
>)
    ensures
        first_method(reply, step, outcome),
{
    match read_methods(reply, step) {
        Ok(mut rows) => {
            if rows.len() > 0 {
                Ok(rows.remove(0))
            } else {
                Err(Failure::rule(ErrorKind::NotFound, step))
            }
        },
        Err(f) => Err(f),
    }
}

/// Where a change of flags stands.
#[derive(Debug, Clone, Copy, PartialEq, Eq, Structural)]
pub enum UpdateStage {
    /// Waiting for the old defaults to be cleared.
    AwaitUnset,
    /// Waiting for the changed row.
    AwaitUpdate,
    Finished,
}

/// A change of flags in progress.
#[derive(Debug, Clone, PartialEq, Eq)]
pub struct UpdateFlow {
    pub request: UpdatePaymentMethodRequest,
    pub stage: UpdateStage,
}

/// The operation that writes the requested flags.
pub open spec fn update_op(request: UpdatePaymentMethodRequest) -> StoreOp {
    StoreOp::UpdatePaymentMethod {
        payment_method_id: request.payment_method_id,
        user_id: request.user_id,
        set_default: request.is_default,
        set_active: request.is_active,
    }
}

/// One step of a change of flags. Clearing the old defaults is best effort:
/// whatever its outcome, the flags are written next.
pub open spec fn update_step(
    flow: UpdateFlow,
    event: Event,
    next: UpdateFlow,
    action: Action<PaymentMethod>,
) -> bool {
    &&& next.request == flow.request
    &&& match (flow.stage, event) {
        (UpdateStage::AwaitUnset, Event::Store(_)) => next.stage == UpdateStage::AwaitUpdate
            && action == Action::<PaymentMethod>::Store(update_op(flow.request)),
        (UpdateStage::AwaitUpdate, Event::Store(reply)) => next.stage == UpdateStage::Finished && (
        action matches Action::Finish(outcome) && first_method(
            reply,
            Step::UpdatePaymentMethod,
            outcome,
        )),
        _ => next.stage == UpdateStage::Finished && action.fails_with(
            ErrorKind::UnexpectedEvent,
            Step::Protocol,
            None,
            Seq::empty(),
        ),
    }
}

/// Starts changing the flags of a stored payment method. Where the method is
/// to become the default, the user's other defaults are cleared first.
pub fn update_payment_method(
    payment_method_id: String,
    user_id: String,
    is_default: Option<bool>,
    is_active: Option<bool>,
) -> (r: (UpdateFlow, Action<PaymentMethod>))
    ensures
        r.0.request == (UpdatePaymentMethodRequest {
            payment_method_id,
            user_id,
            is_default,
            is_active,
        }),
        is_default == Some(true) ==> r.0.stage == UpdateStage::AwaitUnset && r.1 == Action::<
            PaymentMethod,
        >::Store(StoreOp::UnsetDefaultPaymentMethods { user_id }),
        is_default != Some(true) ==> r.0.stage == UpdateStage::AwaitUpdate && r.1 == Action::<
            PaymentMethod,
        >::Store(update_op(r.0.request)),
{
    let makes_default = match is_default {
        Some(flag) => flag,
        None => false,
    };
    if makes_default {
        let op = StoreOp::UnsetDefaultPaymentMethods { user_id: user_id.clone() };
        let request = UpdatePaymentMethodRequest {
            payment_method_id,
            user_id,
            is_default,
            is_active,
        };
        (UpdateFlow { request, stage: UpdateStage::AwaitUnset }, Action::Store(op))
    } else {
        let op = StoreOp::UpdatePaymentMethod {
            payment_method_id: payment_method_id.clone(),
            user_id: user_id.clone(),
            set_default: is_default,
            set_active: is_active,
        };
        let request = UpdatePaymentMethodRequest {
            payment_method_id,
            user_id,
            is_default,
            is_active,
        };
        (UpdateFlow { request, stage: UpdateStage::AwaitUpdate }, Action::Store(op))
    }
}

impl UpdateFlow {
    /// Takes the outcome of the action last asked for and says what comes
    /// next.
    pub fn advance(self, event: Event) -> (r: (UpdateFlow, Action<PaymentMethod>))
        ensures
            update_step(self, event, r.0, r.1),
    {
        let UpdateFlow { request, stage } = self;
        match (stage, event) {
            (UpdateStage::AwaitUnset, Event::Store(_)) => {
                let op = StoreOp::UpdatePaymentMethod {
                    payment_method_id: request.payment_method_id.clone(),
                    user_id: request.user_id.clone(),
                    set_default: request.is_default,
                    set_active: request.is_active,
                };
                (UpdateFlow { request, stage: UpdateStage::AwaitUpdate }, Action::Store(op))
            },
            (UpdateStage::AwaitUpdate, Event::Store(reply)) => {
                let outcome = first_stored_method(reply, Step::UpdatePaymentMethod);
                (UpdateFlow { request, stage: UpdateStage::Finished }, Action::Finish(outcome))
            },
            _ => (
                UpdateFlow { request, stage: UpdateStage::Finished },
                Action::Finish(Err(Failure::rule(ErrorKind::UnexpectedEvent, Step::Protocol))),
            ),
        }
    }
}

/// Where the choice of a default method stands.
#[derive(Debug, Clone, PartialEq, Eq)]
pub enum DefaultStage {
    /// Waiting for the processor's view of the method.
    AwaitMethod,
    /// Waiting for the method to be attached to the customer.
    AwaitAttach,
    /// Waiting for the local record of an unusable method to be deleted.
    AwaitCleanup,
    /// Waiting for the processor to take the method as the customer's default.
    AwaitProcessorDefault,
    /// The processor has the new default; the local flags are being written.
    Updating(UpdateFlow),
    Finished,
}

/// The choice of a default method in progress.
#[derive(Debug, Clone, PartialEq, Eq)]
pub struct DefaultFlow {
    pub customer_id: String,
    pub payment_method_id: String,
    pub user_id: String,
    pub stage: DefaultStage,
}

/// The call that attaches the method to the customer.
pub open spec fn attach_call(customer_id: String, payment_method_id: String) -> ProcessorCall {
    ProcessorCall::AttachPaymentMethod { payment_method_id, customer_id }
}

/// The call that makes the method the customer's default at the processor.
pub open spec fn default_call(customer_id: String, payment_method_id: String) -> ProcessorCall {
    ProcessorCall::SetDefaultPaymentMethod { customer_id, payment_method_id }
}

/// One step of the choice of a default method.
///
/// The method must be attached to the given customer; an unattached one is
/// attached first. A method that the processor declares permanently unusable
/// has its local record deleted, and the choice fails with
/// `PermanentlyUnusable`. The local flags are written only after the
/// processor has taken the new default.
pub open spec fn default_step(
    flow: DefaultFlow,
    event: Event,
    next: DefaultFlow,
    action: Action<PaymentMethod>,
) -> bool {
    &&& next.customer_id == flow.customer_id
    &&& next.payment_method_id == flow.payment_method_id
    &&& next.user_id == flow.user_id
    &&& match flow.stage {
        DefaultStage::AwaitMethod => match event {
            Event::Processor(ProcessorReply::Method(method)) => match method.customer {
                Some(owner) => if owner@ == flow.customer_id@ {
                    next.stage == DefaultStage::AwaitProcessorDefault && action == Action::<
                        PaymentMethod,
                    >::Processor(default_call(flow.customer_id, flow.payment_method_id))
                } else {
                    next.stage == DefaultStage::Finished && action.fails_with(
                        ErrorKind::ProcessorOperationError,
                        Step::CheckAttachment,
                        None,
                        owner@,
                    )
                },
                None => next.stage == DefaultStage::AwaitAttach && action == Action::<
                    PaymentMethod,
                >::Processor(attach_call(flow.customer_id, flow.payment_method_id)),
            },
            Event::Processor(ProcessorReply::Rejected { detail }) => next.stage
                == DefaultStage::Finished && action.fails_with(
                ErrorKind::ProcessorLookupError,
                Step::RetrievePaymentMethod,
                None,
                detail@,
            ),
            _ => next.stage == DefaultStage::Finished && action.fails_with(
                ErrorKind::UnexpectedEvent,
                Step::Protocol,
                None,
                Seq::empty(),
            ),
        },
        DefaultStage::AwaitAttach => match event {
            Event::Processor(ProcessorReply::Done) => next.stage
                == DefaultStage::AwaitProcessorDefault && action == Action::<
                PaymentMethod,
            >::Processor(default_call(flow.customer_id, flow.payment_method_id)),
            Event::Processor(ProcessorReply::Rejected { detail }) => if permanently_unusable(
                detail@,
            ) {
                next.stage == DefaultStage::AwaitCleanup && action == Action::<
                    PaymentMethod,
                >::Store(
                    StoreOp::DeletePaymentMethod {
                        payment_method_id: flow.payment_method_id,
                        user_id: flow.user_id,
                    },
                )
            } else {
                next.stage == DefaultStage::Finished && action.fails_with(
                    ErrorKind::ProcessorOperationError,
                    Step::AttachPaymentMethod,
                    None,
                    detail@,
                )
            },
            _ => next.stage == DefaultStage::Finished && action.fails_with(
                ErrorKind::UnexpectedEvent,
                Step::Protocol,
                None,
                Seq::empty(),
            ),
        },
        DefaultStage::AwaitCleanup => match event {
            Event::Store(_) => next.stage == DefaultStage::Finished && action.fails_with(
                ErrorKind::PermanentlyUnusable,
                Step::AttachPaymentMethod,
                None,
                Seq::empty(),
            ),
            _ => next.stage == DefaultStage::Finished && action.fails_with(
                ErrorKind::UnexpectedEvent,
                Step::Protocol,
                None,
                Seq::empty(),
            ),
        },
        DefaultStage::AwaitProcessorDefault => match event {
            Event::Processor(ProcessorReply::Done) => {
                &&& next.stage matches DefaultStage::Updating(inner)
                &&& inner.stage == UpdateStage::AwaitUnset
                &&& inner.request == (UpdatePaymentMethodRequest {
                    payment_method_id: flow.payment_method_id,
                    user_id: flow.user_id,
                    is_default: Some(true),
                    is_active: None,
                })
                &&& action == Action::<PaymentMethod>::Store(
                    StoreOp::UnsetDefaultPaymentMethods { user_id: flow.user_id },
                )
            },
            Event::Processor(ProcessorReply::Rejected { detail }) => next.stage
                == DefaultStage::Finished && action.fails_with(
                ErrorKind::ProcessorOperationError,
                Step::SetProcessorDefault,
                None,
                detail@,
            ),
            _ => next.stage == DefaultStage::Finished && action.fails_with(
                ErrorKind::UnexpectedEvent,
                Step::Protocol,
                None,
                Seq::empty(),
            ),
        },
        DefaultStage::Updating(inner) => {
            &&& next.stage matches DefaultStage::Updating(after)
            &&& update_step(inner, event, after, action)
        },
        DefaultStage::Finished => next.stage == DefaultStage::Finished && action.fails_with(
            ErrorKind::UnexpectedEvent,
            Step::Protocol,
            None,
            Seq::empty(),
        ),
    }
}

/// Starts making a payment method the default in both systems: the first
/// thing asked for is the processor's view of the method.
pub fn set_default_payment_method_integrated(
    customer_id: String,
    payment_method_id: String,
    user_id: String,
) -> (r: (DefaultFlow, Action<PaymentMethod>))
    ensures
        r.0 == (DefaultFlow {
            customer_id,
            payment_method_id,
            user_id,
            stage: DefaultStage::AwaitMethod,
        }),
        r.1 == Action::<PaymentMethod>::Processor(
            ProcessorCall::RetrievePaymentMethod { payment_method_id },
        ),
{
    let call = ProcessorCall::RetrievePaymentMethod {
        payment_method_id: payment_method_id.clone(),
    };
    (
        DefaultFlow { customer_id, payment_method_id, user_id, stage: DefaultStage::AwaitMethod },
        Action::Processor(call),
    )
}

impl DefaultFlow {
    fn at(self, stage: DefaultStage) -> (r: DefaultFlow)
        ensures
            r == (DefaultFlow {
                customer_id: self.customer_id,
                payment_method_id: self.payment_method_id,
                user_id: self.user_id,
                stage,
            }),
    {
        DefaultFlow {
            customer_id: self.customer_id,
            payment_method_id: self.payment_method_id,
            user_id: self.user_id,
            stage,
        }
    }

    fn stop(self, failure: Failure) -> (r: (DefaultFlow, Action<PaymentMethod>))
        ensures
            r.0 == (DefaultFlow {
                customer_id: self.customer_id,
                payment_method_id: self.payment_method_id,
                user_id: self.user_id,
                stage: DefaultStage::Finished,
            }),
            r.1 == Action::<PaymentMethod>::Finish(Err(failure)),
    {
        (self.at(DefaultStage::Finished), Action::Finish(Err(failure)))
    }

    fn make_default(self) -> (r: (DefaultFlow, Action<PaymentMethod>))
        ensures
            r.0 == (DefaultFlow {
                customer_id: self.customer_id,
                payment_method_id: self.payment_method_id,
                user_id: self.user_id,
                stage: DefaultStage::AwaitProcessorDefault,
            }),
            r.1 == Action::<PaymentMethod>::Processor(
                default_call(self.customer_id, self.payment_method_id),
            ),
    {
        let call = ProcessorCall::SetDefaultPaymentMethod {
            customer_id: self.customer_id.clone(),
            payment_method_id: self.payment_method_id.clone(),
        };
        (self.at(DefaultStage::AwaitProcessorDefault), Action::Processor(call))
    }

    /// Takes the outcome of the action last asked for and says what comes
    /// next.
    pub fn advance(self, event: Event) -> (r: (DefaultFlow, Action<PaymentMethod>))
        ensures
            default_step(self, event, r.0, r.1),
    {
        let DefaultFlow { customer_id, payment_method_id, user_id, stage } = self;
        let base = DefaultFlow {
            customer_id,
            payment_method_id,
            user_id,
            stage: DefaultStage::Finished,
        };
        match stage {
            DefaultStage::AwaitMethod => match event {
                Event::Processor(ProcessorReply::Method(method)) => match method.customer {
                    Some(owner) => {
                        if owner == base.customer_id {
                            base.make_default()
                        } else {
                            base.stop(
                                Failure::reported(
                                    ErrorKind::ProcessorOperationError,
                                    Step::CheckAttachment,
                                    owner,
                                ),
                            )
                        }
                    },
                    None => {
                        let call = ProcessorCall::AttachPaymentMethod {
                            payment_method_id: base.payment_method_id.clone(),
                            customer_id: base.customer_id.clone(),
                        };
                        (base.at(DefaultStage::AwaitAttach), Action::Processor(call))
                    },
                },
                Event::Processor(ProcessorReply::Rejected { detail }) => base.stop(
                    Failure::reported(
                        ErrorKind::ProcessorLookupError,
                        Step::RetrievePaymentMethod,
                        detail,
                    ),
                ),
                _ => base.stop(Failure::rule(ErrorKind::UnexpectedEvent, Step::Protocol)),
            },
            DefaultStage::AwaitAttach => match event {
                Event::Processor(ProcessorReply::Done) => base.make_default(),
                Event::Processor(ProcessorReply::Rejected { detail }) => {
                    if is_permanently_unusable(detail.as_str()) {
                        let op = StoreOp::DeletePaymentMethod {
                            payment_method_id: base.payment_method_id.clone(),
                            user_id: base.user_id.clone(),
                        };
                        (base.at(DefaultStage::AwaitCleanup), Action::Store(op))
                    } else {
                        base.stop(
                            Failure::reported(
                                ErrorKind::ProcessorOperationError,
                                Step::AttachPaymentMethod,
                                detail,
                            ),
                        )
                    }
                },
                _ => base.stop(Failure::rule(ErrorKind::UnexpectedEvent, Step::Protocol)),
            },
            DefaultStage::AwaitCleanup => match event {
                Event::Store(_) => base.stop(
                    Failure::rule(ErrorKind::PermanentlyUnusable, Step::AttachPaymentMethod),
                ),
                _ => base.stop(Failure::rule(ErrorKind::UnexpectedEvent, Step::Protocol)),
            },
            DefaultStage::AwaitProcessorDefault => match event {
                Event::Processor(ProcessorReply::Done) => {
                    let (inner, action) = update_payment_method(
                        base.payment_method_id.clone(),
                        base.user_id.clone(),
                        Some(true),
                        None,
                    );
                    (base.at(DefaultStage::Updating(inner)), action)
                },
                Event::Processor(ProcessorReply::Rejected { detail }) => base.stop(
                    Failure::reported(
                        ErrorKind::ProcessorOperationError,
                        Step::SetProcessorDefault,
                        detail,
                    ),
                ),
                _ => base.stop(Failure::rule(ErrorKind::UnexpectedEvent, Step::Protocol)),
            },
            DefaultStage::Updating(inner) => {
                let (after, action) = inner.advance(event);
                (base.at(DefaultStage::Updating(after)), action)
            },
            DefaultStage::Finished => base.stop(
                Failure::rule(ErrorKind::UnexpectedEvent, Step::Protocol),
            ),
        }
    }
}

} // verus!
