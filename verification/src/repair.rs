//! Repairing attachments: every stored payment method of a user that the
//! processor reports as unattached is attached to the user's customer.

use vstd::prelude::*;
use crate::failure::{ErrorKind, Failure, Step};
use crate::payment_methods::{attach_call, default_call};
use crate::processor::{ProcessorCall, ProcessorReply};
use crate::records::PaymentMethod;
use crate::remote::{
    count_one, method_rows, one_more, read_methods, unusable, Action, Event, StoreOp,
};

verus! {

/// Where a repair stands.
#[derive(Debug, Clone, PartialEq, Eq)]
pub enum RepairStage {
    /// Waiting for the user's stored payment methods.
    AwaitList,
    /// Waiting for the processor's view of the current method.
    AwaitMethod { current: PaymentMethod },
    /// Waiting for the current method to be attached.
    AwaitAttach { current: PaymentMethod },
    /// Waiting for the processor to take the current method as the default.
    AwaitDefault,
    Finished,
}

/// A repair in progress: the methods still to look at, and how many were
/// attached so far.
#[derive(Debug, Clone, PartialEq, Eq)]
pub struct RepairFlow {
    pub customer_id: String,
    pub user_id: String,
    pub pending: Vec<PaymentMethod>,
    pub fixed: usize,
    pub stage: RepairStage,
}

/// The repair turns to the next pending method, or ends with the count when
/// none is left.
pub open spec fn turns_to_next(
    pending: Seq<PaymentMethod>,
    fixed: usize,
    next: RepairFlow,
    action: Action<usize>,
) -> bool {
    &&& next.fixed == fixed
    &&& if pending.len() == 0 {
        &&& next.pending@ == pending
        &&& next.stage == RepairStage::Finished
        &&& action == Action::<usize>::Finish(Ok(fixed))
    } else {
        &&& next.pending@ == pending.remove(0)
        &&& next.stage == (RepairStage::AwaitMethod { current: pending[0] })
        &&& action == Action::<usize>::Processor(
            ProcessorCall::RetrievePaymentMethod {
                payment_method_id: pending[0].stripe_payment_method_id,
            },
        )
    }
}

/// The repair has ended with a failure and keeps what it held.
pub open spec fn repair_stops(flow: RepairFlow, next: RepairFlow) -> bool {
    next.pending == flow.pending && next.fixed == flow.fixed && next.stage == RepairStage::Finished
}

/// One step of a repair.
///
/// A method that the processor does not know, or that is attached already, is
/// passed over. An unattached one is attached to the customer; if that works
/// it is counted, and where it is marked default locally the processor is
/// told so, whatever comes of that. A failed attach is passed over too.
pub open spec fn repair_step(
    flow: RepairFlow,
    event: Event,
    next: RepairFlow,
    action: Action<usize>,
) -> bool {
    &&& next.customer_id == flow.customer_id
    &&& next.user_id == flow.user_id
    &&& match flow.stage {
        RepairStage::AwaitList => match event {
            Event::Store(reply) => match method_rows(reply) {
                Some(rows) => turns_to_next(rows@, 0, next, action),
                None => repair_stops(flow, next) && (action matches Action::Finish(Err(f))
                    && unusable(reply, Step::ListPaymentMethods, f)),
            },
            _ => repair_stops(flow, next) && action.fails_with(
                ErrorKind::UnexpectedEvent,
                Step::Protocol,
                None,
                Seq::empty(),
            ),
        },
        RepairStage::AwaitMethod { current } => match event {
            Event::Processor(ProcessorReply::Method(method)) => match method.customer {
                None => {
                    &&& next.pending == flow.pending
                    &&& next.fixed == flow.fixed
                    &&& next.stage == (RepairStage::AwaitAttach { current })
                    &&& action == Action::<usize>::Processor(
                        attach_call(flow.customer_id, current.stripe_payment_method_id),
                    )
                },
                Some(_) => turns_to_next(flow.pending@, flow.fixed, next, action),
            },
            Event::Processor(_) => turns_to_next(flow.pending@, flow.fixed, next, action),
            _ => repair_stops(flow, next) && action.fails_with(
                ErrorKind::UnexpectedEvent,
                Step::Protocol,
                None,
                Seq::empty(),
            ),
        },
        RepairStage::AwaitAttach { current } => match event {
            Event::Processor(ProcessorReply::Done) => if current.is_default {
                &&& next.pending == flow.pending
                &&& next.fixed == one_more(flow.fixed)
                &&& next.stage == RepairStage::AwaitDefault
                &&& action == Action::<usize>::Processor(
                    default_call(flow.customer_id, current.stripe_payment_method_id),
                )
            } else {
                turns_to_next(flow.pending@, one_more(flow.fixed), next, action)
            },
            Event::Processor(_) => turns_to_next(flow.pending@, flow.fixed, next, action),
            _ => repair_stops(flow, next) && action.fails_with(
                ErrorKind::UnexpectedEvent,
                Step::Protocol,
                None,
                Seq::empty(),
            ),
        },
        RepairStage::AwaitDefault => match event {
            Event::Processor(_) => turns_to_next(flow.pending@, flow.fixed, next, action),
            _ => repair_stops(flow, next) && action.fails_with(
                ErrorKind::UnexpectedEvent,
                Step::Protocol,
                None,
                Seq::empty(),
            ),
        },
        RepairStage::Finished => repair_stops(flow, next) && action.fails_with(
            ErrorKind::UnexpectedEvent,
            Step::Protocol,
            None,
            Seq::empty(),
        ),
    }
}

/// Starts repairing the attachments of a user's payment methods: the first
/// thing asked for is the list of the stored methods.
pub fn fix_payment_method_attachments(customer_id: String, user_id: String) -> (r: (
    RepairFlow,
    Action<usize>,
))
    ensures
        r.0.customer_id == customer_id,
        r.0.user_id == user_id,
        r.0.pending@.len() == 0,
        r.0.fixed == 0,
        r.0.stage == RepairStage::AwaitList,
        r.1 == Action::<usize>::Store(StoreOp::ListPaymentMethods { user_id, ordered: false }),
{
    let op = StoreOp::ListPaymentMethods { user_id: user_id.clone(), ordered: false };
    (
        RepairFlow {
            customer_id,
            user_id,
            pending: Vec::new(),
            fixed: 0,
            stage: RepairStage::AwaitList,
        },
        Action::Store(op),
    )
}

fn turn_to_next(
    customer_id: String,
    user_id: String,
    pending: Vec<PaymentMethod>,
    fixed: usize,
) -> (r:
    (RepairFlow, Action<usize>))
    ensures
        r.0.customer_id == customer_id,
        r.0.user_id == user_id,
        turns_to_next(pending@, fixed, r.0, r.1),
{
    let mut pending = pending;
    if pending.len() == 0 {
        (
            RepairFlow { customer_id, user_id, pending, fixed, stage: RepairStage::Finished },
            Action::Finish(Ok(fixed)),
        )
    } else {
        let current = pending.remove(0);
        let call = ProcessorCall::RetrievePaymentMethod {
            payment_method_id: current.stripe_payment_method_id.clone(),
        };
        (
            RepairFlow {
                customer_id,
                user_id,
                pending,
                fixed,
                stage: RepairStage::AwaitMethod { current },
            },
            Action::Processor(call),
        )
    }
}

impl RepairFlow {
    /// Takes the outcome of the action last asked for and says what comes
    /// next.
    pub fn advance(self, event: Event) -> (r: (RepairFlow, Action<usize>))
        ensures
            repair_step(self, event, r.0, r.1),
    {
        let RepairFlow { customer_id, user_id, pending, fixed, stage } = self;
        match stage {
            RepairStage::AwaitList => match event {
                Event::Store(reply) => match read_methods(reply, Step::ListPaymentMethods) {
                    Ok(rows) => turn_to_next(customer_id, user_id, rows, 0),
                    Err(f) => (
                        RepairFlow {
                            customer_id,
                            user_id,
                            pending,
                            fixed,
                            stage: RepairStage::Finished,
                        },
                        Action::Finish(Err(f)),
                    ),
                },
                _ => (
                    RepairFlow {
                        customer_id,
                        user_id,
                        pending,
                        fixed,
                        stage: RepairStage::Finished,
                    },
                    Action::Finish(Err(Failure::rule(ErrorKind::UnexpectedEvent, Step::Protocol))),
                ),
            },
            RepairStage::AwaitMethod { current } => match event {
                Event::Processor(ProcessorReply::Method(method)) => match method.customer {
                    None => {
                        let call = ProcessorCall::AttachPaymentMethod {
                            payment_method_id: current.stripe_payment_method_id.clone(),
                            customer_id: customer_id.clone(),
                        };
                        (
                            RepairFlow {
                                customer_id,
                                user_id,
                                pending,
                                fixed,
                                stage: RepairStage::AwaitAttach { current },
                            },
                            Action::Processor(call),
                        )
                    },
                    Some(_) => turn_to_next(customer_id, user_id, pending, fixed),
                },
                Event::Processor(_) => turn_to_next(customer_id, user_id, pending, fixed),
                _ => (
                    RepairFlow {
                        customer_id,
                        user_id,
                        pending,
                        fixed,
                        stage: RepairStage::Finished,
                    },
                    Action::Finish(Err(Failure::rule(ErrorKind::UnexpectedEvent, Step::Protocol))),
                ),
            },
            RepairStage::AwaitAttach { current } => match event {
                Event::Processor(ProcessorReply::Done) => {
                    let counted = count_one(fixed);
                    if current.is_default {
                        let call = ProcessorCall::SetDefaultPaymentMethod {
                            customer_id: customer_id.clone(),
                            payment_method_id: current.stripe_payment_method_id,
                        };
                        (
                            RepairFlow {
                                customer_id,
                                user_id,
                                pending,
                                fixed: counted,
                                stage: RepairStage::AwaitDefault,
                            },
                            Action::Processor(call),
                        )
                    } else {
                        turn_to_next(customer_id, user_id, pending, counted)
                    }
                },
                Event::Processor(_) => turn_to_next(customer_id, user_id, pending, fixed),
                _ => (
                    RepairFlow {
                        customer_id,
                        user_id,
                        pending,
                        fixed,
                        stage: RepairStage::Finished,
                    },
                    Action::Finish(Err(Failure::rule(ErrorKind::UnexpectedEvent, Step::Protocol))),
                ),
            },
            RepairStage::AwaitDefault => match event {
                Event::Processor(_) => turn_to_next(customer_id, user_id, pending, fixed),
                _ => (
                    RepairFlow {
                        customer_id,
                        user_id,
                        pending,
                        fixed,
                        stage: RepairStage::Finished,
                    },
                    Action::Finish(Err(Failure::rule(ErrorKind::UnexpectedEvent, Step::Protocol))),
                ),
            },
            RepairStage::Finished => (
                RepairFlow { customer_id, user_id, pending, fixed, stage: RepairStage::Finished },
                Action::Finish(Err(Failure::rule(ErrorKind::UnexpectedEvent, Step::Protocol))),
            ),
        }
    }
}

/// A repair never has more methods to look at than before: each step that
/// asks the processor about a method takes that method off the list, so the
/// repair ends.
pub proof fn repair_shrinks(flow: RepairFlow, event: Event, next: RepairFlow, action: Action<usize>)
    requires
        repair_step(flow, event, next, action),
        !(flow.stage is AwaitList),
    ensures
        next.pending@.len() <= flow.pending@.len(),
        next.stage is AwaitMethod ==> next.pending@.len() < flow.pending@.len(),
        next.fixed == flow.fixed || next.fixed == one_more(flow.fixed),
{
}

} // verus!
