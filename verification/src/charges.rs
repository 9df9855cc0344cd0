//! Charging a stored payment method.

use vstd::prelude::*;
use vstd::string::*;
use crate::billing::{refused, text_or_empty};
use crate::failure::{ErrorKind, Failure, Step};
use crate::processor::{ProcessorCall, ProcessorReply};
use crate::records::{PaymentIntentResponse, PaymentMethod};
use crate::remote::{method_rows, read_methods, unusable, Action, Event, StoreOp};
use crate::text::{lowercased, to_lowercase};

verus! {

/// The user has stored the payment method.
pub open spec fn stores(methods: Seq<PaymentMethod>, payment_method_id: Seq<char>) -> bool {
    exists|i: int|
        0 <= i < methods.len() && (#[trigger] methods[i]).stripe_payment_method_id@
            == payment_method_id
}

/// Computes `stores`.
pub fn has_method(methods: &Vec<PaymentMethod>, payment_method_id: &String) -> (r: bool)
    ensures
        r == stores(methods@, payment_method_id@),
{
    let mut i: usize = 0;
    while i < methods.len()
        invariant
            i <= methods@.len(),
            forall|j: int|
                0 <= j < i ==> (#[trigger] methods@[j]).stripe_payment_method_id@
                    != payment_method_id@,
        decreases methods@.len() - i,
    {
        if methods[i].stripe_payment_method_id == *payment_method_id {
            return true;
        }
        i += 1;
    }
    false
}

/// Where a charge stands.
#[derive(Debug, Clone, PartialEq, Eq)]
pub enum ChargeStage {
    /// Waiting for the user's stored payment methods.
    AwaitMethods,
    /// Waiting for the confirmed payment intent.
    AwaitCharge,
    /// Waiting for the method's last use to be stamped.
    AwaitMark { response: PaymentIntentResponse },
    Finished,
}

/// A charge on a stored payment method in progress.
#[derive(Debug, Clone, PartialEq, Eq)]
pub struct ChargeFlow {
    pub amount: i64,
    pub currency: String,
    pub payment_method_id: String,
    pub user_id: String,
    pub stage: ChargeStage,
}

/// One step of a charge.
///
/// Only a method that the user has stored is charged. The currency code goes
/// to the processor in lower case. Stamping the method's last use afterwards
/// is best effort.
pub open spec fn charge_step(
    flow: ChargeFlow,
    event: Event,
    next: ChargeFlow,
    action: Action<PaymentIntentResponse>,
) -> bool {
    &&& next.amount == flow.amount
    &&& next.currency == flow.currency
    &&& next.payment_method_id == flow.payment_method_id
    &&& next.user_id == flow.user_id
    &&& match flow.stage {
        ChargeStage::AwaitMethods => match event {
            Event::Store(reply) => match method_rows(reply) {
                Some(rows) => if stores(rows@, flow.payment_method_id@) {
                    &&& next.stage == ChargeStage::AwaitCharge
                    &&& action matches Action::Processor(
                        ProcessorCall::ChargeStoredMethod { amount, currency, payment_method_id },
                    )
                    &&& amount == flow.amount
                    &&& currency@ == lowercased(flow.currency@)
                    &&& payment_method_id == flow.payment_method_id
                } else {
                    next.stage == ChargeStage::Finished && action.fails_with(
                        ErrorKind::NotFound,
                        Step::ListPaymentMethods,
                        None,
                        Seq::empty(),
                    )
                },
                None => next.stage == ChargeStage::Finished && (action matches Action::Finish(
                    Err(f),
                ) && unusable(reply, Step::ListPaymentMethods, f)),
            },
            _ => next.stage == ChargeStage::Finished && action.fails_with(
                ErrorKind::UnexpectedEvent,
                Step::Protocol,
                None,
                Seq::empty(),
            ),
        },
        ChargeStage::AwaitCharge => match event {
            Event::Processor(ProcessorReply::Intent(intent)) => {
                &&& next.stage matches ChargeStage::AwaitMark { response }
                &&& response.payment_intent_id == intent.id
                &&& response.client_secret@ == text_or_empty(intent.client_secret)
                &&& action == Action::<PaymentIntentResponse>::Store(
                    StoreOp::MarkPaymentMethodUsed {
                        payment_method_id: flow.payment_method_id,
                        user_id: flow.user_id,
                    },
                )
            },
            Event::Processor(reply) => next.stage == ChargeStage::Finished && (
            action matches Action::Finish(Err(f)) && refused(
                reply,
                ErrorKind::ProcessorOperationError,
                Step::CreatePaymentIntent,
                f,
            )),
            _ => next.stage == ChargeStage::Finished && action.fails_with(
                ErrorKind::UnexpectedEvent,
                Step::Protocol,
                None,
                Seq::empty(),
            ),
        },
        ChargeStage::AwaitMark { response } => match event {
            Event::Store(_) => next.stage == ChargeStage::Finished && action == Action::<
                PaymentIntentResponse,
            >::Finish(Ok(response)),
            _ => next.stage == ChargeStage::Finished && action.fails_with(
                ErrorKind::UnexpectedEvent,
                Step::Protocol,
                None,
                Seq::empty(),
            ),
        },
        ChargeStage::Finished => next.stage == ChargeStage::Finished && action.fails_with(
            ErrorKind::UnexpectedEvent,
            Step::Protocol,
            None,
            Seq::empty(),
        ),
    }
}

/// Starts charging a stored payment method: the first thing asked for is the
/// list of the user's stored methods.
pub fn create_payment_intent_with_stored_method(
    amount: i64,
    currency: String,
    payment_method_id: String,
    user_id: String,
) -> (r: (ChargeFlow, Action<PaymentIntentResponse>))
    ensures
        r.0 == (ChargeFlow {
            amount,
            currency,
            payment_method_id,
            user_id,
            stage: ChargeStage::AwaitMethods,
        }),
        r.1 == Action::<PaymentIntentResponse>::Store(
            StoreOp::ListPaymentMethods { user_id, ordered: true },
        ),
{
    let op = StoreOp::ListPaymentMethods { user_id: user_id.clone(), ordered: true };
    (
        ChargeFlow {
            amount,
            currency,
            payment_method_id,
            user_id,
            stage: ChargeStage::AwaitMethods,
        },
        Action::Store(op),
    )
}

impl ChargeFlow {
    fn at(self, stage: ChargeStage) -> (r: ChargeFlow)
        ensures
            r == (ChargeFlow {
                amount: self.amount,
                currency: self.currency,
                payment_method_id: self.payment_method_id,
                user_id: self.user_id,
                stage,
            }),
    {
        ChargeFlow {
            amount: self.amount,
            currency: self.currency,
            payment_method_id: self.payment_method_id,
            user_id: self.user_id,
            stage,
        }
    }

    fn stop(self, failure: Failure) -> (r: (ChargeFlow, Action<PaymentIntentResponse>))
        ensures
            r.0 == (ChargeFlow {
                amount: self.amount,
                currency: self.currency,
                payment_method_id: self.payment_method_id,
                user_id: self.user_id,
                stage: ChargeStage::Finished,
            }),
            r.1 == Action::<PaymentIntentResponse>::Finish(Err(failure)),
    {
        (self.at(ChargeStage::Finished), Action::Finish(Err(failure)))
    }

    /// Takes the outcome of the action last asked for and says what comes
    /// next.
    pub fn advance(self, event: Event) -> (r: (ChargeFlow, Action<PaymentIntentResponse>))
        ensures
            charge_step(self, event, r.0, r.1),
    {
        let ChargeFlow { amount, currency, payment_method_id, user_id, stage } = self;
        let base = ChargeFlow {
            amount,
            currency,
            payment_method_id,
            user_id,
            stage: ChargeStage::Finished,
        };
        match stage {
            ChargeStage::AwaitMethods => match event {
                Event::Store(reply) => match read_methods(reply, Step::ListPaymentMethods) {
                    Ok(rows) => {
                        if has_method(&rows, &base.payment_method_id) {
                            let call = ProcessorCall::ChargeStoredMethod {
                                amount: base.amount,
                                currency: to_lowercase(base.currency.as_str()),
                                payment_method_id: base.payment_method_id.clone(),
                            };
                            (base.at(ChargeStage::AwaitCharge), Action::Processor(call))
                        } else {
                            base.stop(Failure::rule(ErrorKind::NotFound, Step::ListPaymentMethods))
                        }
                    },
                    Err(f) => base.stop(f),
                },
                _ => base.stop(Failure::rule(ErrorKind::UnexpectedEvent, Step::Protocol)),
            },
            ChargeStage::AwaitCharge => match event {
                Event::Processor(reply) => match crate::billing::payment_intent_reply(reply) {
                    Ok(response) => {
                        let op = StoreOp::MarkPaymentMethodUsed {
                            payment_method_id: base.payment_method_id.clone(),
                            user_id: base.user_id.clone(),
                        };
                        (base.at(ChargeStage::AwaitMark { response }), Action::Store(op))
                    },
                    Err(f) => base.stop(f),
                },
                _ => base.stop(Failure::rule(ErrorKind::UnexpectedEvent, Step::Protocol)),
            },
            ChargeStage::AwaitMark { response } => match event {
                Event::Store(_) => (base.at(ChargeStage::Finished), Action::Finish(Ok(response))),
                _ => base.stop(Failure::rule(ErrorKind::UnexpectedEvent, Step::Protocol)),
            },
            ChargeStage::Finished => base.stop(
                Failure::rule(ErrorKind::UnexpectedEvent, Step::Protocol),
            ),
        }
    }
}

} // verus!
