//! Single calls to the payment processor and what their answers mean:
//! customers, payment intents, setup intents, cards and prices.

use vstd::prelude::*;
use vstd::string::*;
use crate::failure::{ErrorKind, Failure, Step};
use crate::processor::{
    BillingInterval, Currency, CustomerSnapshot, IntentSnapshot, MethodSnapshot, ProcessorCall,
    ProcessorReply,
};
use crate::records::{PaymentIntentResponse, PaymentMethodResponse, SetupIntentResponse};
use crate::remote::{Action, Event, StoreOp};
use crate::text::{lowercased, to_lowercase};

verus! {

/// The currency of a new payment intent or price: `usd`, `eur` or `gbp` in any
/// case; every other code counts as `usd`.
pub open spec fn currency_for(code: Seq<char>) -> Currency {
    if lowercased(code) == "eur"@ {
        Currency::Eur
    } else if lowercased(code) == "gbp"@ {
        Currency::Gbp
    } else {
        Currency::Usd
    }
}

/// Computes `currency_for`.
pub fn currency_of(code: &str) -> (r: Currency)
    ensures
        r == currency_for(code@),
{
    let lower = to_lowercase(code);
    if lower == String::from_str("eur") {
        Currency::Eur
    } else if lower == String::from_str("gbp") {
        Currency::Gbp
    } else {
        Currency::Usd
    }
}

/// The processor's code of a currency.
pub open spec fn currency_code(currency: Currency) -> Seq<char> {
    match currency {
        Currency::Usd => "usd"@,
        Currency::Eur => "eur"@,
        Currency::Gbp => "gbp"@,
    }
}

/// Computes `currency_code`.
pub fn currency_text(currency: Currency) -> (r: String)
    ensures
        r@ == currency_code(currency),
{
    match currency {
        Currency::Usd => String::from_str("usd"),
        Currency::Eur => String::from_str("eur"),
        Currency::Gbp => String::from_str("gbp"),
    }
}

/// The billing interval that a text names, in any case: `month` or `year`.
pub open spec fn interval_for(name: Seq<char>) -> Option<BillingInterval> {
    if lowercased(name) == "month"@ {
        Some(BillingInterval::Month)
    } else if lowercased(name) == "year"@ {
        Some(BillingInterval::Year)
    } else {
        None
    }
}

/// Computes `interval_for`.
pub fn interval_of(name: &str) -> (r: Option<BillingInterval>)
    ensures
        r == interval_for(name@),
{
    let lower = to_lowercase(name);
    if lower == String::from_str("month") {
        Some(BillingInterval::Month)
    } else if lower == String::from_str("year") {
        Some(BillingInterval::Year)
    } else {
        None
    }
}

/// The failure that stands for a processor answer which is not the one a
/// call was waiting for: the processor's refusal with its message, or an
/// answer of another kind.
pub open spec fn refused(reply: ProcessorReply, kind: ErrorKind, step: Step, f: Failure) -> bool {
    match reply {
        ProcessorReply::Rejected { detail } => f.is(kind, step, None, detail@),
        _ => f.is(ErrorKind::UnexpectedEvent, Step::Protocol, None, Seq::empty()),
    }
}

pub(crate) fn refusal(reply: ProcessorReply, kind: ErrorKind, step: Step) -> (f: Failure)
    ensures
        refused(reply, kind, step, f),
{
    match reply {
        ProcessorReply::Rejected { detail } => Failure::reported(kind, step, detail),
        _ => Failure::rule(ErrorKind::UnexpectedEvent, Step::Protocol),
    }
}

/// The call that creates a card payment intent.
pub fn create_payment_intent(amount: i64, currency: &str, customer_id: Option<String>) -> (call:
    ProcessorCall)
    ensures
        call == (ProcessorCall::CreatePaymentIntent {
            amount,
            unit: currency_for(currency@),
            customer: customer_id,
        }),
{
    ProcessorCall::CreatePaymentIntent {
        amount,
        unit: currency_of(currency),
        customer: customer_id,
    }
}

/// Text of an optional string, empty for none.
pub open spec fn text_or_empty(text: Option<String>) -> Seq<char> {
    match text {
        Some(t) => t@,
        None => Seq::empty(),
    }
}

/// What the caller learns of a new payment intent: its id and its client
/// secret, empty where the processor gave none.
pub fn payment_intent_reply(reply: ProcessorReply) -> (r: Result<PaymentIntentResponse, Failure>)
    ensures
        match reply {
            ProcessorReply::Intent(intent) => r matches Ok(response) && response.payment_intent_id
                == intent.id && response.client_secret@ == text_or_empty(intent.client_secret),
            _ => r matches Err(f) && refused(
                reply,
                ErrorKind::ProcessorOperationError,
                Step::CreatePaymentIntent,
                f,
            ),
        },
{
    match reply {
        ProcessorReply::Intent(intent) => Ok(
            PaymentIntentResponse {
                client_secret: match intent.client_secret {
                    Some(secret) => secret,
                    None => String::new(),
                },
                payment_intent_id: intent.id,
            },
        ),
        other => Err(
            refusal(other, ErrorKind::ProcessorOperationError, Step::CreatePaymentIntent),
        ),
    }
}

/// The call that looks a payment intent up.
pub fn verify_payment_intent(payment_intent_id: String) -> (call: ProcessorCall)
    ensures
        call == (ProcessorCall::RetrievePaymentIntent { payment_intent_id }),
{
    ProcessorCall::RetrievePaymentIntent { payment_intent_id }
}

/// The payment intent that was looked up.
pub fn verified_payment_intent(reply: ProcessorReply) -> (r: Result<IntentSnapshot, Failure>)
    ensures
        match reply {
            ProcessorReply::Intent(intent) => r == Ok::<IntentSnapshot, Failure>(intent),
            _ => r matches Err(f) && refused(
                reply,
                ErrorKind::ProcessorLookupError,
                Step::RetrievePaymentIntent,
                f,
            ),
        },
{
    match reply {
        ProcessorReply::Intent(intent) => Ok(intent),
        other => Err(refusal(other, ErrorKind::ProcessorLookupError, Step::RetrievePaymentIntent)),
    }
}

/// The call that creates a customer.
pub fn create_stripe_customer(email: String, name: Option<String>) -> (call: ProcessorCall)
    ensures
        call == (ProcessorCall::CreateCustomer { email, full_name: name }),
{
    ProcessorCall::CreateCustomer { email, full_name: name }
}

/// The customer that was created.
pub fn created_customer(reply: ProcessorReply) -> (r: Result<CustomerSnapshot, Failure>)
    ensures
        match reply {
            ProcessorReply::Customer(customer) => r == Ok::<CustomerSnapshot, Failure>(customer),
            _ => r matches Err(f) && refused(
                reply,
                ErrorKind::ProcessorOperationError,
                Step::CreateCustomer,
                f,
            ),
        },
{
    match reply {
        ProcessorReply::Customer(customer) => Ok(customer),
        other => Err(refusal(other, ErrorKind::ProcessorOperationError, Step::CreateCustomer)),
    }
}

/// Where the search for a customer stands.
#[derive(Debug, Clone, Copy, PartialEq, Eq, Structural)]
pub enum CustomerStage {
    /// Waiting for the customers that carry the e-mail address.
    AwaitSearch,
    /// Waiting for the new customer.
    AwaitCreation,
    Finished,
}

/// The search for a customer by e-mail address, which creates the customer
/// where none is found.
#[derive(Debug, Clone, PartialEq, Eq)]
pub struct CustomerFlow {
    pub email: String,
    pub name: Option<String>,
    pub stage: CustomerStage,
}

/// One step of the search for a customer: the first customer found is taken;
/// where none is found one is created with the e-mail address and the name.
pub open spec fn customer_step(
    flow: CustomerFlow,
    event: Event,
    next: CustomerFlow,
    action: Action<CustomerSnapshot>,
) -> bool {
    &&& next.email == flow.email
    &&& next.name == flow.name
    &&& match (flow.stage, event) {
        (
            CustomerStage::AwaitSearch,
            Event::Processor(ProcessorReply::Customers(found)),
        ) => if found@.len()
            > 0 {
            next.stage == CustomerStage::Finished && action == Action::<CustomerSnapshot>::Finish(
                Ok(found@[0]),
            )
        } else {
            next.stage == CustomerStage::AwaitCreation && action == Action::<
                CustomerSnapshot,
            >::Processor(ProcessorCall::CreateCustomer { email: flow.email, full_name: flow.name })
        },
        (CustomerStage::AwaitSearch, Event::Processor(reply)) => next.stage
            == CustomerStage::Finished && (action matches Action::Finish(Err(f)) && refused(
            reply,
            ErrorKind::ProcessorLookupError,
            Step::FindCustomer,
            f,
        )),
        (
            CustomerStage::AwaitCreation,
            Event::Processor(ProcessorReply::Customer(customer)),
        ) => next.stage
            == CustomerStage::Finished && action == Action::<CustomerSnapshot>::Finish(
            Ok(customer),
        ),
        (CustomerStage::AwaitCreation, Event::Processor(reply)) => next.stage
            == CustomerStage::Finished && (action matches Action::Finish(Err(f)) && refused(
            reply,
            ErrorKind::ProcessorOperationError,
            Step::CreateCustomer,
            f,
        )),
        _ => next.stage == CustomerStage::Finished && action.fails_with(
            ErrorKind::UnexpectedEvent,
            Step::Protocol,
            None,
            Seq::empty(),
        ),
    }
}

/// Starts looking for the customer with an e-mail address.
pub fn get_or_create_customer(email: String, name: Option<String>) -> (r: (
    CustomerFlow,
    Action<CustomerSnapshot>,
))
    ensures
        r.0 == (CustomerFlow { email, name, stage: CustomerStage::AwaitSearch }),
        r.1 == Action::<CustomerSnapshot>::Processor(ProcessorCall::FindCustomer { email }),
{
    let call = ProcessorCall::FindCustomer { email: email.clone() };
    (CustomerFlow { email, name, stage: CustomerStage::AwaitSearch }, Action::Processor(call))
}

/// The e-mail address under which a user without a known address is filed.
pub open spec fn placeholder_email(user_id: Seq<char>) -> Seq<char> {
    "user+"@ + user_id + "@aura.app"@
}

/// Starts looking for, or creating, the customer of a user whose e-mail
/// address is not known.
pub fn initialize_stripe_customer(user_id: &str) -> (r: (CustomerFlow, Action<CustomerSnapshot>))
    ensures
        r.0.email@ == placeholder_email(user_id@),
        r.0.name is None,
        r.0.stage == CustomerStage::AwaitSearch,
        r.1 == Action::<CustomerSnapshot>::Processor(
            ProcessorCall::FindCustomer { email: r.0.email },
        ),
{
    let mut email = String::from_str("user+");
    email.append(user_id);
    email.append("@aura.app");
    get_or_create_customer(email, None)
}

fn copy_name(name: &Option<String>) -> (r: Option<String>)
    ensures
        r == *name,
{
    match name {
        Some(n) => Some(n.clone()),
        None => None,
    }
}

impl CustomerFlow {
    /// Takes the outcome of the call last asked for and says what comes next.
    pub fn advance(self, event: Event) -> (r: (CustomerFlow, Action<CustomerSnapshot>))
        ensures
            customer_step(self, event, r.0, r.1),
    {
        let CustomerFlow { email, name, stage } = self;
        match (stage, event) {
            (
                CustomerStage::AwaitSearch,
                Event::Processor(ProcessorReply::Customers(mut found)),
            ) => {
                if found.len() > 0 {
                    let first = found.remove(0);
                    (
                        CustomerFlow { email, name, stage: CustomerStage::Finished },
                        Action::Finish(Ok(first)),
                    )
                } else {
                    let call = ProcessorCall::CreateCustomer {
                        email: email.clone(),
                        full_name: copy_name(&name),
                    };
                    (
                        CustomerFlow { email, name, stage: CustomerStage::AwaitCreation },
                        Action::Processor(call),
                    )
                }
            },
            (CustomerStage::AwaitSearch, Event::Processor(reply)) => (
                CustomerFlow { email, name, stage: CustomerStage::Finished },
                Action::Finish(
                    Err(refusal(reply, ErrorKind::ProcessorLookupError, Step::FindCustomer)),
                ),
            ),
            (
                CustomerStage::AwaitCreation,
                Event::Processor(ProcessorReply::Customer(customer)),
            ) => (
                CustomerFlow { email, name, stage: CustomerStage::Finished },
                Action::Finish(Ok(customer)),
            ),
            (CustomerStage::AwaitCreation, Event::Processor(reply)) => (
                CustomerFlow { email, name, stage: CustomerStage::Finished },
                Action::Finish(
                    Err(refusal(reply, ErrorKind::ProcessorOperationError, Step::CreateCustomer)),
                ),
            ),
            _ => (
                CustomerFlow { email, name, stage: CustomerStage::Finished },
                Action::Finish(Err(Failure::rule(ErrorKind::UnexpectedEvent, Step::Protocol))),
            ),
        }
    }
}

/// The call that creates a setup intent for cards.
pub fn create_setup_intent(customer_id: String) -> (call: ProcessorCall)
    ensures
        call == (ProcessorCall::CreateSetupIntent { customer_id }),
{
    ProcessorCall::CreateSetupIntent { customer_id }
}

/// The call that starts adding a payment method: a setup intent, which the
/// user interface confirms before the method is stored.
pub fn create_and_store_payment_method(customer_id: String) -> (call: ProcessorCall)
    ensures
        call == (ProcessorCall::CreateSetupIntent { customer_id }),
{
    create_setup_intent(customer_id)
}

/// What the caller learns of a new setup intent: its id and its client
/// secret, empty where the processor gave none.
pub fn setup_intent_reply(reply: ProcessorReply) -> (r: Result<SetupIntentResponse, Failure>)
    ensures
        match reply {
            ProcessorReply::Setup(setup) => r matches Ok(response) && response.setup_intent_id
                == setup.id && response.client_secret@ == text_or_empty(setup.client_secret),
            _ => r matches Err(f) && refused(
                reply,
                ErrorKind::ProcessorOperationError,
                Step::CreateSetupIntent,
                f,
            ),
        },
{
    match reply {
        ProcessorReply::Setup(setup) => Ok(
            SetupIntentResponse {
                client_secret: match setup.client_secret {
                    Some(secret) => secret,
                    None => String::new(),
                },
                setup_intent_id: setup.id,
            },
        ),
        other => Err(refusal(other, ErrorKind::ProcessorOperationError, Step::CreateSetupIntent)),
    }
}

/// The cards among payment methods, in their order: a method without card
/// details is left out, and none is marked default.
pub open spec fn cards_of(methods: Seq<MethodSnapshot>) -> Seq<PaymentMethodResponse>
    decreases methods.len(),
{
    if methods.len() == 0 {
        Seq::empty()
    } else {
        let earlier = cards_of(methods.drop_last());
        match methods.last().card {
            Some(card) => earlier.push(
                PaymentMethodResponse {
                    id: methods.last().id,
                    card_brand: card.brand,
                    card_last4: card.last4,
                    card_exp_month: card.exp_month,
                    card_exp_year: card.exp_year,
                    is_default: false,
                },
            ),
            None => earlier,
        }
    }
}

/// The call that lists a customer's cards.
pub fn get_customer_payment_methods(customer_id: String) -> (call: ProcessorCall)
    ensures
        call == (ProcessorCall::ListCards { customer_id }),
{
    ProcessorCall::ListCards { customer_id }
}

/// The call that lists a customer's cards, under its other name.
pub fn list_payment_methods(customer_id: String) -> (call: ProcessorCall)
    ensures
        call == (ProcessorCall::ListCards { customer_id }),
{
    get_customer_payment_methods(customer_id)
}

/// The cards that the processor listed.
pub fn customer_payment_methods_reply(reply: ProcessorReply) -> (r: Result<
    Vec<PaymentMethodResponse>,
    Failure,
>)
    ensures
        match reply {
            ProcessorReply::Methods(methods) => r matches Ok(cards) && cards@ == cards_of(methods@),
            _ => r matches Err(f) && refused(
                reply,
                ErrorKind::ProcessorLookupError,
                Step::ListPaymentMethods,
                f,
            ),
        },
{
    match reply {
        ProcessorReply::Methods(methods) => {
            let ghost all = methods@;
            let mut methods = methods;
            let mut cards: Vec<PaymentMethodResponse> = Vec::new();
            let ghost mut done: int = 0;
            while methods.len() > 0
                invariant
                    0 <= done,
                    done + methods@.len() == all.len(),
                    methods@ == all.skip(done),
                    cards@ == cards_of(all.take(done)),
                decreases methods@.len(),
            {
                let method = methods.remove(0);
                proof {
                    assert(all.take(done + 1).drop_last() =~= all.take(done));
                    assert(all.take(done + 1).last() == all[done]);
                    assert(method == all[done]);
                    assert(methods@ =~= all.skip(done + 1));
                }
                match method.card {
                    Some(card) => {
                        cards.push(
                            PaymentMethodResponse {
                                id: method.id,
                                card_brand: card.brand,
                                card_last4: card.last4,
                                card_exp_month: card.exp_month,
                                card_exp_year: card.exp_year,
                                is_default: false,
                            },
                        );
                    },
                    None => {},
                }
                proof {
                    done = done + 1;
                }
            }
            assert(all.take(done) =~= all);
            Ok(cards)
        },
        other => Err(refusal(other, ErrorKind::ProcessorLookupError, Step::ListPaymentMethods)),
    }
}

/// The call that detaches a payment method from its customer.
pub fn delete_payment_method(payment_method_id: String) -> (call: ProcessorCall)
    ensures
        call == (ProcessorCall::DetachPaymentMethod { payment_method_id }),
{
    ProcessorCall::DetachPaymentMethod { payment_method_id }
}

/// The call that makes a payment method the customer's default at the
/// processor.
pub fn set_default_payment_method(customer_id: String, payment_method_id: String) -> (call:
    ProcessorCall)
    ensures
        call == (ProcessorCall::SetDefaultPaymentMethod { customer_id, payment_method_id }),
{
    ProcessorCall::SetDefaultPaymentMethod { customer_id, payment_method_id }
}

/// Whether a processor mutation went through.
pub fn mutation_reply(reply: ProcessorReply, step: Step) -> (r: Result<(), Failure>)
    ensures
        match reply {
            ProcessorReply::Done => r is Ok,
            _ => r matches Err(f) && refused(reply, ErrorKind::ProcessorOperationError, step, f),
        },
{
    match reply {
        ProcessorReply::Done => Ok(()),
        other => Err(refusal(other, ErrorKind::ProcessorOperationError, step)),
    }
}

/// The operation that lists a user's stored payment methods.
pub fn get_stored_payment_methods(user_id: String) -> (op: StoreOp)
    ensures
        op == (StoreOp::ListPaymentMethods { user_id, ordered: true }),
{
    StoreOp::ListPaymentMethods { user_id, ordered: true }
}

/// The operation that lists a user's stored payment methods, under its other
/// name.
pub fn get_user_payment_methods(user_id: String) -> (op: StoreOp)
    ensures
        op == (StoreOp::ListPaymentMethods { user_id, ordered: true }),
{
    StoreOp::ListPaymentMethods { user_id, ordered: true }
}

/// The operation that stamps the last use of a payment method.
pub fn mark_payment_method_used(payment_method_id: String, user_id: String) -> (op: StoreOp)
    ensures
        op == (StoreOp::MarkPaymentMethodUsed { payment_method_id, user_id }),
{
    StoreOp::MarkPaymentMethodUsed { payment_method_id, user_id }
}

/// The call that creates a recurring price for a product. Only `month` and
/// `year` are accepted as the interval.
pub fn create_price_for_product(
    product_id: String,
    amount: i64,
    currency: String,
    interval: &str,
) -> (r:
    Result<ProcessorCall, Failure>)
    ensures
        interval@ == "month"@ || interval@ == "year"@ ==> r is Ok,
        interval@ != "month"@ && interval@ != "year"@ ==> (r matches Err(f) && f.is(
            ErrorKind::InvalidInput,
            Step::CreatePrice,
            None,
            interval@,
        )),
        r matches Ok(call) ==> call == (ProcessorCall::CreateRecurringPrice {
            product_id,
            amount,
            currency,
            interval: if interval@ == "month"@ {
                BillingInterval::Month
            } else {
                BillingInterval::Year
            },
            interval_count: None,
        }),
{
    let given = String::from_str(interval);
    if given == String::from_str("month") {
        Ok(
            ProcessorCall::CreateRecurringPrice {
                product_id,
                amount,
                currency,
                interval: BillingInterval::Month,
                interval_count: None,
            },
        )
    } else if given == String::from_str("year") {
        Ok(
            ProcessorCall::CreateRecurringPrice {
                product_id,
                amount,
                currency,
                interval: BillingInterval::Year,
                interval_count: None,
            },
        )
    } else {
        Err(Failure::reported(ErrorKind::InvalidInput, Step::CreatePrice, given))
    }
}

/// The id of the price that was created.
pub fn created_price(reply: ProcessorReply) -> (r: Result<String, Failure>)
    ensures
        match reply {
            ProcessorReply::Price(price) => r == Ok::<String, Failure>(price.id),
            _ => r matches Err(f) && refused(
                reply,
                ErrorKind::ProcessorOperationError,
                Step::CreatePrice,
                f,
            ),
        },
{
    match reply {
        ProcessorReply::Price(price) => Ok(price.id),
        other => Err(refusal(other, ErrorKind::ProcessorOperationError, Step::CreatePrice)),
    }
}

/// The call that creates a product, the first half of setting one up.
pub fn setup_stripe_product(name: String, description: String) -> (call: ProcessorCall)
    ensures
        call == (ProcessorCall::CreateProduct { name, description }),
{
    ProcessorCall::CreateProduct { name, description }
}

/// The second half of setting a product up: the call that creates its price,
/// once a month unless `year` is named, in `usd` unless `eur` or `gbp` is.
pub fn setup_product_price(
    reply: ProcessorReply,
    amount: i64,
    currency: &str,
    interval: &str,
) -> (r:
    Result<ProcessorCall, Failure>)
    ensures
        match reply {
            ProcessorReply::Product(product) => r matches Ok(
                ProcessorCall::CreateRecurringPrice {
                    product_id,
                    amount: price,
                    currency: code,
                    interval: which,
                    interval_count,
                },
            ) && product_id == product.id && price == amount && code@ == currency_code(
                currency_for(currency@),
            ) && which == (match interval_for(interval@) {
                Some(BillingInterval::Year) => BillingInterval::Year,
                _ => BillingInterval::Month,
            }) && interval_count == Some(1u64),
            _ => r matches Err(f) && refused(
                reply,
                ErrorKind::ProcessorOperationError,
                Step::CreateProduct,
                f,
            ),
        },
{
    match reply {
        ProcessorReply::Product(product) => {
            let which = match interval_of(interval) {
                Some(BillingInterval::Year) => BillingInterval::Year,
                _ => BillingInterval::Month,
            };
            Ok(
                ProcessorCall::CreateRecurringPrice {
                    product_id: product.id,
                    amount,
                    currency: currency_text(currency_of(currency)),
                    interval: which,
                    interval_count: Some(1),
                },
            )
        },
        other => Err(refusal(other, ErrorKind::ProcessorOperationError, Step::CreateProduct)),
    }
}

/// What a price says of its product, amount and currency.
#[derive(Debug, Clone, PartialEq, Eq)]
pub struct PriceSummary {
    pub product_id: String,
    pub amount: i64,
    pub currency: String,
}

/// The call that looks a price up to learn its product.
pub fn debug_get_product_id_from_price(price_id: String) -> (call: ProcessorCall)
    ensures
        call == (ProcessorCall::RetrievePrice { price_id }),
{
    ProcessorCall::RetrievePrice { price_id }
}

/// The product, amount and currency of the price that was looked up: no
/// amount counts as 0, no currency as `unknown`; a price without a product is
/// a failure.
pub fn product_of_price(reply: ProcessorReply) -> (r: Result<PriceSummary, Failure>)
    ensures
        match reply {
            ProcessorReply::Price(price) => match price.product {
                Some(product) => r matches Ok(summary) && summary.product_id == product
                    && summary.amount == (match price.unit_amount {
                    Some(a) => a,
                    None => 0,
                }) && summary.currency@ == (match price.currency {
                    Some(c) => c@,
                    None => "unknown"@,
                }),
                None => r matches Err(f) && f.is(
                    ErrorKind::ProcessorLookupError,
                    Step::ResolveProduct,
                    None,
                    Seq::empty(),
                ),
            },
            _ => r matches Err(f) && refused(
                reply,
                ErrorKind::ProcessorLookupError,
                Step::RetrievePrice,
                f,
            ),
        },
{
    match reply {
        ProcessorReply::Price(price) => match price.product {
            Some(product) => Ok(
                PriceSummary {
                    product_id: product,
                    amount: match price.unit_amount {
                        Some(a) => a,
                        None => 0,
                    },
                    currency: match price.currency {
                        Some(c) => c,
                        None => String::from_str("unknown"),
                    },
                },
            ),
            None => Err(Failure::rule(ErrorKind::ProcessorLookupError, Step::ResolveProduct)),
        },
        other => Err(refusal(other, ErrorKind::ProcessorLookupError, Step::RetrievePrice)),
    }
}

} // verus!
