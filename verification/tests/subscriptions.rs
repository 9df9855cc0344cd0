use aura_backend::failure::{ErrorKind, Failure, Step};
use aura_backend::processor::{
    CardDetails, MethodSnapshot, ProcessorCall, ProcessorReply, SubscriptionSnapshot,
};
use aura_backend::records::{PaymentMethod, Profile, SubscriptionResponse};
use aura_backend::remote::{Action, Event, ProfileColumns, Rows, StoreOp, StoreReply};
use aura_backend::subscriptions::{
    cancel_subscription, create_subscription, get_subscription_status, subscription_response,
    subscription_status_reply, sync_all_user_subscriptions, sync_subscription_status, MirrorStage,
    SubscribeStage, SyncAllStage, SyncReport,
};

fn profile(customer: Option<&str>, subscription: Option<&str>) -> Profile {
    Profile {
        id: "user_1".to_string(),
        updated_at: None,
        username: None,
        full_name: None,
        avatar_url: None,
        onboarding_complete: None,
        stripe_customer_id: customer.map(|c| c.to_string()),
        subscription_id: subscription.map(|s| s.to_string()),
        subscription_status: None,
        subscription_period_end: None,
        total_tokens: None,
        tokens_remaining: None,
        tokens_used: None,
        total_purchases: None,
        total_spent_cents: None,
        last_purchase_at: None,
    }
}

fn row(pm: &str, is_default: bool) -> PaymentMethod {
    PaymentMethod {
        id: format!("row_{}", pm),
        user_id: "user_1".to_string(),
        stripe_customer_id: "cus_1".to_string(),
        stripe_payment_method_id: pm.to_string(),
        card_brand: "visa".to_string(),
        card_last4: "4242".to_string(),
        card_exp_month: 12,
        card_exp_year: 2030,
        is_default,
        is_active: true,
        created_at: None,
        updated_at: None,
        last_used_at: None,
    }
}

fn profiles(rows: Vec<Profile>) -> Event {
    Event::Store(StoreReply::Answered { status: 200, body: String::new(), rows: Rows::Profiles(rows) })
}

fn methods(rows: Vec<PaymentMethod>) -> Event {
    Event::Store(StoreReply::Answered {
        status: 200,
        body: String::new(),
        rows: Rows::PaymentMethods(rows),
    })
}

fn store_status(status: u16, body: &str) -> Event {
    Event::Store(StoreReply::Answered {
        status,
        body: body.to_string(),
        rows: Rows::Unread { detail: String::new() },
    })
}

fn method(customer: Option<&str>) -> Event {
    Event::Processor(ProcessorReply::Method(MethodSnapshot {
        id: "pm_b".to_string(),
        customer: customer.map(|c| c.to_string()),
        card: Some(CardDetails {
            brand: "visa".to_string(),
            last4: "4242".to_string(),
            exp_month: 1,
            exp_year: 2030,
        }),
    }))
}

fn subscription(status: &str, first_price: Option<&str>) -> SubscriptionSnapshot {
    SubscriptionSnapshot {
        id: "sub_1".to_string(),
        customer: "cus_1".to_string(),
        status: status.to_string(),
        current_period_end: 1_700_000_000,
        first_price: first_price.map(|p| p.to_string()),
    }
}

fn failure_of<T: std::fmt::Debug>(action: Action<T>) -> Failure {
    match action {
        Action::Finish(Err(f)) => f,
        other => panic!("expected a failure, got {:?}", other),
    }
}

#[test]
fn subscription_is_created_on_the_default_method() {
    let (flow, action) = create_subscription("user_1".to_string(), "price_m".to_string());
    assert_eq!(
        action,
        Action::Store(StoreOp::FetchProfile {
            user_id: "user_1".to_string(),
            columns: ProfileColumns::Unspecified,
        })
    );
    let (flow, action) = flow.advance(profiles(vec![profile(Some("cus_1"), None)]));
    assert_eq!(
        action,
        Action::Store(StoreOp::ListPaymentMethods { user_id: "user_1".to_string(), ordered: false })
    );
    let (flow, action) = flow.advance(methods(vec![row("pm_a", false), row("pm_b", true)]));
    assert_eq!(
        action,
        Action::Processor(ProcessorCall::RetrievePaymentMethod {
            payment_method_id: "pm_b".to_string()
        })
    );
    let (flow, action) = flow.advance(method(None));
    assert_eq!(
        action,
        Action::Processor(ProcessorCall::AttachPaymentMethod {
            payment_method_id: "pm_b".to_string(),
            customer_id: "cus_1".to_string(),
        })
    );
    let (flow, action) = flow.advance(Event::Processor(ProcessorReply::Done));
    assert_eq!(
        action,
        Action::Processor(ProcessorCall::SetDefaultPaymentMethod {
            customer_id: "cus_1".to_string(),
            payment_method_id: "pm_b".to_string(),
        })
    );
    let (flow, action) = flow.advance(Event::Processor(ProcessorReply::Done));
    assert_eq!(
        action,
        Action::Processor(ProcessorCall::CreateSubscription {
            customer_id: "cus_1".to_string(),
            price_id: "price_m".to_string(),
            payment_method_id: "pm_b".to_string(),
            user_id: "user_1".to_string(),
        })
    );
    let (flow, action) = flow.advance(Event::Processor(ProcessorReply::Subscription(
        subscription("active", Some("price_other")),
    )));
    assert_eq!(
        action,
        Action::Store(StoreOp::MirrorSubscription {
            user_id: "user_1".to_string(),
            customer_id: "cus_1".to_string(),
            subscription_id: "sub_1".to_string(),
            status: "active".to_string(),
            period_end: 1_700_000_000,
        })
    );
    let (flow, action) = flow.advance(store_status(204, ""));
    assert_eq!(flow.stage, SubscribeStage::Finished);
    assert_eq!(
        action,
        Action::Finish(Ok(SubscriptionResponse {
            subscription_id: "sub_1".to_string(),
            customer_id: "cus_1".to_string(),
            status: "active".to_string(),
            current_period_end: 1_700_000_000,
            price_id: "price_m".to_string(),
        }))
    );
}

#[test]
fn subscription_falls_back_to_the_first_method() {
    let (flow, _) = create_subscription("user_1".to_string(), "price_m".to_string());
    let (flow, _) = flow.advance(profiles(vec![profile(Some("cus_1"), None)]));
    let (flow, action) = flow.advance(methods(vec![row("pm_a", false), row("pm_b", false)]));
    assert_eq!(
        action,
        Action::Processor(ProcessorCall::RetrievePaymentMethod {
            payment_method_id: "pm_a".to_string()
        })
    );
    let (_, action) = flow.advance(method(Some("cus_1")));
    assert!(matches!(action, Action::Processor(ProcessorCall::SetDefaultPaymentMethod { .. })));
}

#[test]
fn subscription_without_payment_methods_fails_before_any_subscription_call() {
    let mut seen = Vec::new();
    let (flow, action) = create_subscription("user_1".to_string(), "price_m".to_string());
    seen.push(format!("{:?}", action));
    let (flow, action) = flow.advance(profiles(vec![profile(Some("cus_1"), None)]));
    seen.push(format!("{:?}", action));
    let (flow, action) = flow.advance(methods(vec![]));
    seen.push(format!("{:?}", action));
    assert_eq!(flow.stage, SubscribeStage::Finished);
    assert_eq!(
        failure_of(action),
        Failure::rule(ErrorKind::NoPaymentMethod, Step::ListPaymentMethods)
    );
    assert!(!seen.iter().any(|a| a.contains("CreateSubscription")));
    let (_, action) = flow.advance(Event::Processor(ProcessorReply::Done));
    assert_eq!(failure_of(action).kind, ErrorKind::UnexpectedEvent);
}

#[test]
fn subscription_without_customer_fails() {
    let (flow, _) = create_subscription("user_1".to_string(), "price_m".to_string());
    let (flow, action) = flow.advance(profiles(vec![profile(None, None)]));
    assert_eq!(flow.stage, SubscribeStage::Finished);
    assert_eq!(failure_of(action), Failure::rule(ErrorKind::NoCustomer, Step::LoadProfile));
}

#[test]
fn subscription_without_profile_fails() {
    let (flow, _) = create_subscription("user_1".to_string(), "price_m".to_string());
    let (_, action) = flow.advance(profiles(vec![]));
    assert_eq!(failure_of(action), Failure::rule(ErrorKind::NotFound, Step::LoadProfile));
}

#[test]
fn failed_mirror_write_is_reported_after_the_subscription_exists() {
    let (flow, _) = create_subscription("user_1".to_string(), "price_m".to_string());
    let (flow, _) = flow.advance(profiles(vec![profile(Some("cus_1"), None)]));
    let (flow, _) = flow.advance(methods(vec![row("pm_b", true)]));
    let (flow, _) = flow.advance(method(Some("cus_1")));
    let (flow, _) = flow.advance(Event::Processor(ProcessorReply::Done));
    let (flow, _) =
        flow.advance(Event::Processor(ProcessorReply::Subscription(subscription("active", None))));
    let (_, action) = flow.advance(store_status(500, "down"));
    assert_eq!(
        failure_of(action),
        Failure::answered(Step::MirrorSubscription, 500, "down".to_string())
    );
}

#[test]
fn rejected_subscription_is_an_operation_error() {
    let (flow, _) = create_subscription("user_1".to_string(), "price_m".to_string());
    let (flow, _) = flow.advance(profiles(vec![profile(Some("cus_1"), None)]));
    let (flow, _) = flow.advance(methods(vec![row("pm_b", true)]));
    let (flow, _) = flow.advance(method(Some("cus_1")));
    let (flow, _) = flow.advance(Event::Processor(ProcessorReply::Done));
    let (_, action) = flow.advance(Event::Processor(ProcessorReply::Rejected {
        detail: "price inactive".to_string(),
    }));
    let f = failure_of(action);
    assert_eq!(f.kind, ErrorKind::ProcessorOperationError);
    assert_eq!(f.step, Step::CreateSubscription);
    assert_eq!(f.detail, "price inactive");
}

#[test]
fn cancellation_mirrors_canceled_whatever_the_processor_says() {
    let (flow, action) = cancel_subscription("sub_1".to_string(), "user_1".to_string());
    assert_eq!(
        action,
        Action::Processor(ProcessorCall::CancelAtPeriodEnd { subscription_id: "sub_1".to_string() })
    );
    let (flow, action) =
        flow.advance(Event::Processor(ProcessorReply::Subscription(subscription("active", None))));
    assert_eq!(
        action,
        Action::Store(StoreOp::MirrorSubscription {
            user_id: "user_1".to_string(),
            customer_id: "cus_1".to_string(),
            subscription_id: "sub_1".to_string(),
            status: "canceled".to_string(),
            period_end: 1_700_000_000,
        })
    );
    let (flow, action) = flow.advance(store_status(204, ""));
    assert_eq!(flow.stage, MirrorStage::Finished);
    assert!(matches!(action, Action::Finish(Ok(_))));
}

#[test]
fn rejected_cancellation_is_an_operation_error() {
    let (flow, _) = cancel_subscription("sub_1".to_string(), "user_1".to_string());
    let (_, action) =
        flow.advance(Event::Processor(ProcessorReply::Rejected { detail: "gone".to_string() }));
    let f = failure_of(action);
    assert_eq!(f.kind, ErrorKind::ProcessorOperationError);
    assert_eq!(f.step, Step::CancelSubscription);
}

#[test]
fn sync_overwrites_the_mirror_with_the_processor_status() {
    let (flow, action) = sync_subscription_status("user_1".to_string(), "sub_1".to_string());
    assert_eq!(
        action,
        Action::Processor(ProcessorCall::RetrieveSubscription {
            subscription_id: "sub_1".to_string()
        })
    );
    let (flow, action) = flow.advance(Event::Processor(ProcessorReply::Subscription(
        subscription("past_due", Some("price_m")),
    )));
    assert_eq!(
        action,
        Action::Store(StoreOp::MirrorSubscription {
            user_id: "user_1".to_string(),
            customer_id: "cus_1".to_string(),
            subscription_id: "sub_1".to_string(),
            status: "past_due".to_string(),
            period_end: 1_700_000_000,
        })
    );
    let (_, action) = flow.advance(store_status(200, ""));
    assert_eq!(
        action,
        Action::Finish(Ok(SubscriptionResponse {
            subscription_id: "sub_1".to_string(),
            customer_id: "cus_1".to_string(),
            status: "past_due".to_string(),
            current_period_end: 1_700_000_000,
            price_id: "price_m".to_string(),
        }))
    );
}

#[test]
fn subscription_without_items_reports_an_unknown_price() {
    assert_eq!(subscription_response(subscription("active", None)).price_id, "unknown");
    assert_eq!(
        get_subscription_status("sub_1".to_string()),
        ProcessorCall::RetrieveSubscription { subscription_id: "sub_1".to_string() }
    );
    let reply = ProcessorReply::Rejected { detail: "no".to_string() };
    assert_eq!(
        subscription_status_reply(reply),
        Err(Failure::reported(
            ErrorKind::ProcessorLookupError,
            Step::RetrieveSubscription,
            "no".to_string()
        ))
    );
    assert_eq!(
        subscription_status_reply(ProcessorReply::Subscription(subscription("active", Some("p"))))
            .unwrap()
            .price_id,
        "p"
    );
}

#[test]
fn sync_of_all_counts_the_refreshed_subscription() {
    let (flow, action) = sync_all_user_subscriptions("user_1".to_string());
    assert_eq!(
        action,
        Action::Store(StoreOp::FetchProfile {
            user_id: "user_1".to_string(),
            columns: ProfileColumns::All,
        })
    );
    let (flow, action) = flow.advance(profiles(vec![profile(Some("cus_1"), Some("sub_1"))]));
    assert_eq!(
        action,
        Action::Processor(ProcessorCall::RetrieveSubscription {
            subscription_id: "sub_1".to_string()
        })
    );
    let (flow, action) =
        flow.advance(Event::Processor(ProcessorReply::Subscription(subscription("active", None))));
    assert!(matches!(action, Action::Store(StoreOp::MirrorSubscription { .. })));
    let (flow, action) = flow.advance(store_status(204, ""));
    assert_eq!(flow.stage, SyncAllStage::Finished);
    assert_eq!(
        action,
        Action::Finish(Ok(SyncReport { updated_subscriptions: 1, errors: vec![] }))
    );
}

#[test]
fn sync_of_all_collects_the_failure_of_one_subscription() {
    let (flow, _) = sync_all_user_subscriptions("user_1".to_string());
    let (flow, _) = flow.advance(profiles(vec![profile(Some("cus_1"), Some("sub_1"))]));
    let (_, action) = flow.advance(Event::Processor(ProcessorReply::Rejected {
        detail: "No such subscription".to_string(),
    }));
    assert_eq!(
        action,
        Action::Finish(Ok(SyncReport {
            updated_subscriptions: 0,
            errors: vec![Failure::reported(
                ErrorKind::ProcessorLookupError,
                Step::RetrieveSubscription,
                "No such subscription".to_string()
            )],
        }))
    );
}

#[test]
fn sync_of_all_without_subscription_reports_nothing() {
    let (flow, _) = sync_all_user_subscriptions("user_1".to_string());
    let (_, action) = flow.advance(profiles(vec![profile(Some("cus_1"), None)]));
    assert_eq!(
        action,
        Action::Finish(Ok(SyncReport { updated_subscriptions: 0, errors: vec![] }))
    );
}

#[test]
fn sync_of_all_without_profile_fails() {
    let (flow, _) = sync_all_user_subscriptions("user_1".to_string());
    let (_, action) = flow.advance(profiles(vec![]));
    assert_eq!(failure_of(action).kind, ErrorKind::NotFound);
}

#[test]
fn subscription_on_an_unusable_method_cleans_up_and_fails() {
    let (flow, _) = create_subscription("user_1".to_string(), "price_m".to_string());
    let (flow, _) = flow.advance(profiles(vec![profile(Some("cus_1"), None)]));
    let (flow, _) = flow.advance(methods(vec![row("pm_b", true)]));
    let (flow, _) = flow.advance(method(None));
    let (flow, action) = flow.advance(Event::Processor(ProcessorReply::Rejected {
        detail: "The payment method was previously used without being attached".to_string(),
    }));
    assert_eq!(flow.stage, SubscribeStage::AwaitCleanup);
    assert_eq!(
        action,
        Action::Store(StoreOp::DeletePaymentMethod {
            payment_method_id: "pm_b".to_string(),
            user_id: "user_1".to_string(),
        })
    );
    let (flow, action) = flow.advance(store_status(500, "could not delete"));
    assert_eq!(flow.stage, SubscribeStage::Finished);
    assert_eq!(
        failure_of(action),
        Failure::rule(ErrorKind::PermanentlyUnusable, Step::AttachPaymentMethod)
    );
}

#[test]
fn subscription_stops_on_other_attach_failures() {
    let (flow, _) = create_subscription("user_1".to_string(), "price_m".to_string());
    let (flow, _) = flow.advance(profiles(vec![profile(Some("cus_1"), None)]));
    let (flow, _) = flow.advance(methods(vec![row("pm_b", true)]));
    let (flow, _) = flow.advance(method(None));
    let (flow, action) = flow.advance(Event::Processor(ProcessorReply::Rejected {
        detail: "rate limited".to_string(),
    }));
    assert_eq!(flow.stage, SubscribeStage::Finished);
    assert_eq!(
        failure_of(action),
        Failure::reported(
            ErrorKind::ProcessorOperationError,
            Step::AttachPaymentMethod,
            "rate limited".to_string()
        )
    );
}
