use aura_backend::failure::{ErrorKind, Failure, Step};
use aura_backend::json::{read_balance, read_catalog, reprint, BalanceRow, CatalogRow, Decoded};
use aura_backend::pricing::get_token_amount_from_price;
use aura_backend::processor::{IntentSnapshot, IntentStatus, PriceSnapshot, ProcessorCall, ProcessorReply};
use aura_backend::purchases::{
    balance_from, complete_purchase, package_price_looked_up, record_purchase, CompletionStage,
    PurchaseFlow, PurchaseRecorded, PurchaseRequest, PurchaseStage, TokenBalance, SETTLE_MILLIS,
};
use aura_backend::remote::{Action, Event, PackageColumns, ProfileColumns, Rows, StoreOp, StoreReply};

fn answered(status: u16, body: &str) -> Event {
    Event::Store(StoreReply::Answered {
        status,
        body: body.to_string(),
        rows: Rows::Unread { detail: String::new() },
    })
}

fn price(product: Option<&str>) -> Event {
    Event::Processor(ProcessorReply::Price(PriceSnapshot {
        id: "price_x".to_string(),
        product: product.map(|p| p.to_string()),
        unit_amount: Some(15999),
        currency: Some("aud".to_string()),
        recurring: None,
    }))
}

fn start(amount: i64) -> (PurchaseFlow, Action<PurchaseRecorded>) {
    record_purchase(
        "user_1".to_string(),
        "pi_1".to_string(),
        "price_x".to_string(),
        amount,
        "aud".to_string(),
    )
}

fn failure_of<T: std::fmt::Debug>(action: Action<T>) -> Failure {
    match action {
        Action::Finish(Err(f)) => f,
        other => panic!("expected a failure, got {:?}", other),
    }
}

#[test]
fn token_table_has_the_listed_price_points() {
    assert_eq!(get_token_amount_from_price(149), 100);
    assert_eq!(get_token_amount_from_price(749), 500);
    assert_eq!(get_token_amount_from_price(1499), 1000);
    assert_eq!(get_token_amount_from_price(3099), 5000);
    assert_eq!(get_token_amount_from_price(6299), 25000);
    assert_eq!(get_token_amount_from_price(15999), 100000);
}

#[test]
fn token_table_falls_back_to_the_default() {
    assert_eq!(get_token_amount_from_price(777), 100);
    assert_eq!(get_token_amount_from_price(0), 100);
    assert_eq!(get_token_amount_from_price(-149), 100);
    assert_eq!(get_token_amount_from_price(i64::MAX), 100);
    assert_eq!(get_token_amount_from_price(1500), 100);
}

#[test]
fn recording_starts_with_the_price_lookup() {
    let (flow, action) = start(1499);
    assert_eq!(flow.stage, PurchaseStage::AwaitPrice);
    assert_eq!(
        flow.request,
        PurchaseRequest {
            user_id: "user_1".to_string(),
            stripe_payment_intent_id: "pi_1".to_string(),
            stripe_price_id: "price_x".to_string(),
            amount_paid: 1499,
            currency: "aud".to_string(),
        }
    );
    assert_eq!(
        action,
        Action::Processor(ProcessorCall::RetrievePrice { price_id: "price_x".to_string() })
    );
}

#[test]
fn purchase_without_package_creates_one_and_uses_the_table() {
    let mut creations = 0;
    let (flow, _) = start(15999);
    let (flow, action) = flow.advance(price(Some("prod_x")));
    assert_eq!(
        action,
        Action::Store(StoreOp::FindPackage {
            product_id: "prod_x".to_string(),
            select: PackageColumns::IdNameProduct,
        })
    );
    let (flow, action) = flow.advance(answered(200, "[]"));
    if let Action::Store(StoreOp::CreateDefaultPackage { .. }) = &action {
        creations += 1;
    }
    assert_eq!(
        action,
        Action::Store(StoreOp::CreateDefaultPackage { product_id: "prod_x".to_string() })
    );
    let (flow, action) = flow.advance(answered(201, r#"[{"id":"pkg_1","name":"Token Packages"}]"#));
    assert_eq!(
        action,
        Action::Store(StoreOp::FindPackagePrice { price_id: "price_x".to_string() })
    );
    assert_eq!(
        flow.stage,
        PurchaseStage::AwaitPackagePrice {
            product_id: "prod_x".to_string(),
            package_id: "pkg_1".to_string(),
        }
    );
    let (flow, action) = flow.advance(answered(200, "[]"));
    if let Action::Store(StoreOp::CreateDefaultPackage { .. }) = &action {
        creations += 1;
    }
    assert_eq!(
        action,
        Action::Store(StoreOp::InsertPurchase {
            user_id: "user_1".to_string(),
            payment_intent_id: "pi_1".to_string(),
            price_id: "price_x".to_string(),
            product_id: "prod_x".to_string(),
            package_id: "pkg_1".to_string(),
            package_price_id: None,
            amount_paid: 15999,
            currency: "aud".to_string(),
            tokens_purchased: 100000,
        })
    );
    let (flow, action) = flow.advance(answered(201, r#"[ { "id" : "pur_1" } ]"#));
    assert_eq!(action, Action::Pause { millis: SETTLE_MILLIS });
    assert_eq!(SETTLE_MILLIS, 100);
    let (flow, action) = flow.advance(Event::Resumed);
    assert_eq!(
        action,
        Action::Store(StoreOp::FetchProfile {
            user_id: "user_1".to_string(),
            columns: ProfileColumns::TokenTotals,
        })
    );
    let (flow, action) = flow.advance(answered(
        200,
        r#"[{"tokens_remaining":100000,"total_tokens":100000,"total_purchases":1}]"#,
    ));
    assert_eq!(flow.stage, PurchaseStage::Finished);
    assert_eq!(
        action,
        Action::Finish(Ok(PurchaseRecorded {
            record: r#"[{"id":"pur_1"}]"#.to_string(),
            balance: Ok(TokenBalance {
                tokens_remaining: 100000,
                total_tokens: 100000,
                total_purchases: 1,
            }),
        }))
    );
    assert_eq!(creations, 1);
}

#[test]
fn purchase_with_known_package_and_price_uses_the_stored_tokens() {
    let (flow, _) = start(1499);
    let (flow, _) = flow.advance(price(Some("prod_x")));
    let (flow, action) = flow.advance(answered(200, r#"[{"id":"pkg_7"}]"#));
    assert_eq!(
        action,
        Action::Store(StoreOp::FindPackagePrice { price_id: "price_x".to_string() })
    );
    let (_, action) = flow.advance(answered(200, r#"[{"id":"pp_3","token_amount":4242}]"#));
    match action {
        Action::Store(StoreOp::InsertPurchase {
            package_id, package_price_id, tokens_purchased, ..
        }) => {
            assert_eq!(package_id, "pkg_7");
            assert_eq!(package_price_id, Some("pp_3".to_string()));
            assert_eq!(tokens_purchased, 4242);
        }
        other => panic!("unexpected action {:?}", other),
    }
}

#[test]
fn purchase_of_1499_grants_1000_tokens() {
    let (flow, _) = start(1499);
    let (flow, _) = flow.advance(price(Some("prod_x")));
    let (flow, _) = flow.advance(answered(200, r#"[{"id":"pkg_7"}]"#));
    let (_, action) = flow.advance(answered(200, "[]"));
    match action {
        Action::Store(StoreOp::InsertPurchase { tokens_purchased, .. }) => {
            assert_eq!(tokens_purchased, 1000)
        }
        other => panic!("unexpected action {:?}", other),
    }
}

#[test]
fn purchase_of_an_unlisted_amount_grants_the_default() {
    let (flow, _) = start(777);
    let (flow, _) = flow.advance(price(Some("prod_x")));
    let (flow, _) = flow.advance(answered(200, r#"[{"id":"pkg_7"}]"#));
    let (_, action) = flow.advance(answered(200, r#"[{"id":"pp_3","token_amount":null}]"#));
    match action {
        Action::Store(StoreOp::InsertPurchase { tokens_purchased, package_price_id, .. }) => {
            assert_eq!(tokens_purchased, 100);
            assert_eq!(package_price_id, Some("pp_3".to_string()));
        }
        other => panic!("unexpected action {:?}", other),
    }
}

#[test]
fn price_without_product_fails_the_recording() {
    let (flow, _) = start(1499);
    let (flow, action) = flow.advance(price(None));
    assert_eq!(flow.stage, PurchaseStage::Finished);
    let f = failure_of(action);
    assert_eq!(f.kind, ErrorKind::ProcessorLookupError);
    assert_eq!(f.step, Step::ResolveProduct);
}

#[test]
fn rejected_price_lookup_carries_the_processor_message() {
    let (flow, _) = start(1499);
    let (_, action) = flow.advance(Event::Processor(ProcessorReply::Rejected {
        detail: "No such price".to_string(),
    }));
    assert_eq!(
        failure_of(action),
        Failure {
            kind: ErrorKind::ProcessorLookupError,
            step: Step::RetrievePrice,
            status: None,
            detail: "No such price".to_string(),
        }
    );
}

#[test]
fn unreadable_package_answer_fails_the_recording() {
    let (flow, _) = start(1499);
    let (flow, _) = flow.advance(price(Some("prod_x")));
    let (_, action) = flow.advance(answered(200, "not json"));
    let f = failure_of(action);
    assert_eq!(f.kind, ErrorKind::RemoteStoreError);
    assert_eq!(f.step, Step::FindPackage);
    assert_eq!(f.status, Some(200));
    assert!(!f.detail.is_empty());
}

#[test]
fn package_answer_that_is_no_list_fails_the_recording() {
    let (flow, _) = start(1499);
    let (flow, _) = flow.advance(price(Some("prod_x")));
    let (_, action) = flow.advance(answered(200, r#"{"message":"denied"}"#));
    assert_eq!(
        failure_of(action),
        Failure {
            kind: ErrorKind::RemoteStoreError,
            step: Step::FindPackage,
            status: Some(200),
            detail: r#"{"message":"denied"}"#.to_string(),
        }
    );
}

#[test]
fn refused_package_creation_fails_with_status_and_body() {
    let (flow, _) = start(1499);
    let (flow, _) = flow.advance(price(Some("prod_x")));
    let (flow, _) = flow.advance(answered(200, "[]"));
    let (_, action) = flow.advance(answered(403, "forbidden"));
    let f = failure_of(action);
    assert_eq!(f, Failure::answered(Step::CreatePackage, 403, "forbidden".to_string()));
    assert!(!f.is_retryable());
}

#[test]
fn refused_insert_fails_with_status_and_body() {
    let (flow, _) = start(1499);
    let (flow, _) = flow.advance(price(Some("prod_x")));
    let (flow, _) = flow.advance(answered(200, r#"[{"id":"pkg_7"}]"#));
    let (flow, _) = flow.advance(answered(200, "[]"));
    let (flow, action) = flow.advance(answered(500, "boom"));
    assert_eq!(flow.stage, PurchaseStage::Finished);
    let f = failure_of(action);
    assert_eq!(f.kind, ErrorKind::RemoteStoreError);
    assert_eq!(f.status, Some(500));
    assert_eq!(f.detail, "boom");
    assert!(f.is_retryable());
}

#[test]
fn failed_balance_check_does_not_fail_the_purchase() {
    let (flow, _) = start(1499);
    let (flow, _) = flow.advance(price(Some("prod_x")));
    let (flow, _) = flow.advance(answered(200, r#"[{"id":"pkg_7"}]"#));
    let (flow, _) = flow.advance(answered(200, "[]"));
    let (flow, _) = flow.advance(answered(201, r#"[{"id":"pur_1"}]"#));
    let (flow, _) = flow.advance(Event::Resumed);
    let (_, action) = flow.advance(Event::Store(StoreReply::Unreachable {
        detail: "timeout".to_string(),
    }));
    match action {
        Action::Finish(Ok(done)) => {
            assert_eq!(done.record, r#"[{"id":"pur_1"}]"#);
            assert_eq!(
                done.balance,
                Err(Failure::reported(
                    ErrorKind::RemoteStoreError,
                    Step::LoadProfile,
                    "timeout".to_string()
                ))
            );
        }
        other => panic!("unexpected action {:?}", other),
    }
}

#[test]
fn out_of_turn_event_ends_the_recording() {
    let (flow, _) = start(1499);
    let (flow, action) = flow.advance(Event::Resumed);
    assert_eq!(failure_of(action).kind, ErrorKind::UnexpectedEvent);
    let (flow, action) = flow.advance(price(Some("prod_x")));
    assert_eq!(flow.stage, PurchaseStage::Finished);
    assert_eq!(failure_of(action).kind, ErrorKind::UnexpectedEvent);
}

#[test]
fn missing_connection_fails_with_the_given_failure() {
    let (flow, _) = start(1499);
    let (flow, _) = flow.advance(price(Some("prod_x")));
    let given = Failure::rule(ErrorKind::AuthenticationRequired, Step::Session);
    let (_, action) =
        flow.advance(Event::Store(StoreReply::Unavailable { failure: given.clone() }));
    assert_eq!(failure_of(action), given);
}

#[test]
fn decoded_price_rows_fix_the_tokens() {
    let request = PurchaseRequest {
        user_id: "u".to_string(),
        stripe_payment_intent_id: "pi".to_string(),
        stripe_price_id: "price".to_string(),
        amount_paid: 3099,
        currency: "usd".to_string(),
    };
    let rows = vec![CatalogRow { id: Some("pp".to_string()), name: None, token_amount: None }];
    let (flow, action) = package_price_looked_up(
        request,
        "prod".to_string(),
        "pkg".to_string(),
        200,
        "[]".to_string(),
        Decoded::Rows(rows),
    );
    assert_eq!(flow.stage, PurchaseStage::AwaitInsert);
    match action {
        Action::Store(StoreOp::InsertPurchase { tokens_purchased, .. }) => {
            assert_eq!(tokens_purchased, 5000)
        }
        other => panic!("unexpected action {:?}", other),
    }
}

#[test]
fn catalog_rows_are_read_from_json() {
    assert_eq!(
        read_catalog(r#"[{"id":"a","name":"n","token_amount":5},{"id":7,"token_amount":"x"}]"#),
        Decoded::Rows(vec![
            CatalogRow { id: Some("a".to_string()), name: Some("n".to_string()), token_amount: Some(5) },
            CatalogRow { id: None, name: None, token_amount: None },
        ])
    );
    assert_eq!(read_catalog("{}"), Decoded::NotAList);
    assert!(matches!(read_catalog("[1,"), Decoded::Invalid { .. }));
    assert_eq!(read_catalog("[]"), Decoded::Rows(vec![]));
}

#[test]
fn balance_rows_are_read_from_json() {
    assert_eq!(
        read_balance(r#"[{"tokens_remaining":1,"total_tokens":2,"total_purchases":3}]"#),
        Decoded::Rows(vec![BalanceRow {
            tokens_remaining: Some(1),
            total_tokens: Some(2),
            total_purchases: Some(3),
        }])
    );
    assert_eq!(
        read_balance(r#"[{"tokens_remaining":1.5}]"#),
        Decoded::Rows(vec![BalanceRow {
            tokens_remaining: None,
            total_tokens: None,
            total_purchases: None,
        }])
    );
    assert_eq!(read_balance("null"), Decoded::NotAList);
}

#[test]
fn reprint_gives_compact_json() {
    assert_eq!(reprint(r#"[ { "id" : "x" , "n" : 1 } ]"#), Ok(r#"[{"id":"x","n":1}]"#.to_string()));
    assert!(reprint("nope").is_err());
}

#[test]
fn balance_counts_missing_counters_as_zero() {
    let rows = vec![BalanceRow { tokens_remaining: Some(9), total_tokens: None, total_purchases: None }];
    assert_eq!(
        balance_from(200, "[]".to_string(), Decoded::Rows(rows)),
        Ok(TokenBalance { tokens_remaining: 9, total_tokens: 0, total_purchases: 0 })
    );
    let none: Vec<BalanceRow> = vec![];
    let err = balance_from(200, "[]".to_string(), Decoded::Rows(none)).unwrap_err();
    assert_eq!(err.kind, ErrorKind::NotFound);
    let err = balance_from(404, "gone".to_string(), Decoded::NotAList).unwrap_err();
    assert_eq!(err, Failure::answered(Step::LoadProfile, 404, "gone".to_string()));
}

fn intent(status: IntentStatus, price_id: Option<&str>) -> Event {
    Event::Processor(ProcessorReply::Intent(IntentSnapshot {
        id: "pi_9".to_string(),
        status,
        amount: 749,
        currency: "usd".to_string(),
        client_secret: None,
        price_id: price_id.map(|p| p.to_string()),
    }))
}

#[test]
fn completion_records_a_succeeded_payment() {
    let (flow, action) = complete_purchase("pi_9".to_string(), "user_1".to_string());
    assert_eq!(
        action,
        Action::Processor(ProcessorCall::RetrievePaymentIntent {
            payment_intent_id: "pi_9".to_string()
        })
    );
    let (flow, action) = flow.advance(intent(IntentStatus::Succeeded, Some("price_7")));
    assert_eq!(
        action,
        Action::Processor(ProcessorCall::RetrievePrice { price_id: "price_7".to_string() })
    );
    match &flow.stage {
        CompletionStage::Recording(inner) => {
            assert_eq!(inner.request.amount_paid, 749);
            assert_eq!(inner.request.currency, "usd");
            assert_eq!(inner.request.user_id, "user_1");
            assert_eq!(inner.request.stripe_payment_intent_id, "pi_9");
        }
        other => panic!("unexpected stage {:?}", other),
    }
    let (_, action) = flow.advance(price(Some("prod_x")));
    assert!(matches!(action, Action::Store(StoreOp::FindPackage { .. })));
}

#[test]
fn completion_without_price_metadata_uses_the_sentinel() {
    let (flow, _) = complete_purchase("pi_9".to_string(), "user_1".to_string());
    let (_, action) = flow.advance(intent(IntentStatus::Succeeded, None));
    assert_eq!(
        action,
        Action::Processor(ProcessorCall::RetrievePrice { price_id: "unknown_price".to_string() })
    );
}

#[test]
fn completion_refuses_a_payment_that_has_not_succeeded() {
    let (flow, _) = complete_purchase("pi_9".to_string(), "user_1".to_string());
    let (flow, action) = flow.advance(intent(IntentStatus::Processing, Some("price_7")));
    assert_eq!(flow.stage, CompletionStage::Finished);
    assert_eq!(
        failure_of(action),
        Failure {
            kind: ErrorKind::PaymentNotSucceeded,
            step: Step::CheckPayment,
            status: None,
            detail: "processing".to_string(),
        }
    );
}

#[test]
fn each_catalog_column_is_read_under_its_own_name() {
    let only = |id: Option<&str>, name: Option<&str>, token_amount: Option<i64>| {
        Decoded::Rows(vec![CatalogRow {
            id: id.map(String::from),
            name: name.map(String::from),
            token_amount,
        }])
    };
    assert_eq!(read_catalog(r#"[{"id":"a"}]"#), only(Some("a"), None, None));
    assert_eq!(read_catalog(r#"[{"name":"a"}]"#), only(None, Some("a"), None));
    assert_eq!(read_catalog(r#"[{"token_amount":9}]"#), only(None, None, Some(9)));
    assert_eq!(
        read_catalog(r#"[{"Id":"a","package_id":"b","title":"c","tokens":9}]"#),
        only(None, None, None)
    );
    assert_eq!(read_catalog(r#"[{"id":null,"name":1,"token_amount":"9"}]"#), only(None, None, None));
    assert_eq!(read_catalog(r#"["id"]"#), only(None, None, None));
    assert_eq!(
        read_catalog(r#"[{"token_amount":9223372036854775808}]"#),
        only(None, None, None)
    );
    assert_eq!(read_catalog(r#"[{"token_amount":-3}]"#), only(None, None, Some(-3)));
}

#[test]
fn each_balance_column_is_read_under_its_own_name() {
    let only = |remaining: Option<i64>, total: Option<i64>, purchases: Option<i64>| {
        Decoded::Rows(vec![BalanceRow {
            tokens_remaining: remaining,
            total_tokens: total,
            total_purchases: purchases,
        }])
    };
    assert_eq!(read_balance(r#"[{"tokens_remaining":4}]"#), only(Some(4), None, None));
    assert_eq!(read_balance(r#"[{"total_tokens":5}]"#), only(None, Some(5), None));
    assert_eq!(read_balance(r#"[{"total_purchases":6}]"#), only(None, None, Some(6)));
    assert_eq!(
        read_balance(r#"[{"tokens_used":1,"remaining":2,"purchases":3}]"#),
        only(None, None, None)
    );
    assert!(matches!(read_balance(""), Decoded::Invalid { .. }));
}
