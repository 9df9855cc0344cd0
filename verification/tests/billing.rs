use aura_backend::billing::{
    create_and_store_payment_method, create_payment_intent, create_price_for_product,
    create_setup_intent, create_stripe_customer, created_customer, created_price, currency_of,
    currency_text, customer_payment_methods_reply, debug_get_product_id_from_price,
    delete_payment_method, get_customer_payment_methods, get_or_create_customer,
    get_stored_payment_methods, get_user_payment_methods, initialize_stripe_customer, interval_of,
    list_payment_methods, mark_payment_method_used, mutation_reply, payment_intent_reply,
    product_of_price, set_default_payment_method, setup_intent_reply, setup_product_price,
    setup_stripe_product, verified_payment_intent, verify_payment_intent, CustomerStage,
    PriceSummary,
};
use aura_backend::catalog::{
    get_packages_with_prices, get_product_with_prices, get_subscription_plans_with_prices,
    product_price, product_with_prices, ProductStage,
};
use aura_backend::failure::{ErrorKind, Failure, Step};
use aura_backend::processor::{
    BillingInterval, CardDetails, Currency, CustomerSnapshot, IntentSnapshot, IntentStatus,
    MethodSnapshot, PriceSnapshot, ProcessorCall, ProcessorReply, ProductSnapshot, Recurrence,
    SetupSnapshot,
};
use aura_backend::records::{
    Package, PackagePrice, PaymentIntentResponse, PaymentMethodResponse, ProductPrice,
    ProductWithPrices, SetupIntentResponse, SubscriptionPlan, SubscriptionPrice,
};
use aura_backend::remote::{Action, Event, Rows, StoreOp, StoreReply};

fn rejected(detail: &str) -> ProcessorReply {
    ProcessorReply::Rejected { detail: detail.to_string() }
}

fn customer(id: &str) -> CustomerSnapshot {
    CustomerSnapshot { id: id.to_string(), email: Some("a@b.c".to_string()), name: None }
}

fn unexpected() -> Failure {
    Failure::rule(ErrorKind::UnexpectedEvent, Step::Protocol)
}

fn card_method(id: &str, brand: Option<&str>) -> MethodSnapshot {
    MethodSnapshot {
        id: id.to_string(),
        customer: Some("cus_1".to_string()),
        card: brand.map(|b| CardDetails {
            brand: b.to_string(),
            last4: "4242".to_string(),
            exp_month: 7,
            exp_year: 2031,
        }),
    }
}

fn price(id: &str, amount: Option<i64>, recurring: Option<Recurrence>) -> PriceSnapshot {
    PriceSnapshot {
        id: id.to_string(),
        product: Some("prod_1".to_string()),
        unit_amount: amount,
        currency: amount.map(|_| "eur".to_string()),
        recurring,
    }
}

fn package(id: &str) -> Package {
    Package {
        id: id.to_string(),
        name: format!("package {}", id),
        description: None,
        stripe_product_id: "prod_1".to_string(),
        features: None,
        is_active: true,
        sort_order: 0,
        created_at: None,
        updated_at: None,
    }
}

fn package_price(id: &str, package_id: &str) -> PackagePrice {
    PackagePrice {
        id: id.to_string(),
        package_id: package_id.to_string(),
        stripe_price_id: format!("price_{}", id),
        amount_cents: 500,
        currency: "usd".to_string(),
        interval_type: "one_time".to_string(),
        interval_count: 1,
        token_amount: 500,
        is_active: true,
        created_at: None,
        updated_at: None,
    }
}

fn plan(id: &str) -> SubscriptionPlan {
    SubscriptionPlan {
        id: id.to_string(),
        name: format!("plan {}", id),
        description: None,
        stripe_product_id: "prod_s".to_string(),
        features: Some("[]".to_string()),
        is_active: true,
        sort_order: 1,
        created_at: None,
        updated_at: None,
    }
}

fn plan_price(id: &str, plan_id: &str) -> SubscriptionPrice {
    SubscriptionPrice {
        id: id.to_string(),
        subscription_plan_id: plan_id.to_string(),
        stripe_price_id: format!("price_{}", id),
        amount_cents: 999,
        currency: "usd".to_string(),
        interval_type: "month".to_string(),
        interval_count: 1,
        token_amount: 1000,
        trial_period_days: 0,
        is_active: true,
        created_at: None,
        updated_at: None,
    }
}

#[test]
fn currency_codes_are_read_in_any_case() {
    assert_eq!(currency_of("usd"), Currency::Usd);
    assert_eq!(currency_of("EUR"), Currency::Eur);
    assert_eq!(currency_of("eur"), Currency::Eur);
    assert_eq!(currency_of("Gbp"), Currency::Gbp);
    assert_eq!(currency_of("chf"), Currency::Usd);
    assert_eq!(currency_of(""), Currency::Usd);
    assert_eq!(currency_text(Currency::Usd), "usd");
    assert_eq!(currency_text(Currency::Eur), "eur");
    assert_eq!(currency_text(Currency::Gbp), "gbp");
}

#[test]
fn intervals_are_read_in_any_case() {
    assert_eq!(interval_of("month"), Some(BillingInterval::Month));
    assert_eq!(interval_of("YEAR"), Some(BillingInterval::Year));
    assert_eq!(interval_of("week"), None);
    assert_eq!(interval_of(""), None);
}

#[test]
fn payment_intent_is_asked_for_in_the_given_currency() {
    assert_eq!(
        create_payment_intent(499, "GBP", Some("cus_1".to_string())),
        ProcessorCall::CreatePaymentIntent {
            amount: 499,
            unit: Currency::Gbp,
            customer: Some("cus_1".to_string()),
        }
    );
    assert_eq!(
        create_payment_intent(1, "yen", None),
        ProcessorCall::CreatePaymentIntent { amount: 1, unit: Currency::Usd, customer: None }
    );
}

#[test]
fn payment_intent_answer_carries_id_and_secret() {
    let intent = IntentSnapshot {
        id: "pi_1".to_string(),
        status: IntentStatus::RequiresPaymentMethod,
        amount: 499,
        currency: "usd".to_string(),
        client_secret: Some("pi_1_secret".to_string()),
        price_id: None,
    };
    assert_eq!(
        payment_intent_reply(ProcessorReply::Intent(intent.clone())),
        Ok(PaymentIntentResponse {
            client_secret: "pi_1_secret".to_string(),
            payment_intent_id: "pi_1".to_string(),
        })
    );
    let bare = IntentSnapshot { client_secret: None, ..intent.clone() };
    assert_eq!(payment_intent_reply(ProcessorReply::Intent(bare)).unwrap().client_secret, "");
    assert_eq!(
        payment_intent_reply(rejected("amount too small")),
        Err(Failure::reported(
            ErrorKind::ProcessorOperationError,
            Step::CreatePaymentIntent,
            "amount too small".to_string()
        ))
    );
    assert_eq!(payment_intent_reply(ProcessorReply::Done), Err(unexpected()));
    assert_eq!(
        verify_payment_intent("pi_1".to_string()),
        ProcessorCall::RetrievePaymentIntent { payment_intent_id: "pi_1".to_string() }
    );
    assert_eq!(verified_payment_intent(ProcessorReply::Intent(intent.clone())), Ok(intent));
    assert_eq!(
        verified_payment_intent(rejected("No such payment_intent")).unwrap_err().kind,
        ErrorKind::ProcessorLookupError
    );
}

#[test]
fn existing_customer_is_reused() {
    let (flow, action) = get_or_create_customer("a@b.c".to_string(), Some("Ann".to_string()));
    assert_eq!(flow.stage, CustomerStage::AwaitSearch);
    assert_eq!(
        action,
        Action::Processor(ProcessorCall::FindCustomer { email: "a@b.c".to_string() })
    );
    let (flow, action) = flow.advance(Event::Processor(ProcessorReply::Customers(vec![
        customer("cus_first"),
        customer("cus_second"),
    ])));
    assert_eq!(flow.stage, CustomerStage::Finished);
    assert_eq!(action, Action::Finish(Ok(customer("cus_first"))));
}

#[test]
fn missing_customer_is_created() {
    let (flow, _) = get_or_create_customer("a@b.c".to_string(), Some("Ann".to_string()));
    let (flow, action) = flow.advance(Event::Processor(ProcessorReply::Customers(vec![])));
    assert_eq!(flow.stage, CustomerStage::AwaitCreation);
    assert_eq!(
        action,
        Action::Processor(ProcessorCall::CreateCustomer {
            email: "a@b.c".to_string(),
            full_name: Some("Ann".to_string()),
        })
    );
    assert_eq!(
        action,
        Action::Processor(create_stripe_customer("a@b.c".to_string(), Some("Ann".to_string())))
    );
    let (flow, action) =
        flow.advance(Event::Processor(ProcessorReply::Customer(customer("cus_new"))));
    assert_eq!(flow.stage, CustomerStage::Finished);
    assert_eq!(action, Action::Finish(Ok(customer("cus_new"))));
    assert_eq!(created_customer(ProcessorReply::Customer(customer("c"))), Ok(customer("c")));
    assert_eq!(
        created_customer(rejected("bad email")).unwrap_err().step,
        Step::CreateCustomer
    );
}

#[test]
fn customer_search_failures_are_lookup_errors() {
    let (flow, _) = get_or_create_customer("a@b.c".to_string(), None);
    let (flow, action) = flow.advance(Event::Processor(rejected("api down")));
    assert_eq!(flow.stage, CustomerStage::Finished);
    assert_eq!(
        action,
        Action::Finish(Err(Failure::reported(
            ErrorKind::ProcessorLookupError,
            Step::FindCustomer,
            "api down".to_string()
        )))
    );
    let (flow, _) = get_or_create_customer("a@b.c".to_string(), None);
    let (flow, _) = flow.advance(Event::Processor(ProcessorReply::Customers(vec![])));
    let (_, action) = flow.advance(Event::Processor(rejected("bad")));
    assert_eq!(
        action,
        Action::Finish(Err(Failure::reported(
            ErrorKind::ProcessorOperationError,
            Step::CreateCustomer,
            "bad".to_string()
        )))
    );
    let (flow, _) = get_or_create_customer("a@b.c".to_string(), None);
    let (_, action) = flow.advance(Event::Store(StoreReply::Answered {
        status: 200,
        body: String::new(),
        rows: Rows::Unread { detail: String::new() },
    }));
    assert_eq!(action, Action::Finish(Err(unexpected())));
}

#[test]
fn user_without_address_is_filed_under_a_placeholder() {
    let (flow, action) = initialize_stripe_customer("user_1");
    assert_eq!(flow.email, "user+user_1@aura.app");
    assert_eq!(flow.name, None);
    assert_eq!(
        action,
        Action::Processor(ProcessorCall::FindCustomer { email: "user+user_1@aura.app".to_string() })
    );
}

#[test]
fn setup_intent_answer_carries_id_and_secret() {
    assert_eq!(
        create_setup_intent("cus_1".to_string()),
        ProcessorCall::CreateSetupIntent { customer_id: "cus_1".to_string() }
    );
    assert_eq!(
        create_and_store_payment_method("cus_1".to_string()),
        ProcessorCall::CreateSetupIntent { customer_id: "cus_1".to_string() }
    );
    assert_eq!(
        setup_intent_reply(ProcessorReply::Setup(SetupSnapshot {
            id: "seti_1".to_string(),
            client_secret: Some("s".to_string()),
        })),
        Ok(SetupIntentResponse { client_secret: "s".to_string(), setup_intent_id: "seti_1".to_string() })
    );
    assert_eq!(
        setup_intent_reply(ProcessorReply::Setup(SetupSnapshot {
            id: "seti_1".to_string(),
            client_secret: None,
        }))
        .unwrap()
        .client_secret,
        ""
    );
    assert_eq!(
        setup_intent_reply(rejected("no")).unwrap_err(),
        Failure::reported(
            ErrorKind::ProcessorOperationError,
            Step::CreateSetupIntent,
            "no".to_string()
        )
    );
}

#[test]
fn only_cards_are_listed() {
    assert_eq!(
        get_customer_payment_methods("cus_1".to_string()),
        ProcessorCall::ListCards { customer_id: "cus_1".to_string() }
    );
    assert_eq!(
        list_payment_methods("cus_1".to_string()),
        ProcessorCall::ListCards { customer_id: "cus_1".to_string() }
    );
    let listed = ProcessorReply::Methods(vec![
        card_method("pm_a", Some("visa")),
        card_method("pm_b", None),
        card_method("pm_c", Some("amex")),
    ]);
    assert_eq!(
        customer_payment_methods_reply(listed),
        Ok(vec![
            PaymentMethodResponse {
                id: "pm_a".to_string(),
                card_brand: "visa".to_string(),
                card_last4: "4242".to_string(),
                card_exp_month: 7,
                card_exp_year: 2031,
                is_default: false,
            },
            PaymentMethodResponse {
                id: "pm_c".to_string(),
                card_brand: "amex".to_string(),
                card_last4: "4242".to_string(),
                card_exp_month: 7,
                card_exp_year: 2031,
                is_default: false,
            },
        ])
    );
    assert_eq!(customer_payment_methods_reply(ProcessorReply::Methods(vec![])), Ok(vec![]));
    assert_eq!(
        customer_payment_methods_reply(rejected("x")).unwrap_err().kind,
        ErrorKind::ProcessorLookupError
    );
}

#[test]
fn processor_mutations_succeed_or_report_the_refusal() {
    assert_eq!(
        delete_payment_method("pm_1".to_string()),
        ProcessorCall::DetachPaymentMethod { payment_method_id: "pm_1".to_string() }
    );
    assert_eq!(
        set_default_payment_method("cus_1".to_string(), "pm_1".to_string()),
        ProcessorCall::SetDefaultPaymentMethod {
            customer_id: "cus_1".to_string(),
            payment_method_id: "pm_1".to_string(),
        }
    );
    assert_eq!(mutation_reply(ProcessorReply::Done, Step::DetachPaymentMethod), Ok(()));
    assert_eq!(
        mutation_reply(rejected("nope"), Step::DetachPaymentMethod),
        Err(Failure::reported(
            ErrorKind::ProcessorOperationError,
            Step::DetachPaymentMethod,
            "nope".to_string()
        ))
    );
    assert_eq!(
        mutation_reply(ProcessorReply::Methods(vec![]), Step::SetProcessorDefault),
        Err(unexpected())
    );
}

#[test]
fn stored_methods_are_listed_defaults_first() {
    let expected = StoreOp::ListPaymentMethods { user_id: "user_1".to_string(), ordered: true };
    assert_eq!(get_stored_payment_methods("user_1".to_string()), expected);
    assert_eq!(get_user_payment_methods("user_1".to_string()), expected);
    assert_eq!(
        mark_payment_method_used("pm_1".to_string(), "user_1".to_string()),
        StoreOp::MarkPaymentMethodUsed {
            payment_method_id: "pm_1".to_string(),
            user_id: "user_1".to_string(),
        }
    );
}

#[test]
fn price_interval_must_be_month_or_year() {
    assert_eq!(
        create_price_for_product("prod_1".to_string(), 999, "usd".to_string(), "month"),
        Ok(ProcessorCall::CreateRecurringPrice {
            product_id: "prod_1".to_string(),
            amount: 999,
            currency: "usd".to_string(),
            interval: BillingInterval::Month,
            interval_count: None,
        })
    );
    assert_eq!(
        create_price_for_product("prod_1".to_string(), 9990, "eur".to_string(), "year"),
        Ok(ProcessorCall::CreateRecurringPrice {
            product_id: "prod_1".to_string(),
            amount: 9990,
            currency: "eur".to_string(),
            interval: BillingInterval::Year,
            interval_count: None,
        })
    );
    assert_eq!(
        create_price_for_product("prod_1".to_string(), 999, "usd".to_string(), "week"),
        Err(Failure::reported(ErrorKind::InvalidInput, Step::CreatePrice, "week".to_string()))
    );
    assert_eq!(
        create_price_for_product("prod_1".to_string(), 999, "usd".to_string(), "Month")
            .unwrap_err()
            .kind,
        ErrorKind::InvalidInput
    );
    assert_eq!(
        created_price(ProcessorReply::Price(price("price_9", Some(1), None))),
        Ok("price_9".to_string())
    );
    assert_eq!(created_price(rejected("x")).unwrap_err().step, Step::CreatePrice);
}

#[test]
fn product_set_up_falls_back_to_monthly_dollars() {
    assert_eq!(
        setup_stripe_product("Pro".to_string(), "All of it".to_string()),
        ProcessorCall::CreateProduct { name: "Pro".to_string(), description: "All of it".to_string() }
    );
    let product = ProductSnapshot { id: "prod_9".to_string(), name: None, description: None };
    assert_eq!(
        setup_product_price(ProcessorReply::Product(product.clone()), 1500, "EUR", "Year"),
        Ok(ProcessorCall::CreateRecurringPrice {
            product_id: "prod_9".to_string(),
            amount: 1500,
            currency: "eur".to_string(),
            interval: BillingInterval::Year,
            interval_count: Some(1),
        })
    );
    assert_eq!(
        setup_product_price(ProcessorReply::Product(product), 1500, "sek", "week"),
        Ok(ProcessorCall::CreateRecurringPrice {
            product_id: "prod_9".to_string(),
            amount: 1500,
            currency: "usd".to_string(),
            interval: BillingInterval::Month,
            interval_count: Some(1),
        })
    );
    assert_eq!(
        setup_product_price(rejected("dup"), 1500, "usd", "month"),
        Err(Failure::reported(
            ErrorKind::ProcessorOperationError,
            Step::CreateProduct,
            "dup".to_string()
        ))
    );
}

#[test]
fn price_summary_names_product_amount_and_currency() {
    assert_eq!(
        debug_get_product_id_from_price("price_1".to_string()),
        ProcessorCall::RetrievePrice { price_id: "price_1".to_string() }
    );
    assert_eq!(
        product_of_price(ProcessorReply::Price(price("price_1", Some(499), None))),
        Ok(PriceSummary {
            product_id: "prod_1".to_string(),
            amount: 499,
            currency: "eur".to_string(),
        })
    );
    assert_eq!(
        product_of_price(ProcessorReply::Price(price("price_1", None, None))),
        Ok(PriceSummary {
            product_id: "prod_1".to_string(),
            amount: 0,
            currency: "unknown".to_string(),
        })
    );
    let orphan = PriceSnapshot { product: None, ..price("price_1", Some(1), None) };
    assert_eq!(
        product_of_price(ProcessorReply::Price(orphan)),
        Err(Failure::rule(ErrorKind::ProcessorLookupError, Step::ResolveProduct))
    );
    assert_eq!(
        product_of_price(rejected("No such price")),
        Err(Failure::reported(
            ErrorKind::ProcessorLookupError,
            Step::RetrievePrice,
            "No such price".to_string()
        ))
    );
}

#[test]
fn packages_get_their_own_prices_in_order() {
    let grouped = get_packages_with_prices(
        vec![package("a"), package("b"), package("c")],
        vec![
            package_price("1", "b"),
            package_price("2", "a"),
            package_price("3", "b"),
            package_price("4", "zz"),
        ],
    );
    assert_eq!(grouped.len(), 3);
    assert_eq!(grouped[0].package, package("a"));
    assert_eq!(grouped[0].prices, vec![package_price("2", "a")]);
    assert_eq!(grouped[1].prices, vec![package_price("1", "b"), package_price("3", "b")]);
    assert_eq!(grouped[2].package, package("c"));
    assert_eq!(grouped[2].prices, vec![]);
    assert_eq!(get_packages_with_prices(vec![], vec![package_price("1", "b")]), vec![]);
}

#[test]
fn plans_get_their_own_prices_in_order() {
    let grouped = get_subscription_plans_with_prices(
        vec![plan("p"), plan("q")],
        vec![plan_price("1", "q"), plan_price("2", "p"), plan_price("3", "q")],
    );
    assert_eq!(grouped.len(), 2);
    assert_eq!(grouped[0].plan, plan("p"));
    assert_eq!(grouped[0].prices, vec![plan_price("2", "p")]);
    assert_eq!(grouped[1].prices, vec![plan_price("1", "q"), plan_price("3", "q")]);
}

#[test]
fn processor_prices_are_shown_with_defaults() {
    assert_eq!(
        product_price(price(
            "price_m",
            Some(999),
            Some(Recurrence { interval: BillingInterval::Month, interval_count: 3 })
        )),
        ProductPrice {
            id: "price_m".to_string(),
            amount: 999,
            currency: "eur".to_string(),
            interval: "month".to_string(),
            interval_count: 3,
        }
    );
    assert_eq!(
        product_price(price("price_o", None, None)),
        ProductPrice {
            id: "price_o".to_string(),
            amount: 0,
            currency: "usd".to_string(),
            interval: "one_time".to_string(),
            interval_count: 1,
        }
    );
}

#[test]
fn product_is_shown_with_its_prices() {
    let shown = product_with_prices(
        ProductSnapshot { id: "prod_1".to_string(), name: None, description: Some("d".to_string()) },
        vec![
            price("price_y", Some(100), Some(Recurrence { interval: BillingInterval::Year, interval_count: 1 })),
            price("price_w", Some(5), Some(Recurrence { interval: BillingInterval::Week, interval_count: 2 })),
        ],
    );
    assert_eq!(
        shown,
        ProductWithPrices {
            id: "prod_1".to_string(),
            name: "Unnamed Product".to_string(),
            description: Some("d".to_string()),
            prices: vec![
                ProductPrice {
                    id: "price_y".to_string(),
                    amount: 100,
                    currency: "eur".to_string(),
                    interval: "year".to_string(),
                    interval_count: 1,
                },
                ProductPrice {
                    id: "price_w".to_string(),
                    amount: 5,
                    currency: "eur".to_string(),
                    interval: "week".to_string(),
                    interval_count: 2,
                },
            ],
        }
    );
    let named = product_with_prices(
        ProductSnapshot { id: "p".to_string(), name: Some("Pro".to_string()), description: None },
        vec![],
    );
    assert_eq!(named.name, "Pro");
    assert_eq!(named.prices, vec![]);
}

#[test]
fn product_is_looked_up_before_its_prices() {
    let (flow, action) = get_product_with_prices("prod_1".to_string());
    assert_eq!(flow.stage, ProductStage::AwaitProduct);
    assert_eq!(
        action,
        Action::Processor(ProcessorCall::RetrieveProduct { product_id: "prod_1".to_string() })
    );
    let product =
        ProductSnapshot { id: "prod_1".to_string(), name: Some("Pro".to_string()), description: None };
    let (flow, action) = flow.advance(Event::Processor(ProcessorReply::Product(product.clone())));
    assert_eq!(flow.stage, ProductStage::AwaitPrices { product });
    assert_eq!(
        action,
        Action::Processor(ProcessorCall::ListActivePrices {
            product_id: "prod_1".to_string(),
            limit: Some(10),
        })
    );
    let (flow, action) = flow.advance(Event::Processor(ProcessorReply::Prices(vec![price(
        "price_m",
        Some(999),
        Some(Recurrence { interval: BillingInterval::Month, interval_count: 1 }),
    )])));
    assert_eq!(flow.stage, ProductStage::Finished);
    assert_eq!(
        action,
        Action::Finish(Ok(ProductWithPrices {
            id: "prod_1".to_string(),
            name: "Pro".to_string(),
            description: None,
            prices: vec![ProductPrice {
                id: "price_m".to_string(),
                amount: 999,
                currency: "eur".to_string(),
                interval: "month".to_string(),
                interval_count: 1,
            }],
        }))
    );
}

#[test]
fn product_lookup_failures_are_lookup_errors() {
    let (flow, _) = get_product_with_prices("prod_1".to_string());
    let (flow, action) = flow.advance(Event::Processor(rejected("No such product")));
    assert_eq!(flow.stage, ProductStage::Finished);
    assert_eq!(
        action,
        Action::Finish(Err(Failure::reported(
            ErrorKind::ProcessorLookupError,
            Step::RetrieveProduct,
            "No such product".to_string()
        )))
    );
    let (flow, _) = get_product_with_prices("prod_1".to_string());
    let product = ProductSnapshot { id: "prod_1".to_string(), name: None, description: None };
    let (flow, _) = flow.advance(Event::Processor(ProcessorReply::Product(product)));
    let (_, action) = flow.advance(Event::Processor(rejected("rate limit")));
    assert_eq!(
        action,
        Action::Finish(Err(Failure::reported(
            ErrorKind::ProcessorLookupError,
            Step::ListPrices,
            "rate limit".to_string()
        )))
    );
}
