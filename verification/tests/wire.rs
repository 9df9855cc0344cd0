use aura_backend::failure::{ErrorKind, Failure, Step};
use aura_backend::processor::BillingInterval;
use aura_backend::records::{DatabaseConfig, PaymentMethod, Profile};
use aura_backend::remote::{
    accepted_body, acknowledge, is_success, read_contractors, read_methods, read_profiles, PackageColumns,
    ProfileColumns, Rows, StoreOp, StoreReply,
};
use aura_backend::rows::{all_rows, first_row, maybe_first_row, no_rows, require_session, Reply};
use aura_backend::text::{contains_bytes, has_marker};
use aura_backend::wire::{
    interval_text, render, render_now, Field, HttpMethod, HttpRequest, JsonValue, Pair, RowKind,
};

fn db() -> DatabaseConfig {
    DatabaseConfig {
        database_url: "https://db.example".to_string(),
        access_token: "tok".to_string(),
        anon_key: "anon".to_string(),
    }
}

fn pair(name: &str, value: &str) -> Pair {
    Pair { name: name.to_string(), value: value.to_string() }
}

fn text(name: &str, value: &str) -> Field {
    Field { name: name.to_string(), value: JsonValue::Text(value.to_string()) }
}

fn integer(name: &str, value: i64) -> Field {
    Field { name: name.to_string(), value: JsonValue::Integer(value) }
}

fn flag(name: &str, value: bool) -> Field {
    Field { name: name.to_string(), value: JsonValue::Flag(value) }
}

fn null(name: &str) -> Field {
    Field { name: name.to_string(), value: JsonValue::Null }
}

fn plain_headers() -> Vec<Pair> {
    vec![pair("Authorization", "Bearer tok"), pair("apikey", "anon")]
}

fn json_headers(prefer: Option<&str>) -> Vec<Pair> {
    let mut h = plain_headers();
    h.push(pair("Content-Type", "application/json"));
    if let Some(p) = prefer {
        h.push(pair("Prefer", p));
    }
    h
}

const NOW: &str = "2024-05-01T10:00:00+00:00";

#[test]
fn profile_is_read_by_id() {
    let op = StoreOp::FetchProfile { user_id: "user_1".to_string(), columns: ProfileColumns::All };
    assert_eq!(
        render(&op, &db(), NOW),
        HttpRequest {
            method: HttpMethod::Get,
            url: "https://db.example/rest/v1/profiles".to_string(),
            query: vec![pair("id", "eq.user_1"), pair("select", "*")],
            headers: plain_headers(),
            body: None,
            expects: RowKind::Profiles,
        }
    );
    let bare =
        StoreOp::FetchProfile { user_id: "user_1".to_string(), columns: ProfileColumns::Unspecified };
    assert_eq!(render(&bare, &db(), NOW).query, vec![pair("id", "eq.user_1")]);
    let totals =
        StoreOp::FetchProfile { user_id: "user_1".to_string(), columns: ProfileColumns::TokenTotals };
    let request = render(&totals, &db(), NOW);
    assert_eq!(
        request.query,
        vec![
            pair("id", "eq.user_1"),
            pair(
                "select",
                "total_tokens,tokens_remaining,tokens_used,total_purchases,last_purchase_at"
            ),
        ]
    );
    assert_eq!(request.expects, RowKind::Unread);
}

#[test]
fn payment_method_is_inserted_active_with_its_card() {
    let op = StoreOp::InsertPaymentMethod {
        user_id: "user_1".to_string(),
        customer_id: "cus_1".to_string(),
        payment_method_id: "pm_1".to_string(),
        card_brand: "visa".to_string(),
        card_last4: "4242".to_string(),
        card_exp_month: 12,
        card_exp_year: 2030,
        is_default: true,
    };
    assert_eq!(
        render(&op, &db(), NOW),
        HttpRequest {
            method: HttpMethod::Post,
            url: "https://db.example/rest/v1/payment_methods".to_string(),
            query: vec![],
            headers: json_headers(Some("return=representation")),
            body: Some(vec![
                text("user_id", "user_1"),
                text("stripe_customer_id", "cus_1"),
                text("stripe_payment_method_id", "pm_1"),
                text("card_brand", "visa"),
                text("card_last4", "4242"),
                integer("card_exp_month", 12),
                integer("card_exp_year", 2030),
                flag("is_default", true),
                flag("is_active", true),
            ]),
            expects: RowKind::PaymentMethods,
        }
    );
}

#[test]
fn defaults_are_cleared_on_active_default_rows_only() {
    let op = StoreOp::UnsetDefaultPaymentMethods { user_id: "user_1".to_string() };
    assert_eq!(
        render(&op, &db(), NOW),
        HttpRequest {
            method: HttpMethod::Patch,
            url: "https://db.example/rest/v1/payment_methods".to_string(),
            query: vec![
                pair("user_id", "eq.user_1"),
                pair("is_default", "eq.true"),
                pair("is_active", "eq.true"),
            ],
            headers: json_headers(None),
            body: Some(vec![flag("is_default", false), text("updated_at", NOW)]),
            expects: RowKind::Unread,
        }
    );
}

#[test]
fn payment_method_flags_are_changed_where_given() {
    let op = StoreOp::UpdatePaymentMethod {
        payment_method_id: "pm_1".to_string(),
        user_id: "user_1".to_string(),
        set_default: None,
        set_active: Some(false),
    };
    assert_eq!(
        render(&op, &db(), NOW),
        HttpRequest {
            method: HttpMethod::Patch,
            url: "https://db.example/rest/v1/payment_methods".to_string(),
            query: vec![pair("stripe_payment_method_id", "eq.pm_1"), pair("user_id", "eq.user_1")],
            headers: json_headers(Some("return=representation")),
            body: Some(vec![flag("is_active", false), text("updated_at", NOW)]),
            expects: RowKind::PaymentMethods,
        }
    );
    let both = StoreOp::UpdatePaymentMethod {
        payment_method_id: "pm_1".to_string(),
        user_id: "user_1".to_string(),
        set_default: Some(true),
        set_active: Some(true),
    };
    assert_eq!(
        render(&both, &db(), NOW).body,
        Some(vec![flag("is_default", true), flag("is_active", true), text("updated_at", NOW)])
    );
}

#[test]
fn payment_methods_are_listed_and_deleted_by_user() {
    let ordered = StoreOp::ListPaymentMethods { user_id: "user_1".to_string(), ordered: true };
    let request = render(&ordered, &db(), NOW);
    assert_eq!(request.method, HttpMethod::Get);
    assert_eq!(
        request.query,
        vec![pair("user_id", "eq.user_1"), pair("order", "is_default.desc,created_at.desc")]
    );
    assert_eq!(request.headers, plain_headers());
    let plain = StoreOp::ListPaymentMethods { user_id: "user_1".to_string(), ordered: false };
    assert_eq!(render(&plain, &db(), NOW).query, vec![pair("user_id", "eq.user_1")]);
    let delete = StoreOp::DeletePaymentMethod {
        payment_method_id: "pm_1".to_string(),
        user_id: "user_1".to_string(),
    };
    let request = render(&delete, &db(), NOW);
    assert_eq!(request.method, HttpMethod::Delete);
    assert_eq!(
        request.query,
        vec![pair("stripe_payment_method_id", "eq.pm_1"), pair("user_id", "eq.user_1")]
    );
    assert_eq!(request.body, None);
}

#[test]
fn subscription_mirror_is_overwritten_with_a_stamp() {
    let op = StoreOp::MirrorSubscription {
        user_id: "user_1".to_string(),
        customer_id: "cus_1".to_string(),
        subscription_id: "sub_1".to_string(),
        status: "active".to_string(),
        period_end: 1_700_000_000,
    };
    assert_eq!(
        render(&op, &db(), NOW),
        HttpRequest {
            method: HttpMethod::Patch,
            url: "https://db.example/rest/v1/profiles".to_string(),
            query: vec![pair("id", "eq.user_1")],
            headers: json_headers(Some("return=minimal")),
            body: Some(vec![
                text("stripe_customer_id", "cus_1"),
                text("subscription_id", "sub_1"),
                text("subscription_status", "active"),
                integer("subscription_period_end", 1_700_000_000),
                text("updated_at", NOW),
            ]),
            expects: RowKind::Unread,
        }
    );
}

#[test]
fn purchase_is_inserted_as_completed() {
    let op = StoreOp::InsertPurchase {
        user_id: "user_1".to_string(),
        payment_intent_id: "pi_1".to_string(),
        price_id: "price_1".to_string(),
        product_id: "prod_1".to_string(),
        package_id: "pkg_1".to_string(),
        package_price_id: None,
        amount_paid: 499,
        currency: "usd".to_string(),
        tokens_purchased: 250,
    };
    let request = render(&op, &db(), NOW);
    assert_eq!(request.method, HttpMethod::Post);
    assert_eq!(request.url, "https://db.example/rest/v1/purchases");
    assert_eq!(request.headers, json_headers(Some("return=representation")));
    assert_eq!(
        request.body,
        Some(vec![
            text("user_id", "user_1"),
            text("stripe_payment_intent_id", "pi_1"),
            text("stripe_price_id", "price_1"),
            text("stripe_product_id", "prod_1"),
            text("package_id", "pkg_1"),
            integer("amount_paid", 499),
            text("currency", "usd"),
            integer("tokens_purchased", 250),
            text("status", "completed"),
            text("completed_at", NOW),
        ])
    );
    let with_price = StoreOp::InsertPurchase {
        user_id: "user_1".to_string(),
        payment_intent_id: "pi_1".to_string(),
        price_id: "price_1".to_string(),
        product_id: "prod_1".to_string(),
        package_id: "pkg_1".to_string(),
        package_price_id: Some("pp_1".to_string()),
        amount_paid: 499,
        currency: "usd".to_string(),
        tokens_purchased: 250,
    };
    let body = render(&with_price, &db(), NOW).body.unwrap();
    assert_eq!(body.len(), 11);
    assert_eq!(body[10], text("package_price_id", "pp_1"));
}

#[test]
fn catalog_lookups_carry_their_filter_in_the_url() {
    let find = StoreOp::FindPackage { product_id: "prod_1".to_string(), select: PackageColumns::Id };
    let request = render(&find, &db(), NOW);
    assert_eq!(
        request.url,
        "https://db.example/rest/v1/packages?select=id&stripe_product_id=eq.prod_1"
    );
    assert_eq!(request.query, vec![]);
    assert_eq!(request.headers, plain_headers());
    let named =
        StoreOp::FindPackage { product_id: "prod_1".to_string(), select: PackageColumns::IdName };
    assert_eq!(
        render(&named, &db(), NOW).url,
        "https://db.example/rest/v1/packages?select=id,name&stripe_product_id=eq.prod_1"
    );
    let whole = StoreOp::FindPackage {
        product_id: "prod_1".to_string(),
        select: PackageColumns::IdNameProduct,
    };
    assert_eq!(
        render(&whole, &db(), NOW).url,
        "https://db.example/rest/v1/packages?select=id,name,stripe_product_id&stripe_product_id=eq.prod_1"
    );
    let price = StoreOp::FindPackagePrice { price_id: "price_1".to_string() };
    assert_eq!(
        render(&price, &db(), NOW).url,
        "https://db.example/rest/v1/package_prices?select=id,token_amount&stripe_price_id=eq.price_1"
    );
    assert_eq!(
        render(&StoreOp::ListActivePackages, &db(), NOW).url,
        "https://db.example/rest/v1/packages?is_active=eq.true&order=sort_order"
    );
    assert_eq!(
        render(&StoreOp::ListActivePackagePrices, &db(), NOW).url,
        "https://db.example/rest/v1/package_prices?is_active=eq.true&order=amount_cents.asc"
    );
    assert_eq!(
        render(&StoreOp::ListActivePlans, &db(), NOW).url,
        "https://db.example/rest/v1/subscription_plans?is_active=eq.true&order=sort_order"
    );
    assert_eq!(
        render(&StoreOp::ListActivePlanPrices, &db(), NOW).url,
        "https://db.example/rest/v1/subscription_prices?is_active=eq.true"
    );
}

#[test]
fn default_package_has_the_fixed_name_and_features() {
    let op = StoreOp::CreateDefaultPackage { product_id: "prod_1".to_string() };
    assert_eq!(
        render(&op, &db(), NOW),
        HttpRequest {
            method: HttpMethod::Post,
            url: "https://db.example/rest/v1/packages".to_string(),
            query: vec![],
            headers: json_headers(Some("return=representation")),
            body: Some(vec![
                text("name", "Token Packages"),
                text("description", "Flexible token packages with bulk discounts"),
                text("stripe_product_id", "prod_1"),
                integer("token_amount", 100),
                integer("bonus_percentage", 0),
                Field {
                    name: "features".to_string(),
                    value: JsonValue::TextList(vec![
                        "Flexible token amounts".to_string(),
                        "Bulk discounts".to_string(),
                        "All features".to_string(),
                        "Priority support".to_string(),
                    ]),
                },
            ]),
            expects: RowKind::Unread,
        }
    );
}

#[test]
fn package_price_is_merged_or_asked_back() {
    let merged = StoreOp::InsertPackagePrice {
        package_id: "pkg_1".to_string(),
        price_id: "price_1".to_string(),
        amount_cents: 999,
        currency: "usd".to_string(),
        interval: Some(BillingInterval::Year),
        interval_count: Some(1),
        merge_duplicates: true,
    };
    assert_eq!(
        render(&merged, &db(), NOW),
        HttpRequest {
            method: HttpMethod::Post,
            url: "https://db.example/rest/v1/package_prices".to_string(),
            query: vec![],
            headers: json_headers(Some("resolution=merge-duplicates")),
            body: Some(vec![
                text("package_id", "pkg_1"),
                text("stripe_price_id", "price_1"),
                integer("amount_cents", 999),
                text("currency", "usd"),
                text("interval_type", "year"),
                integer("interval_count", 1),
                flag("is_active", true),
            ]),
            expects: RowKind::Unread,
        }
    );
    let seeded = StoreOp::InsertPackagePrice {
        package_id: "pkg_1".to_string(),
        price_id: "price_1".to_string(),
        amount_cents: 15999,
        currency: "aud".to_string(),
        interval: None,
        interval_count: None,
        merge_duplicates: false,
    };
    let request = render(&seeded, &db(), NOW);
    assert_eq!(request.headers, json_headers(Some("return=representation")));
    assert_eq!(
        request.body,
        Some(vec![
            text("package_id", "pkg_1"),
            text("stripe_price_id", "price_1"),
            integer("amount_cents", 15999),
            text("currency", "aud"),
            text("interval_type", "one_time"),
            flag("is_active", true),
        ])
    );
}

#[test]
fn schema_probe_asks_for_the_first_row_only() {
    let request = render(&StoreOp::ProbeSchema, &db(), NOW);
    let mut expected = plain_headers();
    expected.push(pair("Range", "0-0"));
    assert_eq!(request.headers, expected);
    assert_eq!(request.url, "https://db.example/rest/v1/profiles");
    assert_eq!(
        render(&StoreOp::ProbePurchases, &db(), NOW).url,
        "https://db.example/rest/v1/purchases?limit=0"
    );
    assert_eq!(
        render(&StoreOp::ProbeProfiles, &db(), NOW).url,
        "https://db.example/rest/v1/profiles?select=total_tokens,tokens_remaining,tokens_used&limit=1"
    );
}

#[test]
fn contractor_rows_carry_nulls_for_what_is_missing() {
    let op = StoreOp::InsertContractor {
        user_id: "user_1".to_string(),
        profile_id: "profile_1".to_string(),
        contractor_type: "business".to_string(),
        connect_account_id: "acct_1".to_string(),
        requirements_completed: false,
        business_name: Some("Cy Ltd".to_string()),
        business_tax_id: None,
    };
    let request = render(&op, &db(), NOW);
    assert_eq!(request.expects, RowKind::Contractors);
    assert_eq!(
        request.body,
        Some(vec![
            text("user_id", "user_1"),
            text("profile_id", "profile_1"),
            text("contractor_type", "business"),
            text("kyc_status", "submitted"),
            flag("is_active", true),
            text("stripe_connect_account_id", "acct_1"),
            text("stripe_connect_account_status", "pending"),
            flag("stripe_connect_requirements_completed", false),
            text("business_name", "Cy Ltd"),
            null("business_tax_id"),
        ])
    );
    let form = StoreOp::SaveKycForm { user_id: "user_1".to_string(), kyc_json: "{\"a\":1}".to_string() };
    let request = render(&form, &db(), NOW);
    assert_eq!(
        request.url,
        "https://db.example/rest/v1/contractor_kyc_form_data?on_conflict=user_id"
    );
    assert_eq!(request.headers, json_headers(Some("resolution=merge-duplicates")));
    assert_eq!(
        request.body,
        Some(vec![
            text("user_id", "user_1"),
            Field { name: "kyc_data".to_string(), value: JsonValue::Raw("{\"a\":1}".to_string()) },
        ])
    );
}

#[test]
fn profile_update_lets_the_backend_stamp_it() {
    let op = StoreOp::UpdateProfile {
        user_id: "user_1".to_string(),
        username: Some("ann".to_string()),
        full_name: None,
        avatar_url: None,
        onboarding_complete: Some(true),
    };
    let request = render(&op, &db(), NOW);
    assert_eq!(request.method, HttpMethod::Patch);
    assert_eq!(
        request.body,
        Some(vec![
            text("username", "ann"),
            flag("onboarding_complete", true),
            text("updated_at", "now()"),
        ])
    );
    let link = StoreOp::LinkCustomer { user_id: "user_1".to_string(), customer_id: "cus_1".to_string() };
    assert_eq!(
        render(&link, &db(), NOW).body,
        Some(vec![text("stripe_customer_id", "cus_1"), text("updated_at", NOW)])
    );
}

#[test]
fn stamped_request_carries_the_time_it_was_made() {
    let op = StoreOp::MarkPaymentMethodUsed {
        payment_method_id: "pm_1".to_string(),
        user_id: "user_1".to_string(),
    };
    let (request, now) = render_now(&op, &db());
    assert_eq!(request, render(&op, &db(), &now));
    assert_eq!(
        request.body,
        Some(vec![text("last_used_at", &now), text("updated_at", &now)])
    );
    assert!(now.len() >= 20);
    assert_eq!(&now[4..5], "-");
    assert_eq!(&now[10..11], "T");
    assert!(now.ends_with("+00:00"));
}

#[test]
fn intervals_have_the_names_of_the_backend() {
    assert_eq!(interval_text(Some(BillingInterval::Day)), "day");
    assert_eq!(interval_text(Some(BillingInterval::Week)), "week");
    assert_eq!(interval_text(Some(BillingInterval::Month)), "month");
    assert_eq!(interval_text(Some(BillingInterval::Year)), "year");
    assert_eq!(interval_text(None), "one_time");
}

#[test]
fn success_is_any_status_from_200_to_299() {
    assert!(is_success(200));
    assert!(is_success(204));
    assert!(is_success(299));
    assert!(!is_success(199));
    assert!(!is_success(300));
    assert!(!is_success(404));
    assert!(!is_success(0));
}

#[test]
fn answers_are_acknowledged_by_status() {
    let ok = StoreReply::Answered {
        status: 204,
        body: String::new(),
        rows: Rows::Unread { detail: String::new() },
    };
    assert_eq!(acknowledge(ok, Step::SaveProfile), Ok(()));
    let refused = StoreReply::Answered {
        status: 422,
        body: "invalid".to_string(),
        rows: Rows::Unread { detail: String::new() },
    };
    let f = acknowledge(refused, Step::SaveProfile).unwrap_err();
    assert_eq!(f, Failure::answered(Step::SaveProfile, 422, "invalid".to_string()));
    assert!(!f.is_retryable());
    let lost = StoreReply::Unreachable { detail: "reset".to_string() };
    let f = acknowledge(lost, Step::SaveProfile).unwrap_err();
    assert_eq!(
        f,
        Failure::reported(ErrorKind::RemoteStoreError, Step::SaveProfile, "reset".to_string())
    );
    assert!(f.is_retryable());
    let unavailable = StoreReply::Unavailable {
        failure: Failure::rule(ErrorKind::ConfigurationError, Step::Settings),
    };
    assert_eq!(
        acknowledge(unavailable, Step::SaveProfile),
        Err(Failure::rule(ErrorKind::ConfigurationError, Step::Settings))
    );
    let created = StoreReply::Answered {
        status: 201,
        body: "[{\"id\":\"pkg_1\"}]".to_string(),
        rows: Rows::Unread { detail: String::new() },
    };
    assert_eq!(accepted_body(created, Step::CreatePackage), Ok("[{\"id\":\"pkg_1\"}]".to_string()));
    let refused = StoreReply::Answered {
        status: 409,
        body: "duplicate".to_string(),
        rows: Rows::Unread { detail: String::new() },
    };
    assert_eq!(
        accepted_body(refused, Step::CreatePackage),
        Err(Failure::answered(Step::CreatePackage, 409, "duplicate".to_string()))
    );
}

#[test]
fn rows_are_read_only_from_accepted_answers_of_their_kind() {
    let none: Vec<PaymentMethod> = vec![];
    let good =
        StoreReply::Answered { status: 200, body: "[]".to_string(), rows: Rows::PaymentMethods(vec![]) };
    assert_eq!(read_methods(good.clone(), Step::ListPaymentMethods), Ok(none));
    assert_eq!(
        read_profiles(good.clone(), Step::LoadProfile),
        Err(Failure::answered(Step::LoadProfile, 200, "[]".to_string()))
    );
    assert_eq!(
        read_contractors(good, Step::LoadRecords),
        Err(Failure::answered(Step::LoadRecords, 200, "[]".to_string()))
    );
    let undecoded = StoreReply::Answered {
        status: 200,
        body: "[{}]".to_string(),
        rows: Rows::Unread { detail: "missing field `id`".to_string() },
    };
    assert_eq!(
        read_methods(undecoded, Step::ListPaymentMethods),
        Err(Failure {
            kind: ErrorKind::RemoteStoreError,
            step: Step::ListPaymentMethods,
            status: Some(200),
            detail: "missing field `id`".to_string(),
        })
    );
    let refused = StoreReply::Answered {
        status: 500,
        body: "down".to_string(),
        rows: Rows::Profiles(vec![]),
    };
    assert_eq!(
        read_profiles(refused, Step::LoadProfile),
        Err(Failure::answered(Step::LoadProfile, 500, "down".to_string()))
    );
    let profiles: Vec<Profile> = vec![];
    let empty = StoreReply::Answered { status: 206, body: String::new(), rows: Rows::Profiles(vec![]) };
    assert_eq!(read_profiles(empty, Step::LoadProfile), Ok(profiles));
}

#[test]
fn single_answers_are_read_by_their_rows() {
    let answered = |status: u16, rows: Result<Vec<i32>, String>| Reply::Answered {
        status,
        body: "body".to_string(),
        rows,
    };
    assert_eq!(all_rows(answered(200, Ok(vec![1, 2])), Step::LoadRecords), Ok(vec![1, 2]));
    assert_eq!(maybe_first_row(answered(200, Ok(vec![1, 2])), Step::LoadRecords), Ok(Some(1)));
    assert_eq!(maybe_first_row(answered(200, Ok(vec![])), Step::LoadRecords), Ok(None));
    assert_eq!(first_row(answered(201, Ok(vec![7])), Step::LoadRecords), Ok(7));
    assert_eq!(
        first_row(answered(200, Ok(vec![])), Step::LoadRecords),
        Err(Failure::rule(ErrorKind::NotFound, Step::LoadRecords))
    );
    assert_eq!(no_rows(answered(200, Ok(vec![])), Step::LoadRecords), Ok(true));
    assert_eq!(no_rows(answered(200, Ok(vec![3])), Step::LoadRecords), Ok(false));
    assert_eq!(
        all_rows(answered(404, Ok(vec![1])), Step::LoadRecords),
        Err(Failure::answered(Step::LoadRecords, 404, "body".to_string()))
    );
    assert_eq!(
        all_rows(answered(200, Err("bad".to_string())), Step::LoadRecords),
        Err(Failure {
            kind: ErrorKind::RemoteStoreError,
            step: Step::LoadRecords,
            status: Some(200),
            detail: "bad".to_string(),
        })
    );
    let lost: Reply<i32> = Reply::Unreachable { detail: "reset".to_string() };
    assert_eq!(
        all_rows(lost, Step::LoadRecords),
        Err(Failure::reported(ErrorKind::RemoteStoreError, Step::LoadRecords, "reset".to_string()))
    );
    let unavailable: Reply<i32> =
        Reply::Unavailable { failure: Failure::rule(ErrorKind::AuthenticationRequired, Step::Session) };
    assert_eq!(
        first_row(unavailable, Step::LoadRecords),
        Err(Failure::rule(ErrorKind::AuthenticationRequired, Step::Session))
    );
    assert_eq!(require_session(true), Ok(()));
    assert_eq!(
        require_session(false),
        Err(Failure::rule(ErrorKind::AuthenticationRequired, Step::Session))
    );
}

#[test]
fn failures_are_retryable_by_kind_and_status() {
    assert!(Failure::rule(ErrorKind::ProcessorLookupError, Step::RetrievePrice).is_retryable());
    assert!(Failure::rule(ErrorKind::ProcessorOperationError, Step::CreatePrice).is_retryable());
    assert!(Failure::answered(Step::InsertPurchase, 500, String::new()).is_retryable());
    assert!(Failure::answered(Step::InsertPurchase, 409, String::new()).is_retryable());
    assert!(!Failure::answered(Step::InsertPurchase, 422, String::new()).is_retryable());
    assert!(!Failure::answered(Step::InsertPurchase, 401, String::new()).is_retryable());
    assert!(!Failure::answered(Step::InsertPurchase, 403, String::new()).is_retryable());
    for kind in [
        ErrorKind::ConfigurationError,
        ErrorKind::AuthenticationRequired,
        ErrorKind::PermanentlyUnusable,
        ErrorKind::NotFound,
        ErrorKind::NoCustomer,
        ErrorKind::NoPaymentMethod,
        ErrorKind::PaymentNotSucceeded,
        ErrorKind::InvalidInput,
        ErrorKind::UnexpectedEvent,
    ] {
        assert!(!Failure::rule(kind, Step::Protocol).is_retryable());
    }
    let moved = Failure::answered(Step::InsertPurchase, 500, "x".to_string()).during(Step::SaveProfile);
    assert_eq!(moved, Failure::answered(Step::SaveProfile, 500, "x".to_string()));
}

#[test]
fn markers_are_found_anywhere_in_a_message() {
    assert!(contains_bytes(b"hello world", b"lo w"));
    assert!(contains_bytes(b"hello", b"hello"));
    assert!(contains_bytes(b"hello", b""));
    assert!(contains_bytes(b"", b""));
    assert!(!contains_bytes(b"", b"a"));
    assert!(!contains_bytes(b"hell", b"hello"));
    assert!(!contains_bytes(b"hello", b"lol"));
    assert!(contains_bytes(b"aab", b"ab"));
    assert!(has_marker("xx may not be used again.", "may not be used again"));
    assert!(!has_marker("May Not Be Used Again", "may not be used again"));
    assert!(has_marker("prix: 5 €, payé", "€, p"));
}
