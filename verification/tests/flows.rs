use aura_backend::catalog_sync::{
    create_missing_package, create_missing_package_price, package_for_sync, seeded_price_for,
    seeded_price_from, sync_stripe_prices_to_database, PriceSyncStage, PricesSynced,
};
use aura_backend::charges::{create_payment_intent_with_stored_method, has_method, ChargeStage};
use aura_backend::contractors::{
    create_contractor_profile, create_document_upload, create_representative,
    get_beneficial_owners, get_contractor_profile, get_document_uploads, get_representatives,
    load_kyc_form_data, save_kyc_form_data, update_document_upload_status, OnboardStage,
};
use aura_backend::failure::{ErrorKind, Failure, Step};
use aura_backend::json::{CatalogRow, Decoded};
use aura_backend::processor::{
    BillingInterval, ConnectSnapshot, IntentSnapshot, IntentStatus, MethodSnapshot, PriceSnapshot,
    ProcessorCall, ProcessorReply, Recurrence,
};
use aura_backend::profiles::{
    check_username_availability, create_user_profile, debug_database_schema, get_user_profile,
    get_user_purchases, guarded, update_subscription_status, update_user_profile,
};
use aura_backend::records::{
    Contractor, ContractorAddress, ContractorKycFormData, PaymentIntentResponse, PaymentMethod,
    Profile,
};
use aura_backend::remote::{
    Action, Event, PackageColumns, ProfileColumns, Rows, StoreOp, StoreReply,
};
use aura_backend::repair::{fix_payment_method_attachments, RepairStage};

fn row(pm: &str, is_default: bool) -> PaymentMethod {
    PaymentMethod {
        id: format!("row_{}", pm),
        user_id: "user_1".to_string(),
        stripe_customer_id: "cus_1".to_string(),
        stripe_payment_method_id: pm.to_string(),
        card_brand: "visa".to_string(),
        card_last4: "4242".to_string(),
        card_exp_month: 12,
        card_exp_year: 2030,
        is_default,
        is_active: true,
        created_at: None,
        updated_at: None,
        last_used_at: None,
    }
}

fn profile(id: &str) -> Profile {
    Profile {
        id: id.to_string(),
        updated_at: None,
        username: None,
        full_name: None,
        avatar_url: None,
        onboarding_complete: None,
        stripe_customer_id: None,
        subscription_id: None,
        subscription_status: None,
        subscription_period_end: None,
        total_tokens: None,
        tokens_remaining: None,
        tokens_used: None,
        total_purchases: None,
        total_spent_cents: None,
        last_purchase_at: None,
    }
}

fn contractor(id: &str) -> Contractor {
    Contractor {
        id: id.to_string(),
        user_id: "user_1".to_string(),
        profile_id: "profile_1".to_string(),
        contractor_type: "individual".to_string(),
        kyc_status: "submitted".to_string(),
        is_active: true,
        stripe_connect_account_id: Some("acct_1".to_string()),
        stripe_connect_account_status: Some("pending".to_string()),
        stripe_connect_requirements_completed: Some(false),
        business_name: None,
        business_tax_id: None,
        business_website_url: None,
        business_description: None,
        industry_mcc_code: None,
        company_registration_number: None,
        company_structure: None,
        first_name: None,
        last_name: None,
        date_of_birth: None,
        phone_number: None,
        national_id_number: None,
        national_id_type: None,
        created_at: None,
        updated_at: None,
    }
}

fn form(address: Option<ContractorAddress>) -> ContractorKycFormData {
    ContractorKycFormData {
        contractor_type: "individual".to_string(),
        email: "c@d.e".to_string(),
        first_name: Some("Cy".to_string()),
        last_name: None,
        phone: None,
        date_of_birth: None,
        national_id_number: None,
        national_id_type: None,
        business_name: Some("Cy Ltd".to_string()),
        business_tax_id: None,
        business_url: None,
        business_description: None,
        industry_mcc_code: None,
        company_registration_number: None,
        company_structure: None,
        address,
        bank_account: None,
    }
}

fn address() -> ContractorAddress {
    ContractorAddress {
        line1: "1 Main St".to_string(),
        line2: None,
        city: "Perth".to_string(),
        state: "WA".to_string(),
        postal_code: "6000".to_string(),
        country: "AU".to_string(),
    }
}

fn answered(status: u16, body: &str, rows: Rows) -> Event {
    Event::Store(StoreReply::Answered { status, body: body.to_string(), rows })
}

fn unread(status: u16, body: &str) -> Event {
    answered(status, body, Rows::Unread { detail: String::new() })
}

fn methods(rows: Vec<PaymentMethod>) -> Event {
    answered(200, "", Rows::PaymentMethods(rows))
}

fn processor_method(customer: Option<&str>) -> Event {
    Event::Processor(ProcessorReply::Method(MethodSnapshot {
        id: "pm".to_string(),
        customer: customer.map(|c| c.to_string()),
        card: None,
    }))
}

fn rejected(detail: &str) -> Event {
    Event::Processor(ProcessorReply::Rejected { detail: detail.to_string() })
}

fn done() -> Event {
    Event::Processor(ProcessorReply::Done)
}

fn no_session() -> Failure {
    Failure::rule(ErrorKind::AuthenticationRequired, Step::Session)
}

fn unexpected() -> Failure {
    Failure::rule(ErrorKind::UnexpectedEvent, Step::Protocol)
}

fn price(id: &str, amount: Option<i64>, recurring: Option<Recurrence>) -> PriceSnapshot {
    PriceSnapshot {
        id: id.to_string(),
        product: Some("prod_1".to_string()),
        unit_amount: amount,
        currency: amount.map(|_| "aud".to_string()),
        recurring,
    }
}

#[test]
fn stored_method_is_charged_in_lower_case_currency() {
    let (flow, action) = create_payment_intent_with_stored_method(
        2500,
        "USD".to_string(),
        "pm_b".to_string(),
        "user_1".to_string(),
    );
    assert_eq!(flow.stage, ChargeStage::AwaitMethods);
    assert_eq!(
        action,
        Action::Store(StoreOp::ListPaymentMethods { user_id: "user_1".to_string(), ordered: true })
    );
    let (flow, action) = flow.advance(methods(vec![row("pm_a", true), row("pm_b", false)]));
    assert_eq!(flow.stage, ChargeStage::AwaitCharge);
    assert_eq!(
        action,
        Action::Processor(ProcessorCall::ChargeStoredMethod {
            amount: 2500,
            currency: "usd".to_string(),
            payment_method_id: "pm_b".to_string(),
        })
    );
    let (flow, action) = flow.advance(Event::Processor(ProcessorReply::Intent(IntentSnapshot {
        id: "pi_9".to_string(),
        status: IntentStatus::Succeeded,
        amount: 2500,
        currency: "usd".to_string(),
        client_secret: None,
        price_id: None,
    })));
    assert_eq!(
        action,
        Action::Store(StoreOp::MarkPaymentMethodUsed {
            payment_method_id: "pm_b".to_string(),
            user_id: "user_1".to_string(),
        })
    );
    let (flow, action) = flow.advance(unread(500, "could not stamp"));
    assert_eq!(flow.stage, ChargeStage::Finished);
    assert_eq!(
        action,
        Action::Finish(Ok(PaymentIntentResponse {
            client_secret: String::new(),
            payment_intent_id: "pi_9".to_string(),
        }))
    );
}

#[test]
fn method_that_is_not_stored_is_not_charged() {
    let (flow, _) = create_payment_intent_with_stored_method(
        2500,
        "usd".to_string(),
        "pm_z".to_string(),
        "user_1".to_string(),
    );
    let (flow, action) = flow.advance(methods(vec![row("pm_a", true)]));
    assert_eq!(flow.stage, ChargeStage::Finished);
    assert_eq!(
        action,
        Action::Finish(Err(Failure::rule(ErrorKind::NotFound, Step::ListPaymentMethods)))
    );
    assert!(has_method(&vec![row("pm_a", true)], &"pm_a".to_string()));
    assert!(!has_method(&vec![row("pm_a", true)], &"pm_".to_string()));
    assert!(!has_method(&vec![], &"pm_a".to_string()));
}

#[test]
fn declined_charge_is_an_operation_error() {
    let (flow, _) = create_payment_intent_with_stored_method(
        2500,
        "usd".to_string(),
        "pm_a".to_string(),
        "user_1".to_string(),
    );
    let (flow, _) = flow.advance(methods(vec![row("pm_a", true)]));
    let (_, action) = flow.advance(rejected("Your card was declined."));
    assert_eq!(
        action,
        Action::Finish(Err(Failure::reported(
            ErrorKind::ProcessorOperationError,
            Step::CreatePaymentIntent,
            "Your card was declined.".to_string()
        )))
    );
}

#[test]
fn charge_fails_when_the_methods_cannot_be_listed() {
    let (flow, _) = create_payment_intent_with_stored_method(
        2500,
        "usd".to_string(),
        "pm_a".to_string(),
        "user_1".to_string(),
    );
    let (_, action) = flow.advance(unread(403, "forbidden"));
    assert_eq!(
        action,
        Action::Finish(Err(Failure::answered(
            Step::ListPaymentMethods,
            403,
            "forbidden".to_string()
        )))
    );
}

#[test]
fn repair_attaches_what_is_unattached_and_counts_it() {
    let (flow, action) = fix_payment_method_attachments("cus_1".to_string(), "user_1".to_string());
    assert_eq!(flow.stage, RepairStage::AwaitList);
    assert_eq!(
        action,
        Action::Store(StoreOp::ListPaymentMethods { user_id: "user_1".to_string(), ordered: false })
    );
    let (flow, action) =
        flow.advance(methods(vec![row("pm_a", false), row("pm_b", true), row("pm_c", false)]));
    assert_eq!(
        action,
        Action::Processor(ProcessorCall::RetrievePaymentMethod {
            payment_method_id: "pm_a".to_string()
        })
    );
    // pm_a is attached already
    let (flow, action) = flow.advance(processor_method(Some("cus_1")));
    assert_eq!(
        action,
        Action::Processor(ProcessorCall::RetrievePaymentMethod {
            payment_method_id: "pm_b".to_string()
        })
    );
    // pm_b is not, and is the local default
    let (flow, action) = flow.advance(processor_method(None));
    assert_eq!(
        action,
        Action::Processor(ProcessorCall::AttachPaymentMethod {
            payment_method_id: "pm_b".to_string(),
            customer_id: "cus_1".to_string(),
        })
    );
    let (flow, action) = flow.advance(done());
    assert_eq!(flow.fixed, 1);
    assert_eq!(
        action,
        Action::Processor(ProcessorCall::SetDefaultPaymentMethod {
            customer_id: "cus_1".to_string(),
            payment_method_id: "pm_b".to_string(),
        })
    );
    let (flow, action) = flow.advance(rejected("could not set"));
    assert_eq!(
        action,
        Action::Processor(ProcessorCall::RetrievePaymentMethod {
            payment_method_id: "pm_c".to_string()
        })
    );
    // pm_c cannot be attached
    let (flow, _) = flow.advance(processor_method(None));
    let (flow, action) = flow.advance(rejected("may not be used again"));
    assert_eq!(flow.stage, RepairStage::Finished);
    assert_eq!(action, Action::Finish(Ok(1)));
}

#[test]
fn repair_passes_over_methods_the_processor_does_not_know() {
    let (flow, _) = fix_payment_method_attachments("cus_1".to_string(), "user_1".to_string());
    let (flow, _) = flow.advance(methods(vec![row("pm_a", false), row("pm_b", false)]));
    let (flow, action) = flow.advance(rejected("No such PaymentMethod"));
    assert_eq!(
        action,
        Action::Processor(ProcessorCall::RetrievePaymentMethod {
            payment_method_id: "pm_b".to_string()
        })
    );
    let (flow, _) = flow.advance(processor_method(None));
    let (flow, action) = flow.advance(done());
    assert_eq!(flow.stage, RepairStage::Finished);
    assert_eq!(action, Action::Finish(Ok(1)));
}

#[test]
fn repair_of_nothing_fixes_nothing() {
    let (flow, _) = fix_payment_method_attachments("cus_1".to_string(), "user_1".to_string());
    let (flow, action) = flow.advance(methods(vec![]));
    assert_eq!(flow.stage, RepairStage::Finished);
    assert_eq!(action, Action::Finish(Ok(0)));
    let (flow, _) = fix_payment_method_attachments("cus_1".to_string(), "user_1".to_string());
    let (_, action) = flow.advance(Event::Store(StoreReply::Unreachable {
        detail: "timeout".to_string(),
    }));
    assert_eq!(
        action,
        Action::Finish(Err(Failure::reported(
            ErrorKind::RemoteStoreError,
            Step::ListPaymentMethods,
            "timeout".to_string()
        )))
    );
}

#[test]
fn prices_are_mirrored_into_the_package_of_the_product() {
    let (flow, action) = sync_stripe_prices_to_database("prod_1".to_string());
    assert_eq!(
        action,
        Action::Store(StoreOp::FindPackage {
            product_id: "prod_1".to_string(),
            select: PackageColumns::IdName,
        })
    );
    let (flow, action) =
        flow.advance(unread(200, r#"[{"id":"pkg_1","name":"Token Packages"}]"#));
    assert_eq!(
        flow.stage,
        PriceSyncStage::AwaitPrices {
            package_id: "pkg_1".to_string(),
            package_name: "Token Packages".to_string(),
        }
    );
    assert_eq!(
        action,
        Action::Processor(ProcessorCall::ListActivePrices {
            product_id: "prod_1".to_string(),
            limit: None,
        })
    );
    let (flow, action) = flow.advance(Event::Processor(ProcessorReply::Prices(vec![
        price("price_a", Some(500), None),
        price(
            "price_b",
            None,
            Some(Recurrence { interval: BillingInterval::Month, interval_count: 6 }),
        ),
        price("price_c", Some(1), None),
    ])));
    assert_eq!(
        action,
        Action::Store(StoreOp::InsertPackagePrice {
            package_id: "pkg_1".to_string(),
            price_id: "price_a".to_string(),
            amount_cents: 500,
            currency: "aud".to_string(),
            interval: None,
            interval_count: Some(1),
            merge_duplicates: true,
        })
    );
    let (flow, action) = flow.advance(unread(201, ""));
    assert_eq!(flow.synced, 1);
    assert_eq!(
        action,
        Action::Store(StoreOp::InsertPackagePrice {
            package_id: "pkg_1".to_string(),
            price_id: "price_b".to_string(),
            amount_cents: 0,
            currency: "usd".to_string(),
            interval: Some(BillingInterval::Month),
            interval_count: Some(6),
            merge_duplicates: true,
        })
    );
    // a refusal is passed over
    let (flow, _) = flow.advance(unread(409, "conflict"));
    assert_eq!(flow.synced, 1);
    let (flow, action) = flow.advance(unread(200, ""));
    assert_eq!(flow.stage, PriceSyncStage::Finished);
    assert_eq!(
        action,
        Action::Finish(Ok(PricesSynced { synced: 2, package_name: "Token Packages".to_string() }))
    );
}

#[test]
fn prices_are_not_mirrored_without_a_package() {
    let (flow, _) = sync_stripe_prices_to_database("prod_1".to_string());
    let (flow, action) = flow.advance(unread(200, "[]"));
    assert_eq!(flow.stage, PriceSyncStage::Finished);
    assert_eq!(
        action,
        Action::Finish(Err(Failure::reported(
            ErrorKind::NotFound,
            Step::FindPackage,
            "prod_1".to_string()
        )))
    );
}

#[test]
fn package_without_a_name_is_reported_as_unknown() {
    let (flow, _) = sync_stripe_prices_to_database("prod_1".to_string());
    let decoded = Decoded::Rows(vec![CatalogRow {
        id: Some("pkg_1".to_string()),
        name: None,
        token_amount: None,
    }]);
    let (flow, _) = package_for_sync(flow, 200, String::new(), decoded);
    assert_eq!(
        flow.stage,
        PriceSyncStage::AwaitPrices {
            package_id: "pkg_1".to_string(),
            package_name: "Unknown Package".to_string(),
        }
    );
    let (flow, action) = flow.advance(Event::Processor(ProcessorReply::Prices(vec![])));
    assert_eq!(flow.stage, PriceSyncStage::Finished);
    assert_eq!(
        action,
        Action::Finish(Ok(PricesSynced { synced: 0, package_name: "Unknown Package".to_string() }))
    );
}

#[test]
fn package_lookup_that_reads_badly_ends_the_mirroring() {
    let (flow, _) = sync_stripe_prices_to_database("prod_1".to_string());
    let (_, action) = package_for_sync(flow, 200, "{}".to_string(), Decoded::NotAList);
    assert_eq!(
        action,
        Action::Finish(Err(Failure::answered(Step::FindPackage, 200, "{}".to_string())))
    );
    let (flow, _) = sync_stripe_prices_to_database("prod_1".to_string());
    let (_, action) = flow.advance(unread(200, "not json"));
    match action {
        Action::Finish(Err(f)) => {
            assert_eq!(f.kind, ErrorKind::RemoteStoreError);
            assert_eq!(f.step, Step::FindPackage);
            assert_eq!(f.status, Some(200));
        }
        other => panic!("unexpected action {:?}", other),
    }
    let (flow, _) = sync_stripe_prices_to_database("prod_1".to_string());
    let (flow, _) = flow.advance(unread(200, r#"[{"id":"pkg_1"}]"#));
    let (_, action) = flow.advance(rejected("no prices"));
    assert_eq!(
        action,
        Action::Finish(Err(Failure::reported(
            ErrorKind::ProcessorLookupError,
            Step::ListPrices,
            "no prices".to_string()
        )))
    );
}

#[test]
fn catalog_is_seeded_for_the_known_product() {
    assert_eq!(
        create_missing_package(),
        StoreOp::CreateDefaultPackage { product_id: "prod_SqniwA0Verdhlk".to_string() }
    );
    assert_eq!(
        create_missing_package_price(),
        StoreOp::FindPackage {
            product_id: "prod_SqniwA0Verdhlk".to_string(),
            select: PackageColumns::Id,
        }
    );
    let expected = StoreOp::InsertPackagePrice {
        package_id: "pkg_7".to_string(),
        price_id: "price_1Rv67RQdTny8lgOgb2EwXy2v".to_string(),
        amount_cents: 15999,
        currency: "aud".to_string(),
        interval: None,
        interval_count: None,
        merge_duplicates: false,
    };
    assert_eq!(seeded_price_from(200, r#"[{"id":"pkg_7"}]"#.to_string()), Ok(expected.clone()));
    assert_eq!(
        seeded_price_for(
            200,
            String::new(),
            Decoded::Rows(vec![CatalogRow {
                id: Some("pkg_7".to_string()),
                name: None,
                token_amount: None
            }])
        ),
        Ok(expected)
    );
    assert_eq!(
        seeded_price_from(200, "[]".to_string()),
        Err(Failure::rule(ErrorKind::NotFound, Step::FindPackage))
    );
    assert_eq!(
        seeded_price_from(200, r#"[{"name":"x"}]"#.to_string()),
        Err(Failure::answered(Step::FindPackage, 200, r#"[{"name":"x"}]"#.to_string()))
    );
}

#[test]
fn onboarding_creates_account_contractor_address_and_mark() {
    let (flow, action) = create_contractor_profile("user_1".to_string(), form(Some(address())), true);
    assert_eq!(
        action,
        Action::Store(StoreOp::FetchProfile {
            user_id: "user_1".to_string(),
            columns: ProfileColumns::All,
        })
    );
    let (flow, action) = flow.advance(answered(200, "", Rows::Profiles(vec![profile("profile_1")])));
    assert_eq!(
        action,
        Action::Processor(ProcessorCall::CreateConnectAccount {
            user_id: "user_1".to_string(),
            contractor_type: "individual".to_string(),
            email: "c@d.e".to_string(),
        })
    );
    let (flow, action) = flow.advance(Event::Processor(ProcessorReply::Connect(ConnectSnapshot {
        account_id: "acct_1".to_string(),
        requirements_completed: false,
    })));
    assert_eq!(
        action,
        Action::Store(StoreOp::InsertContractor {
            user_id: "user_1".to_string(),
            profile_id: "profile_1".to_string(),
            contractor_type: "individual".to_string(),
            connect_account_id: "acct_1".to_string(),
            requirements_completed: false,
            business_name: Some("Cy Ltd".to_string()),
            business_tax_id: None,
        })
    );
    let (flow, action) =
        flow.advance(answered(201, "", Rows::Contractors(vec![contractor("con_1")])));
    assert_eq!(
        action,
        Action::Store(StoreOp::InsertContractorAddress {
            contractor_id: "con_1".to_string(),
            line1: "1 Main St".to_string(),
            line2: None,
            city: "Perth".to_string(),
            state: "WA".to_string(),
            postal_code: "6000".to_string(),
            country: "AU".to_string(),
        })
    );
    let (flow, action) = flow.advance(unread(400, "bad address"));
    assert_eq!(
        action,
        Action::Store(StoreOp::MarkContractor {
            profile_id: "profile_1".to_string(),
            contractor_id: "con_1".to_string(),
        })
    );
    let (flow, action) = flow.advance(unread(204, ""));
    assert_eq!(flow.stage, OnboardStage::Finished);
    assert_eq!(action, Action::Finish(Ok(contractor("con_1"))));
}

#[test]
fn onboarding_without_address_goes_straight_to_the_mark() {
    let (flow, _) = create_contractor_profile("user_1".to_string(), form(None), true);
    let (flow, _) = flow.advance(answered(200, "", Rows::Profiles(vec![profile("profile_1")])));
    let (flow, _) = flow.advance(Event::Processor(ProcessorReply::Connect(ConnectSnapshot {
        account_id: "acct_1".to_string(),
        requirements_completed: true,
    })));
    let (_, action) = flow.advance(answered(201, "", Rows::Contractors(vec![contractor("con_1")])));
    assert_eq!(
        action,
        Action::Store(StoreOp::MarkContractor {
            profile_id: "profile_1".to_string(),
            contractor_id: "con_1".to_string(),
        })
    );
}

#[test]
fn onboarding_needs_session_profile_and_account() {
    let (flow, action) = create_contractor_profile("user_1".to_string(), form(None), false);
    assert_eq!(flow.stage, OnboardStage::Finished);
    assert_eq!(action, Action::Finish(Err(no_session())));

    let (flow, _) = create_contractor_profile("user_1".to_string(), form(None), true);
    let (_, action) = flow.advance(answered(200, "", Rows::Profiles(vec![])));
    assert_eq!(action, Action::Finish(Err(Failure::rule(ErrorKind::NotFound, Step::LoadProfile))));

    let (flow, _) = create_contractor_profile("user_1".to_string(), form(None), true);
    let (flow, _) = flow.advance(answered(200, "", Rows::Profiles(vec![profile("profile_1")])));
    let (_, action) = flow.advance(rejected("country not supported"));
    assert_eq!(
        action,
        Action::Finish(Err(Failure::reported(
            ErrorKind::ProcessorOperationError,
            Step::CreateConnectAccount,
            "country not supported".to_string()
        )))
    );

    let (flow, _) = create_contractor_profile("user_1".to_string(), form(None), true);
    let (flow, _) = flow.advance(answered(200, "", Rows::Profiles(vec![profile("profile_1")])));
    let (flow, _) = flow.advance(Event::Processor(ProcessorReply::Connect(ConnectSnapshot {
        account_id: "acct_1".to_string(),
        requirements_completed: true,
    })));
    let (flow, action) = flow.advance(answered(201, "", Rows::Contractors(vec![])));
    assert_eq!(
        action,
        Action::Finish(Err(Failure::rule(ErrorKind::NotFound, Step::CreateContractor)))
    );
    let (_, action) = flow.advance(done());
    assert_eq!(action, Action::Finish(Err(unexpected())));
}

#[test]
fn contractor_operations_need_a_session() {
    assert_eq!(
        save_kyc_form_data("u".to_string(), "{}".to_string(), true),
        Ok(StoreOp::SaveKycForm { user_id: "u".to_string(), kyc_json: "{}".to_string() })
    );
    assert_eq!(save_kyc_form_data("u".to_string(), "{}".to_string(), false), Err(no_session()));
    assert_eq!(
        load_kyc_form_data("u".to_string(), true),
        Ok(StoreOp::LoadKycForm { user_id: "u".to_string() })
    );
    assert_eq!(load_kyc_form_data("u".to_string(), false), Err(no_session()));
    assert_eq!(
        get_contractor_profile("u".to_string(), true),
        Ok(StoreOp::FetchContractor { user_id: "u".to_string() })
    );
    assert_eq!(get_contractor_profile("u".to_string(), false), Err(no_session()));
    assert_eq!(
        get_beneficial_owners("c".to_string(), true),
        Ok(StoreOp::ListBeneficialOwners { contractor_id: "c".to_string() })
    );
    assert_eq!(
        get_representatives("c".to_string(), true),
        Ok(StoreOp::ListRepresentatives { contractor_id: "c".to_string() })
    );
    assert_eq!(get_representatives("c".to_string(), false), Err(no_session()));
    assert_eq!(
        get_document_uploads("c".to_string(), true),
        Ok(StoreOp::ListDocumentUploads { contractor_id: "c".to_string() })
    );
    assert_eq!(get_document_uploads("c".to_string(), false), Err(no_session()));
}

#[test]
fn representative_and_document_records_carry_what_was_given() {
    assert_eq!(
        create_representative(
            "c".to_string(),
            "Ann".to_string(),
            "Lee".to_string(),
            "1980-01-01".to_string(),
            Some("a@l.e".to_string()),
            None,
            "1 Main St".to_string(),
            None,
            "Perth".to_string(),
            Some("WA".to_string()),
            "6000".to_string(),
            "AU".to_string(),
            "Director".to_string(),
            true,
            None,
            None,
            true,
        ),
        Ok(StoreOp::InsertRepresentative {
            contractor_id: "c".to_string(),
            first_name: "Ann".to_string(),
            last_name: "Lee".to_string(),
            date_of_birth: "1980-01-01".to_string(),
            email: Some("a@l.e".to_string()),
            phone_number: None,
            street_address: "1 Main St".to_string(),
            street_address_2: None,
            city: "Perth".to_string(),
            state_province: Some("WA".to_string()),
            postal_code: "6000".to_string(),
            country: "AU".to_string(),
            title: "Director".to_string(),
            is_authorized_signatory: true,
            national_id_number: None,
            national_id_type: None,
        })
    );
    assert_eq!(
        create_document_upload(
            "c".to_string(),
            "passport".to_string(),
            "identity".to_string(),
            "p.pdf".to_string(),
            Some(1024),
            None,
            None,
            None,
            None,
            Some(vec!["transfers".to_string()]),
            None,
            true,
        ),
        Ok(StoreOp::InsertDocumentUpload {
            contractor_id: "c".to_string(),
            document_type: "passport".to_string(),
            document_purpose: "identity".to_string(),
            file_name: "p.pdf".to_string(),
            file_size: Some(1024),
            mime_type: None,
            stripe_file_id: None,
            local_file_path: None,
            file_hash: None,
            required_for_capability: Some(vec!["transfers".to_string()]),
            requirement_id: None,
        })
    );
    assert_eq!(
        update_document_upload_status(
            "doc_1".to_string(),
            Some("file_1".to_string()),
            Some("uploaded".to_string()),
            None,
            None,
            None,
            true
        ),
        Ok(StoreOp::UpdateDocumentUpload {
            document_id: "doc_1".to_string(),
            stripe_file_id: Some("file_1".to_string()),
            stripe_upload_status: Some("uploaded".to_string()),
            stripe_upload_error: None,
            verification_status: None,
            verification_notes: None,
        })
    );
    assert_eq!(
        update_document_upload_status("doc_1".to_string(), None, None, None, None, None, false),
        Err(no_session())
    );
}

#[test]
fn profile_operations_need_a_session() {
    assert_eq!(guarded(StoreOp::ProbeSchema, true), Ok(StoreOp::ProbeSchema));
    assert_eq!(guarded(StoreOp::ProbeSchema, false), Err(no_session()));
    assert_eq!(
        get_user_profile("u".to_string(), true),
        Ok(StoreOp::FetchProfile { user_id: "u".to_string(), columns: ProfileColumns::All })
    );
    assert_eq!(get_user_profile("u".to_string(), false), Err(no_session()));
    assert_eq!(
        update_user_profile("u".to_string(), Some("ann".to_string()), None, None, Some(true), true),
        Ok(StoreOp::UpdateProfile {
            user_id: "u".to_string(),
            username: Some("ann".to_string()),
            full_name: None,
            avatar_url: None,
            onboarding_complete: Some(true),
        })
    );
    assert_eq!(
        create_user_profile("u".to_string(), Some("Ann".to_string()), None, None, true),
        Ok(StoreOp::CreateProfile {
            user_id: "u".to_string(),
            full_name: Some("Ann".to_string()),
            avatar_url: None,
            onboarding_complete: None,
        })
    );
    assert_eq!(create_user_profile("u".to_string(), None, None, None, false), Err(no_session()));
    assert_eq!(
        check_username_availability("ann".to_string(), true),
        Ok(StoreOp::FindUsername { candidate: "ann".to_string() })
    );
    assert_eq!(
        get_user_purchases("u".to_string(), true),
        Ok(StoreOp::ListPurchases { user_id: "u".to_string() })
    );
    assert_eq!(get_user_purchases("u".to_string(), false), Err(no_session()));
    assert_eq!(
        update_subscription_status(
            "u".to_string(),
            "cus_1".to_string(),
            "sub_1".to_string(),
            "active".to_string(),
            42
        ),
        StoreOp::MirrorSubscription {
            user_id: "u".to_string(),
            customer_id: "cus_1".to_string(),
            subscription_id: "sub_1".to_string(),
            status: "active".to_string(),
            period_end: 42,
        }
    );
    assert_eq!(debug_database_schema(), (StoreOp::ProbePurchases, StoreOp::ProbeProfiles));
}
