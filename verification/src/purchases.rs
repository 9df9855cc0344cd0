//! Recording one-time purchases: from the processor's price to the local
//! package, from the package price to the token grant, then the purchase row
//! and an advisory look at the profile's token totals.

use vstd::prelude::*;
use vstd::string::*;
use crate::failure::{ErrorKind, Failure, Step};
use crate::json::{
    balance_rows, catalog_rows, decoded_balance_view, decoded_catalog_view, json_reprint,
    printed_view, read_balance, read_catalog, reprint, BalanceRow, CatalogRow, Decoded,
};
use crate::pricing::{get_token_amount_from_price, token_grant};
use crate::processor::{IntentStatus, ProcessorCall, ProcessorReply};
use crate::remote::{
    is_success, success_status, Action, Event, PackageColumns, ProfileColumns, StoreOp,
    StoreReply,
};

verus! {

/// How long the workflow waits after the insert before it looks at the
/// profile, so that the backend's triggers can run.
pub const SETTLE_MILLIS: u64 = 100;

/// Catalog rows as plain values: id, name and token amount of each row;
/// `None` for text that is not JSON, `Some(None)` for JSON that is no array.
pub type CatalogText = Option<Option<Seq<(Option<Seq<char>>, Option<Seq<char>>, Option<i64>)>>>;

/// Balance rows as plain values: remaining, total and purchases of each row.
pub type BalanceText = Option<Option<Seq<(Option<i64>, Option<i64>, Option<i64>)>>>;

/// The purchase to record.
#[derive(Debug, Clone, PartialEq, Eq)]
pub struct PurchaseRequest {
    pub user_id: String,
    pub stripe_payment_intent_id: String,
    pub stripe_price_id: String,
    /// Amount paid, in minor currency units.
    pub amount_paid: i64,
    pub currency: String,
}

/// Where a purchase recording stands: what it waits for, and what it has
/// resolved so far.
#[derive(Debug, Clone, PartialEq, Eq)]
pub enum PurchaseStage {
    /// Waiting for the processor's price.
    AwaitPrice,
    /// Waiting for the package lookup by product.
    AwaitPackage { product_id: String },
    /// Waiting for the default package to be created.
    AwaitNewPackage { product_id: String },
    /// Waiting for the package-price lookup.
    AwaitPackagePrice { product_id: String, package_id: String },
    /// Waiting for the purchase row to be inserted.
    AwaitInsert,
    /// Waiting out the pause after the insert.
    AwaitSettle { record: String },
    /// Waiting for the profile read that checks the token totals.
    AwaitVerification { record: String },
    Finished,
}

/// A purchase recording in progress.
#[derive(Debug, Clone, PartialEq, Eq)]
pub struct PurchaseFlow {
    pub request: PurchaseRequest,
    pub stage: PurchaseStage,
}

/// Token totals read back from the profile after a purchase.
#[derive(Debug, Clone, Copy, PartialEq, Eq, Structural)]
pub struct TokenBalance {
    pub tokens_remaining: i64,
    pub total_tokens: i64,
    pub total_purchases: i64,
}

/// A recorded purchase: the inserted rows as the backend returned them, and
/// the outcome of the advisory balance check, which never fails the purchase.
#[derive(Debug, PartialEq, Eq)]
pub struct PurchaseRecorded {
    pub record: String,
    pub balance: Result<TokenBalance, Failure>,
}

/// Position of a stage in the order in which a recording passes through them.
pub open spec fn stage_rank(stage: PurchaseStage) -> nat {
    match stage {
        PurchaseStage::AwaitPrice => 0,
        PurchaseStage::AwaitPackage { .. } => 1,
        PurchaseStage::AwaitNewPackage { .. } => 2,
        PurchaseStage::AwaitPackagePrice { .. } => 3,
        PurchaseStage::AwaitInsert => 4,
        PurchaseStage::AwaitSettle { .. } => 5,
        PurchaseStage::AwaitVerification { .. } => 6,
        PurchaseStage::Finished => 7,
    }
}

/// The recording has ended with this failure.
pub open spec fn halted(
    request: PurchaseRequest,
    next: PurchaseFlow,
    action: Action<PurchaseRecorded>,
    kind: ErrorKind,
    step: Step,
    status: Option<u16>,
    detail: Seq<char>,
) -> bool {
    next.request == request && next.stage is Finished && action.fails_with(
        kind,
        step,
        status,
        detail,
    )
}

/// The recording has ended with a failure of this kind, step and status.
pub open spec fn halted_like(
    request: PurchaseRequest,
    next: PurchaseFlow,
    action: Action<PurchaseRecorded>,
    kind: ErrorKind,
    step: Step,
    status: Option<u16>,
) -> bool {
    next.request == request && next.stage is Finished && action.fails_like(kind, step, status)
}

/// The recording has ended because an outcome arrived out of turn.
pub open spec fn out_of_turn(
    request: PurchaseRequest,
    next: PurchaseFlow,
    action: Action<PurchaseRecorded>,
) -> bool {
    halted(request, next, action, ErrorKind::UnexpectedEvent, Step::Protocol, None, Seq::empty())
}

/// The recording goes on to look up the package price of a resolved package.
pub open spec fn seeks_price(
    request: PurchaseRequest,
    product_id: String,
    package_id: Seq<char>,
    next: PurchaseFlow,
    action: Action<PurchaseRecorded>,
) -> bool {
    &&& next.request == request
    &&& next.stage matches PurchaseStage::AwaitPackagePrice { product_id: p, package_id: k }
    &&& p == product_id
    &&& k@ == package_id
    &&& action == Action::<PurchaseRecorded>::Store(
        StoreOp::FindPackagePrice { price_id: request.stripe_price_id },
    )
}

/// What follows the answer to the package lookup, given how its body reads.
/// The status of this answer is not examined: an empty list means that the
/// product has no package yet, and the default package is created for it.
pub open spec fn package_lookup_step(
    request: PurchaseRequest,
    product_id: String,
    status: u16,
    body: String,
    parsed: CatalogText,
    next: PurchaseFlow,
    action: Action<PurchaseRecorded>,
) -> bool {
    match parsed {
        None => halted_like(
            request,
            next,
            action,
            ErrorKind::RemoteStoreError,
            Step::FindPackage,
            Some(status),
        ),
        Some(None) => halted(
            request,
            next,
            action,
            ErrorKind::RemoteStoreError,
            Step::FindPackage,
            Some(status),
            body@,
        ),
        Some(Some(rows)) => if rows.len() == 0 {
            &&& next.request == request
            &&& next.stage == (PurchaseStage::AwaitNewPackage { product_id })
            &&& action == Action::<PurchaseRecorded>::Store(
                StoreOp::CreateDefaultPackage { product_id },
            )
        } else {
            match rows[0].0 {
                Some(id) => seeks_price(request, product_id, id, next, action),
                None => halted(
                    request,
                    next,
                    action,
                    ErrorKind::RemoteStoreError,
                    Step::FindPackage,
                    Some(status),
                    body@,
                ),
            }
        },
    }
}

/// What follows the answer to the creation of the default package.
pub open spec fn package_created_step(
    request: PurchaseRequest,
    product_id: String,
    status: u16,
    body: String,
    parsed: CatalogText,
    next: PurchaseFlow,
    action: Action<PurchaseRecorded>,
) -> bool {
    if !success_status(status) {
        halted(
            request,
            next,
            action,
            ErrorKind::RemoteStoreError,
            Step::CreatePackage,
            Some(status),
            body@,
        )
    } else {
        match parsed {
            None => halted_like(
                request,
                next,
                action,
                ErrorKind::RemoteStoreError,
                Step::CreatePackage,
                Some(status),
            ),
            Some(Some(rows)) if rows.len() > 0 && rows[0].0 is Some => seeks_price(
                request,
                product_id,
                rows[0].0->Some_0,
                next,
                action,
            ),
            _ => halted(
                request,
                next,
                action,
                ErrorKind::RemoteStoreError,
                Step::CreatePackage,
                Some(status),
                body@,
            ),
        }
    }
}

/// The tokens a purchase grants: the amount stored on the package price where
/// there is one, else the table's grant for the amount paid.
pub open spec fn tokens_for(stored: Option<i64>, amount_paid: i64) -> int {
    match stored {
        Some(t) => t as int,
        None => token_grant(amount_paid as int),
    }
}

/// The recording goes on to insert the purchase row.
pub open spec fn inserts(
    request: PurchaseRequest,
    product_id: String,
    package_id: String,
    package_price_id: Option<Seq<char>>,
    tokens: int,
    next: PurchaseFlow,
    action: Action<PurchaseRecorded>,
) -> bool {
    &&& next.request == request
    &&& next.stage is AwaitInsert
    &&& action matches Action::Store(
        StoreOp::InsertPurchase {
            user_id,
            payment_intent_id,
            price_id,
            product_id: product,
            package_id: package,
            package_price_id: price_row,
            amount_paid,
            currency,
            tokens_purchased,
        },
    )
    &&& user_id == request.user_id
    &&& payment_intent_id == request.stripe_payment_intent_id
    &&& price_id == request.stripe_price_id
    &&& product == product_id
    &&& package == package_id
    &&& crate::json::text_of(price_row) == package_price_id
    &&& amount_paid == request.amount_paid
    &&& currency == request.currency
    &&& tokens_purchased == tokens
}

/// What follows the answer to the package-price lookup. The status of this
/// answer is not examined.
pub open spec fn package_price_step(
    request: PurchaseRequest,
    product_id: String,
    package_id: String,
    status: u16,
    body: String,
    parsed: CatalogText,
    next: PurchaseFlow,
    action: Action<PurchaseRecorded>,
) -> bool {
    match parsed {
        None => halted_like(
            request,
            next,
            action,
            ErrorKind::RemoteStoreError,
            Step::FindPackagePrice,
            Some(status),
        ),
        Some(None) => halted(
            request,
            next,
            action,
            ErrorKind::RemoteStoreError,
            Step::FindPackagePrice,
            Some(status),
            body@,
        ),
        Some(Some(rows)) => if rows.len() == 0 {
            inserts(
                request,
                product_id,
                package_id,
                None,
                token_grant(request.amount_paid as int),
                next,
                action,
            )
        } else {
            match rows[0].0 {
                Some(id) => inserts(
                    request,
                    product_id,
                    package_id,
                    Some(id),
                    tokens_for(rows[0].2, request.amount_paid),
                    next,
                    action,
                ),
                None => halted(
                    request,
                    next,
                    action,
                    ErrorKind::RemoteStoreError,
                    Step::FindPackagePrice,
                    Some(status),
                    body@,
                ),
            }
        },
    }
}

/// What follows the answer to the insert of the purchase row.
pub open spec fn inserted_step(
    request: PurchaseRequest,
    status: u16,
    body: String,
    printed: Option<Seq<char>>,
    next: PurchaseFlow,
    action: Action<PurchaseRecorded>,
) -> bool {
    if !success_status(status) {
        halted(
            request,
            next,
            action,
            ErrorKind::RemoteStoreError,
            Step::InsertPurchase,
            Some(status),
            body@,
        )
    } else {
        match printed {
            None => halted_like(
                request,
                next,
                action,
                ErrorKind::RemoteStoreError,
                Step::InsertPurchase,
                Some(status),
            ),
            Some(text) => {
                &&& next.request == request
                &&& next.stage matches PurchaseStage::AwaitSettle { record }
                &&& record@ == text
                &&& action == Action::<PurchaseRecorded>::Pause { millis: SETTLE_MILLIS }
            },
        }
    }
}

/// A counter of the profile, zero where the profile gives none.
pub open spec fn counter(value: Option<i64>) -> i64 {
    match value {
        Some(v) => v,
        None => 0,
    }
}

/// The outcome of the advisory balance check for an answered profile read.
pub open spec fn balance_of(
    status: u16,
    body: String,
    parsed: BalanceText,
    outcome: Result<TokenBalance, Failure>,
) -> bool {
    if !success_status(status) {
        outcome matches Err(f) && f.is(
            ErrorKind::RemoteStoreError,
            Step::LoadProfile,
            Some(status),
            body@,
        )
    } else {
        match parsed {
            None => outcome matches Err(f) && f.kind == ErrorKind::RemoteStoreError && f.step
                == Step::LoadProfile && f.status == Some(status),
            Some(Some(rows)) if rows.len() > 0 => outcome == Ok::<TokenBalance, Failure>(
                TokenBalance {
                    tokens_remaining: counter(rows[0].0),
                    total_tokens: counter(rows[0].1),
                    total_purchases: counter(rows[0].2),
                },
            ),
            _ => outcome matches Err(f) && f.is(
                ErrorKind::NotFound,
                Step::LoadProfile,
                Some(status),
                Seq::empty(),
            ),
        }
    }
}

/// The outcome of the advisory balance check for any reply to the profile read.
pub open spec fn balance_checked(
    reply: StoreReply,
    outcome: Result<TokenBalance, Failure>,
) -> bool {
    match reply {
        StoreReply::Unavailable { failure } => outcome == Err::<TokenBalance, Failure>(failure),
        StoreReply::Unreachable { detail } => outcome matches Err(f) && f.is(
            ErrorKind::RemoteStoreError,
            Step::LoadProfile,
            None,
            detail@,
        ),
        StoreReply::Answered { status, body, .. } => balance_of(
            status,
            body,
            balance_rows(body@),
            outcome,
        ),
    }
}

/// One step of a purchase recording: from where it stands and what came
/// back, to where it stands next and what it asks for.
///
/// A failed lookup or insert ends the recording with its failure. Once the
/// purchase row is inserted nothing fails the recording any more: whatever
/// the balance check comes to is reported beside the record.
pub open spec fn purchase_step(
    flow: PurchaseFlow,
    event: Event,
    next: PurchaseFlow,
    action: Action<PurchaseRecorded>,
) -> bool {
    let request = flow.request;
    match flow.stage {
        PurchaseStage::AwaitPrice => match event {
            Event::Processor(ProcessorReply::Price(price)) => match price.product {
                Some(product_id) => {
                    &&& next.request == request
                    &&& next.stage == (PurchaseStage::AwaitPackage { product_id })
                    &&& action == Action::<PurchaseRecorded>::Store(
                        StoreOp::FindPackage { product_id, select: PackageColumns::IdNameProduct },
                    )
                },
                None => halted(
                    request,
                    next,
                    action,
                    ErrorKind::ProcessorLookupError,
                    Step::ResolveProduct,
                    None,
                    Seq::empty(),
                ),
            },
            Event::Processor(ProcessorReply::Rejected { detail }) => halted(
                request,
                next,
                action,
                ErrorKind::ProcessorLookupError,
                Step::RetrievePrice,
                None,
                detail@,
            ),
            _ => out_of_turn(request, next, action),
        },
        PurchaseStage::AwaitPackage { product_id } => match event {
            Event::Store(StoreReply::Unavailable { failure }) => next.request == request
                && next.stage is Finished && action == Action::<PurchaseRecorded>::Finish(
                Err(failure),
            ),
            Event::Store(StoreReply::Unreachable { detail }) => halted(
                request,
                next,
                action,
                ErrorKind::RemoteStoreError,
                Step::FindPackage,
                None,
                detail@,
            ),
            Event::Store(StoreReply::Answered { status, body, .. }) => package_lookup_step(
                request,
                product_id,
                status,
                body,
                catalog_rows(body@),
                next,
                action,
            ),
            _ => out_of_turn(request, next, action),
        },
        PurchaseStage::AwaitNewPackage { product_id } => match event {
            Event::Store(StoreReply::Unavailable { failure }) => next.request == request
                && next.stage is Finished && action == Action::<PurchaseRecorded>::Finish(
                Err(failure),
            ),
            Event::Store(StoreReply::Unreachable { detail }) => halted(
                request,
                next,
                action,
                ErrorKind::RemoteStoreError,
                Step::CreatePackage,
                None,
                detail@,
            ),
            Event::Store(StoreReply::Answered { status, body, .. }) => package_created_step(
                request,
                product_id,
                status,
                body,
                catalog_rows(body@),
                next,
                action,
            ),
            _ => out_of_turn(request, next, action),
        },
        PurchaseStage::AwaitPackagePrice { product_id, package_id } => match event {
            Event::Store(StoreReply::Unavailable { failure }) => next.request == request
                && next.stage is Finished && action == Action::<PurchaseRecorded>::Finish(
                Err(failure),
            ),
            Event::Store(StoreReply::Unreachable { detail }) => halted(
                request,
                next,
                action,
                ErrorKind::RemoteStoreError,
                Step::FindPackagePrice,
                None,
                detail@,
            ),
            Event::Store(StoreReply::Answered { status, body, .. }) => package_price_step(
                request,
                product_id,
                package_id,
                status,
                body,
                catalog_rows(body@),
                next,
                action,
            ),
            _ => out_of_turn(request, next, action),
        },
        PurchaseStage::AwaitInsert => match event {
            Event::Store(StoreReply::Unavailable { failure }) => next.request == request
                && next.stage is Finished && action == Action::<PurchaseRecorded>::Finish(
                Err(failure),
            ),
            Event::Store(StoreReply::Unreachable { detail }) => halted(
                request,
                next,
                action,
                ErrorKind::RemoteStoreError,
                Step::InsertPurchase,
                None,
                detail@,
            ),
            Event::Store(StoreReply::Answered { status, body, .. }) => inserted_step(
                request,
                status,
                body,
                json_reprint(body@),
                next,
                action,
            ),
            _ => out_of_turn(request, next, action),
        },
        PurchaseStage::AwaitSettle { record } => match event {
            Event::Resumed => {
                &&& next.request == request
                &&& next.stage == (PurchaseStage::AwaitVerification { record })
                &&& action == Action::<PurchaseRecorded>::Store(
                    StoreOp::FetchProfile {
                        user_id: request.user_id,
                        columns: ProfileColumns::TokenTotals,
                    },
                )
            },
            _ => out_of_turn(request, next, action),
        },
        PurchaseStage::AwaitVerification { record } => match event {
            Event::Store(reply) => {
                &&& next.request == request
                &&& next.stage is Finished
                &&& action matches Action::Finish(Ok(done))
                &&& done.record == record
                &&& balance_checked(reply, done.balance)
            },
            _ => out_of_turn(request, next, action),
        },
        PurchaseStage::Finished => out_of_turn(request, next, action),
    }
}

fn halt(request: PurchaseRequest, failure: Failure) -> (r: (PurchaseFlow, Action<PurchaseRecorded>))
    ensures
        r.0.request == request,
        r.0.stage is Finished,
        r.1 == Action::<PurchaseRecorded>::Finish(Err(failure)),
{
    (PurchaseFlow { request, stage: PurchaseStage::Finished }, Action::Finish(Err(failure)))
}

fn seek_price(request: PurchaseRequest, product_id: String, package_id: String) -> (r: (
    PurchaseFlow,
    Action<PurchaseRecorded>,
))
    ensures
        seeks_price(request, product_id, package_id@, r.0, r.1),
{
    let op = StoreOp::FindPackagePrice { price_id: request.stripe_price_id.clone() };
    (
        PurchaseFlow {
            request,
            stage: PurchaseStage::AwaitPackagePrice { product_id, package_id },
        },
        Action::Store(op),
    )
}

fn insert(
    request: PurchaseRequest,
    product_id: String,
    package_id: String,
    package_price_id: Option<String>,
    tokens: i64,
) -> (r: (PurchaseFlow, Action<PurchaseRecorded>))
    ensures
        inserts(
            request,
            product_id,
            package_id,
            crate::json::text_of(package_price_id),
            tokens as int,
            r.0,
            r.1,
        ),
{
    let op = StoreOp::InsertPurchase {
        user_id: request.user_id.clone(),
        payment_intent_id: request.stripe_payment_intent_id.clone(),
        price_id: request.stripe_price_id.clone(),
        product_id,
        package_id,
        package_price_id,
        amount_paid: request.amount_paid,
        currency: request.currency.clone(),
        tokens_purchased: tokens,
    };
    (PurchaseFlow { request, stage: PurchaseStage::AwaitInsert }, Action::Store(op))
}

/// Starts recording a purchase: the first thing asked for is the processor's
/// price, which names the product.
pub fn record_purchase(
    user_id: String,
    stripe_payment_intent_id: String,
    stripe_price_id: String,
    amount_paid: i64,
    currency: String,
) -> (r: (PurchaseFlow, Action<PurchaseRecorded>))
    ensures
        r.0.request == (PurchaseRequest {
            user_id,
            stripe_payment_intent_id,
            stripe_price_id,
            amount_paid,
            currency,
        }),
        r.0.stage is AwaitPrice,
        r.1 == Action::<PurchaseRecorded>::Processor(
            ProcessorCall::RetrievePrice { price_id: stripe_price_id },
        ),
{
    let call = ProcessorCall::RetrievePrice { price_id: stripe_price_id.clone() };
    let request = PurchaseRequest {
        user_id,
        stripe_payment_intent_id,
        stripe_price_id,
        amount_paid,
        currency,
    };
    (PurchaseFlow { request, stage: PurchaseStage::AwaitPrice }, Action::Processor(call))
}

/// Continues after the package lookup was answered, given the decoded body.
pub fn package_looked_up(
    request: PurchaseRequest,
    product_id: String,
    status: u16,
    body: String,
    decoded: Decoded<CatalogRow>,
) -> (r: (PurchaseFlow, Action<PurchaseRecorded>))
    ensures
        package_lookup_step(
            request,
            product_id,
            status,
            body,
            decoded_catalog_view(decoded),
            r.0,
            r.1,
        ),
{
    match decoded {
        Decoded::Invalid { detail } => halt(
            request,
            Failure {
                kind: ErrorKind::RemoteStoreError,
                step: Step::FindPackage,
                status: Some(status),
                detail,
            },
        ),
        Decoded::NotAList => halt(request, Failure::answered(Step::FindPackage, status, body)),
        Decoded::Rows(mut rows) => {
            if rows.len() == 0 {
                let op = StoreOp::CreateDefaultPackage { product_id: product_id.clone() };
                (
                    PurchaseFlow { request, stage: PurchaseStage::AwaitNewPackage { product_id } },
                    Action::Store(op),
                )
            } else {
                let first = rows.remove(0);
                match first.id {
                    Some(id) => seek_price(request, product_id, id),
                    None => halt(request, Failure::answered(Step::FindPackage, status, body)),
                }
            }
        },
    }
}

/// Continues after the creation of the default package was answered, given
/// the decoded body.
pub fn package_created(
    request: PurchaseRequest,
    product_id: String,
    status: u16,
    body: String,
    decoded: Decoded<CatalogRow>,
) -> (r: (PurchaseFlow, Action<PurchaseRecorded>))
    ensures
        package_created_step(
            request,
            product_id,
            status,
            body,
            decoded_catalog_view(decoded),
            r.0,
            r.1,
        ),
{
    if !is_success(status) {
        return halt(request, Failure::answered(Step::CreatePackage, status, body));
    }
    match decoded {
        Decoded::Invalid { detail } => halt(
            request,
            Failure {
                kind: ErrorKind::RemoteStoreError,
                step: Step::CreatePackage,
                status: Some(status),
                detail,
            },
        ),
        Decoded::NotAList => halt(request, Failure::answered(Step::CreatePackage, status, body)),
        Decoded::Rows(mut rows) => {
            if rows.len() == 0 {
                halt(request, Failure::answered(Step::CreatePackage, status, body))
            } else {
                let first = rows.remove(0);
                match first.id {
                    Some(id) => seek_price(request, product_id, id),
                    None => halt(request, Failure::answered(Step::CreatePackage, status, body)),
                }
            }
        },
    }
}

/// Continues after the package-price lookup was answered, given the decoded
/// body: the token grant is fixed here.
pub fn package_price_looked_up(
    request: PurchaseRequest,
    product_id: String,
    package_id: String,
    status: u16,
    body: String,
    decoded: Decoded<CatalogRow>,
) -> (r: (PurchaseFlow, Action<PurchaseRecorded>))
    ensures
        package_price_step(
            request,
            product_id,
            package_id,
            status,
            body,
            decoded_catalog_view(decoded),
            r.0,
            r.1,
        ),
{
    match decoded {
        Decoded::Invalid { detail } => halt(
            request,
            Failure {
                kind: ErrorKind::RemoteStoreError,
                step: Step::FindPackagePrice,
                status: Some(status),
                detail,
            },
        ),
        Decoded::NotAList => halt(request, Failure::answered(Step::FindPackagePrice, status, body)),
        Decoded::Rows(mut rows) => {
            if rows.len() == 0 {
                let tokens = get_token_amount_from_price(request.amount_paid);
                insert(request, product_id, package_id, None, tokens)
            } else {
                let first = rows.remove(0);
                match first.id {
                    Some(id) => {
                        let tokens = match first.token_amount {
                            Some(t) => t,
                            None => get_token_amount_from_price(request.amount_paid),
                        };
                        insert(request, product_id, package_id, Some(id), tokens)
                    },
                    None => halt(
                        request,
                        Failure::answered(Step::FindPackagePrice, status, body),
                    ),
                }
            }
        },
    }
}

/// Continues after the insert was answered, given the reprinted body.
pub fn purchase_inserted(
    request: PurchaseRequest,
    status: u16,
    body: String,
    printed: Result<String, String>,
) -> (r: (PurchaseFlow, Action<PurchaseRecorded>))
    ensures
        inserted_step(request, status, body, printed_view(printed), r.0, r.1),
{
    if !is_success(status) {
        return halt(request, Failure::answered(Step::InsertPurchase, status, body));
    }
    match printed {
        Err(detail) => halt(
            request,
            Failure {
                kind: ErrorKind::RemoteStoreError,
                step: Step::InsertPurchase,
                status: Some(status),
                detail,
            },
        ),
        Ok(record) => (
            PurchaseFlow { request, stage: PurchaseStage::AwaitSettle { record } },
            Action::Pause { millis: SETTLE_MILLIS },
        ),
    }
}

/// The token totals of an answered profile read, given the decoded body.
pub fn balance_from(status: u16, body: String, decoded: Decoded<BalanceRow>) -> (outcome: Result<
    TokenBalance,
    Failure,
>)
    ensures
        balance_of(status, body, decoded_balance_view(decoded), outcome),
{
    if !is_success(status) {
        return Err(Failure::answered(Step::LoadProfile, status, body));
    }
    match decoded {
        Decoded::Invalid { detail } => Err(
            Failure {
                kind: ErrorKind::RemoteStoreError,
                step: Step::LoadProfile,
                status: Some(status),
                detail,
            },
        ),
        Decoded::NotAList => Err(
            Failure {
                kind: ErrorKind::NotFound,
                step: Step::LoadProfile,
                status: Some(status),
                detail: String::new(),
            },
        ),
        Decoded::Rows(rows) => {
            if rows.len() == 0 {
                Err(
                    Failure {
                        kind: ErrorKind::NotFound,
                        step: Step::LoadProfile,
                        status: Some(status),
                        detail: String::new(),
                    },
                )
            } else {
                let first = rows[0];
                Ok(
                    TokenBalance {
                        tokens_remaining: match first.tokens_remaining {
                            Some(v) => v,
                            None => 0,
                        },
                        total_tokens: match first.total_tokens {
                            Some(v) => v,
                            None => 0,
                        },
                        total_purchases: match first.total_purchases {
                            Some(v) => v,
                            None => 0,
                        },
                    },
                )
            }
        },
    }
}

fn check_balance(reply: StoreReply) -> (outcome: Result<TokenBalance, Failure>)
    ensures
        balance_checked(reply, outcome),
{
    match reply {
        StoreReply::Unavailable { failure } => Err(failure),
        StoreReply::Unreachable { detail } => Err(
            Failure::reported(ErrorKind::RemoteStoreError, Step::LoadProfile, detail),
        ),
        StoreReply::Answered { status, body, rows: _ } => {
            let decoded = read_balance(body.as_str());
            balance_from(status, body, decoded)
        },
    }
}

fn store_failure(request: PurchaseRequest, step: Step, reply: StoreReply) -> (r: (
    PurchaseFlow,
    Action<PurchaseRecorded>,
))
    requires
        !(reply is Answered),
    ensures
        r.0.request == request,
        r.0.stage is Finished,
        match reply {
            StoreReply::Unavailable { failure } => r.1 == Action::<PurchaseRecorded>::Finish(
                Err(failure),
            ),
            StoreReply::Unreachable { detail } => r.1.fails_with(
                ErrorKind::RemoteStoreError,
                step,
                None,
                detail@,
            ),
            StoreReply::Answered { .. } => true,
        },
{
    match reply {
        StoreReply::Unavailable { failure } => halt(request, failure),
        StoreReply::Unreachable { detail } => halt(
            request,
            Failure::reported(ErrorKind::RemoteStoreError, step, detail),
        ),
        StoreReply::Answered { .. } => halt(
            request,
            Failure::rule(ErrorKind::UnexpectedEvent, Step::Protocol),
        ),
    }
}

impl PurchaseFlow {
    /// Takes the outcome of the action last asked for and says what comes
    /// next.
    pub fn advance(self, event: Event) -> (r: (PurchaseFlow, Action<PurchaseRecorded>))
        ensures
            purchase_step(self, event, r.0, r.1),
    {
        let PurchaseFlow { request, stage } = self;
        match stage {
            PurchaseStage::AwaitPrice => match event {
                Event::Processor(ProcessorReply::Price(price)) => match price.product {
                    Some(product_id) => {
                        let op = StoreOp::FindPackage {
                            product_id: product_id.clone(),
                            select: PackageColumns::IdNameProduct,
                        };
                        (
                            PurchaseFlow {
                                request,
                                stage: PurchaseStage::AwaitPackage { product_id },
                            },
                            Action::Store(op),
                        )
                    },
                    None => halt(
                        request,
                        Failure::rule(ErrorKind::ProcessorLookupError, Step::ResolveProduct),
                    ),
                },
                Event::Processor(ProcessorReply::Rejected { detail }) => halt(
                    request,
                    Failure::reported(ErrorKind::ProcessorLookupError, Step::RetrievePrice, detail),
                ),
                _ => halt(request, Failure::rule(ErrorKind::UnexpectedEvent, Step::Protocol)),
            },
            PurchaseStage::AwaitPackage { product_id } => match event {
                Event::Store(StoreReply::Answered { status, body, rows: _ }) => {
                    let decoded = read_catalog(body.as_str());
                    package_looked_up(request, product_id, status, body, decoded)
                },
                Event::Store(reply) => store_failure(request, Step::FindPackage, reply),
                _ => halt(request, Failure::rule(ErrorKind::UnexpectedEvent, Step::Protocol)),
            },
            PurchaseStage::AwaitNewPackage { product_id } => match event {
                Event::Store(StoreReply::Answered { status, body, rows: _ }) => {
                    let decoded = read_catalog(body.as_str());
                    package_created(request, product_id, status, body, decoded)
                },
                Event::Store(reply) => store_failure(request, Step::CreatePackage, reply),
                _ => halt(request, Failure::rule(ErrorKind::UnexpectedEvent, Step::Protocol)),
            },
            PurchaseStage::AwaitPackagePrice { product_id, package_id } => match event {
                Event::Store(StoreReply::Answered { status, body, rows: _ }) => {
                    let decoded = read_catalog(body.as_str());
                    package_price_looked_up(request, product_id, package_id, status, body, decoded)
                },
                Event::Store(reply) => store_failure(request, Step::FindPackagePrice, reply),
                _ => halt(request, Failure::rule(ErrorKind::UnexpectedEvent, Step::Protocol)),
            },
            PurchaseStage::AwaitInsert => match event {
                Event::Store(StoreReply::Answered { status, body, rows: _ }) => {
                    let printed = reprint(body.as_str());
                    purchase_inserted(request, status, body, printed)
                },
                Event::Store(reply) => store_failure(request, Step::InsertPurchase, reply),
                _ => halt(request, Failure::rule(ErrorKind::UnexpectedEvent, Step::Protocol)),
            },
            PurchaseStage::AwaitSettle { record } => match event {
                Event::Resumed => {
                    let op = StoreOp::FetchProfile {
                        user_id: request.user_id.clone(),
                        columns: ProfileColumns::TokenTotals,
                    };
                    (
                        PurchaseFlow {
                            request,
                            stage: PurchaseStage::AwaitVerification { record },
                        },
                        Action::Store(op),
                    )
                },
                _ => halt(request, Failure::rule(ErrorKind::UnexpectedEvent, Step::Protocol)),
            },
            PurchaseStage::AwaitVerification { record } => match event {
                Event::Store(reply) => {
                    let balance = check_balance(reply);
                    (
                        PurchaseFlow { request, stage: PurchaseStage::Finished },
                        Action::Finish(Ok(PurchaseRecorded { record, balance })),
                    )
                },
                _ => halt(request, Failure::rule(ErrorKind::UnexpectedEvent, Step::Protocol)),
            },
            PurchaseStage::Finished => halt(
                request,
                Failure::rule(ErrorKind::UnexpectedEvent, Step::Protocol),
            ),
        }
    }
}

/// Price id recorded for a payment intent whose metadata names none.
pub open spec fn unknown_price() -> Seq<char> {
    "unknown_price"@
}

/// Where the completion of a purchase stands.
#[derive(Debug, Clone, PartialEq, Eq)]
pub enum CompletionStage {
    /// Waiting for the processor's payment intent.
    AwaitIntent,
    /// The payment succeeded; the purchase is being recorded.
    Recording(PurchaseFlow),
    Finished,
}

/// The completion of a purchase in progress: the payment intent is checked,
/// then the purchase is recorded.
#[derive(Debug, Clone, PartialEq, Eq)]
pub struct CompletionFlow {
    pub payment_intent_id: String,
    pub user_id: String,
    pub stage: CompletionStage,
}

/// One step of the completion of a purchase.
///
/// Only an intent whose status is `Succeeded` is recorded; amount and
/// currency are the intent's, the price id is the one its metadata names, or
/// `unknown_price()`. From then on the steps are those of the recording.
pub open spec fn completion_step(
    flow: CompletionFlow,
    event: Event,
    next: CompletionFlow,
    action: Action<PurchaseRecorded>,
) -> bool {
    &&& next.payment_intent_id == flow.payment_intent_id
    &&& next.user_id == flow.user_id
    &&& match flow.stage {
        CompletionStage::AwaitIntent => match event {
            Event::Processor(ProcessorReply::Intent(intent)) => if intent.status
                != IntentStatus::Succeeded {
                next.stage is Finished && action.fails_with(
                    ErrorKind::PaymentNotSucceeded,
                    Step::CheckPayment,
                    None,
                    intent.status.label(),
                )
            } else {
                &&& next.stage matches CompletionStage::Recording(inner)
                &&& inner.stage is AwaitPrice
                &&& inner.request.user_id == flow.user_id
                &&& inner.request.stripe_payment_intent_id == flow.payment_intent_id
                &&& inner.request.stripe_price_id@ == match intent.price_id {
                    Some(p) => p@,
                    None => unknown_price(),
                }
                &&& inner.request.amount_paid == intent.amount
                &&& inner.request.currency == intent.currency
                &&& action == Action::<PurchaseRecorded>::Processor(
                    ProcessorCall::RetrievePrice { price_id: inner.request.stripe_price_id },
                )
            },
            Event::Processor(ProcessorReply::Rejected { detail }) => next.stage is Finished
                && action.fails_with(
                ErrorKind::ProcessorLookupError,
                Step::RetrievePaymentIntent,
                None,
                detail@,
            ),
            _ => next.stage is Finished && action.fails_with(
                ErrorKind::UnexpectedEvent,
                Step::Protocol,
                None,
                Seq::empty(),
            ),
        },
        CompletionStage::Recording(inner) => {
            &&& next.stage matches CompletionStage::Recording(after)
            &&& purchase_step(inner, event, after, action)
        },
        CompletionStage::Finished => next.stage is Finished && action.fails_with(
            ErrorKind::UnexpectedEvent,
            Step::Protocol,
            None,
            Seq::empty(),
        ),
    }
}

/// Starts completing a purchase: the first thing asked for is the payment
/// intent.
pub fn complete_purchase(payment_intent_id: String, user_id: String) -> (r: (
    CompletionFlow,
    Action<PurchaseRecorded>,
))
    ensures
        r.0.payment_intent_id == payment_intent_id,
        r.0.user_id == user_id,
        r.0.stage is AwaitIntent,
        r.1 == Action::<PurchaseRecorded>::Processor(
            ProcessorCall::RetrievePaymentIntent { payment_intent_id },
        ),
{
    let call = ProcessorCall::RetrievePaymentIntent {
        payment_intent_id: payment_intent_id.clone(),
    };
    (
        CompletionFlow { payment_intent_id, user_id, stage: CompletionStage::AwaitIntent },
        Action::Processor(call),
    )
}

impl CompletionFlow {
    /// Takes the outcome of the action last asked for and says what comes
    /// next.
    pub fn advance(self, event: Event) -> (r: (CompletionFlow, Action<PurchaseRecorded>))
        ensures
            completion_step(self, event, r.0, r.1),
    {
        let CompletionFlow { payment_intent_id, user_id, stage } = self;
        match stage {
            CompletionStage::AwaitIntent => match event {
                Event::Processor(ProcessorReply::Intent(intent)) => {
                    match intent.status {
                        IntentStatus::Succeeded => {
                            let price_id = match intent.price_id {
                                Some(p) => p,
                                None => String::from_str("unknown_price"),
                            };
                            let (inner, action) = record_purchase(
                                user_id.clone(),
                                payment_intent_id.clone(),
                                price_id,
                                intent.amount,
                                intent.currency,
                            );
                            (
                                CompletionFlow {
                                    payment_intent_id,
                                    user_id,
                                    stage: CompletionStage::Recording(inner),
                                },
                                action,
                            )
                        },
                        status => (
                            CompletionFlow {
                                payment_intent_id,
                                user_id,
                                stage: CompletionStage::Finished,
                            },
                            Action::Finish(
                                Err(
                                    Failure::reported(
                                        ErrorKind::PaymentNotSucceeded,
                                        Step::CheckPayment,
                                        status.name(),
                                    ),
                                ),
                            ),
                        ),
                    }
                },
                Event::Processor(ProcessorReply::Rejected { detail }) => (
                    CompletionFlow { payment_intent_id, user_id, stage: CompletionStage::Finished },
                    Action::Finish(
                        Err(
                            Failure::reported(
                                ErrorKind::ProcessorLookupError,
                                Step::RetrievePaymentIntent,
                                detail,
                            ),
                        ),
                    ),
                ),
                _ => (
                    CompletionFlow { payment_intent_id, user_id, stage: CompletionStage::Finished },
                    Action::Finish(
                        Err(Failure::rule(ErrorKind::UnexpectedEvent, Step::Protocol)),
                    ),
                ),
            },
            CompletionStage::Recording(inner) => {
                let (after, action) = inner.advance(event);
                (
                    CompletionFlow {
                        payment_intent_id,
                        user_id,
                        stage: CompletionStage::Recording(after),
                    },
                    action,
                )
            },
            CompletionStage::Finished => (
                CompletionFlow { payment_intent_id, user_id, stage: CompletionStage::Finished },
                Action::Finish(Err(Failure::rule(ErrorKind::UnexpectedEvent, Step::Protocol))),
            ),
        }
    }
}

/// A recording from its first stage on: each step takes the flow and the event
/// at one position to the flow at the next, and emits the action there.
pub open spec fn purchase_run(
    flows: Seq<PurchaseFlow>,
    events: Seq<Event>,
    actions: Seq<Action<PurchaseRecorded>>,
) -> bool {
    &&& flows.len() == events.len() + 1
    &&& actions.len() == events.len()
    &&& forall|i: int|
        #![trigger events[i]]
        0 <= i < events.len() ==> purchase_step(flows[i], events[i], flows[i + 1], actions[i])
}

/// Every step takes a recording to a later stage, until it is finished; a
/// finished recording stays finished.
pub proof fn recording_moves_forward(
    flow: PurchaseFlow,
    event: Event,
    next: PurchaseFlow,
    action: Action<PurchaseRecorded>,
)
    requires
        purchase_step(flow, event, next, action),
    ensures
        next.request == flow.request,
        flow.stage is Finished ==> next.stage is Finished,
        !(flow.stage is Finished) ==> stage_rank(next.stage) > stage_rank(flow.stage),
{
}

/// The event is an answer of the backend with this status whose body reads
/// as these catalog rows.
pub open spec fn answers_rows(
    event: Event,
    status: u16,
    rows: Seq<(Option<Seq<char>>, Option<Seq<char>>, Option<i64>)>,
) -> bool {
    event matches Event::Store(StoreReply::Answered { status: s, body, .. }) && (s == status
        && catalog_rows(body@) == Some(Some(rows)))
}

/// The default package is created only in answer to a package lookup that
/// read as an empty list, and for the product that was looked up.
pub proof fn package_created_only_when_missing(
    flow: PurchaseFlow,
    event: Event,
    next: PurchaseFlow,
    action: Action<PurchaseRecorded>,
)
    requires
        purchase_step(flow, event, next, action),
        action matches Action::Store(StoreOp::CreateDefaultPackage { .. }),
    ensures
        flow.stage is AwaitPackage,
        next.stage is AwaitNewPackage,
        exists|status: u16| #[trigger] answers_rows(event, status, Seq::empty()),
        action == Action::<PurchaseRecorded>::Store(
            StoreOp::CreateDefaultPackage { product_id: flow.stage->AwaitPackage_product_id },
        ),
{
    match event {
        Event::Store(StoreReply::Answered { status, body, rows }) => {
            let parsed = catalog_rows(body@);
            assert(parsed is Some && parsed->Some_0 is Some);
            assert(parsed->Some_0->Some_0 =~= Seq::empty());
            assert(answers_rows(event, status, Seq::empty()));
        },
        _ => {},
    }
}

proof fn rank_never_falls(
    flows: Seq<PurchaseFlow>,
    events: Seq<Event>,
    actions: Seq<Action<PurchaseRecorded>>,
    i: int,
    j: int,
)
    requires
        purchase_run(flows, events, actions),
        0 <= i <= j <= events.len(),
    ensures
        stage_rank(flows[j].stage) >= stage_rank(flows[i].stage),
    decreases j - i,
{
    if i < j {
        rank_never_falls(flows, events, actions, i, j - 1);
        let _ = events[j - 1];
        recording_moves_forward(flows[j - 1], events[j - 1], flows[j], actions[j - 1]);
    }
}

/// Self-healing catalog, part one: in one recording the default package is
/// created at most once.
pub proof fn default_package_created_at_most_once(
    flows: Seq<PurchaseFlow>,
    events: Seq<Event>,
    actions: Seq<Action<PurchaseRecorded>>,
    i: int,
    j: int,
)
    requires
        purchase_run(flows, events, actions),
        0 <= i < j < events.len(),
        actions[i] matches Action::Store(StoreOp::CreateDefaultPackage { .. }),
    ensures
        !(actions[j] matches Action::Store(StoreOp::CreateDefaultPackage { .. })),
{
    let _ = events[i];
    let _ = events[j];
    package_created_only_when_missing(flows[i], events[i], flows[i + 1], actions[i]);
    rank_never_falls(flows, events, actions, i + 1, j);
    if actions[j] matches Action::Store(StoreOp::CreateDefaultPackage { .. }) {
        package_created_only_when_missing(flows[j], events[j], flows[j + 1], actions[j]);
    }
}

/// Self-healing catalog, part two: when the package lookup finds nothing, the
/// default package is created for the product, and once the backend returns
/// the new row the purchase is inserted with that row's id as its package,
/// whether or not a package price exists.
pub proof fn missing_package_is_created_and_referenced(
    flow: PurchaseFlow,
    lookup: Event,
    creating: PurchaseFlow,
    first: Action<PurchaseRecorded>,
    created: Event,
    pricing: PurchaseFlow,
    second: Action<PurchaseRecorded>,
    priced: Event,
    inserting: PurchaseFlow,
    third: Action<PurchaseRecorded>,
    statuses: (u16, u16, u16),
    new_rows: Seq<(Option<Seq<char>>, Option<Seq<char>>, Option<i64>)>,
    price_rows: Seq<(Option<Seq<char>>, Option<Seq<char>>, Option<i64>)>,
)
    requires
        flow.stage is AwaitPackage,
        answers_rows(lookup, statuses.0, Seq::empty()),
        purchase_step(flow, lookup, creating, first),
        answers_rows(created, statuses.1, new_rows),
        success_status(statuses.1),
        new_rows.len() > 0,
        new_rows[0].0 is Some,
        purchase_step(creating, created, pricing, second),
        answers_rows(priced, statuses.2, price_rows),
        price_rows.len() > 0 ==> price_rows[0].0 is Some,
        purchase_step(pricing, priced, inserting, third),
    ensures
        first == Action::<PurchaseRecorded>::Store(
            StoreOp::CreateDefaultPackage { product_id: flow.stage->AwaitPackage_product_id },
        ),
        second == Action::<PurchaseRecorded>::Store(
            StoreOp::FindPackagePrice { price_id: flow.request.stripe_price_id },
        ),
        third matches Action::Store(StoreOp::InsertPurchase { product_id, package_id, .. })
            && product_id == flow.stage->AwaitPackage_product_id && package_id@
            == new_rows[0].0->Some_0,
        inserting.stage is AwaitInsert,
{
}

/// Token derivation: the purchase is inserted with the token amount of the
/// package price where the lookup found one that states it, and with the
/// table's grant for the amount paid otherwise.
pub proof fn inserted_tokens_follow_price_or_table(
    flow: PurchaseFlow,
    event: Event,
    next: PurchaseFlow,
    action: Action<PurchaseRecorded>,
    status: u16,
    rows: Seq<(Option<Seq<char>>, Option<Seq<char>>, Option<i64>)>,
)
    requires
        flow.stage is AwaitPackagePrice,
        answers_rows(event, status, rows),
        purchase_step(flow, event, next, action),
        rows.len() > 0 ==> rows[0].0 is Some,
    ensures
        action matches Action::Store(StoreOp::InsertPurchase { tokens_purchased, .. })
            && tokens_purchased == (if rows.len() > 0 {
            tokens_for(rows[0].2, flow.request.amount_paid)
        } else {
            token_grant(flow.request.amount_paid as int)
        }),
{
}

} // verus!
