//! Mirroring the processor's prices into the local catalog.

use vstd::prelude::*;
use vstd::string::*;
use crate::billing::refused;
use crate::catalog::interval_of;
use crate::failure::{ErrorKind, Failure, Step};
use crate::json::{catalog_rows, decoded_catalog_view, read_catalog, CatalogRow, Decoded};
use crate::processor::{PriceSnapshot, ProcessorCall, ProcessorReply};
use crate::purchases::CatalogText;
use crate::remote::{
    accepted, count_one, is_success, one_more, Action, Event, PackageColumns, StoreOp, StoreReply,
};

verus! {

/// Where a mirroring of prices stands.
#[derive(Debug, Clone, PartialEq, Eq)]
pub enum PriceSyncStage {
    /// Waiting for the package of the product.
    AwaitPackage,
    /// Waiting for the processor's active prices of the product.
    AwaitPrices { package_id: String, package_name: String },
    /// Waiting for one price to be written.
    AwaitInsert { package_id: String, package_name: String },
    Finished,
}

/// A mirroring of prices in progress: the prices still to write, and how many
/// the backend has taken.
#[derive(Debug, Clone, PartialEq, Eq)]
pub struct PriceSyncFlow {
    pub product_id: String,
    pub pending: Vec<PriceSnapshot>,
    pub synced: usize,
    pub stage: PriceSyncStage,
}

/// What a mirroring came to.
#[derive(Debug, Clone, PartialEq, Eq)]
pub struct PricesSynced {
    pub synced: usize,
    pub package_name: String,
}

/// Name under which a package without a name is reported.
pub open spec fn unnamed_package() -> Seq<char> {
    "Unknown Package"@
}

/// The operation that writes one processor price into the catalog: no amount
/// counts as 0, no currency as `usd`, a price that does not recur as one
/// interval; a row that exists already is merged.
pub open spec fn writes_price(package_id: String, price: PriceSnapshot, op: StoreOp) -> bool {
    &&& op matches StoreOp::InsertPackagePrice {
        package_id: package,
        price_id,
        amount_cents,
        currency,
        interval,
        interval_count,
        merge_duplicates,
    }
    &&& package == package_id
    &&& price_id == price.id
    &&& amount_cents == (match price.unit_amount {
        Some(a) => a,
        None => 0,
    })
    &&& currency@ == (match price.currency {
        Some(c) => c@,
        None => "usd"@,
    })
    &&& interval == interval_of(price.recurring)
    &&& interval_count == Some(
        match price.recurring {
            Some(r) => r.interval_count as i64,
            None => 1i64,
        },
    )
    &&& merge_duplicates
}

/// The mirroring turns to the next pending price, or ends with the count when
/// none is left.
pub open spec fn writes_next(
    pending: Seq<PriceSnapshot>,
    synced: usize,
    package_id: String,
    package_name: String,
    next: PriceSyncFlow,
    action: Action<PricesSynced>,
) -> bool {
    &&& next.synced == synced
    &&& if pending.len() == 0 {
        &&& next.pending@ == pending
        &&& next.stage == PriceSyncStage::Finished
        &&& action == Action::<PricesSynced>::Finish(Ok(PricesSynced { synced, package_name }))
    } else {
        &&& next.pending@ == pending.remove(0)
        &&& next.stage == (PriceSyncStage::AwaitInsert { package_id, package_name })
        &&& action matches Action::Store(op)
        &&& writes_price(package_id, pending[0], op)
    }
}

/// The mirroring has ended and keeps what it held.
pub open spec fn sync_stops(flow: PriceSyncFlow, next: PriceSyncFlow) -> bool {
    next.pending == flow.pending && next.synced == flow.synced && next.stage
        == PriceSyncStage::Finished
}

/// What follows the answer to the package lookup, given how its body reads:
/// without a package for the product nothing is mirrored.
pub open spec fn package_step(
    flow: PriceSyncFlow,
    status: u16,
    body: String,
    parsed: CatalogText,
    next: PriceSyncFlow,
    action: Action<PricesSynced>,
) -> bool {
    match parsed {
        None => sync_stops(flow, next) && action.fails_like(
            ErrorKind::RemoteStoreError,
            Step::FindPackage,
            Some(status),
        ),
        Some(Some(rows)) if rows.len() == 0 => sync_stops(flow, next) && action.fails_with(
            ErrorKind::NotFound,
            Step::FindPackage,
            None,
            flow.product_id@,
        ),
        Some(Some(rows)) if rows[0].0 is Some => {
            &&& next.pending == flow.pending
            &&& next.synced == flow.synced
            &&& next.stage matches PriceSyncStage::AwaitPrices { package_id, package_name }
            &&& package_id@ == rows[0].0->Some_0
            &&& package_name@ == (match rows[0].1 {
                Some(name) => name,
                None => unnamed_package(),
            })
            &&& action == Action::<PricesSynced>::Processor(
                ProcessorCall::ListActivePrices { product_id: flow.product_id, limit: None },
            )
        },
        _ => sync_stops(flow, next) && action.fails_with(
            ErrorKind::RemoteStoreError,
            Step::FindPackage,
            Some(status),
            body@,
        ),
    }
}

/// One step of a mirroring of prices.
///
/// The product must have a package. Each active price of the product is
/// written into the catalog; a price that the backend refuses is passed over,
/// one that cannot be sent ends the mirroring.
pub open spec fn price_sync_step(
    flow: PriceSyncFlow,
    event: Event,
    next: PriceSyncFlow,
    action: Action<PricesSynced>,
) -> bool {
    &&& next.product_id == flow.product_id
    &&& match flow.stage {
        PriceSyncStage::AwaitPackage => match event {
            Event::Store(StoreReply::Unavailable { failure }) => sync_stops(flow, next) && action
                == Action::<PricesSynced>::Finish(Err(failure)),
            Event::Store(StoreReply::Unreachable { detail }) => sync_stops(flow, next)
                && action.fails_with(
                ErrorKind::RemoteStoreError,
                Step::FindPackage,
                None,
                detail@,
            ),
            Event::Store(StoreReply::Answered { status, body, .. }) => package_step(
                flow,
                status,
                body,
                catalog_rows(body@),
                next,
                action,
            ),
            _ => sync_stops(flow, next) && action.fails_with(
                ErrorKind::UnexpectedEvent,
                Step::Protocol,
                None,
                Seq::empty(),
            ),
        },
        PriceSyncStage::AwaitPrices { package_id, package_name } => match event {
            Event::Processor(ProcessorReply::Prices(prices)) => writes_next(
                prices@,
                flow.synced,
                package_id,
                package_name,
                next,
                action,
            ),
            Event::Processor(reply) => sync_stops(flow, next) && (action matches Action::Finish(
                Err(f),
            ) && refused(reply, ErrorKind::ProcessorLookupError, Step::ListPrices, f)),
            _ => sync_stops(flow, next) && action.fails_with(
                ErrorKind::UnexpectedEvent,
                Step::Protocol,
                None,
                Seq::empty(),
            ),
        },
        PriceSyncStage::AwaitInsert { package_id, package_name } => match event {
            Event::Store(StoreReply::Unavailable { failure }) => sync_stops(flow, next) && action
                == Action::<PricesSynced>::Finish(Err(failure)),
            Event::Store(StoreReply::Unreachable { detail }) => sync_stops(flow, next)
                && action.fails_with(
                ErrorKind::RemoteStoreError,
                Step::CreatePackagePrice,
                None,
                detail@,
            ),
            Event::Store(reply) => writes_next(
                flow.pending@,
                if accepted(reply) {
                    one_more(flow.synced)
                } else {
                    flow.synced
                },
                package_id,
                package_name,
                next,
                action,
            ),
            _ => sync_stops(flow, next) && action.fails_with(
                ErrorKind::UnexpectedEvent,
                Step::Protocol,
                None,
                Seq::empty(),
            ),
        },
        PriceSyncStage::Finished => sync_stops(flow, next) && action.fails_with(
            ErrorKind::UnexpectedEvent,
            Step::Protocol,
            None,
            Seq::empty(),
        ),
    }
}

/// Starts mirroring the processor's prices of a product into the catalog:
/// the first thing asked for is the product's package.
pub fn sync_stripe_prices_to_database(stripe_product_id: String) -> (r: (
    PriceSyncFlow,
    Action<PricesSynced>,
))
    ensures
        r.0.product_id == stripe_product_id,
        r.0.pending@.len() == 0,
        r.0.synced == 0,
        r.0.stage == PriceSyncStage::AwaitPackage,
        r.1 == Action::<PricesSynced>::Store(
            StoreOp::FindPackage { product_id: stripe_product_id, select: PackageColumns::IdName },
        ),
{
    let op = StoreOp::FindPackage {
        product_id: stripe_product_id.clone(),
        select: PackageColumns::IdName,
    };
    (
        PriceSyncFlow {
            product_id: stripe_product_id,
            pending: Vec::new(),
            synced: 0,
            stage: PriceSyncStage::AwaitPackage,
        },
        Action::Store(op),
    )
}

fn stop(flow: PriceSyncFlow, failure: Failure) -> (r: (PriceSyncFlow, Action<PricesSynced>))
    ensures
        r.0.product_id == flow.product_id,
        sync_stops(flow, r.0),
        r.1 == Action::<PricesSynced>::Finish(Err(failure)),
{
    (
        PriceSyncFlow {
            product_id: flow.product_id,
            pending: flow.pending,
            synced: flow.synced,
            stage: PriceSyncStage::Finished,
        },
        Action::Finish(Err(failure)),
    )
}

fn write_price(package_id: &String, price: PriceSnapshot) -> (op: StoreOp)
    ensures
        writes_price(*package_id, price, op),
{
    let (interval, count) = match price.recurring {
        Some(r) => (Some(r.interval), #[verifier::truncate] (r.interval_count as i64)),
        None => (None, 1),
    };
    StoreOp::InsertPackagePrice {
        package_id: package_id.clone(),
        price_id: price.id,
        amount_cents: match price.unit_amount {
            Some(a) => a,
            None => 0,
        },
        currency: match price.currency {
            Some(c) => c,
            None => String::from_str("usd"),
        },
        interval,
        interval_count: Some(count),
        merge_duplicates: true,
    }
}

fn write_next(
    product_id: String,
    pending: Vec<PriceSnapshot>,
    synced: usize,
    package_id: String,
    package_name: String,
) -> (r: (PriceSyncFlow, Action<PricesSynced>))
    ensures
        r.0.product_id == product_id,
        writes_next(pending@, synced, package_id, package_name, r.0, r.1),
{
    let mut pending = pending;
    if pending.len() == 0 {
        (
            PriceSyncFlow { product_id, pending, synced, stage: PriceSyncStage::Finished },
            Action::Finish(Ok(PricesSynced { synced, package_name })),
        )
    } else {
        let price = pending.remove(0);
        let op = write_price(&package_id, price);
        (
            PriceSyncFlow {
                product_id,
                pending,
                synced,
                stage: PriceSyncStage::AwaitInsert { package_id, package_name },
            },
            Action::Store(op),
        )
    }
}

/// Continues after the package lookup was answered, given the decoded body.
pub fn package_for_sync(
    flow: PriceSyncFlow,
    status: u16,
    body: String,
    decoded: Decoded<CatalogRow>,
) -> (r:
    (PriceSyncFlow, Action<PricesSynced>))
    ensures
        r.0.product_id == flow.product_id,
        package_step(flow, status, body, decoded_catalog_view(decoded), r.0, r.1),
{
    match decoded {
        Decoded::Invalid { detail } => stop(
            flow,
            Failure {
                kind: ErrorKind::RemoteStoreError,
                step: Step::FindPackage,
                status: Some(status),
                detail,
            },
        ),
        Decoded::NotAList => stop(flow, Failure::answered(Step::FindPackage, status, body)),
        Decoded::Rows(mut rows) => {
            if rows.len() == 0 {
                let detail = flow.product_id.clone();
                stop(flow, Failure::reported(ErrorKind::NotFound, Step::FindPackage, detail))
            } else {
                let first = rows.remove(0);
                match first.id {
                    Some(package_id) => {
                        let package_name = match first.name {
                            Some(name) => name,
                            None => String::from_str("Unknown Package"),
                        };
                        let call = ProcessorCall::ListActivePrices {
                            product_id: flow.product_id.clone(),
                            limit: None,
                        };
                        (
                            PriceSyncFlow {
                                product_id: flow.product_id,
                                pending: flow.pending,
                                synced: flow.synced,
                                stage: PriceSyncStage::AwaitPrices { package_id, package_name },
                            },
                            Action::Processor(call),
                        )
                    },
                    None => stop(flow, Failure::answered(Step::FindPackage, status, body)),
                }
            }
        },
    }
}

impl PriceSyncFlow {
    /// Takes the outcome of the action last asked for and says what comes
    /// next.
    pub fn advance(self, event: Event) -> (r: (PriceSyncFlow, Action<PricesSynced>))
        ensures
            price_sync_step(self, event, r.0, r.1),
    {
        match &self.stage {
            PriceSyncStage::AwaitPackage => match event {
                Event::Store(StoreReply::Unavailable { failure }) => stop(self, failure),
                Event::Store(StoreReply::Unreachable { detail }) => stop(
                    self,
                    Failure::reported(ErrorKind::RemoteStoreError, Step::FindPackage, detail),
                ),
                Event::Store(StoreReply::Answered { status, body, rows: _ }) => {
                    let decoded = read_catalog(body.as_str());
                    package_for_sync(self, status, body, decoded)
                },
                _ => stop(self, Failure::rule(ErrorKind::UnexpectedEvent, Step::Protocol)),
            },
            PriceSyncStage::AwaitPrices { package_id, package_name } => match event {
                Event::Processor(ProcessorReply::Prices(prices)) => {
                    let package_id = package_id.clone();
                    let package_name = package_name.clone();
                    write_next(self.product_id, prices, self.synced, package_id, package_name)
                },
                Event::Processor(ProcessorReply::Rejected { detail }) => stop(
                    self,
                    Failure::reported(ErrorKind::ProcessorLookupError, Step::ListPrices, detail),
                ),
                Event::Processor(_) => stop(
                    self,
                    Failure::rule(ErrorKind::UnexpectedEvent, Step::Protocol),
                ),
                _ => stop(self, Failure::rule(ErrorKind::UnexpectedEvent, Step::Protocol)),
            },
            PriceSyncStage::AwaitInsert { package_id, package_name } => match event {
                Event::Store(StoreReply::Unavailable { failure }) => stop(self, failure),
                Event::Store(StoreReply::Unreachable { detail }) => stop(
                    self,
                    Failure::reported(
                        ErrorKind::RemoteStoreError,
                        Step::CreatePackagePrice,
                        detail,
                    ),
                ),
                Event::Store(StoreReply::Answered { status, body: _, rows: _ }) => {
                    let synced = if is_success(status) {
                        count_one(self.synced)
                    } else {
                        self.synced
                    };
                    let package_id = package_id.clone();
                    let package_name = package_name.clone();
                    write_next(self.product_id, self.pending, synced, package_id, package_name)
                },
                _ => stop(self, Failure::rule(ErrorKind::UnexpectedEvent, Step::Protocol)),
            },
            PriceSyncStage::Finished => stop(
                self,
                Failure::rule(ErrorKind::UnexpectedEvent, Step::Protocol),
            ),
        }
    }
}

/// Product for which the catalog is seeded by hand.
pub open spec fn seeded_product() -> Seq<char> {
    "prod_SqniwA0Verdhlk"@
}

/// Price with which the catalog is seeded by hand.
pub open spec fn seeded_price() -> Seq<char> {
    "price_1Rv67RQdTny8lgOgb2EwXy2v"@
}

/// The operation that creates the package of the seeded product.
pub fn create_missing_package() -> (op: StoreOp)
    ensures
        op matches StoreOp::CreateDefaultPackage { product_id } && product_id@ == seeded_product(),
{
    StoreOp::CreateDefaultPackage { product_id: String::from_str("prod_SqniwA0Verdhlk") }
}

/// The operation that looks the package of the seeded product up, the first
/// half of creating its price.
pub fn create_missing_package_price() -> (op: StoreOp)
    ensures
        op matches StoreOp::FindPackage { product_id, select } && product_id@ == seeded_product()
            && select == PackageColumns::Id,
{
    StoreOp::FindPackage {
        product_id: String::from_str("prod_SqniwA0Verdhlk"),
        select: PackageColumns::Id,
    }
}

/// The operation that writes the seeded price of 159.99 `aud`, one time, for
/// the package that was found; `NotFound` where the lookup found none.
pub open spec fn seeds_price(parsed: CatalogText, status: u16, body: String, r: Result<
    StoreOp,
    Failure,
>) -> bool {
    match parsed {
        None => r matches Err(f) && f.kind == ErrorKind::RemoteStoreError && f.step
            == Step::FindPackage && f.status == Some(status),
        Some(Some(rows)) if rows.len() == 0 => r matches Err(f) && f.is(
            ErrorKind::NotFound,
            Step::FindPackage,
            None,
            Seq::empty(),
        ),
        Some(Some(rows)) if rows[0].0 is Some => {
            &&& r matches Ok(
                StoreOp::InsertPackagePrice {
                    package_id,
                    price_id,
                    amount_cents,
                    currency,
                    interval,
                    interval_count,
                    merge_duplicates,
                },
            )
            &&& package_id@ == rows[0].0->Some_0
            &&& price_id@ == seeded_price()
            &&& amount_cents == 15999
            &&& currency@ == "aud"@
            &&& interval is None
            &&& interval_count is None
            &&& !merge_duplicates
        },
        _ => r matches Err(f) && f.is(
            ErrorKind::RemoteStoreError,
            Step::FindPackage,
            Some(status),
            body@,
        ),
    }
}

/// The second half of creating the seeded price, given the decoded answer to
/// the package lookup.
pub fn seeded_price_for(status: u16, body: String, decoded: Decoded<CatalogRow>) -> (r: Result<
    StoreOp,
    Failure,
>)
    ensures
        seeds_price(decoded_catalog_view(decoded), status, body, r),
{
    match decoded {
        Decoded::Invalid { detail } => Err(
            Failure {
                kind: ErrorKind::RemoteStoreError,
                step: Step::FindPackage,
                status: Some(status),
                detail,
            },
        ),
        Decoded::NotAList => Err(Failure::answered(Step::FindPackage, status, body)),
        Decoded::Rows(mut rows) => {
            if rows.len() == 0 {
                Err(Failure::rule(ErrorKind::NotFound, Step::FindPackage))
            } else {
                let first = rows.remove(0);
                match first.id {
                    Some(package_id) => Ok(
                        StoreOp::InsertPackagePrice {
                            package_id,
                            price_id: String::from_str("price_1Rv67RQdTny8lgOgb2EwXy2v"),
                            amount_cents: 15999,
                            currency: String::from_str("aud"),
                            interval: None,
                            interval_count: None,
                            merge_duplicates: false,
                        },
                    ),
                    None => Err(Failure::answered(Step::FindPackage, status, body)),
                }
            }
        },
    }
}

/// The second half of creating the seeded price, from the answer's body.
pub fn seeded_price_from(status: u16, body: String) -> (r: Result<StoreOp, Failure>)
    ensures
        seeds_price(catalog_rows(body@), status, body, r),
{
    let decoded = read_catalog(body.as_str());
    seeded_price_for(status, body, decoded)
}

} // verus!
