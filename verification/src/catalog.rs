//! The local catalog: packages and plans with the prices that belong to them,
//! and the processor's products as the user interface shows them.

use vstd::prelude::*;
use vstd::string::*;
use crate::billing::{refusal, refused};
use crate::failure::{ErrorKind, Failure, Step};
use crate::processor::{
    BillingInterval, PriceSnapshot, ProcessorCall, ProcessorReply, ProductSnapshot, Recurrence,
};
use crate::records::{
    Package, PackagePrice, PackageWithPrices, ProductPrice, ProductWithPrices, SubscriptionPlan,
    SubscriptionPlanWithPrices, SubscriptionPrice,
};
use crate::remote::{Action, Event};
use crate::wire::{interval_name, interval_text};

verus! {

/// The prices of one package, in the order in which they were listed.
pub open spec fn prices_of_package(prices: Seq<PackagePrice>, package_id: Seq<char>) -> Seq<
    PackagePrice,
>
    decreases prices.len(),
{
    if prices.len() == 0 {
        Seq::empty()
    } else {
        let earlier = prices_of_package(prices.drop_last(), package_id);
        if prices.last().package_id@ == package_id {
            earlier.push(prices.last())
        } else {
            earlier
        }
    }
}

/// The prices of one plan, in the order in which they were listed.
pub open spec fn prices_of_plan(prices: Seq<SubscriptionPrice>, plan_id: Seq<char>) -> Seq<
    SubscriptionPrice,
>
    decreases prices.len(),
{
    if prices.len() == 0 {
        Seq::empty()
    } else {
        let earlier = prices_of_plan(prices.drop_last(), plan_id);
        if prices.last().subscription_plan_id@ == plan_id {
            earlier.push(prices.last())
        } else {
            earlier
        }
    }
}

fn copy_package_price(price: &PackagePrice) -> (r: PackagePrice)
    ensures
        r == *price,
{
    PackagePrice {
        id: price.id.clone(),
        package_id: price.package_id.clone(),
        stripe_price_id: price.stripe_price_id.clone(),
        amount_cents: price.amount_cents,
        currency: price.currency.clone(),
        interval_type: price.interval_type.clone(),
        interval_count: price.interval_count,
        token_amount: price.token_amount,
        is_active: price.is_active,
        created_at: copy_text(&price.created_at),
        updated_at: copy_text(&price.updated_at),
    }
}

fn copy_plan_price(price: &SubscriptionPrice) -> (r: SubscriptionPrice)
    ensures
        r == *price,
{
    SubscriptionPrice {
        id: price.id.clone(),
        subscription_plan_id: price.subscription_plan_id.clone(),
        stripe_price_id: price.stripe_price_id.clone(),
        amount_cents: price.amount_cents,
        currency: price.currency.clone(),
        interval_type: price.interval_type.clone(),
        interval_count: price.interval_count,
        token_amount: price.token_amount,
        trial_period_days: price.trial_period_days,
        is_active: price.is_active,
        created_at: copy_text(&price.created_at),
        updated_at: copy_text(&price.updated_at),
    }
}

fn copy_text(text: &Option<String>) -> (r: Option<String>)
    ensures
        r == *text,
{
    match text {
        Some(t) => Some(t.clone()),
        None => None,
    }
}

fn package_prices(prices: &Vec<PackagePrice>, package_id: &String) -> (r: Vec<PackagePrice>)
    ensures
        r@ == prices_of_package(prices@, package_id@),
{
    let mut found: Vec<PackagePrice> = Vec::new();
    let mut j: usize = 0;
    while j < prices.len()
        invariant
            j <= prices@.len(),
            found@ == prices_of_package(prices@.take(j as int), package_id@),
        decreases prices@.len() - j,
    {
        assert(prices@.take(j + 1).drop_last() =~= prices@.take(j as int));
        if prices[j].package_id == *package_id {
            found.push(copy_package_price(&prices[j]));
        }
        j += 1;
    }
    assert(prices@.take(j as int) =~= prices@);
    found
}

fn plan_prices(prices: &Vec<SubscriptionPrice>, plan_id: &String) -> (r: Vec<SubscriptionPrice>)
    ensures
        r@ == prices_of_plan(prices@, plan_id@),
{
    let mut found: Vec<SubscriptionPrice> = Vec::new();
    let mut j: usize = 0;
    while j < prices.len()
        invariant
            j <= prices@.len(),
            found@ == prices_of_plan(prices@.take(j as int), plan_id@),
        decreases prices@.len() - j,
    {
        assert(prices@.take(j + 1).drop_last() =~= prices@.take(j as int));
        if prices[j].subscription_plan_id == *plan_id {
            found.push(copy_plan_price(&prices[j]));
        }
        j += 1;
    }
    assert(prices@.take(j as int) =~= prices@);
    found
}

/// Puts to each package the prices that name it: the packages keep their
/// order, and so do the prices of each.
pub fn get_packages_with_prices(packages: Vec<Package>, prices: Vec<PackagePrice>) -> (r: Vec<
    PackageWithPrices,
>)
    ensures
        r@.len() == packages@.len(),
        forall|i: int|
            0 <= i < r@.len() ==> (#[trigger] r@[i]).package == packages@[i] && r@[i].prices@
                == prices_of_package(prices@, packages@[i].id@),
{
    let ghost all = packages@;
    let mut packages = packages;
    let mut grouped: Vec<PackageWithPrices> = Vec::new();
    while packages.len() > 0
        invariant
            grouped@.len() + packages@.len() == all.len(),
            forall|k: int|
                0 <= k < packages@.len() ==> #[trigger] packages@[k] == all[grouped@.len() + k],
            forall|i: int|
                0 <= i < grouped@.len() ==> (#[trigger] grouped@[i]).package == all[i]
                    && grouped@[i].prices@ == prices_of_package(prices@, all[i].id@),
        decreases packages@.len(),
    {
        let package = packages.remove(0);
        let own = package_prices(&prices, &package.id);
        grouped.push(PackageWithPrices { package, prices: own });
    }
    grouped
}

/// Puts to each plan the prices that name it: the plans keep their order, and
/// so do the prices of each.
pub fn get_subscription_plans_with_prices(plans: Vec<SubscriptionPlan>, prices: Vec<
    SubscriptionPrice,
>) -> (r: Vec<SubscriptionPlanWithPrices>)
    ensures
        r@.len() == plans@.len(),
        forall|i: int|
            0 <= i < r@.len() ==> (#[trigger] r@[i]).plan == plans@[i] && r@[i].prices@
                == prices_of_plan(prices@, plans@[i].id@),
{
    let ghost all = plans@;
    let mut plans = plans;
    let mut grouped: Vec<SubscriptionPlanWithPrices> = Vec::new();
    while plans.len() > 0
        invariant
            grouped@.len() + plans@.len() == all.len(),
            forall|k: int|
                0 <= k < plans@.len() ==> #[trigger] plans@[k] == all[grouped@.len() + k],
            forall|i: int|
                0 <= i < grouped@.len() ==> (#[trigger] grouped@[i]).plan == all[i]
                    && grouped@[i].prices@ == prices_of_plan(prices@, all[i].id@),
        decreases plans@.len(),
    {
        let plan = plans.remove(0);
        let own = plan_prices(&prices, &plan.id);
        grouped.push(SubscriptionPlanWithPrices { plan, prices: own });
    }
    grouped
}

/// The interval of a price: its recurrence's, if it has one.
pub open spec fn interval_of(recurring: Option<Recurrence>) -> Option<BillingInterval> {
    match recurring {
        Some(r) => Some(r.interval),
        None => None,
    }
}

/// A processor price as the user interface shows it: no amount counts as 0,
/// no currency as `usd`, a price that does not recur as `one_time`, once.
pub open spec fn shows_price(price: PriceSnapshot, shown: ProductPrice) -> bool {
    &&& shown.id == price.id
    &&& shown.amount == match price.unit_amount {
        Some(a) => a,
        None => 0,
    }
    &&& shown.currency@ == match price.currency {
        Some(c) => c@,
        None => "usd"@,
    }
    &&& shown.interval@ == interval_name(interval_of(price.recurring))
    &&& shown.interval_count == match price.recurring {
        Some(r) => r.interval_count as i64,
        None => 1,
    }
}

/// Turns a processor price into the form the user interface shows.
pub fn product_price(price: PriceSnapshot) -> (shown: ProductPrice)
    ensures
        shows_price(price, shown),
{
    let (interval, interval_count) = match price.recurring {
        Some(r) => (
            interval_text(Some(r.interval)),
            #[verifier::truncate] (r.interval_count as i64),
        ),
        None => (interval_text(None), 1),
    };
    ProductPrice {
        id: price.id,
        amount: match price.unit_amount {
            Some(a) => a,
            None => 0,
        },
        currency: match price.currency {
            Some(c) => c,
            None => String::from_str("usd"),
        },
        interval,
        interval_count,
    }
}

/// A processor product with its prices as the user interface shows them: a
/// product without a name is `Unnamed Product`.
pub open spec fn shows_product(
    product: ProductSnapshot,
    prices: Seq<PriceSnapshot>,
    shown: ProductWithPrices,
) -> bool {
    &&& shown.id == product.id
    &&& shown.name@ == match product.name {
        Some(n) => n@,
        None => "Unnamed Product"@,
    }
    &&& shown.description == product.description
    &&& shown.prices@.len() == prices.len()
    &&& forall|i: int| 0 <= i < prices.len() ==> shows_price(prices[i], #[trigger] shown.prices@[i])
}

/// Puts a processor product and its prices into the form the user interface
/// shows.
pub fn product_with_prices(product: ProductSnapshot, prices: Vec<PriceSnapshot>) -> (r:
    ProductWithPrices)
    ensures
        shows_product(product, prices@, r),
{
    let ghost all = prices@;
    let mut prices = prices;
    let mut shown: Vec<ProductPrice> = Vec::new();
    while prices.len() > 0
        invariant
            shown@.len() + prices@.len() == all.len(),
            forall|k: int|
                0 <= k < prices@.len() ==> #[trigger] prices@[k] == all[shown@.len() + k],
            forall|i: int| 0 <= i < shown@.len() ==> shows_price(all[i], #[trigger] shown@[i]),
        decreases prices@.len(),
    {
        let price = prices.remove(0);
        shown.push(product_price(price));
    }
    ProductWithPrices {
        id: product.id,
        name: match product.name {
            Some(n) => n,
            None => String::from_str("Unnamed Product"),
        },
        description: product.description,
        prices: shown,
    }
}

/// Most prices that are asked for when a product is shown.
pub const SHOWN_PRICES: u64 = 10;

/// Where the lookup of a product stands.
#[derive(Debug, Clone, PartialEq, Eq)]
pub enum ProductStage {
    /// Waiting for the product.
    AwaitProduct,
    /// Waiting for the product's active prices.
    AwaitPrices { product: ProductSnapshot },
    Finished,
}

/// The lookup of a product with its prices in progress.
#[derive(Debug, Clone, PartialEq, Eq)]
pub struct ProductFlow {
    pub stage: ProductStage,
}

/// One step of the lookup of a product: once the product is there, its
/// active prices are asked for, at most `SHOWN_PRICES` of them, under the id
/// that the processor gave the product.
pub open spec fn product_step(
    flow: ProductFlow,
    event: Event,
    next: ProductFlow,
    action: Action<ProductWithPrices>,
) -> bool {
    match (flow.stage, event) {
        (ProductStage::AwaitProduct, Event::Processor(ProcessorReply::Product(product))) => {
            &&& next.stage == (ProductStage::AwaitPrices { product })
            &&& action == Action::<ProductWithPrices>::Processor(
                ProcessorCall::ListActivePrices {
                    product_id: product.id,
                    limit: Some(SHOWN_PRICES),
                },
            )
        },
        (ProductStage::AwaitProduct, Event::Processor(reply)) => next.stage
            == ProductStage::Finished && (action matches Action::Finish(Err(f)) && refused(
            reply,
            ErrorKind::ProcessorLookupError,
            Step::RetrieveProduct,
            f,
        )),
        (
            ProductStage::AwaitPrices { product },
            Event::Processor(ProcessorReply::Prices(prices)),
        ) => {
            &&& next.stage == ProductStage::Finished
            &&& action matches Action::Finish(Ok(shown))
            &&& shows_product(product, prices@, shown)
        },
        (ProductStage::AwaitPrices { .. }, Event::Processor(reply)) => next.stage
            == ProductStage::Finished && (action matches Action::Finish(Err(f)) && refused(
            reply,
            ErrorKind::ProcessorLookupError,
            Step::ListPrices,
            f,
        )),
        _ => next.stage == ProductStage::Finished && action.fails_with(
            ErrorKind::UnexpectedEvent,
            Step::Protocol,
            None,
            Seq::empty(),
        ),
    }
}

/// Starts looking a product up with its prices: the first thing asked for is
/// the product.
pub fn get_product_with_prices(product_id: String) -> (r: (
    ProductFlow,
    Action<ProductWithPrices>,
))
    ensures
        r.0.stage == ProductStage::AwaitProduct,
        r.1 == Action::<ProductWithPrices>::Processor(
            ProcessorCall::RetrieveProduct { product_id },
        ),
{
    (
        ProductFlow { stage: ProductStage::AwaitProduct },
        Action::Processor(ProcessorCall::RetrieveProduct { product_id }),
    )
}

impl ProductFlow {
    /// Takes the outcome of the call last asked for and says what comes next.
    pub fn advance(self, event: Event) -> (r: (ProductFlow, Action<ProductWithPrices>))
        ensures
            product_step(self, event, r.0, r.1),
    {
        let done = ProductFlow { stage: ProductStage::Finished };
        match (self.stage, event) {
            (ProductStage::AwaitProduct, Event::Processor(ProcessorReply::Product(product))) => {
                let call = ProcessorCall::ListActivePrices {
                    product_id: product.id.clone(),
                    limit: Some(SHOWN_PRICES),
                };
                (
                    ProductFlow { stage: ProductStage::AwaitPrices { product } },
                    Action::Processor(call),
                )
            },
            (ProductStage::AwaitProduct, Event::Processor(reply)) => (
                done,
                Action::Finish(
                    Err(refusal(reply, ErrorKind::ProcessorLookupError, Step::RetrieveProduct)),
                ),
            ),
            (
                ProductStage::AwaitPrices { product },
                Event::Processor(ProcessorReply::Prices(prices)),
            ) => (done, Action::Finish(Ok(product_with_prices(product, prices)))),
            (ProductStage::AwaitPrices { .. }, Event::Processor(reply)) => (
                done,
                Action::Finish(
                    Err(refusal(reply, ErrorKind::ProcessorLookupError, Step::ListPrices)),
                ),
            ),
            _ => (
                done,
                Action::Finish(Err(Failure::rule(ErrorKind::UnexpectedEvent, Step::Protocol))),
            ),
        }
    }
}

} // verus!
