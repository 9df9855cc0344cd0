//! How each operation on the relational backend is put on the wire: a REST
//! request under `/rest/v1/<table>` with bearer token and API key, `eq.`
//! filters, a `Prefer` header where rows are wanted back, and a JSON body.

use vstd::prelude::*;
use vstd::string::*;
use crate::processor::BillingInterval;
use crate::records::DatabaseConfig;
use crate::remote::{PackageColumns, ProfileColumns, StoreOp};

verus! {

/// HTTP method of a request.
#[derive(Debug, Clone, Copy, PartialEq, Eq, Structural)]
pub enum HttpMethod {
    Get,
    Post,
    Patch,
    Delete,
}

/// Which rows the caller decodes from the answer's body.
#[derive(Debug, Clone, Copy, PartialEq, Eq, Structural)]
pub enum RowKind {
    /// The body is handed on as text.
    Unread,
    Profiles,
    PaymentMethods,
    Contractors,
}

/// A query parameter or a header.
#[derive(Debug, Clone, PartialEq, Eq)]
pub struct Pair {
    pub name: String,
    pub value: String,
}

/// A value of a JSON body.
#[derive(Debug, Clone, PartialEq, Eq)]
pub enum JsonValue {
    Text(String),
    Integer(i64),
    Flag(bool),
    TextList(Vec<String>),
    /// JSON `null`.
    Null,
    /// JSON text that is sent as it is.
    Raw(String),
}

/// A member of a JSON body.
#[derive(Debug, Clone, PartialEq, Eq)]
pub struct Field {
    pub name: String,
    pub value: JsonValue,
}

/// A request to the relational backend. Query parameters are kept apart from
/// the URL: the sender encodes them, and sends the URL as it is.
#[derive(Debug, Clone, PartialEq, Eq)]
pub struct HttpRequest {
    pub method: HttpMethod,
    pub url: String,
    pub query: Vec<Pair>,
    pub headers: Vec<Pair>,
    /// The members of the JSON object to send, if there is a body.
    pub body: Option<Vec<Field>>,
    pub expects: RowKind,
}

/// A JSON value as plain values.
pub enum JsonView {
    Text(Seq<char>),
    Integer(int),
    Flag(bool),
    TextList(Seq<Seq<char>>),
    Null,
    Raw(Seq<char>),
}

/// A request as plain values.
pub struct RequestView {
    pub method: HttpMethod,
    pub url: Seq<char>,
    pub query: Seq<(Seq<char>, Seq<char>)>,
    pub headers: Seq<(Seq<char>, Seq<char>)>,
    pub body: Option<Seq<(Seq<char>, JsonView)>>,
    pub expects: RowKind,
}

/// Texts as plain values.
pub open spec fn texts_view(items: Seq<String>) -> Seq<Seq<char>> {
    Seq::new(items.len(), |i: int| items[i]@)
}

/// Pairs as plain values.
pub open spec fn pairs_view(pairs: Seq<Pair>) -> Seq<(Seq<char>, Seq<char>)> {
    Seq::new(pairs.len(), |i: int| (pairs[i].name@, pairs[i].value@))
}

impl JsonValue {
    pub open spec fn view(self) -> JsonView {
        match self {
            JsonValue::Text(t) => JsonView::Text(t@),
            JsonValue::Integer(n) => JsonView::Integer(n as int),
            JsonValue::Flag(b) => JsonView::Flag(b),
            JsonValue::TextList(items) => JsonView::TextList(texts_view(items@)),
            JsonValue::Null => JsonView::Null,
            JsonValue::Raw(t) => JsonView::Raw(t@),
        }
    }
}

/// Fields as plain values.
pub open spec fn fields_view(fields: Seq<Field>) -> Seq<(Seq<char>, JsonView)> {
    Seq::new(fields.len(), |i: int| (fields[i].name@, fields[i].value@))
}

impl HttpRequest {
    pub open spec fn view(self) -> RequestView {
        RequestView {
            method: self.method,
            url: self.url@,
            query: pairs_view(self.query@),
            headers: pairs_view(self.headers@),
            body: match self.body {
                Some(fields) => Some(fields_view(fields@)),
                None => None,
            },
            expects: self.expects,
        }
    }
}

/// No pairs.
pub open spec fn no_pairs() -> Seq<(Seq<char>, Seq<char>)> {
    Seq::empty()
}

/// No fields.
pub open spec fn no_fields() -> Seq<(Seq<char>, JsonView)> {
    Seq::empty()
}

/// The headers of a request: the bearer token and the API key; the JSON
/// content type where `json` is set; the `Prefer` header where one is given.
pub open spec fn headers(db: DatabaseConfig, json: bool, prefer: Option<Seq<char>>) -> Seq<
    (Seq<char>, Seq<char>),
> {
    let base = no_pairs().push(("Authorization"@, "Bearer "@ + db.access_token@)).push(
        ("apikey"@, db.anon_key@),
    );
    let typed = if json {
        base.push(("Content-Type"@, "application/json"@))
    } else {
        base
    };
    match prefer {
        Some(p) => typed.push(("Prefer"@, p)),
        None => typed,
    }
}

/// The backend's name for a billing interval; `one_time` where there is none.
pub open spec fn interval_name(interval: Option<BillingInterval>) -> Seq<char> {
    match interval {
        Some(BillingInterval::Day) => "day"@,
        Some(BillingInterval::Week) => "week"@,
        Some(BillingInterval::Month) => "month"@,
        Some(BillingInterval::Year) => "year"@,
        None => "one_time"@,
    }
}

/// Computes `interval_name`.
pub fn interval_text(interval: Option<BillingInterval>) -> (r: String)
    ensures
        r@ == interval_name(interval),
{
    match interval {
        Some(BillingInterval::Day) => String::from_str("day"),
        Some(BillingInterval::Week) => String::from_str("week"),
        Some(BillingInterval::Month) => String::from_str("month"),
        Some(BillingInterval::Year) => String::from_str("year"),
        None => String::from_str("one_time"),
    }
}

fn widen(n: i32) -> (r: i64)
    ensures
        r == n,
{
    n as i64
}

fn empty_pairs() -> (r: Vec<Pair>)
    ensures
        pairs_view(r@) == no_pairs(),
{
    let r: Vec<Pair> = Vec::new();
    assert(pairs_view(r@) =~= no_pairs());
    r
}

fn empty_fields() -> (r: Vec<Field>)
    ensures
        fields_view(r@) == no_fields(),
{
    let r: Vec<Field> = Vec::new();
    assert(fields_view(r@) =~= no_fields());
    r
}

fn no_texts() -> (r: Vec<String>)
    ensures
        texts_view(r@) == Seq::<Seq<char>>::empty(),
{
    let r: Vec<String> = Vec::new();
    assert(texts_view(r@) =~= Seq::<Seq<char>>::empty());
    r
}

fn push_pair(pairs: &mut Vec<Pair>, name: &str, value: String)
    ensures
        pairs_view(final(pairs)@) == pairs_view(old(pairs)@).push((name@, value@)),
{
    pairs.push(Pair { name: String::from_str(name), value });
    assert(pairs_view(pairs@) =~= pairs_view(old(pairs)@).push((name@, value@)));
}

fn push_field(fields: &mut Vec<Field>, name: &str, value: JsonValue)
    ensures
        fields_view(final(fields)@) == fields_view(old(fields)@).push((name@, value@)),
{
    fields.push(Field { name: String::from_str(name), value });
    assert(fields_view(fields@) =~= fields_view(old(fields)@).push((name@, value@)));
}

fn push_text(items: &mut Vec<String>, text: &str)
    ensures
        texts_view(final(items)@) == texts_view(old(items)@).push(text@),
{
    items.push(String::from_str(text));
    assert(texts_view(items@) =~= texts_view(old(items)@).push(text@));
}

fn copy_texts(items: &Vec<String>) -> (r: Vec<String>)
    ensures
        texts_view(r@) == texts_view(items@),
{
    let mut copied: Vec<String> = Vec::new();
    let mut i: usize = 0;
    while i < items.len()
        invariant
            i <= items@.len(),
            copied@.len() == i,
            forall|j: int| 0 <= j < i ==> (#[trigger] copied@[j])@ == items@[j]@,
        decreases items@.len() - i,
    {
        copied.push(items[i].clone());
        i += 1;
    }
    assert(texts_view(copied@) =~= texts_view(items@));
    copied
}

fn common_headers(db: &DatabaseConfig, json: bool, prefer: Option<&str>) -> (r: Vec<Pair>)
    ensures
        pairs_view(r@) == headers(
            *db,
            json,
            match prefer {
                Some(p) => Some(p@),
                None => None,
            },
        ),
{
    let mut head: Vec<Pair> = empty_pairs();
    push_pair(
        &mut head,
        "Authorization",
        String::from_str("Bearer ").concat(db.access_token.as_str()),
    );
    push_pair(&mut head, "apikey", db.anon_key.clone());
    if json {
        push_pair(&mut head, "Content-Type", String::from_str("application/json"));
    }
    match prefer {
        Some(p) => {
            push_pair(&mut head, "Prefer", String::from_str(p));
        },
        None => {},
    }
    head
}

/// Reads a profile by id, without naming columns.
pub open spec fn wire_fetch_profile(
    user_id: String,
    db: DatabaseConfig,
    now: Seq<char>,
) -> RequestView {
    RequestView {
        method: HttpMethod::Get,
        url: db.database_url@ + "/rest/v1/profiles"@,
        query: no_pairs().push(("id"@, "eq."@ + user_id@)),
        headers: headers(db, false, None),
        body: None,
        expects: RowKind::Profiles,
    }
}

fn render_fetch_profile(user_id: &String, db: &DatabaseConfig, now: &str) -> (r: HttpRequest)
    ensures
        r@ == wire_fetch_profile(*user_id, *db, now@),
{
    let mut url = db.database_url.clone();
    url.append("/rest/v1/profiles");
    let mut query: Vec<Pair> = empty_pairs();
    push_pair(&mut query, "id", String::from_str("eq.").concat(user_id.as_str()));
    let head = common_headers(db, false, None);
    HttpRequest {
        method: HttpMethod::Get,
        url,
        query,
        headers: head,
        body: None,
        expects: RowKind::Profiles,
    }
}

/// Reads a profile by id, every column.
pub open spec fn wire_fetch_whole_profile(
    user_id: String,
    db: DatabaseConfig,
    now: Seq<char>,
) -> RequestView {
    RequestView {
        method: HttpMethod::Get,
        url: db.database_url@ + "/rest/v1/profiles"@,
        query: no_pairs().push(("id"@, "eq."@ + user_id@)).push(("select"@, "*"@)),
        headers: headers(db, false, None),
        body: None,
        expects: RowKind::Profiles,
    }
}

fn render_fetch_whole_profile(user_id: &String, db: &DatabaseConfig, now: &str) -> (r: HttpRequest)
    ensures
        r@ == wire_fetch_whole_profile(*user_id, *db, now@),
{
    let mut url = db.database_url.clone();
    url.append("/rest/v1/profiles");
    let mut query: Vec<Pair> = empty_pairs();
    push_pair(&mut query, "id", String::from_str("eq.").concat(user_id.as_str()));
    push_pair(&mut query, "select", String::from_str("*"));
    let head = common_headers(db, false, None);
    HttpRequest {
        method: HttpMethod::Get,
        url,
        query,
        headers: head,
        body: None,
        expects: RowKind::Profiles,
    }
}

/// Reads the token totals and purchase counters of a profile.
pub open spec fn wire_fetch_token_totals(
    user_id: String,
    db: DatabaseConfig,
    now: Seq<char>,
) -> RequestView {
    RequestView {
        method: HttpMethod::Get,
        url: db.database_url@ + "/rest/v1/profiles"@,
        query: no_pairs().push(("id"@, "eq."@ + user_id@)).push(
            (
                "select"@,
                "total_tokens,tokens_remaining,tokens_used,total_purchases,last_purchase_at"@,
            ),
        ),
        headers: headers(db, false, None),
        body: None,
        expects: RowKind::Unread,
    }
}

fn render_fetch_token_totals(user_id: &String, db: &DatabaseConfig, now: &str) -> (r: HttpRequest)
    ensures
        r@ == wire_fetch_token_totals(*user_id, *db, now@),
{
    let mut url = db.database_url.clone();
    url.append("/rest/v1/profiles");
    let mut query: Vec<Pair> = empty_pairs();
    push_pair(&mut query, "id", String::from_str("eq.").concat(user_id.as_str()));
    push_pair(
        &mut query,
        "select",
        String::from_str(
            "total_tokens,tokens_remaining,tokens_used,total_purchases,last_purchase_at",
        ),
    );
    let head = common_headers(db, false, None);
    HttpRequest {
        method: HttpMethod::Get,
        url,
        query,
        headers: head,
        body: None,
        expects: RowKind::Unread,
    }
}

/// Inserts a profile; fields that are not given are left out.
pub open spec fn wire_create_profile(
    user_id: String,
    full_name: Option<String>,
    avatar_url: Option<String>,
    onboarding_complete: Option<bool>,
    db: DatabaseConfig,
    now: Seq<char>,
) -> RequestView {
    let body = no_fields();
    let body = body.push(("id"@, JsonView::Text(user_id@)));
    let body = match full_name {
        Some(v) => body.push(("full_name"@, JsonView::Text(v@))),
        None => body,
    };
    let body = match avatar_url {
        Some(v) => body.push(("avatar_url"@, JsonView::Text(v@))),
        None => body,
    };
    let body = match onboarding_complete {
        Some(v) => body.push(("onboarding_complete"@, JsonView::Flag(v))),
        None => body,
    };
    RequestView {
        method: HttpMethod::Post,
        url: db.database_url@ + "/rest/v1/profiles"@,
        query: no_pairs(),
        headers: headers(db, true, Some("return=representation"@)),
        body: Some(body),
        expects: RowKind::Profiles,
    }
}

fn render_create_profile(
    user_id: &String,
    full_name: &Option<String>,
    avatar_url: &Option<String>,
    onboarding_complete: &Option<bool>,
    db: &DatabaseConfig,
    now: &str,
) -> (r: HttpRequest)
    ensures
        r@ == wire_create_profile(
            *user_id,
            *full_name,
            *avatar_url,
            *onboarding_complete,
            *db,
            now@,
        ),
{
    let mut url = db.database_url.clone();
    url.append("/rest/v1/profiles");
    let query: Vec<Pair> = empty_pairs();
    let head = common_headers(db, true, Some("return=representation"));
    let mut body: Vec<Field> = empty_fields();
    push_field(&mut body, "id", JsonValue::Text(user_id.clone()));
    match full_name {
        Some(v) => { push_field(&mut body, "full_name", JsonValue::Text(v.clone())); },
        None => {},
    }
    match avatar_url {
        Some(v) => { push_field(&mut body, "avatar_url", JsonValue::Text(v.clone())); },
        None => {},
    }
    match onboarding_complete {
        Some(v) => { push_field(&mut body, "onboarding_complete", JsonValue::Flag(*v)); },
        None => {},
    }
    HttpRequest {
        method: HttpMethod::Post,
        url,
        query,
        headers: head,
        body: Some(body),
        expects: RowKind::Profiles,
    }
}

/// Changes the given fields of a profile and lets the backend stamp the update.
pub open spec fn wire_update_profile(
    user_id: String,
    username: Option<String>,
    full_name: Option<String>,
    avatar_url: Option<String>,
    onboarding_complete: Option<bool>,
    db: DatabaseConfig,
    now: Seq<char>,
) -> RequestView {
    let body = no_fields();
    let body = match username {
        Some(v) => body.push(("username"@, JsonView::Text(v@))),
        None => body,
    };
    let body = match full_name {
        Some(v) => body.push(("full_name"@, JsonView::Text(v@))),
        None => body,
    };
    let body = match avatar_url {
        Some(v) => body.push(("avatar_url"@, JsonView::Text(v@))),
        None => body,
    };
    let body = match onboarding_complete {
        Some(v) => body.push(("onboarding_complete"@, JsonView::Flag(v))),
        None => body,
    };
    let body = body.push(("updated_at"@, JsonView::Text("now()"@)));
    RequestView {
        method: HttpMethod::Patch,
        url: db.database_url@ + "/rest/v1/profiles"@,
        query: no_pairs().push(("id"@, "eq."@ + user_id@)),
        headers: headers(db, true, Some("return=representation"@)),
        body: Some(body),
        expects: RowKind::Profiles,
    }
}

fn render_update_profile(
    user_id: &String,
    username: &Option<String>,
    full_name: &Option<String>,
    avatar_url: &Option<String>,
    onboarding_complete: &Option<bool>,
    db: &DatabaseConfig,
    now: &str,
) -> (r: HttpRequest)
    ensures
        r@ == wire_update_profile(
            *user_id,
            *username,
            *full_name,
            *avatar_url,
            *onboarding_complete,
            *db,
            now@,
        ),
{
    let mut url = db.database_url.clone();
    url.append("/rest/v1/profiles");
    let mut query: Vec<Pair> = empty_pairs();
    push_pair(&mut query, "id", String::from_str("eq.").concat(user_id.as_str()));
    let head = common_headers(db, true, Some("return=representation"));
    let mut body: Vec<Field> = empty_fields();
    match username {
        Some(v) => { push_field(&mut body, "username", JsonValue::Text(v.clone())); },
        None => {},
    }
    match full_name {
        Some(v) => { push_field(&mut body, "full_name", JsonValue::Text(v.clone())); },
        None => {},
    }
    match avatar_url {
        Some(v) => { push_field(&mut body, "avatar_url", JsonValue::Text(v.clone())); },
        None => {},
    }
    match onboarding_complete {
        Some(v) => { push_field(&mut body, "onboarding_complete", JsonValue::Flag(*v)); },
        None => {},
    }
    push_field(&mut body, "updated_at", JsonValue::Text(String::from_str("now()")));
    HttpRequest {
        method: HttpMethod::Patch,
        url,
        query,
        headers: head,
        body: Some(body),
        expects: RowKind::Profiles,
    }
}

/// Looks for profiles that carry a user name.
pub open spec fn wire_find_username(
    candidate: String,
    db: DatabaseConfig,
    now: Seq<char>,
) -> RequestView {
    RequestView {
        method: HttpMethod::Get,
        url: db.database_url@ + "/rest/v1/profiles"@,
        query: no_pairs().push(("username"@, "eq."@ + candidate@)).push(("select"@, "id"@)),
        headers: headers(db, false, None),
        body: None,
        expects: RowKind::Unread,
    }
}

fn render_find_username(candidate: &String, db: &DatabaseConfig, now: &str) -> (r: HttpRequest)
    ensures
        r@ == wire_find_username(*candidate, *db, now@),
{
    let mut url = db.database_url.clone();
    url.append("/rest/v1/profiles");
    let mut query: Vec<Pair> = empty_pairs();
    push_pair(&mut query, "username", String::from_str("eq.").concat(candidate.as_str()));
    push_pair(&mut query, "select", String::from_str("id"));
    let head = common_headers(db, false, None);
    HttpRequest {
        method: HttpMethod::Get,
        url,
        query,
        headers: head,
        body: None,
        expects: RowKind::Unread,
    }
}

/// Overwrites the subscription mirror on a profile.
pub open spec fn wire_mirror_subscription(
    user_id: String,
    customer_id: String,
    subscription_id: String,
    status: String,
    period_end: i64,
    db: DatabaseConfig,
    now: Seq<char>,
) -> RequestView {
    let body = no_fields();
    let body = body.push(("stripe_customer_id"@, JsonView::Text(customer_id@)));
    let body = body.push(("subscription_id"@, JsonView::Text(subscription_id@)));
    let body = body.push(("subscription_status"@, JsonView::Text(status@)));
    let body = body.push(("subscription_period_end"@, JsonView::Integer(period_end as int)));
    let body = body.push(("updated_at"@, JsonView::Text(now)));
    RequestView {
        method: HttpMethod::Patch,
        url: db.database_url@ + "/rest/v1/profiles"@,
        query: no_pairs().push(("id"@, "eq."@ + user_id@)),
        headers: headers(db, true, Some("return=minimal"@)),
        body: Some(body),
        expects: RowKind::Unread,
    }
}

fn render_mirror_subscription(
    user_id: &String,
    customer_id: &String,
    subscription_id: &String,
    status: &String,
    period_end: i64,
    db: &DatabaseConfig,
    now: &str,
) -> (r: HttpRequest)
    ensures
        r@ == wire_mirror_subscription(
            *user_id,
            *customer_id,
            *subscription_id,
            *status,
            period_end,
            *db,
            now@,
        ),
{
    let mut url = db.database_url.clone();
    url.append("/rest/v1/profiles");
    let mut query: Vec<Pair> = empty_pairs();
    push_pair(&mut query, "id", String::from_str("eq.").concat(user_id.as_str()));
    let head = common_headers(db, true, Some("return=minimal"));
    let mut body: Vec<Field> = empty_fields();
    push_field(&mut body, "stripe_customer_id", JsonValue::Text(customer_id.clone()));
    push_field(&mut body, "subscription_id", JsonValue::Text(subscription_id.clone()));
    push_field(&mut body, "subscription_status", JsonValue::Text(status.clone()));
    push_field(&mut body, "subscription_period_end", JsonValue::Integer(period_end));
    push_field(&mut body, "updated_at", JsonValue::Text(String::from_str(now)));
    HttpRequest {
        method: HttpMethod::Patch,
        url,
        query,
        headers: head,
        body: Some(body),
        expects: RowKind::Unread,
    }
}

/// Writes the customer reference onto a profile.
pub open spec fn wire_link_customer(
    user_id: String,
    customer_id: String,
    db: DatabaseConfig,
    now: Seq<char>,
) -> RequestView {
    let body = no_fields();
    let body = body.push(("stripe_customer_id"@, JsonView::Text(customer_id@)));
    let body = body.push(("updated_at"@, JsonView::Text(now)));
    RequestView {
        method: HttpMethod::Patch,
        url: db.database_url@ + "/rest/v1/profiles"@,
        query: no_pairs().push(("id"@, "eq."@ + user_id@)),
        headers: headers(db, true, Some("return=minimal"@)),
        body: Some(body),
        expects: RowKind::Unread,
    }
}

fn render_link_customer(
    user_id: &String,
    customer_id: &String,
    db: &DatabaseConfig,
    now: &str,
) -> (r: HttpRequest)
    ensures
        r@ == wire_link_customer(*user_id, *customer_id, *db, now@),
{
    let mut url = db.database_url.clone();
    url.append("/rest/v1/profiles");
    let mut query: Vec<Pair> = empty_pairs();
    push_pair(&mut query, "id", String::from_str("eq.").concat(user_id.as_str()));
    let head = common_headers(db, true, Some("return=minimal"));
    let mut body: Vec<Field> = empty_fields();
    push_field(&mut body, "stripe_customer_id", JsonValue::Text(customer_id.clone()));
    push_field(&mut body, "updated_at", JsonValue::Text(String::from_str(now)));
    HttpRequest {
        method: HttpMethod::Patch,
        url,
        query,
        headers: head,
        body: Some(body),
        expects: RowKind::Unread,
    }
}

/// Marks a profile as a contractor's.
pub open spec fn wire_mark_contractor(
    profile_id: String,
    contractor_id: String,
    db: DatabaseConfig,
    now: Seq<char>,
) -> RequestView {
    let body = no_fields();
    let body = body.push(("is_contractor"@, JsonView::Flag(true)));
    let body = body.push(("contractor_id"@, JsonView::Text(contractor_id@)));
    RequestView {
        method: HttpMethod::Patch,
        url: db.database_url@ + "/rest/v1/profiles"@,
        query: no_pairs().push(("id"@, "eq."@ + profile_id@)),
        headers: headers(db, true, None),
        body: Some(body),
        expects: RowKind::Unread,
    }
}

fn render_mark_contractor(
    profile_id: &String,
    contractor_id: &String,
    db: &DatabaseConfig,
    now: &str,
) -> (r: HttpRequest)
    ensures
        r@ == wire_mark_contractor(*profile_id, *contractor_id, *db, now@),
{
    let mut url = db.database_url.clone();
    url.append("/rest/v1/profiles");
    let mut query: Vec<Pair> = empty_pairs();
    push_pair(&mut query, "id", String::from_str("eq.").concat(profile_id.as_str()));
    let head = common_headers(db, true, None);
    let mut body: Vec<Field> = empty_fields();
    push_field(&mut body, "is_contractor", JsonValue::Flag(true));
    push_field(&mut body, "contractor_id", JsonValue::Text(contractor_id.clone()));
    HttpRequest {
        method: HttpMethod::Patch,
        url,
        query,
        headers: head,
        body: Some(body),
        expects: RowKind::Unread,
    }
}

/// Lists a user's payment methods in the backend's own order.
pub open spec fn wire_list_payment_methods(
    user_id: String,
    db: DatabaseConfig,
    now: Seq<char>,
) -> RequestView {
    RequestView {
        method: HttpMethod::Get,
        url: db.database_url@ + "/rest/v1/payment_methods"@,
        query: no_pairs().push(("user_id"@, "eq."@ + user_id@)),
        headers: headers(db, false, None),
        body: None,
        expects: RowKind::PaymentMethods,
    }
}

fn render_list_payment_methods(user_id: &String, db: &DatabaseConfig, now: &str) -> (r: HttpRequest)
    ensures
        r@ == wire_list_payment_methods(*user_id, *db, now@),
{
    let mut url = db.database_url.clone();
    url.append("/rest/v1/payment_methods");
    let mut query: Vec<Pair> = empty_pairs();
    push_pair(&mut query, "user_id", String::from_str("eq.").concat(user_id.as_str()));
    let head = common_headers(db, false, None);
    HttpRequest {
        method: HttpMethod::Get,
        url,
        query,
        headers: head,
        body: None,
        expects: RowKind::PaymentMethods,
    }
}

/// Lists a user's payment methods, defaults first, then newest first.
pub open spec fn wire_list_payment_methods_ordered(
    user_id: String,
    db: DatabaseConfig,
    now: Seq<char>,
) -> RequestView {
    RequestView {
        method: HttpMethod::Get,
        url: db.database_url@ + "/rest/v1/payment_methods"@,
        query: no_pairs().push(("user_id"@, "eq."@ + user_id@)).push(
            ("order"@, "is_default.desc,created_at.desc"@),
        ),
        headers: headers(db, false, None),
        body: None,
        expects: RowKind::PaymentMethods,
    }
}

fn render_list_payment_methods_ordered(
    user_id: &String,
    db: &DatabaseConfig,
    now: &str,
) -> (r: HttpRequest)
    ensures
        r@ == wire_list_payment_methods_ordered(*user_id, *db, now@),
{
    let mut url = db.database_url.clone();
    url.append("/rest/v1/payment_methods");
    let mut query: Vec<Pair> = empty_pairs();
    push_pair(&mut query, "user_id", String::from_str("eq.").concat(user_id.as_str()));
    push_pair(&mut query, "order", String::from_str("is_default.desc,created_at.desc"));
    let head = common_headers(db, false, None);
    HttpRequest {
        method: HttpMethod::Get,
        url,
        query,
        headers: head,
        body: None,
        expects: RowKind::PaymentMethods,
    }
}

/// Inserts an active payment method with its card metadata.
pub open spec fn wire_insert_payment_method(
    user_id: String,
    customer_id: String,
    payment_method_id: String,
    card_brand: String,
    card_last4: String,
    card_exp_month: i32,
    card_exp_year: i32,
    is_default: bool,
    db: DatabaseConfig,
    now: Seq<char>,
) -> RequestView {
    let body = no_fields();
    let body = body.push(("user_id"@, JsonView::Text(user_id@)));
    let body = body.push(("stripe_customer_id"@, JsonView::Text(customer_id@)));
    let body = body.push(("stripe_payment_method_id"@, JsonView::Text(payment_method_id@)));
    let body = body.push(("card_brand"@, JsonView::Text(card_brand@)));
    let body = body.push(("card_last4"@, JsonView::Text(card_last4@)));
    let body = body.push(("card_exp_month"@, JsonView::Integer(card_exp_month as int)));
    let body = body.push(("card_exp_year"@, JsonView::Integer(card_exp_year as int)));
    let body = body.push(("is_default"@, JsonView::Flag(is_default)));
    let body = body.push(("is_active"@, JsonView::Flag(true)));
    RequestView {
        method: HttpMethod::Post,
        url: db.database_url@ + "/rest/v1/payment_methods"@,
        query: no_pairs(),
        headers: headers(db, true, Some("return=representation"@)),
        body: Some(body),
        expects: RowKind::PaymentMethods,
    }
}

fn render_insert_payment_method(
    user_id: &String,
    customer_id: &String,
    payment_method_id: &String,
    card_brand: &String,
    card_last4: &String,
    card_exp_month: i32,
    card_exp_year: i32,
    is_default: bool,
    db: &DatabaseConfig,
    now: &str,
) -> (r: HttpRequest)
    ensures
        r@ == wire_insert_payment_method(
            *user_id,
            *customer_id,
            *payment_method_id,
            *card_brand,
            *card_last4,
            card_exp_month,
            card_exp_year,
            is_default,
            *db,
            now@,
        ),
{
    let mut url = db.database_url.clone();
    url.append("/rest/v1/payment_methods");
    let query: Vec<Pair> = empty_pairs();
    let head = common_headers(db, true, Some("return=representation"));
    let mut body: Vec<Field> = empty_fields();
    push_field(&mut body, "user_id", JsonValue::Text(user_id.clone()));
    push_field(&mut body, "stripe_customer_id", JsonValue::Text(customer_id.clone()));
    push_field(&mut body, "stripe_payment_method_id", JsonValue::Text(payment_method_id.clone()));
    push_field(&mut body, "card_brand", JsonValue::Text(card_brand.clone()));
    push_field(&mut body, "card_last4", JsonValue::Text(card_last4.clone()));
    push_field(&mut body, "card_exp_month", JsonValue::Integer(widen(card_exp_month)));
    push_field(&mut body, "card_exp_year", JsonValue::Integer(widen(card_exp_year)));
    push_field(&mut body, "is_default", JsonValue::Flag(is_default));
    push_field(&mut body, "is_active", JsonValue::Flag(true));
    HttpRequest {
        method: HttpMethod::Post,
        url,
        query,
        headers: head,
        body: Some(body),
        expects: RowKind::PaymentMethods,
    }
}

/// Changes the given flags on the rows of one payment method of one user.
pub open spec fn wire_update_payment_method(
    payment_method_id: String,
    user_id: String,
    set_default: Option<bool>,
    set_active: Option<bool>,
    db: DatabaseConfig,
    now: Seq<char>,
) -> RequestView {
    let body = no_fields();
    let body = match set_default {
        Some(v) => body.push(("is_default"@, JsonView::Flag(v))),
        None => body,
    };
    let body = match set_active {
        Some(v) => body.push(("is_active"@, JsonView::Flag(v))),
        None => body,
    };
    let body = body.push(("updated_at"@, JsonView::Text(now)));
    RequestView {
        method: HttpMethod::Patch,
        url: db.database_url@ + "/rest/v1/payment_methods"@,
        query: no_pairs().push(
            ("stripe_payment_method_id"@, "eq."@ + payment_method_id@),
        ).push(("user_id"@, "eq."@ + user_id@)),
        headers: headers(db, true, Some("return=representation"@)),
        body: Some(body),
        expects: RowKind::PaymentMethods,
    }
}

fn render_update_payment_method(
    payment_method_id: &String,
    user_id: &String,
    set_default: &Option<bool>,
    set_active: &Option<bool>,
    db: &DatabaseConfig,
    now: &str,
) -> (r: HttpRequest)
    ensures
        r@ == wire_update_payment_method(
            *payment_method_id,
            *user_id,
            *set_default,
            *set_active,
            *db,
            now@,
        ),
{
    let mut url = db.database_url.clone();
    url.append("/rest/v1/payment_methods");
    let mut query: Vec<Pair> = empty_pairs();
    push_pair(
        &mut query,
        "stripe_payment_method_id",
        String::from_str("eq.").concat(payment_method_id.as_str()),
    );
    push_pair(&mut query, "user_id", String::from_str("eq.").concat(user_id.as_str()));
    let head = common_headers(db, true, Some("return=representation"));
    let mut body: Vec<Field> = empty_fields();
    match set_default {
        Some(v) => { push_field(&mut body, "is_default", JsonValue::Flag(*v)); },
        None => {},
    }
    match set_active {
        Some(v) => { push_field(&mut body, "is_active", JsonValue::Flag(*v)); },
        None => {},
    }
    push_field(&mut body, "updated_at", JsonValue::Text(String::from_str(now)));
    HttpRequest {
        method: HttpMethod::Patch,
        url,
        query,
        headers: head,
        body: Some(body),
        expects: RowKind::PaymentMethods,
    }
}

/// Deletes the rows of one payment method of one user.
pub open spec fn wire_delete_payment_method(
    payment_method_id: String,
    user_id: String,
    db: DatabaseConfig,
    now: Seq<char>,
) -> RequestView {
    RequestView {
        method: HttpMethod::Delete,
        url: db.database_url@ + "/rest/v1/payment_methods"@,
        query: no_pairs().push(
            ("stripe_payment_method_id"@, "eq."@ + payment_method_id@),
        ).push(("user_id"@, "eq."@ + user_id@)),
        headers: headers(db, true, None),
        body: None,
        expects: RowKind::Unread,
    }
}

fn render_delete_payment_method(
    payment_method_id: &String,
    user_id: &String,
    db: &DatabaseConfig,
    now: &str,
) -> (r: HttpRequest)
    ensures
        r@ == wire_delete_payment_method(*payment_method_id, *user_id, *db, now@),
{
    let mut url = db.database_url.clone();
    url.append("/rest/v1/payment_methods");
    let mut query: Vec<Pair> = empty_pairs();
    push_pair(
        &mut query,
        "stripe_payment_method_id",
        String::from_str("eq.").concat(payment_method_id.as_str()),
    );
    push_pair(&mut query, "user_id", String::from_str("eq.").concat(user_id.as_str()));
    let head = common_headers(db, true, None);
    HttpRequest {
        method: HttpMethod::Delete,
        url,
        query,
        headers: head,
        body: None,
        expects: RowKind::Unread,
    }
}

/// Stamps the last use of a payment method.
pub open spec fn wire_mark_payment_method_used(
    payment_method_id: String,
    user_id: String,
    db: DatabaseConfig,
    now: Seq<char>,
) -> RequestView {
    let body = no_fields();
    let body = body.push(("last_used_at"@, JsonView::Text(now)));
    let body = body.push(("updated_at"@, JsonView::Text(now)));
    RequestView {
        method: HttpMethod::Patch,
        url: db.database_url@ + "/rest/v1/payment_methods"@,
        query: no_pairs().push(
            ("stripe_payment_method_id"@, "eq."@ + payment_method_id@),
        ).push(("user_id"@, "eq."@ + user_id@)),
        headers: headers(db, true, None),
        body: Some(body),
        expects: RowKind::Unread,
    }
}

fn render_mark_payment_method_used(
    payment_method_id: &String,
    user_id: &String,
    db: &DatabaseConfig,
    now: &str,
) -> (r: HttpRequest)
    ensures
        r@ == wire_mark_payment_method_used(*payment_method_id, *user_id, *db, now@),
{
    let mut url = db.database_url.clone();
    url.append("/rest/v1/payment_methods");
    let mut query: Vec<Pair> = empty_pairs();
    push_pair(
        &mut query,
        "stripe_payment_method_id",
        String::from_str("eq.").concat(payment_method_id.as_str()),
    );
    push_pair(&mut query, "user_id", String::from_str("eq.").concat(user_id.as_str()));
    let head = common_headers(db, true, None);
    let mut body: Vec<Field> = empty_fields();
    push_field(&mut body, "last_used_at", JsonValue::Text(String::from_str(now)));
    push_field(&mut body, "updated_at", JsonValue::Text(String::from_str(now)));
    HttpRequest {
        method: HttpMethod::Patch,
        url,
        query,
        headers: head,
        body: Some(body),
        expects: RowKind::Unread,
    }
}

/// Clears the default flag on every active default row of a user.
pub open spec fn wire_unset_default_payment_methods(
    user_id: String,
    db: DatabaseConfig,
    now: Seq<char>,
) -> RequestView {
    let body = no_fields();
    let body = body.push(("is_default"@, JsonView::Flag(false)));
    let body = body.push(("updated_at"@, JsonView::Text(now)));
    RequestView {
        method: HttpMethod::Patch,
        url: db.database_url@ + "/rest/v1/payment_methods"@,
        query: no_pairs().push(("user_id"@, "eq."@ + user_id@)).push(
            ("is_default"@, "eq.true"@),
        ).push(("is_active"@, "eq.true"@)),
        headers: headers(db, true, None),
        body: Some(body),
        expects: RowKind::Unread,
    }
}

fn render_unset_default_payment_methods(
    user_id: &String,
    db: &DatabaseConfig,
    now: &str,
) -> (r: HttpRequest)
    ensures
        r@ == wire_unset_default_payment_methods(*user_id, *db, now@),
{
    let mut url = db.database_url.clone();
    url.append("/rest/v1/payment_methods");
    let mut query: Vec<Pair> = empty_pairs();
    push_pair(&mut query, "user_id", String::from_str("eq.").concat(user_id.as_str()));
    push_pair(&mut query, "is_default", String::from_str("eq.true"));
    push_pair(&mut query, "is_active", String::from_str("eq.true"));
    let head = common_headers(db, true, None);
    let mut body: Vec<Field> = empty_fields();
    push_field(&mut body, "is_default", JsonValue::Flag(false));
    push_field(&mut body, "updated_at", JsonValue::Text(String::from_str(now)));
    HttpRequest {
        method: HttpMethod::Patch,
        url,
        query,
        headers: head,
        body: Some(body),
        expects: RowKind::Unread,
    }
}

/// Looks a package up by product, id only.
pub open spec fn wire_find_package_id(
    product_id: String,
    db: DatabaseConfig,
    now: Seq<char>,
) -> RequestView {
    RequestView {
        method: HttpMethod::Get,
        url: db.database_url@ + "/rest/v1/packages?select=id&stripe_product_id=eq."@ + product_id@,
        query: no_pairs(),
        headers: headers(db, false, None),
        body: None,
        expects: RowKind::Unread,
    }
}

fn render_find_package_id(product_id: &String, db: &DatabaseConfig, now: &str) -> (r: HttpRequest)
    ensures
        r@ == wire_find_package_id(*product_id, *db, now@),
{
    let mut url = db.database_url.clone();
    url.append("/rest/v1/packages?select=id&stripe_product_id=eq.");
    url.append(product_id.as_str());
    let query: Vec<Pair> = empty_pairs();
    let head = common_headers(db, false, None);
    HttpRequest {
        method: HttpMethod::Get,
        url,
        query,
        headers: head,
        body: None,
        expects: RowKind::Unread,
    }
}

/// Looks a package up by product, id and name.
pub open spec fn wire_find_package_name(
    product_id: String,
    db: DatabaseConfig,
    now: Seq<char>,
) -> RequestView {
    RequestView {
        method: HttpMethod::Get,
        url: db.database_url@ + "/rest/v1/packages?select=id,name&stripe_product_id=eq."@ + product_id@,
        query: no_pairs(),
        headers: headers(db, false, None),
        body: None,
        expects: RowKind::Unread,
    }
}

fn render_find_package_name(product_id: &String, db: &DatabaseConfig, now: &str) -> (r: HttpRequest)
    ensures
        r@ == wire_find_package_name(*product_id, *db, now@),
{
    let mut url = db.database_url.clone();
    url.append("/rest/v1/packages?select=id,name&stripe_product_id=eq.");
    url.append(product_id.as_str());
    let query: Vec<Pair> = empty_pairs();
    let head = common_headers(db, false, None);
    HttpRequest {
        method: HttpMethod::Get,
        url,
        query,
        headers: head,
        body: None,
        expects: RowKind::Unread,
    }
}

/// Looks a package up by product, id, name and product.
pub open spec fn wire_find_package(
    product_id: String,
    db: DatabaseConfig,
    now: Seq<char>,
) -> RequestView {
    RequestView {
        method: HttpMethod::Get,
        url: db.database_url@ + "/rest/v1/packages?select=id,name,stripe_product_id&stripe_product_id=eq."@ + product_id@,
        query: no_pairs(),
        headers: headers(db, false, None),
        body: None,
        expects: RowKind::Unread,
    }
}

fn render_find_package(product_id: &String, db: &DatabaseConfig, now: &str) -> (r: HttpRequest)
    ensures
        r@ == wire_find_package(*product_id, *db, now@),
{
    let mut url = db.database_url.clone();
    url.append("/rest/v1/packages?select=id,name,stripe_product_id&stripe_product_id=eq.");
    url.append(product_id.as_str());
    let query: Vec<Pair> = empty_pairs();
    let head = common_headers(db, false, None);
    HttpRequest {
        method: HttpMethod::Get,
        url,
        query,
        headers: head,
        body: None,
        expects: RowKind::Unread,
    }
}

/// Inserts the default package for a product that has none.
pub open spec fn wire_create_default_package(
    product_id: String,
    db: DatabaseConfig,
    now: Seq<char>,
) -> RequestView {
    let body = no_fields();
    let body = body.push(("name"@, JsonView::Text("Token Packages"@)));
    let body = body.push(
        ("description"@, JsonView::Text("Flexible token packages with bulk discounts"@)),
    );
    let body = body.push(("stripe_product_id"@, JsonView::Text(product_id@)));
    let body = body.push(("token_amount"@, JsonView::Integer(100)));
    let body = body.push(("bonus_percentage"@, JsonView::Integer(0)));
    let body = body.push(
        (
            "features"@,
            JsonView::TextList(
                Seq::<Seq<char>>::empty().push("Flexible token amounts"@).push(
                    "Bulk discounts"@,
                ).push("All features"@).push("Priority support"@),
            ),
        ),
    );
    RequestView {
        method: HttpMethod::Post,
        url: db.database_url@ + "/rest/v1/packages"@,
        query: no_pairs(),
        headers: headers(db, true, Some("return=representation"@)),
        body: Some(body),
        expects: RowKind::Unread,
    }
}

fn render_create_default_package(
    product_id: &String,
    db: &DatabaseConfig,
    now: &str,
) -> (r: HttpRequest)
    ensures
        r@ == wire_create_default_package(*product_id, *db, now@),
{
    let mut url = db.database_url.clone();
    url.append("/rest/v1/packages");
    let query: Vec<Pair> = empty_pairs();
    let head = common_headers(db, true, Some("return=representation"));
    let mut body: Vec<Field> = empty_fields();
    push_field(&mut body, "name", JsonValue::Text(String::from_str("Token Packages")));
    push_field(
        &mut body,
        "description",
        JsonValue::Text(String::from_str("Flexible token packages with bulk discounts")),
    );
    push_field(&mut body, "stripe_product_id", JsonValue::Text(product_id.clone()));
    push_field(&mut body, "token_amount", JsonValue::Integer(100));
    push_field(&mut body, "bonus_percentage", JsonValue::Integer(0));
    let mut items: Vec<String> = no_texts();
    push_text(&mut items, "Flexible token amounts");
    push_text(&mut items, "Bulk discounts");
    push_text(&mut items, "All features");
    push_text(&mut items, "Priority support");
    push_field(&mut body, "features", JsonValue::TextList(items));
    HttpRequest {
        method: HttpMethod::Post,
        url,
        query,
        headers: head,
        body: Some(body),
        expects: RowKind::Unread,
    }
}

/// Looks a package price up by processor price.
pub open spec fn wire_find_package_price(
    price_id: String,
    db: DatabaseConfig,
    now: Seq<char>,
) -> RequestView {
    RequestView {
        method: HttpMethod::Get,
        url: db.database_url@ + "/rest/v1/package_prices?select=id,token_amount&stripe_price_id=eq."@ + price_id@,
        query: no_pairs(),
        headers: headers(db, false, None),
        body: None,
        expects: RowKind::Unread,
    }
}

fn render_find_package_price(price_id: &String, db: &DatabaseConfig, now: &str) -> (r: HttpRequest)
    ensures
        r@ == wire_find_package_price(*price_id, *db, now@),
{
    let mut url = db.database_url.clone();
    url.append("/rest/v1/package_prices?select=id,token_amount&stripe_price_id=eq.");
    url.append(price_id.as_str());
    let query: Vec<Pair> = empty_pairs();
    let head = common_headers(db, false, None);
    HttpRequest {
        method: HttpMethod::Get,
        url,
        query,
        headers: head,
        body: None,
        expects: RowKind::Unread,
    }
}

/// Inserts a completed purchase.
pub open spec fn wire_insert_purchase(
    user_id: String,
    payment_intent_id: String,
    price_id: String,
    product_id: String,
    package_id: String,
    package_price_id: Option<String>,
    amount_paid: i64,
    currency: String,
    tokens_purchased: i64,
    db: DatabaseConfig,
    now: Seq<char>,
) -> RequestView {
    let body = no_fields();
    let body = body.push(("user_id"@, JsonView::Text(user_id@)));
    let body = body.push(("stripe_payment_intent_id"@, JsonView::Text(payment_intent_id@)));
    let body = body.push(("stripe_price_id"@, JsonView::Text(price_id@)));
    let body = body.push(("stripe_product_id"@, JsonView::Text(product_id@)));
    let body = body.push(("package_id"@, JsonView::Text(package_id@)));
    let body = body.push(("amount_paid"@, JsonView::Integer(amount_paid as int)));
    let body = body.push(("currency"@, JsonView::Text(currency@)));
    let body = body.push(("tokens_purchased"@, JsonView::Integer(tokens_purchased as int)));
    let body = body.push(("status"@, JsonView::Text("completed"@)));
    let body = body.push(("completed_at"@, JsonView::Text(now)));
    let body = match package_price_id {
        Some(v) => body.push(("package_price_id"@, JsonView::Text(v@))),
        None => body,
    };
    RequestView {
        method: HttpMethod::Post,
        url: db.database_url@ + "/rest/v1/purchases"@,
        query: no_pairs(),
        headers: headers(db, true, Some("return=representation"@)),
        body: Some(body),
        expects: RowKind::Unread,
    }
}

fn render_insert_purchase(
    user_id: &String,
    payment_intent_id: &String,
    price_id: &String,
    product_id: &String,
    package_id: &String,
    package_price_id: &Option<String>,
    amount_paid: i64,
    currency: &String,
    tokens_purchased: i64,
    db: &DatabaseConfig,
    now: &str,
) -> (r: HttpRequest)
    ensures
        r@ == wire_insert_purchase(
            *user_id,
            *payment_intent_id,
            *price_id,
            *product_id,
            *package_id,
            *package_price_id,
            amount_paid,
            *currency,
            tokens_purchased,
            *db,
            now@,
        ),
{
    let mut url = db.database_url.clone();
    url.append("/rest/v1/purchases");
    let query: Vec<Pair> = empty_pairs();
    let head = common_headers(db, true, Some("return=representation"));
    let mut body: Vec<Field> = empty_fields();
    push_field(&mut body, "user_id", JsonValue::Text(user_id.clone()));
    push_field(&mut body, "stripe_payment_intent_id", JsonValue::Text(payment_intent_id.clone()));
    push_field(&mut body, "stripe_price_id", JsonValue::Text(price_id.clone()));
    push_field(&mut body, "stripe_product_id", JsonValue::Text(product_id.clone()));
    push_field(&mut body, "package_id", JsonValue::Text(package_id.clone()));
    push_field(&mut body, "amount_paid", JsonValue::Integer(amount_paid));
    push_field(&mut body, "currency", JsonValue::Text(currency.clone()));
    push_field(&mut body, "tokens_purchased", JsonValue::Integer(tokens_purchased));
    push_field(&mut body, "status", JsonValue::Text(String::from_str("completed")));
    push_field(&mut body, "completed_at", JsonValue::Text(String::from_str(now)));
    match package_price_id {
        Some(v) => { push_field(&mut body, "package_price_id", JsonValue::Text(v.clone())); },
        None => {},
    }
    HttpRequest {
        method: HttpMethod::Post,
        url,
        query,
        headers: head,
        body: Some(body),
        expects: RowKind::Unread,
    }
}

/// Lists a user's completed purchases, newest first.
pub open spec fn wire_list_purchases(
    user_id: String,
    db: DatabaseConfig,
    now: Seq<char>,
) -> RequestView {
    RequestView {
        method: HttpMethod::Get,
        url: db.database_url@ + "/rest/v1/purchases"@,
        query: no_pairs().push(("user_id"@, "eq."@ + user_id@)).push(
            ("status"@, "eq.completed"@),
        ).push(("order"@, "completed_at.desc"@)).push(
            (
                "select"@,
                "id,user_id,stripe_payment_intent_id,stripe_price_id,stripe_product_id,package_id,package_price_id,amount_paid,currency,tokens_purchased,status,completed_at,created_at,updated_at"@,
            ),
        ),
        headers: headers(db, false, None),
        body: None,
        expects: RowKind::Unread,
    }
}

fn render_list_purchases(user_id: &String, db: &DatabaseConfig, now: &str) -> (r: HttpRequest)
    ensures
        r@ == wire_list_purchases(*user_id, *db, now@),
{
    let mut url = db.database_url.clone();
    url.append("/rest/v1/purchases");
    let mut query: Vec<Pair> = empty_pairs();
    push_pair(&mut query, "user_id", String::from_str("eq.").concat(user_id.as_str()));
    push_pair(&mut query, "status", String::from_str("eq.completed"));
    push_pair(&mut query, "order", String::from_str("completed_at.desc"));
    push_pair(
        &mut query,
        "select",
        String::from_str(
            "id,user_id,stripe_payment_intent_id,stripe_price_id,stripe_product_id,package_id,package_price_id,amount_paid,currency,tokens_purchased,status,completed_at,created_at,updated_at",
        ),
    );
    let head = common_headers(db, false, None);
    HttpRequest {
        method: HttpMethod::Get,
        url,
        query,
        headers: head,
        body: None,
        expects: RowKind::Unread,
    }
}

/// Lists the active subscription plans in their sort order.
pub open spec fn wire_list_active_plans(db: DatabaseConfig, now: Seq<char>) -> RequestView {
    RequestView {
        method: HttpMethod::Get,
        url: db.database_url@ + "/rest/v1/subscription_plans?is_active=eq.true&order=sort_order"@,
        query: no_pairs(),
        headers: headers(db, true, None),
        body: None,
        expects: RowKind::Unread,
    }
}

fn render_list_active_plans(db: &DatabaseConfig, now: &str) -> (r: HttpRequest)
    ensures
        r@ == wire_list_active_plans(*db, now@),
{
    let mut url = db.database_url.clone();
    url.append("/rest/v1/subscription_plans?is_active=eq.true&order=sort_order");
    let query: Vec<Pair> = empty_pairs();
    let head = common_headers(db, true, None);
    HttpRequest {
        method: HttpMethod::Get,
        url,
        query,
        headers: head,
        body: None,
        expects: RowKind::Unread,
    }
}

/// Lists the active subscription prices.
pub open spec fn wire_list_active_plan_prices(db: DatabaseConfig, now: Seq<char>) -> RequestView {
    RequestView {
        method: HttpMethod::Get,
        url: db.database_url@ + "/rest/v1/subscription_prices?is_active=eq.true"@,
        query: no_pairs(),
        headers: headers(db, true, None),
        body: None,
        expects: RowKind::Unread,
    }
}

fn render_list_active_plan_prices(db: &DatabaseConfig, now: &str) -> (r: HttpRequest)
    ensures
        r@ == wire_list_active_plan_prices(*db, now@),
{
    let mut url = db.database_url.clone();
    url.append("/rest/v1/subscription_prices?is_active=eq.true");
    let query: Vec<Pair> = empty_pairs();
    let head = common_headers(db, true, None);
    HttpRequest {
        method: HttpMethod::Get,
        url,
        query,
        headers: head,
        body: None,
        expects: RowKind::Unread,
    }
}

/// Lists the active packages in their sort order.
pub open spec fn wire_list_active_packages(db: DatabaseConfig, now: Seq<char>) -> RequestView {
    RequestView {
        method: HttpMethod::Get,
        url: db.database_url@ + "/rest/v1/packages?is_active=eq.true&order=sort_order"@,
        query: no_pairs(),
        headers: headers(db, true, None),
        body: None,
        expects: RowKind::Unread,
    }
}

fn render_list_active_packages(db: &DatabaseConfig, now: &str) -> (r: HttpRequest)
    ensures
        r@ == wire_list_active_packages(*db, now@),
{
    let mut url = db.database_url.clone();
    url.append("/rest/v1/packages?is_active=eq.true&order=sort_order");
    let query: Vec<Pair> = empty_pairs();
    let head = common_headers(db, true, None);
    HttpRequest {
        method: HttpMethod::Get,
        url,
        query,
        headers: head,
        body: None,
        expects: RowKind::Unread,
    }
}

/// Lists the active package prices, cheapest first.
pub open spec fn wire_list_active_package_prices(
    db: DatabaseConfig,
    now: Seq<char>,
) -> RequestView {
    RequestView {
        method: HttpMethod::Get,
        url: db.database_url@ + "/rest/v1/package_prices?is_active=eq.true&order=amount_cents.asc"@,
        query: no_pairs(),
        headers: headers(db, true, None),
        body: None,
        expects: RowKind::Unread,
    }
}

fn render_list_active_package_prices(db: &DatabaseConfig, now: &str) -> (r: HttpRequest)
    ensures
        r@ == wire_list_active_package_prices(*db, now@),
{
    let mut url = db.database_url.clone();
    url.append("/rest/v1/package_prices?is_active=eq.true&order=amount_cents.asc");
    let query: Vec<Pair> = empty_pairs();
    let head = common_headers(db, true, None);
    HttpRequest {
        method: HttpMethod::Get,
        url,
        query,
        headers: head,
        body: None,
        expects: RowKind::Unread,
    }
}

/// Asks for no purchase rows, to see whether the table answers.
pub open spec fn wire_probe_purchases(db: DatabaseConfig, now: Seq<char>) -> RequestView {
    RequestView {
        method: HttpMethod::Get,
        url: db.database_url@ + "/rest/v1/purchases?limit=0"@,
        query: no_pairs(),
        headers: headers(db, false, None),
        body: None,
        expects: RowKind::Unread,
    }
}

fn render_probe_purchases(db: &DatabaseConfig, now: &str) -> (r: HttpRequest)
    ensures
        r@ == wire_probe_purchases(*db, now@),
{
    let mut url = db.database_url.clone();
    url.append("/rest/v1/purchases?limit=0");
    let query: Vec<Pair> = empty_pairs();
    let head = common_headers(db, false, None);
    HttpRequest {
        method: HttpMethod::Get,
        url,
        query,
        headers: head,
        body: None,
        expects: RowKind::Unread,
    }
}

/// Asks for the token columns of one profile.
pub open spec fn wire_probe_profiles(db: DatabaseConfig, now: Seq<char>) -> RequestView {
    RequestView {
        method: HttpMethod::Get,
        url: db.database_url@ + "/rest/v1/profiles?select=total_tokens,tokens_remaining,tokens_used&limit=1"@,
        query: no_pairs(),
        headers: headers(db, false, None),
        body: None,
        expects: RowKind::Unread,
    }
}

fn render_probe_profiles(db: &DatabaseConfig, now: &str) -> (r: HttpRequest)
    ensures
        r@ == wire_probe_profiles(*db, now@),
{
    let mut url = db.database_url.clone();
    url.append("/rest/v1/profiles?select=total_tokens,tokens_remaining,tokens_used&limit=1");
    let query: Vec<Pair> = empty_pairs();
    let head = common_headers(db, false, None);
    HttpRequest {
        method: HttpMethod::Get,
        url,
        query,
        headers: head,
        body: None,
        expects: RowKind::Unread,
    }
}

/// Asks for the first profile only, to see whether the table exists.
pub open spec fn wire_probe_schema(db: DatabaseConfig, now: Seq<char>) -> RequestView {
    RequestView {
        method: HttpMethod::Get,
        url: db.database_url@ + "/rest/v1/profiles"@,
        query: no_pairs(),
        headers: headers(db, false, None).push(("Range"@, "0-0"@)),
        body: None,
        expects: RowKind::Unread,
    }
}

fn render_probe_schema(db: &DatabaseConfig, now: &str) -> (r: HttpRequest)
    ensures
        r@ == wire_probe_schema(*db, now@),
{
    let mut url = db.database_url.clone();
    url.append("/rest/v1/profiles");
    let query: Vec<Pair> = empty_pairs();
    let mut head = common_headers(db, false, None);
    push_pair(&mut head, "Range", String::from_str("0-0"));
    HttpRequest {
        method: HttpMethod::Get,
        url,
        query,
        headers: head,
        body: None,
        expects: RowKind::Unread,
    }
}

/// Inserts a contractor whose verification is submitted and whose connected account is pending.
pub open spec fn wire_insert_contractor(
    user_id: String,
    profile_id: String,
    contractor_type: String,
    connect_account_id: String,
    requirements_completed: bool,
    business_name: Option<String>,
    business_tax_id: Option<String>,
    db: DatabaseConfig,
    now: Seq<char>,
) -> RequestView {
    let body = no_fields();
    let body = body.push(("user_id"@, JsonView::Text(user_id@)));
    let body = body.push(("profile_id"@, JsonView::Text(profile_id@)));
    let body = body.push(("contractor_type"@, JsonView::Text(contractor_type@)));
    let body = body.push(("kyc_status"@, JsonView::Text("submitted"@)));
    let body = body.push(("is_active"@, JsonView::Flag(true)));
    let body = body.push(("stripe_connect_account_id"@, JsonView::Text(connect_account_id@)));
    let body = body.push(("stripe_connect_account_status"@, JsonView::Text("pending"@)));
    let body = body.push(
        ("stripe_connect_requirements_completed"@, JsonView::Flag(requirements_completed)),
    );
    let body = body.push(
        (
            "business_name"@,
            match business_name { Some(v) => JsonView::Text(v@), None => JsonView::Null },
        ),
    );
    let body = body.push(
        (
            "business_tax_id"@,
            match business_tax_id { Some(v) => JsonView::Text(v@), None => JsonView::Null },
        ),
    );
    RequestView {
        method: HttpMethod::Post,
        url: db.database_url@ + "/rest/v1/contractors"@,
        query: no_pairs(),
        headers: headers(db, true, Some("return=representation"@)),
        body: Some(body),
        expects: RowKind::Contractors,
    }
}

fn render_insert_contractor(
    user_id: &String,
    profile_id: &String,
    contractor_type: &String,
    connect_account_id: &String,
    requirements_completed: bool,
    business_name: &Option<String>,
    business_tax_id: &Option<String>,
    db: &DatabaseConfig,
    now: &str,
) -> (r: HttpRequest)
    ensures
        r@ == wire_insert_contractor(
            *user_id,
            *profile_id,
            *contractor_type,
            *connect_account_id,
            requirements_completed,
            *business_name,
            *business_tax_id,
            *db,
            now@,
        ),
{
    let mut url = db.database_url.clone();
    url.append("/rest/v1/contractors");
    let query: Vec<Pair> = empty_pairs();
    let head = common_headers(db, true, Some("return=representation"));
    let mut body: Vec<Field> = empty_fields();
    push_field(&mut body, "user_id", JsonValue::Text(user_id.clone()));
    push_field(&mut body, "profile_id", JsonValue::Text(profile_id.clone()));
    push_field(&mut body, "contractor_type", JsonValue::Text(contractor_type.clone()));
    push_field(&mut body, "kyc_status", JsonValue::Text(String::from_str("submitted")));
    push_field(&mut body, "is_active", JsonValue::Flag(true));
    push_field(&mut body, "stripe_connect_account_id", JsonValue::Text(connect_account_id.clone()));
    push_field(
        &mut body,
        "stripe_connect_account_status",
        JsonValue::Text(String::from_str("pending")),
    );
    push_field(
        &mut body,
        "stripe_connect_requirements_completed",
        JsonValue::Flag(requirements_completed),
    );
    push_field(
        &mut body,
        "business_name",
        match business_name { Some(v) => JsonValue::Text(v.clone()), None => JsonValue::Null },
    );
    push_field(
        &mut body,
        "business_tax_id",
        match business_tax_id { Some(v) => JsonValue::Text(v.clone()), None => JsonValue::Null },
    );
    HttpRequest {
        method: HttpMethod::Post,
        url,
        query,
        headers: head,
        body: Some(body),
        expects: RowKind::Contractors,
    }
}

/// Inserts a contractor's residential address, not yet verified.
pub open spec fn wire_insert_contractor_address(
    contractor_id: String,
    line1: String,
    line2: Option<String>,
    city: String,
    state: String,
    postal_code: String,
    country: String,
    db: DatabaseConfig,
    now: Seq<char>,
) -> RequestView {
    let body = no_fields();
    let body = body.push(("contractor_id"@, JsonView::Text(contractor_id@)));
    let body = body.push(("address_type"@, JsonView::Text("residential"@)));
    let body = body.push(("street_address"@, JsonView::Text(line1@)));
    let body = body.push(
        (
            "street_address_2"@,
            match line2 { Some(v) => JsonView::Text(v@), None => JsonView::Null },
        ),
    );
    let body = body.push(("city"@, JsonView::Text(city@)));
    let body = body.push(("state_province"@, JsonView::Text(state@)));
    let body = body.push(("postal_code"@, JsonView::Text(postal_code@)));
    let body = body.push(("country"@, JsonView::Text(country@)));
    let body = body.push(("is_verified"@, JsonView::Flag(false)));
    RequestView {
        method: HttpMethod::Post,
        url: db.database_url@ + "/rest/v1/contractor_addresses"@,
        query: no_pairs(),
        headers: headers(db, true, None),
        body: Some(body),
        expects: RowKind::Unread,
    }
}

fn render_insert_contractor_address(
    contractor_id: &String,
    line1: &String,
    line2: &Option<String>,
    city: &String,
    state: &String,
    postal_code: &String,
    country: &String,
    db: &DatabaseConfig,
    now: &str,
) -> (r: HttpRequest)
    ensures
        r@ == wire_insert_contractor_address(
            *contractor_id,
            *line1,
            *line2,
            *city,
            *state,
            *postal_code,
            *country,
            *db,
            now@,
        ),
{
    let mut url = db.database_url.clone();
    url.append("/rest/v1/contractor_addresses");
    let query: Vec<Pair> = empty_pairs();
    let head = common_headers(db, true, None);
    let mut body: Vec<Field> = empty_fields();
    push_field(&mut body, "contractor_id", JsonValue::Text(contractor_id.clone()));
    push_field(&mut body, "address_type", JsonValue::Text(String::from_str("residential")));
    push_field(&mut body, "street_address", JsonValue::Text(line1.clone()));
    push_field(
        &mut body,
        "street_address_2",
        match line2 { Some(v) => JsonValue::Text(v.clone()), None => JsonValue::Null },
    );
    push_field(&mut body, "city", JsonValue::Text(city.clone()));
    push_field(&mut body, "state_province", JsonValue::Text(state.clone()));
    push_field(&mut body, "postal_code", JsonValue::Text(postal_code.clone()));
    push_field(&mut body, "country", JsonValue::Text(country.clone()));
    push_field(&mut body, "is_verified", JsonValue::Flag(false));
    HttpRequest {
        method: HttpMethod::Post,
        url,
        query,
        headers: head,
        body: Some(body),
        expects: RowKind::Unread,
    }
}

/// Reads the contractor of a user.
pub open spec fn wire_fetch_contractor(
    user_id: String,
    db: DatabaseConfig,
    now: Seq<char>,
) -> RequestView {
    RequestView {
        method: HttpMethod::Get,
        url: db.database_url@ + "/rest/v1/contractors"@,
        query: no_pairs().push(("user_id"@, "eq."@ + user_id@)),
        headers: headers(db, false, None),
        body: None,
        expects: RowKind::Contractors,
    }
}

fn render_fetch_contractor(user_id: &String, db: &DatabaseConfig, now: &str) -> (r: HttpRequest)
    ensures
        r@ == wire_fetch_contractor(*user_id, *db, now@),
{
    let mut url = db.database_url.clone();
    url.append("/rest/v1/contractors");
    let mut query: Vec<Pair> = empty_pairs();
    push_pair(&mut query, "user_id", String::from_str("eq.").concat(user_id.as_str()));
    let head = common_headers(db, false, None);
    HttpRequest {
        method: HttpMethod::Get,
        url,
        query,
        headers: head,
        body: None,
        expects: RowKind::Contractors,
    }
}

/// Stores a user's onboarding form, over one that is stored already.
pub open spec fn wire_save_kyc_form(
    user_id: String,
    kyc_json: String,
    db: DatabaseConfig,
    now: Seq<char>,
) -> RequestView {
    let body = no_fields();
    let body = body.push(("user_id"@, JsonView::Text(user_id@)));
    let body = body.push(("kyc_data"@, JsonView::Raw(kyc_json@)));
    RequestView {
        method: HttpMethod::Post,
        url: db.database_url@ + "/rest/v1/contractor_kyc_form_data?on_conflict=user_id"@,
        query: no_pairs(),
        headers: headers(db, true, Some("resolution=merge-duplicates"@)),
        body: Some(body),
        expects: RowKind::Unread,
    }
}

fn render_save_kyc_form(
    user_id: &String,
    kyc_json: &String,
    db: &DatabaseConfig,
    now: &str,
) -> (r: HttpRequest)
    ensures
        r@ == wire_save_kyc_form(*user_id, *kyc_json, *db, now@),
{
    let mut url = db.database_url.clone();
    url.append("/rest/v1/contractor_kyc_form_data?on_conflict=user_id");
    let query: Vec<Pair> = empty_pairs();
    let head = common_headers(db, true, Some("resolution=merge-duplicates"));
    let mut body: Vec<Field> = empty_fields();
    push_field(&mut body, "user_id", JsonValue::Text(user_id.clone()));
    push_field(&mut body, "kyc_data", JsonValue::Raw(kyc_json.clone()));
    HttpRequest {
        method: HttpMethod::Post,
        url,
        query,
        headers: head,
        body: Some(body),
        expects: RowKind::Unread,
    }
}

/// Reads a user's stored onboarding form.
pub open spec fn wire_load_kyc_form(
    user_id: String,
    db: DatabaseConfig,
    now: Seq<char>,
) -> RequestView {
    RequestView {
        method: HttpMethod::Get,
        url: db.database_url@ + "/rest/v1/contractor_kyc_form_data"@,
        query: no_pairs().push(("user_id"@, "eq."@ + user_id@)).push(("select"@, "kyc_data"@)),
        headers: headers(db, false, None),
        body: None,
        expects: RowKind::Unread,
    }
}

fn render_load_kyc_form(user_id: &String, db: &DatabaseConfig, now: &str) -> (r: HttpRequest)
    ensures
        r@ == wire_load_kyc_form(*user_id, *db, now@),
{
    let mut url = db.database_url.clone();
    url.append("/rest/v1/contractor_kyc_form_data");
    let mut query: Vec<Pair> = empty_pairs();
    push_pair(&mut query, "user_id", String::from_str("eq.").concat(user_id.as_str()));
    push_pair(&mut query, "select", String::from_str("kyc_data"));
    let head = common_headers(db, false, None);
    HttpRequest {
        method: HttpMethod::Get,
        url,
        query,
        headers: head,
        body: None,
        expects: RowKind::Unread,
    }
}

/// Inserts a representative of a contractor, not yet verified.
pub open spec fn wire_insert_representative(
    contractor_id: String,
    first_name: String,
    last_name: String,
    date_of_birth: String,
    email: Option<String>,
    phone_number: Option<String>,
    street_address: String,
    street_address_2: Option<String>,
    city: String,
    state_province: Option<String>,
    postal_code: String,
    country: String,
    title: String,
    is_authorized_signatory: bool,
    national_id_number: Option<String>,
    national_id_type: Option<String>,
    db: DatabaseConfig,
    now: Seq<char>,
) -> RequestView {
    let body = no_fields();
    let body = body.push(("contractor_id"@, JsonView::Text(contractor_id@)));
    let body = body.push(("first_name"@, JsonView::Text(first_name@)));
    let body = body.push(("last_name"@, JsonView::Text(last_name@)));
    let body = body.push(("date_of_birth"@, JsonView::Text(date_of_birth@)));
    let body = body.push(
        ("email"@, match email { Some(v) => JsonView::Text(v@), None => JsonView::Null }),
    );
    let body = body.push(
        (
            "phone_number"@,
            match phone_number { Some(v) => JsonView::Text(v@), None => JsonView::Null },
        ),
    );
    let body = body.push(("street_address"@, JsonView::Text(street_address@)));
    let body = body.push(
        (
            "street_address_2"@,
            match street_address_2 { Some(v) => JsonView::Text(v@), None => JsonView::Null },
        ),
    );
    let body = body.push(("city"@, JsonView::Text(city@)));
    let body = body.push(
        (
            "state_province"@,
            match state_province { Some(v) => JsonView::Text(v@), None => JsonView::Null },
        ),
    );
    let body = body.push(("postal_code"@, JsonView::Text(postal_code@)));
    let body = body.push(("country"@, JsonView::Text(country@)));
    let body = body.push(("title"@, JsonView::Text(title@)));
    let body = body.push(("is_authorized_signatory"@, JsonView::Flag(is_authorized_signatory)));
    let body = body.push(
        (
            "national_id_number"@,
            match national_id_number { Some(v) => JsonView::Text(v@), None => JsonView::Null },
        ),
    );
    let body = body.push(
        (
            "national_id_type"@,
            match national_id_type { Some(v) => JsonView::Text(v@), None => JsonView::Null },
        ),
    );
    let body = body.push(("is_verified"@, JsonView::Flag(false)));
    RequestView {
        method: HttpMethod::Post,
        url: db.database_url@ + "/rest/v1/contractor_representatives"@,
        query: no_pairs(),
        headers: headers(db, true, Some("return=representation"@)),
        body: Some(body),
        expects: RowKind::Unread,
    }
}

fn render_insert_representative(
    contractor_id: &String,
    first_name: &String,
    last_name: &String,
    date_of_birth: &String,
    email: &Option<String>,
    phone_number: &Option<String>,
    street_address: &String,
    street_address_2: &Option<String>,
    city: &String,
    state_province: &Option<String>,
    postal_code: &String,
    country: &String,
    title: &String,
    is_authorized_signatory: bool,
    national_id_number: &Option<String>,
    national_id_type: &Option<String>,
    db: &DatabaseConfig,
    now: &str,
) -> (r: HttpRequest)
    ensures
        r@ == wire_insert_representative(
            *contractor_id,
            *first_name,
            *last_name,
            *date_of_birth,
            *email,
            *phone_number,
            *street_address,
            *street_address_2,
            *city,
            *state_province,
            *postal_code,
            *country,
            *title,
            is_authorized_signatory,
            *national_id_number,
            *national_id_type,
            *db,
            now@,
        ),
{
    let mut url = db.database_url.clone();
    url.append("/rest/v1/contractor_representatives");
    let query: Vec<Pair> = empty_pairs();
    let head = common_headers(db, true, Some("return=representation"));
    let mut body: Vec<Field> = empty_fields();
    push_field(&mut body, "contractor_id", JsonValue::Text(contractor_id.clone()));
    push_field(&mut body, "first_name", JsonValue::Text(first_name.clone()));
    push_field(&mut body, "last_name", JsonValue::Text(last_name.clone()));
    push_field(&mut body, "date_of_birth", JsonValue::Text(date_of_birth.clone()));
    push_field(
        &mut body,
        "email",
        match email { Some(v) => JsonValue::Text(v.clone()), None => JsonValue::Null },
    );
    push_field(
        &mut body,
        "phone_number",
        match phone_number { Some(v) => JsonValue::Text(v.clone()), None => JsonValue::Null },
    );
    push_field(&mut body, "street_address", JsonValue::Text(street_address.clone()));
    push_field(
        &mut body,
        "street_address_2",
        match street_address_2 { Some(v) => JsonValue::Text(v.clone()), None => JsonValue::Null },
    );
    push_field(&mut body, "city", JsonValue::Text(city.clone()));
    push_field(
        &mut body,
        "state_province",
        match state_province { Some(v) => JsonValue::Text(v.clone()), None => JsonValue::Null },
    );
    push_field(&mut body, "postal_code", JsonValue::Text(postal_code.clone()));
    push_field(&mut body, "country", JsonValue::Text(country.clone()));
    push_field(&mut body, "title", JsonValue::Text(title.clone()));
    push_field(&mut body, "is_authorized_signatory", JsonValue::Flag(is_authorized_signatory));
    push_field(
        &mut body,
        "national_id_number",
        match national_id_number { Some(v) => JsonValue::Text(v.clone()), None => JsonValue::Null },
    );
    push_field(
        &mut body,
        "national_id_type",
        match national_id_type { Some(v) => JsonValue::Text(v.clone()), None => JsonValue::Null },
    );
    push_field(&mut body, "is_verified", JsonValue::Flag(false));
    HttpRequest {
        method: HttpMethod::Post,
        url,
        query,
        headers: head,
        body: Some(body),
        expects: RowKind::Unread,
    }
}

/// Lists the representatives of a contractor.
pub open spec fn wire_list_representatives(
    contractor_id: String,
    db: DatabaseConfig,
    now: Seq<char>,
) -> RequestView {
    RequestView {
        method: HttpMethod::Get,
        url: db.database_url@ + "/rest/v1/contractor_representatives"@,
        query: no_pairs().push(("contractor_id"@, "eq."@ + contractor_id@)),
        headers: headers(db, false, None),
        body: None,
        expects: RowKind::Unread,
    }
}

fn render_list_representatives(
    contractor_id: &String,
    db: &DatabaseConfig,
    now: &str,
) -> (r: HttpRequest)
    ensures
        r@ == wire_list_representatives(*contractor_id, *db, now@),
{
    let mut url = db.database_url.clone();
    url.append("/rest/v1/contractor_representatives");
    let mut query: Vec<Pair> = empty_pairs();
    push_pair(&mut query, "contractor_id", String::from_str("eq.").concat(contractor_id.as_str()));
    let head = common_headers(db, false, None);
    HttpRequest {
        method: HttpMethod::Get,
        url,
        query,
        headers: head,
        body: None,
        expects: RowKind::Unread,
    }
}

/// Lists the beneficial owners of a contractor.
pub open spec fn wire_list_beneficial_owners(
    contractor_id: String,
    db: DatabaseConfig,
    now: Seq<char>,
) -> RequestView {
    RequestView {
        method: HttpMethod::Get,
        url: db.database_url@ + "/rest/v1/contractor_beneficial_owners"@,
        query: no_pairs().push(("contractor_id"@, "eq."@ + contractor_id@)),
        headers: headers(db, false, None),
        body: None,
        expects: RowKind::Unread,
    }
}

fn render_list_beneficial_owners(
    contractor_id: &String,
    db: &DatabaseConfig,
    now: &str,
) -> (r: HttpRequest)
    ensures
        r@ == wire_list_beneficial_owners(*contractor_id, *db, now@),
{
    let mut url = db.database_url.clone();
    url.append("/rest/v1/contractor_beneficial_owners");
    let mut query: Vec<Pair> = empty_pairs();
    push_pair(&mut query, "contractor_id", String::from_str("eq.").concat(contractor_id.as_str()));
    let head = common_headers(db, false, None);
    HttpRequest {
        method: HttpMethod::Get,
        url,
        query,
        headers: head,
        body: None,
        expects: RowKind::Unread,
    }
}

/// Inserts the record of an uploaded document, pending upload and verification.
pub open spec fn wire_insert_document_upload(
    contractor_id: String,
    document_type: String,
    document_purpose: String,
    file_name: String,
    file_size: Option<i64>,
    mime_type: Option<String>,
    stripe_file_id: Option<String>,
    local_file_path: Option<String>,
    file_hash: Option<String>,
    required_for_capability: Option<Vec<String>>,
    requirement_id: Option<String>,
    db: DatabaseConfig,
    now: Seq<char>,
) -> RequestView {
    let body = no_fields();
    let body = body.push(("contractor_id"@, JsonView::Text(contractor_id@)));
    let body = body.push(("document_type"@, JsonView::Text(document_type@)));
    let body = body.push(("document_purpose"@, JsonView::Text(document_purpose@)));
    let body = body.push(("file_name"@, JsonView::Text(file_name@)));
    let body = body.push(
        (
            "file_size"@,
            match file_size { Some(v) => JsonView::Integer(v as int), None => JsonView::Null },
        ),
    );
    let body = body.push(
        ("mime_type"@, match mime_type { Some(v) => JsonView::Text(v@), None => JsonView::Null }),
    );
    let body = body.push(
        (
            "stripe_file_id"@,
            match stripe_file_id { Some(v) => JsonView::Text(v@), None => JsonView::Null },
        ),
    );
    let body = body.push(("stripe_upload_status"@, JsonView::Text("pending"@)));
    let body = body.push(
        (
            "local_file_path"@,
            match local_file_path { Some(v) => JsonView::Text(v@), None => JsonView::Null },
        ),
    );
    let body = body.push(
        ("file_hash"@, match file_hash { Some(v) => JsonView::Text(v@), None => JsonView::Null }),
    );
    let body = body.push(("verification_status"@, JsonView::Text("pending"@)));
    let body = body.push(
        (
            "required_for_capability"@,
            match required_for_capability {
                Some(v) => JsonView::TextList(texts_view(v@)),
                None => JsonView::Null,
            },
        ),
    );
    let body = body.push(
        (
            "requirement_id"@,
            match requirement_id { Some(v) => JsonView::Text(v@), None => JsonView::Null },
        ),
    );
    RequestView {
        method: HttpMethod::Post,
        url: db.database_url@ + "/rest/v1/contractor_document_uploads"@,
        query: no_pairs(),
        headers: headers(db, true, Some("return=representation"@)),
        body: Some(body),
        expects: RowKind::Unread,
    }
}

fn render_insert_document_upload(
    contractor_id: &String,
    document_type: &String,
    document_purpose: &String,
    file_name: &String,
    file_size: &Option<i64>,
    mime_type: &Option<String>,
    stripe_file_id: &Option<String>,
    local_file_path: &Option<String>,
    file_hash: &Option<String>,
    required_for_capability: &Option<Vec<String>>,
    requirement_id: &Option<String>,
    db: &DatabaseConfig,
    now: &str,
) -> (r: HttpRequest)
    ensures
        r@ == wire_insert_document_upload(
            *contractor_id,
            *document_type,
            *document_purpose,
            *file_name,
            *file_size,
            *mime_type,
            *stripe_file_id,
            *local_file_path,
            *file_hash,
            *required_for_capability,
            *requirement_id,
            *db,
            now@,
        ),
{
    let mut url = db.database_url.clone();
    url.append("/rest/v1/contractor_document_uploads");
    let query: Vec<Pair> = empty_pairs();
    let head = common_headers(db, true, Some("return=representation"));
    let mut body: Vec<Field> = empty_fields();
    push_field(&mut body, "contractor_id", JsonValue::Text(contractor_id.clone()));
    push_field(&mut body, "document_type", JsonValue::Text(document_type.clone()));
    push_field(&mut body, "document_purpose", JsonValue::Text(document_purpose.clone()));
    push_field(&mut body, "file_name", JsonValue::Text(file_name.clone()));
    push_field(
        &mut body,
        "file_size",
        match file_size { Some(v) => JsonValue::Integer(*v), None => JsonValue::Null },
    );
    push_field(
        &mut body,
        "mime_type",
        match mime_type { Some(v) => JsonValue::Text(v.clone()), None => JsonValue::Null },
    );
    push_field(
        &mut body,
        "stripe_file_id",
        match stripe_file_id { Some(v) => JsonValue::Text(v.clone()), None => JsonValue::Null },
    );
    push_field(&mut body, "stripe_upload_status", JsonValue::Text(String::from_str("pending")));
    push_field(
        &mut body,
        "local_file_path",
        match local_file_path { Some(v) => JsonValue::Text(v.clone()), None => JsonValue::Null },
    );
    push_field(
        &mut body,
        "file_hash",
        match file_hash { Some(v) => JsonValue::Text(v.clone()), None => JsonValue::Null },
    );
    push_field(&mut body, "verification_status", JsonValue::Text(String::from_str("pending")));
    push_field(
        &mut body,
        "required_for_capability",
        match required_for_capability {
            Some(v) => JsonValue::TextList(copy_texts(v)),
            None => JsonValue::Null,
        },
    );
    push_field(
        &mut body,
        "requirement_id",
        match requirement_id { Some(v) => JsonValue::Text(v.clone()), None => JsonValue::Null },
    );
    HttpRequest {
        method: HttpMethod::Post,
        url,
        query,
        headers: head,
        body: Some(body),
        expects: RowKind::Unread,
    }
}

/// Lists the document records of a contractor.
pub open spec fn wire_list_document_uploads(
    contractor_id: String,
    db: DatabaseConfig,
    now: Seq<char>,
) -> RequestView {
    RequestView {
        method: HttpMethod::Get,
        url: db.database_url@ + "/rest/v1/contractor_document_uploads"@,
        query: no_pairs().push(("contractor_id"@, "eq."@ + contractor_id@)),
        headers: headers(db, false, None),
        body: None,
        expects: RowKind::Unread,
    }
}

fn render_list_document_uploads(
    contractor_id: &String,
    db: &DatabaseConfig,
    now: &str,
) -> (r: HttpRequest)
    ensures
        r@ == wire_list_document_uploads(*contractor_id, *db, now@),
{
    let mut url = db.database_url.clone();
    url.append("/rest/v1/contractor_document_uploads");
    let mut query: Vec<Pair> = empty_pairs();
    push_pair(&mut query, "contractor_id", String::from_str("eq.").concat(contractor_id.as_str()));
    let head = common_headers(db, false, None);
    HttpRequest {
        method: HttpMethod::Get,
        url,
        query,
        headers: head,
        body: None,
        expects: RowKind::Unread,
    }
}

/// Changes the given fields of a document record and stamps the update.
pub open spec fn wire_update_document_upload(
    document_id: String,
    stripe_file_id: Option<String>,
    stripe_upload_status: Option<String>,
    stripe_upload_error: Option<String>,
    verification_status: Option<String>,
    verification_notes: Option<String>,
    db: DatabaseConfig,
    now: Seq<char>,
) -> RequestView {
    let body = no_fields();
    let body = match stripe_file_id {
        Some(v) => body.push(("stripe_file_id"@, JsonView::Text(v@))),
        None => body,
    };
    let body = match stripe_upload_status {
        Some(v) => body.push(("stripe_upload_status"@, JsonView::Text(v@))),
        None => body,
    };
    let body = match stripe_upload_error {
        Some(v) => body.push(("stripe_upload_error"@, JsonView::Text(v@))),
        None => body,
    };
    let body = match verification_status {
        Some(v) => body.push(("verification_status"@, JsonView::Text(v@))),
        None => body,
    };
    let body = match verification_notes {
        Some(v) => body.push(("verification_notes"@, JsonView::Text(v@))),
        None => body,
    };
    let body = body.push(("updated_at"@, JsonView::Text(now)));
    RequestView {
        method: HttpMethod::Patch,
        url: db.database_url@ + "/rest/v1/contractor_document_uploads"@,
        query: no_pairs().push(("id"@, "eq."@ + document_id@)),
        headers: headers(db, true, Some("return=representation"@)),
        body: Some(body),
        expects: RowKind::Unread,
    }
}

fn render_update_document_upload(
    document_id: &String,
    stripe_file_id: &Option<String>,
    stripe_upload_status: &Option<String>,
    stripe_upload_error: &Option<String>,
    verification_status: &Option<String>,
    verification_notes: &Option<String>,
    db: &DatabaseConfig,
    now: &str,
) -> (r: HttpRequest)
    ensures
        r@ == wire_update_document_upload(
            *document_id,
            *stripe_file_id,
            *stripe_upload_status,
            *stripe_upload_error,
            *verification_status,
            *verification_notes,
            *db,
            now@,
        ),
{
    let mut url = db.database_url.clone();
    url.append("/rest/v1/contractor_document_uploads");
    let mut query: Vec<Pair> = empty_pairs();
    push_pair(&mut query, "id", String::from_str("eq.").concat(document_id.as_str()));
    let head = common_headers(db, true, Some("return=representation"));
    let mut body: Vec<Field> = empty_fields();
    match stripe_file_id {
        Some(v) => { push_field(&mut body, "stripe_file_id", JsonValue::Text(v.clone())); },
        None => {},
    }
    match stripe_upload_status {
        Some(v) => { push_field(&mut body, "stripe_upload_status", JsonValue::Text(v.clone())); },
        None => {},
    }
    match stripe_upload_error {
        Some(v) => { push_field(&mut body, "stripe_upload_error", JsonValue::Text(v.clone())); },
        None => {},
    }
    match verification_status {
        Some(v) => { push_field(&mut body, "verification_status", JsonValue::Text(v.clone())); },
        None => {},
    }
    match verification_notes {
        Some(v) => { push_field(&mut body, "verification_notes", JsonValue::Text(v.clone())); },
        None => {},
    }
    push_field(&mut body, "updated_at", JsonValue::Text(String::from_str(now)));
    HttpRequest {
        method: HttpMethod::Patch,
        url,
        query,
        headers: head,
        body: Some(body),
        expects: RowKind::Unread,
    }
}

/// Inserts a package price; with `merge_duplicates` a row that exists already
/// is merged, else the stored row is asked back.
pub open spec fn wire_insert_package_price(
    package_id: String,
    price_id: String,
    amount_cents: i64,
    currency: String,
    interval: Option<BillingInterval>,
    interval_count: Option<i64>,
    merge_duplicates: bool,
    db: DatabaseConfig,
    now: Seq<char>,
) -> RequestView {
    let body = no_fields();
    let body = body.push(("package_id"@, JsonView::Text(package_id@)));
    let body = body.push(("stripe_price_id"@, JsonView::Text(price_id@)));
    let body = body.push(("amount_cents"@, JsonView::Integer(amount_cents as int)));
    let body = body.push(("currency"@, JsonView::Text(currency@)));
    let body = body.push(("interval_type"@, JsonView::Text(interval_name(interval))));
    let body = match interval_count {
        Some(v) => body.push(("interval_count"@, JsonView::Integer(v as int))),
        None => body,
    };
    let body = body.push(("is_active"@, JsonView::Flag(true)));
    RequestView {
        method: HttpMethod::Post,
        url: db.database_url@ + "/rest/v1/package_prices"@,
        query: no_pairs(),
        headers: headers(
            db,
            true,
            Some(
                if merge_duplicates {
                    "resolution=merge-duplicates"@
                } else {
                    "return=representation"@
                },
            ),
        ),
        body: Some(body),
        expects: RowKind::Unread,
    }
}

fn render_insert_package_price(
    package_id: &String,
    price_id: &String,
    amount_cents: i64,
    currency: &String,
    interval: Option<BillingInterval>,
    interval_count: Option<i64>,
    merge_duplicates: bool,
    db: &DatabaseConfig,
    now: &str,
) -> (r: HttpRequest)
    ensures
        r@ == wire_insert_package_price(
            *package_id,
            *price_id,
            amount_cents,
            *currency,
            interval,
            interval_count,
            merge_duplicates,
            *db,
            now@,
        ),
{
    let mut url = db.database_url.clone();
    url.append("/rest/v1/package_prices");
    let query: Vec<Pair> = empty_pairs();
    let head = if merge_duplicates {
        common_headers(db, true, Some("resolution=merge-duplicates"))
    } else {
        common_headers(db, true, Some("return=representation"))
    };
    let mut body: Vec<Field> = empty_fields();
    push_field(&mut body, "package_id", JsonValue::Text(package_id.clone()));
    push_field(&mut body, "stripe_price_id", JsonValue::Text(price_id.clone()));
    push_field(&mut body, "amount_cents", JsonValue::Integer(amount_cents));
    push_field(&mut body, "currency", JsonValue::Text(currency.clone()));
    push_field(&mut body, "interval_type", JsonValue::Text(interval_text(interval)));
    match interval_count {
        Some(v) => {
            push_field(&mut body, "interval_count", JsonValue::Integer(v));
        },
        None => {},
    }
    push_field(&mut body, "is_active", JsonValue::Flag(true));
    HttpRequest {
        method: HttpMethod::Post,
        url,
        query,
        headers: head,
        body: Some(body),
        expects: RowKind::Unread,
    }
}

/// The request that carries out `op` against the backend at `db`, with `now`
/// as the time of the write where the operation stamps one.
pub open spec fn wire(op: StoreOp, db: DatabaseConfig, now: Seq<char>) -> RequestView {
    match op {
        StoreOp::FetchProfile { user_id, columns: ProfileColumns::Unspecified } => wire_fetch_profile(
            user_id,
            db,
            now,
        ),
        StoreOp::FetchProfile { user_id, columns: ProfileColumns::All } => wire_fetch_whole_profile(
            user_id,
            db,
            now,
        ),
        StoreOp::FetchProfile { user_id, columns: ProfileColumns::TokenTotals } => wire_fetch_token_totals(
            user_id,
            db,
            now,
        ),
        StoreOp::CreateProfile { user_id, full_name, avatar_url, onboarding_complete } => wire_create_profile(
            user_id,
            full_name,
            avatar_url,
            onboarding_complete,
            db,
            now,
        ),
        StoreOp::UpdateProfile {
            user_id,
            username,
            full_name,
            avatar_url,
            onboarding_complete,
        } => wire_update_profile(
            user_id,
            username,
            full_name,
            avatar_url,
            onboarding_complete,
            db,
            now,
        ),
        StoreOp::FindUsername { candidate } => wire_find_username(candidate, db, now),
        StoreOp::MirrorSubscription {
            user_id,
            customer_id,
            subscription_id,
            status,
            period_end,
        } => wire_mirror_subscription(
            user_id,
            customer_id,
            subscription_id,
            status,
            period_end,
            db,
            now,
        ),
        StoreOp::LinkCustomer { user_id, customer_id } => wire_link_customer(
            user_id,
            customer_id,
            db,
            now,
        ),
        StoreOp::MarkContractor { profile_id, contractor_id } => wire_mark_contractor(
            profile_id,
            contractor_id,
            db,
            now,
        ),
        StoreOp::ListPaymentMethods { user_id, ordered: false } => wire_list_payment_methods(
            user_id,
            db,
            now,
        ),
        StoreOp::ListPaymentMethods { user_id, ordered: true } => wire_list_payment_methods_ordered(
            user_id,
            db,
            now,
        ),
        StoreOp::InsertPaymentMethod {
            user_id,
            customer_id,
            payment_method_id,
            card_brand,
            card_last4,
            card_exp_month,
            card_exp_year,
            is_default,
        } => wire_insert_payment_method(
            user_id,
            customer_id,
            payment_method_id,
            card_brand,
            card_last4,
            card_exp_month,
            card_exp_year,
            is_default,
            db,
            now,
        ),
        StoreOp::UpdatePaymentMethod {
            payment_method_id,
            user_id,
            set_default,
            set_active,
        } => wire_update_payment_method(
            payment_method_id,
            user_id,
            set_default,
            set_active,
            db,
            now,
        ),
        StoreOp::DeletePaymentMethod { payment_method_id, user_id } => wire_delete_payment_method(
            payment_method_id,
            user_id,
            db,
            now,
        ),
        StoreOp::MarkPaymentMethodUsed { payment_method_id, user_id } => wire_mark_payment_method_used(
            payment_method_id,
            user_id,
            db,
            now,
        ),
        StoreOp::UnsetDefaultPaymentMethods { user_id } => wire_unset_default_payment_methods(
            user_id,
            db,
            now,
        ),
        StoreOp::FindPackage { product_id, select: PackageColumns::Id } => wire_find_package_id(
            product_id,
            db,
            now,
        ),
        StoreOp::FindPackage { product_id, select: PackageColumns::IdName } => wire_find_package_name(
            product_id,
            db,
            now,
        ),
        StoreOp::FindPackage { product_id, select: PackageColumns::IdNameProduct } => wire_find_package(
            product_id,
            db,
            now,
        ),
        StoreOp::CreateDefaultPackage { product_id } => wire_create_default_package(
            product_id,
            db,
            now,
        ),
        StoreOp::FindPackagePrice { price_id } => wire_find_package_price(price_id, db, now),
        StoreOp::InsertPurchase {
            user_id,
            payment_intent_id,
            price_id,
            product_id,
            package_id,
            package_price_id,
            amount_paid,
            currency,
            tokens_purchased,
        } => wire_insert_purchase(
            user_id,
            payment_intent_id,
            price_id,
            product_id,
            package_id,
            package_price_id,
            amount_paid,
            currency,
            tokens_purchased,
            db,
            now,
        ),
        StoreOp::ListPurchases { user_id } => wire_list_purchases(user_id, db, now),
        StoreOp::ListActivePlans => wire_list_active_plans(db, now),
        StoreOp::ListActivePlanPrices => wire_list_active_plan_prices(db, now),
        StoreOp::ListActivePackages => wire_list_active_packages(db, now),
        StoreOp::ListActivePackagePrices => wire_list_active_package_prices(db, now),
        StoreOp::ProbePurchases => wire_probe_purchases(db, now),
        StoreOp::ProbeProfiles => wire_probe_profiles(db, now),
        StoreOp::ProbeSchema => wire_probe_schema(db, now),
        StoreOp::InsertContractor {
            user_id,
            profile_id,
            contractor_type,
            connect_account_id,
            requirements_completed,
            business_name,
            business_tax_id,
        } => wire_insert_contractor(
            user_id,
            profile_id,
            contractor_type,
            connect_account_id,
            requirements_completed,
            business_name,
            business_tax_id,
            db,
            now,
        ),
        StoreOp::InsertContractorAddress {
            contractor_id,
            line1,
            line2,
            city,
            state,
            postal_code,
            country,
        } => wire_insert_contractor_address(
            contractor_id,
            line1,
            line2,
            city,
            state,
            postal_code,
            country,
            db,
            now,
        ),
        StoreOp::FetchContractor { user_id } => wire_fetch_contractor(user_id, db, now),
        StoreOp::SaveKycForm { user_id, kyc_json } => wire_save_kyc_form(
            user_id,
            kyc_json,
            db,
            now,
        ),
        StoreOp::LoadKycForm { user_id } => wire_load_kyc_form(user_id, db, now),
        StoreOp::InsertRepresentative {
            contractor_id,
            first_name,
            last_name,
            date_of_birth,
            email,
            phone_number,
            street_address,
            street_address_2,
            city,
            state_province,
            postal_code,
            country,
            title,
            is_authorized_signatory,
            national_id_number,
            national_id_type,
        } => wire_insert_representative(
            contractor_id,
            first_name,
            last_name,
            date_of_birth,
            email,
            phone_number,
            street_address,
            street_address_2,
            city,
            state_province,
            postal_code,
            country,
            title,
            is_authorized_signatory,
            national_id_number,
            national_id_type,
            db,
            now,
        ),
        StoreOp::ListRepresentatives { contractor_id } => wire_list_representatives(
            contractor_id,
            db,
            now,
        ),
        StoreOp::ListBeneficialOwners { contractor_id } => wire_list_beneficial_owners(
            contractor_id,
            db,
            now,
        ),
        StoreOp::InsertDocumentUpload {
            contractor_id,
            document_type,
            document_purpose,
            file_name,
            file_size,
            mime_type,
            stripe_file_id,
            local_file_path,
            file_hash,
            required_for_capability,
            requirement_id,
        } => wire_insert_document_upload(
            contractor_id,
            document_type,
            document_purpose,
            file_name,
            file_size,
            mime_type,
            stripe_file_id,
            local_file_path,
            file_hash,
            required_for_capability,
            requirement_id,
            db,
            now,
        ),
        StoreOp::ListDocumentUploads { contractor_id } => wire_list_document_uploads(
            contractor_id,
            db,
            now,
        ),
        StoreOp::UpdateDocumentUpload {
            document_id,
            stripe_file_id,
            stripe_upload_status,
            stripe_upload_error,
            verification_status,
            verification_notes,
        } => wire_update_document_upload(
            document_id,
            stripe_file_id,
            stripe_upload_status,
            stripe_upload_error,
            verification_status,
            verification_notes,
            db,
            now,
        ),
        StoreOp::InsertPackagePrice {
            package_id,
            price_id,
            amount_cents,
            currency,
            interval,
            interval_count,
            merge_duplicates,
        } => wire_insert_package_price(
            package_id,
            price_id,
            amount_cents,
            currency,
            interval,
            interval_count,
            merge_duplicates,
            db,
            now,
        ),
    }
}

/// Puts an operation on the wire.
pub fn render(op: &StoreOp, db: &DatabaseConfig, now: &str) -> (r: HttpRequest)
    ensures
        r@ == wire(*op, *db, now@),
{
    match op {
        StoreOp::FetchProfile { user_id, columns: ProfileColumns::Unspecified } => render_fetch_profile(
            user_id,
            db,
            now,
        ),
        StoreOp::FetchProfile { user_id, columns: ProfileColumns::All } => render_fetch_whole_profile(
            user_id,
            db,
            now,
        ),
        StoreOp::FetchProfile { user_id, columns: ProfileColumns::TokenTotals } => render_fetch_token_totals(
            user_id,
            db,
            now,
        ),
        StoreOp::CreateProfile { user_id, full_name, avatar_url, onboarding_complete } => render_create_profile(
            user_id,
            full_name,
            avatar_url,
            onboarding_complete,
            db,
            now,
        ),
        StoreOp::UpdateProfile {
            user_id,
            username,
            full_name,
            avatar_url,
            onboarding_complete,
        } => render_update_profile(
            user_id,
            username,
            full_name,
            avatar_url,
            onboarding_complete,
            db,
            now,
        ),
        StoreOp::FindUsername { candidate } => render_find_username(candidate, db, now),
        StoreOp::MirrorSubscription {
            user_id,
            customer_id,
            subscription_id,
            status,
            period_end,
        } => render_mirror_subscription(
            user_id,
            customer_id,
            subscription_id,
            status,
            *period_end,
            db,
            now,
        ),
        StoreOp::LinkCustomer { user_id, customer_id } => render_link_customer(
            user_id,
            customer_id,
            db,
            now,
        ),
        StoreOp::MarkContractor { profile_id, contractor_id } => render_mark_contractor(
            profile_id,
            contractor_id,
            db,
            now,
        ),
        StoreOp::ListPaymentMethods { user_id, ordered: false } => render_list_payment_methods(
            user_id,
            db,
            now,
        ),
        StoreOp::ListPaymentMethods { user_id, ordered: true } => render_list_payment_methods_ordered(
            user_id,
            db,
            now,
        ),
        StoreOp::InsertPaymentMethod {
            user_id,
            customer_id,
            payment_method_id,
            card_brand,
            card_last4,
            card_exp_month,
            card_exp_year,
            is_default,
        } => render_insert_payment_method(
            user_id,
            customer_id,
            payment_method_id,
            card_brand,
            card_last4,
            *card_exp_month,
            *card_exp_year,
            *is_default,
            db,
            now,
        ),
        StoreOp::UpdatePaymentMethod {
            payment_method_id,
            user_id,
            set_default,
            set_active,
        } => render_update_payment_method(
            payment_method_id,
            user_id,
            set_default,
            set_active,
            db,
            now,
        ),
        StoreOp::DeletePaymentMethod { payment_method_id, user_id } => render_delete_payment_method(
            payment_method_id,
            user_id,
            db,
            now,
        ),
        StoreOp::MarkPaymentMethodUsed { payment_method_id, user_id } => render_mark_payment_method_used(
            payment_method_id,
            user_id,
            db,
            now,
        ),
        StoreOp::UnsetDefaultPaymentMethods { user_id } => render_unset_default_payment_methods(
            user_id,
            db,
            now,
        ),
        StoreOp::FindPackage { product_id, select: PackageColumns::Id } => render_find_package_id(
            product_id,
            db,
            now,
        ),
        StoreOp::FindPackage { product_id, select: PackageColumns::IdName } => render_find_package_name(
            product_id,
            db,
            now,
        ),
        StoreOp::FindPackage { product_id, select: PackageColumns::IdNameProduct } => render_find_package(
            product_id,
            db,
            now,
        ),
        StoreOp::CreateDefaultPackage { product_id } => render_create_default_package(
            product_id,
            db,
            now,
        ),
        StoreOp::FindPackagePrice { price_id } => render_find_package_price(price_id, db, now),
        StoreOp::InsertPurchase {
            user_id,
            payment_intent_id,
            price_id,
            product_id,
            package_id,
            package_price_id,
            amount_paid,
            currency,
            tokens_purchased,
        } => render_insert_purchase(
            user_id,
            payment_intent_id,
            price_id,
            product_id,
            package_id,
            package_price_id,
            *amount_paid,
            currency,
            *tokens_purchased,
            db,
            now,
        ),
        StoreOp::ListPurchases { user_id } => render_list_purchases(user_id, db, now),
        StoreOp::ListActivePlans => render_list_active_plans(db, now),
        StoreOp::ListActivePlanPrices => render_list_active_plan_prices(db, now),
        StoreOp::ListActivePackages => render_list_active_packages(db, now),
        StoreOp::ListActivePackagePrices => render_list_active_package_prices(db, now),
        StoreOp::ProbePurchases => render_probe_purchases(db, now),
        StoreOp::ProbeProfiles => render_probe_profiles(db, now),
        StoreOp::ProbeSchema => render_probe_schema(db, now),
        StoreOp::InsertContractor {
            user_id,
            profile_id,
            contractor_type,
            connect_account_id,
            requirements_completed,
            business_name,
            business_tax_id,
        } => render_insert_contractor(
            user_id,
            profile_id,
            contractor_type,
            connect_account_id,
            *requirements_completed,
            business_name,
            business_tax_id,
            db,
            now,
        ),
        StoreOp::InsertContractorAddress {
            contractor_id,
            line1,
            line2,
            city,
            state,
            postal_code,
            country,
        } => render_insert_contractor_address(
            contractor_id,
            line1,
            line2,
            city,
            state,
            postal_code,
            country,
            db,
            now,
        ),
        StoreOp::FetchContractor { user_id } => render_fetch_contractor(user_id, db, now),
        StoreOp::SaveKycForm { user_id, kyc_json } => render_save_kyc_form(
            user_id,
            kyc_json,
            db,
            now,
        ),
        StoreOp::LoadKycForm { user_id } => render_load_kyc_form(user_id, db, now),
        StoreOp::InsertRepresentative {
            contractor_id,
            first_name,
            last_name,
            date_of_birth,
            email,
            phone_number,
            street_address,
            street_address_2,
            city,
            state_province,
            postal_code,
            country,
            title,
            is_authorized_signatory,
            national_id_number,
            national_id_type,
        } => render_insert_representative(
            contractor_id,
            first_name,
            last_name,
            date_of_birth,
            email,
            phone_number,
            street_address,
            street_address_2,
            city,
            state_province,
            postal_code,
            country,
            title,
            *is_authorized_signatory,
            national_id_number,
            national_id_type,
            db,
            now,
        ),
        StoreOp::ListRepresentatives { contractor_id } => render_list_representatives(
            contractor_id,
            db,
            now,
        ),
        StoreOp::ListBeneficialOwners { contractor_id } => render_list_beneficial_owners(
            contractor_id,
            db,
            now,
        ),
        StoreOp::InsertDocumentUpload {
            contractor_id,
            document_type,
            document_purpose,
            file_name,
            file_size,
            mime_type,
            stripe_file_id,
            local_file_path,
            file_hash,
            required_for_capability,
            requirement_id,
        } => render_insert_document_upload(
            contractor_id,
            document_type,
            document_purpose,
            file_name,
            file_size,
            mime_type,
            stripe_file_id,
            local_file_path,
            file_hash,
            required_for_capability,
            requirement_id,
            db,
            now,
        ),
        StoreOp::ListDocumentUploads { contractor_id } => render_list_document_uploads(
            contractor_id,
            db,
            now,
        ),
        StoreOp::UpdateDocumentUpload {
            document_id,
            stripe_file_id,
            stripe_upload_status,
            stripe_upload_error,
            verification_status,
            verification_notes,
        } => render_update_document_upload(
            document_id,
            stripe_file_id,
            stripe_upload_status,
            stripe_upload_error,
            verification_status,
            verification_notes,
            db,
            now,
        ),
        StoreOp::InsertPackagePrice {
            package_id,
            price_id,
            amount_cents,
            currency,
            interval,
            interval_count,
            merge_duplicates,
        } => render_insert_package_price(
            package_id,
            price_id,
            *amount_cents,
            currency,
            *interval,
            *interval_count,
            *merge_duplicates,
            db,
            now,
        ),
    }
}

/// The current time as an RFC 3339 text, from `chrono::Utc::now`. Nothing is
/// claimed of the text: it differs from call to call.
#[verifier::external_body]
fn timestamp_now() -> (now: String) {
    chrono::Utc::now().to_rfc3339()
}

/// Puts an operation on the wire, stamped with the current time. The time
/// that was used is handed back beside the request.
pub fn render_now(op: &StoreOp, db: &DatabaseConfig) -> (r: (HttpRequest, String))
    ensures
        r.0@ == wire(*op, *db, r.1@),
{
    let now = timestamp_now();
    let request = render(op, db, now.as_str());
    (request, now)
}

} // verus!
