//! Reading the relational backend's JSON answers where no typed row exists:
//! catalog lookups and the profile's token totals. Parsing is `serde_json`'s;
//! what the workflows read of a parsed answer is held in plain rows.

use vstd::prelude::*;

verus! {

#[verifier::external_type_specification]
#[verifier::external_body]
pub struct ExJsonError(serde_json::Error);

/// The columns of a catalog row that the workflows read. A column that is
/// absent, null or of another JSON type is `None`.
#[derive(Debug, Clone, PartialEq, Eq)]
pub struct CatalogRow {
    pub id: Option<String>,
    pub name: Option<String>,
    pub token_amount: Option<i64>,
}

/// The token counters of a profile row. A counter that is absent, null or not
/// an integer is `None`.
#[derive(Debug, Clone, Copy, PartialEq, Eq, Structural)]
pub struct BalanceRow {
    pub tokens_remaining: Option<i64>,
    pub total_tokens: Option<i64>,
    pub total_purchases: Option<i64>,
}

/// What reading a JSON answer as a list of rows came to.
#[derive(Debug, Clone, PartialEq, Eq)]
pub enum Decoded<T> {
    /// The text is not JSON; `detail` is the parser's message.
    Invalid { detail: String },
    /// The text is JSON, but not an array.
    NotAList,
    Rows(Vec<T>),
}

/// Text of an optional string.
pub open spec fn text_of(s: Option<String>) -> Option<Seq<char>> {
    match s {
        Some(t) => Some(t@),
        None => None,
    }
}

/// A catalog row as plain values: id, name, token amount.
pub open spec fn catalog_row_view(
    row: CatalogRow,
) -> (Option<Seq<char>>, Option<Seq<char>>, Option<i64>) {
    (text_of(row.id), text_of(row.name), row.token_amount)
}

/// Catalog rows as plain values.
pub open spec fn catalog_rows_view(rows: Seq<CatalogRow>) -> Seq<(
    Option<Seq<char>>,
    Option<Seq<char>>,
    Option<i64>,
)> {
    Seq::new(rows.len(), |i: int| catalog_row_view(rows[i]))
}

/// A balance row as plain values: remaining, total, purchases.
pub open spec fn balance_row_view(row: BalanceRow) -> (Option<i64>, Option<i64>, Option<i64>) {
    (row.tokens_remaining, row.total_tokens, row.total_purchases)
}

/// Balance rows as plain values.
pub open spec fn balance_rows_view(rows: Seq<BalanceRow>) -> Seq<(
    Option<i64>,
    Option<i64>,
    Option<i64>,
)> {
    Seq::new(rows.len(), |i: int| balance_row_view(rows[i]))
}

/// What `serde_json` makes of `text` read as catalog rows: `None` where the
/// text is not JSON, `Some(None)` where it is JSON but no array, else for each
/// element its `id` and `name` where they are strings and its `token_amount`
/// where it is an integer that fits `i64`.
pub uninterp spec fn catalog_rows(text: Seq<char>) -> Option<Option<Seq<(Option<Seq<char>>, Option<Seq<char>>, Option<i64>)>>>;

/// What `serde_json` makes of `text` read as balance rows: as `catalog_rows`,
/// with the integer columns `tokens_remaining`, `total_tokens` and
/// `total_purchases`.
pub uninterp spec fn balance_rows(text: Seq<char>) -> Option<Option<Seq<(Option<i64>, Option<i64>, Option<i64>)>>>;

/// What `serde_json` prints for `text` parsed as a JSON value: `None` where
/// the text is not JSON, else its compact rendering.
pub uninterp spec fn json_reprint(text: Seq<char>) -> Option<Seq<char>>;

/// What a parse of catalog rows came to, in the shape of `catalog_rows`.
pub open spec fn parsed_catalog_view(
    r: Result<Option<Vec<CatalogRow>>, serde_json::Error>,
) -> Option<Option<Seq<(Option<Seq<char>>, Option<Seq<char>>, Option<i64>)>>> {
    match r {
        Err(_) => None,
        Ok(None) => Some(None),
        Ok(Some(rows)) => Some(Some(catalog_rows_view(rows@))),
    }
}

/// What a parse of balance rows came to, in the shape of `balance_rows`.
pub open spec fn parsed_balance_view(
    r: Result<Option<Vec<BalanceRow>>, serde_json::Error>,
) -> Option<Option<Seq<(Option<i64>, Option<i64>, Option<i64>)>>> {
    match r {
        Err(_) => None,
        Ok(None) => Some(None),
        Ok(Some(rows)) => Some(Some(balance_rows_view(rows@))),
    }
}

/// What a reprint came to, in the shape of `json_reprint`.
pub open spec fn reprinted_view(r: Result<String, serde_json::Error>) -> Option<Seq<char>> {
    match r {
        Err(_) => None,
        Ok(s) => Some(s@),
    }
}

/// Calls `serde_json::from_str` for a `serde_json::Value`, then `as_array`,
/// and for each element indexes `id`, `name` (`as_str`) and `token_amount`
/// (`as_i64`). The contract only names the result: the same text always reads
/// the same way.
#[verifier::external_body]
fn parse_catalog(text: &str) -> (r: Result<Option<Vec<CatalogRow>>, serde_json::Error>)
    ensures
        parsed_catalog_view(r) == catalog_rows(text@),
{
    let value: serde_json::Value = serde_json::from_str(text)?;
    Ok(value.as_array().map(|rows| rows.iter().map(|row| CatalogRow {
        id: row["id"].as_str().map(String::from),
        name: row["name"].as_str().map(String::from),
        token_amount: row["token_amount"].as_i64(),
    }).collect()))
}

/// Calls `serde_json::from_str` for a `serde_json::Value`, then `as_array`,
/// and for each element indexes the three counters with `as_i64`. The
/// contract only names the result.
#[verifier::external_body]
fn parse_balance(text: &str) -> (r: Result<Option<Vec<BalanceRow>>, serde_json::Error>)
    ensures
        parsed_balance_view(r) == balance_rows(text@),
{
    let value: serde_json::Value = serde_json::from_str(text)?;
    Ok(value.as_array().map(|rows| rows.iter().map(|row| BalanceRow {
        tokens_remaining: row["tokens_remaining"].as_i64(),
        total_tokens: row["total_tokens"].as_i64(),
        total_purchases: row["total_purchases"].as_i64(),
    }).collect()))
}

/// Calls `serde_json::from_str` for a `serde_json::Value` and prints the value
/// with its `Display` impl. The contract only names the result.
#[verifier::external_body]
fn parse_and_print(text: &str) -> (r: Result<String, serde_json::Error>)
    ensures
        reprinted_view(r) == json_reprint(text@),
{
    let value: serde_json::Value = serde_json::from_str(text)?;
    Ok(value.to_string())
}

/// The message of a `serde_json::Error`, as its `Display` impl prints it.
/// Nothing is claimed of the text.
#[verifier::external_body]
fn describe(error: &serde_json::Error) -> (message: String) {
    error.to_string()
}

/// A decoding of catalog rows as plain values, in the shape of `catalog_rows`.
pub open spec fn decoded_catalog_view(d: Decoded<CatalogRow>) -> Option<Option<Seq<(
    Option<Seq<char>>,
    Option<Seq<char>>,
    Option<i64>,
)>>> {
    match d {
        Decoded::Invalid { .. } => None,
        Decoded::NotAList => Some(None),
        Decoded::Rows(rows) => Some(Some(catalog_rows_view(rows@))),
    }
}

/// A decoding of balance rows as plain values, in the shape of `balance_rows`.
pub open spec fn decoded_balance_view(d: Decoded<BalanceRow>) -> Option<Option<Seq<(
    Option<i64>,
    Option<i64>,
    Option<i64>,
)>>> {
    match d {
        Decoded::Invalid { .. } => None,
        Decoded::NotAList => Some(None),
        Decoded::Rows(rows) => Some(Some(balance_rows_view(rows@))),
    }
}

/// Reads an answer body as catalog rows.
pub fn read_catalog(text: &str) -> (r: Decoded<CatalogRow>)
    ensures
        decoded_catalog_view(r) == catalog_rows(text@),
{
    match parse_catalog(text) {
        Err(e) => Decoded::Invalid { detail: describe(&e) },
        Ok(None) => Decoded::NotAList,
        Ok(Some(rows)) => Decoded::Rows(rows),
    }
}

/// Reads an answer body as balance rows.
pub fn read_balance(text: &str) -> (r: Decoded<BalanceRow>)
    ensures
        decoded_balance_view(r) == balance_rows(text@),
{
    match parse_balance(text) {
        Err(e) => Decoded::Invalid { detail: describe(&e) },
        Ok(None) => Decoded::NotAList,
        Ok(Some(rows)) => Decoded::Rows(rows),
    }
}

/// A reprint outcome as plain values, in the shape of `json_reprint`.
pub open spec fn printed_view(r: Result<String, String>) -> Option<Seq<char>> {
    match r {
        Err(_) => None,
        Ok(s) => Some(s@),
    }
}

/// Parses an answer body and prints it back in compact form; the parser's
/// message where the body is not JSON.
pub fn reprint(text: &str) -> (r: Result<String, String>)
    ensures
        printed_view(r) == json_reprint(text@),
{
    match parse_and_print(text) {
        Err(e) => Err(describe(&e)),
        Ok(s) => Ok(s),
    }
}

} // verus!
