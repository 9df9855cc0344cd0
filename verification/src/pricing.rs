//! Token grants for one-time purchases.

use vstd::prelude::*;

verus! {

/// Tokens granted when no catalog row names a token amount and the amount paid
/// is not one of the listed price points.
pub const DEFAULT_TOKEN_GRANT: i64 = 100;

/// The fixed price-to-token table, keyed by the amount paid in minor currency
/// units. Amounts outside the table grant `DEFAULT_TOKEN_GRANT`.
pub open spec fn token_grant(price_cents: int) -> int {
    if price_cents == 149 {
        100
    } else if price_cents == 749 {
        500
    } else if price_cents == 1499 {
        1000
    } else if price_cents == 3099 {
        5000
    } else if price_cents == 6299 {
        25000
    } else if price_cents == 15999 {
        100000
    } else {
        DEFAULT_TOKEN_GRANT as int
    }
}

/// Looks the amount paid up in the price-to-token table.
pub fn get_token_amount_from_price(price_cents: i64) -> (tokens: i64)
    ensures
        tokens == token_grant(price_cents as int),
{
    match price_cents {
        149 => 100,
        749 => 500,
        1499 => 1000,
        3099 => 5000,
        6299 => 25000,
        15999 => 100000,
        _ => DEFAULT_TOKEN_GRANT,
    }
}

/// Every grant is one of the seven listed amounts, and never below the default.
pub proof fn token_grant_is_listed(price_cents: int)
    ensures
        token_grant(price_cents) >= DEFAULT_TOKEN_GRANT,
        token_grant(price_cents) == 100 || token_grant(price_cents) == 500 || token_grant(
            price_cents,
        ) == 1000 || token_grant(price_cents) == 5000 || token_grant(price_cents) == 25000
            || token_grant(price_cents) == 100000,
{
}

} // verus!
