//! Operations on profiles and purchases that need a session.

use vstd::prelude::*;
use crate::failure::{ErrorKind, Failure, Step};
use crate::remote::{ProfileColumns, StoreOp};

verus! {

/// The outcome of asking for an operation that needs a session: the
/// operation where there is one, `AuthenticationRequired` where there is none.
pub open spec fn guards(op: StoreOp, has_session: bool, r: Result<StoreOp, Failure>) -> bool {
    if has_session {
        r == Ok::<StoreOp, Failure>(op)
    } else {
        r matches Err(f) && f.is(
            ErrorKind::AuthenticationRequired,
            Step::Session,
            None,
            Seq::empty(),
        )
    }
}

/// Hands an operation out only where there is a session.
pub fn guarded(op: StoreOp, has_session: bool) -> (r: Result<StoreOp, Failure>)
    ensures
        guards(op, has_session, r),
{
    if has_session {
        Ok(op)
    } else {
        Err(Failure::rule(ErrorKind::AuthenticationRequired, Step::Session))
    }
}

/// The operation that reads a user's profile.
pub fn get_user_profile(user_id: String, has_session: bool) -> (r: Result<StoreOp, Failure>)
    ensures
        guards(StoreOp::FetchProfile { user_id, columns: ProfileColumns::All }, has_session, r),
{
    guarded(StoreOp::FetchProfile { user_id, columns: ProfileColumns::All }, has_session)
}

/// The operation that changes the given fields of a user's profile.
pub fn update_user_profile(
    user_id: String,
    username: Option<String>,
    full_name: Option<String>,
    avatar_url: Option<String>,
    onboarding_complete: Option<bool>,
    has_session: bool,
) -> (r: Result<StoreOp, Failure>)
    ensures
        guards(
            StoreOp::UpdateProfile {
                user_id,
                username,
                full_name,
                avatar_url,
                onboarding_complete,
            },
            has_session,
            r,
        ),
{
    guarded(
        StoreOp::UpdateProfile { user_id, username, full_name, avatar_url, onboarding_complete },
        has_session,
    )
}

/// The operation that creates a user's profile.
pub fn create_user_profile(
    user_id: String,
    full_name: Option<String>,
    avatar_url: Option<String>,
    onboarding_complete: Option<bool>,
    has_session: bool,
) -> (r: Result<StoreOp, Failure>)
    ensures
        guards(
            StoreOp::CreateProfile { user_id, full_name, avatar_url, onboarding_complete },
            has_session,
            r,
        ),
{
    guarded(
        StoreOp::CreateProfile { user_id, full_name, avatar_url, onboarding_complete },
        has_session,
    )
}

/// The operation that looks for profiles with a user name; the name is free
/// where the answer has no rows.
pub fn check_username_availability(username: String, has_session: bool) -> (r: Result<
    StoreOp,
    Failure,
>)
    ensures
        guards(StoreOp::FindUsername { candidate: username }, has_session, r),
{
    guarded(StoreOp::FindUsername { candidate: username }, has_session)
}

/// The operation that overwrites the subscription mirror on a profile.
pub fn update_subscription_status(
    user_id: String,
    stripe_customer_id: String,
    subscription_id: String,
    subscription_status: String,
    subscription_period_end: i64,
) -> (op: StoreOp)
    ensures
        op == (StoreOp::MirrorSubscription {
            user_id,
            customer_id: stripe_customer_id,
            subscription_id,
            status: subscription_status,
            period_end: subscription_period_end,
        }),
{
    StoreOp::MirrorSubscription {
        user_id,
        customer_id: stripe_customer_id,
        subscription_id,
        status: subscription_status,
        period_end: subscription_period_end,
    }
}

/// The operation that lists a user's completed purchases.
pub fn get_user_purchases(user_id: String, has_session: bool) -> (r: Result<StoreOp, Failure>)
    ensures
        guards(StoreOp::ListPurchases { user_id }, has_session, r),
{
    guarded(StoreOp::ListPurchases { user_id }, has_session)
}

/// The two probes that show whether the purchases table answers and which
/// token columns a profile has.
pub fn debug_database_schema() -> (r: (StoreOp, StoreOp))
    ensures
        r.0 == StoreOp::ProbePurchases,
        r.1 == StoreOp::ProbeProfiles,
{
    (StoreOp::ProbePurchases, StoreOp::ProbeProfiles)
}

} // verus!
