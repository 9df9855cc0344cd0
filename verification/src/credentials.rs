//! Processor credentials: the value set at run time wins, the value fixed at
//! build time is the fallback, and an empty value counts as none.

use vstd::prelude::*;
use vstd::string::*;
use crate::failure::{ErrorKind, Failure, Step};

verus! {

/// Name of the processor's secret key.
pub open spec fn secret_key_name() -> Seq<char> {
    "STRIPE_SECRET_KEY"@
}

/// Name of the processor's publishable key.
pub open spec fn publishable_key_name() -> Seq<char> {
    "STRIPE_PUBLISHABLE_KEY"@
}

/// The value that a variable resolves to, if it has one.
pub open spec fn resolved(runtime: Option<String>, build_time: Option<String>) -> Option<String> {
    match runtime {
        Some(v) if v@.len() > 0 => Some(v),
        _ => match build_time {
            Some(v) if v@.len() > 0 => Some(v),
            _ => None,
        },
    }
}

/// Resolves a variable from its run-time and its build-time value. The
/// failure names the variable.
pub fn get_env_var(name: &str, runtime: Option<String>, build_time: Option<String>) -> (r: Result<
    String,
    Failure,
>)
    ensures
        match resolved(runtime, build_time) {
            Some(v) => r == Ok::<String, Failure>(v),
            None => r matches Err(f) && f.is(
                ErrorKind::ConfigurationError,
                Step::Credentials,
                None,
                name@,
            ),
        },
{
    match runtime {
        Some(v) => {
            if !v.as_str().is_empty() {
                return Ok(v);
            }
        },
        None => {},
    }
    match build_time {
        Some(v) => {
            if !v.as_str().is_empty() {
                return Ok(v);
            }
        },
        None => {},
    }
    Err(Failure::reported(ErrorKind::ConfigurationError, Step::Credentials, String::from_str(name)))
}

/// The secret key with which the processor's client is made.
pub fn get_stripe_client(runtime: Option<String>, build_time: Option<String>) -> (r: Result<
    String,
    Failure,
>)
    ensures
        match resolved(runtime, build_time) {
            Some(v) => r == Ok::<String, Failure>(v),
            None => r matches Err(f) && f.is(
                ErrorKind::ConfigurationError,
                Step::Credentials,
                None,
                secret_key_name(),
            ),
        },
{
    get_env_var("STRIPE_SECRET_KEY", runtime, build_time)
}

/// The publishable key, which payment-method operations need.
pub fn get_stripe_publishable_key_only(runtime: Option<String>, build_time: Option<String>) -> (r:
    Result<String, Failure>)
    ensures
        match resolved(runtime, build_time) {
            Some(v) => r == Ok::<String, Failure>(v),
            None => r matches Err(f) && f.is(
                ErrorKind::ConfigurationError,
                Step::Credentials,
                None,
                publishable_key_name(),
            ),
        },
{
    get_env_var("STRIPE_PUBLISHABLE_KEY", runtime, build_time)
}

/// The publishable key, as handed to the user interface.
pub fn get_stripe_publishable_key(runtime: Option<String>, build_time: Option<String>) -> (r:
    Result<String, Failure>)
    ensures
        match resolved(runtime, build_time) {
            Some(v) => r == Ok::<String, Failure>(v),
            None => r matches Err(f) && f.is(
                ErrorKind::ConfigurationError,
                Step::Credentials,
                None,
                publishable_key_name(),
            ),
        },
{
    get_stripe_publishable_key_only(runtime, build_time)
}

/// A variable counts as present at start-up when it is set at run time,
/// even to nothing, or has a build-time value that is not empty.
pub open spec fn present(runtime: Option<String>, build_time: Option<String>) -> bool {
    runtime is Some || (build_time matches Some(v) && v@.len() > 0)
}

/// Computes `present`.
pub fn is_present(runtime: &Option<String>, build_time: &Option<String>) -> (r: bool)
    ensures
        r == present(*runtime, *build_time),
{
    match runtime {
        Some(_) => true,
        None => match build_time {
            Some(v) => !v.as_str().is_empty(),
            None => false,
        },
    }
}

/// The names of the processor variables that are missing at start-up, the
/// secret key first.
pub fn validate_stripe_environment(secret_present: bool, publishable_present: bool) -> (missing:
    Vec<String>)
    ensures
        missing@.len() == (if secret_present {
            0nat
        } else {
            1nat
        }) + (if publishable_present {
            0nat
        } else {
            1nat
        }),
        !secret_present ==> missing@[0]@ == secret_key_name(),
        !publishable_present ==> missing@[missing@.len() - 1]@ == publishable_key_name(),
{
    let mut missing: Vec<String> = Vec::new();
    if !secret_present {
        missing.push(String::from_str("STRIPE_SECRET_KEY"));
    }
    if !publishable_present {
        missing.push(String::from_str("STRIPE_PUBLISHABLE_KEY"));
    }
    missing
}

} // verus!
