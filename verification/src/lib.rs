//! Decision core of a payments backend: which request goes to the payment
//! processor or to the relational backend next, and what each answer means.
//! No request is sent from here: callers carry out the actions that the
//! workflows ask for and hand the outcomes back. What is taken from outside
//! is little: SHA-256 and hexadecimal rendering, random salts, the clock for
//! time stamps, lower-casing, and the reading of JSON.

pub mod auth;
pub mod billing;
pub mod catalog;
pub mod catalog_sync;
pub mod charges;
pub mod contractors;
pub mod credentials;
pub mod digest;
pub mod failure;
pub mod json;
pub mod ledger;
pub mod lexical;
pub mod migrations;
pub mod payment_methods;
pub mod pricing;
pub mod processor;
pub mod profiles;
pub mod purchases;
pub mod records;
pub mod registration;
pub mod remote;
pub mod repair;
pub mod rows;
pub mod session;
pub mod stores;
pub mod subscriptions;
pub mod text;
pub mod wire;
