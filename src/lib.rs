//! A ledger of accounts owned by users and of the deposits and withdrawals
//! that change their balances, with per-client admission control.
//!
//! The balance rule and the deposit/withdrawal protocol live in `ledger`, exact
//! amounts in `money`, the request limiter in `rate_limit`, and bearer
//! credentials in `auth`. A store and an HTTP layer drive these from outside.
use vstd::prelude::*;

pub mod auth;
pub mod error;
pub mod ledger;
pub mod models;
pub mod money;
pub mod query;
pub mod rate_limit;

verus! {

} // verus!
