//! The back office of an internet service provider: customers,
//! subscriptions, contracts, invoices and payments, with the rules that tie
//! them together (a contract's period, an invoice's place within its contract,
//! a payment's date and the amount still owed), over a store whose invariants
//! are proved.

use vstd::prelude::*;

pub mod checks;
pub mod config;
pub mod contract;
pub mod customer;
pub mod error;
pub mod invoice;
pub mod laws;
pub mod payment;
pub mod rules;
pub mod store;
pub mod subscription;
pub mod table;
pub mod time;

verus! {

} // verus!
