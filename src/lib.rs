//! Daily check-in streaks and device supervision.
//!
//! The library holds the decision logic of a check-in application: how a
//! streak continues or resets from one calendar day to the next, and the
//! request / accept / reject / cancel protocol through which one device comes
//! to supervise another.
pub mod calendar;
pub mod models;
pub mod streak;
pub mod identity;
pub mod ledger;
pub mod view;
pub mod services;
pub mod storage;
pub mod remote_models;
pub mod api;
