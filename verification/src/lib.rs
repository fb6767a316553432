//! Decision logic of an account-token checker: translating upstream replies
//! into typed outcomes, folding the auxiliary calls of one credential into a
//! single record, and steering the bounded retry loop around them.

pub mod api;
pub mod checker;
pub mod report;
pub mod collect;
pub mod runner;
pub mod utils;
