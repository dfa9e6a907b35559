//! The rules that stand between a request and the store.

pub mod customer_service;
pub mod expense_service;
pub mod organisation_service;
