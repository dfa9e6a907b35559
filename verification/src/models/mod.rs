//! The records the library keeps.

pub mod address;
pub mod customer;
pub mod expense;
pub mod expense_request;
pub mod field_set;
pub mod invoice;
pub mod organisation;
