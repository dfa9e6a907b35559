//! What is decided on the way to the document store: which key a text
//! names, which window of a listing a page is, and which fields an update
//! sets.

pub mod expense_repository;
pub mod invoice_repository;
pub mod store_key;
