//! What is decided at the boundary to the clients: how a request is read,
//! what it means, and which queries answer it.

pub mod customer_handler;
pub mod expense_form;
pub mod expense_handler;
pub mod form_reader;
