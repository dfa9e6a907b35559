//! Record keeping for finance operations: expense reports with their
//! lifecycle, partial updates, receipt ingestion and statistics, and the
//! plain records of customers, organisations and invoices.
//!
//! The library decides and computes; it reads no request and touches no
//! store. Its caller hands it what was read and does what it answers.
//!
//! - `models` holds the records, the rules that a record must meet, the
//!   lifecycle of an expense report and the merge of a sparse change.
//! - `handlers` reads a multipart form, says what the form means, and plans
//!   the answer to a request.
//! - `services` prepares what is to be stored and computes the statistics.
//! - `repository` knows the keys of the store, the pages of a listing and
//!   the fields that an update sets.
//! - `receipt_store` draws the keys under which receipts are kept.
//!
//! Monetary amounts are integers, in hundredths of the unit of their
//! currency. Points in time are milliseconds since the Unix epoch. An
//! operation that stamps a record with the time comes in two forms: one
//! that takes the time, its name ending in `_at`, and one that reads the
//! clock.
//!
//! Each record has a view, written `@`, that holds its content as
//! mathematical values; the contracts speak of views.

pub mod clock;
pub mod error;
pub mod handlers;
pub mod models;
pub mod receipt_store;
pub mod repository;
pub mod services;
pub mod text;
