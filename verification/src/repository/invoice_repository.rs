//! The store of invoices, as far as it is a matter of rules.

use crate::models::invoice::Invoice;
use crate::repository::store_key::{is_store_key, key_named_by, store_key};
use vstd::prelude::*;

verus! {

/// `invoice` under `key`, whatever key it came with.
pub fn invoice_with_key(key: mongodb::bson::oid::ObjectId, invoice: Invoice) -> (updated: Invoice)
    ensures
        updated == (Invoice { id: Some(key), ..invoice }),
{
    let mut updated = invoice;
    updated.id = Some(key);
    updated
}

/// The invoice to put in place of the one stored under `id`: `invoice` with
/// the key that `id` names, whatever key it came with. A text that is not
/// written as a key names no invoice.
pub fn invoice_for_update(id: &str, invoice: Invoice) -> (r: Option<Invoice>)
    ensures
        r is Some <==> is_store_key(id@),
        r matches Some(updated) ==> updated == (Invoice {
            id: Some(key_named_by(id@)),
            ..invoice
        }),
{
    match store_key(id) {
        Some(key) => Some(invoice_with_key(key, invoice)),
        None => None,
    }
}

} // verus!
