//! The store of expense reports, as far as it is a matter of rules: keys,
//! pages and the fields that an update sets.

use crate::error::{ExpenseError, ValidationError};
use crate::models::expense::ExpenseView;
use crate::models::expense_request::{UpdateExpenseRequest, UpdateExpenseRequestView};
use crate::models::field_set::{field_if, push_if};
use crate::repository::store_key::{is_store_key, key_named_by, store_key};
use vstd::prelude::*;

verus! {

/// The key under which to look for the report that `id` names. A text that
/// is not written as a key names no report.
pub fn expense_key(id: &str) -> (r: Result<mongodb::bson::oid::ObjectId, ExpenseError>)
    ensures
        r is Ok <==> is_store_key(id@),
        r matches Ok(key) ==> key == key_named_by(id@),
        r matches Err(e) ==> e == ExpenseError::NotFound,
{
    match store_key(id) {
        Some(key) => Ok(key),
        None => Err(ExpenseError::NotFound),
    }
}

/// Which part of a listing to fetch.
#[derive(Debug, Clone, Copy, PartialEq, Eq, Structural)]
pub enum PageWindow {
    /// The whole listing.
    Whole,
    /// The records after the first `skip`, up to `limit` of them.
    Window { skip: u64, limit: i64 },
}

/// The window that page `page` of size `limit` is, counting pages from one:
/// the whole listing unless both are given; else the records after the
/// pages before this one.
pub open spec fn window_of(page: Option<u64>, limit: Option<i64>) -> Option<PageWindow> {
    match (page, limit) {
        (Some(page), Some(limit)) => {
            if page <= 1 {
                Some(PageWindow::Window { skip: 0, limit })
            } else if limit >= 0 && (page - 1) * limit <= u64::MAX {
                Some(PageWindow::Window { skip: ((page - 1) * limit) as u64, limit })
            } else {
                None
            }
        },
        _ => Some(PageWindow::Whole),
    }
}

/// The window of a listing that a request asks for. A page after the first
/// needs a size that is not negative, and a number of records to skip that
/// the machine can hold; else the request is refused as malformed.
pub fn page_window(page: Option<u64>, limit: Option<i64>) -> (r: Result<PageWindow, ExpenseError>)
    ensures
        match r {
            Ok(window) => window_of(page, limit) == Some(window),
            Err(e) => {
                &&& window_of(page, limit) is None
                &&& e == ExpenseError::Validation(ValidationError::InvalidPage)
            },
        },
{
    match (page, limit) {
        (Some(page), Some(limit)) => {
            if page <= 1 {
                Ok(PageWindow::Window { skip: 0, limit })
            } else if limit < 0 {
                Err(ExpenseError::Validation(ValidationError::InvalidPage))
            } else {
                match (page - 1).checked_mul(limit as u64) {
                    Some(skip) => Ok(PageWindow::Window { skip, limit }),
                    None => Err(ExpenseError::Validation(ValidationError::InvalidPage)),
                }
            }
        },
        _ => Ok(PageWindow::Whole),
    }
}

/// A field of a stored report that an update may set.
#[derive(Debug, Clone, Copy, PartialEq, Eq, Structural)]
pub enum ExpenseField {
    Title,
    Project,
    Items,
    TotalAmount,
    TotalTax,
    Notes,
    Department,
    UpdatedAt,
}

/// The fields that an update with `request` sets in the store, in a fixed
/// order: each field that the request sends, both totals, and the time of
/// the last change. The state and the audit trail are not among them,
/// whatever the request holds.
pub open spec fn fields_to_set(request: UpdateExpenseRequestView) -> Seq<ExpenseField> {
    field_if(request.expense_title is Some, ExpenseField::Title) + field_if(
        request.project_cost_center is Some,
        ExpenseField::Project,
    ) + field_if(request.items is Some, ExpenseField::Items) + seq![
        ExpenseField::TotalAmount,
        ExpenseField::TotalTax,
    ] + field_if(request.notes is Some, ExpenseField::Notes) + field_if(
        request.department is Some,
        ExpenseField::Department,
    ) + seq![ExpenseField::UpdatedAt]
}

/// The fields that an update with `request` sets in the store.
pub fn update_fields(request: &UpdateExpenseRequest) -> (fields: Vec<ExpenseField>)
    ensures
        fields@ == fields_to_set(request@),
{
    let mut fields: Vec<ExpenseField> = Vec::new();
    push_if(&mut fields, request.expense_title.is_some(), ExpenseField::Title);
    assert(fields@ =~= field_if(request@.expense_title is Some, ExpenseField::Title));
    push_if(&mut fields, request.project_cost_center.is_some(), ExpenseField::Project);
    push_if(&mut fields, request.items.is_some(), ExpenseField::Items);
    let ghost before_totals = fields@;
    fields.push(ExpenseField::TotalAmount);
    fields.push(ExpenseField::TotalTax);
    assert(fields@ =~= before_totals + seq![ExpenseField::TotalAmount, ExpenseField::TotalTax]);
    push_if(&mut fields, request.notes.is_some(), ExpenseField::Notes);
    push_if(&mut fields, request.department.is_some(), ExpenseField::Department);
    let ghost before_time = fields@;
    fields.push(ExpenseField::UpdatedAt);
    assert(fields@ =~= before_time + seq![ExpenseField::UpdatedAt]);
    fields
}

/// A field that an update does not set is the same in the merged report as
/// in the stored one, and the state, the audit trail, the key and the time
/// of creation are never set: to set the fields of `fields_to_set` to their
/// merged values is to store the merged report.
pub proof fn update_sets_all_that_changes(
    stored: ExpenseView,
    request: UpdateExpenseRequestView,
    now: i64,
)
    ensures
        ({
            let fields = fields_to_set(request);
            let merged = stored.merged(request, now);
            &&& !fields.contains(ExpenseField::Title) ==> merged.expense_title
                == stored.expense_title
            &&& !fields.contains(ExpenseField::Project) ==> merged.project_cost_center
                == stored.project_cost_center
            &&& !fields.contains(ExpenseField::Items) ==> merged.items == stored.items
            &&& !fields.contains(ExpenseField::Notes) ==> merged.notes == stored.notes
            &&& !fields.contains(ExpenseField::Department) ==> merged.department
                == stored.department
            &&& fields.contains(ExpenseField::TotalAmount)
            &&& fields.contains(ExpenseField::TotalTax)
            &&& fields.contains(ExpenseField::UpdatedAt)
            &&& merged.id == stored.id
            &&& merged.status == stored.status
            &&& merged.same_submission(stored)
            &&& merged.same_review(stored)
            &&& merged.reimbursed_at == stored.reimbursed_at
            &&& merged.created_at == stored.created_at
        }),
{
    let fields = fields_to_set(request);
    let title = field_if(request.expense_title is Some, ExpenseField::Title);
    let project = field_if(request.project_cost_center is Some, ExpenseField::Project);
    let items = field_if(request.items is Some, ExpenseField::Items);
    let notes = field_if(request.notes is Some, ExpenseField::Notes);
    let department = field_if(request.department is Some, ExpenseField::Department);
    let n = (title.len() + project.len() + items.len()) as int;
    assert(fields[n] == ExpenseField::TotalAmount);
    assert(fields[n + 1] == ExpenseField::TotalTax);
    assert(fields[fields.len() - 1] == ExpenseField::UpdatedAt);
    if request.expense_title is Some {
        assert(fields[0] == ExpenseField::Title);
    }
    if request.project_cost_center is Some {
        assert(fields[title.len() as int] == ExpenseField::Project);
    }
    if request.items is Some {
        assert(fields[n - 1] == ExpenseField::Items);
    }
    if request.notes is Some {
        assert(fields[n + 2] == ExpenseField::Notes);
    }
    if request.department is Some {
        assert(fields[n + 2 + notes.len()] == ExpenseField::Department);
    }
}

} // verus!
