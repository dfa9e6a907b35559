//! The requests on expense reports, as far as they are a matter of rules:
//! which listing answers a query, what a form creates, what it changes, and
//! what a deletion takes with it.

use crate::clock::now_millis;
use crate::error::ExpenseError;
use crate::handlers::form_reader::{ExpenseForm, ExpenseFormView};
use crate::models::expense::{receipt_keys, Expense, ExpenseStatus, ExpenseView};
use crate::models::expense_request::outcome_view;
use crate::repository::expense_repository::{fields_to_set, update_fields, ExpenseField};
use crate::services::expense_service::{
    prepared_for_creation, search_listing, ExpenseListing, ExpenseListingView, ExpenseService,
};
use crate::text::text_of;
use vstd::prelude::*;

verus! {

/// The query of a listing of expense reports.
#[derive(Debug)]
pub struct ExpenseQuery {
    pub project_cost_center: Option<String>,
    pub page: Option<u64>,
    pub limit: Option<i64>,
    pub search: Option<String>,
}

/// Which count goes with a listing as its total.
#[derive(Debug)]
pub enum TotalCount {
    /// None is taken: the total is zero.
    Zero,
    /// The number of all reports.
    All,
    /// The number of the reports booked on one project or cost center.
    OfProject(String),
}

/// A total count, as mathematical values.
pub enum TotalCountView {
    Zero,
    All,
    OfProject(Seq<char>),
}

impl View for TotalCount {
    type V = TotalCountView;

    open spec fn view(&self) -> TotalCountView {
        match self {
            TotalCount::Zero => TotalCountView::Zero,
            TotalCount::All => TotalCountView::All,
            TotalCount::OfProject(project) => TotalCountView::OfProject(project@),
        }
    }
}

/// The listing and the count that answer a query: a search, without a
/// count, where a search term is given; else the reports of the project, by
/// page, and their number, where a project is given; else all reports, by
/// page, and their number.
pub open spec fn listing_for(
    project: Option<Seq<char>>,
    page: Option<u64>,
    limit: Option<i64>,
    search: Option<Seq<char>>,
) -> (ExpenseListingView, TotalCountView) {
    match search {
        Some(term) => (search_listing(term), TotalCountView::Zero),
        None => match project {
            Some(project) => (
                ExpenseListingView::ByProject { project, page, limit },
                TotalCountView::OfProject(project),
            ),
            None => (ExpenseListingView::All { page, limit }, TotalCountView::All),
        },
    }
}

/// Which listing and which count answer a query for expense reports.
pub fn list_expenses(service: &ExpenseService, query: &ExpenseQuery) -> (plan: (
    ExpenseListing,
    TotalCount,
))
    ensures
        (plan.0@, plan.1@) == listing_for(
            text_of(query.project_cost_center),
            query.page,
            query.limit,
            text_of(query.search),
        ),
{
    match &query.search {
        Some(term) => (service.search_expenses(term.as_str()), TotalCount::Zero),
        None => match &query.project_cost_center {
            Some(project) => (
                ExpenseListing::ByProject {
                    project: project.clone(),
                    page: query.page,
                    limit: query.limit,
                },
                TotalCount::OfProject(project.clone()),
            ),
            None => (
                ExpenseListing::All { page: query.page, limit: query.limit },
                TotalCount::All,
            ),
        },
    }
}

/// Whether `outcome` is what the creation of a report from `form` at `now`
/// yields. A form whose item cannot be read is refused for that. Else the
/// form yields the draft that it describes, prepared for the store, where
/// that is valid, and the first rule that it breaks where it is not.
pub open spec fn creation_yields(
    form: ExpenseFormView,
    now: i64,
    outcome: Result<ExpenseView, ExpenseError>,
) -> bool {
    match form.expense(now) {
        Err(unreadable) => outcome == Err::<ExpenseView, ExpenseError>(unreadable),
        Ok(draft) => {
            let prepared = prepared_for_creation(draft, now);
            match outcome {
                Ok(created) => created == prepared && prepared.is_valid(),
                Err(ExpenseError::Validation(problem)) => prepared.first_problem_is(problem),
                Err(_) => false,
            }
        },
    }
}

/// The report to store for a form that asks for a new one, at `now`.
pub fn create_expense_at(service: &ExpenseService, form: &ExpenseForm, now: i64) -> (r: Result<
    Expense,
    ExpenseError,
>)
    ensures
        creation_yields(form@, now, outcome_view(r)),
        r matches Ok(created) ==> created@.totals_consistent() && created@.lifecycle_consistent()
            && created@.status == ExpenseStatus::Draft,
{
    match form.to_expense_at(now) {
        Ok(draft) => service.create_expense_at(draft, now),
        Err(unreadable) => Err(unreadable),
    }
}

/// The report to store for a form that asks for a new one, now.
pub fn create_expense(service: &ExpenseService, form: &ExpenseForm) -> (r: Result<
    Expense,
    ExpenseError,
>)
    ensures
        exists|now: i64| #[trigger] creation_yields(form@, now, outcome_view(r)),
        r matches Ok(created) ==> created@.totals_consistent() && created@.lifecycle_consistent()
            && created@.status == ExpenseStatus::Draft,
{
    let now = now_millis();
    create_expense_at(service, form, now)
}

/// What an update of a stored report with a form comes to: the report to
/// store, and the fields to set in the store to get there.
pub struct ExpenseUpdate {
    pub expense: Expense,
    pub fields: Vec<ExpenseField>,
}

/// Whether `outcome` is what an update of what is stored with `form` at `now`
/// yields: `NotFound` where nothing is stored; `ImmutableState` where the
/// stored report is no longer a draft; the reason for which the form cannot
/// be read, where it cannot; and else what the update of the stored report
/// with the change that the form describes yields, and with it the fields
/// that this change sets.
pub open spec fn form_update_yields(
    existing: Option<ExpenseView>,
    form: ExpenseFormView,
    now: i64,
    outcome: Result<(ExpenseView, Seq<ExpenseField>), ExpenseError>,
) -> bool {
    match existing {
        None => outcome matches Err(e) && e == ExpenseError::NotFound,
        Some(stored) => if stored.update_is_refused() {
            outcome matches Err(e) && e == (ExpenseError::ImmutableState {
                status: stored.status,
            })
        } else {
            match form.update_request(stored) {
                Err(unreadable) => outcome matches Err(e) && e == unreadable,
                Ok(request) => match outcome {
                    Ok((updated, fields)) => {
                        &&& stored.update_yields(request, now, Ok(updated))
                        &&& fields == fields_to_set(request)
                    },
                    Err(e) => stored.update_yields(request, now, Err(e)),
                },
            }
        },
    }
}

/// An update or an error, as mathematical values.
pub open spec fn update_view(r: Result<ExpenseUpdate, ExpenseError>) -> Result<
    (ExpenseView, Seq<ExpenseField>),
    ExpenseError,
> {
    match r {
        Ok(update) => Ok((update.expense@, update.fields@)),
        Err(e) => Err(e),
    }
}

/// A stored report, if there is one, as mathematical values.
pub open spec fn stored_view(existing: Option<&Expense>) -> Option<ExpenseView> {
    match existing {
        Some(stored) => Some(stored@),
        None => None,
    }
}

/// The update of what is stored with a form, at `now`.
pub fn update_expense_at(
    service: &ExpenseService,
    existing: Option<&Expense>,
    form: &ExpenseForm,
    now: i64,
) -> (r: Result<ExpenseUpdate, ExpenseError>)
    ensures
        form_update_yields(stored_view(existing), form@, now, update_view(r)),
{
    let stored = match existing {
        Some(stored) => stored,
        None => {
            return Err(ExpenseError::NotFound);
        },
    };
    if !stored.is_editable() {
        return Err(ExpenseError::ImmutableState { status: stored.status });
    }
    let request = match form.to_update_request(stored) {
        Ok(request) => request,
        Err(unreadable) => {
            return Err(unreadable);
        },
    };
    let fields = update_fields(&request);
    match service.update_expense_at(existing, request, now) {
        Ok(expense) => Ok(ExpenseUpdate { expense, fields }),
        Err(e) => Err(e),
    }
}

/// The update of what is stored with a form, now.
pub fn update_expense(service: &ExpenseService, existing: Option<&Expense>, form: &ExpenseForm) -> (r:
    Result<ExpenseUpdate, ExpenseError>)
    ensures
        exists|now: i64| #[trigger]
            form_update_yields(stored_view(existing), form@, now, update_view(r)),
{
    let now = now_millis();
    update_expense_at(service, existing, form, now)
}

/// The keys of the receipts to remove from the receipt store when a report
/// is deleted: those of all its items, or none where no report is stored
/// under the key.
pub fn delete_expense(existing: Option<&Expense>) -> (receipts: Vec<String>)
    ensures
        receipts.deep_view() == match existing {
            Some(stored) => receipt_keys(stored@.items),
            None => Seq::empty(),
        },
{
    match existing {
        Some(stored) => stored.get_receipt_files(),
        None => {
            let none: Vec<String> = Vec::new();
            assert(none.deep_view() =~= Seq::empty());
            none
        },
    }
}

} // verus!
