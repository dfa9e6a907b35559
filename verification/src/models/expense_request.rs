//! The requests that create, change and review an expense report, and the
//! merge of a sparse change into a stored report.

use crate::clock::now_millis;
use crate::error::ExpenseError;
use crate::models::expense::{
    clone_items, first_problem_is_unique, new_draft, valid_report_breaks_no_rule, Expense,
    ExpenseItem, ExpenseItemView, ExpenseStatus, ExpenseView,
};
use crate::text::{clone_text, text_of};
use vstd::prelude::*;

verus! {

/// What a new report is created from.
#[derive(Debug)]
pub struct CreateExpenseRequest {
    pub expense_title: String,
    pub project_cost_center: String,
    pub items: Vec<ExpenseItem>,
    pub notes: Option<String>,
    pub department: Option<String>,
}

/// What a creation request holds, as mathematical values.
pub struct CreateExpenseRequestView {
    pub expense_title: Seq<char>,
    pub project_cost_center: Seq<char>,
    pub items: Seq<ExpenseItemView>,
    pub notes: Option<Seq<char>>,
    pub department: Option<Seq<char>>,
}

impl View for CreateExpenseRequest {
    type V = CreateExpenseRequestView;

    open spec fn view(&self) -> CreateExpenseRequestView {
        CreateExpenseRequestView {
            expense_title: self.expense_title@,
            project_cost_center: self.project_cost_center@,
            items: self.items.deep_view(),
            notes: text_of(self.notes),
            department: text_of(self.department),
        }
    }
}

impl CreateExpenseRequestView {
    /// The draft that the request describes, created at `now`: the fields of
    /// the request, the totals of its items, and an empty audit trail.
    pub open spec fn drafted(self, now: i64) -> ExpenseView {
        ExpenseView {
            items: self.items,
            notes: self.notes,
            department: self.department,
            ..new_draft(self.expense_title, self.project_cost_center, now)
        }.with_totals()
    }
}

impl Expense {
    /// The draft that `request` describes, created at `now`.
    pub fn from_request_at(request: CreateExpenseRequest, now: i64) -> (expense: Expense)
        ensures
            expense@ == request@.drafted(now),
    {
        let mut expense = Expense {
            id: None,
            expense_title: request.expense_title,
            project_cost_center: request.project_cost_center,
            items: request.items,
            total_amount: 0,
            total_tax: 0,
            status: ExpenseStatus::Draft,
            submitted_by: None,
            approved_by: None,
            submitted_at: None,
            reviewed_at: None,
            rejection_reason: None,
            reimbursed_at: None,
            notes: request.notes,
            department: request.department,
            created_at: Some(now),
            updated_at: Some(now),
        };
        expense.calculate_total();
        expense
    }

    /// The draft that `request` describes, created now.
    pub fn from_request(request: CreateExpenseRequest) -> (expense: Expense)
        ensures
            exists|now: i64| expense@ == #[trigger] request@.drafted(now),
    {
        let now = now_millis();
        Expense::from_request_at(request, now)
    }
}

/// A sparse change to a report: a field that is `None` is left as it is
/// stored. The request has no place for the state or the audit trail.
#[derive(Debug)]
pub struct UpdateExpenseRequest {
    pub expense_title: Option<String>,
    pub project_cost_center: Option<String>,
    pub items: Option<Vec<ExpenseItem>>,
    pub notes: Option<String>,
    pub department: Option<String>,
}

/// What an update request holds, as mathematical values.
pub struct UpdateExpenseRequestView {
    pub expense_title: Option<Seq<char>>,
    pub project_cost_center: Option<Seq<char>>,
    pub items: Option<Seq<ExpenseItemView>>,
    pub notes: Option<Seq<char>>,
    pub department: Option<Seq<char>>,
}

impl View for UpdateExpenseRequest {
    type V = UpdateExpenseRequestView;

    open spec fn view(&self) -> UpdateExpenseRequestView {
        UpdateExpenseRequestView {
            expense_title: text_of(self.expense_title),
            project_cost_center: text_of(self.project_cost_center),
            items: match self.items {
                Some(items) => Some(items.deep_view()),
                None => None,
            },
            notes: text_of(self.notes),
            department: text_of(self.department),
        }
    }
}

impl UpdateExpenseRequestView {
    /// The request that changes nothing.
    pub open spec fn empty() -> UpdateExpenseRequestView {
        UpdateExpenseRequestView {
            expense_title: None,
            project_cost_center: None,
            items: None,
            notes: None,
            department: None,
        }
    }

    /// Every field that the request sends is equal to what `stored` holds.
    pub open spec fn agrees_with(self, stored: ExpenseView) -> bool {
        &&& self.expense_title matches Some(title) ==> title == stored.expense_title
        &&& self.project_cost_center matches Some(project) ==> project
            == stored.project_cost_center
        &&& self.items matches Some(items) ==> items == stored.items
        &&& self.notes matches Some(notes) ==> Some(notes) == stored.notes
        &&& self.department matches Some(department) ==> Some(department) == stored.department
    }
}

impl ExpenseView {
    /// The stored report with the request merged in at `now`: each field
    /// that the request sends replaces the stored one, each other field stays,
    /// the totals are those of the resulting items, and the time of the last
    /// change is `now`. The state and the audit trail are the stored ones.
    pub open spec fn merged(self, request: UpdateExpenseRequestView, now: i64) -> ExpenseView {
        ExpenseView {
            expense_title: match request.expense_title {
                Some(title) => title,
                None => self.expense_title,
            },
            project_cost_center: match request.project_cost_center {
                Some(project) => project,
                None => self.project_cost_center,
            },
            items: match request.items {
                Some(items) => items,
                None => self.items,
            },
            notes: match request.notes {
                Some(notes) => Some(notes),
                None => self.notes,
            },
            department: match request.department {
                Some(department) => Some(department),
                None => self.department,
            },
            updated_at: Some(now),
            ..self
        }.with_totals()
    }

    /// Whether an update of this report is refused, whatever it sends: a
    /// report is changed in place only while it is a draft.
    pub open spec fn update_is_refused(self) -> bool {
        self.status != ExpenseStatus::Draft
    }

    /// Whether `outcome` is what an update of this stored report with
    /// `request` at `now` yields: `ImmutableState` where the report is no
    /// longer a draft; else the merged report where it is valid, and
    /// `Validation` with the first rule that the merged report breaks where
    /// it is not.
    pub open spec fn update_yields(
        self,
        request: UpdateExpenseRequestView,
        now: i64,
        outcome: Result<ExpenseView, ExpenseError>,
    ) -> bool {
        match outcome {
            Ok(updated) => {
                &&& !self.update_is_refused()
                &&& updated == self.merged(request, now)
                &&& updated.is_valid()
            },
            Err(ExpenseError::ImmutableState { status }) => {
                &&& self.update_is_refused()
                &&& status == self.status
            },
            Err(ExpenseError::Validation(problem)) => {
                &&& !self.update_is_refused()
                &&& self.merged(request, now).first_problem_is(problem)
            },
            Err(_) => false,
        }
    }
}

/// A report or an error, as mathematical values.
pub open spec fn outcome_view(r: Result<Expense, ExpenseError>) -> Result<
    ExpenseView,
    ExpenseError,
> {
    match r {
        Ok(report) => Ok(report@),
        Err(e) => Err(e),
    }
}

impl Expense {
    /// Merges `request` into this stored report at `now` and validates the
    /// result. The stored report itself is not changed: either the whole
    /// merged report comes back, or an error and nothing else.
    ///
    /// A report that is not a draft cannot be changed (`ImmutableState`). A
    /// merged report that breaks a rule is refused with the first rule it
    /// breaks (`Validation`).
    pub fn apply_update_at(&self, request: UpdateExpenseRequest, now: i64) -> (r: Result<
        Expense,
        ExpenseError,
    >)
        ensures
            self@.update_yields(request@, now, outcome_view(r)),
    {
        if self.status != ExpenseStatus::Draft {
            return Err(ExpenseError::ImmutableState { status: self.status });
        }
        let mut updated = Expense {
            id: self.id,
            expense_title: match request.expense_title {
                Some(title) => title,
                None => self.expense_title.clone(),
            },
            project_cost_center: match request.project_cost_center {
                Some(project) => project,
                None => self.project_cost_center.clone(),
            },
            items: match request.items {
                Some(items) => items,
                None => clone_items(&self.items),
            },
            total_amount: self.total_amount,
            total_tax: self.total_tax,
            status: self.status,
            submitted_by: clone_text(&self.submitted_by),
            approved_by: clone_text(&self.approved_by),
            submitted_at: self.submitted_at,
            reviewed_at: self.reviewed_at,
            rejection_reason: clone_text(&self.rejection_reason),
            reimbursed_at: self.reimbursed_at,
            notes: match request.notes {
                Some(notes) => Some(notes),
                None => clone_text(&self.notes),
            },
            department: match request.department {
                Some(department) => Some(department),
                None => clone_text(&self.department),
            },
            created_at: self.created_at,
            updated_at: Some(now),
        };
        updated.calculate_total();
        match updated.validate() {
            Ok(()) => Ok(updated),
            Err(problem) => Err(ExpenseError::Validation(problem)),
        }
    }

    /// Merges `request` into this stored report, now, and validates the
    /// result, as `apply_update_at` does.
    pub fn apply_update(&self, request: UpdateExpenseRequest) -> (r: Result<Expense, ExpenseError>)
        ensures
            exists|now: i64| #[trigger] self@.update_yields(request@, now, outcome_view(r)),
    {
        let now = now_millis();
        self.apply_update_at(request, now)
    }
}

/// An update cannot touch the state or the audit trail, whatever the request
/// holds: the updated report has those of the stored one, and its key and
/// time of creation.
pub proof fn update_keeps_lifecycle_fields(
    stored: ExpenseView,
    request: UpdateExpenseRequestView,
    now: i64,
    updated: ExpenseView,
)
    requires
        stored.update_yields(request, now, Ok(updated)),
    ensures
        updated.status == stored.status,
        updated.same_submission(stored),
        updated.same_review(stored),
        updated.reimbursed_at == stored.reimbursed_at,
        updated.id == stored.id,
        updated.created_at == stored.created_at,
{
}

/// A field that the request does not send keeps its stored value through an
/// update.
pub proof fn update_keeps_omitted_fields(
    stored: ExpenseView,
    request: UpdateExpenseRequestView,
    now: i64,
    updated: ExpenseView,
)
    requires
        stored.update_yields(request, now, Ok(updated)),
    ensures
        request.expense_title is None ==> updated.expense_title == stored.expense_title,
        request.project_cost_center is None ==> updated.project_cost_center
            == stored.project_cost_center,
        request.items is None ==> updated.items == stored.items,
        request.notes is None ==> updated.notes == stored.notes,
        request.department is None ==> updated.department == stored.department,
{
}

/// A field that the request sends replaces the stored value in an update,
/// the totals are the sums over the resulting items, and the time of the
/// last change is that of the update.
pub proof fn update_takes_sent_fields(
    stored: ExpenseView,
    request: UpdateExpenseRequestView,
    now: i64,
    updated: ExpenseView,
)
    requires
        stored.update_yields(request, now, Ok(updated)),
    ensures
        request.expense_title matches Some(title) ==> updated.expense_title == title,
        request.project_cost_center matches Some(project) ==> updated.project_cost_center
            == project,
        request.items matches Some(items) ==> updated.items == items,
        request.notes matches Some(notes) ==> updated.notes == Some(notes),
        request.department matches Some(department) ==> updated.department == Some(department),
        updated.updated_at == Some(now),
        updated.totals_consistent(),
{
}

/// An update whose request sends nothing different from what is stored
/// yields the stored report, unchanged but for the time of the last change.
/// This is said of a stored draft that is valid and has the totals of its
/// items; a report that is no longer a draft takes no update at all.
pub proof fn update_without_changes_only_refreshes(
    stored: ExpenseView,
    request: UpdateExpenseRequestView,
    now: i64,
    outcome: Result<ExpenseView, ExpenseError>,
)
    requires
        stored.is_valid(),
        stored.totals_consistent(),
        request.agrees_with(stored),
        !stored.update_is_refused(),
        stored.update_yields(request, now, outcome),
    ensures
        outcome == Ok::<ExpenseView, ExpenseError>(
            ExpenseView { updated_at: Some(now), ..stored },
        ),
{
    let merged = stored.merged(request, now);
    assert(merged == (ExpenseView { updated_at: Some(now), ..stored }));
    if let Err(ExpenseError::Validation(problem)) = outcome {
        valid_report_breaks_no_rule(merged, problem);
    }
}

/// An update yields one outcome and no other: the rules say which report
/// comes back, or which error.
pub proof fn update_outcome_is_unique(
    stored: ExpenseView,
    request: UpdateExpenseRequestView,
    now: i64,
    first: Result<ExpenseView, ExpenseError>,
    second: Result<ExpenseView, ExpenseError>,
)
    requires
        stored.update_yields(request, now, first),
        stored.update_yields(request, now, second),
    ensures
        first == second,
{
    let merged = stored.merged(request, now);
    match (first, second) {
        (Ok(_), Err(ExpenseError::Validation(problem))) => {
            valid_report_breaks_no_rule(merged, problem);
        },
        (Err(ExpenseError::Validation(problem)), Ok(_)) => {
            valid_report_breaks_no_rule(merged, problem);
        },
        (Err(ExpenseError::Validation(p)), Err(ExpenseError::Validation(q))) => {
            first_problem_is_unique(merged, p, q);
        },
        _ => {},
    }
}

/// An update keeps the audit trail in step with the state, and leaves a
/// report with the totals of its items.
pub proof fn update_keeps_report_consistent(
    stored: ExpenseView,
    request: UpdateExpenseRequestView,
    now: i64,
    updated: ExpenseView,
)
    requires
        stored.lifecycle_consistent(),
        stored.update_yields(request, now, Ok(updated)),
    ensures
        updated.lifecycle_consistent(),
        updated.totals_consistent(),
{
}

/// The draft that a creation request describes has the totals of its items
/// and a consistent, empty audit trail.
pub proof fn drafted_report_is_consistent(request: CreateExpenseRequestView, now: i64)
    ensures
        request.drafted(now).totals_consistent(),
        request.drafted(now).lifecycle_consistent(),
        request.drafted(now).status == ExpenseStatus::Draft,
        request.drafted(now).items == request.items,
{
}

/// What an approver decides.
#[derive(Debug, Clone, Copy, PartialEq, Eq, Structural)]
pub enum ReviewAction {
    Approve,
    Reject,
}

/// An approver's decision on a submitted report, with the reason where the
/// report is rejected.
#[derive(Debug)]
pub struct ReviewExpenseRequest {
    pub action: ReviewAction,
    pub reason: Option<String>,
}

impl ExpenseView {
    /// The report as `Expense::review_at` leaves it: approved, or rejected
    /// for the reason given. A rejection without a reason is one with an
    /// empty reason.
    pub open spec fn review_outcome(
        self,
        approver: Seq<char>,
        action: ReviewAction,
        reason: Option<Seq<char>>,
        now: i64,
    ) -> (Result<(), ExpenseError>, ExpenseView) {
        match action {
            ReviewAction::Approve => self.approve_outcome(approver, now),
            ReviewAction::Reject => self.reject_outcome(
                approver,
                match reason {
                    Some(reason) => reason,
                    None => Seq::empty(),
                },
                now,
            ),
        }
    }
}

impl Expense {
    /// Carries out an approver's decision for `approver_id` at `now`.
    pub fn review_at(&mut self, approver_id: String, request: ReviewExpenseRequest, now: i64) -> (r:
        Result<(), ExpenseError>)
        ensures
            (r, final(self)@) == old(self)@.review_outcome(
                approver_id@,
                request.action,
                text_of(request.reason),
                now,
            ),
    {
        match request.action {
            ReviewAction::Approve => self.approve_at(approver_id, now),
            ReviewAction::Reject => {
                let reason = match request.reason {
                    Some(reason) => reason,
                    None => String::new(),
                };
                self.reject_at(approver_id, reason, now)
            },
        }
    }

    /// Carries out an approver's decision for `approver_id`, now.
    pub fn review(&mut self, approver_id: String, request: ReviewExpenseRequest) -> (r: Result<
        (),
        ExpenseError,
    >)
        ensures
            exists|now: i64|
                (r, final(self)@) == #[trigger] old(self)@.review_outcome(
                    approver_id@,
                    request.action,
                    text_of(request.reason),
                    now,
                ),
    {
        let now = now_millis();
        self.review_at(approver_id, request, now)
    }
}

} // verus!
