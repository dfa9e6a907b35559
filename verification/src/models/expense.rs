//! Expense reports: line items, the lifecycle of a report, and the requests
//! that create and change one.

use crate::clock::now_millis;
use crate::error::{ExpenseError, ItemError, ValidationError};
use crate::text::{clone_text, is_blank, text_is_blank, text_of};
use vstd::hash_map::StringHashMap;
use vstd::prelude::*;

verus! {

/// Where a report stands in its lifecycle.
#[derive(Debug, Clone, Copy, PartialEq, Eq, Structural)]
pub enum ExpenseStatus {
    /// Being written; the only state in which items may be edited.
    Draft,
    /// Handed in for review.
    Submitted,
    /// Accepted by the approver.
    Approved,
    /// Refused by the approver. Final.
    Rejected,
    /// Paid out. Final.
    Reimbursed,
}

impl Default for ExpenseStatus {
    fn default() -> (status: Self)
        ensures
            status == ExpenseStatus::Draft,
    {
        ExpenseStatus::Draft
    }
}

impl ExpenseStatus {
    /// The lifecycle: the only steps that lead from one state to another.
    pub open spec fn leads_to(self, to: ExpenseStatus) -> bool {
        match (self, to) {
            (ExpenseStatus::Draft, ExpenseStatus::Submitted) => true,
            (ExpenseStatus::Submitted, ExpenseStatus::Approved) => true,
            (ExpenseStatus::Submitted, ExpenseStatus::Rejected) => true,
            (ExpenseStatus::Approved, ExpenseStatus::Reimbursed) => true,
            _ => false,
        }
    }

    /// How far along the lifecycle a state lies.
    pub open spec fn rank(self) -> nat {
        match self {
            ExpenseStatus::Draft => 0,
            ExpenseStatus::Submitted => 1,
            ExpenseStatus::Approved => 2,
            ExpenseStatus::Rejected => 2,
            ExpenseStatus::Reimbursed => 3,
        }
    }

    /// A state that no step leaves.
    pub open spec fn is_terminal(self) -> bool {
        self == ExpenseStatus::Rejected || self == ExpenseStatus::Reimbursed
    }

    /// Whether the lifecycle leads from this state to `to`.
    pub fn can_become(self, to: ExpenseStatus) -> (b: bool)
        ensures
            b == self.leads_to(to),
    {
        match (self, to) {
            (ExpenseStatus::Draft, ExpenseStatus::Submitted) => true,
            (ExpenseStatus::Submitted, ExpenseStatus::Approved) => true,
            (ExpenseStatus::Submitted, ExpenseStatus::Rejected) => true,
            (ExpenseStatus::Approved, ExpenseStatus::Reimbursed) => true,
            _ => false,
        }
    }
}

/// Every step moves forward, and a state is terminal exactly when no step
/// leaves it.
pub proof fn lifecycle_is_one_directional(from: ExpenseStatus, to: ExpenseStatus)
    ensures
        from.leads_to(to) ==> from.rank() < to.rank(),
        from.leads_to(to) ==> !to.leads_to(from),
        from.is_terminal() <==> forall|s: ExpenseStatus| !from.leads_to(s),
        !from.leads_to(ExpenseStatus::Draft),
{
    if !from.is_terminal() {
        match from {
            ExpenseStatus::Draft => assert(from.leads_to(ExpenseStatus::Submitted)),
            ExpenseStatus::Submitted => assert(from.leads_to(ExpenseStatus::Approved)),
            _ => assert(from.leads_to(ExpenseStatus::Reimbursed)),
        }
    }
}

/// One monetary entry of a report.
#[derive(Debug)]
pub struct ExpenseItem {
    /// Category of the expense, such as travel or food.
    pub expense_category: String,
    /// Currency code.
    pub currency: String,
    /// Amount, in hundredths of the unit of the currency.
    pub amount: i64,
    /// Day on which the expense occurred, as free text.
    pub expense_date: String,
    /// Free comment.
    pub comment: String,
    /// Key under which the receipt is stored.
    pub receipt_file: Option<String>,
    /// Name of the receipt file as the client sent it.
    pub original_filename: Option<String>,
    /// How the expense was paid.
    pub payment_method: Option<String>,
    /// Vendor or merchant.
    pub vendor: Option<String>,
    /// Whether the item is billable to a client.
    pub billable: bool,
    /// Tax amount, in hundredths of the unit of the currency.
    pub tax_amount: Option<i64>,
}

/// What an item holds, as mathematical values.
pub struct ExpenseItemView {
    pub expense_category: Seq<char>,
    pub currency: Seq<char>,
    pub amount: i64,
    pub expense_date: Seq<char>,
    pub comment: Seq<char>,
    pub receipt_file: Option<Seq<char>>,
    pub original_filename: Option<Seq<char>>,
    pub payment_method: Option<Seq<char>>,
    pub vendor: Option<Seq<char>>,
    pub billable: bool,
    pub tax_amount: Option<i64>,
}

impl View for ExpenseItem {
    type V = ExpenseItemView;

    open spec fn view(&self) -> ExpenseItemView {
        ExpenseItemView {
            expense_category: self.expense_category@,
            currency: self.currency@,
            amount: self.amount,
            expense_date: self.expense_date@,
            comment: self.comment@,
            receipt_file: text_of(self.receipt_file),
            original_filename: text_of(self.original_filename),
            payment_method: text_of(self.payment_method),
            vendor: text_of(self.vendor),
            billable: self.billable,
            tax_amount: self.tax_amount,
        }
    }
}

impl DeepView for ExpenseItem {
    type V = ExpenseItemView;

    open spec fn deep_view(&self) -> ExpenseItemView {
        self@
    }
}

impl ExpenseItemView {
    /// The first rule that the item breaks, if it breaks one.
    pub open spec fn problem(self) -> Option<ItemError> {
        if is_blank(self.expense_category) {
            Some(ItemError::CategoryRequired)
        } else if is_blank(self.currency) {
            Some(ItemError::CurrencyRequired)
        } else if self.amount < 0 {
            Some(ItemError::NegativeAmount)
        } else if is_blank(self.expense_date) {
            Some(ItemError::DateRequired)
        } else if self.tax_amount matches Some(tax) && tax < 0 {
            Some(ItemError::NegativeTax)
        } else {
            None
        }
    }

    /// Category, currency and date are given, and no amount is negative.
    pub open spec fn is_valid(self) -> bool {
        &&& !is_blank(self.expense_category)
        &&& !is_blank(self.currency)
        &&& self.amount >= 0
        &&& !is_blank(self.expense_date)
        &&& self.tax_amount matches Some(tax) ==> tax >= 0
    }

    /// The tax of the item, zero where none is given.
    pub open spec fn tax_or_zero(self) -> int {
        match self.tax_amount {
            Some(tax) => tax as int,
            None => 0,
        }
    }
}

impl Clone for ExpenseItem {
    fn clone(&self) -> (copy: Self)
        ensures
            copy@ == self@,
    {
        ExpenseItem {
            expense_category: self.expense_category.clone(),
            currency: self.currency.clone(),
            amount: self.amount,
            expense_date: self.expense_date.clone(),
            comment: self.comment.clone(),
            receipt_file: clone_text(&self.receipt_file),
            original_filename: clone_text(&self.original_filename),
            payment_method: clone_text(&self.payment_method),
            vendor: clone_text(&self.vendor),
            billable: self.billable,
            tax_amount: self.tax_amount,
        }
    }
}

impl ExpenseItem {
    /// Checks the item against the rules for items, in their order: category,
    /// currency, amount, date, tax.
    pub fn validate(&self) -> (r: Result<(), ItemError>)
        ensures
            r is Ok <==> self@.is_valid(),
            r matches Err(e) ==> self@.problem() == Some(e),
    {
        if text_is_blank(self.expense_category.as_str()) {
            return Err(ItemError::CategoryRequired);
        }
        if text_is_blank(self.currency.as_str()) {
            return Err(ItemError::CurrencyRequired);
        }
        if self.amount < 0 {
            return Err(ItemError::NegativeAmount);
        }
        if text_is_blank(self.expense_date.as_str()) {
            return Err(ItemError::DateRequired);
        }
        if let Some(tax) = self.tax_amount {
            if tax < 0 {
                return Err(ItemError::NegativeTax);
            }
        }
        Ok(())
    }

    /// The amount with the tax added.
    pub fn total_with_tax(&self) -> (total: i128)
        ensures
            total == self@.amount + self@.tax_or_zero(),
    {
        let tax: i64 = match self.tax_amount {
            Some(tax) => tax,
            None => 0,
        };
        self.amount as i128 + tax as i128
    }
}

/// An item is valid exactly when it breaks no rule.
pub proof fn item_valid_iff_no_problem(item: ExpenseItemView)
    ensures
        item.is_valid() <==> item.problem() is None,
{
}

/// The sum of the amounts of `items`.
pub open spec fn sum_amounts(items: Seq<ExpenseItemView>) -> int
    decreases items.len(),
{
    if items.len() == 0 {
        0
    } else {
        sum_amounts(items.drop_last()) + items.last().amount
    }
}

/// The sum of the tax amounts that `items` give.
pub open spec fn sum_taxes(items: Seq<ExpenseItemView>) -> int
    decreases items.len(),
{
    if items.len() == 0 {
        0
    } else {
        sum_taxes(items.drop_last()) + items.last().tax_or_zero()
    }
}

/// Every item of `items` is valid.
pub open spec fn all_valid(items: Seq<ExpenseItemView>) -> bool {
    forall|i: int| 0 <= i < items.len() ==> (#[trigger] items[i]).is_valid()
}

/// Both sums lie within the number of items times the range of one amount.
pub proof fn sums_are_bounded(items: Seq<ExpenseItemView>)
    ensures
        items.len() * i64::MIN <= sum_amounts(items) <= items.len() * i64::MAX,
        items.len() * i64::MIN <= sum_taxes(items) <= items.len() * i64::MAX,
    decreases items.len(),
{
    if items.len() > 0 {
        sums_are_bounded(items.drop_last());
    }
}

/// Valid items sum to amounts that are not negative.
pub proof fn valid_items_sum_non_negative(items: Seq<ExpenseItemView>)
    requires
        all_valid(items),
    ensures
        sum_amounts(items) >= 0,
        sum_taxes(items) >= 0,
    decreases items.len(),
{
    if items.len() > 0 {
        assert forall|i: int| 0 <= i < items.drop_last().len() implies (
        #[trigger] items.drop_last()[i]).is_valid() by {
            assert(items[i].is_valid());
        }
        valid_items_sum_non_negative(items.drop_last());
        assert(items[items.len() - 1].is_valid());
    }
}

/// An expense report.
#[derive(Debug)]
pub struct Expense {
    /// Key in the document store; absent until the report is first stored.
    pub id: Option<mongodb::bson::oid::ObjectId>,
    /// Title of the report.
    pub expense_title: String,
    /// Project or cost center that the report is booked on.
    pub project_cost_center: String,
    /// The line items, in order.
    pub items: Vec<ExpenseItem>,
    /// Sum of the item amounts.
    pub total_amount: i128,
    /// Sum of the tax amounts that the items give.
    pub total_tax: i128,
    /// Where the report stands in its lifecycle.
    pub status: ExpenseStatus,
    /// Who handed the report in.
    pub submitted_by: Option<String>,
    /// Who reviewed the report.
    pub approved_by: Option<String>,
    /// When the report was handed in.
    pub submitted_at: Option<i64>,
    /// When the report was approved or rejected.
    pub reviewed_at: Option<i64>,
    /// Why the report was rejected.
    pub rejection_reason: Option<String>,
    /// When the report was paid out.
    pub reimbursed_at: Option<i64>,
    /// Free notes on the report.
    pub notes: Option<String>,
    /// Department.
    pub department: Option<String>,
    /// When the report was created.
    pub created_at: Option<i64>,
    /// When the report was last changed.
    pub updated_at: Option<i64>,
}

/// What a report holds, as mathematical values.
pub struct ExpenseView {
    pub id: Option<mongodb::bson::oid::ObjectId>,
    pub expense_title: Seq<char>,
    pub project_cost_center: Seq<char>,
    pub items: Seq<ExpenseItemView>,
    pub total_amount: int,
    pub total_tax: int,
    pub status: ExpenseStatus,
    pub submitted_by: Option<Seq<char>>,
    pub approved_by: Option<Seq<char>>,
    pub submitted_at: Option<i64>,
    pub reviewed_at: Option<i64>,
    pub rejection_reason: Option<Seq<char>>,
    pub reimbursed_at: Option<i64>,
    pub notes: Option<Seq<char>>,
    pub department: Option<Seq<char>>,
    pub created_at: Option<i64>,
    pub updated_at: Option<i64>,
}

impl View for Expense {
    type V = ExpenseView;

    open spec fn view(&self) -> ExpenseView {
        ExpenseView {
            id: self.id,
            expense_title: self.expense_title@,
            project_cost_center: self.project_cost_center@,
            items: self.items.deep_view(),
            total_amount: self.total_amount as int,
            total_tax: self.total_tax as int,
            status: self.status,
            submitted_by: text_of(self.submitted_by),
            approved_by: text_of(self.approved_by),
            submitted_at: self.submitted_at,
            reviewed_at: self.reviewed_at,
            rejection_reason: text_of(self.rejection_reason),
            reimbursed_at: self.reimbursed_at,
            notes: text_of(self.notes),
            department: text_of(self.department),
            created_at: self.created_at,
            updated_at: self.updated_at,
        }
    }
}

impl DeepView for Expense {
    type V = ExpenseView;

    open spec fn deep_view(&self) -> ExpenseView {
        self@
    }
}

impl ExpenseView {
    /// The totals are the sums over the items.
    pub open spec fn totals_consistent(self) -> bool {
        &&& self.total_amount == sum_amounts(self.items)
        &&& self.total_tax == sum_taxes(self.items)
    }

    /// The same report with its totals set to the sums over its items.
    pub open spec fn with_totals(self) -> ExpenseView {
        ExpenseView {
            total_amount: sum_amounts(self.items),
            total_tax: sum_taxes(self.items),
            ..self
        }
    }

    /// Title and project are given, every item is valid, and the total is
    /// not negative.
    pub open spec fn is_valid(self) -> bool {
        &&& !is_blank(self.expense_title)
        &&& !is_blank(self.project_cost_center)
        &&& all_valid(self.items)
        &&& self.total_amount >= 0
    }

    /// Whether `e` is the first rule that the report breaks: title, project,
    /// the items in their order, then the total.
    pub open spec fn first_problem_is(self, e: ValidationError) -> bool {
        match e {
            ValidationError::TitleRequired => is_blank(self.expense_title),
            ValidationError::ProjectRequired => {
                &&& !is_blank(self.expense_title)
                &&& is_blank(self.project_cost_center)
            },
            ValidationError::Item { index, reason } => {
                &&& !is_blank(self.expense_title)
                &&& !is_blank(self.project_cost_center)
                &&& index < self.items.len()
                &&& all_valid(self.items.take(index as int))
                &&& self.items[index as int].problem() == Some(reason)
            },
            ValidationError::NegativeTotal => {
                &&& !is_blank(self.expense_title)
                &&& !is_blank(self.project_cost_center)
                &&& all_valid(self.items)
                &&& self.total_amount < 0
            },
            ValidationError::NoItems => false,
            ValidationError::ReasonRequired => false,
            ValidationError::InvalidPage => false,
        }
    }
}

impl Clone for Expense {
    fn clone(&self) -> (copy: Self)
        ensures
            copy@ == self@,
    {
        let items = clone_items(&self.items);
        Expense {
            id: self.id,
            expense_title: self.expense_title.clone(),
            project_cost_center: self.project_cost_center.clone(),
            items,
            total_amount: self.total_amount,
            total_tax: self.total_tax,
            status: self.status,
            submitted_by: clone_text(&self.submitted_by),
            approved_by: clone_text(&self.approved_by),
            submitted_at: self.submitted_at,
            reviewed_at: self.reviewed_at,
            rejection_reason: clone_text(&self.rejection_reason),
            reimbursed_at: self.reimbursed_at,
            notes: clone_text(&self.notes),
            department: clone_text(&self.department),
            created_at: self.created_at,
            updated_at: self.updated_at,
        }
    }
}

/// A copy of a list of items.
pub fn clone_items(items: &Vec<ExpenseItem>) -> (copy: Vec<ExpenseItem>)
    ensures
        copy.deep_view() == items.deep_view(),
{
    let mut copy: Vec<ExpenseItem> = Vec::new();
    let mut i: usize = 0;
    while i < items.len()
        invariant
            i <= items.len(),
            copy.len() == i,
            forall|j: int| 0 <= j < i ==> copy[j]@ == items[j]@,
        decreases items.len() - i,
    {
        copy.push(items[i].clone());
        i += 1;
    }
    assert(copy.deep_view() =~= items.deep_view());
    copy
}

impl ExpenseView {
    /// What the lifecycle leaves behind in the audit fields: a report has a
    /// submission time and a submitter exactly from `Submitted` on, and items
    /// from then on; an approver and a review time exactly once it is approved
    /// or rejected; a rejection reason exactly while `Rejected`; and a
    /// reimbursement time exactly while `Reimbursed`.
    pub open spec fn lifecycle_consistent(self) -> bool {
        &&& self.status != ExpenseStatus::Draft <==> self.submitted_at is Some
        &&& self.status != ExpenseStatus::Draft ==> self.submitted_by is Some
        &&& self.status != ExpenseStatus::Draft ==> self.items.len() > 0
        &&& self.status.rank() >= 2 <==> self.reviewed_at is Some
        &&& self.status.rank() >= 2 <==> self.approved_by is Some
        &&& self.status == ExpenseStatus::Rejected <==> self.rejection_reason is Some
        &&& self.status == ExpenseStatus::Reimbursed <==> self.reimbursed_at is Some
    }

    /// Whether this report and `other` agree in all that is not state or
    /// audit trail.
    pub open spec fn same_content(self, other: ExpenseView) -> bool {
        &&& self.id == other.id
        &&& self.expense_title == other.expense_title
        &&& self.project_cost_center == other.project_cost_center
        &&& self.items == other.items
        &&& self.total_amount == other.total_amount
        &&& self.total_tax == other.total_tax
        &&& self.notes == other.notes
        &&& self.department == other.department
        &&& self.created_at == other.created_at
    }

    /// Whether this report and `other` agree in who submitted them, and
    /// when.
    pub open spec fn same_submission(self, other: ExpenseView) -> bool {
        self.submitted_by == other.submitted_by && self.submitted_at == other.submitted_at
    }

    /// Whether this report and `other` agree in who reviewed them, when, and
    /// with what reason.
    pub open spec fn same_review(self, other: ExpenseView) -> bool {
        &&& self.approved_by == other.approved_by
        &&& self.reviewed_at == other.reviewed_at
        &&& self.rejection_reason == other.rejection_reason
    }

    /// The report as `Expense::submit_at` leaves it: on a draft with items,
    /// submitted by `user` at `now`; else refused and unchanged.
    pub open spec fn submit_outcome(self, user: Seq<char>, now: i64) -> (
        Result<(), ExpenseError>,
        ExpenseView,
    ) {
        if self.status != ExpenseStatus::Draft {
            (
                Err(
                    ExpenseError::InvalidTransition {
                        from: self.status,
                        to: ExpenseStatus::Submitted,
                    },
                ),
                self,
            )
        } else if self.items.len() == 0 {
            (Err(ExpenseError::Validation(ValidationError::NoItems)), self)
        } else {
            (
                Ok(()),
                ExpenseView {
                    status: ExpenseStatus::Submitted,
                    submitted_by: Some(user),
                    submitted_at: Some(now),
                    updated_at: Some(now),
                    ..self
                },
            )
        }
    }

    /// The report as `Expense::approve_at` leaves it: a submitted report is
    /// approved by `approver` at `now`; any other is refused and unchanged.
    pub open spec fn approve_outcome(self, approver: Seq<char>, now: i64) -> (
        Result<(), ExpenseError>,
        ExpenseView,
    ) {
        if self.status != ExpenseStatus::Submitted {
            (
                Err(
                    ExpenseError::InvalidTransition {
                        from: self.status,
                        to: ExpenseStatus::Approved,
                    },
                ),
                self,
            )
        } else {
            (
                Ok(()),
                ExpenseView {
                    status: ExpenseStatus::Approved,
                    approved_by: Some(approver),
                    reviewed_at: Some(now),
                    updated_at: Some(now),
                    ..self
                },
            )
        }
    }

    /// The report as `Expense::reject_at` leaves it: a submitted report is
    /// rejected by `approver` at `now` for a `reason` that is not blank; else
    /// refused and unchanged.
    pub open spec fn reject_outcome(self, approver: Seq<char>, reason: Seq<char>, now: i64) -> (
        Result<(), ExpenseError>,
        ExpenseView,
    ) {
        if self.status != ExpenseStatus::Submitted {
            (
                Err(
                    ExpenseError::InvalidTransition {
                        from: self.status,
                        to: ExpenseStatus::Rejected,
                    },
                ),
                self,
            )
        } else if is_blank(reason) {
            (Err(ExpenseError::Validation(ValidationError::ReasonRequired)), self)
        } else {
            (
                Ok(()),
                ExpenseView {
                    status: ExpenseStatus::Rejected,
                    approved_by: Some(approver),
                    reviewed_at: Some(now),
                    rejection_reason: Some(reason),
                    updated_at: Some(now),
                    ..self
                },
            )
        }
    }

    /// The report as `Expense::mark_reimbursed_at` leaves it: an approved
    /// report is reimbursed at `now`; any other is refused and unchanged.
    pub open spec fn reimburse_outcome(self, now: i64) -> (Result<(), ExpenseError>, ExpenseView) {
        if self.status != ExpenseStatus::Approved {
            (
                Err(
                    ExpenseError::InvalidTransition {
                        from: self.status,
                        to: ExpenseStatus::Reimbursed,
                    },
                ),
                self,
            )
        } else {
            (
                Ok(()),
                ExpenseView {
                    status: ExpenseStatus::Reimbursed,
                    reimbursed_at: Some(now),
                    updated_at: Some(now),
                    ..self
                },
            )
        }
    }
}

impl ExpenseView {
    /// What stands in the way of the step to `to`, once the lifecycle allows
    /// it: a report needs items to be submitted, and a rejection needs a
    /// reason that is not blank.
    pub open spec fn guard_holds(self, to: ExpenseStatus, reason: Seq<char>) -> bool {
        &&& to == ExpenseStatus::Submitted ==> self.items.len() > 0
        &&& to == ExpenseStatus::Rejected ==> !is_blank(reason)
    }

    /// The report as `Expense::transition_at` leaves it: as the operation
    /// that leads to `to` leaves it; no operation leads to `Draft`.
    pub open spec fn transition_outcome(
        self,
        to: ExpenseStatus,
        actor: Seq<char>,
        reason: Seq<char>,
        now: i64,
    ) -> (Result<(), ExpenseError>, ExpenseView) {
        match to {
            ExpenseStatus::Draft => (
                Err(ExpenseError::InvalidTransition { from: self.status, to }),
                self,
            ),
            ExpenseStatus::Submitted => self.submit_outcome(actor, now),
            ExpenseStatus::Approved => self.approve_outcome(actor, now),
            ExpenseStatus::Rejected => self.reject_outcome(actor, reason, now),
            ExpenseStatus::Reimbursed => self.reimburse_outcome(now),
        }
    }
}

/// A new draft with the given title and project, created at `now`.
pub open spec fn new_draft(title: Seq<char>, project: Seq<char>, now: i64) -> ExpenseView {
    ExpenseView {
        id: None,
        expense_title: title,
        project_cost_center: project,
        items: Seq::empty(),
        total_amount: 0,
        total_tax: 0,
        status: ExpenseStatus::Draft,
        submitted_by: None,
        approved_by: None,
        submitted_at: None,
        reviewed_at: None,
        rejection_reason: None,
        reimbursed_at: None,
        notes: None,
        department: None,
        created_at: Some(now),
        updated_at: Some(now),
    }
}

impl Expense {
    /// A new draft without items, created at `now`.
    pub fn new_at(title: String, project_cost_center: String, now: i64) -> (expense: Self)
        ensures
            expense@ == new_draft(title@, project_cost_center@, now),
    {
        let expense = Expense {
            id: None,
            expense_title: title,
            project_cost_center,
            items: Vec::new(),
            total_amount: 0,
            total_tax: 0,
            status: ExpenseStatus::Draft,
            submitted_by: None,
            approved_by: None,
            submitted_at: None,
            reviewed_at: None,
            rejection_reason: None,
            reimbursed_at: None,
            notes: None,
            department: None,
            created_at: Some(now),
            updated_at: Some(now),
        };
        assert(expense@.items =~= Seq::empty());
        expense
    }

    /// A new draft without items, created now.
    pub fn new(title: String, project_cost_center: String) -> (expense: Self)
        ensures
            exists|now: i64| expense@ == #[trigger] new_draft(title@, project_cost_center@, now),
    {
        let now = now_millis();
        Expense::new_at(title, project_cost_center, now)
    }

    /// Sets both totals to the sums over the items.
    pub fn calculate_total(&mut self)
        ensures
            final(self)@ == old(self)@.with_totals(),
            final(self)@.totals_consistent(),
    {
        let ghost items = self.items.deep_view();
        let mut total: i128 = 0;
        let mut tax: i128 = 0;
        let mut i: usize = 0;
        while i < self.items.len()
            invariant
                i <= self.items.len(),
                self.items.deep_view() == items,
                *self == *old(self),
                total == sum_amounts(items.take(i as int)),
                tax == sum_taxes(items.take(i as int)),
            decreases self.items.len() - i,
        {
            proof {
                sums_are_bounded(items.take(i as int));
                assert(items.take(i + 1).drop_last() =~= items.take(i as int));
            }
            let item = &self.items[i];
            total = total + item.amount as i128;
            tax = tax + match item.tax_amount {
                Some(t) => t as i128,
                None => 0,
            };
            i += 1;
        }
        proof {
            assert(items.take(i as int) =~= items);
            sums_are_bounded(items);
        }
        self.total_amount = total;
        self.total_tax = tax;
    }

    /// The total amount with the total tax added, for a report whose totals
    /// add up to a number that the machine can hold.
    pub fn grand_total(&self) -> (total: i128)
        requires
            i128::MIN <= self.total_amount + self.total_tax <= i128::MAX,
        ensures
            total == self.total_amount + self.total_tax,
    {
        self.total_amount + self.total_tax
    }

    /// The total amount with the total tax added, or nothing where the
    /// machine cannot hold their sum.
    pub fn checked_grand_total(&self) -> (total: Option<i128>)
        ensures
            total is Some <==> i128::MIN <= self.total_amount + self.total_tax <= i128::MAX,
            total matches Some(sum) ==> sum == self.total_amount + self.total_tax,
    {
        match self.total_amount.checked_add(self.total_tax) {
            Some(_) => Some(self.grand_total()),
            None => None,
        }
    }

    /// Checks the report against the rules, in their order: title, project,
    /// each item in turn, total.
    pub fn validate(&self) -> (r: Result<(), ValidationError>)
        ensures
            r is Ok <==> self@.is_valid(),
            r matches Err(e) ==> self@.first_problem_is(e),
    {
        if text_is_blank(self.expense_title.as_str()) {
            return Err(ValidationError::TitleRequired);
        }
        if text_is_blank(self.project_cost_center.as_str()) {
            return Err(ValidationError::ProjectRequired);
        }
        let ghost items = self.items.deep_view();
        let mut i: usize = 0;
        while i < self.items.len()
            invariant
                i <= self.items.len(),
                self.items.deep_view() == items,
                !is_blank(self.expense_title@),
                !is_blank(self.project_cost_center@),
                all_valid(items.take(i as int)),
            decreases self.items.len() - i,
        {
            match self.items[i].validate() {
                Ok(()) => {},
                Err(reason) => {
                    proof {
                        assert(items[i as int] == self.items[i as int]@);
                        assert(self@.items == items);
                        assert(items.len() == self.items.len());
                    }
                    return Err(ValidationError::Item { index: i, reason });
                },
            }
            proof {
                assert(items[i as int] == self.items[i as int]@);
                assert forall|j: int| 0 <= j < i + 1 implies (#[trigger] items.take(
                    i + 1,
                )[j]).is_valid() by {
                    if j < i {
                        assert(items.take(i as int)[j].is_valid());
                    }
                }
            }
            i += 1;
        }
        proof {
            assert(items.take(i as int) =~= items);
        }
        if self.total_amount < 0 {
            return Err(ValidationError::NegativeTotal);
        }
        Ok(())
    }

    /// Whether the items may be edited: only in a draft.
    pub fn is_editable(&self) -> (b: bool)
        ensures
            b == (self@.status == ExpenseStatus::Draft),
    {
        self.status == ExpenseStatus::Draft
    }

    /// Whether the report may be submitted: a draft with at least one item.
    pub fn can_submit(&self) -> (b: bool)
        ensures
            b == (self@.status == ExpenseStatus::Draft && self@.items.len() > 0),
    {
        self.status == ExpenseStatus::Draft && self.items.len() > 0
    }

    /// Whether the report may be approved: only when submitted.
    pub fn can_approve(&self) -> (b: bool)
        ensures
            b == (self@.status == ExpenseStatus::Submitted),
    {
        self.status == ExpenseStatus::Submitted
    }

    /// Whether the report may be rejected: only when submitted.
    pub fn can_reject(&self) -> (b: bool)
        ensures
            b == (self@.status == ExpenseStatus::Submitted),
    {
        self.status == ExpenseStatus::Submitted
    }

    /// Hands a draft with items in for review, for `user_id` at `now`.
    pub fn submit_at(&mut self, user_id: String, now: i64) -> (r: Result<(), ExpenseError>)
        ensures
            (r, final(self)@) == old(self)@.submit_outcome(user_id@, now),
    {
        if self.status != ExpenseStatus::Draft {
            return Err(
                ExpenseError::InvalidTransition { from: self.status, to: ExpenseStatus::Submitted },
            );
        }
        if self.items.len() == 0 {
            return Err(ExpenseError::Validation(ValidationError::NoItems));
        }
        self.status = ExpenseStatus::Submitted;
        self.submitted_by = Some(user_id);
        self.submitted_at = Some(now);
        self.updated_at = Some(now);
        Ok(())
    }

    /// Hands a draft with items in for review, for `user_id`, now.
    pub fn submit(&mut self, user_id: String) -> (r: Result<(), ExpenseError>)
        ensures
            exists|now: i64| (r, final(self)@) == #[trigger] old(self)@.submit_outcome(user_id@, now),
    {
        let now = now_millis();
        self.submit_at(user_id, now)
    }

    /// Approves a submitted report, for `approver_id` at `now`.
    pub fn approve_at(&mut self, approver_id: String, now: i64) -> (r: Result<(), ExpenseError>)
        ensures
            (r, final(self)@) == old(self)@.approve_outcome(approver_id@, now),
    {
        if self.status != ExpenseStatus::Submitted {
            return Err(
                ExpenseError::InvalidTransition { from: self.status, to: ExpenseStatus::Approved },
            );
        }
        self.status = ExpenseStatus::Approved;
        self.approved_by = Some(approver_id);
        self.reviewed_at = Some(now);
        self.updated_at = Some(now);
        Ok(())
    }

    /// Approves a submitted report, for `approver_id`, now.
    pub fn approve(&mut self, approver_id: String) -> (r: Result<(), ExpenseError>)
        ensures
            exists|now: i64|
                (r, final(self)@) == #[trigger] old(self)@.approve_outcome(approver_id@, now),
    {
        let now = now_millis();
        self.approve_at(approver_id, now)
    }

    /// Rejects a submitted report, for `approver_id` at `now`, with a reason
    /// that is not blank.
    pub fn reject_at(&mut self, approver_id: String, reason: String, now: i64) -> (r: Result<
        (),
        ExpenseError,
    >)
        ensures
            (r, final(self)@) == old(self)@.reject_outcome(approver_id@, reason@, now),
    {
        if self.status != ExpenseStatus::Submitted {
            return Err(
                ExpenseError::InvalidTransition { from: self.status, to: ExpenseStatus::Rejected },
            );
        }
        if text_is_blank(reason.as_str()) {
            return Err(ExpenseError::Validation(ValidationError::ReasonRequired));
        }
        self.status = ExpenseStatus::Rejected;
        self.approved_by = Some(approver_id);
        self.reviewed_at = Some(now);
        self.rejection_reason = Some(reason);
        self.updated_at = Some(now);
        Ok(())
    }

    /// Rejects a submitted report, for `approver_id`, now, with a reason that
    /// is not blank.
    pub fn reject(&mut self, approver_id: String, reason: String) -> (r: Result<(), ExpenseError>)
        ensures
            exists|now: i64|
                (r, final(self)@) == #[trigger] old(self)@.reject_outcome(
                    approver_id@,
                    reason@,
                    now,
                ),
    {
        let now = now_millis();
        self.reject_at(approver_id, reason, now)
    }

    /// Marks an approved report as reimbursed at `now`.
    pub fn mark_reimbursed_at(&mut self, now: i64) -> (r: Result<(), ExpenseError>)
        ensures
            (r, final(self)@) == old(self)@.reimburse_outcome(now),
    {
        if self.status != ExpenseStatus::Approved {
            return Err(
                ExpenseError::InvalidTransition {
                    from: self.status,
                    to: ExpenseStatus::Reimbursed,
                },
            );
        }
        self.status = ExpenseStatus::Reimbursed;
        self.reimbursed_at = Some(now);
        self.updated_at = Some(now);
        Ok(())
    }

    /// Marks an approved report as reimbursed, now.
    pub fn mark_reimbursed(&mut self) -> (r: Result<(), ExpenseError>)
        ensures
            exists|now: i64| (r, final(self)@) == #[trigger] old(self)@.reimburse_outcome(now),
    {
        let now = now_millis();
        self.mark_reimbursed_at(now)
    }

    /// Takes the report to the state `to` at `now`, if the lifecycle leads
    /// there from where the report stands: on behalf of `actor`, who submits,
    /// approves or rejects, and for `reason` where the report is rejected.
    pub fn transition_at(&mut self, to: ExpenseStatus, actor: String, reason: String, now: i64) -> (r:
        Result<(), ExpenseError>)
        ensures
            (r, final(self)@) == old(self)@.transition_outcome(to, actor@, reason@, now),
    {
        match to {
            ExpenseStatus::Draft => Err(
                ExpenseError::InvalidTransition { from: self.status, to },
            ),
            ExpenseStatus::Submitted => self.submit_at(actor, now),
            ExpenseStatus::Approved => self.approve_at(actor, now),
            ExpenseStatus::Rejected => self.reject_at(actor, reason, now),
            ExpenseStatus::Reimbursed => self.mark_reimbursed_at(now),
        }
    }

    /// Takes the report to the state `to`, now, as `transition_at` does.
    pub fn transition(&mut self, to: ExpenseStatus, actor: String, reason: String) -> (r: Result<
        (),
        ExpenseError,
    >)
        ensures
            exists|now: i64|
                (r, final(self)@) == #[trigger] old(self)@.transition_outcome(
                    to,
                    actor@,
                    reason@,
                    now,
                ),
    {
        let now = now_millis();
        self.transition_at(to, actor, reason, now)
    }
}

/// The receipt keys that `items` refer to, in the order of the items.
pub open spec fn receipt_keys(items: Seq<ExpenseItemView>) -> Seq<Seq<char>>
    decreases items.len(),
{
    if items.len() == 0 {
        Seq::empty()
    } else {
        match items.last().receipt_file {
            Some(key) => receipt_keys(items.drop_last()).push(key),
            None => receipt_keys(items.drop_last()),
        }
    }
}

/// How many of `items` are of `category`.
pub open spec fn count_in_category(items: Seq<ExpenseItemView>, category: Seq<char>) -> nat
    decreases items.len(),
{
    if items.len() == 0 {
        0
    } else if items.last().expense_category == category {
        count_in_category(items.drop_last(), category) + 1
    } else {
        count_in_category(items.drop_last(), category)
    }
}

/// Whether one of `items` is in `currency`.
pub open spec fn has_currency(items: Seq<ExpenseItemView>, currency: Seq<char>) -> bool {
    exists|i: int| 0 <= i < items.len() && (#[trigger] items[i]).currency == currency
}

/// The sum of the amounts of those of `items` that are in `currency`.
pub open spec fn sum_in_currency(items: Seq<ExpenseItemView>, currency: Seq<char>) -> int
    decreases items.len(),
{
    if items.len() == 0 {
        0
    } else if items.last().currency == currency {
        sum_in_currency(items.drop_last(), currency) + items.last().amount
    } else {
        sum_in_currency(items.drop_last(), currency)
    }
}

/// No category holds more items than there are.
pub proof fn count_in_category_is_bounded(items: Seq<ExpenseItemView>, category: Seq<char>)
    ensures
        count_in_category(items, category) <= items.len(),
    decreases items.len(),
{
    if items.len() > 0 {
        count_in_category_is_bounded(items.drop_last(), category);
    }
}

/// The sum in one currency lies within the number of items times the range
/// of one amount.
pub proof fn sum_in_currency_is_bounded(items: Seq<ExpenseItemView>, currency: Seq<char>)
    ensures
        items.len() * i64::MIN <= sum_in_currency(items, currency) <= items.len() * i64::MAX,
    decreases items.len(),
{
    if items.len() > 0 {
        sum_in_currency_is_bounded(items.drop_last(), currency);
    }
}

/// A currency that no item is in sums to zero.
pub proof fn absent_currency_sums_to_zero(items: Seq<ExpenseItemView>, currency: Seq<char>)
    requires
        !has_currency(items, currency),
    ensures
        sum_in_currency(items, currency) == 0,
    decreases items.len(),
{
    if items.len() > 0 {
        assert(items[items.len() - 1].currency != currency);
        assert forall|i: int| 0 <= i < items.drop_last().len() implies (#[trigger] items.drop_last()[i]).currency
            != currency by {
            assert(items[i].currency != currency);
        }
        absent_currency_sums_to_zero(items.drop_last(), currency);
    }
}

impl Expense {
    /// The keys of all receipts that the items refer to, in the order of the
    /// items.
    pub fn get_receipt_files(&self) -> (keys: Vec<String>)
        ensures
            keys.deep_view() == receipt_keys(self@.items),
    {
        let ghost items = self.items.deep_view();
        let mut keys: Vec<String> = Vec::new();
        let mut i: usize = 0;
        while i < self.items.len()
            invariant
                i <= self.items.len(),
                self.items.deep_view() == items,
                keys.deep_view() == receipt_keys(items.take(i as int)),
            decreases self.items.len() - i,
        {
            proof {
                assert(items.take(i + 1).drop_last() =~= items.take(i as int));
                assert(items[i as int] == self.items[i as int]@);
            }
            let ghost before = keys.deep_view();
            match &self.items[i].receipt_file {
                Some(key) => {
                    keys.push(key.clone());
                    assert(keys.deep_view() =~= before.push(key@));
                },
                None => {},
            }
            i += 1;
        }
        proof {
            assert(items.take(i as int) =~= items);
        }
        keys
    }

    /// For each category that occurs among the items, the number of items
    /// in it.
    pub fn count_by_category(&self) -> (counts: StringHashMap<usize>)
        ensures
            forall|category: Seq<char>|
                counts@.contains_key(category) <==> #[trigger] count_in_category(
                    self@.items,
                    category,
                ) > 0,
            forall|category: Seq<char>|
                counts@.contains_key(category) ==> counts@[category] == #[trigger] count_in_category(
                    self@.items,
                    category,
                ),
    {
        let ghost items = self.items.deep_view();
        let mut counts: StringHashMap<usize> = StringHashMap::new();
        let mut i: usize = 0;
        while i < self.items.len()
            invariant
                i <= self.items.len(),
                self.items.deep_view() == items,
                forall|category: Seq<char>|
                    counts@.contains_key(category) <==> #[trigger] count_in_category(
                        items.take(i as int),
                        category,
                    ) > 0,
                forall|category: Seq<char>|
                    counts@.contains_key(category) ==> counts@[category]
                        == #[trigger] count_in_category(items.take(i as int), category),
            decreases self.items.len() - i,
        {
            let item = &self.items[i];
            proof {
                assert(items.take(i + 1).drop_last() =~= items.take(i as int));
                assert(items[i as int] == self.items[i as int]@);
                count_in_category_is_bounded(items.take(i as int), item.expense_category@);
            }
            let so_far: usize = match counts.get(item.expense_category.as_str()) {
                Some(n) => *n,
                None => 0,
            };
            let ghost before = counts@;
            counts.insert(item.expense_category.clone(), so_far + 1);
            proof {
                assert forall|category: Seq<char>|
                    (counts@.contains_key(category) <==> #[trigger] count_in_category(
                        items.take(i + 1),
                        category,
                    ) > 0) && (counts@.contains_key(category) ==> counts@[category]
                        == count_in_category(items.take(i + 1), category)) by {
                    let earlier = count_in_category(items.take(i as int), category);
                    assert(before.contains_key(category) <==> earlier > 0);
                }
            }
            i += 1;
        }
        proof {
            assert(items.take(i as int) =~= items);
        }
        counts
    }

    /// For each currency that occurs among the items, the sum of the amounts
    /// in it.
    pub fn total_by_currency(&self) -> (totals: StringHashMap<i128>)
        ensures
            forall|currency: Seq<char>|
                totals@.contains_key(currency) <==> has_currency(self@.items, currency),
            forall|currency: Seq<char>|
                totals@.contains_key(currency) ==> totals@[currency] == #[trigger] sum_in_currency(
                    self@.items,
                    currency,
                ),
    {
        let ghost items = self.items.deep_view();
        let mut totals: StringHashMap<i128> = StringHashMap::new();
        let mut i: usize = 0;
        while i < self.items.len()
            invariant
                i <= self.items.len(),
                self.items.deep_view() == items,
                forall|currency: Seq<char>|
                    totals@.contains_key(currency) <==> has_currency(
                        items.take(i as int),
                        currency,
                    ),
                forall|currency: Seq<char>|
                    totals@.contains_key(currency) ==> totals@[currency]
                        == #[trigger] sum_in_currency(items.take(i as int), currency),
            decreases self.items.len() - i,
        {
            let item = &self.items[i];
            proof {
                assert(items.take(i + 1).drop_last() =~= items.take(i as int));
                assert(items[i as int] == self.items[i as int]@);
                sum_in_currency_is_bounded(items.take(i as int), item.currency@);
                assert forall|currency: Seq<char>|
                    has_currency(items.take(i + 1), currency) <==> (has_currency(
                        items.take(i as int),
                        currency,
                    ) || currency == item.currency@) by {
                    if has_currency(items.take(i + 1), currency) {
                        let k = choose|k: int|
                            0 <= k < items.take(i + 1).len() && (#[trigger] items.take(
                                i + 1,
                            )[k]).currency == currency;
                        if k < i {
                            assert(items.take(i as int)[k].currency == currency);
                        }
                    }
                    if has_currency(items.take(i as int), currency) {
                        let k = choose|k: int|
                            0 <= k < items.take(i as int).len() && (#[trigger] items.take(
                                i as int,
                            )[k]).currency == currency;
                        assert(items.take(i + 1)[k].currency == currency);
                    }
                    if currency == item.currency@ {
                        assert(items.take(i + 1)[i as int].currency == currency);
                    }
                }
            }
            let so_far: i128 = match totals.get(item.currency.as_str()) {
                Some(n) => *n,
                None => 0,
            };
            let ghost before = totals@;
            totals.insert(item.currency.clone(), so_far + item.amount as i128);
            proof {
                assert forall|currency: Seq<char>| totals@.contains_key(currency) implies totals@[currency]
                    == #[trigger] sum_in_currency(items.take(i + 1), currency) by {
                    let earlier = sum_in_currency(items.take(i as int), currency);
                    assert(before.contains_key(currency) ==> before[currency] == earlier);
                    if !has_currency(items.take(i as int), currency) {
                        absent_currency_sums_to_zero(items.take(i as int), currency);
                    }
                }
            }
            i += 1;
        }
        proof {
            assert(items.take(i as int) =~= items);
        }
        totals
    }
}

/// A valid report breaks no rule.
pub proof fn valid_report_breaks_no_rule(report: ExpenseView, problem: ValidationError)
    requires
        report.is_valid(),
    ensures
        !report.first_problem_is(problem),
{
    if let ValidationError::Item { index, reason } = problem {
        if index < report.items.len() {
            assert(report.items[index as int].is_valid());
        }
    }
}

/// Where not every item is valid, one of them is the first that is not.
pub proof fn first_invalid_item(items: Seq<ExpenseItemView>) -> (index: int)
    requires
        !all_valid(items),
    ensures
        0 <= index < items.len(),
        all_valid(items.take(index)),
        !items[index].is_valid(),
    decreases items.len(),
{
    if all_valid(items.drop_last()) {
        let last = items.len() - 1;
        assert(items.take(last) =~= items.drop_last());
        if items[last].is_valid() {
            assert forall|i: int| 0 <= i < items.len() implies (#[trigger] items[i]).is_valid() by {
                if i < last {
                    assert(items.drop_last()[i].is_valid());
                }
            }
        }
        last
    } else {
        let index = first_invalid_item(items.drop_last());
        assert(items.take(index) =~= items.drop_last().take(index));
        assert(items[index] == items.drop_last()[index]);
        index
    }
}

/// A report that is not valid breaks a rule: validation always has an
/// answer. This is said of a report with no more items than the machine can
/// count.
pub proof fn invalid_report_breaks_a_rule(report: ExpenseView)
    requires
        !report.is_valid(),
        report.items.len() <= usize::MAX,
    ensures
        exists|problem: ValidationError| report.first_problem_is(problem),
{
    if is_blank(report.expense_title) {
        assert(report.first_problem_is(ValidationError::TitleRequired));
    } else if is_blank(report.project_cost_center) {
        assert(report.first_problem_is(ValidationError::ProjectRequired));
    } else if !all_valid(report.items) {
        let index = first_invalid_item(report.items);
        item_valid_iff_no_problem(report.items[index]);
        let reason = report.items[index].problem()->0;
        assert(report.first_problem_is(ValidationError::Item { index: index as usize, reason }));
    } else {
        assert(report.first_problem_is(ValidationError::NegativeTotal));
    }
}

/// A report breaks at most one rule first.
pub proof fn first_problem_is_unique(
    report: ExpenseView,
    first: ValidationError,
    second: ValidationError,
)
    requires
        report.first_problem_is(first),
        report.first_problem_is(second),
    ensures
        first == second,
{
    match (first, second) {
        (
            ValidationError::Item { index: i, reason: _ },
            ValidationError::Item { index: j, reason: _ },
        ) => {
            if i < j {
                assert(report.items.take(j as int)[i as int].is_valid());
            }
            if j < i {
                assert(report.items.take(i as int)[j as int].is_valid());
            }
        },
        (ValidationError::Item { index, reason: _ }, ValidationError::NegativeTotal) => {
            assert(report.items[index as int].is_valid());
        },
        (ValidationError::NegativeTotal, ValidationError::Item { index, reason: _ }) => {
            assert(report.items[index as int].is_valid());
        },
        _ => {},
    }
}

/// The transitions follow the lifecycle and nothing else. A transition that
/// succeeds is a step of the lifecycle and lands in the state asked for; one
/// that is no step of the lifecycle fails with `InvalidTransition`, naming
/// both states, and changes nothing; and one that is a step succeeds exactly
/// when its guard holds.
pub proof fn transitions_follow_the_lifecycle(
    report: ExpenseView,
    to: ExpenseStatus,
    actor: Seq<char>,
    reason: Seq<char>,
    now: i64,
)
    ensures
        report.transition_outcome(to, actor, reason, now).0 is Ok ==> report.status.leads_to(to)
            && report.transition_outcome(to, actor, reason, now).1.status == to,
        !report.status.leads_to(to) ==> report.transition_outcome(to, actor, reason, now) == (
            Err::<(), ExpenseError>(ExpenseError::InvalidTransition { from: report.status, to }),
            report,
        ),
        report.status.leads_to(to) ==> (report.transition_outcome(to, actor, reason, now).0 is Ok
            <==> report.guard_holds(to, reason)),
        report.transition_outcome(to, actor, reason, now).0 is Err ==> report.transition_outcome(
            to,
            actor,
            reason,
            now,
        ).1 == report,
{
}

/// A report without items cannot leave the draft state.
pub proof fn empty_report_cannot_be_submitted(report: ExpenseView, user: Seq<char>, now: i64)
    requires
        report.items.len() == 0,
    ensures
        report.submit_outcome(user, now).0 is Err,
        report.submit_outcome(user, now).1 == report,
        report.status == ExpenseStatus::Draft ==> report.submit_outcome(user, now).0 == Err::<
            (),
            ExpenseError,
        >(ExpenseError::Validation(ValidationError::NoItems)),
{
}

/// No transition touches the content of a report: its key, title, project,
/// items, totals, notes, department and time of creation.
pub proof fn transitions_keep_the_content(
    report: ExpenseView,
    to: ExpenseStatus,
    actor: Seq<char>,
    reason: Seq<char>,
    now: i64,
)
    ensures
        report.transition_outcome(to, actor, reason, now).1.same_content(report),
        report.totals_consistent() ==> report.transition_outcome(
            to,
            actor,
            reason,
            now,
        ).1.totals_consistent(),
{
}

/// The transitions keep the audit trail in step with the state, and what
/// one step has written the later steps leave alone: the submitter and the
/// time of submission from `Submitted` on, the approver, the time of the
/// decision and the reason of a rejection once the report is decided.
pub proof fn transitions_keep_the_audit_trail(
    report: ExpenseView,
    to: ExpenseStatus,
    actor: Seq<char>,
    reason: Seq<char>,
    now: i64,
)
    requires
        report.lifecycle_consistent(),
    ensures
        report.transition_outcome(to, actor, reason, now).1.lifecycle_consistent(),
        report.status != ExpenseStatus::Draft ==> report.transition_outcome(
            to,
            actor,
            reason,
            now,
        ).1.same_submission(report),
        report.status.rank() >= 2 ==> report.transition_outcome(
            to,
            actor,
            reason,
            now,
        ).1.same_review(report),
{
}

/// A new draft has consistent totals and a consistent, empty audit trail.
pub proof fn new_draft_is_consistent(title: Seq<char>, project: Seq<char>, now: i64)
    ensures
        new_draft(title, project, now).totals_consistent(),
        new_draft(title, project, now).lifecycle_consistent(),
        new_draft(title, project, now).status == ExpenseStatus::Draft,
{
    assert(sum_amounts(Seq::<ExpenseItemView>::empty()) == 0);
    assert(sum_taxes(Seq::<ExpenseItemView>::empty()) == 0);
}

} // verus!
