//! What is decided about expense reports before they are stored and after
//! they are read: what a new report looks like, what an update yields, which
//! reports a query is about, and the statistics over them.

use crate::clock::now_millis;
use crate::error::{ExpenseError, ValidationError};
use crate::models::expense::{valid_items_sum_non_negative, Expense, ExpenseStatus, ExpenseView};
use crate::models::expense_request::{outcome_view, UpdateExpenseRequest};
use crate::text::{is_blank, same_text, text_is_blank, text_of};
use vstd::prelude::*;

verus! {

/// Which reports a query is about.
#[derive(Debug)]
pub enum ExpenseFilter {
    /// All of them.
    All,
    /// Those booked on one project or cost center.
    Project(String),
    /// Those created from `start` to `end`, both included.
    CreatedBetween { start: i64, end: i64 },
}

/// A filter, as mathematical values.
pub enum ExpenseFilterView {
    All,
    Project(Seq<char>),
    CreatedBetween { start: i64, end: i64 },
}

impl View for ExpenseFilter {
    type V = ExpenseFilterView;

    open spec fn view(&self) -> ExpenseFilterView {
        match self {
            ExpenseFilter::All => ExpenseFilterView::All,
            ExpenseFilter::Project(project) => ExpenseFilterView::Project(project@),
            ExpenseFilter::CreatedBetween { start, end } => ExpenseFilterView::CreatedBetween {
                start: *start,
                end: *end,
            },
        }
    }
}

impl ExpenseFilterView {
    /// A range must not start after it ends.
    pub open spec fn is_well_formed(self) -> bool {
        self matches ExpenseFilterView::CreatedBetween { start, end } ==> start <= end
    }

    /// Whether the filter lets `report` through.
    pub open spec fn admits(self, report: ExpenseView) -> bool {
        match self {
            ExpenseFilterView::All => true,
            ExpenseFilterView::Project(project) => report.project_cost_center == project,
            ExpenseFilterView::CreatedBetween { start, end } => {
                report.created_at matches Some(created) && start <= created <= end
            },
        }
    }
}

impl ExpenseFilter {
    /// Refuses a range that starts after it ends.
    pub fn check(&self) -> (r: Result<(), ExpenseError>)
        ensures
            r is Ok <==> self@.is_well_formed(),
            r matches Err(e) ==> e == ExpenseError::InvalidRange,
    {
        match self {
            ExpenseFilter::CreatedBetween { start, end } => {
                if *start > *end {
                    Err(ExpenseError::InvalidRange)
                } else {
                    Ok(())
                }
            },
            _ => Ok(()),
        }
    }

    /// Whether the filter lets `report` through.
    pub fn admits(&self, report: &Expense) -> (b: bool)
        ensures
            b == self@.admits(report@),
    {
        match self {
            ExpenseFilter::All => true,
            ExpenseFilter::Project(project) => same_text(
                report.project_cost_center.as_str(),
                project.as_str(),
            ),
            ExpenseFilter::CreatedBetween { start, end } => {
                match report.created_at {
                    Some(created) => *start <= created && created <= *end,
                    None => false,
                }
            },
        }
    }
}

/// The total amounts of those of `reports` that `filter` lets through, in
/// their order.
pub open spec fn selected_totals(reports: Seq<ExpenseView>, filter: ExpenseFilterView) -> Seq<int>
    decreases reports.len(),
{
    if reports.len() == 0 {
        Seq::empty()
    } else if filter.admits(reports.last()) {
        selected_totals(reports.drop_last(), filter).push(reports.last().total_amount)
    } else {
        selected_totals(reports.drop_last(), filter)
    }
}

/// The sum of `values`.
pub open spec fn sum_of(values: Seq<int>) -> int
    decreases values.len(),
{
    if values.len() == 0 {
        0
    } else {
        sum_of(values.drop_last()) + values.last()
    }
}

/// Whether the sum of each leading part of `values` fits the widest machine
/// integer, so that the values can be added up one by one.
pub open spec fn sums_fit(values: Seq<int>) -> bool {
    forall|n: int|
        0 <= n <= values.len() ==> i128::MIN <= #[trigger] sum_of(values.take(n)) <= i128::MAX
}

/// `a` divided by `b`, rounded toward zero.
pub open spec fn quotient_toward_zero(a: int, b: int) -> int {
    if a >= 0 {
        a / b
    } else {
        -((-a) / b)
    }
}

/// Whether `least` is the least of `values`: zero where there are none.
pub open spec fn is_least_of(least: int, values: Seq<int>) -> bool {
    if values.len() == 0 {
        least == 0
    } else {
        &&& exists|i: int| 0 <= i < values.len() && #[trigger] values[i] == least
        &&& forall|i: int| 0 <= i < values.len() ==> least <= #[trigger] values[i]
    }
}

/// Whether `greatest` is the greatest of `values`: zero where there are none.
pub open spec fn is_greatest_of(greatest: int, values: Seq<int>) -> bool {
    if values.len() == 0 {
        greatest == 0
    } else {
        &&& exists|i: int| 0 <= i < values.len() && #[trigger] values[i] == greatest
        &&& forall|i: int| 0 <= i < values.len() ==> greatest >= #[trigger] values[i]
    }
}

/// Count, sum, average, least and greatest of a set of amounts.
#[derive(Debug, Clone, Copy, PartialEq, Eq, Structural)]
pub struct AmountStatistics {
    /// How many amounts there are.
    pub count: usize,
    /// Their sum.
    pub total: i128,
    /// Their average, rounded toward zero; zero where there are none.
    pub average: i128,
    /// The least of them; zero where there are none.
    pub minimum: i128,
    /// The greatest of them; zero where there are none.
    pub maximum: i128,
}

impl AmountStatistics {
    /// Whether these are the statistics of `values`.
    pub open spec fn describes(self, values: Seq<int>) -> bool {
        &&& self.count == values.len()
        &&& self.total == sum_of(values)
        &&& self.average == if values.len() == 0 {
            0
        } else {
            quotient_toward_zero(sum_of(values), values.len() as int)
        }
        &&& is_least_of(self.minimum as int, values)
        &&& is_greatest_of(self.maximum as int, values)
    }
}

/// A set of amounts has one set of statistics.
pub proof fn statistics_are_unique(
    first: AmountStatistics,
    second: AmountStatistics,
    values: Seq<int>,
)
    requires
        first.describes(values),
        second.describes(values),
    ensures
        first == second,
{
    if values.len() > 0 {
        let i = choose|i: int| 0 <= i < values.len() && #[trigger] values[i] == first.minimum;
        let j = choose|j: int| 0 <= j < values.len() && #[trigger] values[j] == second.minimum;
        assert(second.minimum <= values[i] && first.minimum <= values[j]);
        let k = choose|k: int| 0 <= k < values.len() && #[trigger] values[k] == first.maximum;
        let l = choose|l: int| 0 <= l < values.len() && #[trigger] values[l] == second.maximum;
        assert(second.maximum >= values[k] && first.maximum >= values[l]);
    }
}

/// The statistics of the total amounts of those of `reports` that `filter`
/// lets through.
///
/// Fails with `InvalidRange` where the filter is a range that starts after it
/// ends, and else with `AmountOverflow` where the totals cannot be added up
/// in the widest machine integer.
pub fn amount_statistics(reports: &Vec<Expense>, filter: &ExpenseFilter) -> (r: Result<
    AmountStatistics,
    ExpenseError,
>)
    ensures
        match r {
            Ok(statistics) => {
                &&& filter@.is_well_formed()
                &&& sums_fit(selected_totals(reports.deep_view(), filter@))
                &&& statistics.describes(selected_totals(reports.deep_view(), filter@))
            },
            Err(ExpenseError::InvalidRange) => !filter@.is_well_formed(),
            Err(ExpenseError::AmountOverflow) => {
                &&& filter@.is_well_formed()
                &&& !sums_fit(selected_totals(reports.deep_view(), filter@))
            },
            Err(_) => false,
        },
{
    match filter.check() {
        Err(e) => {
            return Err(e);
        },
        Ok(()) => {},
    }
    let ghost all = reports.deep_view();
    let mut count: usize = 0;
    let mut total: i128 = 0;
    let mut minimum: i128 = 0;
    let mut maximum: i128 = 0;
    let mut i: usize = 0;
    while i < reports.len()
        invariant
            i <= reports.len(),
            reports.deep_view() == all,
            count == selected_totals(all.take(i as int), filter@).len(),
            count <= i,
            total == sum_of(selected_totals(all.take(i as int), filter@)),
            sums_fit(selected_totals(all.take(i as int), filter@)),
            is_least_of(minimum as int, selected_totals(all.take(i as int), filter@)),
            is_greatest_of(maximum as int, selected_totals(all.take(i as int), filter@)),
        decreases reports.len() - i,
    {
        let report = &reports[i];
        let ghost before = selected_totals(all.take(i as int), filter@);
        let ghost after = selected_totals(all.take(i + 1), filter@);
        proof {
            assert(all.take(i + 1).drop_last() =~= all.take(i as int));
            assert(all[i as int] == reports[i as int]@);
        }
        if filter.admits(report) {
            let amount = report.total_amount;
            proof {
                assert(after == before.push(amount as int));
                assert(after.drop_last() =~= before);
                assert forall|n: int| 0 <= n < after.len() implies after.take(n)
                    == before.take(n) by {
                    assert(after.take(n) =~= before.take(n));
                }
                assert(after.take(after.len() as int) =~= after);
            }
            match total.checked_add(amount) {
                Some(sum) => {
                    proof {
                        assert forall|n: int| 0 <= n <= after.len() implies i128::MIN
                            <= #[trigger] sum_of(after.take(n)) <= i128::MAX by {
                            if n < after.len() {
                                assert(after.take(n) == before.take(n));
                            }
                        }
                    }
                    if count == 0 || amount < minimum {
                        minimum = amount;
                    }
                    if count == 0 || amount > maximum {
                        maximum = amount;
                    }
                    proof {
                        let last = after.len() - 1;
                        assert(after[last] == amount);
                        assert forall|k: int| 0 <= k < after.len() implies minimum
                            <= #[trigger] after[k] && maximum >= after[k] by {
                            if k < last {
                                assert(after[k] == before[k]);
                            }
                        }
                        if minimum != amount {
                            let k = choose|k: int|
                                0 <= k < before.len() && #[trigger] before[k] == minimum;
                            assert(after[k] == minimum);
                        }
                        if maximum != amount {
                            let k = choose|k: int|
                                0 <= k < before.len() && #[trigger] before[k] == maximum;
                            assert(after[k] == maximum);
                        }
                    }
                    total = sum;
                    count = count + 1;
                },
                None => {
                    proof {
                        let whole = selected_totals(all, filter@);
                        selected_totals_grow(all, filter@, i + 1);
                        let n = after.len() as int;
                        assert(whole.take(n) == after);
                        assert(!(i128::MIN <= sum_of(whole.take(n)) <= i128::MAX));
                    }
                    return Err(ExpenseError::AmountOverflow);
                },
            }
        }
        i += 1;
    }
    proof {
        assert(all.take(i as int) =~= all);
    }
    let average: i128 = if count == 0 {
        0
    } else {
        total / (count as i128)
    };
    Ok(AmountStatistics { count, total, average, minimum, maximum })
}

/// The totals selected from the first `n` reports lead the totals selected
/// from all of them.
pub proof fn selected_totals_grow(reports: Seq<ExpenseView>, filter: ExpenseFilterView, n: int)
    requires
        0 <= n <= reports.len(),
    ensures
        selected_totals(reports.take(n), filter).len() <= selected_totals(reports, filter).len(),
        selected_totals(reports, filter).take(
            selected_totals(reports.take(n), filter).len() as int,
        ) == selected_totals(reports.take(n), filter),
    decreases reports.len(),
{
    if n == reports.len() {
        assert(reports.take(n) =~= reports);
        assert(selected_totals(reports, filter).take(
            selected_totals(reports, filter).len() as int,
        ) =~= selected_totals(reports, filter));
    } else {
        assert(reports.drop_last().take(n) =~= reports.take(n));
        selected_totals_grow(reports.drop_last(), filter, n);
        let shorter = selected_totals(reports.drop_last(), filter);
        let part = selected_totals(reports.take(n), filter);
        assert(selected_totals(reports, filter).take(part.len() as int) =~= shorter.take(
            part.len() as int,
        ));
    }
}

/// Summary statistics over expense reports.
#[derive(Debug, Clone, Copy, PartialEq, Eq, Structural)]
pub struct ExpenseSummary {
    pub total_expenses: usize,
    pub total_amount: i128,
    pub avg_amount: i128,
    pub min_amount: i128,
    pub max_amount: i128,
}

impl ExpenseSummary {
    /// The same numbers as amount statistics.
    pub open spec fn statistics(self) -> AmountStatistics {
        AmountStatistics {
            count: self.total_expenses,
            total: self.total_amount,
            average: self.avg_amount,
            minimum: self.min_amount,
            maximum: self.max_amount,
        }
    }
}

/// Statistics over the expense reports of one project.
#[derive(Debug)]
pub struct ProjectStatistics {
    pub project_name: String,
    pub total_expenses: usize,
    pub total_amount: i128,
    pub avg_amount: i128,
    pub min_amount: i128,
    pub max_amount: i128,
}

impl ProjectStatistics {
    /// The same numbers as amount statistics.
    pub open spec fn statistics(self) -> AmountStatistics {
        AmountStatistics {
            count: self.total_expenses,
            total: self.total_amount,
            average: self.avg_amount,
            minimum: self.min_amount,
            maximum: self.max_amount,
        }
    }
}

/// The projects and cost centers of `reports`, each once, in the order in
/// which they first occur.
pub open spec fn distinct_projects(reports: Seq<ExpenseView>) -> Seq<Seq<char>>
    decreases reports.len(),
{
    if reports.len() == 0 {
        Seq::empty()
    } else {
        let earlier = distinct_projects(reports.drop_last());
        if earlier.contains(reports.last().project_cost_center) {
            earlier
        } else {
            earlier.push(reports.last().project_cost_center)
        }
    }
}

/// The report as it is stored when it is created at `now`: without a key,
/// as a draft with an empty audit trail but for the submitter that the
/// request names, with the totals of its items, and with `now` for each
/// time stamp that the request leaves out.
pub open spec fn prepared_for_creation(request: ExpenseView, now: i64) -> ExpenseView {
    ExpenseView {
        id: None,
        status: ExpenseStatus::Draft,
        approved_by: None,
        submitted_at: None,
        reviewed_at: None,
        rejection_reason: None,
        reimbursed_at: None,
        created_at: match request.created_at {
            Some(created) => Some(created),
            None => Some(now),
        },
        updated_at: match request.updated_at {
            Some(updated) => Some(updated),
            None => Some(now),
        },
        ..request
    }.with_totals()
}

/// The rules for expense reports that stand between a request and the
/// store. The service holds no state: the store is the caller's.
#[derive(Debug, Clone, Copy)]
pub struct ExpenseService {}

impl ExpenseService {
    pub fn new() -> (service: Self) {
        ExpenseService {  }
    }

    /// Prepares a new report for the store, at `now`, and validates it.
    /// Either the whole prepared report comes back, or the first rule that it
    /// breaks.
    pub fn create_expense_at(&self, request: Expense, now: i64) -> (r: Result<
        Expense,
        ExpenseError,
    >)
        ensures
            match r {
                Ok(expense) => {
                    &&& expense@ == prepared_for_creation(request@, now)
                    &&& expense@.is_valid()
                    &&& expense@.totals_consistent()
                    &&& expense@.lifecycle_consistent()
                },
                Err(ExpenseError::Validation(problem)) => prepared_for_creation(
                    request@,
                    now,
                ).first_problem_is(problem),
                Err(_) => false,
            },
    {
        let mut expense = request;
        expense.id = None;
        expense.status = ExpenseStatus::Draft;
        expense.approved_by = None;
        expense.submitted_at = None;
        expense.reviewed_at = None;
        expense.rejection_reason = None;
        expense.reimbursed_at = None;
        if expense.created_at.is_none() {
            expense.created_at = Some(now);
        }
        if expense.updated_at.is_none() {
            expense.updated_at = Some(now);
        }
        expense.calculate_total();
        match expense.validate() {
            Ok(()) => Ok(expense),
            Err(problem) => Err(ExpenseError::Validation(problem)),
        }
    }

    /// Prepares a new report for the store, now, and validates it, as
    /// `create_expense_at` does.
    pub fn create_expense(&self, request: Expense) -> (r: Result<Expense, ExpenseError>)
        ensures
            match r {
                Ok(expense) => {
                    &&& exists|now: i64| expense@ == #[trigger] prepared_for_creation(request@, now)
                    &&& expense@.is_valid()
                    &&& expense@.totals_consistent()
                    &&& expense@.lifecycle_consistent()
                },
                Err(ExpenseError::Validation(problem)) => exists|now: i64| #[trigger]
                    prepared_for_creation(request@, now).first_problem_is(problem),
                Err(_) => false,
            },
    {
        let now = now_millis();
        self.create_expense_at(request, now)
    }

    /// Merges a sparse change into the stored report at `now`. Where nothing
    /// is stored under the key, the answer is `NotFound`; else it is that of
    /// `Expense::apply_update_at`.
    pub fn update_expense_at(
        &self,
        existing: Option<&Expense>,
        request: UpdateExpenseRequest,
        now: i64,
    ) -> (r: Result<Expense, ExpenseError>)
        ensures
            match existing {
                Some(stored) => stored@.update_yields(request@, now, outcome_view(r)),
                None => r matches Err(e) && e == ExpenseError::NotFound,
            },
    {
        match existing {
            None => Err(ExpenseError::NotFound),
            Some(stored) => stored.apply_update_at(request, now),
        }
    }

    /// Merges a sparse change into the stored report, now, as
    /// `update_expense_at` does.
    pub fn update_expense(&self, existing: Option<&Expense>, request: UpdateExpenseRequest) -> (r:
        Result<Expense, ExpenseError>)
        ensures
            match existing {
                Some(stored) => exists|now: i64| #[trigger]
                    stored@.update_yields(request@, now, outcome_view(r)),
                None => r matches Err(e) && e == ExpenseError::NotFound,
            },
    {
        let now = now_millis();
        self.update_expense_at(existing, request, now)
    }

    /// Checks a report against the rules, as `Expense::validate` does.
    pub fn validate_expense(&self, expense: &Expense) -> (r: Result<(), ValidationError>)
        ensures
            r is Ok <==> expense@.is_valid(),
            r matches Err(e) ==> expense@.first_problem_is(e),
    {
        expense.validate()
    }

    /// Summary statistics over those of `reports` that `filter` lets
    /// through.
    pub fn get_expense_summary(&self, reports: &Vec<Expense>, filter: &ExpenseFilter) -> (r: Result<
        ExpenseSummary,
        ExpenseError,
    >)
        ensures
            match r {
                Ok(summary) => {
                    &&& filter@.is_well_formed()
                    &&& sums_fit(selected_totals(reports.deep_view(), filter@))
                    &&& summary.statistics().describes(
                        selected_totals(reports.deep_view(), filter@),
                    )
                },
                Err(ExpenseError::InvalidRange) => !filter@.is_well_formed(),
                Err(ExpenseError::AmountOverflow) => {
                    &&& filter@.is_well_formed()
                    &&& !sums_fit(selected_totals(reports.deep_view(), filter@))
                },
                Err(_) => false,
            },
    {
        match amount_statistics(reports, filter) {
            Ok(statistics) => Ok(
                ExpenseSummary {
                    total_expenses: statistics.count,
                    total_amount: statistics.total,
                    avg_amount: statistics.average,
                    min_amount: statistics.minimum,
                    max_amount: statistics.maximum,
                },
            ),
            Err(e) => Err(e),
        }
    }

    /// Statistics over those of `reports` that are booked on
    /// `project_cost_center`.
    pub fn get_project_statistics(&self, project_cost_center: &str, reports: &Vec<Expense>) -> (r:
        Result<ProjectStatistics, ExpenseError>)
        ensures
            match r {
                Ok(statistics) => {
                    &&& statistics.project_name@ == project_cost_center@
                    &&& sums_fit(
                        selected_totals(
                            reports.deep_view(),
                            ExpenseFilterView::Project(project_cost_center@),
                        ),
                    )
                    &&& statistics.statistics().describes(
                        selected_totals(
                            reports.deep_view(),
                            ExpenseFilterView::Project(project_cost_center@),
                        ),
                    )
                },
                Err(ExpenseError::AmountOverflow) => !sums_fit(
                    selected_totals(
                        reports.deep_view(),
                        ExpenseFilterView::Project(project_cost_center@),
                    ),
                ),
                Err(_) => false,
            },
    {
        let filter = ExpenseFilter::Project(project_cost_center.to_owned());
        match amount_statistics(reports, &filter) {
            Ok(statistics) => Ok(
                ProjectStatistics {
                    project_name: project_cost_center.to_owned(),
                    total_expenses: statistics.count,
                    total_amount: statistics.total,
                    avg_amount: statistics.average,
                    min_amount: statistics.minimum,
                    max_amount: statistics.maximum,
                },
            ),
            Err(e) => Err(e),
        }
    }

    /// The sum of the totals of those of `reports` that are booked on
    /// `project_cost_center`.
    pub fn get_total_amount_by_project(&self, project_cost_center: &str, reports: &Vec<Expense>) -> (r:
        Result<i128, ExpenseError>)
        ensures
            match r {
                Ok(total) => {
                    &&& sums_fit(
                        selected_totals(
                            reports.deep_view(),
                            ExpenseFilterView::Project(project_cost_center@),
                        ),
                    )
                    &&& total == sum_of(
                        selected_totals(
                            reports.deep_view(),
                            ExpenseFilterView::Project(project_cost_center@),
                        ),
                    )
                },
                Err(ExpenseError::AmountOverflow) => !sums_fit(
                    selected_totals(
                        reports.deep_view(),
                        ExpenseFilterView::Project(project_cost_center@),
                    ),
                ),
                Err(_) => false,
            },
    {
        let filter = ExpenseFilter::Project(project_cost_center.to_owned());
        match amount_statistics(reports, &filter) {
            Ok(statistics) => Ok(statistics.total),
            Err(e) => Err(e),
        }
    }

    /// How many of `reports` are booked on `project_cost_center`.
    pub fn count_expenses_by_project(&self, project_cost_center: &str, reports: &Vec<Expense>) -> (count:
        usize)
        ensures
            count == selected_totals(
                reports.deep_view(),
                ExpenseFilterView::Project(project_cost_center@),
            ).len(),
    {
        let ghost all = reports.deep_view();
        let ghost filter = ExpenseFilterView::Project(project_cost_center@);
        let mut count: usize = 0;
        let mut i: usize = 0;
        while i < reports.len()
            invariant
                i <= reports.len(),
                reports.deep_view() == all,
                filter == ExpenseFilterView::Project(project_cost_center@),
                count == selected_totals(all.take(i as int), filter).len(),
                count <= i,
            decreases reports.len() - i,
        {
            proof {
                assert(all.take(i + 1).drop_last() =~= all.take(i as int));
                assert(all[i as int] == reports[i as int]@);
            }
            if same_text(reports[i].project_cost_center.as_str(), project_cost_center) {
                count = count + 1;
            }
            i += 1;
        }
        proof {
            assert(all.take(i as int) =~= all);
        }
        count
    }

    /// The projects and cost centers in use: those of `reports`, each once,
    /// in the order in which they first occur.
    pub fn get_all_projects(&self, reports: &Vec<Expense>) -> (projects: Vec<String>)
        ensures
            projects.deep_view() == distinct_projects(reports.deep_view()),
    {
        let ghost all = reports.deep_view();
        let mut projects: Vec<String> = Vec::new();
        let mut i: usize = 0;
        while i < reports.len()
            invariant
                i <= reports.len(),
                reports.deep_view() == all,
                projects.deep_view() == distinct_projects(all.take(i as int)),
            decreases reports.len() - i,
        {
            proof {
                assert(all.take(i + 1).drop_last() =~= all.take(i as int));
                assert(all[i as int] == reports[i as int]@);
            }
            let project = &reports[i].project_cost_center;
            let ghost earlier = projects.deep_view();
            let mut known = false;
            let mut j: usize = 0;
            while j < projects.len()
                invariant
                    j <= projects.len(),
                    projects.deep_view() == earlier,
                    known == earlier.take(j as int).contains(project@),
                decreases projects.len() - j,
            {
                proof {
                    let shorter = earlier.take(j as int);
                    let longer = earlier.take(j + 1);
                    assert(earlier[j as int] == projects[j as int]@);
                    assert(longer =~= shorter.push(earlier[j as int]));
                    if shorter.contains(project@) {
                        let k = choose|k: int|
                            0 <= k < shorter.len() && #[trigger] shorter[k] == project@;
                        assert(longer[k] == project@);
                    }
                    if longer.contains(project@) && earlier[j as int] != project@ {
                        let k = choose|k: int|
                            0 <= k < longer.len() && #[trigger] longer[k] == project@;
                        assert(shorter[k] == project@);
                    }
                    if earlier[j as int] == project@ {
                        assert(longer[j as int] == project@);
                    }
                }
                if same_text(projects[j].as_str(), project.as_str()) {
                    known = true;
                }
                j += 1;
            }
            proof {
                assert(earlier.take(j as int) =~= earlier);
            }
            if !known {
                projects.push(project.clone());
                assert(projects.deep_view() =~= earlier.push(project@));
            }
            i += 1;
        }
        proof {
            assert(all.take(i as int) =~= all);
        }
        projects
    }
}

/// Once the totals are those of the items, a report whose items are all
/// valid has a total that is not negative: the rule on the total can then
/// not be the one that is broken.
pub proof fn consistent_total_is_never_negative(report: ExpenseView)
    requires
        report.totals_consistent(),
        crate::models::expense::all_valid(report.items),
    ensures
        report.total_amount >= 0,
        report.total_tax >= 0,
        !report.first_problem_is(ValidationError::NegativeTotal),
{
    valid_items_sum_non_negative(report.items);
}

/// Which listing of the store answers a query.
#[derive(Debug)]
pub enum ExpenseListing {
    /// All reports, by page.
    All { page: Option<u64>, limit: Option<i64> },
    /// The reports booked on one project or cost center, by page.
    ByProject { project: String, page: Option<u64>, limit: Option<i64> },
    /// The reports created from `start` to `end`.
    CreatedBetween { start: i64, end: i64 },
    /// The reports whose title holds `term`.
    TitleSearch { term: String },
}

/// A listing, as mathematical values.
pub enum ExpenseListingView {
    All { page: Option<u64>, limit: Option<i64> },
    ByProject { project: Seq<char>, page: Option<u64>, limit: Option<i64> },
    CreatedBetween { start: i64, end: i64 },
    TitleSearch { term: Seq<char> },
}

impl View for ExpenseListing {
    type V = ExpenseListingView;

    open spec fn view(&self) -> ExpenseListingView {
        match self {
            ExpenseListing::All { page, limit } => ExpenseListingView::All {
                page: *page,
                limit: *limit,
            },
            ExpenseListing::ByProject { project, page, limit } => ExpenseListingView::ByProject {
                project: project@,
                page: *page,
                limit: *limit,
            },
            ExpenseListing::CreatedBetween { start, end } => ExpenseListingView::CreatedBetween {
                start: *start,
                end: *end,
            },
            ExpenseListing::TitleSearch { term } => ExpenseListingView::TitleSearch { term: term@ },
        }
    }
}

/// The listing that answers a search for `term`: all reports where the term
/// is blank, else those whose title holds it.
pub open spec fn search_listing(term: Seq<char>) -> ExpenseListingView {
    if is_blank(term) {
        ExpenseListingView::All { page: None, limit: None }
    } else {
        ExpenseListingView::TitleSearch { term }
    }
}

/// The listing that answers a query with the given filters: by project where
/// only a project is given, by time of creation where only a range is given
/// that does not start after it ends, and all reports in every other case
/// but that of such a range, which is refused.
pub open spec fn filtered_listing(
    project: Option<Seq<char>>,
    start: Option<i64>,
    end: Option<i64>,
    page: Option<u64>,
    limit: Option<i64>,
) -> Result<ExpenseListingView, ExpenseError> {
    match (project, start, end) {
        (Some(project), None, None) => Ok(ExpenseListingView::ByProject { project, page, limit }),
        (None, Some(start), Some(end)) => if start > end {
            Err(ExpenseError::InvalidRange)
        } else {
            Ok(ExpenseListingView::CreatedBetween { start, end })
        },
        _ => Ok(ExpenseListingView::All { page, limit }),
    }
}

/// The view of what a listing or an error is.
pub open spec fn listing_result_view(r: Result<ExpenseListing, ExpenseError>) -> Result<
    ExpenseListingView,
    ExpenseError,
> {
    match r {
        Ok(listing) => Ok(listing@),
        Err(e) => Err(e),
    }
}

impl ExpenseService {
    /// The listing that answers a search for `search_term`.
    pub fn search_expenses(&self, search_term: &str) -> (listing: ExpenseListing)
        ensures
            listing@ == search_listing(search_term@),
    {
        if text_is_blank(search_term) {
            ExpenseListing::All { page: None, limit: None }
        } else {
            ExpenseListing::TitleSearch { term: search_term.to_owned() }
        }
    }

    /// The listing of the reports created from `start_date` to `end_date`.
    /// A range that starts after it ends is refused.
    pub fn get_expenses_by_date_range(&self, start_date: i64, end_date: i64) -> (r: Result<
        ExpenseListing,
        ExpenseError,
    >)
        ensures
            listing_result_view(r) == if start_date > end_date {
                Err::<ExpenseListingView, ExpenseError>(ExpenseError::InvalidRange)
            } else {
                Ok::<ExpenseListingView, ExpenseError>(
                    ExpenseListingView::CreatedBetween { start: start_date, end: end_date },
                )
            },
    {
        if start_date > end_date {
            Err(ExpenseError::InvalidRange)
        } else {
            Ok(ExpenseListing::CreatedBetween { start: start_date, end: end_date })
        }
    }

    /// The listing that answers a query with the given filters.
    pub fn get_expenses_filtered(
        &self,
        project_cost_center: Option<String>,
        start_date: Option<i64>,
        end_date: Option<i64>,
        page: Option<u64>,
        limit: Option<i64>,
    ) -> (r: Result<ExpenseListing, ExpenseError>)
        ensures
            listing_result_view(r) == filtered_listing(
                text_of(project_cost_center),
                start_date,
                end_date,
                page,
                limit,
            ),
    {
        match (project_cost_center, start_date, end_date) {
            (Some(project), None, None) => Ok(ExpenseListing::ByProject { project, page, limit }),
            (None, Some(start), Some(end)) => {
                if start > end {
                    Err(ExpenseError::InvalidRange)
                } else {
                    Ok(ExpenseListing::CreatedBetween { start, end })
                }
            },
            _ => Ok(ExpenseListing::All { page, limit }),
        }
    }
}

} // verus!
