use finance_suite::error::{ExpenseError, ItemError, ValidationError};
use finance_suite::models::expense::{clone_items, Expense, ExpenseItem, ExpenseStatus};
use finance_suite::models::expense_request::UpdateExpenseRequest;
use finance_suite::repository::expense_repository::{update_fields, ExpenseField};
use finance_suite::services::expense_service::ExpenseService;

fn item(category: &str, amount: i64, tax: Option<i64>) -> ExpenseItem {
    ExpenseItem {
        expense_category: category.to_string(),
        currency: "USD".to_string(),
        amount,
        expense_date: "2024-01-01".to_string(),
        comment: String::new(),
        receipt_file: None,
        original_filename: None,
        payment_method: None,
        vendor: None,
        billable: false,
        tax_amount: tax,
    }
}

fn stored_draft() -> Expense {
    let mut report = Expense::new_at("Trip".to_string(), "P1".to_string(), 1_000);
    report.items.push(item("Travel", 100, Some(10)));
    report.items.push(item("Food", 50, None));
    report.notes = Some("A".to_string());
    report.department = Some("Sales".to_string());
    report.submitted_by = Some("alice".to_string());
    report.calculate_total();
    report
}

fn stored_submitted() -> Expense {
    let mut report = stored_draft();
    report.submit_at("alice".to_string(), 2_000).unwrap();
    report
}

fn nothing() -> UpdateExpenseRequest {
    UpdateExpenseRequest {
        expense_title: None,
        project_cost_center: None,
        items: None,
        notes: None,
        department: None,
    }
}

fn same_items(a: &Vec<ExpenseItem>, b: &Vec<ExpenseItem>) -> bool {
    a.len() == b.len()
        && a.iter().zip(b.iter()).all(|(x, y)| {
            x.expense_category == y.expense_category
                && x.currency == y.currency
                && x.amount == y.amount
                && x.expense_date == y.expense_date
                && x.comment == y.comment
                && x.receipt_file == y.receipt_file
                && x.original_filename == y.original_filename
                && x.payment_method == y.payment_method
                && x.vendor == y.vendor
                && x.billable == y.billable
                && x.tax_amount == y.tax_amount
        })
}

fn same_but_for_update_time(a: &Expense, b: &Expense) -> bool {
    a.id == b.id
        && a.expense_title == b.expense_title
        && a.project_cost_center == b.project_cost_center
        && same_items(&a.items, &b.items)
        && a.total_amount == b.total_amount
        && a.total_tax == b.total_tax
        && a.status == b.status
        && a.submitted_by == b.submitted_by
        && a.approved_by == b.approved_by
        && a.submitted_at == b.submitted_at
        && a.reviewed_at == b.reviewed_at
        && a.rejection_reason == b.rejection_reason
        && a.reimbursed_at == b.reimbursed_at
        && a.notes == b.notes
        && a.department == b.department
        && a.created_at == b.created_at
}

#[test]
fn empty_update_only_refreshes_the_update_time() {
    let stored = stored_draft();
    let updated = stored.apply_update_at(nothing(), 5_000).unwrap();
    assert!(same_but_for_update_time(&stored, &updated));
    assert_eq!(updated.updated_at, Some(5_000));
    assert_eq!(stored.updated_at, Some(1_000));
}

#[test]
fn update_with_the_stored_values_only_refreshes_the_update_time() {
    let stored = stored_draft();
    let request = UpdateExpenseRequest {
        expense_title: Some("Trip".to_string()),
        project_cost_center: Some("P1".to_string()),
        items: Some(clone_items(&stored.items)),
        notes: Some("A".to_string()),
        department: Some("Sales".to_string()),
    };
    let updated = stored.apply_update_at(request, 5_000).unwrap();
    assert!(same_but_for_update_time(&stored, &updated));
    assert_eq!(updated.updated_at, Some(5_000));
}

#[test]
fn omitted_notes_are_kept() {
    let stored = stored_draft();
    let request = UpdateExpenseRequest { expense_title: Some("Journey".to_string()), ..nothing() };
    let updated = stored.apply_update_at(request, 5_000).unwrap();
    assert_eq!(updated.notes.as_deref(), Some("A"));
    assert_eq!(updated.department.as_deref(), Some("Sales"));
    assert_eq!(updated.expense_title, "Journey");
    assert_eq!(updated.project_cost_center, "P1");
    assert!(same_items(&updated.items, &stored.items));
    assert_eq!(updated.total_amount, 150);
    assert_eq!(updated.total_tax, 10);
}

#[test]
fn sent_fields_replace_the_stored_ones() {
    let stored = stored_draft();
    let request = UpdateExpenseRequest {
        expense_title: Some("Journey".to_string()),
        project_cost_center: Some("P9".to_string()),
        items: Some(vec![item("Hotel", 700, Some(70))]),
        notes: Some("B".to_string()),
        department: Some("Ops".to_string()),
    };
    let updated = stored.apply_update_at(request, 5_000).unwrap();
    assert_eq!(updated.expense_title, "Journey");
    assert_eq!(updated.project_cost_center, "P9");
    assert_eq!(updated.items.len(), 1);
    assert_eq!(updated.items[0].expense_category, "Hotel");
    assert_eq!(updated.total_amount, 700);
    assert_eq!(updated.total_tax, 70);
    assert_eq!(updated.notes.as_deref(), Some("B"));
    assert_eq!(updated.department.as_deref(), Some("Ops"));
    assert_eq!(updated.updated_at, Some(5_000));
    assert_eq!(updated.created_at, Some(1_000));
    assert_eq!(updated.submitted_by.as_deref(), Some("alice"));
}

#[test]
fn update_cannot_touch_the_state_or_the_audit_trail() {
    let stored = stored_draft();
    let request = UpdateExpenseRequest {
        expense_title: Some("SUBMITTED".to_string()),
        notes: Some("APPROVED".to_string()),
        ..nothing()
    };
    let updated = stored.apply_update_at(request, 5_000).unwrap();
    assert_eq!(updated.status, ExpenseStatus::Draft);
    assert_eq!(updated.submitted_by.as_deref(), Some("alice"));
    assert_eq!(updated.submitted_at, None);
    assert_eq!(updated.approved_by, None);
    assert_eq!(updated.reviewed_at, None);
    assert_eq!(updated.rejection_reason, None);
    assert_eq!(updated.reimbursed_at, None);
    assert_eq!(updated.id, stored.id);
    assert_eq!(updated.created_at, Some(1_000));
    assert_eq!(updated.expense_title, "SUBMITTED");
    assert_eq!(updated.updated_at, Some(5_000));
}

#[test]
fn report_that_is_no_draft_takes_no_update() {
    let mut stored = stored_submitted();
    let refused = |status| Some(ExpenseError::ImmutableState { status });
    let request = UpdateExpenseRequest { items: Some(vec![item("Hotel", 1, None)]), ..nothing() };
    assert_eq!(stored.apply_update_at(request, 5_000).err(), refused(ExpenseStatus::Submitted));
    let notes = UpdateExpenseRequest { notes: Some("B".to_string()), ..nothing() };
    assert_eq!(stored.apply_update(notes).err(), refused(ExpenseStatus::Submitted));
    assert_eq!(stored.apply_update_at(nothing(), 5_000).err(), refused(ExpenseStatus::Submitted));
    stored.approve_at("bob".to_string(), 3_000).unwrap();
    let notes = UpdateExpenseRequest { notes: Some("B".to_string()), ..nothing() };
    assert_eq!(stored.apply_update_at(notes, 5_000).err(), refused(ExpenseStatus::Approved));
    stored.mark_reimbursed_at(4_000).unwrap();
    assert_eq!(
        stored.apply_update_at(nothing(), 5_000).err(),
        refused(ExpenseStatus::Reimbursed)
    );
    let mut rejected = stored_submitted();
    rejected.reject_at("bob".to_string(), "no".to_string(), 3_000).unwrap();
    let blank = UpdateExpenseRequest { expense_title: Some(String::new()), ..nothing() };
    assert_eq!(rejected.apply_update_at(blank, 5_000).err(), refused(ExpenseStatus::Rejected));
    assert_eq!(rejected.notes.as_deref(), Some("A"));
    assert_eq!(rejected.updated_at, Some(3_000));
}

#[test]
fn merged_report_is_validated() {
    let stored = stored_draft();
    let request = UpdateExpenseRequest { expense_title: Some("  ".to_string()), ..nothing() };
    assert_eq!(
        stored.apply_update_at(request, 5_000).err(),
        Some(ExpenseError::Validation(ValidationError::TitleRequired))
    );
    let request = UpdateExpenseRequest {
        items: Some(vec![item("Hotel", 1, None), item("", 1, None)]),
        ..nothing()
    };
    assert_eq!(
        stored.apply_update_at(request, 5_000).err(),
        Some(ExpenseError::Validation(ValidationError::Item {
            index: 1,
            reason: ItemError::CategoryRequired
        }))
    );
    assert_eq!(stored.expense_title, "Trip");
    assert_eq!(stored.items.len(), 2);
}

#[test]
fn draft_may_lose_all_its_items() {
    let stored = stored_draft();
    let request = UpdateExpenseRequest { items: Some(Vec::new()), ..nothing() };
    let updated = stored.apply_update_at(request, 5_000).unwrap();
    assert!(updated.items.is_empty());
    assert_eq!(updated.total_amount, 0);
    assert_eq!(updated.total_tax, 0);
}

#[test]
fn merge_repairs_stale_totals() {
    let mut stored = stored_draft();
    stored.total_amount = 1;
    stored.total_tax = 2;
    let updated = stored.apply_update_at(nothing(), 5_000).unwrap();
    assert_eq!(updated.total_amount, 150);
    assert_eq!(updated.total_tax, 10);
}

#[test]
fn update_on_the_clock_refreshes_the_update_time() {
    let stored = stored_draft();
    let updated = stored.apply_update(nothing()).unwrap();
    assert!(same_but_for_update_time(&stored, &updated));
    assert!(updated.updated_at.unwrap() > 1_000);
}

#[test]
fn service_update_needs_a_stored_report() {
    let service = ExpenseService::new();
    assert_eq!(
        service.update_expense_at(None, nothing(), 5_000).err(),
        Some(ExpenseError::NotFound)
    );
    assert_eq!(service.update_expense(None, nothing()).err(), Some(ExpenseError::NotFound));
    let stored = stored_draft();
    let request = UpdateExpenseRequest { notes: Some("B".to_string()), ..nothing() };
    let updated = service.update_expense_at(Some(&stored), request, 5_000).unwrap();
    assert_eq!(updated.notes.as_deref(), Some("B"));
    assert_eq!(updated.updated_at, Some(5_000));
    let submitted = stored_submitted();
    let request = UpdateExpenseRequest { notes: Some("B".to_string()), ..nothing() };
    assert_eq!(
        service.update_expense(Some(&submitted), request).err(),
        Some(ExpenseError::ImmutableState { status: ExpenseStatus::Submitted })
    );
}

#[test]
fn update_sets_the_sent_fields_the_totals_and_the_time() {
    assert_eq!(
        update_fields(&nothing()),
        vec![ExpenseField::TotalAmount, ExpenseField::TotalTax, ExpenseField::UpdatedAt]
    );
    let request = UpdateExpenseRequest {
        expense_title: Some("Journey".to_string()),
        notes: Some("B".to_string()),
        ..nothing()
    };
    assert_eq!(
        update_fields(&request),
        vec![
            ExpenseField::Title,
            ExpenseField::TotalAmount,
            ExpenseField::TotalTax,
            ExpenseField::Notes,
            ExpenseField::UpdatedAt
        ]
    );
    let request = UpdateExpenseRequest {
        expense_title: Some("Journey".to_string()),
        project_cost_center: Some("P9".to_string()),
        items: Some(Vec::new()),
        notes: Some("B".to_string()),
        department: Some("Ops".to_string()),
    };
    assert_eq!(
        update_fields(&request),
        vec![
            ExpenseField::Title,
            ExpenseField::Project,
            ExpenseField::Items,
            ExpenseField::TotalAmount,
            ExpenseField::TotalTax,
            ExpenseField::Notes,
            ExpenseField::Department,
            ExpenseField::UpdatedAt
        ]
    );
}
