use finance_suite::handlers::expense_handler::delete_expense;
use finance_suite::models::expense::{clone_items, Expense, ExpenseItem};
use finance_suite::models::expense_request::CreateExpenseRequest;
use finance_suite::services::expense_service::ExpenseService;
use finance_suite::text::clone_text;

fn item(category: &str, currency: &str, amount: i64, tax: Option<i64>) -> ExpenseItem {
    ExpenseItem {
        expense_category: category.to_string(),
        currency: currency.to_string(),
        amount,
        expense_date: "2024-01-01".to_string(),
        comment: String::new(),
        receipt_file: None,
        original_filename: None,
        payment_method: None,
        vendor: None,
        billable: false,
        tax_amount: tax,
    }
}

fn report_of(items: Vec<ExpenseItem>) -> Expense {
    let mut report = Expense::new_at("Trip".to_string(), "P1".to_string(), 1_000);
    report.items = items;
    report.calculate_total();
    report
}

#[test]
fn totals_are_the_sums_over_the_items() {
    let report = report_of(vec![
        item("Travel", "USD", 100, Some(7)),
        item("Food", "USD", 250, None),
        item("Hotel", "EUR", 1_000, Some(190)),
    ]);
    assert_eq!(report.total_amount, 1_350);
    assert_eq!(report.total_tax, 197);
    assert_eq!(report.grand_total(), 1_547);
}

#[test]
fn totals_of_no_items_are_zero() {
    let mut report = report_of(Vec::new());
    report.total_amount = 5;
    report.total_tax = 6;
    report.calculate_total();
    assert_eq!(report.total_amount, 0);
    assert_eq!(report.total_tax, 0);
    assert_eq!(report.grand_total(), 0);
}

#[test]
fn totals_do_not_overflow_the_item_range() {
    let report = report_of(vec![
        item("A", "USD", i64::MAX, Some(i64::MAX)),
        item("B", "USD", i64::MAX, Some(i64::MAX)),
        item("C", "USD", i64::MAX, None),
    ]);
    assert_eq!(report.total_amount, 3 * (i64::MAX as i128));
    assert_eq!(report.total_tax, 2 * (i64::MAX as i128));
    assert_eq!(report.grand_total(), 5 * (i64::MAX as i128));
    let negative =
        report_of(vec![item("A", "USD", i64::MIN, Some(i64::MIN)), item("B", "USD", i64::MIN, None)]);
    assert_eq!(negative.total_amount, 2 * (i64::MIN as i128));
    assert_eq!(negative.total_tax, i64::MIN as i128);
}

#[test]
fn calculate_total_touches_nothing_else() {
    let mut report = report_of(vec![item("Travel", "USD", 100, Some(7))]);
    report.notes = Some("n".to_string());
    report.calculate_total();
    assert_eq!(report.expense_title, "Trip");
    assert_eq!(report.notes.as_deref(), Some("n"));
    assert_eq!(report.updated_at, Some(1_000));
    assert_eq!(report.items.len(), 1);
}

#[test]
fn created_report_has_the_totals_of_its_items() {
    let request = CreateExpenseRequest {
        expense_title: "Trip".to_string(),
        project_cost_center: "P1".to_string(),
        items: vec![item("Travel", "USD", 100, Some(7)), item("Food", "USD", 23, Some(2))],
        notes: None,
        department: None,
    };
    let report = Expense::from_request_at(request, 1_000);
    assert_eq!(report.total_amount, 123);
    assert_eq!(report.total_tax, 9);
    let created = ExpenseService::new().create_expense_at(report, 2_000).unwrap();
    assert_eq!(created.total_amount, 123);
    assert_eq!(created.total_tax, 9);
}

#[test]
fn item_total_with_tax() {
    assert_eq!(item("A", "USD", 100, Some(7)).total_with_tax(), 107);
    assert_eq!(item("A", "USD", 100, None).total_with_tax(), 100);
    assert_eq!(
        item("A", "USD", i64::MAX, Some(i64::MAX)).total_with_tax(),
        2 * (i64::MAX as i128)
    );
}

#[test]
fn receipt_files_come_in_the_order_of_the_items() {
    let mut with_receipt = item("Travel", "USD", 100, None);
    with_receipt.receipt_file = Some("abc123.pdf".to_string());
    let mut other = item("Food", "USD", 5, None);
    other.receipt_file = Some("def456.bin".to_string());
    let report = report_of(vec![with_receipt, item("Hotel", "USD", 1, None), other]);
    assert_eq!(report.get_receipt_files(), vec!["abc123.pdf".to_string(), "def456.bin".to_string()]);
    assert!(report_of(Vec::new()).get_receipt_files().is_empty());
}

#[test]
fn deleting_a_report_removes_its_receipts() {
    let mut with_receipt = item("Travel", "USD", 100, None);
    with_receipt.receipt_file = Some("abc123.pdf".to_string());
    let report = report_of(vec![with_receipt]);
    assert_eq!(delete_expense(Some(&report)), vec!["abc123.pdf".to_string()]);
    assert!(delete_expense(None).is_empty());
}

#[test]
fn items_are_counted_by_category() {
    let report = report_of(vec![
        item("Travel", "USD", 100, None),
        item("Food", "USD", 5, None),
        item("Travel", "EUR", 7, None),
        item("travel", "EUR", 7, None),
    ]);
    let counts = report.count_by_category();
    assert_eq!(counts.len(), 3);
    assert_eq!(counts.get("Travel"), Some(&2));
    assert_eq!(counts.get("Food"), Some(&1));
    assert_eq!(counts.get("travel"), Some(&1));
    assert_eq!(counts.get("Hotel"), None);
    assert!(report_of(Vec::new()).count_by_category().is_empty());
}

#[test]
fn amounts_are_summed_by_currency() {
    let report = report_of(vec![
        item("Travel", "USD", 100, Some(1_000)),
        item("Food", "EUR", 5, None),
        item("Travel", "USD", 7, None),
        item("Gift", "JPY", 0, None),
        item("Refund", "CHF", 10, None),
        item("Refund", "CHF", -10, None),
    ]);
    let totals = report.total_by_currency();
    assert_eq!(totals.len(), 4);
    assert_eq!(totals.get("USD"), Some(&107));
    assert_eq!(totals.get("EUR"), Some(&5));
    assert_eq!(totals.get("JPY"), Some(&0));
    assert_eq!(totals.get("CHF"), Some(&0));
    assert_eq!(totals.get("INR"), None);
    let large = report_of(vec![item("A", "USD", i64::MAX, None), item("B", "USD", i64::MAX, None)]);
    assert_eq!(large.total_by_currency().get("USD"), Some(&(2 * (i64::MAX as i128))));
}

#[test]
fn copies_hold_the_same_values() {
    let mut original = item("Travel", "USD", 100, Some(7));
    original.receipt_file = Some("abc123.pdf".to_string());
    original.vendor = Some("Rail".to_string());
    original.billable = true;
    let copy = original.clone();
    assert_eq!(copy.expense_category, "Travel");
    assert_eq!(copy.currency, "USD");
    assert_eq!(copy.amount, 100);
    assert_eq!(copy.tax_amount, Some(7));
    assert_eq!(copy.receipt_file.as_deref(), Some("abc123.pdf"));
    assert_eq!(copy.vendor.as_deref(), Some("Rail"));
    assert!(copy.billable);
    let items = vec![original, item("Food", "EUR", 1, None)];
    let copies = clone_items(&items);
    assert_eq!(copies.len(), 2);
    assert_eq!(copies[1].expense_category, "Food");
    assert_eq!(clone_text(&Some("x".to_string())), Some("x".to_string()));
    assert_eq!(clone_text(&None), None);
    let mut report = report_of(items);
    report.notes = Some("n".to_string());
    let copy = report.clone();
    assert_eq!(copy.expense_title, "Trip");
    assert_eq!(copy.items.len(), 2);
    assert_eq!(copy.total_amount, 101);
    assert_eq!(copy.notes.as_deref(), Some("n"));
    assert_eq!(copy.created_at, Some(1_000));
}

#[test]
fn grand_total_that_does_not_fit_is_none() {
    let mut report = report_of(vec![item("A", "USD", 100, Some(7))]);
    assert_eq!(report.checked_grand_total(), Some(107));
    report.total_amount = i128::MAX;
    report.total_tax = 1;
    assert_eq!(report.checked_grand_total(), None);
    report.total_tax = 0;
    assert_eq!(report.checked_grand_total(), Some(i128::MAX));
    report.total_amount = i128::MIN;
    report.total_tax = -1;
    assert_eq!(report.checked_grand_total(), None);
}
