use finance_suite::error::{ApiError, ExpenseError, ItemError, ValidationError};
use finance_suite::models::expense::{Expense, ExpenseItem, ExpenseStatus};
use finance_suite::services::expense_service::ExpenseService;

fn food_item() -> ExpenseItem {
    ExpenseItem {
        expense_category: "Food".to_string(),
        currency: "EUR".to_string(),
        amount: 1_250,
        expense_date: "2024-02-03".to_string(),
        comment: "lunch".to_string(),
        receipt_file: None,
        original_filename: None,
        payment_method: Some("Cash".to_string()),
        vendor: None,
        billable: true,
        tax_amount: Some(250),
    }
}

fn lunch_report() -> Expense {
    let mut report = Expense::new_at("Lunch".to_string(), "P2".to_string(), 10);
    report.items.push(food_item());
    report.items.push(food_item());
    report.calculate_total();
    report
}

#[test]
fn valid_item_passes() {
    assert_eq!(food_item().validate(), Ok(()));
}

#[test]
fn item_without_tax_passes() {
    let mut item = food_item();
    item.tax_amount = None;
    assert_eq!(item.validate(), Ok(()));
}

#[test]
fn item_with_zero_amounts_passes() {
    let mut item = food_item();
    item.amount = 0;
    item.tax_amount = Some(0);
    assert_eq!(item.validate(), Ok(()));
}

#[test]
fn item_needs_a_category() {
    let mut item = food_item();
    item.expense_category = "   ".to_string();
    assert_eq!(item.validate(), Err(ItemError::CategoryRequired));
    item.expense_category = String::new();
    assert_eq!(item.validate(), Err(ItemError::CategoryRequired));
}

#[test]
fn item_needs_a_currency() {
    let mut item = food_item();
    item.currency = "\n".to_string();
    assert_eq!(item.validate(), Err(ItemError::CurrencyRequired));
}

#[test]
fn item_amount_must_not_be_negative() {
    let mut item = food_item();
    item.amount = -1;
    assert_eq!(item.validate(), Err(ItemError::NegativeAmount));
}

#[test]
fn item_needs_a_date() {
    let mut item = food_item();
    item.expense_date = "\u{3000}".to_string();
    assert_eq!(item.validate(), Err(ItemError::DateRequired));
}

#[test]
fn item_tax_must_not_be_negative() {
    let mut item = food_item();
    item.tax_amount = Some(-5);
    assert_eq!(item.validate(), Err(ItemError::NegativeTax));
}

#[test]
fn item_rules_are_checked_in_order() {
    let mut item = food_item();
    item.tax_amount = Some(-5);
    item.expense_date = String::new();
    assert_eq!(item.validate(), Err(ItemError::DateRequired));
    item.amount = -1;
    assert_eq!(item.validate(), Err(ItemError::NegativeAmount));
    item.currency = String::new();
    assert_eq!(item.validate(), Err(ItemError::CurrencyRequired));
    item.expense_category = String::new();
    assert_eq!(item.validate(), Err(ItemError::CategoryRequired));
}

#[test]
fn valid_report_passes() {
    assert_eq!(lunch_report().validate(), Ok(()));
    assert_eq!(ExpenseService::new().validate_expense(&lunch_report()), Ok(()));
}

#[test]
fn report_without_items_is_valid_while_a_draft() {
    let report = Expense::new_at("Lunch".to_string(), "P2".to_string(), 10);
    assert_eq!(report.validate(), Ok(()));
}

#[test]
fn report_needs_a_title() {
    let mut report = lunch_report();
    report.expense_title = " ".to_string();
    assert_eq!(report.validate(), Err(ValidationError::TitleRequired));
}

#[test]
fn report_needs_a_project() {
    let mut report = lunch_report();
    report.project_cost_center = String::new();
    assert_eq!(report.validate(), Err(ValidationError::ProjectRequired));
}

#[test]
fn report_names_the_first_item_that_is_refused() {
    let mut report = lunch_report();
    report.items.push(food_item());
    report.items[1].amount = -3;
    report.items[2].currency = String::new();
    assert_eq!(
        report.validate(),
        Err(ValidationError::Item { index: 1, reason: ItemError::NegativeAmount })
    );
    assert_eq!(
        ExpenseService::new().validate_expense(&report),
        Err(ValidationError::Item { index: 1, reason: ItemError::NegativeAmount })
    );
}

#[test]
fn report_total_must_not_be_negative() {
    let mut report = lunch_report();
    report.total_amount = -1;
    assert_eq!(report.validate(), Err(ValidationError::NegativeTotal));
}

#[test]
fn report_rules_are_checked_in_order() {
    let mut report = lunch_report();
    report.total_amount = -1;
    report.items[0].expense_date = String::new();
    assert_eq!(
        report.validate(),
        Err(ValidationError::Item { index: 0, reason: ItemError::DateRequired })
    );
    report.project_cost_center = String::new();
    assert_eq!(report.validate(), Err(ValidationError::ProjectRequired));
    report.expense_title = String::new();
    assert_eq!(report.validate(), Err(ValidationError::TitleRequired));
}

#[test]
fn creation_validates_the_prepared_report() {
    let service = ExpenseService::new();
    let mut request = lunch_report();
    request.items[1].tax_amount = Some(-1);
    assert_eq!(
        service.create_expense_at(request, 20).err(),
        Some(ExpenseError::Validation(ValidationError::Item {
            index: 1,
            reason: ItemError::NegativeTax
        }))
    );
    let mut request = lunch_report();
    request.expense_title = String::new();
    assert_eq!(
        service.create_expense(request).err(),
        Some(ExpenseError::Validation(ValidationError::TitleRequired))
    );
}

#[test]
fn creation_recomputes_a_negative_total() {
    let service = ExpenseService::new();
    let mut request = lunch_report();
    request.total_amount = -1;
    request.total_tax = -1;
    let created = service.create_expense_at(request, 20).unwrap();
    assert_eq!(created.total_amount, 2_500);
    assert_eq!(created.total_tax, 500);
    assert_eq!(created.status, ExpenseStatus::Draft);
}

#[test]
fn item_errors_say_what_is_wrong() {
    assert_eq!(ItemError::CategoryRequired.message(), "Expense category is required");
    assert_eq!(ItemError::CurrencyRequired.message(), "Currency is required");
    assert_eq!(ItemError::NegativeAmount.message(), "Amount cannot be negative");
    assert_eq!(ItemError::DateRequired.message(), "Expense date is required");
    assert_eq!(ItemError::NegativeTax.message(), "Tax amount cannot be negative");
    assert_eq!(ItemError::AmountRequired.message(), "Amount is required");
    assert_eq!(ItemError::MalformedAmount.message(), "Amount is not a number");
    assert_eq!(ItemError::MalformedTax.message(), "Tax amount is not a number");
    assert_eq!(
        ValidationError::Item { index: 0, reason: ItemError::MalformedAmount }.message(),
        "Item 1: Amount is not a number"
    );
}

#[test]
fn validation_errors_say_what_is_wrong() {
    assert_eq!(ValidationError::TitleRequired.message(), "Expense title is required");
    assert_eq!(ValidationError::ProjectRequired.message(), "Project/Cost center is required");
    assert_eq!(
        ValidationError::Item { index: 0, reason: ItemError::NegativeAmount }.message(),
        "Item 1: Amount cannot be negative"
    );
    assert_eq!(
        ValidationError::Item { index: 122, reason: ItemError::DateRequired }.message(),
        "Item 123: Expense date is required"
    );
    assert_eq!(
        ValidationError::Item { index: usize::MAX, reason: ItemError::NegativeTax }.message(),
        format!("Item {}: Tax amount cannot be negative", usize::MAX as u128 + 1)
    );
    assert_eq!(ValidationError::NegativeTotal.message(), "Total amount cannot be negative");
    assert_eq!(ValidationError::NoItems.message(), "At least one expense item is required");
    assert_eq!(ValidationError::ReasonRequired.message(), "Rejection reason is required");
    assert_eq!(ValidationError::InvalidPage.message(), "Page is out of range");
}

#[test]
fn expense_errors_say_what_is_wrong() {
    assert_eq!(
        ExpenseError::Validation(ValidationError::TitleRequired).message(),
        "Expense title is required"
    );
    let refused = |to| ExpenseError::InvalidTransition { from: ExpenseStatus::Draft, to }.message();
    assert_eq!(
        refused(ExpenseStatus::Submitted),
        "Expense cannot be submitted in current status"
    );
    assert_eq!(refused(ExpenseStatus::Approved), "Expense cannot be approved in current status");
    assert_eq!(refused(ExpenseStatus::Rejected), "Expense cannot be rejected in current status");
    assert_eq!(
        refused(ExpenseStatus::Reimbursed),
        "Only approved expenses can be marked as reimbursed"
    );
    assert_eq!(refused(ExpenseStatus::Draft), "Expense cannot be made a draft again");
    assert_eq!(
        ExpenseError::ImmutableState { status: ExpenseStatus::Approved }.message(),
        "Only a draft expense can be edited"
    );
    assert_eq!(ExpenseError::NotFound.message(), "Expense not found");
    assert_eq!(ExpenseError::InvalidRange.message(), "Start date must be before end date");
    assert_eq!(ExpenseError::AmountOverflow.message(), "Amounts are too large to add up");
}

#[test]
fn api_errors_have_status_code_and_text() {
    let cases = vec![
        (ApiError::DatabaseError("x".to_string()), 500, "DATABASE_ERROR", "Database error: x"),
        (
            ApiError::ValidationError("x".to_string()),
            400,
            "VALIDATION_ERROR",
            "Validation error: x",
        ),
        (ApiError::NotFound("x".to_string()), 404, "NOT_FOUND", "Not found: x"),
        (
            ApiError::InternalServerError("x".to_string()),
            500,
            "INTERNAL_SERVER_ERROR",
            "Internal server error: x",
        ),
        (ApiError::BadRequest("x".to_string()), 400, "BAD_REQUEST", "Bad request: x"),
    ];
    for (error, status, code, message) in cases {
        assert_eq!(error.status_code(), status);
        assert_eq!(error.code(), code);
        assert_eq!(error.message(), message);
    }
}

#[test]
fn expense_errors_map_to_api_errors() {
    assert!(matches!(
        ApiError::from_expense_error(ExpenseError::Validation(ValidationError::NoItems)),
        ApiError::ValidationError(detail) if detail == "At least one expense item is required"
    ));
    assert!(matches!(
        ApiError::from_expense_error(ExpenseError::NotFound),
        ApiError::NotFound(detail) if detail == "Expense not found"
    ));
    assert!(matches!(
        ApiError::from_expense_error(ExpenseError::AmountOverflow),
        ApiError::InternalServerError(detail) if detail == "Amounts are too large to add up"
    ));
    assert!(matches!(
        ApiError::from_expense_error(ExpenseError::InvalidRange),
        ApiError::BadRequest(detail) if detail == "Start date must be before end date"
    ));
    assert!(matches!(
        ApiError::from_expense_error(ExpenseError::ImmutableState {
            status: ExpenseStatus::Submitted
        }),
        ApiError::BadRequest(detail) if detail == "Only a draft expense can be edited"
    ));
    assert!(matches!(
        ApiError::from_expense_error(ExpenseError::InvalidTransition {
            from: ExpenseStatus::Draft,
            to: ExpenseStatus::Approved
        }),
        ApiError::BadRequest(detail) if detail == "Expense cannot be approved in current status"
    ));
}
