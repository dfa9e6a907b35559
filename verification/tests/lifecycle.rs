use finance_suite::error::{ExpenseError, ValidationError};
use finance_suite::models::expense::{Expense, ExpenseItem, ExpenseStatus};
use finance_suite::models::expense_request::{
    CreateExpenseRequest, ReviewAction, ReviewExpenseRequest,
};
use finance_suite::services::expense_service::ExpenseService;

fn travel_item(amount: i64) -> ExpenseItem {
    ExpenseItem {
        expense_category: "Travel".to_string(),
        currency: "USD".to_string(),
        amount,
        expense_date: "2024-01-01".to_string(),
        comment: String::new(),
        receipt_file: None,
        original_filename: None,
        payment_method: None,
        vendor: None,
        billable: false,
        tax_amount: None,
    }
}

fn report_in(status: ExpenseStatus) -> Expense {
    let mut report = Expense::new_at("Trip".to_string(), "P1".to_string(), 1_000);
    report.items.push(travel_item(100));
    report.calculate_total();
    if status == ExpenseStatus::Draft {
        return report;
    }
    report.submit_at("alice".to_string(), 2_000).unwrap();
    if status == ExpenseStatus::Submitted {
        return report;
    }
    if status == ExpenseStatus::Rejected {
        report.reject_at("bob".to_string(), "no receipt".to_string(), 3_000).unwrap();
        return report;
    }
    report.approve_at("bob".to_string(), 3_000).unwrap();
    if status == ExpenseStatus::Approved {
        return report;
    }
    report.mark_reimbursed_at(4_000).unwrap();
    report
}

fn all_states() -> Vec<ExpenseStatus> {
    vec![
        ExpenseStatus::Draft,
        ExpenseStatus::Submitted,
        ExpenseStatus::Approved,
        ExpenseStatus::Rejected,
        ExpenseStatus::Reimbursed,
    ]
}

#[test]
fn new_report_is_an_empty_draft() {
    let report = Expense::new_at("Trip".to_string(), "P1".to_string(), 1_000);
    assert_eq!(report.id, None);
    assert_eq!(report.expense_title, "Trip");
    assert_eq!(report.project_cost_center, "P1");
    assert!(report.items.is_empty());
    assert_eq!(report.total_amount, 0);
    assert_eq!(report.total_tax, 0);
    assert_eq!(report.status, ExpenseStatus::Draft);
    assert_eq!(report.submitted_by, None);
    assert_eq!(report.approved_by, None);
    assert_eq!(report.submitted_at, None);
    assert_eq!(report.reviewed_at, None);
    assert_eq!(report.rejection_reason, None);
    assert_eq!(report.reimbursed_at, None);
    assert_eq!(report.notes, None);
    assert_eq!(report.department, None);
    assert_eq!(report.created_at, Some(1_000));
    assert_eq!(report.updated_at, Some(1_000));
}

#[test]
fn new_report_is_stamped_with_the_clock() {
    let before = std::time::SystemTime::now()
        .duration_since(std::time::UNIX_EPOCH)
        .unwrap()
        .as_millis() as i64;
    let report = Expense::new("Trip".to_string(), "P1".to_string());
    let after = std::time::SystemTime::now()
        .duration_since(std::time::UNIX_EPOCH)
        .unwrap()
        .as_millis() as i64;
    let created = report.created_at.unwrap();
    assert!(before <= created && created <= after);
    assert_eq!(report.updated_at, report.created_at);
    assert_eq!(report.status, ExpenseStatus::Draft);
}

#[test]
fn default_status_is_draft() {
    assert_eq!(ExpenseStatus::default(), ExpenseStatus::Draft);
}

#[test]
fn empty_draft_cannot_be_submitted() {
    let mut report = Expense::new_at("Trip".to_string(), "P1".to_string(), 1_000);
    assert!(!report.can_submit());
    assert_eq!(
        report.submit_at("alice".to_string(), 2_000),
        Err(ExpenseError::Validation(ValidationError::NoItems))
    );
    assert_eq!(report.status, ExpenseStatus::Draft);
    assert_eq!(report.submitted_at, None);
    assert_eq!(report.submitted_by, None);
    assert_eq!(report.updated_at, Some(1_000));
    report.items.push(travel_item(100));
    assert!(report.can_submit());
    assert_eq!(report.submit_at("alice".to_string(), 2_000), Ok(()));
    assert_eq!(report.status, ExpenseStatus::Submitted);
}

#[test]
fn trip_report_runs_through_the_lifecycle() {
    let request = CreateExpenseRequest {
        expense_title: "Trip".to_string(),
        project_cost_center: "P1".to_string(),
        items: vec![travel_item(100)],
        notes: None,
        department: None,
    };
    let mut report = Expense::from_request_at(request, 1_000);
    assert_eq!(report.total_amount, 100);
    assert_eq!(report.status, ExpenseStatus::Draft);
    assert!(report.is_editable());

    assert_eq!(report.submit_at("alice".to_string(), 2_000), Ok(()));
    assert_eq!(report.status, ExpenseStatus::Submitted);
    assert_eq!(report.submitted_at, Some(2_000));
    assert_eq!(report.submitted_by.as_deref(), Some("alice"));
    assert!(!report.is_editable());

    assert_eq!(report.approve_at("bob".to_string(), 3_000), Ok(()));
    assert_eq!(report.status, ExpenseStatus::Approved);
    assert_eq!(report.approved_by.as_deref(), Some("bob"));
    assert_eq!(report.reviewed_at, Some(3_000));

    assert_eq!(report.mark_reimbursed_at(4_000), Ok(()));
    assert_eq!(report.status, ExpenseStatus::Reimbursed);
    assert_eq!(report.reimbursed_at, Some(4_000));
    assert_eq!(report.updated_at, Some(4_000));

    assert_eq!(
        report.reject_at("bob".to_string(), "late".to_string(), 5_000),
        Err(ExpenseError::InvalidTransition {
            from: ExpenseStatus::Reimbursed,
            to: ExpenseStatus::Rejected,
        })
    );
    assert_eq!(report.status, ExpenseStatus::Reimbursed);
    assert_eq!(report.rejection_reason, None);
    assert_eq!(report.updated_at, Some(4_000));
    assert_eq!(report.submitted_at, Some(2_000));
    assert_eq!(report.total_amount, 100);
}

#[test]
fn trip_report_runs_through_the_lifecycle_on_the_clock() {
    let request = CreateExpenseRequest {
        expense_title: "Trip".to_string(),
        project_cost_center: "P1".to_string(),
        items: vec![travel_item(100)],
        notes: Some("n".to_string()),
        department: Some("d".to_string()),
    };
    let mut report = Expense::from_request(request);
    assert_eq!(report.total_amount, 100);
    assert_eq!(report.status, ExpenseStatus::Draft);
    assert_eq!(report.notes.as_deref(), Some("n"));
    assert_eq!(report.department.as_deref(), Some("d"));
    assert_eq!(report.submit("alice".to_string()), Ok(()));
    assert!(report.submitted_at.is_some());
    assert_eq!(report.approve("bob".to_string()), Ok(()));
    assert_eq!(report.status, ExpenseStatus::Approved);
    assert_eq!(report.mark_reimbursed(), Ok(()));
    assert!(report.reimbursed_at.is_some());
    assert_eq!(
        report.reject("bob".to_string(), "late".to_string()),
        Err(ExpenseError::InvalidTransition {
            from: ExpenseStatus::Reimbursed,
            to: ExpenseStatus::Rejected,
        })
    );
}

#[test]
fn only_the_steps_of_the_lifecycle_succeed() {
    for from in all_states() {
        let mut report = report_in(from);
        let submitted = report.submit_at("zoe".to_string(), 9_000);
        if from == ExpenseStatus::Draft {
            assert_eq!(submitted, Ok(()));
            assert_eq!(report.status, ExpenseStatus::Submitted);
        } else {
            assert_eq!(
                submitted,
                Err(ExpenseError::InvalidTransition { from, to: ExpenseStatus::Submitted })
            );
            assert_eq!(report.status, from);
        }

        let mut report = report_in(from);
        let approved = report.approve_at("zoe".to_string(), 9_000);
        assert_eq!(report.can_approve(), false || report.status == ExpenseStatus::Submitted);
        if from == ExpenseStatus::Submitted {
            assert_eq!(approved, Ok(()));
            assert_eq!(report.status, ExpenseStatus::Approved);
        } else {
            assert_eq!(
                approved,
                Err(ExpenseError::InvalidTransition { from, to: ExpenseStatus::Approved })
            );
            assert_eq!(report.status, from);
        }

        let mut report = report_in(from);
        let rejected = report.reject_at("zoe".to_string(), "why".to_string(), 9_000);
        if from == ExpenseStatus::Submitted {
            assert_eq!(rejected, Ok(()));
            assert_eq!(report.status, ExpenseStatus::Rejected);
            assert_eq!(report.rejection_reason.as_deref(), Some("why"));
            assert_eq!(report.approved_by.as_deref(), Some("zoe"));
            assert_eq!(report.reviewed_at, Some(9_000));
        } else {
            assert_eq!(
                rejected,
                Err(ExpenseError::InvalidTransition { from, to: ExpenseStatus::Rejected })
            );
            assert_eq!(report.status, from);
        }

        let mut report = report_in(from);
        let reimbursed = report.mark_reimbursed_at(9_000);
        if from == ExpenseStatus::Approved {
            assert_eq!(reimbursed, Ok(()));
            assert_eq!(report.status, ExpenseStatus::Reimbursed);
        } else {
            assert_eq!(
                reimbursed,
                Err(ExpenseError::InvalidTransition { from, to: ExpenseStatus::Reimbursed })
            );
            assert_eq!(report.status, from);
        }
    }
}

#[test]
fn can_become_is_the_transition_table() {
    let allowed = [
        (ExpenseStatus::Draft, ExpenseStatus::Submitted),
        (ExpenseStatus::Submitted, ExpenseStatus::Approved),
        (ExpenseStatus::Submitted, ExpenseStatus::Rejected),
        (ExpenseStatus::Approved, ExpenseStatus::Reimbursed),
    ];
    for from in all_states() {
        for to in all_states() {
            assert_eq!(from.can_become(to), allowed.contains(&(from, to)));
        }
    }
}

#[test]
fn failed_transition_changes_nothing() {
    let mut report = report_in(ExpenseStatus::Rejected);
    let before_updated = report.updated_at;
    assert!(report.approve_at("zoe".to_string(), 9_000).is_err());
    assert_eq!(report.approved_by.as_deref(), Some("bob"));
    assert_eq!(report.reviewed_at, Some(3_000));
    assert_eq!(report.rejection_reason.as_deref(), Some("no receipt"));
    assert_eq!(report.updated_at, before_updated);
    assert_eq!(report.submitted_by.as_deref(), Some("alice"));
    assert_eq!(report.submitted_at, Some(2_000));
}

#[test]
fn rejection_needs_a_reason() {
    let mut report = report_in(ExpenseStatus::Submitted);
    assert!(report.can_reject());
    assert_eq!(
        report.reject_at("bob".to_string(), "  \t".to_string(), 3_000),
        Err(ExpenseError::Validation(ValidationError::ReasonRequired))
    );
    assert_eq!(report.status, ExpenseStatus::Submitted);
    assert_eq!(report.rejection_reason, None);
    assert_eq!(
        report.reject_at("bob".to_string(), String::new(), 3_000),
        Err(ExpenseError::Validation(ValidationError::ReasonRequired))
    );
    assert_eq!(report.reject_at("bob".to_string(), "no receipt".to_string(), 3_000), Ok(()));
    assert_eq!(report.status, ExpenseStatus::Rejected);
    assert_eq!(report.rejection_reason.as_deref(), Some("no receipt"));
}

#[test]
fn rejection_of_a_draft_is_an_invalid_transition_even_without_reason() {
    let mut report = report_in(ExpenseStatus::Draft);
    assert_eq!(
        report.reject_at("bob".to_string(), String::new(), 3_000),
        Err(ExpenseError::InvalidTransition {
            from: ExpenseStatus::Draft,
            to: ExpenseStatus::Rejected,
        })
    );
}

#[test]
fn submitting_twice_is_an_invalid_transition() {
    let mut report = report_in(ExpenseStatus::Submitted);
    assert!(!report.can_submit());
    assert_eq!(
        report.submit_at("carol".to_string(), 7_000),
        Err(ExpenseError::InvalidTransition {
            from: ExpenseStatus::Submitted,
            to: ExpenseStatus::Submitted,
        })
    );
    assert_eq!(report.submitted_by.as_deref(), Some("alice"));
    assert_eq!(report.submitted_at, Some(2_000));
}

#[test]
fn review_request_approves_or_rejects() {
    let mut report = report_in(ExpenseStatus::Submitted);
    let approve = ReviewExpenseRequest { action: ReviewAction::Approve, reason: None };
    assert_eq!(report.review_at("bob".to_string(), approve, 3_000), Ok(()));
    assert_eq!(report.status, ExpenseStatus::Approved);
    assert_eq!(report.rejection_reason, None);

    let mut report = report_in(ExpenseStatus::Submitted);
    let reject =
        ReviewExpenseRequest { action: ReviewAction::Reject, reason: Some("dup".to_string()) };
    assert_eq!(report.review_at("bob".to_string(), reject, 3_000), Ok(()));
    assert_eq!(report.status, ExpenseStatus::Rejected);
    assert_eq!(report.rejection_reason.as_deref(), Some("dup"));

    let mut report = report_in(ExpenseStatus::Submitted);
    let reject = ReviewExpenseRequest { action: ReviewAction::Reject, reason: None };
    assert_eq!(
        report.review_at("bob".to_string(), reject, 3_000),
        Err(ExpenseError::Validation(ValidationError::ReasonRequired))
    );
    assert_eq!(report.status, ExpenseStatus::Submitted);

    let mut report = report_in(ExpenseStatus::Approved);
    let approve = ReviewExpenseRequest { action: ReviewAction::Approve, reason: None };
    assert_eq!(
        report.review("bob".to_string(), approve),
        Err(ExpenseError::InvalidTransition {
            from: ExpenseStatus::Approved,
            to: ExpenseStatus::Approved,
        })
    );
}

#[test]
fn created_report_is_a_draft_whatever_the_request_says() {
    let service = ExpenseService::new();
    let mut request = report_in(ExpenseStatus::Rejected);
    request.created_at = None;
    request.updated_at = None;
    request.total_amount = 7;
    let created = service.create_expense_at(request, 8_000).unwrap();
    assert_eq!(created.status, ExpenseStatus::Draft);
    assert_eq!(created.id, None);
    assert_eq!(created.submitted_by.as_deref(), Some("alice"));
    assert_eq!(created.submitted_at, None);
    assert_eq!(created.approved_by, None);
    assert_eq!(created.reviewed_at, None);
    assert_eq!(created.rejection_reason, None);
    assert_eq!(created.reimbursed_at, None);
    assert_eq!(created.created_at, Some(8_000));
    assert_eq!(created.updated_at, Some(8_000));
    assert_eq!(created.total_amount, 100);
}

#[test]
fn created_report_keeps_the_time_stamps_it_came_with() {
    let service = ExpenseService::new();
    let request = report_in(ExpenseStatus::Draft);
    let created = service.create_expense_at(request, 8_000).unwrap();
    assert_eq!(created.created_at, Some(1_000));
    assert_eq!(created.updated_at, Some(1_000));
    let on_the_clock = service.create_expense(report_in(ExpenseStatus::Draft)).unwrap();
    assert_eq!(on_the_clock.created_at, Some(1_000));
}

#[test]
fn transition_table_is_exhaustive_and_exclusive() {
    for from in all_states() {
        for to in all_states() {
            let mut report = report_in(from);
            let before_updated = report.updated_at;
            let result = report.transition_at(to, "zoe".to_string(), "why".to_string(), 9_000);
            if from.can_become(to) {
                assert_eq!(result, Ok(()), "{:?} to {:?}", from, to);
                assert_eq!(report.status, to);
                assert_eq!(report.updated_at, Some(9_000));
            } else {
                assert_eq!(
                    result,
                    Err(ExpenseError::InvalidTransition { from, to }),
                    "{:?} to {:?}",
                    from,
                    to
                );
                assert_eq!(report.status, from);
                assert_eq!(report.updated_at, before_updated);
            }
            assert_eq!(report.total_amount, 100);
            assert_eq!(report.items.len(), 1);
            assert_eq!(report.expense_title, "Trip");
        }
    }
}

#[test]
fn allowed_transition_fails_only_on_its_guard() {
    let mut empty = Expense::new_at("Trip".to_string(), "P1".to_string(), 1_000);
    assert_eq!(
        empty.transition_at(ExpenseStatus::Submitted, "a".to_string(), String::new(), 2_000),
        Err(ExpenseError::Validation(ValidationError::NoItems))
    );
    assert_eq!(
        empty.transition_at(ExpenseStatus::Approved, "a".to_string(), String::new(), 2_000),
        Err(ExpenseError::InvalidTransition {
            from: ExpenseStatus::Draft,
            to: ExpenseStatus::Approved
        })
    );
    let mut submitted = report_in(ExpenseStatus::Submitted);
    assert_eq!(
        submitted.transition_at(ExpenseStatus::Rejected, "b".to_string(), " ".to_string(), 3_000),
        Err(ExpenseError::Validation(ValidationError::ReasonRequired))
    );
    assert_eq!(submitted.status, ExpenseStatus::Submitted);
    assert_eq!(
        submitted.transition(ExpenseStatus::Rejected, "b".to_string(), "dup".to_string()),
        Ok(())
    );
    assert_eq!(submitted.status, ExpenseStatus::Rejected);
    assert_eq!(submitted.rejection_reason.as_deref(), Some("dup"));
    assert_eq!(submitted.approved_by.as_deref(), Some("b"));
}
