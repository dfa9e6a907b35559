//! What can go wrong, by kind.

use crate::models::expense::ExpenseStatus;
use crate::text::{decimal_text, joined, to_decimal};
use vstd::prelude::*;

verus! {

/// Why a line item is refused.
#[derive(Debug, Clone, Copy, PartialEq, Eq, Structural)]
pub enum ItemError {
    /// The category is blank.
    CategoryRequired,
    /// The currency code is blank.
    CurrencyRequired,
    /// The amount is below zero.
    NegativeAmount,
    /// The date is blank.
    DateRequired,
    /// A tax amount is given and is below zero.
    NegativeTax,
    /// No amount is given.
    AmountRequired,
    /// What is given as the amount does not read as an amount.
    MalformedAmount,
    /// What is given as the tax amount does not read as an amount.
    MalformedTax,
}

/// Why a report is refused.
#[derive(Debug, Clone, Copy, PartialEq, Eq, Structural)]
pub enum ValidationError {
    /// The title is blank.
    TitleRequired,
    /// The project or cost center is blank.
    ProjectRequired,
    /// The item at `index` (counted from zero) is refused for `reason`; every
    /// item before it is in order.
    Item { index: usize, reason: ItemError },
    /// The total amount is below zero.
    NegativeTotal,
    /// A report without items was to be submitted.
    NoItems,
    /// A report was to be rejected without a reason.
    ReasonRequired,
    /// A page of a listing was asked for that cannot be counted out.
    InvalidPage,
}

/// The failures of the operations on expense reports.
#[derive(Debug, Clone, Copy, PartialEq, Eq, Structural)]
pub enum ExpenseError {
    /// A field is missing, negative or malformed.
    Validation(ValidationError),
    /// The lifecycle does not lead from `from` to `to`.
    InvalidTransition { from: ExpenseStatus, to: ExpenseStatus },
    /// A report in state `status` was to be edited, and only a draft may be
    /// edited.
    ImmutableState { status: ExpenseStatus },
    /// No report is stored under the key.
    NotFound,
    /// A range starts after it ends.
    InvalidRange,
    /// A sum over many reports does not fit the machine's widest integer.
    AmountOverflow,
}

impl ItemError {
    /// What the error says.
    pub open spec fn text(self) -> Seq<char> {
        match self {
            ItemError::CategoryRequired => "Expense category is required"@,
            ItemError::CurrencyRequired => "Currency is required"@,
            ItemError::NegativeAmount => "Amount cannot be negative"@,
            ItemError::DateRequired => "Expense date is required"@,
            ItemError::NegativeTax => "Tax amount cannot be negative"@,
            ItemError::AmountRequired => "Amount is required"@,
            ItemError::MalformedAmount => "Amount is not a number"@,
            ItemError::MalformedTax => "Tax amount is not a number"@,
        }
    }

    /// What the error says.
    pub fn message(&self) -> (message: String)
        ensures
            message@ == self.text(),
    {
        match self {
            ItemError::CategoryRequired => "Expense category is required".to_owned(),
            ItemError::CurrencyRequired => "Currency is required".to_owned(),
            ItemError::NegativeAmount => "Amount cannot be negative".to_owned(),
            ItemError::DateRequired => "Expense date is required".to_owned(),
            ItemError::NegativeTax => "Tax amount cannot be negative".to_owned(),
            ItemError::AmountRequired => "Amount is required".to_owned(),
            ItemError::MalformedAmount => "Amount is not a number".to_owned(),
            ItemError::MalformedTax => "Tax amount is not a number".to_owned(),
        }
    }
}

impl ValidationError {
    /// What the error says. An item is named by its place in the report,
    /// counted from one.
    pub open spec fn text(self) -> Seq<char> {
        match self {
            ValidationError::TitleRequired => "Expense title is required"@,
            ValidationError::ProjectRequired => "Project/Cost center is required"@,
            ValidationError::Item { index, reason } => "Item "@ + decimal_text(
                (index + 1) as nat,
            ) + ": "@ + reason.text(),
            ValidationError::NegativeTotal => "Total amount cannot be negative"@,
            ValidationError::NoItems => "At least one expense item is required"@,
            ValidationError::ReasonRequired => "Rejection reason is required"@,
            ValidationError::InvalidPage => "Page is out of range"@,
        }
    }

    /// What the error says.
    pub fn message(&self) -> (message: String)
        ensures
            message@ == self.text(),
    {
        match self {
            ValidationError::TitleRequired => "Expense title is required".to_owned(),
            ValidationError::ProjectRequired => "Project/Cost center is required".to_owned(),
            ValidationError::Item { index, reason } => {
                let mut message = "Item ".to_owned();
                message.append(to_decimal(*index as u128 + 1).as_str());
                message.append(": ");
                message.append(reason.message().as_str());
                message
            },
            ValidationError::NegativeTotal => "Total amount cannot be negative".to_owned(),
            ValidationError::NoItems => "At least one expense item is required".to_owned(),
            ValidationError::ReasonRequired => "Rejection reason is required".to_owned(),
            ValidationError::InvalidPage => "Page is out of range".to_owned(),
        }
    }
}

impl ExpenseError {
    /// What the error says.
    pub open spec fn text(self) -> Seq<char> {
        match self {
            ExpenseError::Validation(problem) => problem.text(),
            ExpenseError::InvalidTransition { from, to } => match to {
                ExpenseStatus::Submitted => "Expense cannot be submitted in current status"@,
                ExpenseStatus::Approved => "Expense cannot be approved in current status"@,
                ExpenseStatus::Rejected => "Expense cannot be rejected in current status"@,
                ExpenseStatus::Reimbursed => "Only approved expenses can be marked as reimbursed"@,
                ExpenseStatus::Draft => "Expense cannot be made a draft again"@,
            },
            ExpenseError::ImmutableState { status } => "Only a draft expense can be edited"@,
            ExpenseError::NotFound => "Expense not found"@,
            ExpenseError::InvalidRange => "Start date must be before end date"@,
            ExpenseError::AmountOverflow => "Amounts are too large to add up"@,
        }
    }

    /// What the error says.
    pub fn message(&self) -> (message: String)
        ensures
            message@ == self.text(),
    {
        match self {
            ExpenseError::Validation(problem) => problem.message(),
            ExpenseError::InvalidTransition { from, to } => match to {
                ExpenseStatus::Submitted => "Expense cannot be submitted in current status"
                    .to_owned(),
                ExpenseStatus::Approved => "Expense cannot be approved in current status"
                    .to_owned(),
                ExpenseStatus::Rejected => "Expense cannot be rejected in current status"
                    .to_owned(),
                ExpenseStatus::Reimbursed => "Only approved expenses can be marked as reimbursed"
                    .to_owned(),
                ExpenseStatus::Draft => "Expense cannot be made a draft again".to_owned(),
            },
            ExpenseError::ImmutableState { status } => "Only a draft expense can be edited"
                .to_owned(),
            ExpenseError::NotFound => "Expense not found".to_owned(),
            ExpenseError::InvalidRange => "Start date must be before end date".to_owned(),
            ExpenseError::AmountOverflow => "Amounts are too large to add up".to_owned(),
        }
    }
}

/// The errors of the interface, each with what it says.
#[derive(Debug)]
pub enum ApiError {
    DatabaseError(String),
    ValidationError(String),
    NotFound(String),
    InternalServerError(String),
    BadRequest(String),
}

/// The kinds of errors of the interface.
#[derive(Debug, Clone, Copy, PartialEq, Eq, Structural)]
pub enum ApiErrorKind {
    DatabaseError,
    ValidationError,
    NotFound,
    InternalServerError,
    BadRequest,
}

impl ApiError {
    /// The kind of the error.
    pub open spec fn kind(self) -> ApiErrorKind {
        match self {
            ApiError::DatabaseError(_) => ApiErrorKind::DatabaseError,
            ApiError::ValidationError(_) => ApiErrorKind::ValidationError,
            ApiError::NotFound(_) => ApiErrorKind::NotFound,
            ApiError::InternalServerError(_) => ApiErrorKind::InternalServerError,
            ApiError::BadRequest(_) => ApiErrorKind::BadRequest,
        }
    }

    /// What the error was made with.
    pub open spec fn detail(self) -> Seq<char> {
        match self {
            ApiError::DatabaseError(detail) => detail@,
            ApiError::ValidationError(detail) => detail@,
            ApiError::NotFound(detail) => detail@,
            ApiError::InternalServerError(detail) => detail@,
            ApiError::BadRequest(detail) => detail@,
        }
    }

    /// Whether the error is of `kind` and says `detail`.
    pub open spec fn is(self, kind: ApiErrorKind, detail: Seq<char>) -> bool {
        self.kind() == kind && self.detail() == detail
    }

    /// The status code that answers a request that failed with this error.
    pub fn status_code(&self) -> (code: u16)
        ensures
            code == match self.kind() {
                ApiErrorKind::DatabaseError => 500u16,
                ApiErrorKind::ValidationError => 400u16,
                ApiErrorKind::NotFound => 404u16,
                ApiErrorKind::InternalServerError => 500u16,
                ApiErrorKind::BadRequest => 400u16,
            },
    {
        match self {
            ApiError::DatabaseError(_) => 500,
            ApiError::ValidationError(_) => 400,
            ApiError::NotFound(_) => 404,
            ApiError::InternalServerError(_) => 500,
            ApiError::BadRequest(_) => 400,
        }
    }

    /// The name of the kind of the error, as the answer carries it.
    pub fn code(&self) -> (code: &'static str)
        ensures
            code@ == match self.kind() {
                ApiErrorKind::DatabaseError => "DATABASE_ERROR"@,
                ApiErrorKind::ValidationError => "VALIDATION_ERROR"@,
                ApiErrorKind::NotFound => "NOT_FOUND"@,
                ApiErrorKind::InternalServerError => "INTERNAL_SERVER_ERROR"@,
                ApiErrorKind::BadRequest => "BAD_REQUEST"@,
            },
    {
        match self {
            ApiError::DatabaseError(_) => "DATABASE_ERROR",
            ApiError::ValidationError(_) => "VALIDATION_ERROR",
            ApiError::NotFound(_) => "NOT_FOUND",
            ApiError::InternalServerError(_) => "INTERNAL_SERVER_ERROR",
            ApiError::BadRequest(_) => "BAD_REQUEST",
        }
    }

    /// What the error says: its kind in words, a colon, and its detail.
    pub fn message(&self) -> (message: String)
        ensures
            message@ == match self.kind() {
                ApiErrorKind::DatabaseError => "Database error: "@,
                ApiErrorKind::ValidationError => "Validation error: "@,
                ApiErrorKind::NotFound => "Not found: "@,
                ApiErrorKind::InternalServerError => "Internal server error: "@,
                ApiErrorKind::BadRequest => "Bad request: "@,
            } + self.detail(),
    {
        match self {
            ApiError::DatabaseError(detail) => joined("Database error: ", detail.as_str()),
            ApiError::ValidationError(detail) => joined("Validation error: ", detail.as_str()),
            ApiError::NotFound(detail) => joined("Not found: ", detail.as_str()),
            ApiError::InternalServerError(detail) => joined(
                "Internal server error: ",
                detail.as_str(),
            ),
            ApiError::BadRequest(detail) => joined("Bad request: ", detail.as_str()),
        }
    }

    /// The kind of interface error that an expense error is reported as: a
    /// broken rule as a validation error, an unknown key as not found, a sum
    /// that does not fit as an internal error, and every other as a bad
    /// request.
    pub open spec fn kind_of(e: ExpenseError) -> ApiErrorKind {
        match e {
            ExpenseError::Validation(_) => ApiErrorKind::ValidationError,
            ExpenseError::NotFound => ApiErrorKind::NotFound,
            ExpenseError::AmountOverflow => ApiErrorKind::InternalServerError,
            _ => ApiErrorKind::BadRequest,
        }
    }

    /// The interface error that reports an expense error, with what that
    /// error says as its detail.
    pub fn from_expense_error(e: ExpenseError) -> (error: ApiError)
        ensures
            error.is(Self::kind_of(e), e.text()),
    {
        let detail = e.message();
        match e {
            ExpenseError::Validation(_) => ApiError::ValidationError(detail),
            ExpenseError::NotFound => ApiError::NotFound(detail),
            ExpenseError::AmountOverflow => ApiError::InternalServerError(detail),
            _ => ApiError::BadRequest(detail),
        }
    }
}

} // verus!
