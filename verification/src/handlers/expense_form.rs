//! What an expense form means: the line item, the draft and the sparse
//! change that its fields describe.

use crate::clock::now_millis;
use crate::error::{ExpenseError, ItemError, ValidationError};
use crate::handlers::form_reader::{ExpenseForm, ExpenseFormView};
use crate::models::expense::{
    clone_items, sum_amounts, sum_taxes, Expense, ExpenseItem, ExpenseItemView, ExpenseStatus,
    ExpenseView,
};
use crate::models::expense_request::{
    outcome_view, UpdateExpenseRequest, UpdateExpenseRequestView,
};
use crate::text::{amount_of, flag_of, parse_amount, parse_flag, text_of};
use vstd::prelude::*;

verus! {

/// Names of the text fields of an expense form.
pub const TITLE_FIELD: &'static str = "expenseTitle";

pub const PROJECT_FIELD: &'static str = "projectCostCenter";

pub const CATEGORY_FIELD: &'static str = "expenseCategory";

pub const DATE_FIELD: &'static str = "expenseDate";

pub const CURRENCY_FIELD: &'static str = "currency";

pub const AMOUNT_FIELD: &'static str = "amount";

pub const COMMENT_FIELD: &'static str = "comment";

pub const PAYMENT_METHOD_FIELD: &'static str = "paymentMethod";

pub const VENDOR_FIELD: &'static str = "vendor";

pub const BILLABLE_FIELD: &'static str = "billable";

pub const TAX_FIELD: &'static str = "taxAmount";

pub const SUBMITTER_FIELD: &'static str = "submittedBy";

pub const NOTES_FIELD: &'static str = "notes";

pub const DEPARTMENT_FIELD: &'static str = "department";

/// The currency of an item whose form names none.
pub const DEFAULT_CURRENCY: &'static str = "INR";

/// The item that a form is laid over where no item is stored: empty, in
/// the default currency, without amounts and without a receipt.
pub open spec fn default_item() -> ExpenseItemView {
    ExpenseItemView {
        expense_category: Seq::empty(),
        currency: DEFAULT_CURRENCY@,
        amount: 0,
        expense_date: Seq::empty(),
        comment: Seq::empty(),
        receipt_file: None,
        original_filename: None,
        payment_method: None,
        vendor: None,
        billable: false,
        tax_amount: None,
    }
}

/// The text that is sent, or else the text that is there.
pub open spec fn sent_or(sent: Option<Seq<char>>, stored: Seq<char>) -> Seq<char> {
    match sent {
        Some(text) => text,
        None => stored,
    }
}

/// What is sent, or else what is there.
pub open spec fn sent_or_kept<T>(sent: Option<T>, stored: Option<T>) -> Option<T> {
    match sent {
        Some(_) => sent,
        None => stored,
    }
}

impl ExpenseFormView {
    /// The text of the field `name`, empty where the form lacks it.
    pub open spec fn field_or_empty(self, name: Seq<char>) -> Seq<char> {
        sent_or(self.field(name), Seq::empty())
    }

    /// The amount that the field `name` gives, if the form has the field and
    /// it reads as an amount.
    pub open spec fn amount_field(self, name: Seq<char>) -> Option<i64> {
        match self.field(name) {
            Some(text) => amount_of(text),
            None => None,
        }
    }

    /// Whether the form has the field `name` and it does not read as an
    /// amount.
    pub open spec fn is_malformed(self, name: Seq<char>) -> bool {
        self.field(name) matches Some(text) && amount_of(text) is None
    }

    /// What is wrong with the amounts that the form sends, the amount before
    /// the tax: an amount is missing where one is required, or one of the two
    /// is sent and does not read as an amount.
    pub open spec fn amount_problem(self, amount_required: bool) -> Option<ItemError> {
        if amount_required && self.field(AMOUNT_FIELD@) is None {
            Some(ItemError::AmountRequired)
        } else if self.is_malformed(AMOUNT_FIELD@) {
            Some(ItemError::MalformedAmount)
        } else if self.is_malformed(TAX_FIELD@) {
            Some(ItemError::MalformedTax)
        } else {
            None
        }
    }

    /// The form laid over the item `stored`: each field that the form sends
    /// takes the place of the stored one, and each other field stays. The
    /// item is billable, where the form speaks of it, only if the form says
    /// `true`. The receipt of the form, where one came with it and was
    /// stored, takes the place of the stored receipt.
    pub open spec fn laid_over(self, stored: ExpenseItemView) -> ExpenseItemView {
        ExpenseItemView {
            expense_category: sent_or(self.field(CATEGORY_FIELD@), stored.expense_category),
            currency: sent_or(self.field(CURRENCY_FIELD@), stored.currency),
            amount: match self.amount_field(AMOUNT_FIELD@) {
                Some(amount) => amount,
                None => stored.amount,
            },
            expense_date: sent_or(self.field(DATE_FIELD@), stored.expense_date),
            comment: sent_or(self.field(COMMENT_FIELD@), stored.comment),
            receipt_file: sent_or_kept(self.stored_filename, stored.receipt_file),
            original_filename: if self.stored_filename is Some {
                self.original_filename
            } else {
                stored.original_filename
            },
            payment_method: sent_or_kept(self.field(PAYMENT_METHOD_FIELD@), stored.payment_method),
            vendor: sent_or_kept(self.field(VENDOR_FIELD@), stored.vendor),
            billable: match self.field(BILLABLE_FIELD@) {
                Some(text) => flag_of(text) == Some(true),
                None => stored.billable,
            },
            tax_amount: sent_or_kept(self.amount_field(TAX_FIELD@), stored.tax_amount),
        }
    }

    /// The line item that the form describes by itself: the form laid over
    /// the default item. The form must send an amount, and what it sends as
    /// an amount must read as one.
    pub open spec fn item(self) -> Result<ExpenseItemView, ItemError> {
        match self.amount_problem(true) {
            Some(problem) => Err(problem),
            None => Ok(self.laid_over(default_item())),
        }
    }

    /// The line item that the form makes of the item `stored`: the form laid
    /// over it. What the form sends as an amount must read as one.
    pub open spec fn item_over(self, stored: ExpenseItemView) -> Result<
        ExpenseItemView,
        ItemError,
    > {
        match self.amount_problem(false) {
            Some(problem) => Err(problem),
            None => Ok(self.laid_over(stored)),
        }
    }

    /// The draft that the form describes, created at `now`: title, project,
    /// submitter, notes and department as the form gives them, and the one
    /// item of the form. A form whose item cannot be read describes none.
    pub open spec fn expense(self, now: i64) -> Result<ExpenseView, ExpenseError> {
        match self.item() {
            Err(reason) => Err(
                ExpenseError::Validation(ValidationError::Item { index: 0, reason }),
            ),
            Ok(item) => Ok(
                ExpenseView {
                    id: None,
                    expense_title: self.field_or_empty(TITLE_FIELD@),
                    project_cost_center: self.field_or_empty(PROJECT_FIELD@),
                    items: seq![item],
                    total_amount: item.amount as int,
                    total_tax: item.tax_or_zero(),
                    status: ExpenseStatus::Draft,
                    submitted_by: self.field(SUBMITTER_FIELD@),
                    approved_by: None,
                    submitted_at: None,
                    reviewed_at: None,
                    rejection_reason: None,
                    reimbursed_at: None,
                    notes: self.field(NOTES_FIELD@),
                    department: self.field(DEPARTMENT_FIELD@),
                    created_at: Some(now),
                    updated_at: Some(now),
                },
            ),
        }
    }

    /// Whether the form says anything about the item: one of the item's
    /// fields, or a receipt.
    pub open spec fn describes_item(self) -> bool {
        ||| self.fields.contains_key(CATEGORY_FIELD@)
        ||| self.fields.contains_key(DATE_FIELD@)
        ||| self.fields.contains_key(CURRENCY_FIELD@)
        ||| self.fields.contains_key(AMOUNT_FIELD@)
        ||| self.fields.contains_key(COMMENT_FIELD@)
        ||| self.fields.contains_key(PAYMENT_METHOD_FIELD@)
        ||| self.fields.contains_key(VENDOR_FIELD@)
        ||| self.fields.contains_key(BILLABLE_FIELD@)
        ||| self.fields.contains_key(TAX_FIELD@)
        ||| self.stored_filename is Some
    }

    /// The items that the form makes of the items `stored`: the first of
    /// them with the form laid over it, and the others as they are; or the
    /// one item that the form describes by itself, where none is stored.
    pub open spec fn items_over(self, stored: Seq<ExpenseItemView>) -> Result<
        Seq<ExpenseItemView>,
        ItemError,
    > {
        if stored.len() > 0 {
            match self.item_over(stored[0]) {
                Ok(item) => Ok(stored.update(0, item)),
                Err(problem) => Err(problem),
            }
        } else {
            match self.item() {
                Ok(item) => Ok(seq![item]),
                Err(problem) => Err(problem),
            }
        }
    }

    /// The sparse change to the report `stored` that the form describes:
    /// each of title, project, notes and department that the form has, and,
    /// where the form says anything about the item, the stored items with
    /// the form laid over the first of them. A field that the form does not
    /// send is not in the request, and an item field that it does not send
    /// is in the request as it is stored.
    pub open spec fn update_request(self, stored: ExpenseView) -> Result<
        UpdateExpenseRequestView,
        ExpenseError,
    > {
        let items = if self.describes_item() {
            match self.items_over(stored.items) {
                Ok(items) => Ok(Some(items)),
                Err(reason) => Err(reason),
            }
        } else {
            Ok(None)
        };
        match items {
            Err(reason) => Err(
                ExpenseError::Validation(ValidationError::Item { index: 0, reason }),
            ),
            Ok(items) => Ok(
                UpdateExpenseRequestView {
                    expense_title: self.field(TITLE_FIELD@),
                    project_cost_center: self.field(PROJECT_FIELD@),
                    items,
                    notes: self.field(NOTES_FIELD@),
                    department: self.field(DEPARTMENT_FIELD@),
                },
            ),
        }
    }
}

/// A request or an error, as mathematical values.
pub open spec fn request_view(r: Result<UpdateExpenseRequest, ExpenseError>) -> Result<
    UpdateExpenseRequestView,
    ExpenseError,
> {
    match r {
        Ok(request) => Ok(request@),
        Err(e) => Err(e),
    }
}

/// An item or an error, as mathematical values.
pub open spec fn item_view(r: Result<ExpenseItem, ItemError>) -> Result<
    ExpenseItemView,
    ItemError,
> {
    match r {
        Ok(item) => Ok(item@),
        Err(e) => Err(e),
    }
}

/// The text that is sent, or else the text that is there.
fn text_or(sent: Option<String>, stored: String) -> (text: String)
    ensures
        text@ == sent_or(text_of(sent), stored@),
{
    match sent {
        Some(text) => text,
        None => stored,
    }
}

/// The text that is sent, or else the text that is there, if any.
fn text_or_kept(sent: Option<String>, stored: Option<String>) -> (text: Option<String>)
    ensures
        text_of(text) == sent_or_kept(text_of(sent), text_of(stored)),
{
    match sent {
        Some(text) => Some(text),
        None => stored,
    }
}

impl ExpenseForm {
    /// The text of the field `name`, empty where the form lacks it.
    pub fn get_or_empty(&self, name: &str) -> (text: String)
        ensures
            text@ == self@.field_or_empty(name@),
    {
        text_or(self.get(name), String::new())
    }

    /// The amount that the field `name` gives, if the form has the field and
    /// it reads as an amount.
    pub fn get_amount(&self, name: &str) -> (amount: Option<i64>)
        ensures
            amount == self@.amount_field(name@),
    {
        match self.get(name) {
            Some(text) => parse_amount(text.as_str()),
            None => None,
        }
    }

    /// Whether the form has the field `name` and it does not read as an
    /// amount.
    pub fn is_malformed(&self, name: &str) -> (b: bool)
        ensures
            b == self@.is_malformed(name@),
    {
        match self.get(name) {
            Some(text) => parse_amount(text.as_str()).is_none(),
            None => false,
        }
    }

    /// What is wrong with the amounts that the form sends, if anything.
    pub fn amount_problem(&self, amount_required: bool) -> (problem: Option<ItemError>)
        ensures
            problem == self@.amount_problem(amount_required),
    {
        if amount_required && !self.has(AMOUNT_FIELD) {
            Some(ItemError::AmountRequired)
        } else if self.is_malformed(AMOUNT_FIELD) {
            Some(ItemError::MalformedAmount)
        } else if self.is_malformed(TAX_FIELD) {
            Some(ItemError::MalformedTax)
        } else {
            None
        }
    }

    /// The form laid over the item `stored`.
    pub fn lay_over(&self, stored: ExpenseItem) -> (item: ExpenseItem)
        ensures
            item@ == self@.laid_over(stored@),
    {
        let receipt = self.stored_filename();
        let original_filename = if receipt.is_some() {
            self.original_filename()
        } else {
            stored.original_filename
        };
        ExpenseItem {
            expense_category: text_or(self.get(CATEGORY_FIELD), stored.expense_category),
            currency: text_or(self.get(CURRENCY_FIELD), stored.currency),
            amount: match self.get_amount(AMOUNT_FIELD) {
                Some(amount) => amount,
                None => stored.amount,
            },
            expense_date: text_or(self.get(DATE_FIELD), stored.expense_date),
            comment: text_or(self.get(COMMENT_FIELD), stored.comment),
            receipt_file: text_or_kept(receipt, stored.receipt_file),
            original_filename,
            payment_method: text_or_kept(self.get(PAYMENT_METHOD_FIELD), stored.payment_method),
            vendor: text_or_kept(self.get(VENDOR_FIELD), stored.vendor),
            billable: match self.get(BILLABLE_FIELD) {
                Some(text) => match parse_flag(text.as_str()) {
                    Some(flag) => flag,
                    None => false,
                },
                None => stored.billable,
            },
            tax_amount: match self.get_amount(TAX_FIELD) {
                Some(tax) => Some(tax),
                None => stored.tax_amount,
            },
        }
    }

    /// The line item that the form describes by itself. A form that sends no
    /// amount, or sends as an amount what does not read as one, describes
    /// none.
    pub fn to_item(&self) -> (r: Result<ExpenseItem, ItemError>)
        ensures
            item_view(r) == self@.item(),
    {
        match self.amount_problem(true) {
            Some(problem) => Err(problem),
            None => {
                let blank = ExpenseItem {
                    expense_category: String::new(),
                    currency: DEFAULT_CURRENCY.to_owned(),
                    amount: 0,
                    expense_date: String::new(),
                    comment: String::new(),
                    receipt_file: None,
                    original_filename: None,
                    payment_method: None,
                    vendor: None,
                    billable: false,
                    tax_amount: None,
                };
                assert(blank@ == default_item());
                Ok(self.lay_over(blank))
            },
        }
    }

    /// The line item that the form makes of the item `stored`. A form that
    /// sends as an amount what does not read as one makes none.
    pub fn to_item_over(&self, stored: &ExpenseItem) -> (r: Result<ExpenseItem, ItemError>)
        ensures
            item_view(r) == self@.item_over(stored@),
    {
        match self.amount_problem(false) {
            Some(problem) => Err(problem),
            None => Ok(self.lay_over(stored.clone())),
        }
    }

    /// The draft that the form describes, created at `now`.
    pub fn to_expense_at(&self, now: i64) -> (r: Result<Expense, ExpenseError>)
        ensures
            outcome_view(r) == self@.expense(now),
    {
        let item = match self.to_item() {
            Ok(item) => item,
            Err(reason) => {
                return Err(ExpenseError::Validation(ValidationError::Item { index: 0, reason }));
            },
        };
        let total_amount = item.amount as i128;
        let total_tax: i128 = match item.tax_amount {
            Some(tax) => tax as i128,
            None => 0,
        };
        let ghost described = item@;
        let mut items: Vec<ExpenseItem> = Vec::new();
        items.push(item);
        let expense = Expense {
            id: None,
            expense_title: self.get_or_empty(TITLE_FIELD),
            project_cost_center: self.get_or_empty(PROJECT_FIELD),
            items,
            total_amount,
            total_tax,
            status: ExpenseStatus::Draft,
            submitted_by: self.get(SUBMITTER_FIELD),
            approved_by: None,
            submitted_at: None,
            reviewed_at: None,
            rejection_reason: None,
            reimbursed_at: None,
            notes: self.get(NOTES_FIELD),
            department: self.get(DEPARTMENT_FIELD),
            created_at: Some(now),
            updated_at: Some(now),
        };
        assert(expense@.items =~= seq![described]);
        Ok(expense)
    }

    /// The draft that the form describes, created now.
    pub fn to_expense(&self) -> (r: Result<Expense, ExpenseError>)
        ensures
            exists|now: i64| outcome_view(r) == #[trigger] self@.expense(now),
    {
        let now = now_millis();
        self.to_expense_at(now)
    }

    /// Whether the form says anything about the item.
    pub fn describes_item(&self) -> (b: bool)
        ensures
            b == self@.describes_item(),
    {
        self.has(CATEGORY_FIELD) || self.has(DATE_FIELD) || self.has(CURRENCY_FIELD) || self.has(
            AMOUNT_FIELD,
        ) || self.has(COMMENT_FIELD) || self.has(PAYMENT_METHOD_FIELD) || self.has(VENDOR_FIELD)
            || self.has(BILLABLE_FIELD) || self.has(TAX_FIELD) || self.stored_filename().is_some()
    }

    /// The items that the form makes of the items `stored`.
    pub fn to_items_over(&self, stored: &Vec<ExpenseItem>) -> (r: Result<
        Vec<ExpenseItem>,
        ItemError,
    >)
        ensures
            match r {
                Ok(items) => self@.items_over(stored.deep_view()) == Ok::<
                    Seq<ExpenseItemView>,
                    ItemError,
                >(items.deep_view()),
                Err(problem) => self@.items_over(stored.deep_view()) == Err::<
                    Seq<ExpenseItemView>,
                    ItemError,
                >(problem),
            },
    {
        if stored.len() > 0 {
            assert(stored.deep_view()[0] == stored[0]@);
            match self.to_item_over(&stored[0]) {
                Ok(item) => {
                    let ghost first = item@;
                    let mut items = clone_items(stored);
                    items.set(0, item);
                    assert(items.deep_view() =~= stored.deep_view().update(0, first));
                    Ok(items)
                },
                Err(problem) => Err(problem),
            }
        } else {
            match self.to_item() {
                Ok(item) => {
                    let ghost only = item@;
                    let mut items: Vec<ExpenseItem> = Vec::new();
                    items.push(item);
                    assert(items.deep_view() =~= seq![only]);
                    Ok(items)
                },
                Err(problem) => Err(problem),
            }
        }
    }

    /// The sparse change to the report `stored` that the form describes.
    pub fn to_update_request(&self, stored: &Expense) -> (r: Result<
        UpdateExpenseRequest,
        ExpenseError,
    >)
        ensures
            request_view(r) == self@.update_request(stored@),
    {
        let items = if self.describes_item() {
            match self.to_items_over(&stored.items) {
                Ok(items) => Some(items),
                Err(reason) => {
                    return Err(
                        ExpenseError::Validation(ValidationError::Item { index: 0, reason }),
                    );
                },
            }
        } else {
            None
        };
        Ok(
            UpdateExpenseRequest {
                expense_title: self.get(TITLE_FIELD),
                project_cost_center: self.get(PROJECT_FIELD),
                items,
                notes: self.get(NOTES_FIELD),
                department: self.get(DEPARTMENT_FIELD),
            },
        )
    }
}

/// The draft that a form describes has the totals of its one item and an
/// empty audit trail.
pub proof fn form_expense_is_consistent(form: ExpenseFormView, now: i64)
    ensures
        form.expense(now) matches Ok(draft) ==> draft.totals_consistent()
            && draft.lifecycle_consistent(),
{
    if let Ok(draft) = form.expense(now) {
        let items = draft.items;
        assert(items.drop_last() =~= Seq::<ExpenseItemView>::empty());
        assert(sum_amounts(items.drop_last()) == 0);
        assert(sum_taxes(items.drop_last()) == 0);
    }
}

/// A form that sends nothing about the item leaves the stored items out of
/// its request, and an item field that a form does not send is in its request
/// as it is stored: the form changes what it names and nothing else.
pub proof fn form_keeps_what_it_does_not_send(form: ExpenseFormView, stored: ExpenseItemView)
    ensures
        form.field(CATEGORY_FIELD@) is None ==> form.laid_over(stored).expense_category
            == stored.expense_category,
        form.field(CURRENCY_FIELD@) is None ==> form.laid_over(stored).currency
            == stored.currency,
        form.field(AMOUNT_FIELD@) is None ==> form.laid_over(stored).amount == stored.amount,
        form.field(DATE_FIELD@) is None ==> form.laid_over(stored).expense_date
            == stored.expense_date,
        form.field(COMMENT_FIELD@) is None ==> form.laid_over(stored).comment == stored.comment,
        form.field(PAYMENT_METHOD_FIELD@) is None ==> form.laid_over(stored).payment_method
            == stored.payment_method,
        form.field(VENDOR_FIELD@) is None ==> form.laid_over(stored).vendor == stored.vendor,
        form.field(BILLABLE_FIELD@) is None ==> form.laid_over(stored).billable
            == stored.billable,
        form.field(TAX_FIELD@) is None ==> form.laid_over(stored).tax_amount == stored.tax_amount,
        form.stored_filename is None ==> form.laid_over(stored).receipt_file
            == stored.receipt_file && form.laid_over(stored).original_filename
            == stored.original_filename,
{
}

} // verus!
