//! The requests on customers and organisations, as far as they are a matter
//! of rules: which customer a deletion is about, and what is answered when
//! the store had nothing to delete.

use crate::error::{ApiError, ApiErrorKind};
use crate::text::{joined, text_of};
use vstd::prelude::*;

verus! {

/// By what a customer is picked out for deletion.
#[derive(Debug)]
pub enum CustomerSelector {
    Gstin(String),
    Email(String),
}

/// A selector, as mathematical values.
pub enum CustomerSelectorView {
    Gstin(Seq<char>),
    Email(Seq<char>),
}

impl View for CustomerSelector {
    type V = CustomerSelectorView;

    open spec fn view(&self) -> CustomerSelectorView {
        match self {
            CustomerSelector::Gstin(gstin) => CustomerSelectorView::Gstin(gstin@),
            CustomerSelector::Email(email) => CustomerSelectorView::Email(email@),
        }
    }
}

impl CustomerSelectorView {
    /// What is said when no customer matches the selector.
    pub open spec fn not_found(self) -> Seq<char> {
        match self {
            CustomerSelectorView::Gstin(gstin) => "Customer with GSTIN '"@ + gstin + "' not found"@,
            CustomerSelectorView::Email(email) => "Customer with email '"@ + email + "' not found"@,
        }
    }
}

/// The selector that the parameters of a deletion give: the GSTIN where one
/// is given, else the email; a deletion that gives neither is refused.
pub fn delete_selector(gstin: Option<String>, email: Option<String>) -> (r: Result<
    CustomerSelector,
    ApiError,
>)
    ensures
        match r {
            Ok(selector) => match text_of(gstin) {
                Some(gstin) => selector@ == CustomerSelectorView::Gstin(gstin),
                None => text_of(email) matches Some(email) && selector@
                    == CustomerSelectorView::Email(email),
            },
            Err(e) => {
                &&& gstin is None
                &&& email is None
                &&& e.is(
                    ApiErrorKind::BadRequest,
                    "Please provide either 'gstin' or 'email' query parameter"@,
                )
            },
        },
{
    match gstin {
        Some(gstin) => Ok(CustomerSelector::Gstin(gstin)),
        None => match email {
            Some(email) => Ok(CustomerSelector::Email(email)),
            None => Err(
                ApiError::BadRequest(
                    "Please provide either 'gstin' or 'email' query parameter".to_owned(),
                ),
            ),
        },
    }
}

/// What is answered to a deletion by selector, where `deleted` says whether
/// the store deleted a customer.
pub fn selected_deletion(selector: &CustomerSelector, deleted: bool) -> (r: Result<(), ApiError>)
    ensures
        r is Ok <==> deleted,
        r matches Err(e) ==> e.is(ApiErrorKind::NotFound, selector@.not_found()),
{
    if deleted {
        return Ok(());
    }
    match selector {
        CustomerSelector::Gstin(gstin) => {
            let mut detail = joined("Customer with GSTIN '", gstin.as_str());
            detail.append("' not found");
            Err(ApiError::NotFound(detail))
        },
        CustomerSelector::Email(email) => {
            let mut detail = joined("Customer with email '", email.as_str());
            detail.append("' not found");
            Err(ApiError::NotFound(detail))
        },
    }
}

/// What is answered to a deletion by key, where `deleted` says whether the
/// store deleted a record.
pub fn keyed_deletion(deleted: bool) -> (r: Result<(), ApiError>)
    ensures
        r is Ok <==> deleted,
        r matches Err(e) ==> e.is(ApiErrorKind::NotFound, "Customer not found"@),
{
    if deleted {
        Ok(())
    } else {
        Err(ApiError::NotFound("Customer not found".to_owned()))
    }
}

} // verus!
