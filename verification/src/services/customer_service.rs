//! What is decided about customers before the store is asked to change
//! anything. The service holds no state: the store is the caller's, who
//! looks up what the service needs to know and hands it over.

use crate::error::{ApiError, ApiErrorKind};
use crate::models::address::{all_addresses_valid, is_address_problem, validate_addresses};
use crate::models::customer::{
    CreateCustomerRequest, Customer, CustomerField, UpdateCustomerRequest,
};
use crate::text::{joined, is_blank, text_is_blank};
use vstd::prelude::*;

verus! {

/// What is said of a customer that is not stored under `id`.
pub open spec fn customer_not_found(id: Seq<char>) -> Seq<char> {
    "Customer with id "@ + id + " not found"@
}

/// An error that says that no customer is stored under `id`.
pub fn customer_not_found_error(id: &str) -> (error: ApiError)
    ensures
        error.is(ApiErrorKind::NotFound, customer_not_found(id@)),
{
    let mut detail = joined("Customer with id ", id);
    detail.append(" not found");
    ApiError::NotFound(detail)
}

/// Refuses a blank `text` as a validation error that says `complaint`.
pub fn require_text(text: &str, complaint: &str) -> (r: Result<(), ApiError>)
    ensures
        r is Ok <==> !is_blank(text@),
        r matches Err(e) ==> e.is(ApiErrorKind::ValidationError, complaint@),
{
    if text_is_blank(text) {
        Err(ApiError::ValidationError(complaint.to_owned()))
    } else {
        Ok(())
    }
}

/// The rules for customers.
#[derive(Debug, Clone, Copy)]
pub struct CustomerService {}

impl CustomerService {
    pub fn new() -> (service: Self) {
        CustomerService {  }
    }

    /// The customer to store for `request`, where `email_in_use` says
    /// whether a customer with the same email is stored already. The request
    /// needs at least one address, each with label and value, and an email
    /// that is not in use.
    pub fn create_customer(&self, request: CreateCustomerRequest, email_in_use: bool) -> (r: Result<
        Customer,
        ApiError,
    >)
        ensures
            r is Ok <==> request.addresses.len() > 0 && all_addresses_valid(
                request.addresses.deep_view(),
            ) && !email_in_use,
            r matches Ok(customer) ==> customer.is_made_from(request),
            r matches Err(e) ==> e.kind() == ApiErrorKind::ValidationError && (if request.addresses.len()
                > 0 && all_addresses_valid(request.addresses.deep_view()) {
                e.detail() == "Customer with email already exists"@
            } else {
                is_address_problem(request.addresses.deep_view(), e.detail())
            }),
    {
        match validate_addresses(&request.addresses) {
            Ok(()) => {},
            Err(e) => {
                return Err(e);
            },
        }
        if email_in_use {
            return Err(
                ApiError::ValidationError("Customer with email already exists".to_owned()),
            );
        }
        Ok(Customer::new(request))
    }

    /// The customer stored under `id`, where `found` is what the store holds
    /// under it.
    pub fn get_customer_by_id(&self, id: &str, found: Option<Customer>) -> (r: Result<
        Customer,
        ApiError,
    >)
        ensures
            match r {
                Ok(customer) => found == Some(customer),
                Err(e) => found is None && e.is(
                    ApiErrorKind::NotFound,
                    customer_not_found(id@),
                ),
            },
    {
        match found {
            Some(customer) => Ok(customer),
            None => Err(customer_not_found_error(id)),
        }
    }

    /// The fields to set in the customer stored under `id`, where `exists`
    /// says whether one is stored there. Addresses that the request sends
    /// must be at least one, each with label and value.
    pub fn update_customer(&self, id: &str, exists: bool, request: &UpdateCustomerRequest) -> (r:
        Result<Vec<CustomerField>, ApiError>)
        ensures
            match r {
                Ok(fields) => {
                    &&& exists
                    &&& request.addresses matches Some(addresses) ==> addresses.len() > 0
                        && all_addresses_valid(addresses.deep_view())
                    &&& fields@ == request.fields_to_set()
                },
                Err(e) => if !exists {
                    e.is(ApiErrorKind::NotFound, customer_not_found(id@))
                } else {
                    &&& e.kind() == ApiErrorKind::ValidationError
                    &&& request.addresses matches Some(addresses)
                    &&& !(addresses.len() > 0 && all_addresses_valid(addresses.deep_view()))
                    &&& is_address_problem(addresses.deep_view(), e.detail())
                },
            },
    {
        if !exists {
            return Err(customer_not_found_error(id));
        }
        match &request.addresses {
            Some(addresses) => {
                match validate_addresses(addresses) {
                    Ok(()) => {},
                    Err(e) => {
                        return Err(e);
                    },
                }
            },
            None => {},
        }
        Ok(request.changed_fields())
    }

    /// Whether the customer stored under `id` may be deleted, where `exists`
    /// says whether one is stored there.
    pub fn delete_customer(&self, id: &str, exists: bool) -> (r: Result<(), ApiError>)
        ensures
            r is Ok <==> exists,
            r matches Err(e) ==> e.is(ApiErrorKind::NotFound, customer_not_found(id@)),
    {
        if exists {
            Ok(())
        } else {
            Err(customer_not_found_error(id))
        }
    }

    /// Whether to look for a customer with this GSTIN to delete: not for a
    /// blank one.
    pub fn delete_customer_by_gstin(&self, gstin: &str) -> (r: Result<(), ApiError>)
        ensures
            r is Ok <==> !is_blank(gstin@),
            r matches Err(e) ==> e.is(ApiErrorKind::ValidationError, "GSTIN cannot be empty"@),
    {
        require_text(gstin, "GSTIN cannot be empty")
    }

    /// Whether to look for a customer with this email to delete: not for a
    /// blank one.
    pub fn delete_customer_by_email(&self, email: &str) -> (r: Result<(), ApiError>)
        ensures
            r is Ok <==> !is_blank(email@),
            r matches Err(e) ==> e.is(ApiErrorKind::ValidationError, "Email cannot be empty"@),
    {
        require_text(email, "Email cannot be empty")
    }

    /// Whether to search the customers for `query`: not for a blank one.
    pub fn search_customers(&self, query: &str) -> (r: Result<(), ApiError>)
        ensures
            r is Ok <==> !is_blank(query@),
            r matches Err(e) ==> e.is(
                ApiErrorKind::ValidationError,
                "Search query cannot be empty"@,
            ),
    {
        require_text(query, "Search query cannot be empty")
    }
}

} // verus!
