//! What is decided about organisations before the store is asked to change
//! anything. The service holds no state: the store is the caller's, who
//! looks up what the service needs to know and hands it over.

use crate::error::{ApiError, ApiErrorKind};
use crate::models::address::{all_addresses_valid, is_address_problem, validate_addresses};
use crate::models::organisation::{
    CreateOrganisationRequest, Organisation, OrganisationField, UpdateOrganizationRequest,
};
use crate::services::customer_service::{customer_not_found, customer_not_found_error};
use crate::text::joined;
use vstd::prelude::*;

verus! {

/// What is said of an organisation that is not stored under `id`.
pub open spec fn organisation_not_found(id: Seq<char>) -> Seq<char> {
    "Organisation with id "@ + id + " not found"@
}

/// What is said of an organisation that is not stored with `email`.
pub open spec fn organisation_email_not_found(email: Seq<char>) -> Seq<char> {
    "Customer with email '"@ + email + "' not found"@
}

/// The rules for organisations.
#[derive(Debug, Clone, Copy)]
pub struct OrganisationService {}

impl OrganisationService {
    pub fn new() -> (service: Self) {
        OrganisationService {  }
    }

    /// The organisation to store for `request`, where `email_in_use` says
    /// whether an organisation with the same email is stored already. The
    /// request needs at least one address, each with label and value, and an
    /// email that is not in use.
    pub fn create_organisation(&self, request: CreateOrganisationRequest, email_in_use: bool) -> (r:
        Result<Organisation, ApiError>)
        ensures
            r is Ok <==> request.addresses.len() > 0 && all_addresses_valid(
                request.addresses.deep_view(),
            ) && !email_in_use,
            r matches Ok(organisation) ==> organisation.is_made_from(request),
            r matches Err(e) ==> e.kind() == ApiErrorKind::ValidationError && (if request.addresses.len()
                > 0 && all_addresses_valid(request.addresses.deep_view()) {
                e.detail() == "Organization with email already exists"@
            } else {
                is_address_problem(request.addresses.deep_view(), e.detail())
            }),
    {
        match validate_addresses(&request.addresses) {
            Ok(()) => {},
            Err(e) => {
                return Err(e);
            },
        }
        if email_in_use {
            return Err(
                ApiError::ValidationError("Organization with email already exists".to_owned()),
            );
        }
        Ok(Organisation::new(request))
    }

    /// The organisation stored under `id`, where `found` is what the store
    /// holds under it.
    pub fn get_organisation_by_id(&self, id: &str, found: Option<Organisation>) -> (r: Result<
        Organisation,
        ApiError,
    >)
        ensures
            match r {
                Ok(organisation) => found == Some(organisation),
                Err(e) => found is None && e.is(
                    ApiErrorKind::NotFound,
                    organisation_not_found(id@),
                ),
            },
    {
        match found {
            Some(organisation) => Ok(organisation),
            None => {
                let mut detail = joined("Organisation with id ", id);
                detail.append(" not found");
                Err(ApiError::NotFound(detail))
            },
        }
    }

    /// The organisation stored with `email`, where `found` is what the
    /// store holds with it.
    pub fn get_organisation_by_email(&self, email: &str, found: Option<Organisation>) -> (r: Result<
        Organisation,
        ApiError,
    >)
        ensures
            match r {
                Ok(organisation) => found == Some(organisation),
                Err(e) => found is None && e.is(
                    ApiErrorKind::NotFound,
                    organisation_email_not_found(email@),
                ),
            },
    {
        match found {
            Some(organisation) => Ok(organisation),
            None => {
                let mut detail = joined("Customer with email '", email);
                detail.append("' not found");
                Err(ApiError::NotFound(detail))
            },
        }
    }

    /// The fields to set in the organisation stored under `id`, where
    /// `exists` says whether one is stored there. Addresses that the request
    /// sends must be at least one, each with label and value.
    pub fn update_organisation(
        &self,
        id: &str,
        exists: bool,
        request: &UpdateOrganizationRequest,
    ) -> (r: Result<Vec<OrganisationField>, ApiError>)
        ensures
            match r {
                Ok(fields) => {
                    &&& exists
                    &&& request.addresses matches Some(addresses) ==> addresses.len() > 0
                        && all_addresses_valid(addresses.deep_view())
                    &&& fields@ == request.fields_to_set()
                },
                Err(e) => if !exists {
                    e.is(ApiErrorKind::NotFound, customer_not_found(id@))
                } else {
                    &&& e.kind() == ApiErrorKind::ValidationError
                    &&& request.addresses matches Some(addresses)
                    &&& !(addresses.len() > 0 && all_addresses_valid(addresses.deep_view()))
                    &&& is_address_problem(addresses.deep_view(), e.detail())
                },
            },
    {
        if !exists {
            return Err(customer_not_found_error(id));
        }
        match &request.addresses {
            Some(addresses) => {
                match validate_addresses(addresses) {
                    Ok(()) => {},
                    Err(e) => {
                        return Err(e);
                    },
                }
            },
            None => {},
        }
        Ok(request.changed_fields())
    }

    /// Whether the organisation stored under `id` may be deleted, where
    /// `exists` says whether one is stored there.
    pub fn delete_organisation(&self, id: &str, exists: bool) -> (r: Result<(), ApiError>)
        ensures
            r is Ok <==> exists,
            r matches Err(e) ==> e.is(ApiErrorKind::NotFound, customer_not_found(id@)),
    {
        if exists {
            Ok(())
        } else {
            Err(customer_not_found_error(id))
        }
    }
}

} // verus!
