//! Organisations, and the requests that create and change one.

use crate::models::address::Address;
use crate::models::field_set::{field_if, push_if};
use vstd::prelude::*;

verus! {

/// An organisation as it is stored.
#[derive(Debug)]
pub struct Organisation {
    /// Key in the document store; absent until the organisation is first
    /// stored.
    pub id: Option<mongodb::bson::oid::ObjectId>,
    pub organisation_name: String,
    pub company_name: String,
    pub gst_in: String,
    pub addresses: Vec<Address>,
    pub country: String,
    pub country_code: String,
    pub phone: String,
    pub email: String,
}

/// What a new organisation is created from.
#[derive(Debug)]
pub struct CreateOrganisationRequest {
    pub organisation_name: String,
    pub company_name: String,
    pub gst_in: String,
    pub country_code: String,
    pub addresses: Vec<Address>,
    pub country: String,
    pub phone: String,
    pub email: String,
}

/// A sparse change to an organisation: a field that is `None` is left as it
/// is stored.
#[derive(Debug)]
pub struct UpdateOrganizationRequest {
    pub organisation_name: Option<String>,
    pub company_name: Option<String>,
    pub gst_in: Option<String>,
    pub country_code: Option<String>,
    pub addresses: Option<Vec<Address>>,
    pub country: Option<String>,
    pub phone: Option<String>,
    pub email: Option<String>,
}

impl Organisation {
    /// Whether this organisation holds what `request` holds, and no key.
    pub open spec fn is_made_from(self, request: CreateOrganisationRequest) -> bool {
        &&& self.id is None
        &&& self.organisation_name@ == request.organisation_name@
        &&& self.company_name@ == request.company_name@
        &&& self.gst_in@ == request.gst_in@
        &&& self.addresses.deep_view() == request.addresses.deep_view()
        &&& self.country@ == request.country@
        &&& self.country_code@ == request.country_code@
        &&& self.phone@ == request.phone@
        &&& self.email@ == request.email@
    }

    /// The organisation that `request` describes, not yet stored.
    pub fn new(request: CreateOrganisationRequest) -> (organisation: Self)
        ensures
            organisation.is_made_from(request),
    {
        Organisation {
            id: None,
            organisation_name: request.organisation_name,
            company_name: request.company_name,
            gst_in: request.gst_in,
            addresses: request.addresses,
            country: request.country,
            country_code: request.country_code,
            phone: request.phone,
            email: request.email,
        }
    }
}

/// A field of a stored organisation that an update may set.
#[derive(Debug, Clone, Copy, PartialEq, Eq, Structural)]
pub enum OrganisationField {
    OrganisationName,
    CompanyName,
    GstIn,
    Addresses,
    Country,
    CountryCode,
    Phone,
    Email,
    UpdatedAt,
}

impl OrganisationField {
    /// The name of the field in the store.
    pub fn store_name(self) -> (name: &'static str)
        ensures
            name@ == match self {
                OrganisationField::OrganisationName => "organizationName"@,
                OrganisationField::CompanyName => "companyName"@,
                OrganisationField::GstIn => "gstIN"@,
                OrganisationField::Addresses => "addresses"@,
                OrganisationField::Country => "country"@,
                OrganisationField::CountryCode => "countryCode"@,
                OrganisationField::Phone => "phone"@,
                OrganisationField::Email => "email"@,
                OrganisationField::UpdatedAt => "updatedAt"@,
            },
    {
        match self {
            OrganisationField::OrganisationName => "organizationName",
            OrganisationField::CompanyName => "companyName",
            OrganisationField::GstIn => "gstIN",
            OrganisationField::Addresses => "addresses",
            OrganisationField::Country => "country",
            OrganisationField::CountryCode => "countryCode",
            OrganisationField::Phone => "phone",
            OrganisationField::Email => "email",
            OrganisationField::UpdatedAt => "updatedAt",
        }
    }
}

impl UpdateOrganizationRequest {
    /// The fields that the request sets in the store, in a fixed order: the
    /// time of the last change, and each field that the request sends.
    pub open spec fn fields_to_set(self) -> Seq<OrganisationField> {
        seq![OrganisationField::UpdatedAt] + field_if(
            self.organisation_name is Some,
            OrganisationField::OrganisationName,
        ) + field_if(self.company_name is Some, OrganisationField::CompanyName) + field_if(
            self.gst_in is Some,
            OrganisationField::GstIn,
        ) + field_if(self.addresses is Some, OrganisationField::Addresses) + field_if(
            self.country is Some,
            OrganisationField::Country,
        ) + field_if(self.country_code is Some, OrganisationField::CountryCode) + field_if(
            self.phone is Some,
            OrganisationField::Phone,
        ) + field_if(self.email is Some, OrganisationField::Email)
    }

    /// The fields that the request sets in the store.
    pub fn changed_fields(&self) -> (fields: Vec<OrganisationField>)
        ensures
            fields@ == self.fields_to_set(),
    {
        let mut fields: Vec<OrganisationField> = Vec::new();
        fields.push(OrganisationField::UpdatedAt);
        assert(fields@ =~= seq![OrganisationField::UpdatedAt]);
        push_if(&mut fields, self.organisation_name.is_some(), OrganisationField::OrganisationName);
        push_if(&mut fields, self.company_name.is_some(), OrganisationField::CompanyName);
        push_if(&mut fields, self.gst_in.is_some(), OrganisationField::GstIn);
        push_if(&mut fields, self.addresses.is_some(), OrganisationField::Addresses);
        push_if(&mut fields, self.country.is_some(), OrganisationField::Country);
        push_if(&mut fields, self.country_code.is_some(), OrganisationField::CountryCode);
        push_if(&mut fields, self.phone.is_some(), OrganisationField::Phone);
        push_if(&mut fields, self.email.is_some(), OrganisationField::Email);
        fields
    }
}

} // verus!
