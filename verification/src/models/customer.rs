//! Customers, and the requests that create and change one.

use crate::models::address::Address;
use crate::models::field_set::{field_if, push_if};
use vstd::prelude::*;

verus! {

/// A customer as it is stored.
#[derive(Debug)]
pub struct Customer {
    /// Key in the document store; absent until the customer is first stored.
    pub id: Option<mongodb::bson::oid::ObjectId>,
    pub customer_name: String,
    pub company_name: String,
    pub gst_in: String,
    pub addresses: Vec<Address>,
    pub country: String,
    pub country_code: String,
    pub phone: String,
    pub is_active: String,
    pub email: String,
}

/// What a new customer is created from.
#[derive(Debug)]
pub struct CreateCustomerRequest {
    pub customer_name: String,
    pub company_name: String,
    pub gst_in: String,
    pub addresses: Vec<Address>,
    pub country: String,
    pub phone: String,
    pub email: String,
    pub country_code: String,
    pub is_active: String,
}

/// A sparse change to a customer: a field that is `None` is left as it is
/// stored.
#[derive(Debug)]
pub struct UpdateCustomerRequest {
    pub customer_name: Option<String>,
    pub company_name: Option<String>,
    pub gst_in: Option<String>,
    pub addresses: Option<Vec<Address>>,
    pub country: Option<String>,
    pub phone: Option<String>,
    pub email: Option<String>,
    pub country_code: Option<String>,
    pub is_active: Option<String>,
}

impl Customer {
    /// Whether this customer holds what `request` holds, and no key.
    pub open spec fn is_made_from(self, request: CreateCustomerRequest) -> bool {
        &&& self.id is None
        &&& self.customer_name@ == request.customer_name@
        &&& self.company_name@ == request.company_name@
        &&& self.gst_in@ == request.gst_in@
        &&& self.addresses.deep_view() == request.addresses.deep_view()
        &&& self.country@ == request.country@
        &&& self.country_code@ == request.country_code@
        &&& self.phone@ == request.phone@
        &&& self.is_active@ == request.is_active@
        &&& self.email@ == request.email@
    }

    /// The customer that `request` describes, not yet stored.
    pub fn new(request: CreateCustomerRequest) -> (customer: Self)
        ensures
            customer.is_made_from(request),
    {
        Customer {
            id: None,
            customer_name: request.customer_name,
            company_name: request.company_name,
            gst_in: request.gst_in,
            addresses: request.addresses,
            country: request.country,
            country_code: request.country_code,
            phone: request.phone,
            is_active: request.is_active,
            email: request.email,
        }
    }
}

/// A field of a stored customer that an update may set.
#[derive(Debug, Clone, Copy, PartialEq, Eq, Structural)]
pub enum CustomerField {
    CustomerName,
    CompanyName,
    GstIn,
    Addresses,
    Country,
    CountryCode,
    IsActive,
    Phone,
    Email,
    UpdatedAt,
}

impl CustomerField {
    /// The name of the field in the store.
    pub fn store_name(self) -> (name: &'static str)
        ensures
            name@ == match self {
                CustomerField::CustomerName => "customerName"@,
                CustomerField::CompanyName => "companyName"@,
                CustomerField::GstIn => "gstIN"@,
                CustomerField::Addresses => "addresses"@,
                CustomerField::Country => "country"@,
                CustomerField::CountryCode => "countryCode"@,
                CustomerField::IsActive => "isActive"@,
                CustomerField::Phone => "phone"@,
                CustomerField::Email => "email"@,
                CustomerField::UpdatedAt => "updatedAt"@,
            },
    {
        match self {
            CustomerField::CustomerName => "customerName",
            CustomerField::CompanyName => "companyName",
            CustomerField::GstIn => "gstIN",
            CustomerField::Addresses => "addresses",
            CustomerField::Country => "country",
            CustomerField::CountryCode => "countryCode",
            CustomerField::IsActive => "isActive",
            CustomerField::Phone => "phone",
            CustomerField::Email => "email",
            CustomerField::UpdatedAt => "updatedAt",
        }
    }
}

impl UpdateCustomerRequest {
    /// The fields that the request sets in the store, in a fixed order: the
    /// time of the last change, and each field that the request sends.
    pub open spec fn fields_to_set(self) -> Seq<CustomerField> {
        seq![CustomerField::UpdatedAt] + field_if(
            self.customer_name is Some,
            CustomerField::CustomerName,
        ) + field_if(self.company_name is Some, CustomerField::CompanyName) + field_if(
            self.gst_in is Some,
            CustomerField::GstIn,
        ) + field_if(self.addresses is Some, CustomerField::Addresses) + field_if(
            self.country is Some,
            CustomerField::Country,
        ) + field_if(self.country_code is Some, CustomerField::CountryCode) + field_if(
            self.is_active is Some,
            CustomerField::IsActive,
        ) + field_if(self.phone is Some, CustomerField::Phone) + field_if(
            self.email is Some,
            CustomerField::Email,
        )
    }

    /// The fields that the request sets in the store.
    pub fn changed_fields(&self) -> (fields: Vec<CustomerField>)
        ensures
            fields@ == self.fields_to_set(),
    {
        let mut fields: Vec<CustomerField> = Vec::new();
        fields.push(CustomerField::UpdatedAt);
        assert(fields@ =~= seq![CustomerField::UpdatedAt]);
        push_if(&mut fields, self.customer_name.is_some(), CustomerField::CustomerName);
        push_if(&mut fields, self.company_name.is_some(), CustomerField::CompanyName);
        push_if(&mut fields, self.gst_in.is_some(), CustomerField::GstIn);
        push_if(&mut fields, self.addresses.is_some(), CustomerField::Addresses);
        push_if(&mut fields, self.country.is_some(), CustomerField::Country);
        push_if(&mut fields, self.country_code.is_some(), CustomerField::CountryCode);
        push_if(&mut fields, self.is_active.is_some(), CustomerField::IsActive);
        push_if(&mut fields, self.phone.is_some(), CustomerField::Phone);
        push_if(&mut fields, self.email.is_some(), CustomerField::Email);
        fields
    }
}

} // verus!
