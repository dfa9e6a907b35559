//! Postal and other addresses of customers and organisations.

use crate::error::{ApiError, ApiErrorKind};
use vstd::prelude::*;

verus! {

/// A labelled address.
#[derive(Debug)]
pub struct Address {
    /// What the address is for, such as billing or shipping.
    pub label: String,
    /// The address itself.
    pub value: String,
    /// Whether the address is being edited; not stored.
    pub is_editing: bool,
}

/// What an address holds, as mathematical values.
pub struct AddressView {
    pub label: Seq<char>,
    pub value: Seq<char>,
    pub is_editing: bool,
}

impl View for Address {
    type V = AddressView;

    open spec fn view(&self) -> AddressView {
        AddressView { label: self.label@, value: self.value@, is_editing: self.is_editing }
    }
}

impl DeepView for Address {
    type V = AddressView;

    open spec fn deep_view(&self) -> AddressView {
        self@
    }
}

impl Clone for Address {
    fn clone(&self) -> (copy: Self)
        ensures
            copy@ == self@,
    {
        Address {
            label: self.label.clone(),
            value: self.value.clone(),
            is_editing: self.is_editing,
        }
    }
}

impl AddressView {
    /// Label and value are both given.
    pub open spec fn is_valid(self) -> bool {
        self.label.len() > 0 && self.value.len() > 0
    }

    /// What is wrong with an address that is not valid: the label comes
    /// before the value.
    pub open spec fn problem(self) -> Seq<char> {
        if self.label.len() == 0 {
            "Address label cannot be empty"@
        } else {
            "Address value cannot be empty"@
        }
    }
}

/// Every one of `addresses` is valid.
pub open spec fn all_addresses_valid(addresses: Seq<AddressView>) -> bool {
    forall|i: int| 0 <= i < addresses.len() ==> (#[trigger] addresses[i]).is_valid()
}

/// Whether `detail` says what is wrong with `addresses`: that there is none,
/// or what is wrong with the first that is not valid.
pub open spec fn is_address_problem(addresses: Seq<AddressView>, detail: Seq<char>) -> bool {
    if addresses.len() == 0 {
        detail == "At least one address is required"@
    } else {
        exists|i: int|
            {
                &&& 0 <= i < addresses.len()
                &&& all_addresses_valid(addresses.take(i))
                &&& !(#[trigger] addresses[i]).is_valid()
                &&& detail == addresses[i].problem()
            }
    }
}

impl Address {
    /// An address that is not being edited.
    pub fn new(label: String, value: String) -> (address: Self)
        ensures
            address@ == (AddressView { label: label@, value: value@, is_editing: false }),
    {
        Address { label, value, is_editing: false }
    }

    /// Checks that label and value are given.
    pub fn validate(&self) -> (r: Result<(), ApiError>)
        ensures
            r is Ok <==> self@.is_valid(),
            r matches Err(e) ==> e.is(ApiErrorKind::ValidationError, self@.problem()),
    {
        if self.label.as_str().is_empty() {
            return Err(ApiError::ValidationError("Address label cannot be empty".to_owned()));
        }
        if self.value.as_str().is_empty() {
            return Err(ApiError::ValidationError("Address value cannot be empty".to_owned()));
        }
        Ok(())
    }
}

/// Checks that there is at least one address and that each is valid.
pub fn validate_addresses(addresses: &Vec<Address>) -> (r: Result<(), ApiError>)
    ensures
        r is Ok <==> addresses.len() > 0 && all_addresses_valid(addresses.deep_view()),
        r matches Err(e) ==> e.kind() == ApiErrorKind::ValidationError && is_address_problem(
            addresses.deep_view(),
            e.detail(),
        ),
{
    if addresses.len() == 0 {
        return Err(ApiError::ValidationError("At least one address is required".to_owned()));
    }
    let ghost all = addresses.deep_view();
    let mut i: usize = 0;
    while i < addresses.len()
        invariant
            i <= addresses.len(),
            addresses.len() > 0,
            addresses.deep_view() == all,
            all_addresses_valid(all.take(i as int)),
        decreases addresses.len() - i,
    {
        proof {
            assert(all[i as int] == addresses[i as int]@);
        }
        match addresses[i].validate() {
            Ok(()) => {},
            Err(e) => {
                return Err(e);
            },
        }
        proof {
            assert forall|j: int| 0 <= j < i + 1 implies (#[trigger] all.take(
                i + 1,
            )[j]).is_valid() by {
                if j < i {
                    assert(all.take(i as int)[j].is_valid());
                }
            }
        }
        i += 1;
    }
    proof {
        assert(all.take(i as int) =~= all);
    }
    Ok(())
}

/// A copy of a list of addresses.
pub fn clone_addresses(addresses: &Vec<Address>) -> (copy: Vec<Address>)
    ensures
        copy.deep_view() == addresses.deep_view(),
{
    let mut copy: Vec<Address> = Vec::new();
    let mut i: usize = 0;
    while i < addresses.len()
        invariant
            i <= addresses.len(),
            copy.len() == i,
            forall|j: int| 0 <= j < i ==> copy[j]@ == addresses[j]@,
        decreases addresses.len() - i,
    {
        copy.push(addresses[i].clone());
        i += 1;
    }
    assert(copy.deep_view() =~= addresses.deep_view());
    copy
}

} // verus!
