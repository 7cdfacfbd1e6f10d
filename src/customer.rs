use vstd::prelude::*;

use crate::checks::{length_within, pattern_matches, phone_is_valid, regex_compiles, regex_is_match, valid_phone};
use crate::error::{Error, Field, FieldIssue};
use crate::table::Record;

verus! {

/// The shape of a national id: exactly thirteen digits.
pub const CNP_PATTERN: &'static str = "^\\d{13}$";

#[derive(Clone, Debug, PartialEq, Eq)]
pub struct Customer {
    pub id: u32,
    pub name: String,
    pub fullname: String,
    pub address: String,
    pub phone: String,
    pub cnp: String,
}

/// The fields of a customer as a client submits them.
#[derive(Clone, Debug, PartialEq, Eq)]
pub struct CustomerRequest {
    pub name: String,
    pub fullname: String,
    pub address: String,
    pub phone: String,
    pub cnp: String,
}

#[derive(Clone, Debug, PartialEq, Eq)]
pub struct CustomerResponse {
    pub id: u32,
    pub name: String,
    pub fullname: String,
    pub address: String,
    pub phone: String,
    pub cnp: String,
}

impl Record for Customer {
    open spec fn key(&self) -> u32 {
        self.id
    }

    fn id(&self) -> (r: u32) {
        self.id
    }

    fn duplicate(&self) -> (r: Customer) {
        Customer {
            id: self.id,
            name: self.name.clone(),
            fullname: self.fullname.clone(),
            address: self.address.clone(),
            phone: self.phone.clone(),
            cnp: self.cnp.clone(),
        }
    }
}

impl Customer {
    /// The customer stored under `id` with the fields of `req`.
    pub open spec fn spec_from_request(id: u32, req: CustomerRequest) -> Customer {
        Customer {
            id,
            name: req.name,
            fullname: req.fullname,
            address: req.address,
            phone: req.phone,
            cnp: req.cnp,
        }
    }

    pub fn from_request(id: u32, req: CustomerRequest) -> (r: Customer)
        ensures
            r == Customer::spec_from_request(id, req),
    {
        Customer {
            id,
            name: req.name,
            fullname: req.fullname,
            address: req.address,
            phone: req.phone,
            cnp: req.cnp,
        }
    }
}

impl From<Customer> for CustomerResponse {
    fn from(c: Customer) -> (r: CustomerResponse) {
        CustomerResponse {
            id: c.id,
            name: c.name,
            fullname: c.fullname,
            address: c.address,
            phone: c.phone,
            cnp: c.cnp,
        }
    }
}

impl vstd::std_specs::convert::FromSpecImpl<Customer> for CustomerResponse {
    open spec fn obeys_from_spec() -> bool {
        true
    }

    open spec fn from_spec(c: Customer) -> CustomerResponse {
        CustomerResponse {
            id: c.id,
            name: c.name,
            fullname: c.fullname,
            address: c.address,
            phone: c.phone,
            cnp: c.cnp,
        }
    }
}

/// The first constraint that a customer request breaks, fields taken in
/// declaration order: name, full name and address by length (3 to 20, 50 and
/// 100 characters), then the phone number, then the national id's shape.
pub open spec fn customer_request_issue(req: CustomerRequest) -> Option<(Field, FieldIssue)> {
    if !(3 <= req.name@.len() <= 20) {
        Some((Field::Name, FieldIssue::Length))
    } else if !(3 <= req.fullname@.len() <= 50) {
        Some((Field::Fullname, FieldIssue::Length))
    } else if !(3 <= req.address@.len() <= 100) {
        Some((Field::Address, FieldIssue::Length))
    } else if !phone_is_valid(req.phone@) {
        Some((Field::Phone, FieldIssue::Format))
    } else if !(regex_compiles(CNP_PATTERN@) && regex_is_match(CNP_PATTERN@, req.cnp@)) {
        Some((Field::Cnp, FieldIssue::Format))
    } else {
        None
    }
}

/// Checks the fields of a customer request.
pub fn validate_customer_request(req: &CustomerRequest) -> (r: Result<(), Error>)
    ensures
        r == (match customer_request_issue(*req) {
            Some((f, i)) => Err(Error::FieldValidation(f, i)),
            None => Ok(()),
        }),
{
    if !length_within(req.name.as_str(), 3, 20) {
        return Err(Error::FieldValidation(Field::Name, FieldIssue::Length));
    }
    if !length_within(req.fullname.as_str(), 3, 50) {
        return Err(Error::FieldValidation(Field::Fullname, FieldIssue::Length));
    }
    if !length_within(req.address.as_str(), 3, 100) {
        return Err(Error::FieldValidation(Field::Address, FieldIssue::Length));
    }
    if !valid_phone(req.phone.as_str()) {
        return Err(Error::FieldValidation(Field::Phone, FieldIssue::Format));
    }
    match pattern_matches(CNP_PATTERN, req.cnp.as_str()) {
        Some(true) => Ok(()),
        _ => Err(Error::FieldValidation(Field::Cnp, FieldIssue::Format)),
    }
}

} // verus!
