use vstd::prelude::*;

verus! {

/// The kinds of stored rows.
#[derive(Clone, Copy, Debug, PartialEq, Eq, Structural)]
pub enum Entity {
    Customer,
    Subscription,
    Contract,
    Invoice,
    Payment,
}

/// The business rules that a request can break.
#[derive(Clone, Copy, Debug, PartialEq, Eq, Structural)]
pub enum Rule {
    /// A contract starts after it ends.
    ContractDateOrder,
    /// A contract starts or ends before now.
    ContractDateInPast,
    /// An invoice is issued after it is due.
    InvoiceDateOrder,
    /// An invoice's period leaves its contract's period.
    InvoiceOutsideContract,
    /// A payment is dated before its invoice was issued.
    PaymentBeforeInvoiceIssue,
    /// A payment is dated before now.
    PaymentDateInPast,
    /// A payment would take the paid total above the invoice's amount.
    Overpayment,
    /// The invoice is paid already.
    InvoiceAlreadyPaid,
}

/// The request fields that carry a format or range constraint.
#[derive(Clone, Copy, Debug, PartialEq, Eq, Structural)]
pub enum Field {
    Name,
    Fullname,
    Address,
    Phone,
    Cnp,
    Description,
    Traffic,
    Price,
    ExtraTrafficPrice,
    Amount,
}

/// Why a field was refused.
#[derive(Clone, Copy, Debug, PartialEq, Eq, Structural)]
pub enum FieldIssue {
    /// Its length in characters is outside the allowed range.
    Length,
    /// It does not have the required shape.
    Format,
    /// It is below the allowed minimum.
    Range,
}

#[derive(Clone, Copy, Debug, PartialEq, Eq, Structural)]
pub enum Error {
    /// The row addressed by a request does not exist.
    NotFound(Entity, u32),
    /// A foreign key of a create request names no row.
    ReferenceNotFound(Entity, u32),
    /// A field of a request breaks its constraint.
    FieldValidation(Field, FieldIssue),
    /// A request breaks a business rule.
    BusinessRuleViolation(Rule),
    /// The store could not carry out the operation.
    StoreFailure,
    /// The request body could not be read.
    MalformedRequest,
}

impl Error {
    pub open spec fn spec_status_code(self) -> u16 {
        match self {
            Error::NotFound(..) | Error::ReferenceNotFound(..) => 404,
            Error::FieldValidation(..) | Error::BusinessRuleViolation(..)
            | Error::MalformedRequest => 400,
            Error::StoreFailure => 500,
        }
    }

    /// The HTTP status that reports this error.
    pub fn status_code(&self) -> (r: u16)
        ensures
            r == self.spec_status_code(),
    {
        match self {
            Error::NotFound(..) | Error::ReferenceNotFound(..) => 404,
            Error::FieldValidation(..) | Error::BusinessRuleViolation(..)
            | Error::MalformedRequest => 400,
            Error::StoreFailure => 500,
        }
    }
}

} // verus!
