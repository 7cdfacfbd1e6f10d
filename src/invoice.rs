use vstd::prelude::*;

use crate::table::Record;
use crate::time::Timestamp;

verus! {

#[derive(Clone, Copy, Debug, PartialEq, Eq, Structural)]
pub enum InvoiceStatus {
    Paid,
    Unpaid,
}

/// The stored name of an invoice status.
pub open spec fn status_code(s: InvoiceStatus) -> Seq<char> {
    match s {
        InvoiceStatus::Paid => "PAID"@,
        InvoiceStatus::Unpaid => "UNPAID"@,
    }
}

/// The status stored under `s`; an unknown name reads as `Unpaid`.
pub open spec fn status_of_code(s: Seq<char>) -> InvoiceStatus {
    if s == "PAID"@ {
        InvoiceStatus::Paid
    } else {
        InvoiceStatus::Unpaid
    }
}

impl From<String> for InvoiceStatus {
    fn from(s: String) -> (r: InvoiceStatus) {
        if s == String::from_str("PAID") {
            InvoiceStatus::Paid
        } else {
            InvoiceStatus::Unpaid
        }
    }
}

impl vstd::std_specs::convert::FromSpecImpl<String> for InvoiceStatus {
    open spec fn obeys_from_spec() -> bool {
        true
    }

    open spec fn from_spec(s: String) -> InvoiceStatus {
        status_of_code(s@)
    }
}

impl InvoiceStatus {
    /// The stored name of this status.
    pub fn code(&self) -> (r: String)
        ensures
            r@ == status_code(*self),
    {
        match self {
            InvoiceStatus::Paid => String::from_str("PAID"),
            InvoiceStatus::Unpaid => String::from_str("UNPAID"),
        }
    }
}

/// An amount billed under a contract for a period. The amount is in minor
/// currency units.
#[derive(Clone, Copy, Debug, PartialEq, Eq, Structural)]
pub struct Invoice {
    pub id: u32,
    pub contract_id: u32,
    pub issue_date: Timestamp,
    pub due_date: Timestamp,
    pub amount: u64,
    pub status: InvoiceStatus,
}

#[derive(Clone, Copy, Debug, PartialEq, Eq, Structural)]
pub struct CreateInvoiceRequest {
    pub contract_id: u32,
    pub issue_date: Timestamp,
    pub due_date: Timestamp,
    pub amount: u64,
}

#[derive(Clone, Copy, Debug, PartialEq, Eq, Structural)]
pub struct InvoiceResponse {
    pub id: u32,
    pub contract_id: u32,
    pub issue_date: Timestamp,
    pub due_date: Timestamp,
    pub amount: u64,
    pub status: InvoiceStatus,
}

impl Record for Invoice {
    open spec fn key(&self) -> u32 {
        self.id
    }

    fn id(&self) -> (r: u32) {
        self.id
    }

    fn duplicate(&self) -> (r: Invoice) {
        *self
    }
}

impl From<Invoice> for InvoiceResponse {
    fn from(i: Invoice) -> (r: InvoiceResponse) {
        InvoiceResponse {
            id: i.id,
            contract_id: i.contract_id,
            issue_date: i.issue_date,
            due_date: i.due_date,
            amount: i.amount,
            status: i.status,
        }
    }
}

impl vstd::std_specs::convert::FromSpecImpl<Invoice> for InvoiceResponse {
    open spec fn obeys_from_spec() -> bool {
        true
    }

    open spec fn from_spec(i: Invoice) -> InvoiceResponse {
        InvoiceResponse {
            id: i.id,
            contract_id: i.contract_id,
            issue_date: i.issue_date,
            due_date: i.due_date,
            amount: i.amount,
            status: i.status,
        }
    }
}

} // verus!
