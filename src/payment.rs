use vstd::prelude::*;

use crate::table::Record;
use crate::time::Timestamp;

verus! {

/// An amount, in minor currency units, paid against an invoice.
#[derive(Clone, Copy, Debug, PartialEq, Eq, Structural)]
pub struct Payment {
    pub id: u32,
    pub invoice_id: u32,
    pub payment_date: Timestamp,
    pub amount: u64,
}

#[derive(Clone, Copy, Debug, PartialEq, Eq, Structural)]
pub struct CreatePaymentRequest {
    pub invoice_id: u32,
    pub payment_date: Timestamp,
    pub amount: u64,
}

#[derive(Clone, Copy, Debug, PartialEq, Eq, Structural)]
pub struct PaymentResponse {
    pub id: u32,
    pub invoice_id: u32,
    pub payment_date: Timestamp,
    pub amount: u64,
}

impl Record for Payment {
    open spec fn key(&self) -> u32 {
        self.id
    }

    fn id(&self) -> (r: u32) {
        self.id
    }

    fn duplicate(&self) -> (r: Payment) {
        *self
    }
}

impl From<Payment> for PaymentResponse {
    fn from(p: Payment) -> (r: PaymentResponse) {
        PaymentResponse {
            id: p.id,
            invoice_id: p.invoice_id,
            payment_date: p.payment_date,
            amount: p.amount,
        }
    }
}

impl vstd::std_specs::convert::FromSpecImpl<Payment> for PaymentResponse {
    open spec fn obeys_from_spec() -> bool {
        true
    }

    open spec fn from_spec(p: Payment) -> PaymentResponse {
        PaymentResponse {
            id: p.id,
            invoice_id: p.invoice_id,
            payment_date: p.payment_date,
            amount: p.amount,
        }
    }
}

} // verus!
