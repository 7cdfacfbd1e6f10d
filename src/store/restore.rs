use vstd::prelude::*;

use super::payments::after_payment;
use super::{lemma_paid_total_absent, paid_total, settled, Store, StoreView};
use crate::contract::Contract;
use crate::customer::Customer;
use crate::error::{Entity, Error};
use crate::invoice::{Invoice, InvoiceStatus};
use crate::payment::Payment;
use crate::rules::{check_payment_amount, payment_amount_rule};
use crate::subscription::Subscription;
use crate::table::Record;

verus! {

// Rows read back from durable storage are put in again under their own ids,
// in ascending id order. Dates are not held against the clock again: they were
// checked when the rows were first created.

/// `Ok` where the table can take `accepted`, else a store failure.
pub open spec fn restore_result(accepted: bool) -> Result<(), Error> {
    if accepted {
        Ok(())
    } else {
        Err(Error::StoreFailure)
    }
}

/// The outcome of putting payment `p` back: its invoice must exist and be able
/// to take it, and its id must follow the ids taken so far.
pub open spec fn restore_payment_result(s: StoreView, p: Payment) -> Result<(), Error> {
    match s.invoices.get(p.invoice_id) {
        None => Err(Error::ReferenceNotFound(Entity::Invoice, p.invoice_id)),
        Some(inv) => match payment_amount_rule(
            inv,
            paid_total(s.payments.rows, p.invoice_id),
            p.amount as int,
        ) {
            Some(rule) => Err(Error::BusinessRuleViolation(rule)),
            None => restore_result(s.payments.accepts(p)),
        },
    }
}

impl Store {
    /// Puts back a customer read from storage.
    pub fn restore_customer(&mut self, row: Customer) -> (r: Result<(), Error>)
        requires
            old(self)@.wf(),
        ensures
            final(self)@.wf(),
            r == restore_result(old(self)@.customers.accepts(row)),
            final(self)@ == (if r is Ok {
                old(self)@.with_customers(old(self)@.customers.inserted(row))
            } else {
                old(self)@
            }),
    {
        let id = row.id();
        if id < self.customers.next_id() || id == u32::MAX {
            return Err(Error::StoreFailure);
        }
        self.customers.insert(row);
        Ok(())
    }

    /// Puts back a subscription read from storage.
    pub fn restore_subscription(&mut self, row: Subscription) -> (r: Result<(), Error>)
        requires
            old(self)@.wf(),
        ensures
            final(self)@.wf(),
            r == restore_result(old(self)@.subscriptions.accepts(row)),
            final(self)@ == (if r is Ok {
                old(self)@.with_subscriptions(old(self)@.subscriptions.inserted(row))
            } else {
                old(self)@
            }),
    {
        let id = row.id();
        if id < self.subscriptions.next_id() || id == u32::MAX {
            return Err(Error::StoreFailure);
        }
        self.subscriptions.insert(row);
        Ok(())
    }

    /// Puts back a contract read from storage.
    pub fn restore_contract(&mut self, row: Contract) -> (r: Result<(), Error>)
        requires
            old(self)@.wf(),
        ensures
            final(self)@.wf(),
            r == restore_result(old(self)@.contracts.accepts(row)),
            final(self)@ == (if r is Ok {
                old(self)@.with_contracts(old(self)@.contracts.inserted(row))
            } else {
                old(self)@
            }),
    {
        let id = row.id();
        if id < self.contracts.next_id() || id == u32::MAX {
            return Err(Error::StoreFailure);
        }
        self.contracts.insert(row);
        Ok(())
    }

    /// Puts back an invoice read from storage, as unpaid: it turns paid again
    /// as its payments are put back after it.
    pub fn restore_invoice(&mut self, row: Invoice) -> (r: Result<(), Error>)
        requires
            old(self)@.wf(),
        ensures
            final(self)@.wf(),
            r == restore_result(old(self)@.invoices.accepts(row)),
            final(self)@ == (if r is Ok {
                old(self)@.with_invoices(
                    old(self)@.invoices.inserted(Invoice { status: InvoiceStatus::Unpaid, ..row }),
                )
            } else {
                old(self)@
            }),
    {
        let id = row.id();
        if id < self.invoices.next_id() || id == u32::MAX {
            return Err(Error::StoreFailure);
        }
        let x = Invoice { status: InvoiceStatus::Unpaid, ..row };
        let ghost s0 = self@;
        proof {
            assert forall|i: int| 0 <= i < s0.payments.rows.len() implies #[trigger] s0.payments.rows[i].invoice_id
                != id by {}
            lemma_paid_total_absent(s0.payments.rows, id);
        }
        self.invoices.insert(x);
        proof {
            let s1 = self@;
            assert forall|i: int| 0 <= i < s1.invoices.rows.len() implies settled(
                #[trigger] s1.invoices.rows[i],
                s1.payments.rows,
            ) by {
                if i < s0.invoices.rows.len() {
                    assert(s1.invoices.rows[i] == s0.invoices.rows[i]);
                }
            }
        }
        Ok(())
    }

    /// Puts back a payment read from storage; its invoice turns paid where the
    /// payments reach its amount.
    pub fn restore_payment(&mut self, row: Payment) -> (r: Result<(), Error>)
        requires
            old(self)@.wf(),
        ensures
            final(self)@.wf(),
            r == restore_payment_result(old(self)@, row),
            final(self)@ == (if r is Ok {
                after_payment(old(self)@, row)
            } else {
                old(self)@
            }),
    {
        let inv = match self.invoices.get(row.invoice_id) {
            Some(x) => x,
            None => {
                return Err(Error::ReferenceNotFound(Entity::Invoice, row.invoice_id));
            },
        };
        let paid = self.paid_amount(row.invoice_id);
        if let Some(rule) = check_payment_amount(&inv, paid, row.amount) {
            return Err(Error::BusinessRuleViolation(rule));
        }
        if row.id < self.payments.next_id() || row.id == u32::MAX {
            return Err(Error::StoreFailure);
        }
        self.record_payment(row);
        Ok(())
    }
}

} // verus!
