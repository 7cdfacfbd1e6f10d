use vstd::prelude::*;

use super::{found, lemma_paid_total_absent, settled, Store, StoreView};
use crate::error::{Entity, Error};
use crate::invoice::{CreateInvoiceRequest, Invoice, InvoiceStatus};
use crate::payment::Payment;
use crate::rules::{check_invoice_dates, invoice_dates_rule};

verus! {

/// The outcome of creating an invoice from `req`: the contract must exist,
/// then the invoice's period must pass the invoice rules against it. A new
/// invoice is unpaid.
pub open spec fn create_invoice_result(s: StoreView, req: CreateInvoiceRequest) -> Result<
    Invoice,
    Error,
> {
    match s.contracts.get(req.contract_id) {
        None => Err(Error::ReferenceNotFound(Entity::Contract, req.contract_id)),
        Some(c) => match invoice_dates_rule(req.issue_date, req.due_date, c) {
            Some(rule) => Err(Error::BusinessRuleViolation(rule)),
            None => if s.invoices.next_id == u32::MAX {
                Err(Error::StoreFailure)
            } else {
                Ok(
                    Invoice {
                        id: s.invoices.next_id,
                        contract_id: req.contract_id,
                        issue_date: req.issue_date,
                        due_date: req.due_date,
                        amount: req.amount,
                        status: InvoiceStatus::Unpaid,
                    },
                )
            },
        },
    }
}

/// Payment `p` is made against invoice `invoice_id`.
pub open spec fn of_invoice(invoice_id: u32) -> spec_fn(Payment) -> bool {
    |p: Payment| p.invoice_id == invoice_id
}

impl Store {
    /// All invoices, in order of creation.
    pub fn fetch_invoices(&self) -> (r: Vec<Invoice>)
        ensures
            r@ == self@.invoices.rows,
    {
        self.invoices.list()
    }

    /// The invoice with id `id`.
    pub fn fetch_invoice(&self, id: u32) -> (r: Result<Invoice, Error>)
        requires
            self@.wf(),
        ensures
            r == found(self@.invoices.get(id), Entity::Invoice, id),
    {
        match self.invoices.get(id) {
            Some(x) => Ok(x),
            None => Err(Error::NotFound(Entity::Invoice, id)),
        }
    }

    /// Creates an unpaid invoice after checking its contract and its period.
    pub fn create_invoice(&mut self, req: CreateInvoiceRequest) -> (r: Result<Invoice, Error>)
        requires
            old(self)@.wf(),
        ensures
            final(self)@.wf(),
            r == create_invoice_result(old(self)@, req),
            final(self)@ == (match r {
                Ok(x) => old(self)@.with_invoices(old(self)@.invoices.inserted(x)),
                Err(_) => old(self)@,
            }),
    {
        let contract = match self.contracts.get(req.contract_id) {
            Some(c) => c,
            None => {
                return Err(Error::ReferenceNotFound(Entity::Contract, req.contract_id));
            },
        };
        if let Some(rule) = check_invoice_dates(req.issue_date, req.due_date, &contract) {
            return Err(Error::BusinessRuleViolation(rule));
        }
        let id = self.invoices.next_id();
        if id == u32::MAX {
            return Err(Error::StoreFailure);
        }
        let x = Invoice {
            id,
            contract_id: req.contract_id,
            issue_date: req.issue_date,
            due_date: req.due_date,
            amount: req.amount,
            status: InvoiceStatus::Unpaid,
        };
        let ghost s0 = self@;
        proof {
            assert forall|i: int| 0 <= i < s0.payments.rows.len() implies #[trigger] s0.payments.rows[i].invoice_id
                != id by {}
            lemma_paid_total_absent(s0.payments.rows, id);
        }
        self.invoices.insert(x);
        proof {
            let s1 = self@;
            assert forall|i: int| 0 <= i < s1.invoices.rows.len() implies settled(
                #[trigger] s1.invoices.rows[i],
                s1.payments.rows,
            ) by {
                if i < s0.invoices.rows.len() {
                    assert(s1.invoices.rows[i] == s0.invoices.rows[i]);
                }
            }
        }
        Ok(x)
    }

    /// Deletes invoice `id`; the payments made against it stay.
    pub fn delete_invoice(&mut self, id: u32) -> (r: Result<(), Error>)
        requires
            old(self)@.wf(),
        ensures
            final(self)@.wf(),
            r is Ok <==> old(self)@.invoices.contains(id),
            r is Err ==> r == Err::<(), Error>(Error::NotFound(Entity::Invoice, id)),
            final(self)@ == (if r is Ok {
                old(self)@.with_invoices(old(self)@.invoices.removed(id))
            } else {
                old(self)@
            }),
    {
        match self.invoices.position(id) {
            Some(k) => {
                let ghost s0 = self@;
                self.invoices.remove(k);
                proof {
                    let s1 = self@;
                    assert forall|i: int| 0 <= i < s1.invoices.rows.len() implies settled(
                        #[trigger] s1.invoices.rows[i],
                        s1.payments.rows,
                    ) by {
                        if i < k {
                            assert(s1.invoices.rows[i] == s0.invoices.rows[i]);
                        } else {
                            assert(s1.invoices.rows[i] == s0.invoices.rows[i + 1]);
                        }
                    }
                }
                Ok(())
            },
            None => Err(Error::NotFound(Entity::Invoice, id)),
        }
    }

    /// The payments made against invoice `invoice_id`, in order of creation.
    pub fn fetch_invoice_payments(&self, invoice_id: u32) -> (r: Vec<Payment>)
        ensures
            r@ == self@.payments.rows.filter(of_invoice(invoice_id)),
    {
        let rows = self.payments.rows();
        let mut out: Vec<Payment> = Vec::new();
        let mut i: usize = 0;
        while i < rows.len()
            invariant
                i <= rows@.len(),
                out@ == rows@.subrange(0, i as int).filter(of_invoice(invoice_id)),
            decreases rows@.len() - i,
        {
            let x = rows[i];
            if x.invoice_id == invoice_id {
                out.push(x);
            }
            proof {
                assert(rows@.subrange(0, i + 1).drop_last() =~= rows@.subrange(0, i as int));
                reveal(Seq::filter);
            }
            i = i + 1;
        }
        proof {
            assert(rows@.subrange(0, rows@.len() as int) =~= rows@);
        }
        out
    }
}

} // verus!
