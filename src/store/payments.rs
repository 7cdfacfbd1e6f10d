use vstd::prelude::*;

use super::{
    found, lemma_paid_total_prefix, lemma_paid_total_push, paid_total, settled, Store, StoreView,
};
use crate::error::{Entity, Error};
use crate::invoice::{Invoice, InvoiceStatus};
use crate::payment::{CreatePaymentRequest, Payment};
use crate::rules::{check_payment_amount, check_payment_date, payment_amount_rule, payment_date_rule};
use crate::table::{index_of, lemma_index_of_unique, Record};
use crate::time::Timestamp;

verus! {

/// The outcome of paying `req` at time `now`: the invoice must exist, the
/// payment date must pass the date rules, and the amount the amount rules
/// against what has been paid so far.
pub open spec fn create_payment_result(
    s: StoreView,
    req: CreatePaymentRequest,
    now: Timestamp,
) -> Result<Payment, Error> {
    match s.invoices.get(req.invoice_id) {
        None => Err(Error::ReferenceNotFound(Entity::Invoice, req.invoice_id)),
        Some(inv) => match payment_date_rule(req.payment_date, inv, now) {
            Some(rule) => Err(Error::BusinessRuleViolation(rule)),
            None => match payment_amount_rule(
                inv,
                paid_total(s.payments.rows, req.invoice_id),
                req.amount as int,
            ) {
                Some(rule) => Err(Error::BusinessRuleViolation(rule)),
                None => if s.payments.next_id == u32::MAX {
                    Err(Error::StoreFailure)
                } else {
                    Ok(
                        Payment {
                            id: s.payments.next_id,
                            invoice_id: req.invoice_id,
                            payment_date: req.payment_date,
                            amount: req.amount,
                        },
                    )
                },
            },
        },
    }
}

/// The store after payment `p` was recorded: the payment is added, and its
/// invoice turns paid where the payments reach its amount.
pub open spec fn after_payment(s: StoreView, p: Payment) -> StoreView {
    let inv = s.invoices.get(p.invoice_id).unwrap();
    let t = StoreView { payments: s.payments.inserted(p), ..s };
    if paid_total(s.payments.rows, p.invoice_id) + p.amount == inv.amount {
        t.with_invoices(
            s.invoices.replaced(p.invoice_id, Invoice { status: InvoiceStatus::Paid, ..inv }),
        )
    } else {
        t
    }
}

/// What remains to be paid of invoice `invoice_id`.
pub open spec fn remaining_result(s: StoreView, invoice_id: u32) -> Result<u64, Error> {
    match s.invoices.get(invoice_id) {
        Some(inv) => Ok((inv.amount - paid_total(s.payments.rows, invoice_id)) as u64),
        None => Err(Error::NotFound(Entity::Invoice, invoice_id)),
    }
}

impl Store {
    /// All payments, in order of creation.
    pub fn fetch_payments(&self) -> (r: Vec<Payment>)
        ensures
            r@ == self@.payments.rows,
    {
        self.payments.list()
    }

    /// The payment with id `id`.
    pub fn fetch_payment(&self, id: u32) -> (r: Result<Payment, Error>)
        requires
            self@.wf(),
        ensures
            r == found(self@.payments.get(id), Entity::Payment, id),
    {
        match self.payments.get(id) {
            Some(x) => Ok(x),
            None => Err(Error::NotFound(Entity::Payment, id)),
        }
    }

    /// The sum of the payments against a stored invoice.
    pub fn paid_amount(&self, invoice_id: u32) -> (r: u64)
        requires
            self@.wf(),
            self@.invoices.contains(invoice_id),
        ensures
            r == paid_total(self@.payments.rows, invoice_id),
            r <= self@.invoices.get(invoice_id).unwrap().amount,
    {
        let ghost k = index_of(self@.invoices.rows, invoice_id);
        let ghost bound = self@.invoices.rows[k].amount;
        proof {
            assert(settled(self@.invoices.rows[k], self@.payments.rows));
        }
        let rows = self.payments.rows();
        let mut acc: u64 = 0;
        let mut i: usize = 0;
        while i < rows.len()
            invariant
                i <= rows@.len(),
                acc == paid_total(rows@.subrange(0, i as int), invoice_id),
                paid_total(rows@, invoice_id) <= bound,
            decreases rows@.len() - i,
        {
            proof {
                assert(rows@.subrange(0, i + 1) =~= rows@.subrange(0, i as int).push(rows@[i as int]));
                lemma_paid_total_push(rows@.subrange(0, i as int), rows@[i as int], invoice_id);
                lemma_paid_total_prefix(rows@, i + 1, invoice_id);
            }
            if rows[i].invoice_id == invoice_id {
                acc = acc + rows[i].amount;
            }
            i = i + 1;
        }
        proof {
            assert(rows@.subrange(0, rows@.len() as int) =~= rows@);
        }
        acc
    }

    /// What remains to be paid of invoice `invoice_id`.
    pub fn remaining_balance(&self, invoice_id: u32) -> (r: Result<u64, Error>)
        requires
            self@.wf(),
        ensures
            r == remaining_result(self@, invoice_id),
    {
        match self.invoices.get(invoice_id) {
            Some(inv) => {
                let paid = self.paid_amount(invoice_id);
                Ok(inv.amount - paid)
            },
            None => Err(Error::NotFound(Entity::Invoice, invoice_id)),
        }
    }

    /// Records a payment after checking its invoice, its date against `now`
    /// and its amount against what remains to be paid; the invoice turns paid
    /// where the payment settles it.
    pub fn create_payment(&mut self, req: CreatePaymentRequest, now: Timestamp) -> (r: Result<
        Payment,
        Error,
    >)
        requires
            old(self)@.wf(),
        ensures
            final(self)@.wf(),
            r == create_payment_result(old(self)@, req, now),
            final(self)@ == (match r {
                Ok(p) => after_payment(old(self)@, p),
                Err(_) => old(self)@,
            }),
    {
        let inv = match self.invoices.get(req.invoice_id) {
            Some(x) => x,
            None => {
                return Err(Error::ReferenceNotFound(Entity::Invoice, req.invoice_id));
            },
        };
        if let Some(rule) = check_payment_date(req.payment_date, &inv, now) {
            return Err(Error::BusinessRuleViolation(rule));
        }
        let paid = self.paid_amount(req.invoice_id);
        if let Some(rule) = check_payment_amount(&inv, paid, req.amount) {
            return Err(Error::BusinessRuleViolation(rule));
        }
        let id = self.payments.next_id();
        if id == u32::MAX {
            return Err(Error::StoreFailure);
        }
        let p = Payment {
            id,
            invoice_id: req.invoice_id,
            payment_date: req.payment_date,
            amount: req.amount,
        };
        self.record_payment(p);
        Ok(p)
    }

    /// Adds payment `p`, which its invoice can take, and turns the invoice
    /// paid where the payments reach its amount.
    pub(crate) fn record_payment(&mut self, p: Payment)
        requires
            old(self)@.wf(),
            old(self)@.invoices.contains(p.invoice_id),
            old(self)@.payments.accepts(p),
            payment_amount_rule(
                old(self)@.invoices.get(p.invoice_id).unwrap(),
                paid_total(old(self)@.payments.rows, p.invoice_id),
                p.amount as int,
            ) is None,
        ensures
            final(self)@.wf(),
            final(self)@ == after_payment(old(self)@, p),
    {
        let inv = match self.invoices.get(p.invoice_id) {
            Some(x) => x,
            None => {
                return;
            },
        };
        let paid = self.paid_amount(p.invoice_id);
        let k = match self.invoices.position(p.invoice_id) {
            Some(k) => k,
            None => {
                return;
            },
        };
        let ghost s0 = self@;
        proof {
            lemma_index_of_unique(s0.invoices, k as int);
        }
        self.payments.insert(p);
        let ghost s1 = self@;
        proof {
            assert forall|j: int| 0 <= j < s1.payments.rows.len() implies #[trigger] s1.payments.rows[j].invoice_id
                < s1.invoices.next_id by {
                if j < s0.payments.rows.len() {
                    assert(s1.payments.rows[j] == s0.payments.rows[j]);
                }
            }
            assert forall|j: int| 0 <= j < s0.invoices.rows.len() implies paid_total(
                s1.payments.rows,
                #[trigger] s0.invoices.rows[j].id,
            ) == paid_total(s0.payments.rows, s0.invoices.rows[j].id) + if j == k {
                p.amount as int
            } else {
                0
            } by {
                lemma_paid_total_push(s0.payments.rows, p, s0.invoices.rows[j].id);
                if j != k {
                    assert(s0.invoices.rows[j].key() != s0.invoices.rows[k as int].key()) by {
                        if j < k {
                            assert(s0.invoices.rows[j].key() < s0.invoices.rows[k as int].key());
                        } else {
                            assert(s0.invoices.rows[k as int].key() < s0.invoices.rows[j].key());
                        }
                    }
                }
            }
        }
        if p.amount == inv.amount - paid {
            self.invoices.replace(k, Invoice { status: InvoiceStatus::Paid, ..inv });
        }
        proof {
            let s2 = self@;
            assert forall|j: int| 0 <= j < s2.invoices.rows.len() implies settled(
                #[trigger] s2.invoices.rows[j],
                s2.payments.rows,
            ) by {
                assert(settled(s0.invoices.rows[j], s0.payments.rows));
                let _ = paid_total(s1.payments.rows, s0.invoices.rows[j].id);
            }
        }
    }
}

} // verus!
