use vstd::prelude::*;

use crate::contract::Contract;
use crate::customer::Customer;
use crate::error::{Entity, Error};
use crate::invoice::{Invoice, InvoiceStatus};
use crate::payment::Payment;
use crate::subscription::Subscription;
use crate::table::{Table, TableView};

pub mod contracts;
pub mod customers;
pub mod invoices;
pub mod payments;
pub mod restore;
pub mod subscriptions;

verus! {

/// What the store holds: one table per kind of row.
pub struct StoreView {
    pub customers: TableView<Customer>,
    pub subscriptions: TableView<Subscription>,
    pub contracts: TableView<Contract>,
    pub invoices: TableView<Invoice>,
    pub payments: TableView<Payment>,
}

/// The row under `id` of a table, or `NotFound` for `entity`.
pub open spec fn found<T>(row: Option<T>, entity: Entity, id: u32) -> Result<T, Error> {
    match row {
        Some(r) => Ok(r),
        None => Err(Error::NotFound(entity, id)),
    }
}

/// The sum of the payments in `payments` made against invoice `invoice_id`.
pub open spec fn paid_total(payments: Seq<Payment>, invoice_id: u32) -> int
    decreases payments.len(),
{
    if payments.len() == 0 {
        0
    } else {
        paid_total(payments.drop_last(), invoice_id) + if payments.last().invoice_id == invoice_id {
            payments.last().amount as int
        } else {
            0
        }
    }
}

/// The payments against `invoice` do not exceed its amount, and a paid
/// invoice has been paid in full.
pub open spec fn settled(invoice: Invoice, payments: Seq<Payment>) -> bool {
    &&& paid_total(payments, invoice.id) <= invoice.amount
    &&& invoice.status == InvoiceStatus::Paid ==> paid_total(payments, invoice.id)
        == invoice.amount
}

impl StoreView {
    pub open spec fn with_customers(self, t: TableView<Customer>) -> StoreView {
        StoreView { customers: t, ..self }
    }

    pub open spec fn with_subscriptions(self, t: TableView<Subscription>) -> StoreView {
        StoreView { subscriptions: t, ..self }
    }

    pub open spec fn with_contracts(self, t: TableView<Contract>) -> StoreView {
        StoreView { contracts: t, ..self }
    }

    pub open spec fn with_invoices(self, t: TableView<Invoice>) -> StoreView {
        StoreView { invoices: t, ..self }
    }

    pub open spec fn wf(self) -> bool {
        &&& self.customers.wf()
        &&& self.subscriptions.wf()
        &&& self.contracts.wf()
        &&& self.invoices.wf()
        &&& self.payments.wf()
        &&& forall|i: int|
            0 <= i < self.payments.rows.len() ==> #[trigger] self.payments.rows[i].invoice_id
                < self.invoices.next_id
        &&& forall|i: int|
            0 <= i < self.invoices.rows.len() ==> settled(
                #[trigger] self.invoices.rows[i],
                self.payments.rows,
            )
    }
}

pub proof fn lemma_paid_total_push(payments: Seq<Payment>, p: Payment, id: u32)
    ensures
        paid_total(payments.push(p), id) == paid_total(payments, id) + if p.invoice_id == id {
            p.amount as int
        } else {
            0
        },
{
    assert(payments.push(p).drop_last() =~= payments);
}

pub proof fn lemma_paid_total_absent(payments: Seq<Payment>, id: u32)
    requires
        forall|i: int| 0 <= i < payments.len() ==> #[trigger] payments[i].invoice_id != id,
    ensures
        paid_total(payments, id) == 0,
    decreases payments.len(),
{
    if payments.len() > 0 {
        let d = payments.drop_last();
        assert forall|i: int| 0 <= i < d.len() implies #[trigger] d[i].invoice_id != id by {
            assert(d[i] == payments[i]);
        }
        lemma_paid_total_absent(d, id);
    }
}

/// A prefix of the payments pays no more than all of them.
pub proof fn lemma_paid_total_prefix(payments: Seq<Payment>, i: int, id: u32)
    requires
        0 <= i <= payments.len(),
    ensures
        0 <= paid_total(payments.subrange(0, i), id) <= paid_total(payments, id),
    decreases payments.len(),
{
    if i == payments.len() {
        assert(payments.subrange(0, i) =~= payments);
        if payments.len() > 0 {
            lemma_paid_total_prefix(payments.drop_last(), i - 1, id);
        }
    } else {
        let d = payments.drop_last();
        assert(d.subrange(0, i) =~= payments.subrange(0, i));
        lemma_paid_total_prefix(d, i, id);
    }
}

/// The rows of the back office, kept in memory.
#[derive(Clone)]
pub struct Store {
    pub(crate) customers: Table<Customer>,
    pub(crate) subscriptions: Table<Subscription>,
    pub(crate) contracts: Table<Contract>,
    pub(crate) invoices: Table<Invoice>,
    pub(crate) payments: Table<Payment>,
}

impl View for Store {
    type V = StoreView;

    closed spec fn view(&self) -> StoreView {
        StoreView {
            customers: self.customers@,
            subscriptions: self.subscriptions@,
            contracts: self.contracts@,
            invoices: self.invoices@,
            payments: self.payments@,
        }
    }
}

impl Store {
    /// A store with no rows.
    pub fn new() -> (r: Store)
        ensures
            r@.wf(),
            r@.customers.rows.len() == 0 && r@.customers.next_id == 1,
            r@.subscriptions.rows.len() == 0 && r@.subscriptions.next_id == 1,
            r@.contracts.rows.len() == 0 && r@.contracts.next_id == 1,
            r@.invoices.rows.len() == 0 && r@.invoices.next_id == 1,
            r@.payments.rows.len() == 0 && r@.payments.next_id == 1,
    {
        Store {
            customers: Table::new(),
            subscriptions: Table::new(),
            contracts: Table::new(),
            invoices: Table::new(),
            payments: Table::new(),
        }
    }
}

} // verus!
