use vstd::prelude::*;

use super::{found, Store, StoreView};
use crate::contract::Contract;
use crate::customer::{customer_request_issue, validate_customer_request, Customer, CustomerRequest};
use crate::error::{Entity, Error};
use crate::invoice::{Invoice, InvoiceStatus};
use crate::table::{find, Record};

verus! {

/// The outcome of creating a customer from `req`.
pub open spec fn create_customer_result(s: StoreView, req: CustomerRequest) -> Result<Customer, Error> {
    match customer_request_issue(req) {
        Some((f, i)) => Err(Error::FieldValidation(f, i)),
        None => if s.customers.next_id == u32::MAX {
            Err(Error::StoreFailure)
        } else {
            Ok(Customer::spec_from_request(s.customers.next_id, req))
        },
    }
}

/// The outcome of giving customer `id` the fields of `req`.
pub open spec fn update_customer_result(s: StoreView, id: u32, req: CustomerRequest) -> Result<
    Customer,
    Error,
> {
    match customer_request_issue(req) {
        Some((f, i)) => Err(Error::FieldValidation(f, i)),
        None => if !s.customers.contains(id) {
            Err(Error::NotFound(Entity::Customer, id))
        } else {
            Ok(Customer::spec_from_request(id, req))
        },
    }
}

/// Contract `c` belongs to customer `customer_id`.
pub open spec fn of_customer(customer_id: u32) -> spec_fn(Contract) -> bool {
    |c: Contract| c.customer_id == customer_id
}

/// Invoice `i` is unpaid and falls under a stored contract of customer
/// `customer_id`.
pub open spec fn unpaid_of_customer(contracts: Seq<Contract>, customer_id: u32) -> spec_fn(
    Invoice,
) -> bool {
    |i: Invoice|
        i.status == InvoiceStatus::Unpaid && match find(contracts, i.contract_id) {
            Some(c) => c.customer_id == customer_id,
            None => false,
        }
}

impl Store {
    /// All customers, in order of creation.
    pub fn fetch_customers(&self) -> (r: Vec<Customer>)
        ensures
            r@ == self@.customers.rows,
    {
        self.customers.list()
    }

    /// The customer with id `id`.
    pub fn fetch_customer(&self, id: u32) -> (r: Result<Customer, Error>)
        requires
            self@.wf(),
        ensures
            r == found(self@.customers.get(id), Entity::Customer, id),
    {
        match self.customers.get(id) {
            Some(c) => Ok(c),
            None => Err(Error::NotFound(Entity::Customer, id)),
        }
    }

    /// Checks `req` and stores it as a new customer under the next id.
    pub fn create_customer(&mut self, req: CustomerRequest) -> (r: Result<Customer, Error>)
        requires
            old(self)@.wf(),
        ensures
            final(self)@.wf(),
            r == create_customer_result(old(self)@, req),
            final(self)@ == (match r {
                Ok(c) => old(self)@.with_customers(old(self)@.customers.inserted(c)),
                Err(_) => old(self)@,
            }),
    {
        validate_customer_request(&req)?;
        let id = self.customers.next_id();
        if id == u32::MAX {
            return Err(Error::StoreFailure);
        }
        let c = Customer::from_request(id, req);
        self.customers.insert(c.duplicate());
        Ok(c)
    }

    /// Checks `req` and gives customer `id` its fields.
    pub fn update_customer(&mut self, id: u32, req: CustomerRequest) -> (r: Result<Customer, Error>)
        requires
            old(self)@.wf(),
        ensures
            final(self)@.wf(),
            r == update_customer_result(old(self)@, id, req),
            final(self)@ == (match r {
                Ok(c) => old(self)@.with_customers(old(self)@.customers.replaced(id, c)),
                Err(_) => old(self)@,
            }),
    {
        validate_customer_request(&req)?;
        match self.customers.position(id) {
            Some(i) => {
                let c = Customer::from_request(id, req);
                self.customers.replace(i, c.duplicate());
                Ok(c)
            },
            None => Err(Error::NotFound(Entity::Customer, id)),
        }
    }

    /// Deletes customer `id`; the contracts that name it stay.
    pub fn delete_customer(&mut self, id: u32) -> (r: Result<(), Error>)
        requires
            old(self)@.wf(),
        ensures
            final(self)@.wf(),
            r is Ok <==> old(self)@.customers.contains(id),
            r is Err ==> r == Err::<(), Error>(Error::NotFound(Entity::Customer, id)),
            final(self)@ == (if r is Ok {
                old(self)@.with_customers(old(self)@.customers.removed(id))
            } else {
                old(self)@
            }),
    {
        match self.customers.position(id) {
            Some(i) => {
                self.customers.remove(i);
                Ok(())
            },
            None => Err(Error::NotFound(Entity::Customer, id)),
        }
    }

    /// The contracts of customer `customer_id`, in order of creation.
    pub fn fetch_customer_contracts(&self, customer_id: u32) -> (r: Vec<Contract>)
        ensures
            r@ == self@.contracts.rows.filter(of_customer(customer_id)),
    {
        let rows = self.contracts.rows();
        let mut out: Vec<Contract> = Vec::new();
        let mut i: usize = 0;
        while i < rows.len()
            invariant
                i <= rows@.len(),
                out@ == rows@.subrange(0, i as int).filter(of_customer(customer_id)),
            decreases rows@.len() - i,
        {
            let c = rows[i];
            if c.customer_id == customer_id {
                out.push(c);
            }
            proof {
                assert(rows@.subrange(0, i + 1).drop_last() =~= rows@.subrange(0, i as int));
                reveal(Seq::filter);
            }
            i = i + 1;
        }
        proof {
            assert(rows@.subrange(0, rows@.len() as int) =~= rows@);
        }
        out
    }

    /// The unpaid invoices under contracts of customer `customer_id`, in order
    /// of creation.
    pub fn fetch_unpaid_invoices(&self, customer_id: u32) -> (r: Vec<Invoice>)
        requires
            self@.wf(),
        ensures
            r@ == self@.invoices.rows.filter(
                unpaid_of_customer(self@.contracts.rows, customer_id),
            ),
    {
        let rows = self.invoices.rows();
        let mut out: Vec<Invoice> = Vec::new();
        let mut i: usize = 0;
        while i < rows.len()
            invariant
                self@.wf(),
                rows@ == self@.invoices.rows,
                i <= rows@.len(),
                out@ == rows@.subrange(0, i as int).filter(
                    unpaid_of_customer(self@.contracts.rows, customer_id),
                ),
            decreases rows@.len() - i,
        {
            let inv = rows[i];
            if inv.status == InvoiceStatus::Unpaid {
                match self.contracts.get(inv.contract_id) {
                    Some(c) => {
                        if c.customer_id == customer_id {
                            out.push(inv);
                        }
                    },
                    None => {},
                }
            }
            proof {
                assert(rows@.subrange(0, i + 1).drop_last() =~= rows@.subrange(0, i as int));
                reveal(Seq::filter);
            }
            i = i + 1;
        }
        proof {
            assert(rows@.subrange(0, rows@.len() as int) =~= rows@);
        }
        out
    }
}

} // verus!
