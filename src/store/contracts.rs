use vstd::prelude::*;

use super::{found, Store, StoreView};
use crate::contract::{Contract, CreateContractRequest, UpdateContractRequest};
use crate::error::{Entity, Error};
use crate::invoice::Invoice;
use crate::rules::{check_contract_dates, contract_dates_rule};
use crate::time::Timestamp;

verus! {

/// The outcome of creating a contract from `req` at time `now`: the customer,
/// then the subscription must exist; then the period must pass the contract
/// rules.
pub open spec fn create_contract_result(
    s: StoreView,
    req: CreateContractRequest,
    now: Timestamp,
) -> Result<Contract, Error> {
    if !s.customers.contains(req.customer_id) {
        Err(Error::ReferenceNotFound(Entity::Customer, req.customer_id))
    } else if !s.subscriptions.contains(req.subscription_id) {
        Err(Error::ReferenceNotFound(Entity::Subscription, req.subscription_id))
    } else {
        match contract_dates_rule(req.start_date, req.end_date, now) {
            Some(rule) => Err(Error::BusinessRuleViolation(rule)),
            None => if s.contracts.next_id == u32::MAX {
                Err(Error::StoreFailure)
            } else {
                Ok(
                    Contract {
                        id: s.contracts.next_id,
                        customer_id: req.customer_id,
                        subscription_id: req.subscription_id,
                        start_date: req.start_date,
                        end_date: req.end_date,
                    },
                )
            },
        }
    }
}

/// The outcome of giving contract `id` the period of `req` at time `now`.
pub open spec fn update_contract_result(
    s: StoreView,
    id: u32,
    req: UpdateContractRequest,
    now: Timestamp,
) -> Result<Contract, Error> {
    match contract_dates_rule(req.start_date, req.end_date, now) {
        Some(rule) => Err(Error::BusinessRuleViolation(rule)),
        None => match s.contracts.get(id) {
            Some(c) => Ok(Contract { start_date: req.start_date, end_date: req.end_date, ..c }),
            None => Err(Error::NotFound(Entity::Contract, id)),
        },
    }
}

/// Invoice `i` bills contract `contract_id`.
pub open spec fn of_contract(contract_id: u32) -> spec_fn(Invoice) -> bool {
    |i: Invoice| i.contract_id == contract_id
}

impl Store {
    /// All contracts, in order of creation.
    pub fn fetch_contracts(&self) -> (r: Vec<Contract>)
        ensures
            r@ == self@.contracts.rows,
    {
        self.contracts.list()
    }

    /// The contract with id `id`.
    pub fn fetch_contract(&self, id: u32) -> (r: Result<Contract, Error>)
        requires
            self@.wf(),
        ensures
            r == found(self@.contracts.get(id), Entity::Contract, id),
    {
        match self.contracts.get(id) {
            Some(c) => Ok(c),
            None => Err(Error::NotFound(Entity::Contract, id)),
        }
    }

    /// Creates a contract after checking its references and its period
    /// against `now`.
    pub fn create_contract(&mut self, req: CreateContractRequest, now: Timestamp) -> (r: Result<
        Contract,
        Error,
    >)
        requires
            old(self)@.wf(),
        ensures
            final(self)@.wf(),
            r == create_contract_result(old(self)@, req, now),
            final(self)@ == (match r {
                Ok(c) => old(self)@.with_contracts(old(self)@.contracts.inserted(c)),
                Err(_) => old(self)@,
            }),
    {
        if self.customers.position(req.customer_id).is_none() {
            return Err(Error::ReferenceNotFound(Entity::Customer, req.customer_id));
        }
        if self.subscriptions.position(req.subscription_id).is_none() {
            return Err(Error::ReferenceNotFound(Entity::Subscription, req.subscription_id));
        }
        if let Some(rule) = check_contract_dates(req.start_date, req.end_date, now) {
            return Err(Error::BusinessRuleViolation(rule));
        }
        let id = self.contracts.next_id();
        if id == u32::MAX {
            return Err(Error::StoreFailure);
        }
        let c = Contract {
            id,
            customer_id: req.customer_id,
            subscription_id: req.subscription_id,
            start_date: req.start_date,
            end_date: req.end_date,
        };
        self.contracts.insert(c);
        Ok(c)
    }

    /// Gives contract `id` a new period after checking it against `now`.
    pub fn update_contract(&mut self, id: u32, req: UpdateContractRequest, now: Timestamp) -> (r:
        Result<Contract, Error>)
        requires
            old(self)@.wf(),
        ensures
            final(self)@.wf(),
            r == update_contract_result(old(self)@, id, req, now),
            final(self)@ == (match r {
                Ok(c) => old(self)@.with_contracts(old(self)@.contracts.replaced(id, c)),
                Err(_) => old(self)@,
            }),
    {
        if let Some(rule) = check_contract_dates(req.start_date, req.end_date, now) {
            return Err(Error::BusinessRuleViolation(rule));
        }
        match self.contracts.position(id) {
            Some(i) => {
                let old_row = self.contracts.rows()[i];
                let c = Contract {
                    id,
                    customer_id: old_row.customer_id,
                    subscription_id: old_row.subscription_id,
                    start_date: req.start_date,
                    end_date: req.end_date,
                };
                self.contracts.replace(i, c);
                Ok(c)
            },
            None => Err(Error::NotFound(Entity::Contract, id)),
        }
    }

    /// Deletes contract `id`; the invoices that name it stay.
    pub fn delete_contract(&mut self, id: u32) -> (r: Result<(), Error>)
        requires
            old(self)@.wf(),
        ensures
            final(self)@.wf(),
            r is Ok <==> old(self)@.contracts.contains(id),
            r is Err ==> r == Err::<(), Error>(Error::NotFound(Entity::Contract, id)),
            final(self)@ == (if r is Ok {
                old(self)@.with_contracts(old(self)@.contracts.removed(id))
            } else {
                old(self)@
            }),
    {
        match self.contracts.position(id) {
            Some(i) => {
                self.contracts.remove(i);
                Ok(())
            },
            None => Err(Error::NotFound(Entity::Contract, id)),
        }
    }

    /// The invoices of contract `contract_id`, in order of creation.
    pub fn fetch_contract_invoices(&self, contract_id: u32) -> (r: Vec<Invoice>)
        ensures
            r@ == self@.invoices.rows.filter(of_contract(contract_id)),
    {
        let rows = self.invoices.rows();
        let mut out: Vec<Invoice> = Vec::new();
        let mut i: usize = 0;
        while i < rows.len()
            invariant
                i <= rows@.len(),
                out@ == rows@.subrange(0, i as int).filter(of_contract(contract_id)),
            decreases rows@.len() - i,
        {
            let x = rows[i];
            if x.contract_id == contract_id {
                out.push(x);
            }
            proof {
                assert(rows@.subrange(0, i + 1).drop_last() =~= rows@.subrange(0, i as int));
                reveal(Seq::filter);
            }
            i = i + 1;
        }
        proof {
            assert(rows@.subrange(0, rows@.len() as int) =~= rows@);
        }
        out
    }
}

} // verus!
