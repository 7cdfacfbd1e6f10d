use vstd::prelude::*;

use crate::table::Record;
use crate::time::Timestamp;

verus! {

/// One customer's agreement to one subscription over a period.
#[derive(Clone, Copy, Debug, PartialEq, Eq, Structural)]
pub struct Contract {
    pub id: u32,
    pub customer_id: u32,
    pub subscription_id: u32,
    pub start_date: Timestamp,
    pub end_date: Timestamp,
}

#[derive(Clone, Copy, Debug, PartialEq, Eq, Structural)]
pub struct CreateContractRequest {
    pub customer_id: u32,
    pub subscription_id: u32,
    pub start_date: Timestamp,
    pub end_date: Timestamp,
}

#[derive(Clone, Copy, Debug, PartialEq, Eq, Structural)]
pub struct UpdateContractRequest {
    pub start_date: Timestamp,
    pub end_date: Timestamp,
}

#[derive(Clone, Copy, Debug, PartialEq, Eq, Structural)]
pub struct ContractResponse {
    pub id: u32,
    pub customer_id: u32,
    pub subscription_id: u32,
    pub start_date: Timestamp,
    pub end_date: Timestamp,
}

impl Record for Contract {
    open spec fn key(&self) -> u32 {
        self.id
    }

    fn id(&self) -> (r: u32) {
        self.id
    }

    fn duplicate(&self) -> (r: Contract) {
        *self
    }
}

impl From<Contract> for ContractResponse {
    fn from(c: Contract) -> (r: ContractResponse) {
        ContractResponse {
            id: c.id,
            customer_id: c.customer_id,
            subscription_id: c.subscription_id,
            start_date: c.start_date,
            end_date: c.end_date,
        }
    }
}

impl vstd::std_specs::convert::FromSpecImpl<Contract> for ContractResponse {
    open spec fn obeys_from_spec() -> bool {
        true
    }

    open spec fn from_spec(c: Contract) -> ContractResponse {
        ContractResponse {
            id: c.id,
            customer_id: c.customer_id,
            subscription_id: c.subscription_id,
            start_date: c.start_date,
            end_date: c.end_date,
        }
    }
}

} // verus!
