use vstd::prelude::*;

use super::{found, Store, StoreView};
use crate::error::{Entity, Error};
use crate::subscription::{
    subscription_request_issue, validate_subscription_request, Subscription, SubscriptionRequest,
};
use crate::table::Record;

verus! {

/// The outcome of creating a subscription from `req`.
pub open spec fn create_subscription_result(s: StoreView, req: SubscriptionRequest) -> Result<
    Subscription,
    Error,
> {
    match subscription_request_issue(req) {
        Some((f, i)) => Err(Error::FieldValidation(f, i)),
        None => if s.subscriptions.next_id == u32::MAX {
            Err(Error::StoreFailure)
        } else {
            Ok(Subscription::spec_from_request(s.subscriptions.next_id, req))
        },
    }
}

/// The outcome of giving subscription `id` the fields of `req`.
pub open spec fn update_subscription_result(
    s: StoreView,
    id: u32,
    req: SubscriptionRequest,
) -> Result<Subscription, Error> {
    match subscription_request_issue(req) {
        Some((f, i)) => Err(Error::FieldValidation(f, i)),
        None => if !s.subscriptions.contains(id) {
            Err(Error::NotFound(Entity::Subscription, id))
        } else {
            Ok(Subscription::spec_from_request(id, req))
        },
    }
}

impl Store {
    /// All subscriptions, in order of creation.
    pub fn fetch_subscriptions(&self) -> (r: Vec<Subscription>)
        ensures
            r@ == self@.subscriptions.rows,
    {
        self.subscriptions.list()
    }

    /// The subscription with id `id`.
    pub fn fetch_subscription(&self, id: u32) -> (r: Result<Subscription, Error>)
        requires
            self@.wf(),
        ensures
            r == found(self@.subscriptions.get(id), Entity::Subscription, id),
    {
        match self.subscriptions.get(id) {
            Some(s) => Ok(s),
            None => Err(Error::NotFound(Entity::Subscription, id)),
        }
    }

    /// Checks `req` and stores it as a new subscription under the next id.
    pub fn create_subscription(&mut self, req: SubscriptionRequest) -> (r: Result<
        Subscription,
        Error,
    >)
        requires
            old(self)@.wf(),
        ensures
            final(self)@.wf(),
            r == create_subscription_result(old(self)@, req),
            final(self)@ == (match r {
                Ok(x) => old(self)@.with_subscriptions(old(self)@.subscriptions.inserted(x)),
                Err(_) => old(self)@,
            }),
    {
        validate_subscription_request(&req)?;
        let id = self.subscriptions.next_id();
        if id == u32::MAX {
            return Err(Error::StoreFailure);
        }
        let x = Subscription::from_request(id, req);
        self.subscriptions.insert(x.duplicate());
        Ok(x)
    }

    /// Checks `req` and gives subscription `id` its fields.
    pub fn update_subscription(&mut self, id: u32, req: SubscriptionRequest) -> (r: Result<
        Subscription,
        Error,
    >)
        requires
            old(self)@.wf(),
        ensures
            final(self)@.wf(),
            r == update_subscription_result(old(self)@, id, req),
            final(self)@ == (match r {
                Ok(x) => old(self)@.with_subscriptions(old(self)@.subscriptions.replaced(id, x)),
                Err(_) => old(self)@,
            }),
    {
        validate_subscription_request(&req)?;
        match self.subscriptions.position(id) {
            Some(i) => {
                let x = Subscription::from_request(id, req);
                self.subscriptions.replace(i, x.duplicate());
                Ok(x)
            },
            None => Err(Error::NotFound(Entity::Subscription, id)),
        }
    }

    /// Deletes subscription `id`; the contracts that name it stay.
    pub fn delete_subscription(&mut self, id: u32) -> (r: Result<(), Error>)
        requires
            old(self)@.wf(),
        ensures
            final(self)@.wf(),
            r is Ok <==> old(self)@.subscriptions.contains(id),
            r is Err ==> r == Err::<(), Error>(Error::NotFound(Entity::Subscription, id)),
            final(self)@ == (if r is Ok {
                old(self)@.with_subscriptions(old(self)@.subscriptions.removed(id))
            } else {
                old(self)@
            }),
    {
        match self.subscriptions.position(id) {
            Some(i) => {
                self.subscriptions.remove(i);
                Ok(())
            },
            None => Err(Error::NotFound(Entity::Subscription, id)),
        }
    }
}

} // verus!
