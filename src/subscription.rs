use vstd::prelude::*;

use crate::checks::length_within;
use crate::error::{Error, Field, FieldIssue};
use crate::table::Record;

verus! {

#[derive(Clone, Copy, Debug, PartialEq, Eq, Structural)]
pub enum SubscriptionType {
    Mobile,
    Fixed,
    Tv,
    MobileInternet,
    FixedInternet,
}

/// The stored name of a subscription type.
pub open spec fn type_code(t: SubscriptionType) -> Seq<char> {
    match t {
        SubscriptionType::Mobile => "MOBILE"@,
        SubscriptionType::Fixed => "FIXED"@,
        SubscriptionType::Tv => "TV"@,
        SubscriptionType::MobileInternet => "MOBILE_INTERNET"@,
        SubscriptionType::FixedInternet => "FIXED_INTERNET"@,
    }
}

/// The subscription type stored under `s`; an unknown name reads as `Mobile`.
pub open spec fn type_of_code(s: Seq<char>) -> SubscriptionType {
    if s == "MOBILE"@ {
        SubscriptionType::Mobile
    } else if s == "FIXED"@ {
        SubscriptionType::Fixed
    } else if s == "TV"@ {
        SubscriptionType::Tv
    } else if s == "MOBILE_INTERNET"@ {
        SubscriptionType::MobileInternet
    } else if s == "FIXED_INTERNET"@ {
        SubscriptionType::FixedInternet
    } else {
        SubscriptionType::Mobile
    }
}

/// The name of a subscription type as it is shown to people.
pub open spec fn type_label(t: SubscriptionType) -> Seq<char> {
    match t {
        SubscriptionType::Mobile => "MOBILE"@,
        SubscriptionType::Fixed => "FIXED"@,
        SubscriptionType::Tv => "TV"@,
        SubscriptionType::MobileInternet => "MOBILE INTERNET"@,
        SubscriptionType::FixedInternet => "FIXED INTERNET"@,
    }
}

impl From<String> for SubscriptionType {
    fn from(s: String) -> (r: SubscriptionType) {
        if s == String::from_str("MOBILE") {
            SubscriptionType::Mobile
        } else if s == String::from_str("FIXED") {
            SubscriptionType::Fixed
        } else if s == String::from_str("TV") {
            SubscriptionType::Tv
        } else if s == String::from_str("MOBILE_INTERNET") {
            SubscriptionType::MobileInternet
        } else if s == String::from_str("FIXED_INTERNET") {
            SubscriptionType::FixedInternet
        } else {
            SubscriptionType::Mobile
        }
    }
}

impl vstd::std_specs::convert::FromSpecImpl<String> for SubscriptionType {
    open spec fn obeys_from_spec() -> bool {
        true
    }

    open spec fn from_spec(s: String) -> SubscriptionType {
        type_of_code(s@)
    }
}

impl SubscriptionType {
    /// The stored name of this type.
    pub fn code(&self) -> (r: String)
        ensures
            r@ == type_code(*self),
    {
        match self {
            SubscriptionType::Mobile => String::from_str("MOBILE"),
            SubscriptionType::Fixed => String::from_str("FIXED"),
            SubscriptionType::Tv => String::from_str("TV"),
            SubscriptionType::MobileInternet => String::from_str("MOBILE_INTERNET"),
            SubscriptionType::FixedInternet => String::from_str("FIXED_INTERNET"),
        }
    }

    /// The name of this type as it is shown to people.
    pub fn label(&self) -> (r: String)
        ensures
            r@ == type_label(*self),
    {
        match self {
            SubscriptionType::Mobile => String::from_str("MOBILE"),
            SubscriptionType::Fixed => String::from_str("FIXED"),
            SubscriptionType::Tv => String::from_str("TV"),
            SubscriptionType::MobileInternet => String::from_str("MOBILE INTERNET"),
            SubscriptionType::FixedInternet => String::from_str("FIXED INTERNET"),
        }
    }
}

/// Prices are in minor currency units.
#[derive(Clone, Debug, PartialEq, Eq)]
pub struct Subscription {
    pub id: u32,
    pub description: String,
    pub subscription_type: SubscriptionType,
    /// Included traffic, in Gb/s.
    pub traffic: i32,
    pub price: u64,
    pub extra_traffic_price: u64,
}

#[derive(Clone, Debug, PartialEq, Eq)]
pub struct SubscriptionRequest {
    pub description: String,
    pub subscription_type: SubscriptionType,
    pub traffic: i32,
    pub price: u64,
    pub extra_traffic_price: u64,
}

#[derive(Clone, Debug, PartialEq, Eq)]
pub struct SubscriptionResponse {
    pub id: u32,
    pub description: String,
    pub subscription_type: SubscriptionType,
    pub traffic: i32,
    pub price: u64,
    pub extra_traffic_price: u64,
}

impl Record for Subscription {
    open spec fn key(&self) -> u32 {
        self.id
    }

    fn id(&self) -> (r: u32) {
        self.id
    }

    fn duplicate(&self) -> (r: Subscription) {
        Subscription {
            id: self.id,
            description: self.description.clone(),
            subscription_type: self.subscription_type,
            traffic: self.traffic,
            price: self.price,
            extra_traffic_price: self.extra_traffic_price,
        }
    }
}

impl Subscription {
    /// The subscription stored under `id` with the fields of `req`.
    pub open spec fn spec_from_request(id: u32, req: SubscriptionRequest) -> Subscription {
        Subscription {
            id,
            description: req.description,
            subscription_type: req.subscription_type,
            traffic: req.traffic,
            price: req.price,
            extra_traffic_price: req.extra_traffic_price,
        }
    }

    pub fn from_request(id: u32, req: SubscriptionRequest) -> (r: Subscription)
        ensures
            r == Subscription::spec_from_request(id, req),
    {
        Subscription {
            id,
            description: req.description,
            subscription_type: req.subscription_type,
            traffic: req.traffic,
            price: req.price,
            extra_traffic_price: req.extra_traffic_price,
        }
    }
}

impl From<Subscription> for SubscriptionResponse {
    fn from(s: Subscription) -> (r: SubscriptionResponse) {
        SubscriptionResponse {
            id: s.id,
            description: s.description,
            subscription_type: s.subscription_type,
            traffic: s.traffic,
            price: s.price,
            extra_traffic_price: s.extra_traffic_price,
        }
    }
}

impl vstd::std_specs::convert::FromSpecImpl<Subscription> for SubscriptionResponse {
    open spec fn obeys_from_spec() -> bool {
        true
    }

    open spec fn from_spec(s: Subscription) -> SubscriptionResponse {
        SubscriptionResponse {
            id: s.id,
            description: s.description,
            subscription_type: s.subscription_type,
            traffic: s.traffic,
            price: s.price,
            extra_traffic_price: s.extra_traffic_price,
        }
    }
}

/// The first constraint that a subscription request breaks: a description of
/// 3 to 100 characters, then a traffic that is not negative.
pub open spec fn subscription_request_issue(req: SubscriptionRequest) -> Option<(Field, FieldIssue)> {
    if !(3 <= req.description@.len() <= 100) {
        Some((Field::Description, FieldIssue::Length))
    } else if req.traffic < 0 {
        Some((Field::Traffic, FieldIssue::Range))
    } else {
        None
    }
}

/// Checks the fields of a subscription request.
pub fn validate_subscription_request(req: &SubscriptionRequest) -> (r: Result<(), Error>)
    ensures
        r == (match subscription_request_issue(*req) {
            Some((f, i)) => Err(Error::FieldValidation(f, i)),
            None => Ok(()),
        }),
{
    if !length_within(req.description.as_str(), 3, 100) {
        return Err(Error::FieldValidation(Field::Description, FieldIssue::Length));
    }
    if req.traffic < 0 {
        return Err(Error::FieldValidation(Field::Traffic, FieldIssue::Range));
    }
    Ok(())
}

} // verus!
