use isp_billing::contract::{CreateContractRequest, UpdateContractRequest};
use isp_billing::customer::CustomerRequest;
use isp_billing::error::{Entity, Error, Rule};
use isp_billing::rules::{validate_create_contract_request, validate_update_contract_request};
use isp_billing::store::Store;
use isp_billing::subscription::{SubscriptionRequest, SubscriptionType};
use isp_billing::time::Timestamp;

const DEC_01_2024: i64 = 1733011200;
const JAN_01_2025: i64 = 1735689600;
const JUN_01_2025: i64 = 1748736000;

fn at(secs: i64) -> Timestamp {
    Timestamp::new(secs, 0)
}

fn customer_request() -> CustomerRequest {
    CustomerRequest {
        name: "ana".to_string(),
        fullname: "Ana Popescu".to_string(),
        address: "Str. Lunga 1".to_string(),
        phone: "+14152370800".to_string(),
        cnp: "2950101123456".to_string(),
    }
}

fn subscription_request() -> SubscriptionRequest {
    SubscriptionRequest {
        description: "Home fibre".to_string(),
        subscription_type: SubscriptionType::FixedInternet,
        traffic: 100,
        price: 3999,
        extra_traffic_price: 150,
    }
}

/// A store with customer 1 and subscription 1.
fn seeded() -> Store {
    let mut store = Store::new();
    assert_eq!(store.create_customer(customer_request()).unwrap().id, 1);
    assert_eq!(store.create_subscription(subscription_request()).unwrap().id, 1);
    store
}

fn contract_request(customer_id: u32, subscription_id: u32) -> CreateContractRequest {
    CreateContractRequest {
        customer_id,
        subscription_id,
        start_date: at(JAN_01_2025),
        end_date: at(JUN_01_2025),
    }
}

#[test]
fn missing_subscription_is_reported_with_its_id() {
    let mut store = seeded();
    let r = store.create_contract(contract_request(1, 99), at(DEC_01_2024));
    assert_eq!(r, Err(Error::ReferenceNotFound(Entity::Subscription, 99)));
    assert_eq!(r.unwrap_err().status_code(), 404);
    assert!(store.fetch_contracts().is_empty());
}

#[test]
fn customer_is_checked_before_subscription() {
    let mut store = seeded();
    let r = store.create_contract(contract_request(7, 99), at(DEC_01_2024));
    assert_eq!(r, Err(Error::ReferenceNotFound(Entity::Customer, 7)));
}

#[test]
fn contract_that_ends_before_it_starts_is_refused() {
    let mut store = seeded();
    let req = CreateContractRequest {
        customer_id: 1,
        subscription_id: 1,
        start_date: at(JUN_01_2025),
        end_date: at(JAN_01_2025),
    };
    let r = store.create_contract(req, at(DEC_01_2024));
    assert_eq!(r, Err(Error::BusinessRuleViolation(Rule::ContractDateOrder)));
    assert_eq!(r.unwrap_err().status_code(), 400);
}

#[test]
fn contract_starting_before_now_is_refused() {
    let mut store = seeded();
    let r = store.create_contract(contract_request(1, 1), at(JAN_01_2025 + 1));
    assert_eq!(r, Err(Error::BusinessRuleViolation(Rule::ContractDateInPast)));
}

#[test]
fn contract_starting_exactly_now_is_accepted() {
    let mut store = seeded();
    let r = store.create_contract(contract_request(1, 1), at(JAN_01_2025));
    assert!(r.is_ok());
}

#[test]
fn created_contract_is_fetched_back_unchanged() {
    let mut store = seeded();
    let created = store.create_contract(contract_request(1, 1), at(DEC_01_2024)).unwrap();
    assert_eq!(created.id, 1);
    assert_eq!(created.customer_id, 1);
    assert_eq!(created.subscription_id, 1);
    assert_eq!(created.start_date, at(JAN_01_2025));
    assert_eq!(created.end_date, at(JUN_01_2025));
    assert_eq!(store.fetch_contract(created.id), Ok(created));
}

#[test]
fn repeated_fetch_returns_the_same_contract() {
    let mut store = seeded();
    let created = store.create_contract(contract_request(1, 1), at(DEC_01_2024)).unwrap();
    let first = store.fetch_contract(created.id);
    let second = store.fetch_contract(created.id);
    assert_eq!(first, second);
    assert_eq!(store.fetch_contracts(), store.fetch_contracts());
}

#[test]
fn contract_ids_grow_and_are_not_reused() {
    let mut store = seeded();
    let a = store.create_contract(contract_request(1, 1), at(DEC_01_2024)).unwrap();
    assert_eq!(store.delete_contract(a.id), Ok(()));
    let b = store.create_contract(contract_request(1, 1), at(DEC_01_2024)).unwrap();
    assert_eq!(b.id, a.id + 1);
    assert_eq!(store.fetch_contract(a.id), Err(Error::NotFound(Entity::Contract, a.id)));
}

#[test]
fn update_contract_changes_only_the_period() {
    let mut store = seeded();
    let c = store.create_contract(contract_request(1, 1), at(DEC_01_2024)).unwrap();
    let req = UpdateContractRequest { start_date: at(JAN_01_2025 + 10), end_date: at(JUN_01_2025 + 10) };
    let u = store.update_contract(c.id, req, at(DEC_01_2024)).unwrap();
    assert_eq!(u.id, c.id);
    assert_eq!(u.customer_id, 1);
    assert_eq!(u.start_date, at(JAN_01_2025 + 10));
    assert_eq!(u.end_date, at(JUN_01_2025 + 10));
    assert_eq!(store.fetch_contract(c.id), Ok(u));
}

#[test]
fn update_of_missing_contract_is_not_found() {
    let mut store = seeded();
    let req = UpdateContractRequest { start_date: at(JAN_01_2025), end_date: at(JUN_01_2025) };
    assert_eq!(
        store.update_contract(5, req, at(DEC_01_2024)),
        Err(Error::NotFound(Entity::Contract, 5))
    );
}

#[test]
fn delete_of_missing_contract_is_not_found() {
    let mut store = seeded();
    assert_eq!(store.delete_contract(3), Err(Error::NotFound(Entity::Contract, 3)));
}

#[test]
fn customer_contracts_lists_only_that_customer() {
    let mut store = seeded();
    let other = store.create_customer(customer_request()).unwrap();
    let a = store.create_contract(contract_request(1, 1), at(DEC_01_2024)).unwrap();
    let b = store.create_contract(contract_request(other.id, 1), at(DEC_01_2024)).unwrap();
    let c = store.create_contract(contract_request(1, 1), at(DEC_01_2024)).unwrap();
    assert_eq!(store.fetch_customer_contracts(1), vec![a, c]);
    assert_eq!(store.fetch_customer_contracts(other.id), vec![b]);
    assert!(store.fetch_customer_contracts(42).is_empty());
}

#[test]
fn clock_checks_accept_future_periods() {
    // 2030-01-01 to 2031-01-01 lies ahead of any clock that runs these tests.
    let req = CreateContractRequest {
        customer_id: 1,
        subscription_id: 1,
        start_date: at(1893456000),
        end_date: at(1924992000),
    };
    assert_eq!(validate_create_contract_request(&req), Ok(()));
    let upd = UpdateContractRequest { start_date: at(1893456000), end_date: at(1924992000) };
    assert_eq!(validate_update_contract_request(&upd), Ok(()));
}

#[test]
fn clock_checks_refuse_past_periods() {
    let req = CreateContractRequest {
        customer_id: 1,
        subscription_id: 1,
        start_date: at(JAN_01_2025),
        end_date: at(1924992000),
    };
    assert_eq!(
        validate_create_contract_request(&req),
        Err(Error::BusinessRuleViolation(Rule::ContractDateInPast))
    );
    let upd = UpdateContractRequest { start_date: at(1924992000), end_date: at(1893456000) };
    assert_eq!(
        validate_update_contract_request(&upd),
        Err(Error::BusinessRuleViolation(Rule::ContractDateOrder))
    );
}
