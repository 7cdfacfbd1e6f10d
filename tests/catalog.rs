use isp_billing::config::Config;
use isp_billing::contract::{Contract, ContractResponse};
use isp_billing::customer::{validate_customer_request, Customer, CustomerRequest, CustomerResponse};
use isp_billing::error::{Entity, Error, Field, FieldIssue, Rule};
use isp_billing::invoice::{Invoice, InvoiceResponse, InvoiceStatus};
use isp_billing::payment::{Payment, PaymentResponse};
use isp_billing::store::Store;
use isp_billing::subscription::{
    validate_subscription_request, Subscription, SubscriptionRequest, SubscriptionResponse,
    SubscriptionType,
};
use isp_billing::time::Timestamp;

fn customer_request() -> CustomerRequest {
    CustomerRequest {
        name: "ion".to_string(),
        fullname: "Ion Vasile".to_string(),
        address: "Str. Mica 3".to_string(),
        phone: "+14152370800".to_string(),
        cnp: "1900101123456".to_string(),
    }
}

fn subscription_request() -> SubscriptionRequest {
    SubscriptionRequest {
        description: "TV package".to_string(),
        subscription_type: SubscriptionType::Tv,
        traffic: 0,
        price: 2500,
        extra_traffic_price: 0,
    }
}

#[test]
fn valid_customer_request_passes() {
    assert_eq!(validate_customer_request(&customer_request()), Ok(()));
}

#[test]
fn customer_name_length_is_checked() {
    let short = CustomerRequest { name: "io".to_string(), ..customer_request() };
    assert_eq!(
        validate_customer_request(&short),
        Err(Error::FieldValidation(Field::Name, FieldIssue::Length))
    );
    let long = CustomerRequest { name: "a".repeat(21), ..customer_request() };
    assert_eq!(
        validate_customer_request(&long),
        Err(Error::FieldValidation(Field::Name, FieldIssue::Length))
    );
    let edge = CustomerRequest { name: "ă".repeat(20), ..customer_request() };
    assert_eq!(validate_customer_request(&edge), Ok(()));
}

#[test]
fn customer_fullname_and_address_lengths_are_checked() {
    let r = CustomerRequest { fullname: "x".repeat(51), ..customer_request() };
    assert_eq!(
        validate_customer_request(&r),
        Err(Error::FieldValidation(Field::Fullname, FieldIssue::Length))
    );
    let r = CustomerRequest { address: "ab".to_string(), ..customer_request() };
    assert_eq!(
        validate_customer_request(&r),
        Err(Error::FieldValidation(Field::Address, FieldIssue::Length))
    );
}

#[test]
fn customer_phone_is_checked() {
    let r = CustomerRequest { phone: "TEXT".to_string(), ..customer_request() };
    assert_eq!(
        validate_customer_request(&r),
        Err(Error::FieldValidation(Field::Phone, FieldIssue::Format))
    );
}

#[test]
fn customer_cnp_must_be_thirteen_digits() {
    for bad in ["123456789012", "12345678901234", "12345678901a3", ""] {
        let r = CustomerRequest { cnp: bad.to_string(), ..customer_request() };
        assert_eq!(
            validate_customer_request(&r),
            Err(Error::FieldValidation(Field::Cnp, FieldIssue::Format))
        );
    }
}

#[test]
fn customer_lifecycle() {
    let mut store = Store::new();
    let c = store.create_customer(customer_request()).unwrap();
    assert_eq!(c.id, 1);
    assert_eq!(c.name, "ion");
    assert_eq!(c.cnp, "1900101123456");
    assert_eq!(store.fetch_customer(1), Ok(c.clone()));
    assert_eq!(store.fetch_customer(1), store.fetch_customer(1));

    let renamed = CustomerRequest { name: "ioana".to_string(), ..customer_request() };
    let u = store.update_customer(1, renamed).unwrap();
    assert_eq!(u.name, "ioana");
    assert_eq!(u.id, 1);
    assert_eq!(store.fetch_customers(), vec![u]);

    assert_eq!(
        store.update_customer(2, customer_request()),
        Err(Error::NotFound(Entity::Customer, 2))
    );
    assert_eq!(store.delete_customer(1), Ok(()));
    assert_eq!(store.fetch_customer(1), Err(Error::NotFound(Entity::Customer, 1)));
    assert_eq!(store.delete_customer(1), Err(Error::NotFound(Entity::Customer, 1)));
}

#[test]
fn invalid_customer_is_not_stored() {
    let mut store = Store::new();
    let bad = CustomerRequest { cnp: "1".to_string(), ..customer_request() };
    assert_eq!(
        store.create_customer(bad),
        Err(Error::FieldValidation(Field::Cnp, FieldIssue::Format))
    );
    assert!(store.fetch_customers().is_empty());
    assert_eq!(store.create_customer(customer_request()).unwrap().id, 1);
}

#[test]
fn subscription_fields_are_checked() {
    assert_eq!(validate_subscription_request(&subscription_request()), Ok(()));
    let r = SubscriptionRequest { description: "TV".to_string(), ..subscription_request() };
    assert_eq!(
        validate_subscription_request(&r),
        Err(Error::FieldValidation(Field::Description, FieldIssue::Length))
    );
    let r = SubscriptionRequest { traffic: -1, ..subscription_request() };
    assert_eq!(
        validate_subscription_request(&r),
        Err(Error::FieldValidation(Field::Traffic, FieldIssue::Range))
    );
}

#[test]
fn subscription_lifecycle() {
    let mut store = Store::new();
    let s = store.create_subscription(subscription_request()).unwrap();
    assert_eq!(s.id, 1);
    assert_eq!(s.subscription_type, SubscriptionType::Tv);
    assert_eq!(s.price, 2500);
    assert_eq!(store.fetch_subscription(1), Ok(s));
    let u = store
        .update_subscription(1, SubscriptionRequest { price: 3000, ..subscription_request() })
        .unwrap();
    assert_eq!(u.price, 3000);
    assert_eq!(store.fetch_subscriptions(), vec![u]);
    assert_eq!(store.delete_subscription(1), Ok(()));
    assert_eq!(store.fetch_subscription(1), Err(Error::NotFound(Entity::Subscription, 1)));
    assert_eq!(
        store.update_subscription(1, subscription_request()),
        Err(Error::NotFound(Entity::Subscription, 1))
    );
    assert_eq!(store.delete_subscription(1), Err(Error::NotFound(Entity::Subscription, 1)));
}

#[test]
fn subscription_type_names() {
    assert_eq!(SubscriptionType::from("MOBILE".to_string()), SubscriptionType::Mobile);
    assert_eq!(SubscriptionType::from("FIXED".to_string()), SubscriptionType::Fixed);
    assert_eq!(SubscriptionType::from("TV".to_string()), SubscriptionType::Tv);
    assert_eq!(
        SubscriptionType::from("MOBILE_INTERNET".to_string()),
        SubscriptionType::MobileInternet
    );
    assert_eq!(
        SubscriptionType::from("FIXED_INTERNET".to_string()),
        SubscriptionType::FixedInternet
    );
    assert_eq!(SubscriptionType::from("SATELLITE".to_string()), SubscriptionType::Mobile);
    assert_eq!(SubscriptionType::FixedInternet.code(), "FIXED_INTERNET");
    assert_eq!(SubscriptionType::MobileInternet.label(), "MOBILE INTERNET");
    assert_eq!(SubscriptionType::Tv.label(), "TV");
}

#[test]
fn invoice_status_names() {
    assert_eq!(InvoiceStatus::from("PAID".to_string()), InvoiceStatus::Paid);
    assert_eq!(InvoiceStatus::from("UNPAID".to_string()), InvoiceStatus::Unpaid);
    assert_eq!(InvoiceStatus::from("paid".to_string()), InvoiceStatus::Unpaid);
    assert_eq!(InvoiceStatus::Paid.code(), "PAID");
    assert_eq!(InvoiceStatus::Unpaid.code(), "UNPAID");
}

#[test]
fn responses_carry_every_field() {
    let t = Timestamp::new(1735689600, 5);
    let c = Contract { id: 3, customer_id: 4, subscription_id: 5, start_date: t, end_date: t };
    let r = ContractResponse::from(c);
    assert_eq!((r.id, r.customer_id, r.subscription_id), (3, 4, 5));
    assert_eq!(r.start_date, t);

    let i = Invoice {
        id: 1,
        contract_id: 3,
        issue_date: t,
        due_date: t,
        amount: 99,
        status: InvoiceStatus::Paid,
    };
    let r = InvoiceResponse::from(i);
    assert_eq!((r.id, r.contract_id, r.amount, r.status), (1, 3, 99, InvoiceStatus::Paid));

    let p = Payment { id: 2, invoice_id: 1, payment_date: t, amount: 7 };
    let r = PaymentResponse::from(p);
    assert_eq!((r.id, r.invoice_id, r.amount), (2, 1, 7));

    let cu = Customer {
        id: 9,
        name: "ana".to_string(),
        fullname: "Ana B".to_string(),
        address: "addr".to_string(),
        phone: "+14152370800".to_string(),
        cnp: "1900101123456".to_string(),
    };
    let r = CustomerResponse::from(cu);
    assert_eq!(r.id, 9);
    assert_eq!(r.fullname, "Ana B");

    let s = Subscription {
        id: 4,
        description: "desc".to_string(),
        subscription_type: SubscriptionType::Fixed,
        traffic: 3,
        price: 10,
        extra_traffic_price: 2,
    };
    let r = SubscriptionResponse::from(s);
    assert_eq!((r.id, r.traffic, r.price, r.extra_traffic_price), (4, 3, 10, 2));
    assert_eq!(r.subscription_type, SubscriptionType::Fixed);
}

#[test]
fn status_codes_by_kind() {
    assert_eq!(Error::NotFound(Entity::Invoice, 1).status_code(), 404);
    assert_eq!(Error::ReferenceNotFound(Entity::Customer, 1).status_code(), 404);
    assert_eq!(Error::FieldValidation(Field::Cnp, FieldIssue::Format).status_code(), 400);
    assert_eq!(Error::BusinessRuleViolation(Rule::Overpayment).status_code(), 400);
    assert_eq!(Error::MalformedRequest.status_code(), 400);
    assert_eq!(Error::StoreFailure.status_code(), 500);
}

#[test]
fn timestamps_order_by_seconds_then_nanoseconds() {
    let a = Timestamp::new(10, 999);
    let b = Timestamp::new(11, 0);
    let c = Timestamp::new(11, 1);
    assert!(a.is_before(&b));
    assert!(b.is_before(&c));
    assert!(!c.is_before(&b));
    assert!(!b.is_before(&b));
    assert!(Timestamp::new(1735689600, 0).is_before(&Timestamp::now()));
}

#[test]
fn config_keeps_its_fields() {
    let c = Config::new("db:1521/XE".to_string(), "scott".to_string(), "tiger".to_string());
    assert_eq!(c.db_dsn, "db:1521/XE");
    assert_eq!(c.db_user, "scott");
    assert_eq!(c.db_pass, "tiger");
}
