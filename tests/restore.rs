use isp_billing::contract::Contract;
use isp_billing::customer::Customer;
use isp_billing::error::{Entity, Error, Rule};
use isp_billing::invoice::{Invoice, InvoiceStatus};
use isp_billing::payment::Payment;
use isp_billing::store::Store;
use isp_billing::subscription::{Subscription, SubscriptionType};
use isp_billing::time::Timestamp;

fn at(secs: i64) -> Timestamp {
    Timestamp::new(secs, 0)
}

fn customer(id: u32) -> Customer {
    Customer {
        id,
        name: "eva".to_string(),
        fullname: "Eva Marin".to_string(),
        address: "Str. Noua 7".to_string(),
        phone: "+14152370800".to_string(),
        cnp: "2800101123456".to_string(),
    }
}

fn invoice(id: u32, amount: u64, status: InvoiceStatus) -> Invoice {
    Invoice { id, contract_id: 2, issue_date: at(100), due_date: at(200), amount, status }
}

fn payment(id: u32, invoice_id: u32, amount: u64) -> Payment {
    Payment { id, invoice_id, payment_date: at(150), amount }
}

#[test]
fn restored_rows_keep_their_ids_and_ids_continue_after_them() {
    let mut store = Store::new();
    assert_eq!(store.restore_customer(customer(4)), Ok(()));
    assert_eq!(store.restore_customer(customer(9)), Ok(()));
    assert_eq!(store.fetch_customer(4), Ok(customer(4)));
    assert_eq!(store.fetch_customer(5), Err(Error::NotFound(Entity::Customer, 5)));
    assert_eq!(store.restore_customer(customer(9)), Err(Error::StoreFailure));
    assert_eq!(store.restore_customer(customer(6)), Err(Error::StoreFailure));
    assert_eq!(store.restore_customer(customer(u32::MAX)), Err(Error::StoreFailure));
    let next = store
        .create_customer(isp_billing::customer::CustomerRequest {
            name: "max".to_string(),
            fullname: "Max Pop".to_string(),
            address: "Str. Veche 2".to_string(),
            phone: "+14152370800".to_string(),
            cnp: "1800101123456".to_string(),
        })
        .unwrap();
    assert_eq!(next.id, 10);
}

#[test]
fn restored_subscription_and_contract_are_found() {
    let mut store = Store::new();
    let s = Subscription {
        id: 3,
        description: "Fixed line".to_string(),
        subscription_type: SubscriptionType::Fixed,
        traffic: 0,
        price: 500,
        extra_traffic_price: 0,
    };
    assert_eq!(store.restore_subscription(s.clone()), Ok(()));
    assert_eq!(store.fetch_subscription(3), Ok(s));
    let c = Contract { id: 2, customer_id: 1, subscription_id: 3, start_date: at(0), end_date: at(10) };
    assert_eq!(store.restore_contract(c), Ok(()));
    assert_eq!(store.fetch_contract(2), Ok(c));
}

#[test]
fn invoice_status_follows_restored_payments() {
    let mut store = Store::new();
    assert_eq!(store.restore_invoice(invoice(5, 100, InvoiceStatus::Paid)), Ok(()));
    assert_eq!(store.fetch_invoice(5).unwrap().status, InvoiceStatus::Unpaid);
    assert_eq!(store.restore_payment(payment(1, 5, 70)), Ok(()));
    assert_eq!(store.fetch_invoice(5).unwrap().status, InvoiceStatus::Unpaid);
    assert_eq!(store.restore_payment(payment(2, 5, 30)), Ok(()));
    assert_eq!(store.fetch_invoice(5).unwrap().status, InvoiceStatus::Paid);
    assert_eq!(store.fetch_invoice_payments(5).len(), 2);
}

#[test]
fn restored_payment_is_held_to_the_invoice() {
    let mut store = Store::new();
    store.restore_invoice(invoice(1, 50, InvoiceStatus::Unpaid)).unwrap();
    assert_eq!(
        store.restore_payment(payment(1, 2, 10)),
        Err(Error::ReferenceNotFound(Entity::Invoice, 2))
    );
    assert_eq!(
        store.restore_payment(payment(1, 1, 51)),
        Err(Error::BusinessRuleViolation(Rule::Overpayment))
    );
    assert_eq!(store.restore_payment(payment(3, 1, 20)), Ok(()));
    assert_eq!(store.restore_payment(payment(2, 1, 20)), Err(Error::StoreFailure));
    assert_eq!(store.remaining_balance(1), Ok(30));
}
