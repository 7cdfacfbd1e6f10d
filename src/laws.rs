use vstd::prelude::*;

use crate::contract::CreateContractRequest;
use crate::customer::{Customer, CustomerRequest};
use crate::error::{Error, Rule};
use crate::invoice::{CreateInvoiceRequest, Invoice, InvoiceStatus};
use crate::payment::{CreatePaymentRequest, Payment};
use crate::rules::payment_date_rule;
use crate::store::contracts::create_contract_result;
use crate::store::customers::create_customer_result;
use crate::store::invoices::create_invoice_result;
use crate::store::payments::{after_payment, create_payment_result};
use crate::store::subscriptions::create_subscription_result;
use crate::store::{paid_total, StoreView};
use crate::subscription::{Subscription, SubscriptionRequest};
use crate::table::{lemma_find_inserted, lemma_find_replaced};
use crate::time::Timestamp;

verus! {

/// A contract request succeeds exactly when its customer and its subscription
/// exist, it does not start after it ends, and neither date lies before now
/// (while contract ids remain).
pub proof fn lemma_contract_created_iff(s: StoreView, req: CreateContractRequest, now: Timestamp)
    requires
        s.wf(),
        s.contracts.next_id < u32::MAX,
    ensures
        create_contract_result(s, req, now) is Ok <==> {
            &&& s.customers.contains(req.customer_id)
            &&& s.subscriptions.contains(req.subscription_id)
            &&& req.start_date.spec_not_after(req.end_date)
            &&& now.spec_not_after(req.start_date)
            &&& now.spec_not_after(req.end_date)
        },
{
}

/// An invoice request succeeds exactly when its contract exists, it is not due
/// before it is issued, and its period lies within the contract's (while
/// invoice ids remain).
pub proof fn lemma_invoice_created_iff(s: StoreView, req: CreateInvoiceRequest)
    requires
        s.wf(),
        s.invoices.next_id < u32::MAX,
    ensures
        create_invoice_result(s, req) is Ok <==> match s.contracts.get(req.contract_id) {
            Some(c) => {
                &&& req.issue_date.spec_not_after(req.due_date)
                &&& c.start_date.spec_not_after(req.issue_date)
                &&& req.due_date.spec_not_after(c.end_date)
            },
            None => false,
        },
{
}

/// A payment dated no earlier than now succeeds exactly when its invoice
/// exists, the payment is not dated before the invoice's issue, the invoice is
/// unpaid, and the payments with this one do not exceed the invoice's amount
/// (while payment ids remain).
pub proof fn lemma_payment_created_iff(s: StoreView, req: CreatePaymentRequest, now: Timestamp)
    requires
        s.wf(),
        s.payments.next_id < u32::MAX,
        now.spec_not_after(req.payment_date),
    ensures
        create_payment_result(s, req, now) is Ok <==> match s.invoices.get(req.invoice_id) {
            Some(inv) => {
                &&& inv.issue_date.spec_not_after(req.payment_date)
                &&& inv.status == InvoiceStatus::Unpaid
                &&& paid_total(s.payments.rows, req.invoice_id) + req.amount <= inv.amount
            },
            None => false,
        },
{
}

/// A created customer is found under its new id with the submitted fields.
pub proof fn lemma_customer_round_trip(s: StoreView, req: CustomerRequest)
    requires
        s.wf(),
        create_customer_result(s, req) is Ok,
    ensures
        ({
            let c = create_customer_result(s, req)->Ok_0;
            &&& s.customers.inserted(c).get(c.id) == Some(c)
            &&& c == Customer::spec_from_request(c.id, req)
        }),
{
    let c = create_customer_result(s, req)->Ok_0;
    lemma_find_inserted(s.customers, c, c.id);
}

/// A created subscription is found under its new id with the submitted fields.
pub proof fn lemma_subscription_round_trip(s: StoreView, req: SubscriptionRequest)
    requires
        s.wf(),
        create_subscription_result(s, req) is Ok,
    ensures
        ({
            let x = create_subscription_result(s, req)->Ok_0;
            &&& s.subscriptions.inserted(x).get(x.id) == Some(x)
            &&& x == Subscription::spec_from_request(x.id, req)
        }),
{
    let x = create_subscription_result(s, req)->Ok_0;
    lemma_find_inserted(s.subscriptions, x, x.id);
}

/// A created contract is found under its new id with the submitted fields.
pub proof fn lemma_contract_round_trip(s: StoreView, req: CreateContractRequest, now: Timestamp)
    requires
        s.wf(),
        create_contract_result(s, req, now) is Ok,
    ensures
        ({
            let c = create_contract_result(s, req, now)->Ok_0;
            &&& s.contracts.inserted(c).get(c.id) == Some(c)
            &&& c.customer_id == req.customer_id
            &&& c.subscription_id == req.subscription_id
            &&& c.start_date == req.start_date
            &&& c.end_date == req.end_date
        }),
{
    let c = create_contract_result(s, req, now)->Ok_0;
    lemma_find_inserted(s.contracts, c, c.id);
}

/// A created invoice is found under its new id with the submitted fields, unpaid.
pub proof fn lemma_invoice_round_trip(s: StoreView, req: CreateInvoiceRequest)
    requires
        s.wf(),
        create_invoice_result(s, req) is Ok,
    ensures
        ({
            let x = create_invoice_result(s, req)->Ok_0;
            &&& s.invoices.inserted(x).get(x.id) == Some(x)
            &&& x.contract_id == req.contract_id
            &&& x.issue_date == req.issue_date
            &&& x.due_date == req.due_date
            &&& x.amount == req.amount
            &&& x.status == InvoiceStatus::Unpaid
        }),
{
    let x = create_invoice_result(s, req)->Ok_0;
    lemma_find_inserted(s.invoices, x, x.id);
}

/// A recorded payment is found under its new id with the submitted fields.
pub proof fn lemma_payment_round_trip(s: StoreView, req: CreatePaymentRequest, now: Timestamp)
    requires
        s.wf(),
        create_payment_result(s, req, now) is Ok,
    ensures
        ({
            let p = create_payment_result(s, req, now)->Ok_0;
            &&& after_payment(s, p).payments.get(p.id) == Some(p)
            &&& p.invoice_id == req.invoice_id
            &&& p.payment_date == req.payment_date
            &&& p.amount == req.amount
        }),
{
    let p = create_payment_result(s, req, now)->Ok_0;
    lemma_find_inserted(s.payments, p, p.id);
}

/// A payment of exactly what remains of an unpaid invoice succeeds and turns
/// the invoice paid; a payment of one unit more is refused as an overpayment.
pub proof fn lemma_exact_balance_settles(
    s: StoreView,
    req: CreatePaymentRequest,
    now: Timestamp,
    inv: Invoice,
)
    requires
        s.wf(),
        s.payments.next_id < u32::MAX,
        s.invoices.get(req.invoice_id) == Some(inv),
        inv.status == InvoiceStatus::Unpaid,
        payment_date_rule(req.payment_date, inv, now) is None,
        req.amount + paid_total(s.payments.rows, req.invoice_id) == inv.amount,
    ensures
        create_payment_result(s, req, now) is Ok,
        after_payment(s, create_payment_result(s, req, now)->Ok_0).invoices.get(req.invoice_id)
            == Some(Invoice { status: InvoiceStatus::Paid, ..inv }),
        req.amount < u64::MAX ==> create_payment_result(
            s,
            CreatePaymentRequest { amount: (req.amount + 1) as u64, ..req },
            now,
        ) == Err::<Payment, Error>(Error::BusinessRuleViolation(Rule::Overpayment)),
{
    let p = create_payment_result(s, req, now)->Ok_0;
    assert(inv.id == req.invoice_id);
    lemma_find_replaced(
        s.invoices,
        req.invoice_id,
        Invoice { status: InvoiceStatus::Paid, ..inv },
        req.invoice_id,
    );
}

} // verus!
