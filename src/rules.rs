use vstd::prelude::*;

use crate::contract::{Contract, CreateContractRequest, UpdateContractRequest};
use crate::error::{Error, Rule};
use crate::invoice::{CreateInvoiceRequest, Invoice, InvoiceStatus};
use crate::time::Timestamp;

verus! {

/// The first rule that a contract period breaks: it must not end before it
/// starts, and neither end may lie before `now`.
pub open spec fn contract_dates_rule(start: Timestamp, end: Timestamp, now: Timestamp) -> Option<
    Rule,
> {
    if end.spec_before(start) {
        Some(Rule::ContractDateOrder)
    } else if start.spec_before(now) || end.spec_before(now) {
        Some(Rule::ContractDateInPast)
    } else {
        None
    }
}

/// The first rule that an invoice period breaks against its contract: it must
/// not be due before it is issued, and it must lie within the contract's period.
pub open spec fn invoice_dates_rule(issue: Timestamp, due: Timestamp, contract: Contract) -> Option<
    Rule,
> {
    if due.spec_before(issue) {
        Some(Rule::InvoiceDateOrder)
    } else if issue.spec_before(contract.start_date) || contract.end_date.spec_before(due) {
        Some(Rule::InvoiceOutsideContract)
    } else {
        None
    }
}

/// The first rule that a payment date breaks: it must not precede the
/// invoice's issue date, nor `now`.
pub open spec fn payment_date_rule(date: Timestamp, invoice: Invoice, now: Timestamp) -> Option<
    Rule,
> {
    if date.spec_before(invoice.issue_date) {
        Some(Rule::PaymentBeforeInvoiceIssue)
    } else if date.spec_before(now) {
        Some(Rule::PaymentDateInPast)
    } else {
        None
    }
}

/// The first rule that a payment of `amount` breaks against an invoice of which
/// `paid` has been paid: the total must not exceed the invoice's amount, and
/// a paid invoice takes no payment.
pub open spec fn payment_amount_rule(invoice: Invoice, paid: int, amount: int) -> Option<Rule> {
    if paid + amount > invoice.amount {
        Some(Rule::Overpayment)
    } else if invoice.status == InvoiceStatus::Paid {
        Some(Rule::InvoiceAlreadyPaid)
    } else {
        None
    }
}

pub open spec fn rule_result(rule: Option<Rule>) -> Result<(), Error> {
    match rule {
        Some(r) => Err(Error::BusinessRuleViolation(r)),
        None => Ok(()),
    }
}

pub fn check_contract_dates(start: Timestamp, end: Timestamp, now: Timestamp) -> (r: Option<Rule>)
    ensures
        r == contract_dates_rule(start, end, now),
{
    if end.is_before(&start) {
        Some(Rule::ContractDateOrder)
    } else if start.is_before(&now) || end.is_before(&now) {
        Some(Rule::ContractDateInPast)
    } else {
        None
    }
}

pub fn check_invoice_dates(issue: Timestamp, due: Timestamp, contract: &Contract) -> (r: Option<Rule>)
    ensures
        r == invoice_dates_rule(issue, due, *contract),
{
    if due.is_before(&issue) {
        Some(Rule::InvoiceDateOrder)
    } else if issue.is_before(&contract.start_date) || contract.end_date.is_before(&due) {
        Some(Rule::InvoiceOutsideContract)
    } else {
        None
    }
}

pub fn check_payment_date(date: Timestamp, invoice: &Invoice, now: Timestamp) -> (r: Option<Rule>)
    ensures
        r == payment_date_rule(date, *invoice, now),
{
    if date.is_before(&invoice.issue_date) {
        Some(Rule::PaymentBeforeInvoiceIssue)
    } else if date.is_before(&now) {
        Some(Rule::PaymentDateInPast)
    } else {
        None
    }
}

pub fn check_payment_amount(invoice: &Invoice, paid: u64, amount: u64) -> (r: Option<Rule>)
    ensures
        r == payment_amount_rule(*invoice, paid as int, amount as int),
{
    if paid > invoice.amount || amount > invoice.amount - paid {
        Some(Rule::Overpayment)
    } else if invoice.status == InvoiceStatus::Paid {
        Some(Rule::InvoiceAlreadyPaid)
    } else {
        None
    }
}

/// Checks a new contract's period against the clock.
pub fn validate_create_contract_request(req: &CreateContractRequest) -> (r: Result<(), Error>)
    ensures
        exists|now: Timestamp| r == rule_result(contract_dates_rule(req.start_date, req.end_date, now)),
{
    let now = Timestamp::now();
    rule_error(check_contract_dates(req.start_date, req.end_date, now))
}

/// Checks a contract's new period against the clock.
pub fn validate_update_contract_request(req: &UpdateContractRequest) -> (r: Result<(), Error>)
    ensures
        exists|now: Timestamp| r == rule_result(contract_dates_rule(req.start_date, req.end_date, now)),
{
    let now = Timestamp::now();
    rule_error(check_contract_dates(req.start_date, req.end_date, now))
}

/// Checks that an invoice is not due before it is issued.
pub fn validate_create_invoice_request(req: &CreateInvoiceRequest) -> (r: Result<(), Error>)
    ensures
        r is Err <==> req.due_date.spec_before(req.issue_date),
        r is Err ==> r == Err::<(), Error>(Error::BusinessRuleViolation(Rule::InvoiceDateOrder)),
{
    if req.due_date.is_before(&req.issue_date) {
        Err(Error::BusinessRuleViolation(Rule::InvoiceDateOrder))
    } else {
        Ok(())
    }
}

/// Checks that a payment date does not lie before the clock's reading.
pub fn validate_payment_date(date: &Timestamp) -> (r: Result<(), Error>)
    ensures
        exists|now: Timestamp| r == (if date.spec_before(now) {
            Err(Error::BusinessRuleViolation(Rule::PaymentDateInPast))
        } else {
            Ok(())
        }),
{
    let now = Timestamp::now();
    if date.is_before(&now) {
        Err(Error::BusinessRuleViolation(Rule::PaymentDateInPast))
    } else {
        Ok(())
    }
}

pub fn rule_error(rule: Option<Rule>) -> (r: Result<(), Error>)
    ensures
        r == rule_result(rule),
{
    match rule {
        Some(x) => Err(Error::BusinessRuleViolation(x)),
        None => Ok(()),
    }
}

} // verus!
