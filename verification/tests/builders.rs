//! Construction-time validation: scalar checks, dates, parties, the line
//! accumulator, and the invoice builder.

use ubl_invoice::date::Date;
use ubl_invoice::error::{Field, ValidationError};
use ubl_invoice::invoice::{Amount, Invoice, InvoicePeriod};
use ubl_invoice::line::Lines;
use ubl_invoice::party::{new_customer, new_supplier};

fn d(y: u32, m: u32, day: u32) -> Date {
    Date::from_ymd(y, m, day).unwrap()
}

#[test]
fn date_accepts_ordinary_days() {
    let date = d(2011, 9, 22);
    assert_eq!(date.year(), 2011);
    assert_eq!(date.month(), 9);
    assert_eq!(date.day(), 22);
}

#[test]
fn date_leap_year_rules() {
    assert!(Date::from_ymd(2024, 2, 29).is_some());
    assert!(Date::from_ymd(2023, 2, 29).is_none());
    assert!(Date::from_ymd(1900, 2, 29).is_none());
    assert!(Date::from_ymd(2000, 2, 29).is_some());
}

#[test]
fn date_rejects_out_of_range() {
    assert!(Date::from_ymd(0, 1, 1).is_none());
    assert!(Date::from_ymd(10000, 1, 1).is_none());
    assert!(Date::from_ymd(2011, 13, 1).is_none());
    assert!(Date::from_ymd(2011, 4, 31).is_none());
    assert!(Date::from_ymd(2011, 1, 0).is_none());
}

#[test]
fn date_failures_report_their_schema_role() {
    assert_eq!(
        Date::validated(2011, 2, 29, Field::IssueDate).unwrap_err(),
        ValidationError::Scalar(Field::IssueDate)
    );
    assert_eq!(
        Date::validated(2011, 0, 1, Field::PeriodStart).unwrap_err(),
        ValidationError::Scalar(Field::PeriodStart)
    );
    assert_eq!(
        Date::validated(2011, 8, 32, Field::PeriodEnd).unwrap_err(),
        ValidationError::Scalar(Field::PeriodEnd)
    );
    let ok = Date::validated(2011, 9, 22, Field::IssueDate).unwrap();
    assert_eq!(ok.year(), 2011);
}

#[test]
fn supplier_keeps_name() {
    let s = new_supplier("CustomCotterPins").unwrap();
    assert_eq!(s.party().name().as_str(), "CustomCotterPins");
}

#[test]
fn empty_supplier_name_fails() {
    let r = new_supplier("");
    assert_eq!(r.unwrap_err(), ValidationError::Scalar(Field::SupplierName));
}

#[test]
fn empty_customer_name_fails() {
    let r = new_customer("");
    assert_eq!(r.unwrap_err(), ValidationError::Scalar(Field::CustomerName));
}

#[test]
fn name_with_quote_fails() {
    let r = new_supplier("a\"b");
    assert_eq!(r.unwrap_err(), ValidationError::Scalar(Field::SupplierName));
}

#[test]
fn line_identifiers_are_sequential() {
    let mut lines = Lines::new("CAD");
    lines.push("first", 100).unwrap();
    lines.push("second", 250).unwrap();
    lines.push("third", 3).unwrap();
    assert_eq!(lines.items.len(), 3);
    for (i, item) in lines.items.iter().enumerate() {
        assert_eq!(item.id(), i as u64 + 1);
    }
    assert_eq!(lines.total, 353);
}

#[test]
fn failed_push_changes_nothing() {
    let mut lines = Lines::new("CAD");
    lines.push("good line", 500).unwrap();
    let before_total = lines.total;
    let r = lines.push("bad\\line", 700);
    assert_eq!(r.unwrap_err(), ValidationError::Scalar(Field::ItemDescription));
    assert_eq!(lines.total, before_total);
    assert_eq!(lines.items.len(), 1);
    assert_eq!(lines.items[0].description().as_str(), "good line");
    assert_eq!(lines.items[0].amount(), 500);
}

#[test]
fn push_rejects_bad_currency() {
    let mut lines = Lines::new("cad");
    let r = lines.push("anything", 100);
    assert_eq!(r.unwrap_err(), ValidationError::Scalar(Field::Currency));
    assert_eq!(lines.total, 0);
    assert!(lines.items.is_empty());
}

#[test]
fn push_rejects_total_overflow() {
    let mut lines = Lines::new("CAD");
    lines.push("huge", u64::MAX).unwrap();
    let r = lines.push("one more cent", 1);
    assert_eq!(r.unwrap_err(), ValidationError::Aggregate(Field::PayableTotal));
    assert_eq!(lines.total, u64::MAX);
    assert_eq!(lines.items.len(), 1);
}

#[test]
fn amount_validates_currency() {
    let a = Amount::new(10000, "CAD").unwrap();
    assert_eq!(a.cents(), 10000);
    assert_eq!(a.currency().as_str(), "CAD");
    assert_eq!(
        Amount::new(1, "CA").unwrap_err(),
        ValidationError::Scalar(Field::Currency)
    );
    assert_eq!(
        Amount::new(1, "CADX").unwrap_err(),
        ValidationError::Scalar(Field::Currency)
    );
    assert_eq!(
        Amount::new(1, "cAD").unwrap_err(),
        ValidationError::Scalar(Field::Currency)
    );
}

#[test]
fn period_rejects_start_after_end() {
    let r = InvoicePeriod::new(d(2011, 9, 1), d(2011, 8, 31));
    assert_eq!(r.unwrap_err(), ValidationError::Aggregate(Field::InvoicePeriod));
    let p = InvoicePeriod::new(d(2011, 8, 1), d(2011, 8, 31)).unwrap();
    assert_eq!(p.start().day(), 1);
    assert_eq!(p.end().day(), 31);
}

#[test]
fn invoice_new_validates_id_first() {
    let r = Invoice::new("", d(2011, 9, 22), d(2011, 8, 1), d(2011, 8, 31));
    assert_eq!(r.unwrap_err(), ValidationError::Scalar(Field::InvoiceId));
}

#[test]
fn invoice_new_rejects_reversed_period() {
    let r = Invoice::new("123", d(2011, 9, 22), d(2011, 8, 31), d(2011, 8, 1));
    assert_eq!(r.unwrap_err(), ValidationError::Aggregate(Field::InvoicePeriod));
}

#[test]
fn invoice_new_starts_empty() {
    let inv = Invoice::new("123", d(2011, 9, 22), d(2011, 8, 1), d(2011, 8, 31)).unwrap();
    assert!(inv.accounting_supplier_party.is_none());
    assert!(inv.accounting_customer_party.is_none());
    assert!(inv.legal_monetary_total.is_none());
    assert!(inv.invoice_line.is_empty());
    assert_eq!(inv.id.as_str(), "123");
}

#[test]
fn error_field_accessor() {
    assert_eq!(ValidationError::Scalar(Field::InvoiceId).field(), Field::InvoiceId);
    assert_eq!(
        ValidationError::Aggregate(Field::InvoicePeriod).field(),
        Field::InvoicePeriod
    );
}
