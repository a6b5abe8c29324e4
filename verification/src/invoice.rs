//! The invoice aggregate: identifier, issue date, billing period, and the
//! caller-populated parties, total, and line sequence, plus the envelope
//! that carries the finished document to the serializer.

use vstd::prelude::*;
use crate::date::{date_le, check_date_le, Date};
use crate::error::{Field, ValidationError};
use crate::line::InvoiceLine;
use crate::party::{CustomerParty, SupplierParty};
use crate::scalar::{check_currency, check_text, valid_currency, valid_text};

verus! {

/// A monetary amount: a count of cents paired with a validated currency
/// code.  Values are valid by construction.
#[derive(Debug)]
pub struct Amount {
    cents: u64,
    currency: String,
}

impl Amount {
    /// The currency code is always valid; maintained as a type invariant.
    #[verifier::type_invariant]
    pub closed spec fn wf(self) -> bool {
        valid_currency(self.currency@)
    }

    pub closed spec fn cents_spec(self) -> u64 {
        self.cents
    }

    pub closed spec fn currency_spec(self) -> Seq<char> {
        self.currency@
    }

    /// Validates the currency code and builds the amount.  The cent count
    /// itself needs no check: every `u64` is a representable amount.
    pub fn new(cents: u64, currency: &str) -> (r: Result<Amount, ValidationError>)
        ensures
            r is Ok <==> valid_currency(currency@),
            r matches Ok(a) ==> a.cents_spec() == cents && a.currency_spec() == currency@,
            r matches Err(e) ==> e == ValidationError::Scalar(Field::Currency),
    {
        if !check_currency(currency) {
            return Err(ValidationError::Scalar(Field::Currency));
        }
        Ok(Amount { cents, currency: String::from_str(currency) })
    }

    pub fn cents(&self) -> (r: u64)
        ensures
            r == self.cents_spec(),
    {
        self.cents
    }

    pub fn currency(&self) -> (r: &String)
        ensures
            r@ == self.currency_spec(),
    {
        &self.currency
    }
}

/// The billing period: two individually valid dates whose composition is
/// validated as a whole — the start may not fall after the end.
#[derive(Clone, Copy, Debug, PartialEq, Eq, Structural)]
pub struct InvoicePeriod {
    start: Date,
    end: Date,
}

impl InvoicePeriod {
    /// The aggregate constraint, maintained as a type invariant.
    #[verifier::type_invariant]
    pub closed spec fn wf(self) -> bool {
        date_le(self.start, self.end)
    }

    pub closed spec fn start_spec(self) -> Date {
        self.start
    }

    pub closed spec fn end_spec(self) -> Date {
        self.end
    }

    /// The aggregate validation pass over two already-valid dates: succeeds
    /// exactly when `start <= end` in calendar order.
    pub fn new(start: Date, end: Date) -> (r: Result<InvoicePeriod, ValidationError>)
        ensures
            r is Ok <==> date_le(start, end),
            r matches Ok(p) ==> p.start_spec() == start && p.end_spec() == end,
            r matches Err(e) ==> e == ValidationError::Aggregate(Field::InvoicePeriod),
    {
        if !check_date_le(&start, &end) {
            return Err(ValidationError::Aggregate(Field::InvoicePeriod));
        }
        Ok(InvoicePeriod { start, end })
    }

    pub fn start(&self) -> (r: Date)
        ensures
            r == self.start_spec(),
    {
        self.start
    }

    pub fn end(&self) -> (r: Date)
        ensures
            r == self.end_spec(),
    {
        self.end
    }
}

/// The aggregate root.  Identifier, issue date and period are validated by
/// `Invoice::new`; supplier, customer, total and lines are populated
/// afterwards by the caller through the public fields, exactly one role
/// each, and the document is then handed to the serializer.
#[derive(Debug)]
pub struct Invoice {
    pub id: String,
    pub issue_date: Date,
    pub period: InvoicePeriod,
    pub accounting_supplier_party: Option<SupplierParty>,
    pub accounting_customer_party: Option<CustomerParty>,
    pub legal_monetary_total: Option<Amount>,
    pub invoice_line: Vec<InvoiceLine>,
}

impl Invoice {
    /// Validity of the part `new` is responsible for: the identifier is
    /// valid text.  Dates, period, parties, total and lines all carry their
    /// own construction-time invariants.
    pub open spec fn wf(self) -> bool {
        valid_text(self.id@)
    }

    /// Validates the identifier, then composes the two period dates and
    /// validates the composition; fail-fast, in that order.  The dates
    /// themselves are valid by construction of `Date`.  On success the
    /// invoice starts with no supplier, customer, total, or lines.
    pub fn new(id: &str, issue_date: Date, start_date: Date, due_date: Date) -> (r: Result<
        Invoice,
        ValidationError,
    >)
        ensures
            r is Ok <==> valid_text(id@) && date_le(start_date, due_date),
            !valid_text(id@) ==> r == Err::<Invoice, ValidationError>(
                ValidationError::Scalar(Field::InvoiceId),
            ),
            valid_text(id@) && !date_le(start_date, due_date) ==> r == Err::<
                Invoice,
                ValidationError,
            >(ValidationError::Aggregate(Field::InvoicePeriod)),
            r matches Ok(inv) ==> {
                &&& inv.id@ == id@
                &&& inv.issue_date == issue_date
                &&& inv.period.start_spec() == start_date
                &&& inv.period.end_spec() == due_date
                &&& inv.accounting_supplier_party is None
                &&& inv.accounting_customer_party is None
                &&& inv.legal_monetary_total is None
                &&& inv.invoice_line@.len() == 0
                &&& inv.wf()
            },
    {
        if !check_text(id) {
            return Err(ValidationError::Scalar(Field::InvoiceId));
        }
        let period = InvoicePeriod::new(start_date, due_date)?;
        Ok(
            Invoice {
                id: String::from_str(id),
                issue_date,
                period,
                accounting_supplier_party: None,
                accounting_customer_party: None,
                legal_monetary_total: None,
                invoice_line: Vec::new(),
            },
        )
    }

}

/// The document envelope: one invoice under three fixed namespace
/// identifiers.  The namespace strings are compiled-in constants of the
/// serializer; the envelope carries no business data of its own.
#[derive(Debug)]
pub struct InvoiceWrapper {
    pub invoice: Invoice,
}

impl InvoiceWrapper {
    /// Wraps a finished invoice for serialization.
    pub fn new(invoice: Invoice) -> (w: InvoiceWrapper)
        ensures
            w.invoice == invoice,
    {
        InvoiceWrapper { invoice }
    }
}

} // verus!
