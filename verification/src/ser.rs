//! Serialization of the finished document into the UBL JSON shape.
//!
//! The wire format follows the UBL JSON binding: every schema element —
//! even one whose cardinality is fixed at one — is rendered as a
//! single-element array, aggregate components are nested objects whose keys
//! are the exact UBL PascalCase element names, and leaf values sit under a
//! `"_"` key, with a `currencyID` attribute beside amounts.  A role or
//! total not yet attached serializes as an empty array.  The output is
//! compact: no whitespace anywhere.
//!
//! Each `json_*` spec function below is the exact character sequence the
//! corresponding `push_*` function emits; `wrap_and_serialize` ties the
//! whole document to `json_wrapper_rep`.

use vstd::prelude::*;
use crate::date::{date_rep, push_date, Date};
use crate::invoice::{Amount, Invoice, InvoicePeriod, InvoiceWrapper};
use crate::line::InvoiceLine;
use crate::num::{amount_rep, dec_rep, push_amount, push_dec};
use crate::party::{CustomerParty, SupplierParty};

verus! {

/// A leaf element: a one-element array holding an object whose `"_"` key
/// carries the value as a JSON string.
pub open spec fn json_text_component(s: Seq<char>) -> Seq<char> {
    "[{\"_\":\""@ + s + "\"}]"@
}

/// An amount element: the cent count rendered as a JSON number under
/// `"_"`, with the currency code as the `currencyID` attribute.
pub open spec fn json_amount(cents: u64, currency: Seq<char>) -> Seq<char> {
    "[{\"_\":"@ + amount_rep(cents as nat) + ",\"currencyID\":\""@ + currency + "\"}]"@
}

/// The Party aggregate: name nested under PartyName, each level wrapped.
pub open spec fn json_party(name: Seq<char>) -> Seq<char> {
    "[{\"PartyName\":[{\"Name\":"@ + json_text_component(name) + "}]}]"@
}

/// The supplier role wrapper around a party.
pub open spec fn json_supplier(s: SupplierParty) -> Seq<char> {
    "[{\"Party\":"@ + json_party(s.name_spec()) + "}]"@
}

/// The customer role wrapper around a party.
pub open spec fn json_customer(c: CustomerParty) -> Seq<char> {
    "[{\"Party\":"@ + json_party(c.name_spec()) + "}]"@
}

/// An attached supplier serializes as its role wrapper, a missing one as
/// an empty array.
pub open spec fn json_supplier_opt(o: Option<SupplierParty>) -> Seq<char> {
    match o {
        Option::Some(s) => json_supplier(s),
        Option::None => "[]"@,
    }
}

/// An attached customer serializes as its role wrapper, a missing one as
/// an empty array.
pub open spec fn json_customer_opt(o: Option<CustomerParty>) -> Seq<char> {
    match o {
        Option::Some(c) => json_customer(c),
        Option::None => "[]"@,
    }
}

/// The LegalMonetaryTotal aggregate around the payable amount, or an empty
/// array when no total is attached.
pub open spec fn json_total_opt(o: Option<Amount>) -> Seq<char> {
    match o {
        Option::Some(a) => "[{\"PayableAmount\":"@ + json_amount(a.cents_spec(), a.currency_spec())
            + "}]"@,
        Option::None => "[]"@,
    }
}

/// The billing period: start and end dates, each a wrapped leaf.
pub open spec fn json_period(p: InvoicePeriod) -> Seq<char> {
    "[{\"StartDate\":"@ + json_text_component(date_rep(p.start_spec())) + ",\"EndDate\":"@
        + json_text_component(date_rep(p.end_spec())) + "}]"@
}

/// One invoice line, in UBL element order: ID (the line number as a
/// string), LineExtensionAmount, Item with its Description.
pub open spec fn json_line(l: InvoiceLine) -> Seq<char> {
    "{\"ID\":"@ + json_text_component(dec_rep(l.id_spec() as nat)) + ",\"LineExtensionAmount\":"@
        + json_amount(l.amount_spec(), l.currency_spec()) + ",\"Item\":[{\"Description\":"@
        + json_text_component(l.description_spec()) + "}]}"@
}

/// The line objects joined by commas, in sequence order.
pub open spec fn json_lines_items(s: Seq<InvoiceLine>) -> Seq<char>
    decreases s.len(),
{
    if s.len() == 0 {
        Seq::empty()
    } else if s.len() == 1 {
        json_line(s[0])
    } else {
        json_lines_items(s.drop_last()) + seq![','] + json_line(s.last())
    }
}

/// The InvoiceLine array.
pub open spec fn json_lines(s: Seq<InvoiceLine>) -> Seq<char> {
    "["@ + json_lines_items(s) + "]"@
}

/// The Invoice object, fields in UBL schema order.
pub open spec fn json_invoice(inv: Invoice) -> Seq<char> {
    "{\"ID\":"@ + json_text_component(inv.id@) + ",\"IssueDate\":"@ + json_text_component(
        date_rep(inv.issue_date),
    ) + ",\"InvoicePeriod\":"@ + json_period(inv.period) + ",\"AccountingSupplierParty\":"@
        + json_supplier_opt(inv.accounting_supplier_party) + ",\"AccountingCustomerParty\":"@
        + json_customer_opt(inv.accounting_customer_party) + ",\"LegalMonetaryTotal\":"@
        + json_total_opt(inv.legal_monetary_total) + ",\"InvoiceLine\":"@ + json_lines(
        inv.invoice_line@,
    ) + "}"@
}

/// The whole document: the three fixed namespace identifiers, then the one
/// invoice in a single-element array.
pub open spec fn json_wrapper_rep(w: InvoiceWrapper) -> Seq<char> {
    "{\"_D\":\"urn:oasis:names:specification:ubl:schema:xsd:Invoice-2\",\"_A\":\"urn:oasis:names:specification:ubl:schema:xsd:CommonAggregateComponents-2\",\"_B\":\"urn:oasis:names:specification:ubl:schema:xsd:CommonBasicComponents-2\",\"Invoice\":["@
        + json_invoice(w.invoice) + "]}"@
}

fn push_text_component(out: &mut String, s: &str)
    ensures
        final(out)@ == old(out)@ + json_text_component(s@),
{
    out.append("[{\"_\":\"");
    out.append(s);
    out.append("\"}]");
    proof {
        assert(old(out)@ + "[{\"_\":\""@ + s@ + "\"}]"@ =~= old(out)@ + json_text_component(s@));
    }
}

fn push_id_component(out: &mut String, id: u64)
    ensures
        final(out)@ == old(out)@ + json_text_component(dec_rep(id as nat)),
{
    out.append("[{\"_\":\"");
    push_dec(out, id);
    out.append("\"}]");
    proof {
        assert(old(out)@ + "[{\"_\":\""@ + dec_rep(id as nat) + "\"}]"@ =~= old(out)@
            + json_text_component(dec_rep(id as nat)));
    }
}

fn push_date_component(out: &mut String, d: &Date)
    ensures
        final(out)@ == old(out)@ + json_text_component(date_rep(*d)),
{
    out.append("[{\"_\":\"");
    push_date(out, d);
    out.append("\"}]");
    proof {
        assert(old(out)@ + "[{\"_\":\""@ + date_rep(*d) + "\"}]"@ =~= old(out)@
            + json_text_component(date_rep(*d)));
    }
}

fn push_amount_component(out: &mut String, cents: u64, currency: &str)
    ensures
        final(out)@ == old(out)@ + json_amount(cents, currency@),
{
    out.append("[{\"_\":");
    push_amount(out, cents);
    out.append(",\"currencyID\":\"");
    out.append(currency);
    out.append("\"}]");
    proof {
        assert(old(out)@ + "[{\"_\":"@ + amount_rep(cents as nat) + ",\"currencyID\":\""@
            + currency@ + "\"}]"@ =~= old(out)@ + json_amount(cents, currency@));
    }
}

fn push_party(out: &mut String, name: &str)
    ensures
        final(out)@ == old(out)@ + json_party(name@),
{
    out.append("[{\"PartyName\":[{\"Name\":");
    push_text_component(out, name);
    out.append("}]}]");
    proof {
        assert(old(out)@ + "[{\"PartyName\":[{\"Name\":"@ + json_text_component(name@) + "}]}]"@
            =~= old(out)@ + json_party(name@));
    }
}

fn push_supplier_opt(out: &mut String, o: &Option<SupplierParty>)
    ensures
        final(out)@ == old(out)@ + json_supplier_opt(*o),
{
    match o {
        Option::Some(s) => {
            out.append("[{\"Party\":");
            push_party(out, s.party().name().as_str());
            out.append("}]");
            proof {
                assert(old(out)@ + "[{\"Party\":"@ + json_party(s.name_spec()) + "}]"@ =~= old(
                    out,
                )@ + json_supplier_opt(*o));
            }
        },
        Option::None => {
            out.append("[]");
        },
    }
}

fn push_customer_opt(out: &mut String, o: &Option<CustomerParty>)
    ensures
        final(out)@ == old(out)@ + json_customer_opt(*o),
{
    match o {
        Option::Some(c) => {
            out.append("[{\"Party\":");
            push_party(out, c.party().name().as_str());
            out.append("}]");
            proof {
                assert(old(out)@ + "[{\"Party\":"@ + json_party(c.name_spec()) + "}]"@ =~= old(
                    out,
                )@ + json_customer_opt(*o));
            }
        },
        Option::None => {
            out.append("[]");
        },
    }
}

fn push_total_opt(out: &mut String, o: &Option<Amount>)
    ensures
        final(out)@ == old(out)@ + json_total_opt(*o),
{
    match o {
        Option::Some(a) => {
            out.append("[{\"PayableAmount\":");
            push_amount_component(out, a.cents(), a.currency().as_str());
            out.append("}]");
            proof {
                assert(old(out)@ + "[{\"PayableAmount\":"@ + json_amount(
                    a.cents_spec(),
                    a.currency_spec(),
                ) + "}]"@ =~= old(out)@ + json_total_opt(*o));
            }
        },
        Option::None => {
            out.append("[]");
        },
    }
}

fn push_period(out: &mut String, p: &InvoicePeriod)
    ensures
        final(out)@ == old(out)@ + json_period(*p),
{
    let start: Date = p.start();
    let end: Date = p.end();
    out.append("[{\"StartDate\":");
    push_date_component(out, &start);
    out.append(",\"EndDate\":");
    push_date_component(out, &end);
    out.append("}]");
    proof {
        assert(old(out)@ + "[{\"StartDate\":"@ + json_text_component(date_rep(p.start_spec()))
            + ",\"EndDate\":"@ + json_text_component(date_rep(p.end_spec())) + "}]"@ =~= old(out)@
            + json_period(*p));
    }
}

fn push_line(out: &mut String, l: &InvoiceLine)
    ensures
        final(out)@ == old(out)@ + json_line(*l),
{
    out.append("{\"ID\":");
    push_id_component(out, l.id());
    out.append(",\"LineExtensionAmount\":");
    push_amount_component(out, l.amount(), l.currency().as_str());
    out.append(",\"Item\":[{\"Description\":");
    push_text_component(out, l.description().as_str());
    out.append("}]}");
    proof {
        assert(old(out)@ + "{\"ID\":"@ + json_text_component(dec_rep(l.id_spec() as nat))
            + ",\"LineExtensionAmount\":"@ + json_amount(l.amount_spec(), l.currency_spec())
            + ",\"Item\":[{\"Description\":"@ + json_text_component(l.description_spec()) + "}]}"@
            =~= old(out)@ + json_line(*l));
    }
}

fn push_lines(out: &mut String, items: &Vec<InvoiceLine>)
    ensures
        final(out)@ == old(out)@ + json_lines(items@),
{
    let ghost base: Seq<char> = out@;
    out.append("[");
    let n: usize = items.len();
    let mut i: usize = 0;
    while i < n
        invariant
            n == items@.len(),
            0 <= i <= n,
            out@ == base + "["@ + json_lines_items(items@.take(i as int)),
        decreases n - i,
    {
        if i > 0 {
            out.append(",");
        }
        push_line(out, &items[i]);
        proof {
            let pre = items@.take(i as int);
            let post = items@.take(i as int + 1);
            assert(post.drop_last() =~= pre);
            assert(post.last() == items@[i as int]);
            if i == 0 {
                assert(json_lines_items(post) == json_line(items@[0]));
                assert(base + "["@ + Seq::<char>::empty() + json_line(items@[0]) =~= base + "["@
                    + json_lines_items(post));
            } else {
                reveal_strlit(",");
                assert(","@ =~= seq![',']);
                assert(base + "["@ + json_lines_items(pre) + ","@ + json_line(items@[i as int])
                    =~= base + "["@ + json_lines_items(post));
            }
        }
        i = i + 1;
    }
    out.append("]");
    proof {
        assert(items@.take(n as int) =~= items@);
        assert(base + "["@ + json_lines_items(items@) + "]"@ =~= base + json_lines(items@));
    }
}

#[verifier::rlimit(100)]
fn push_invoice(out: &mut String, inv: &Invoice)
    ensures
        final(out)@ == old(out)@ + json_invoice(*inv),
{
    let issue: Date = inv.issue_date;
    out.append("{\"ID\":");
    push_text_component(out, inv.id.as_str());
    out.append(",\"IssueDate\":");
    push_date_component(out, &issue);
    out.append(",\"InvoicePeriod\":");
    push_period(out, &inv.period);
    out.append(",\"AccountingSupplierParty\":");
    push_supplier_opt(out, &inv.accounting_supplier_party);
    out.append(",\"AccountingCustomerParty\":");
    push_customer_opt(out, &inv.accounting_customer_party);
    out.append(",\"LegalMonetaryTotal\":");
    push_total_opt(out, &inv.legal_monetary_total);
    out.append(",\"InvoiceLine\":");
    push_lines(out, &inv.invoice_line);
    out.append("}");
    proof {
        assert(old(out)@ + "{\"ID\":"@ + json_text_component(inv.id@) + ",\"IssueDate\":"@
            + json_text_component(date_rep(inv.issue_date)) + ",\"InvoicePeriod\":"@ + json_period(
            inv.period,
        ) + ",\"AccountingSupplierParty\":"@ + json_supplier_opt(inv.accounting_supplier_party)
            + ",\"AccountingCustomerParty\":"@ + json_customer_opt(inv.accounting_customer_party)
            + ",\"LegalMonetaryTotal\":"@ + json_total_opt(inv.legal_monetary_total)
            + ",\"InvoiceLine\":"@ + json_lines(inv.invoice_line@) + "}"@ =~= old(out)@
            + json_invoice(*inv));
    }
}

impl InvoiceWrapper {
    /// Serializes the envelope to the UBL JSON wire shape, in one pass;
    /// the result is exactly `json_wrapper_rep` of the document.
    pub fn to_json(&self) -> (out: String)
        ensures
            out@ == json_wrapper_rep(*self),
    {
        let mut out = String::new();
        out.append(
            "{\"_D\":\"urn:oasis:names:specification:ubl:schema:xsd:Invoice-2\",\"_A\":\"urn:oasis:names:specification:ubl:schema:xsd:CommonAggregateComponents-2\",\"_B\":\"urn:oasis:names:specification:ubl:schema:xsd:CommonBasicComponents-2\",\"Invoice\":[",
        );
        push_invoice(&mut out, &self.invoice);
        out.append("]}");
        proof {
            assert(Seq::<char>::empty()
                + "{\"_D\":\"urn:oasis:names:specification:ubl:schema:xsd:Invoice-2\",\"_A\":\"urn:oasis:names:specification:ubl:schema:xsd:CommonAggregateComponents-2\",\"_B\":\"urn:oasis:names:specification:ubl:schema:xsd:CommonBasicComponents-2\",\"Invoice\":["@
                + json_invoice(self.invoice) + "]}"@ =~= json_wrapper_rep(*self));
        }
        out
    }
}

/// Wraps the finished invoice in the namespace envelope and serializes it:
/// the one-call form of the document wrapper.
pub fn wrap_and_serialize(invoice: Invoice) -> (out: String)
    ensures
        out@ == json_wrapper_rep(InvoiceWrapper { invoice }),
{
    let w = InvoiceWrapper::new(invoice);
    w.to_json()
}

} // verus!
