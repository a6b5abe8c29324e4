//! Document-level laws: facts that relate several builder functions and
//! the serializer, stated over the same spec functions their contracts use.

use vstd::prelude::*;
use crate::invoice::{Amount, Invoice, InvoiceWrapper};
use crate::line::InvoiceLine;
use crate::party::{CustomerParty, SupplierParty};
use crate::ser::{
    json_customer_opt, json_invoice, json_line, json_lines, json_lines_items, json_party,
    json_period, json_supplier_opt, json_text_component, json_total_opt, json_wrapper_rep,
};
use crate::date::date_rep;

verus! {

/// The characters standing immediately before a supplier or customer name
/// in the serialized output: the role wrapper, the Party and PartyName
/// aggregates, and the leaf's opening quote.
pub open spec fn party_wrap_prefix() -> Seq<char> {
    "[{\"Party\":"@ + "[{\"PartyName\":[{\"Name\":"@ + "[{\"_\":\""@
}

/// The characters standing immediately after the name: the closing quote
/// and the three closing wrappers.
pub open spec fn party_wrap_suffix() -> Seq<char> {
    "\"}]"@ + "}]}]"@ + "}]"@
}

/// A party's serialized role wrapper is exactly the fixed wrapper text
/// around the name, unchanged.
pub proof fn lemma_party_wrap(name: Seq<char>)
    ensures
        "[{\"Party\":"@ + json_party(name) + "}]"@ =~= party_wrap_prefix() + name
            + party_wrap_suffix(),
{
    assert("[{\"Party\":"@ + json_party(name) + "}]"@ =~= party_wrap_prefix() + name
        + party_wrap_suffix());
}

/// Round trip for `new_supplier`: when a built supplier party is attached
/// to the document, the serialized output contains the given name
/// unchanged, inside the supplier role wrapper, at a position where the
/// whole output splits cleanly around it.
#[verifier::rlimit(100)]
pub proof fn lemma_supplier_round_trip(w: InvoiceWrapper, s: SupplierParty)
    requires
        w.invoice.accounting_supplier_party == Some(s),
    ensures
        exists|pre: Seq<char>, post: Seq<char>|
            json_wrapper_rep(w) == pre + (party_wrap_prefix() + s.name_spec()
                + party_wrap_suffix()) + post,
{
    let inv = w.invoice;
    let pre =
        "{\"_D\":\"urn:oasis:names:specification:ubl:schema:xsd:Invoice-2\",\"_A\":\"urn:oasis:names:specification:ubl:schema:xsd:CommonAggregateComponents-2\",\"_B\":\"urn:oasis:names:specification:ubl:schema:xsd:CommonBasicComponents-2\",\"Invoice\":["@
        + "{\"ID\":"@ + json_text_component(inv.id@) + ",\"IssueDate\":"@ + json_text_component(
        date_rep(inv.issue_date),
    ) + ",\"InvoicePeriod\":"@ + json_period(inv.period) + ",\"AccountingSupplierParty\":"@;
    let post = ",\"AccountingCustomerParty\":"@ + json_customer_opt(inv.accounting_customer_party)
        + ",\"LegalMonetaryTotal\":"@ + json_total_opt(inv.legal_monetary_total)
        + ",\"InvoiceLine\":"@ + json_lines(inv.invoice_line@) + "}"@ + "]}"@;
    lemma_party_wrap(s.name_spec());
    assert(json_wrapper_rep(w) =~= pre + (party_wrap_prefix() + s.name_spec()
        + party_wrap_suffix()) + post);
}

/// Round trip for `new_customer`: the same statement for the customer role.
#[verifier::rlimit(100)]
pub proof fn lemma_customer_round_trip(w: InvoiceWrapper, c: CustomerParty)
    requires
        w.invoice.accounting_customer_party == Some(c),
    ensures
        exists|pre: Seq<char>, post: Seq<char>|
            json_wrapper_rep(w) == pre + (party_wrap_prefix() + c.name_spec()
                + party_wrap_suffix()) + post,
{
    let inv = w.invoice;
    let pre =
        "{\"_D\":\"urn:oasis:names:specification:ubl:schema:xsd:Invoice-2\",\"_A\":\"urn:oasis:names:specification:ubl:schema:xsd:CommonAggregateComponents-2\",\"_B\":\"urn:oasis:names:specification:ubl:schema:xsd:CommonBasicComponents-2\",\"Invoice\":["@
        + "{\"ID\":"@ + json_text_component(inv.id@) + ",\"IssueDate\":"@ + json_text_component(
        date_rep(inv.issue_date),
    ) + ",\"InvoicePeriod\":"@ + json_period(inv.period) + ",\"AccountingSupplierParty\":"@
        + json_supplier_opt(inv.accounting_supplier_party) + ",\"AccountingCustomerParty\":"@;
    let post = ",\"LegalMonetaryTotal\":"@ + json_total_opt(inv.legal_monetary_total)
        + ",\"InvoiceLine\":"@ + json_lines(inv.invoice_line@) + "}"@ + "]}"@;
    lemma_party_wrap(c.name_spec());
    assert(json_wrapper_rep(w) =~= pre + (party_wrap_prefix() + c.name_spec()
        + party_wrap_suffix()) + post);
}

/// Two lines with equal observable fields.
pub open spec fn same_line(x: InvoiceLine, y: InvoiceLine) -> bool {
    &&& x.id_spec() == y.id_spec()
    &&& x.description_spec() == y.description_spec()
    &&& x.amount_spec() == y.amount_spec()
    &&& x.currency_spec() == y.currency_spec()
}

/// Two optional amounts with equal observable fields.
pub open spec fn same_total(x: Option<Amount>, y: Option<Amount>) -> bool {
    match (x, y) {
        (Option::Some(a), Option::Some(b)) => a.cents_spec() == b.cents_spec()
            && a.currency_spec() == b.currency_spec(),
        (Option::None, Option::None) => true,
        _ => false,
    }
}

/// Two invoices built from identical inputs: every observable field agrees.
pub open spec fn same_document(x: Invoice, y: Invoice) -> bool {
    &&& x.id@ == y.id@
    &&& x.issue_date == y.issue_date
    &&& x.period == y.period
    &&& (match (x.accounting_supplier_party, y.accounting_supplier_party) {
        (Option::Some(a), Option::Some(b)) => a.name_spec() == b.name_spec(),
        (Option::None, Option::None) => true,
        _ => false,
    })
    &&& (match (x.accounting_customer_party, y.accounting_customer_party) {
        (Option::Some(a), Option::Some(b)) => a.name_spec() == b.name_spec(),
        (Option::None, Option::None) => true,
        _ => false,
    })
    &&& same_total(x.legal_monetary_total, y.legal_monetary_total)
    &&& x.invoice_line@.len() == y.invoice_line@.len()
    &&& forall|i: int|
        0 <= i < x.invoice_line@.len() ==> same_line(
            #[trigger] x.invoice_line@[i],
            y.invoice_line@[i],
        )
}

proof fn lemma_lines_congruent(s1: Seq<InvoiceLine>, s2: Seq<InvoiceLine>)
    requires
        s1.len() == s2.len(),
        forall|i: int| 0 <= i < s1.len() ==> same_line(#[trigger] s1[i], s2[i]),
    ensures
        json_lines_items(s1) == json_lines_items(s2),
    decreases s1.len(),
{
    if s1.len() == 0 {
    } else if s1.len() == 1 {
        assert(same_line(s1[0], s2[0]));
        assert(json_line(s1[0]) == json_line(s2[0]));
    } else {
        assert(forall|i: int|
            0 <= i < s1.drop_last().len() ==> same_line(
                #[trigger] s1.drop_last()[i],
                s2.drop_last()[i],
            ));
        lemma_lines_congruent(s1.drop_last(), s2.drop_last());
        assert(same_line(s1.last(), s2.last()));
        assert(json_line(s1.last()) == json_line(s2.last()));
    }
}

/// Determinism: serialization is a function of the document's field values
/// alone, so two invoices built from identical inputs by separate builder
/// calls serialize to byte-identical output.
pub proof fn lemma_serialization_deterministic(a: InvoiceWrapper, b: InvoiceWrapper)
    requires
        same_document(a.invoice, b.invoice),
    ensures
        json_wrapper_rep(a) == json_wrapper_rep(b),
{
    lemma_lines_congruent(a.invoice.invoice_line@, b.invoice.invoice_line@);
    assert(json_supplier_opt(a.invoice.accounting_supplier_party) == json_supplier_opt(
        b.invoice.accounting_supplier_party,
    ));
    assert(json_customer_opt(a.invoice.accounting_customer_party) == json_customer_opt(
        b.invoice.accounting_customer_party,
    ));
    assert(json_total_opt(a.invoice.legal_monetary_total) == json_total_opt(
        b.invoice.legal_monetary_total,
    ));
    assert(json_invoice(a.invoice) == json_invoice(b.invoice));
}

} // verus!
