//! The serialized wire shape: the end-to-end scenario, amount rendering,
//! determinism, and the empty-role placeholders.

use ubl_invoice::date::Date;
use ubl_invoice::invoice::{Amount, Invoice, InvoiceWrapper};
use ubl_invoice::line::Lines;
use ubl_invoice::party::{new_customer, new_supplier};
use ubl_invoice::ser::wrap_and_serialize;

fn d(y: u32, m: u32, day: u32) -> Date {
    Date::from_ymd(y, m, day).unwrap()
}

/// Builds the one-line example document: id "123", issued 2011-09-22,
/// period August 2011, one MIL-SPEC cotter pin line at 100.00 CAD.
fn example_invoice() -> Invoice {
    let mut invoice = Invoice::new("123", d(2011, 9, 22), d(2011, 8, 1), d(2011, 8, 31)).unwrap();
    invoice.accounting_supplier_party = Some(new_supplier("CustomCotterPins").unwrap());
    invoice.accounting_customer_party = Some(new_customer("NorthAmericanVeeblefetzer").unwrap());

    let mut lines = Lines::new("CAD");
    lines.push("Cotterpin,MIL-SPEC", 10000).unwrap();

    let total = Amount::new(lines.total, lines.currency.as_str()).unwrap();
    invoice.legal_monetary_total = Some(total);
    invoice.invoice_line = lines.items;
    invoice
}

#[test]
fn end_to_end_scenario() {
    let out = wrap_and_serialize(example_invoice());
    let v: serde_json::Value = serde_json::from_str(&out).unwrap();

    let inv = &v["Invoice"][0];
    assert_eq!(inv["ID"][0]["_"], "123");
    assert_eq!(inv["IssueDate"][0]["_"], "2011-09-22");
    assert_eq!(inv["InvoicePeriod"][0]["StartDate"][0]["_"], "2011-08-01");
    assert_eq!(inv["InvoicePeriod"][0]["EndDate"][0]["_"], "2011-08-31");

    let payable = &inv["LegalMonetaryTotal"][0]["PayableAmount"][0];
    assert_eq!(payable["_"].as_f64().unwrap(), 100.00);
    assert_eq!(payable["currencyID"], "CAD");

    let lines = inv["InvoiceLine"].as_array().unwrap();
    assert_eq!(lines.len(), 1);
    assert_eq!(lines[0]["ID"][0]["_"], "1");
    assert_eq!(lines[0]["LineExtensionAmount"][0]["_"].as_f64().unwrap(), 100.00);
    assert_eq!(lines[0]["Item"][0]["Description"][0]["_"], "Cotterpin,MIL-SPEC");
}

#[test]
fn end_to_end_exact_bytes() {
    let out = wrap_and_serialize(example_invoice());
    let expected = "{\"_D\":\"urn:oasis:names:specification:ubl:schema:xsd:Invoice-2\",\"_A\":\"urn:oasis:names:specification:ubl:schema:xsd:CommonAggregateComponents-2\",\"_B\":\"urn:oasis:names:specification:ubl:schema:xsd:CommonBasicComponents-2\",\"Invoice\":[{\"ID\":[{\"_\":\"123\"}],\"IssueDate\":[{\"_\":\"2011-09-22\"}],\"InvoicePeriod\":[{\"StartDate\":[{\"_\":\"2011-08-01\"}],\"EndDate\":[{\"_\":\"2011-08-31\"}]}],\"AccountingSupplierParty\":[{\"Party\":[{\"PartyName\":[{\"Name\":[{\"_\":\"CustomCotterPins\"}]}]}]}],\"AccountingCustomerParty\":[{\"Party\":[{\"PartyName\":[{\"Name\":[{\"_\":\"NorthAmericanVeeblefetzer\"}]}]}]}],\"LegalMonetaryTotal\":[{\"PayableAmount\":[{\"_\":100.0,\"currencyID\":\"CAD\"}]}],\"InvoiceLine\":[{\"ID\":[{\"_\":\"1\"}],\"LineExtensionAmount\":[{\"_\":100.0,\"currencyID\":\"CAD\"}],\"Item\":[{\"Description\":[{\"_\":\"Cotterpin,MIL-SPEC\"}]}]}]}]}";
    assert_eq!(out, expected);
}

#[test]
fn serialization_is_deterministic() {
    let a = wrap_and_serialize(example_invoice());
    let b = wrap_and_serialize(example_invoice());
    assert_eq!(a, b);
}

#[test]
fn supplier_name_round_trips_through_output() {
    let out = wrap_and_serialize(example_invoice());
    let v: serde_json::Value = serde_json::from_str(&out).unwrap();
    let name = &v["Invoice"][0]["AccountingSupplierParty"][0]["Party"][0]["PartyName"][0]["Name"][0]["_"];
    assert_eq!(name, "CustomCotterPins");
    let name = &v["Invoice"][0]["AccountingCustomerParty"][0]["Party"][0]["PartyName"][0]["Name"][0]["_"];
    assert_eq!(name, "NorthAmericanVeeblefetzer");
}

#[test]
fn missing_roles_serialize_as_empty_arrays() {
    let invoice = Invoice::new("1", d(2020, 1, 2), d(2020, 1, 1), d(2020, 1, 2)).unwrap();
    let out = InvoiceWrapper::new(invoice).to_json();
    assert!(out.contains("\"AccountingSupplierParty\":[]"));
    assert!(out.contains("\"AccountingCustomerParty\":[]"));
    assert!(out.contains("\"LegalMonetaryTotal\":[]"));
    assert!(out.contains("\"InvoiceLine\":[]"));
}

#[test]
fn amounts_render_in_shortest_two_decimal_form() {
    let mut invoice = Invoice::new("1", d(2020, 1, 2), d(2020, 1, 1), d(2020, 1, 2)).unwrap();
    let mut lines = Lines::new("CAD");
    lines.push("whole", 10000).unwrap();
    lines.push("two decimals", 9999).unwrap();
    lines.push("one decimal", 1010).unwrap();
    lines.push("below one cent of a dollar", 5).unwrap();
    lines.push("zero", 0).unwrap();
    invoice.invoice_line = lines.items;
    let out = wrap_and_serialize(invoice);
    assert!(out.contains("{\"_\":100.0,"));
    assert!(out.contains("{\"_\":99.99,"));
    assert!(out.contains("{\"_\":10.1,"));
    assert!(out.contains("{\"_\":0.05,"));
    assert!(out.contains("{\"_\":0.0,"));
}

#[test]
fn amounts_agree_with_doubles() {
    let mut invoice = Invoice::new("1", d(2020, 1, 2), d(2020, 1, 1), d(2020, 1, 2)).unwrap();
    let mut lines = Lines::new("CAD");
    lines.push("a", 9999).unwrap();
    lines.push("b", 5).unwrap();
    invoice.invoice_line = lines.items;
    let out = wrap_and_serialize(invoice);
    let v: serde_json::Value = serde_json::from_str(&out).unwrap();
    let items = v["Invoice"][0]["InvoiceLine"].as_array().unwrap();
    assert_eq!(items[0]["LineExtensionAmount"][0]["_"].as_f64().unwrap(), 99.99);
    assert_eq!(items[1]["LineExtensionAmount"][0]["_"].as_f64().unwrap(), 0.05);
}

#[test]
fn line_ids_in_output_follow_call_order() {
    let mut invoice = Invoice::new("1", d(2020, 1, 2), d(2020, 1, 1), d(2020, 1, 2)).unwrap();
    let mut lines = Lines::new("CAD");
    lines.push("a", 1).unwrap();
    lines.push("b", 2).unwrap();
    lines.push("c", 3).unwrap();
    invoice.invoice_line = lines.items;
    let out = wrap_and_serialize(invoice);
    let v: serde_json::Value = serde_json::from_str(&out).unwrap();
    let items = v["Invoice"][0]["InvoiceLine"].as_array().unwrap();
    assert_eq!(items.len(), 3);
    for (i, item) in items.iter().enumerate() {
        assert_eq!(item["ID"][0]["_"], (i + 1).to_string().as_str());
    }
}

#[test]
fn no_output_is_produced_for_invalid_names() {
    // Construction fails before any serialization can happen: there is no
    // document to hand to the serializer.
    assert!(new_supplier("").is_err());
    assert!(new_supplier("bad\"name").is_err());
}
