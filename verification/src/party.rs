//! Trading parties: a validated display name, tagged with exactly one of
//! the two roles an invoice knows — supplier or customer.

use vstd::prelude::*;
use crate::error::{Field, ValidationError};
use crate::scalar::{check_text, valid_text};

verus! {

/// A named trading entity.  The name is validated at construction; no
/// `Party` with an invalid name can exist.
#[derive(Debug)]
pub struct Party {
    name: String,
}

impl Party {
    /// The name is always a valid text value.
    #[verifier::type_invariant]
    pub closed spec fn wf(self) -> bool {
        valid_text(self.name@)
    }

    pub closed spec fn name_spec(self) -> Seq<char> {
        self.name@
    }

    /// Read access to the validated name.
    pub fn name(&self) -> (r: &String)
        ensures
            r@ == self.name_spec(),
    {
        &self.name
    }
}

/// A party in the supplier (selling) role.
#[derive(Debug)]
pub struct SupplierParty {
    party: Party,
}

impl SupplierParty {
    pub closed spec fn name_spec(self) -> Seq<char> {
        self.party.name_spec()
    }

    pub fn party(&self) -> (r: &Party)
        ensures
            r.name_spec() == self.name_spec(),
    {
        &self.party
    }
}

/// A party in the customer (buying) role.
#[derive(Debug)]
pub struct CustomerParty {
    party: Party,
}

impl CustomerParty {
    pub closed spec fn name_spec(self) -> Seq<char> {
        self.party.name_spec()
    }

    pub fn party(&self) -> (r: &Party)
        ensures
            r.name_spec() == self.name_spec(),
    {
        &self.party
    }
}

/// Validates a display name and builds the bare party, reporting the given
/// field on failure.
fn new_party(name: &str, field: Field) -> (r: Result<Party, ValidationError>)
    ensures
        r is Ok <==> valid_text(name@),
        r matches Ok(p) ==> p.name_spec() == name@,
        r matches Err(e) ==> e == ValidationError::Scalar(field),
{
    if !check_text(name) {
        return Err(ValidationError::Scalar(field));
    }
    Ok(Party { name: String::from_str(name) })
}

/// Builds the supplier-role party for a display name.
///
/// Succeeds exactly when the name is valid text; on failure nothing partial
/// is returned and the error names the supplier-name field.
pub fn new_supplier(name: &str) -> (r: Result<SupplierParty, ValidationError>)
    ensures
        r is Ok <==> valid_text(name@),
        r matches Ok(s) ==> s.name_spec() == name@,
        r matches Err(e) ==> e == ValidationError::Scalar(Field::SupplierName),
{
    let party = new_party(name, Field::SupplierName)?;
    Ok(SupplierParty { party })
}

/// Builds the customer-role party for a display name.
///
/// Succeeds exactly when the name is valid text; on failure nothing partial
/// is returned and the error names the customer-name field.
pub fn new_customer(name: &str) -> (r: Result<CustomerParty, ValidationError>)
    ensures
        r is Ok <==> valid_text(name@),
        r matches Ok(c) ==> c.name_spec() == name@,
        r matches Err(e) ==> e == ValidationError::Scalar(Field::CustomerName),
{
    let party = new_party(name, Field::CustomerName)?;
    Ok(CustomerParty { party })
}

} // verus!
