//! Validation failures, each naming the offending field.

use vstd::prelude::*;

verus! {

/// The document position whose value failed validation.
#[derive(Clone, Copy, Debug, PartialEq, Eq, Structural)]
pub enum Field {
    InvoiceId,
    IssueDate,
    PeriodStart,
    PeriodEnd,
    InvoicePeriod,
    SupplierName,
    CustomerName,
    ItemDescription,
    LineId,
    LineAmount,
    Currency,
    PayableTotal,
}

/// A builder operation failed; construction is aborted and nothing partial
/// is returned.
///
/// `Scalar` means a leaf value broke its own format constraint; `Aggregate`
/// means the leaves were individually valid but the composed structure is
/// inconsistent (a period whose start falls after its end) or exceeds a
/// machine bound (a running total that no longer fits).
#[derive(Clone, Copy, Debug, PartialEq, Eq, Structural)]
pub enum ValidationError {
    Scalar(Field),
    Aggregate(Field),
}

impl ValidationError {
    /// The field this error points at.
    pub fn field(&self) -> (f: Field)
        ensures
            f == (match *self {
                ValidationError::Scalar(g) => g,
                ValidationError::Aggregate(g) => g,
            }),
    {
        match *self {
            ValidationError::Scalar(g) => g,
            ValidationError::Aggregate(g) => g,
        }
    }
}

} // verus!
