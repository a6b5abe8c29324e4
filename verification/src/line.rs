//! The line accumulator: collects billable lines, assigns sequential
//! 1-based identifiers, and keeps a running total in the one currency fixed
//! when the accumulator is created.

use vstd::prelude::*;
use crate::error::{Field, ValidationError};
use crate::scalar::{check_currency, check_text, valid_currency, valid_text};

verus! {

/// One billable line: its auto-assigned 1-based identifier, the item
/// description, and the line amount in cents together with the currency it
/// was validated against.  Lines are created only by `Lines::push`, so the
/// description and currency of every line in existence are valid.
#[derive(Debug)]
pub struct InvoiceLine {
    id: u64,
    description: String,
    amount: u64,
    currency: String,
}

impl InvoiceLine {
    #[verifier::type_invariant]
    pub closed spec fn wf(self) -> bool {
        valid_text(self.description@) && valid_currency(self.currency@)
    }

    pub closed spec fn currency_spec(self) -> Seq<char> {
        self.currency@
    }

    pub fn currency(&self) -> (r: &String)
        ensures
            r@ == self.currency_spec(),
    {
        &self.currency
    }

    pub closed spec fn id_spec(self) -> u64 {
        self.id
    }

    pub closed spec fn description_spec(self) -> Seq<char> {
        self.description@
    }

    pub closed spec fn amount_spec(self) -> u64 {
        self.amount
    }

    pub fn id(&self) -> (r: u64)
        ensures
            r == self.id_spec(),
    {
        self.id
    }

    pub fn description(&self) -> (r: &String)
        ensures
            r@ == self.description_spec(),
    {
        &self.description
    }

    pub fn amount(&self) -> (r: u64)
        ensures
            r == self.amount_spec(),
    {
        self.amount
    }
}

/// The exact sum, in cents, of the amounts of a sequence of lines.
pub open spec fn sum_amounts(s: Seq<InvoiceLine>) -> int
    decreases s.len(),
{
    if s.len() == 0 {
        0
    } else {
        sum_amounts(s.drop_last()) + s.last().amount_spec()
    }
}

/// Appending a line grows the sum by exactly that line's amount.
pub proof fn lemma_sum_push(s: Seq<InvoiceLine>, l: InvoiceLine)
    ensures
        sum_amounts(s.push(l)) == sum_amounts(s) + l.amount_spec(),
{
    assert(s.push(l).drop_last() =~= s);
    assert(s.push(l).last() == l);
}

/// The stateful line accumulator, fixed to one document currency.
#[derive(Debug)]
pub struct Lines {
    pub currency: String,
    pub total: u64,
    pub items: Vec<InvoiceLine>,
}

impl Lines {
    /// Consistency of the accumulator: line identifiers are exactly
    /// `1..=len` in order, and the running total is the exact sum of the
    /// accumulated amounts.  Established by `new` and preserved by `push`.
    pub open spec fn wf(self) -> bool {
        &&& forall|i: int|
            0 <= i < self.items@.len() ==> (#[trigger] self.items@[i]).id_spec() as int == i + 1
        &&& self.total as int == sum_amounts(self.items@)
    }

    /// A fresh accumulator for the given document currency: no lines, zero
    /// total.  The currency is checked line by line, as each amount is
    /// validated against it.
    pub fn new(currency: &str) -> (l: Lines)
        ensures
            l.currency@ == currency@,
            l.total == 0,
            l.items@.len() == 0,
            l.wf(),
    {
        let l = Lines { currency: String::from_str(currency), total: 0, items: Vec::new() };
        proof {
            assert(sum_amounts(l.items@) == 0);
        }
        l
    }

    /// Validates and appends one line, all-or-nothing.
    ///
    /// On success the new line gets identifier `len + 1`, the description
    /// and amount given, and the running total grows by exactly `amount`.
    /// On any failure — invalid description, invalid currency, or a count
    /// or total that would no longer fit — the accumulator is left
    /// byte-for-byte unchanged.
    pub fn push(&mut self, name: &str, amount: u64) -> (r: Result<(), ValidationError>)
        ensures
            r is Ok <==> valid_text(name@) && valid_currency(old(self).currency@)
                && old(self).items@.len() + 1 <= u64::MAX
                && old(self).total + amount <= u64::MAX,
            r is Ok ==> {
                &&& final(self).items@.len() == old(self).items@.len() + 1
                &&& forall|i: int|
                    0 <= i < old(self).items@.len() ==> final(self).items@[i] == old(
                        self,
                    ).items@[i]
                &&& final(self).items@.last().id_spec() as int == old(self).items@.len() + 1
                &&& final(self).items@.last().description_spec() == name@
                &&& final(self).items@.last().amount_spec() == amount
                &&& final(self).items@.last().currency_spec() == old(self).currency@
                &&& final(self).total == old(self).total + amount
                &&& final(self).currency == old(self).currency
            },
            r is Err ==> *final(self) == *old(self),
            !valid_text(name@) ==> r == Err::<(), ValidationError>(
                ValidationError::Scalar(Field::ItemDescription),
            ),
            valid_text(name@) && !valid_currency(old(self).currency@) ==> r == Err::<
                (),
                ValidationError,
            >(ValidationError::Scalar(Field::Currency)),
            valid_text(name@) && valid_currency(old(self).currency@) && old(self).items@.len() + 1
                > u64::MAX ==> r == Err::<(), ValidationError>(
                ValidationError::Aggregate(Field::LineId),
            ),
            valid_text(name@) && valid_currency(old(self).currency@) && old(self).items@.len() + 1
                <= u64::MAX && old(self).total + amount > u64::MAX ==> r == Err::<
                (),
                ValidationError,
            >(ValidationError::Aggregate(Field::PayableTotal)),
            old(self).wf() && r is Ok ==> final(self).wf(),
    {
        if !check_text(name) {
            return Err(ValidationError::Scalar(Field::ItemDescription));
        }
        if !check_currency(self.currency.as_str()) {
            return Err(ValidationError::Scalar(Field::Currency));
        }
        let len: usize = self.items.len();
        if len as u64 == u64::MAX {
            return Err(ValidationError::Aggregate(Field::LineId));
        }
        let id: u64 = len as u64 + 1;
        if amount > u64::MAX - self.total {
            return Err(ValidationError::Aggregate(Field::PayableTotal));
        }
        let line = InvoiceLine {
            id,
            description: String::from_str(name),
            amount,
            currency: self.currency.clone(),
        };
        let ghost prev = self.items@;
        self.items.push(line);
        self.total = self.total + amount;
        proof {
            assert(self.items@ =~= prev.push(line));
            lemma_sum_push(prev, line);
        }
        Ok(())
    }

    /// The consistency stated by `wf`, spelled out: after any sequence of
    /// successful `push` calls, the line identifiers are exactly `1..=N` in
    /// call order, and the total is the exact sum of the pushed amounts.
    pub proof fn lemma_numbering_and_total(self)
        requires
            self.wf(),
        ensures
            forall|i: int|
                0 <= i < self.items@.len() ==> (#[trigger] self.items@[i]).id_spec() as int == i
                    + 1,
            self.total as int == sum_amounts(self.items@),
    {
    }
}

} // verus!
