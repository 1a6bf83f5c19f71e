//! Sequence ids and numbers that order the messages of one stream.
use vstd::prelude::*;
use std::cmp::Ordering;
use vstd::std_specs::cmp::PartialOrdSpecImpl;
use crate::text::push_decimal;

verus! {

/// A run of sequence numbers (`sid`) and a position in it (`sn`).
#[derive(Debug, Copy, Clone, PartialEq, Eq, Structural)]
pub struct SequenceIdAndNumber {
    pub sequence_id: u64,
    pub sequence_number: u64,
}

/// How two positions compare: not at all across runs, else by number.
pub open spec fn sequence_order(a: SequenceIdAndNumber, b: SequenceIdAndNumber) -> Option<Ordering> {
    if a.sequence_id != b.sequence_id {
        None
    } else if a.sequence_number < b.sequence_number {
        Some(Ordering::Less)
    } else if a.sequence_number == b.sequence_number {
        Some(Ordering::Equal)
    } else {
        Some(Ordering::Greater)
    }
}

/// `rand::random::<u64>()`: a random run id; nothing is known of its value.
#[verifier::external_body]
fn random_sequence_id() -> (r: u64) {
    rand::random::<u64>()
}

impl Default for SequenceIdAndNumber {
    /// Run 0, position 0.
    fn default() -> (r: SequenceIdAndNumber)
        ensures
            r.sequence_id == 0 && r.sequence_number == 0,
    {
        SequenceIdAndNumber { sequence_id: 0, sequence_number: 0 }
    }
}

impl SequenceIdAndNumber {
    /// Position `sequence_number` of run `sequence_id`.
    pub fn new(sequence_id: u64, sequence_number: u64) -> (r: SequenceIdAndNumber)
        ensures
            r.sequence_id == sequence_id && r.sequence_number == sequence_number,
    {
        SequenceIdAndNumber { sequence_id, sequence_number }
    }

    /// The start of a fresh run with a random id.
    pub fn new_random() -> (r: SequenceIdAndNumber)
        ensures
            r.sequence_number == 0,
    {
        Self::new(random_sequence_id(), 0)
    }

    /// The following position of the same run.
    pub fn next(&self) -> (r: SequenceIdAndNumber)
        requires
            self.sequence_number < u64::MAX,
        ensures
            r.sequence_id == self.sequence_id,
            r.sequence_number == self.sequence_number + 1,
    {
        Self::new(self.sequence_id, self.sequence_number + 1)
    }

    /// Whether `self` directly follows `previous` in the same run.
    pub fn is_next_in_sequence(&self, previous: &SequenceIdAndNumber) -> (r: bool)
        requires
            previous.sequence_number < u64::MAX,
        ensures
            r == (self.sequence_id == previous.sequence_id
                && self.sequence_number == previous.sequence_number + 1),
    {
        self.sequence_id == previous.sequence_id && self.sequence_number == previous.sequence_number + 1
    }

    /// Moves to the following position of the run.
    pub fn advance(&mut self)
        requires
            old(self).sequence_number < u64::MAX,
        ensures
            final(self).sequence_id == old(self).sequence_id,
            final(self).sequence_number == old(self).sequence_number + 1,
    {
        self.sequence_number = self.sequence_number + 1;
    }

    /// The text `<sid>:<sn>` (the `Display` of the type).
    pub fn to_string(&self) -> (r: String)
        ensures
            r@ == crate::text::decimal_text(self.sequence_id as nat) + seq![':'] + crate::text::decimal_text(
                self.sequence_number as nat,
            ),
    {
        let mut s = String::new();
        push_decimal(&mut s, self.sequence_id);
        crate::text::push_char(&mut s, ':');
        push_decimal(&mut s, self.sequence_number);
        s
    }
}

impl PartialOrd for SequenceIdAndNumber {
    fn partial_cmp(&self, other: &SequenceIdAndNumber) -> (r: Option<Ordering>) {
        if self.sequence_id != other.sequence_id {
            None
        } else if self.sequence_number < other.sequence_number {
            Some(Ordering::Less)
        } else if self.sequence_number == other.sequence_number {
            Some(Ordering::Equal)
        } else {
            Some(Ordering::Greater)
        }
    }
}

impl PartialOrdSpecImpl for SequenceIdAndNumber {
    open spec fn obeys_partial_cmp_spec() -> bool {
        true
    }

    open spec fn partial_cmp_spec(&self, other: &SequenceIdAndNumber) -> Option<Ordering> {
        sequence_order(*self, *other)
    }
}

/// A position `n` that follows `p` compares greater than `p`, a position
/// equals itself, positions of different runs do not compare, and swapping
/// two comparable positions reverses their order.
pub proof fn lemma_sequence_order(p: SequenceIdAndNumber, n: SequenceIdAndNumber, q: SequenceIdAndNumber)
    requires
        n.sequence_id == p.sequence_id,
        n.sequence_number == p.sequence_number + 1,
    ensures
        sequence_order(n, p) == Some(Ordering::Greater),
        sequence_order(p, n) == Some(Ordering::Less),
        sequence_order(p, p) == Some(Ordering::Equal),
        p.sequence_id != q.sequence_id ==> sequence_order(p, q) is None,
        sequence_order(p, q) == Some(Ordering::Less) <==> sequence_order(q, p) == Some(Ordering::Greater),
        sequence_order(p, q) == Some(Ordering::Equal) <==> sequence_order(q, p) == Some(Ordering::Equal),
{
}

} // verus!
