//! Sets of days of the week, numbered as in ISO 8601 (1 = Monday, 7 = Sunday).
use vstd::prelude::*;
use crate::text::{decimal_text, push_decimal};

verus! {

/// Whether `d` numbers a day of the week.
pub open spec fn is_iso_weekday(d: u8) -> bool {
    1 <= d <= 7
}

/// Why a list of days was refused.
#[derive(Debug, Clone, Copy, PartialEq, Eq, Structural)]
pub enum DaysOfWeekError {
    /// The first value that is not in 1..=7.
    InvalidDay(u8),
}

impl DaysOfWeekError {
    /// The human-readable text of the error.
    pub fn message(&self) -> (r: String)
        ensures
            r@ == match self {
                DaysOfWeekError::InvalidDay(d) => "invalid day of week: "@ + decimal_text(*d as nat)
                    + " (must be 1-7, ISO 8601: 1=Monday, 7=Sunday)"@,
            },
    {
        match self {
            DaysOfWeekError::InvalidDay(d) => {
                let mut m = String::from_str("invalid day of week: ");
                push_decimal(&mut m, *d as u64);
                m.append(" (must be 1-7, ISO 8601: 1=Monday, 7=Sunday)");
                m
            },
        }
    }
}

/// Days of the week; every value lies in 1..=7.
#[derive(Debug)]
pub struct DaysOfWeek(Vec<u8>);

impl Clone for DaysOfWeek {
    fn clone(&self) -> (r: Self)
        ensures
            r@ == self@,
    {
        proof {
            use_type_invariant(self);
        }
        let v = self.0.clone();
        assert(v@ =~= self.0@);
        DaysOfWeek(v)
    }
}

impl View for DaysOfWeek {
    type V = Seq<u8>;

    closed spec fn view(&self) -> Seq<u8> {
        self.0@
    }
}

impl DaysOfWeek {
    #[verifier::type_invariant]
    spec fn all_valid(self) -> bool {
        forall|i: int| 0 <= i < self.0@.len() ==> is_iso_weekday(#[trigger] self.0@[i])
    }

    /// Every day held is in 1..=7.
    pub fn check_valid(&self)
        ensures
            forall|i: int| 0 <= i < self@.len() ==> is_iso_weekday(#[trigger] self@[i]),
    {
        proof {
            use_type_invariant(self);
        }
    }

    /// Creates a set of days, refusing the first value outside 1..=7.
    pub fn new(days: Vec<u8>) -> (r: Result<DaysOfWeek, DaysOfWeekError>)
        ensures
            (forall|i: int| 0 <= i < days@.len() ==> is_iso_weekday(#[trigger] days@[i]))
                ==> (r matches Ok(d) && d@ == days@),
            (exists|i: int| 0 <= i < days@.len() && !is_iso_weekday(#[trigger] days@[i]))
                ==> r matches Err(DaysOfWeekError::InvalidDay(_)),
            r matches Err(DaysOfWeekError::InvalidDay(bad)) ==> exists|i: int|
                0 <= i < days@.len() && days@[i] == bad && !is_iso_weekday(bad)
                && forall|j: int| 0 <= j < i ==> is_iso_weekday(#[trigger] days@[j]),
    {
        let mut i: usize = 0;
        while i < days.len()
            invariant
                i <= days.len(),
                forall|j: int| 0 <= j < i ==> is_iso_weekday(#[trigger] days@[j]),
            decreases days.len() - i,
        {
            let d = days[i];
            if d < 1 || d > 7 {
                return Err(DaysOfWeekError::InvalidDay(d));
            }
            i = i + 1;
        }
        Ok(DaysOfWeek(days))
    }

    /// The days as a slice.
    pub fn as_slice(&self) -> (r: &[u8])
        ensures
            r@ == self@,
    {
        self.0.as_slice()
    }

    /// The days as a vector.
    pub fn into_vec(self) -> (r: Vec<u8>)
        ensures
            r@ == self@,
    {
        self.0
    }

    /// Whether `day` is one of the days.
    pub fn contains(&self, day: u8) -> (r: bool)
        ensures
            r == self@.contains(day),
    {
        let mut i: usize = 0;
        while i < self.0.len()
            invariant
                i <= self.0@.len(),
                forall|j: int| 0 <= j < i ==> self.0@[j] != day,
            decreases self.0.len() - i,
        {
            if self.0[i] == day {
                assert(self.0@[i as int] == day);
                return true;
            }
            i = i + 1;
        }
        false
    }

    /// Monday through Friday.
    pub fn weekdays() -> (r: DaysOfWeek)
        ensures
            r@ == seq![1u8, 2u8, 3u8, 4u8, 5u8],
    {
        let v: Vec<u8> = vec![1, 2, 3, 4, 5];
        assert(v@ =~= seq![1u8, 2u8, 3u8, 4u8, 5u8]);
        DaysOfWeek(v)
    }

    /// Saturday and Sunday.
    pub fn weekends() -> (r: DaysOfWeek)
        ensures
            r@ == seq![6u8, 7u8],
    {
        let v: Vec<u8> = vec![6, 7];
        assert(v@ =~= seq![6u8, 7u8]);
        DaysOfWeek(v)
    }

    /// Every day of the week.
    pub fn all() -> (r: DaysOfWeek)
        ensures
            r@ == seq![1u8, 2u8, 3u8, 4u8, 5u8, 6u8, 7u8],
    {
        let v: Vec<u8> = vec![1, 2, 3, 4, 5, 6, 7];
        assert(v@ =~= seq![1u8, 2u8, 3u8, 4u8, 5u8, 6u8, 7u8]);
        DaysOfWeek(v)
    }
}

} // verus!
