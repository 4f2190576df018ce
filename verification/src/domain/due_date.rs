//! The time by which a task is due.

use chrono::DateTime;
use vstd::prelude::*;

verus! {

/// The first second that a due date can name: midnight before January 1 of
/// the year -262143.
pub const FIRST_SECOND: i64 = -8_334_601_228_800;

/// The last second that a due date can name: the one before midnight after
/// December 31 of the year 262142.
pub const LAST_SECOND: i64 = 8_210_266_876_799;

/// A point in time, in UTC: whole seconds since the start of 1970, leap
/// seconds not counted, and the nanoseconds past that second. This is the
/// model of a `DueDate`.
pub struct UtcInstant {
    pub secs: i64,
    pub nanos: u32,
}

impl UtcInstant {
    /// Whether the pair names an instant of the calendar. The nanoseconds stay
    /// under one second, except within the last second of a minute, where up
    /// to one more second of them stands for a leap second.
    pub open spec fn exists_in_calendar(self) -> bool {
        &&& FIRST_SECOND <= self.secs <= LAST_SECOND
        &&& (self.nanos < 1_000_000_000 || (self.nanos < 2_000_000_000 && self.secs % 60 == 59))
    }
}

/// The text that chrono's `Display` gives the UTC date and time at `secs`
/// seconds and `nanos` nanoseconds since the start of 1970, such as
/// `2015-05-15 00:00:00 UTC`.
pub uninterp spec fn utc_text(secs: i64, nanos: u32) -> Seq<char>;

/// Calls `chrono::DateTime::from_timestamp` and renders what it returns with
/// the `Display` impl of `DateTime<Utc>`. The contract claims that
/// `from_timestamp` accepts exactly the seconds of the years -262143 to 262142
/// with nanoseconds under one second, or under two within the last second of a
/// minute, and that the text depends on the two numbers alone.
#[verifier::external_body]
fn render_utc(secs: i64, nanos: u32) -> (text: Option<String>)
    ensures
        text is Some <==> (UtcInstant { secs, nanos }).exists_in_calendar(),
        text matches Some(t) ==> t@ == utc_text(secs, nanos),
{
    match DateTime::from_timestamp(secs, nanos) {
        Some(at) => Some(at.to_string()),
        None => None,
    }
}

/// The second within its minute, 0 to 59, of the second `secs`.
fn second_of_minute(secs: i64) -> (second: i64)
    requires
        FIRST_SECOND <= secs <= LAST_SECOND,
    ensures
        second == secs % 60,
{
    // `FIRST_SECOND` is the start of a minute.
    (secs - FIRST_SECOND) % 60
}

/// The time by which a task is due: an instant of the calendar, in UTC.
#[derive(Debug, Clone, Copy, PartialEq, Eq)]
pub struct DueDate {
    secs: i64,
    nanos: u32,
}

impl View for DueDate {
    type V = UtcInstant;

    closed spec fn view(&self) -> UtcInstant {
        UtcInstant { secs: self.secs, nanos: self.nanos }
    }
}

impl DueDate {
    #[verifier::type_invariant]
    spec fn well_formed(self) -> bool {
        self@.exists_in_calendar()
    }

    /// The due date at `secs` seconds and `nanos` nanoseconds since the start
    /// of 1970, where that is an instant of the calendar.
    pub fn new(secs: i64, nanos: u32) -> (r: Option<Self>)
        ensures
            match r {
                Some(due) => due@ == (UtcInstant { secs, nanos }) && due@.exists_in_calendar(),
                None => !(UtcInstant { secs, nanos }).exists_in_calendar(),
            },
    {
        if secs < FIRST_SECOND || secs > LAST_SECOND {
            return None;
        }
        if nanos >= 2_000_000_000 || (nanos >= 1_000_000_000 && second_of_minute(secs) != 59) {
            return None;
        }
        Some(Self { secs, nanos })
    }

    /// Whole seconds since the start of 1970.
    pub fn timestamp(&self) -> (secs: i64)
        ensures
            secs == self@.secs,
            self@.exists_in_calendar(),
    {
        proof {
            use_type_invariant(self);
        }
        self.secs
    }

    /// Nanoseconds past the whole second.
    pub fn timestamp_subsec_nanos(&self) -> (nanos: u32)
        ensures
            nanos == self@.nanos,
            self@.exists_in_calendar(),
    {
        proof {
            use_type_invariant(self);
        }
        self.nanos
    }

    /// The date and time as text.
    pub fn to_string(&self) -> (text: String)
        ensures
            text@ == utc_text(self@.secs, self@.nanos),
    {
        proof {
            use_type_invariant(self);
        }
        match render_utc(self.secs, self.nanos) {
            Some(text) => text,
            // Not reached: a due date is an instant of the calendar.
            None => String::new(),
        }
    }
}

} // verus!
