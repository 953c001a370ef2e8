//! Points in time as plain values.

use vstd::prelude::*;
use vstd::string::StringExecFns;

use crate::text::{decimal, push_decimal, push_signed_decimal, signed_decimal};

verus! {

/// A point in time: whole seconds since the Unix epoch and the nanoseconds
/// into that second. Timestamps are ordered by their seconds, then by their
/// nanoseconds.
#[derive(Debug, Clone, Copy, PartialEq, Eq, Structural, PartialOrd, Ord, Hash)]
pub struct Timestamp {
    pub secs: i64,
    pub nanos: u32,
}

impl Timestamp {
    pub fn new(secs: i64, nanos: u32) -> (t: Timestamp)
        ensures
            t == (Timestamp { secs, nanos }),
    {
        Timestamp { secs, nanos }
    }

    /// `self` is not later than `other`.
    pub open spec fn at_or_before(&self, other: &Timestamp) -> bool {
        self.secs < other.secs || (self.secs == other.secs && self.nanos <= other.nanos)
    }

    /// Whether `self` is not later than `other`.
    pub fn is_at_or_before(&self, other: &Timestamp) -> (b: bool)
        ensures
            b == self.at_or_before(other),
    {
        self.secs < other.secs || (self.secs == other.secs && self.nanos <= other.nanos)
    }

    /// The text shown for a point in time: the seconds, a dot, the
    /// nanoseconds.
    pub open spec fn text(&self) -> Seq<char> {
        signed_decimal(self.secs as int) + "."@ + decimal(self.nanos as nat)
    }

    /// The text shown for this point in time.
    pub fn to_text(&self) -> (text: String)
        ensures
            text@ == self.text(),
    {
        let mut text = String::new();
        push_signed_decimal(&mut text, self.secs);
        text.append(".");
        push_decimal(&mut text, self.nanos as u64);
        assert(text@ =~= self.text());
        text
    }

    /// The clock's reading is taken by `chrono::Utc::now`, of which nothing is
    /// claimed: two readings may be equal or lie in either order.
    #[verifier::external_body]
    pub(crate) fn now() -> Timestamp {
        let now = chrono::Utc::now();
        Timestamp { secs: now.timestamp(), nanos: now.timestamp_subsec_nanos() }
    }
}

} // verus!
