//! Lengths of time.

use vstd::prelude::*;

verus! {

/// A length of time, in whole seconds and the nanoseconds left over.
#[derive(Debug, Clone, Copy, PartialEq, Eq)]
pub struct TimeSpan {
    seconds: u64,
    nanos: u32,
}

/// How `std::time::Duration`'s `Debug` writes a length of time.
pub uninterp spec fn span_text(seconds: u64, nanos: u32) -> Seq<char>;

/// Formats a length of time with `std::time::Duration`'s `Debug`, such as `30s` or `1.5s`.
#[verifier::external_body]
fn write_span(seconds: u64, nanos: u32) -> (r: String)
    requires
        nanos < 1_000_000_000,
    ensures
        r@ == span_text(seconds, nanos),
{
    format!("{:?}", std::time::Duration::new(seconds, nanos))
}

impl TimeSpan {
    #[verifier::type_invariant]
    closed spec fn well_formed(self) -> bool {
        self.nanos < 1_000_000_000
    }

    /// The whole seconds.
    pub closed spec fn whole_seconds(self) -> u64 {
        self.seconds
    }

    /// The nanoseconds beyond the whole seconds.
    pub closed spec fn left_over(self) -> u32 {
        self.nanos
    }

    /// The length in nanoseconds.
    pub open spec fn in_nanos(self) -> nat {
        (self.whole_seconds() * 1_000_000_000 + self.left_over()) as nat
    }

    /// A length of whole seconds.
    pub fn from_secs(seconds: u64) -> (r: TimeSpan)
        ensures
            r.whole_seconds() == seconds,
            r.left_over() == 0,
    {
        TimeSpan { seconds, nanos: 0 }
    }

    /// A length of whole milliseconds.
    pub fn from_millis(millis: u64) -> (r: TimeSpan)
        ensures
            r.in_nanos() == millis * 1_000_000,
            r.left_over() < 1_000_000_000,
    {
        TimeSpan { seconds: millis / 1000, nanos: (millis % 1000) as u32 * 1_000_000 }
    }

    /// A length of seconds and nanoseconds; `None` where the nanoseconds make up a second.
    pub fn from_parts(seconds: u64, nanos: u32) -> (r: Option<TimeSpan>)
        ensures
            nanos >= 1_000_000_000 ==> r is None,
            nanos < 1_000_000_000 ==> (r matches Some(t) && t.whole_seconds() == seconds
                && t.left_over() == nanos),
    {
        if nanos < 1_000_000_000 {
            Some(TimeSpan { seconds, nanos })
        } else {
            None
        }
    }

    /// The whole seconds.
    pub fn secs(&self) -> (r: u64)
        ensures
            r == self.whole_seconds(),
    {
        self.seconds
    }

    /// The nanoseconds beyond the whole seconds.
    pub fn subsec_nanos(&self) -> (r: u32)
        ensures
            r == self.left_over(),
            r < 1_000_000_000,
    {
        proof {
            use_type_invariant(self);
        }
        self.nanos
    }

    /// Whether this is as long as `other`, or longer.
    pub fn reaches(&self, other: &TimeSpan) -> (r: bool)
        ensures
            r == (self.in_nanos() >= other.in_nanos()),
    {
        proof {
            use_type_invariant(self);
            use_type_invariant(other);
        }
        self.seconds > other.seconds || (self.seconds == other.seconds && self.nanos >= other.nanos)
    }

    /// The length in words, such as `30s`.
    pub fn to_string(&self) -> (r: String)
        ensures
            r@ == span_text(self.whole_seconds(), self.left_over()),
    {
        proof {
            use_type_invariant(self);
        }
        write_span(self.seconds, self.nanos)
    }
}

} // verus!
