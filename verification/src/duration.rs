//! Spans of time, as updates carry them around.

use vstd::prelude::*;

verus! {

/// A span of time: whole seconds and a fraction below one second, in nanoseconds.
#[derive(Clone, Copy, Debug, PartialEq, Eq, Structural)]
pub struct Duration {
    secs: u64,
    nanos: u32,
}

impl View for Duration {
    type V = (u64, u32);

    /// Whole seconds, and nanoseconds on top of them.
    closed spec fn view(&self) -> (u64, u32) {
        (self.secs, self.nanos)
    }
}

impl Duration {
    #[verifier::type_invariant]
    spec fn below_one_second(self) -> bool {
        self.nanos < 1_000_000_000
    }

    /// A span of `secs` seconds and `nanos` nanoseconds, if the fraction is below one second.
    pub fn new(secs: u64, nanos: u32) -> (span: Option<Duration>)
        ensures
            span is Some <==> nanos < 1_000_000_000,
            span matches Some(d) ==> d@ == (secs, nanos),
    {
        if nanos < 1_000_000_000 {
            Some(Duration { secs, nanos })
        } else {
            None
        }
    }

    /// A span of whole seconds.
    pub fn from_secs(secs: u64) -> (span: Duration)
        ensures
            span@ == (secs, 0u32),
    {
        Duration { secs, nanos: 0 }
    }

    /// The longest span there is.
    pub fn longest() -> (span: Duration)
        ensures
            span@ == (u64::MAX, 999_999_999u32),
    {
        Duration { secs: u64::MAX, nanos: 999_999_999 }
    }

    /// Whole seconds of the span.
    pub fn as_secs(&self) -> (secs: u64)
        ensures
            secs == self@.0,
    {
        self.secs
    }

    /// What the span holds beyond whole seconds, in nanoseconds.
    pub fn subsec_nanos(&self) -> (nanos: u32)
        ensures
            nanos == self@.1,
            nanos < 1_000_000_000,
    {
        proof {
            use_type_invariant(self);
        }
        self.nanos
    }

    /// How the span prints, such as `1.5s` or `30s`.
    pub fn debug_text(&self) -> (text: String)
        ensures
            text@ == duration_debug(self@.0, self@.1),
    {
        proof {
            use_type_invariant(self);
        }
        debug_duration(self.secs, self.nanos)
    }
}

/// What `{:?}` prints for a `std::time::Duration` of `secs` seconds and `nanos` nanoseconds.
pub uninterp spec fn duration_debug(secs: u64, nanos: u32) -> Seq<char>;

/// The `Debug` output of `std::time::Duration`, of the span that `Duration::new` makes of the
/// two arguments.
///
/// The text is a function of the span alone; its shape (a number, a decimal fraction where
/// there is one, and a unit) is not described further here. `Duration::new` panics only where
/// carrying the nanoseconds over would overflow the seconds, which a fraction below one second
/// rules out.
#[verifier::external_body]
fn debug_duration(secs: u64, nanos: u32) -> (text: String)
    requires
        nanos < 1_000_000_000,
    ensures
        text@ == duration_debug(secs, nanos),
{
    format!("{:?}", std::time::Duration::new(secs, nanos))
}

} // verus!
