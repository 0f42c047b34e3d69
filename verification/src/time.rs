use vstd::prelude::*;

verus! {

/// Seconds in seven days.
pub const WEEK_SECONDS: i64 = 604800;

/// A point in time: seconds since the Unix epoch together with a
/// subsecond offset in nanoseconds.
#[derive(Clone, Copy, PartialEq, Eq, Structural, Debug)]
pub struct Timestamp {
    pub seconds: i64,
    pub nanos: u32,
}

/// `a` lies strictly earlier than `b`.
pub open spec fn is_before(a: Timestamp, b: Timestamp) -> bool {
    a.seconds < b.seconds || (a.seconds == b.seconds && a.nanos < b.nanos)
}

impl Timestamp {
    pub fn new(seconds: i64, nanos: u32) -> (t: Timestamp)
        ensures
            t.seconds == seconds,
            t.nanos == nanos,
    {
        Timestamp { seconds, nanos }
    }

    /// Whether `self` lies strictly earlier than `other`.
    pub fn earlier_than(&self, other: &Timestamp) -> (r: bool)
        ensures
            r == is_before(*self, *other),
    {
        self.seconds < other.seconds || (self.seconds == other.seconds && self.nanos < other.nanos)
    }
}

/// Relies on chrono's `Local::now`, `DateTime::timestamp` and
/// `DateTime::timestamp_subsec_nanos`: the subsecond count stays below two
/// billion (a value of one billion or more stands for a leap second).
#[verifier::external_body]
fn now() -> (t: Timestamp)
    ensures
        t.nanos < 2_000_000_000,
{
    let current = chrono::Local::now();
    Timestamp { seconds: current.timestamp(), nanos: current.timestamp_subsec_nanos() }
}

/// The timestamp one week before `t`, saturating at the smallest
/// representable second count.
pub fn week_before(t: Timestamp) -> (r: Timestamp)
    ensures
        r.nanos == t.nanos,
        r.seconds == if t.seconds - WEEK_SECONDS >= i64::MIN {
            t.seconds - WEEK_SECONDS
        } else {
            i64::MIN as int
        },
{
    match t.seconds.checked_sub(WEEK_SECONDS) {
        Some(s) => Timestamp { seconds: s, nanos: t.nanos },
        None => Timestamp { seconds: i64::MIN, nanos: t.nanos },
    }
}

/// The timestamp one week before the present moment, for restricting a
/// query to the last seven days.
pub fn one_week_ago() -> (r: Timestamp)
    ensures
        r.nanos < 2_000_000_000,
{
    week_before(now())
}

} // verus!
