//! The closed set of time granularities, their textual aliases, and their
//! total order.

use vstd::prelude::*;
use vstd::std_specs::cmp::PartialOrdSpec;
use vstd::string::StringExecFns;

use crate::error::Error;
use crate::text::str_eq;

verus! {

/// A granularity of time, from nanoseconds up to fixed-length (non-leap)
/// weeks.
#[derive(Debug, PartialEq, Eq, Structural, Hash, Clone, Copy)]
pub enum TimeUnit {
    Nanosecond,
    Microsecond,
    Millisecond,
    Second,
    Minute,
    Hour,
    Day,
    Week,
}

/// The position of a unit in the granularity order: nanoseconds first,
/// weeks last.
pub open spec fn unit_rank(u: TimeUnit) -> int {
    match u {
        TimeUnit::Nanosecond => 0,
        TimeUnit::Microsecond => 1,
        TimeUnit::Millisecond => 2,
        TimeUnit::Second => 3,
        TimeUnit::Minute => 4,
        TimeUnit::Hour => 5,
        TimeUnit::Day => 6,
        TimeUnit::Week => 7,
    }
}

/// The unit a token resolves to under the full alias table: for each unit
/// its short code and every long form, matched exactly and case-sensitively.
pub open spec fn unit_of_token(t: Seq<char>) -> Option<TimeUnit> {
    if t == "ns"@ || t == "nanosecond"@ || t == "nanos"@ || t == "nanoseconds"@ {
        Some(TimeUnit::Nanosecond)
    } else if t == "us"@ || t == "microsecond"@ || t == "micros"@ || t == "microseconds"@ {
        Some(TimeUnit::Microsecond)
    } else if t == "ms"@ || t == "millisecond"@ || t == "millis"@ || t == "milliseconds"@ {
        Some(TimeUnit::Millisecond)
    } else if t == "s"@ || t == "second"@ || t == "secs"@ || t == "seconds"@ {
        Some(TimeUnit::Second)
    } else if t == "m"@ || t == "minute"@ || t == "mins"@ || t == "minutes"@ {
        Some(TimeUnit::Minute)
    } else if t == "h"@ || t == "hour"@ || t == "hours"@ {
        Some(TimeUnit::Hour)
    } else if t == "d"@ || t == "day"@ || t == "days"@ {
        Some(TimeUnit::Day)
    } else if t == "w"@ || t == "week"@ || t == "weeks"@ {
        Some(TimeUnit::Week)
    } else {
        None
    }
}

/// The unit a token resolves to under the short codes alone; this is the
/// only form the duration grammar accepts after the digits.
pub open spec fn unit_of_code(t: Seq<char>) -> Option<TimeUnit> {
    if t == "ns"@ {
        Some(TimeUnit::Nanosecond)
    } else if t == "us"@ {
        Some(TimeUnit::Microsecond)
    } else if t == "ms"@ {
        Some(TimeUnit::Millisecond)
    } else if t == "s"@ {
        Some(TimeUnit::Second)
    } else if t == "m"@ {
        Some(TimeUnit::Minute)
    } else if t == "h"@ {
        Some(TimeUnit::Hour)
    } else if t == "d"@ {
        Some(TimeUnit::Day)
    } else if t == "w"@ {
        Some(TimeUnit::Week)
    } else {
        None
    }
}

impl TimeUnit {
    /// Resolves a token against the full alias table, case-sensitively and
    /// with no surrounding whitespace; an unrecognized token fails with
    /// [`Error::UnitNotSupported`] carrying a message that names it.
    pub fn from_str(s: &str) -> (r: Result<TimeUnit, Error>)
        ensures
            match r {
                Ok(u) => unit_of_token(s@) == Some(u),
                Err(e) => {
                    &&& unit_of_token(s@) is None
                    &&& e matches Error::UnitNotSupported(m) && m@ == "Unit '"@ + s@
                        + "' not supported"@
                },
            },
    {
        if str_eq(s, "ns") || str_eq(s, "nanosecond") || str_eq(s, "nanos")
            || str_eq(s, "nanoseconds") {
            Ok(TimeUnit::Nanosecond)
        } else if str_eq(s, "us") || str_eq(s, "microsecond") || str_eq(s, "micros")
            || str_eq(s, "microseconds") {
            Ok(TimeUnit::Microsecond)
        } else if str_eq(s, "ms") || str_eq(s, "millisecond") || str_eq(s, "millis")
            || str_eq(s, "milliseconds") {
            Ok(TimeUnit::Millisecond)
        } else if str_eq(s, "s") || str_eq(s, "second") || str_eq(s, "secs")
            || str_eq(s, "seconds") {
            Ok(TimeUnit::Second)
        } else if str_eq(s, "m") || str_eq(s, "minute") || str_eq(s, "mins")
            || str_eq(s, "minutes") {
            Ok(TimeUnit::Minute)
        } else if str_eq(s, "h") || str_eq(s, "hour") || str_eq(s, "hours") {
            Ok(TimeUnit::Hour)
        } else if str_eq(s, "d") || str_eq(s, "day") || str_eq(s, "days") {
            Ok(TimeUnit::Day)
        } else if str_eq(s, "w") || str_eq(s, "week") || str_eq(s, "weeks") {
            Ok(TimeUnit::Week)
        } else {
            let mut m = String::from_str("Unit '");
            m.append(s);
            m.append("' not supported");
            Err(Error::UnitNotSupported(m))
        }
    }

    /// The position of this unit in the granularity order.
    pub fn rank(&self) -> (r: u8)
        ensures
            r as int == unit_rank(*self),
    {
        match self {
            TimeUnit::Nanosecond => 0,
            TimeUnit::Microsecond => 1,
            TimeUnit::Millisecond => 2,
            TimeUnit::Second => 3,
            TimeUnit::Minute => 4,
            TimeUnit::Hour => 5,
            TimeUnit::Day => 6,
            TimeUnit::Week => 7,
        }
    }
}

/// Resolves a token against the short codes alone.
pub fn unit_from_code(t: &str) -> (r: Option<TimeUnit>)
    ensures
        r == unit_of_code(t@),
{
    if str_eq(t, "ns") {
        Some(TimeUnit::Nanosecond)
    } else if str_eq(t, "us") {
        Some(TimeUnit::Microsecond)
    } else if str_eq(t, "ms") {
        Some(TimeUnit::Millisecond)
    } else if str_eq(t, "s") {
        Some(TimeUnit::Second)
    } else if str_eq(t, "m") {
        Some(TimeUnit::Minute)
    } else if str_eq(t, "h") {
        Some(TimeUnit::Hour)
    } else if str_eq(t, "d") {
        Some(TimeUnit::Day)
    } else if str_eq(t, "w") {
        Some(TimeUnit::Week)
    } else {
        None
    }
}

impl PartialOrd for TimeUnit {
    /// Units compare by granularity: the comparison of two units is the
    /// comparison of their ranks.
    fn partial_cmp(&self, other: &TimeUnit) -> (r: Option<core::cmp::Ordering>) {
        let a = self.rank();
        let b = other.rank();
        if a < b {
            Some(core::cmp::Ordering::Less)
        } else if a == b {
            Some(core::cmp::Ordering::Equal)
        } else {
            Some(core::cmp::Ordering::Greater)
        }
    }
}

impl vstd::std_specs::cmp::PartialOrdSpecImpl for TimeUnit {
    open spec fn obeys_partial_cmp_spec() -> bool {
        true
    }

    open spec fn partial_cmp_spec(&self, other: &TimeUnit) -> Option<core::cmp::Ordering> {
        if unit_rank(*self) < unit_rank(*other) {
            Some(core::cmp::Ordering::Less)
        } else if unit_rank(*self) == unit_rank(*other) {
            Some(core::cmp::Ordering::Equal)
        } else {
            Some(core::cmp::Ordering::Greater)
        }
    }
}

/// The total order on units follows physical granularity:
/// `Nanosecond < Microsecond < Millisecond < Second < Minute < Hour < Day
/// < Week`, and in general one unit is below another exactly when its rank
/// is smaller.
pub proof fn lemma_unit_order()
    ensures
        forall|a: TimeUnit, b: TimeUnit|
            #[trigger] a.partial_cmp_spec(&b) == Some(core::cmp::Ordering::Less) <==> unit_rank(a)
                < unit_rank(b),
        TimeUnit::Nanosecond.partial_cmp_spec(&TimeUnit::Microsecond) == Some(
            core::cmp::Ordering::Less,
        ),
        TimeUnit::Microsecond.partial_cmp_spec(&TimeUnit::Millisecond) == Some(
            core::cmp::Ordering::Less,
        ),
        TimeUnit::Millisecond.partial_cmp_spec(&TimeUnit::Second) == Some(
            core::cmp::Ordering::Less,
        ),
        TimeUnit::Second.partial_cmp_spec(&TimeUnit::Minute) == Some(core::cmp::Ordering::Less),
        TimeUnit::Minute.partial_cmp_spec(&TimeUnit::Hour) == Some(core::cmp::Ordering::Less),
        TimeUnit::Hour.partial_cmp_spec(&TimeUnit::Day) == Some(core::cmp::Ordering::Less),
        TimeUnit::Day.partial_cmp_spec(&TimeUnit::Week) == Some(core::cmp::Ordering::Less),
{
}

} // verus!
