//! Conversion of a duration value to chrono's calendar-duration type.
//!
//! The mapping goes through a signed 64-bit intermediate, so values whose
//! whole-second count exceeds chrono's range fail rather than wrap.

use vstd::prelude::*;

use crate::duration_unit::spec_subsec_nanos;
use crate::duration_unit::whole_secs;
use crate::duration_unit::DurationUnit;

verus! {

#[verifier::external_type_specification]
#[verifier::external_body]
pub struct ExTimeDelta(chrono::TimeDelta);

/// Whether a non-negative pair of whole seconds and sub-second nanoseconds
/// lies within the range of `chrono::TimeDelta`, which spans at most
/// `i64::MAX` milliseconds: 9_223_372_036_854_775 whole seconds plus
/// 807 milliseconds.
pub open spec fn time_delta_in_bounds(secs: int, nanos: int) -> bool {
    &&& 0 <= nanos < 1_000_000_000
    &&& 0 <= secs <= 9_223_372_036_854_775
    &&& (secs == 9_223_372_036_854_775 ==> nanos <= 807_000_000)
}

/// The calendar duration of `secs` whole seconds plus `nanos` nanoseconds.
/// What such a value holds inside is opaque here; `chrono::TimeDelta::new`
/// determines it from the two arguments alone.
pub uninterp spec fn time_delta_of(secs: i64, nanos: u32) -> chrono::TimeDelta;

/// Relies on `chrono::TimeDelta::new`: for a non-negative number of
/// seconds it returns `Some` of the span determined by the two arguments
/// alone exactly when the pair is within `TimeDelta`'s range, and `None`
/// otherwise; it never panics.
#[verifier::external_body]
fn time_delta_new(secs: i64, nanos: u32) -> (r: Option<chrono::TimeDelta>)
    requires
        secs >= 0,
    ensures
        r == if time_delta_in_bounds(secs as int, nanos as int) {
            Some(time_delta_of(secs, nanos))
        } else {
            None::<chrono::TimeDelta>
        },
{
    chrono::TimeDelta::new(secs, nanos)
}

impl DurationUnit {
    /// The calendar duration this value denotes, split into whole seconds
    /// and sub-second nanoseconds per unit as [`Self::as_secs`] and
    /// [`Self::subsec_nanos`] do, or `None` exactly when that span is
    /// outside `chrono::TimeDelta`'s range.
    pub fn to_time_delta(&self) -> (r: Option<chrono::TimeDelta>)
        ensures
            ({
                let ws = whole_secs(self@.value, self@.unit);
                let sn = spec_subsec_nanos(self@.value, self@.unit);
                if time_delta_in_bounds(ws as int, sn as int) {
                    r == Some(time_delta_of(ws as i64, sn as u32))
                } else {
                    r is None
                }
            }),
    {
        match self.checked_as_secs() {
            None => None,
            Some(secs) => {
                if secs > 9_223_372_036_854_775u64 {
                    None
                } else {
                    let nanos = self.subsec_nanos();
                    time_delta_new(secs as i64, nanos)
                }
            },
        }
    }
}

} // verus!
