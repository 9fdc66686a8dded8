//! Parsing and conversion of human-readable duration strings.
//!
//! A duration string such as `"10s"`, `"500ms"` or `"1w"` is a run of ASCII
//! digits followed by one of eight short unit codes.  Parsing yields a
//! [`DurationUnit`], a pair of a 64-bit magnitude and a [`TimeUnit`], which
//! can then be converted to a count of whole seconds, to a
//! `std::time::Duration`, or to a `chrono::TimeDelta`.

mod calendar;
mod duration_unit;
mod text;
mod time_unit;

pub mod error;

pub use calendar::time_delta_in_bounds;
pub use calendar::time_delta_of;
pub use duration_unit::digit_prefix_len;
pub use duration_unit::digits_val;
pub use duration_unit::duration_of;
pub use duration_unit::grammar_unit;
pub use duration_unit::grammar_value;
pub use duration_unit::lemma_grammar_split;
pub use duration_unit::lemma_nanos_decompose;
pub use duration_unit::lemma_valid_duration_str;
pub use duration_unit::matches_duration_grammar;
pub use duration_unit::parse_to_duration;
pub use duration_unit::spec_subsec_nanos;
pub use duration_unit::total_nanos;
pub use duration_unit::whole_secs;
pub use duration_unit::DurationModel;
pub use duration_unit::DurationUnit;
pub use text::char_digit_val;
pub use text::char_is_digit;
pub use text::digit_val;
pub use text::is_digit_char;
pub use text::str_eq;
pub use time_unit::lemma_unit_order;
pub use time_unit::unit_from_code;
pub use time_unit::unit_of_code;
pub use time_unit::unit_of_token;
pub use time_unit::unit_rank;
pub use time_unit::TimeUnit;
