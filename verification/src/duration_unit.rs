//! The duration value: a pair of a 64-bit magnitude and a unit, the grammar
//! that parses one from a string, and its conversions.

use std::time::Duration;

use vstd::prelude::*;
use vstd::string::StrSliceExecFns;
use vstd::string::StringExecFns;

use crate::error::Error;
use crate::text::char_digit_val;
use crate::text::char_is_digit;
use crate::text::digit_val;
use crate::text::is_digit_char;
use crate::time_unit::unit_from_code;
use crate::time_unit::unit_rank;
use crate::time_unit::unit_of_code;
use crate::time_unit::TimeUnit;

verus! {

/// The number a run of ASCII digits denotes in base ten.
pub open spec fn digits_val(s: Seq<char>) -> nat
    decreases s.len(),
{
    if s.len() == 0 {
        0
    } else {
        digits_val(s.drop_last()) * 10 + digit_val(s.last())
    }
}

/// The length of the longest prefix of `s` made of ASCII digits.
pub open spec fn digit_prefix_len(s: Seq<char>) -> int
    decreases s.len(),
{
    if s.len() == 0 || !is_digit_char(s[0]) {
        0
    } else {
        1 + digit_prefix_len(s.subrange(1, s.len() as int))
    }
}

/// The number the digit run of a duration string denotes.
pub open spec fn grammar_value(s: Seq<char>) -> nat {
    digits_val(s.subrange(0, digit_prefix_len(s)))
}

/// The unit that the remainder of a duration string, after its digit run,
/// resolves to under the short codes.
pub open spec fn grammar_unit(s: Seq<char>) -> Option<TimeUnit> {
    unit_of_code(s.subrange(digit_prefix_len(s), s.len() as int))
}

/// Whether `s` matches the duration grammar: one or more ASCII digits
/// immediately followed by exactly one of the eight short unit codes, with
/// no other characters.
pub open spec fn matches_duration_grammar(s: Seq<char>) -> bool {
    digit_prefix_len(s) >= 1 && grammar_unit(s) is Some
}

/// The digit prefix length is the unique split point: it is bounded by the
/// string, everything before it is a digit, and the character at it, if
/// any, is not.
proof fn lemma_digit_prefix_len_bounds(s: Seq<char>)
    ensures
        0 <= digit_prefix_len(s) <= s.len(),
        forall|j: int| 0 <= j < digit_prefix_len(s) ==> is_digit_char(s[j]),
        digit_prefix_len(s) < s.len() ==> !is_digit_char(s[digit_prefix_len(s)]),
    decreases s.len(),
{
    if s.len() == 0 || !is_digit_char(s[0]) {
    } else {
        let t = s.subrange(1, s.len() as int);
        lemma_digit_prefix_len_bounds(t);
        assert forall|j: int| 0 <= j < digit_prefix_len(s) implies is_digit_char(s[j]) by {
            if j > 0 {
                assert(is_digit_char(t[j - 1]));
            }
        }
    }
}

/// Any split point with the properties of the digit prefix is the digit
/// prefix length itself.
proof fn lemma_digit_prefix_len_unique(s: Seq<char>, k: int)
    requires
        0 <= k <= s.len(),
        forall|j: int| 0 <= j < k ==> is_digit_char(s[j]),
        k < s.len() ==> !is_digit_char(s[k]),
    ensures
        digit_prefix_len(s) == k,
    decreases s.len(),
{
    if s.len() == 0 || !is_digit_char(s[0]) {
        assert(k == 0);
    } else {
        let t = s.subrange(1, s.len() as int);
        assert(k >= 1);
        assert forall|j: int| 0 <= j < k - 1 implies is_digit_char(t[j]) by {
            assert(is_digit_char(s[j + 1]));
        }
        lemma_digit_prefix_len_unique(t, k - 1);
    }
}

/// Extending a digit run by one digit multiplies its value by ten and adds
/// the new digit.
proof fn lemma_digits_val_extend(s: Seq<char>, i: int)
    requires
        0 <= i < s.len(),
    ensures
        digits_val(s.subrange(0, i + 1)) == digits_val(s.subrange(0, i)) * 10 + digit_val(s[i]),
{
    let p = s.subrange(0, i + 1);
    assert(p.drop_last() =~= s.subrange(0, i));
    assert(p.last() == s[i]);
}

/// A digit run denotes at least as much as any of its prefixes.
proof fn lemma_digits_val_mono(s: Seq<char>, i: int, k: int)
    requires
        0 <= i <= k <= s.len(),
    ensures
        digits_val(s.subrange(0, i)) <= digits_val(s.subrange(0, k)),
    decreases k - i,
{
    if i < k {
        lemma_digits_val_mono(s, i, k - 1);
        lemma_digits_val_extend(s, k - 1);
    }
}

/// Every short unit code is non-empty and starts with a letter, never with
/// a digit.
proof fn lemma_code_shape(u: Seq<char>)
    requires
        unit_of_code(u) is Some,
    ensures
        u.len() >= 1,
        !is_digit_char(u[0]),
{
    reveal_strlit("ns");
    reveal_strlit("us");
    reveal_strlit("ms");
    reveal_strlit("s");
    reveal_strlit("m");
    reveal_strlit("h");
    reveal_strlit("d");
    reveal_strlit("w");
}

/// Every string made of a non-empty digit run followed by one of the short
/// unit codes matches the grammar, its value is the number the digit run
/// denotes, and its unit is the one the code resolves to.
pub proof fn lemma_valid_duration_str(nd: Seq<char>, u: Seq<char>)
    requires
        nd.len() >= 1,
        forall|j: int| 0 <= j < nd.len() ==> is_digit_char(nd[j]),
        unit_of_code(u) is Some,
    ensures
        matches_duration_grammar(nd + u),
        grammar_value(nd + u) == digits_val(nd),
        grammar_unit(nd + u) == unit_of_code(u),
{
    let s = nd + u;
    lemma_code_shape(u);
    assert forall|j: int| 0 <= j < nd.len() implies is_digit_char(s[j]) by {
        assert(s[j] == nd[j]);
    }
    assert(s[nd.len() as int] == u[0]);
    lemma_digit_prefix_len_unique(s, nd.len() as int);
    assert(s.subrange(0, nd.len() as int) =~= nd);
    assert(s.subrange(nd.len() as int, s.len() as int) =~= u);
}

/// A string matches the grammar exactly when it splits into a non-empty
/// run of ASCII digits followed by one of the eight short unit codes; any
/// other character in the value position, any unknown unit code and any
/// extra character leave it outside the grammar.
pub proof fn lemma_grammar_split(s: Seq<char>)
    ensures
        matches_duration_grammar(s) <==> exists|k: int|
            1 <= k <= s.len() && (forall|j: int| 0 <= j < k ==> is_digit_char(s[j]))
                && #[trigger] unit_of_code(s.subrange(k, s.len() as int)) is Some,
{
    if matches_duration_grammar(s) {
        let k = digit_prefix_len(s);
        lemma_digit_prefix_len_bounds(s);
        assert(1 <= k <= s.len() && (forall|j: int| 0 <= j < k ==> is_digit_char(s[j]))
            && unit_of_code(s.subrange(k, s.len() as int)) is Some);
    }
    if exists|k: int|
        1 <= k <= s.len() && (forall|j: int| 0 <= j < k ==> is_digit_char(s[j]))
            && #[trigger] unit_of_code(s.subrange(k, s.len() as int)) is Some {
        let k = choose|k: int|
            1 <= k <= s.len() && (forall|j: int| 0 <= j < k ==> is_digit_char(s[j]))
                && #[trigger] unit_of_code(s.subrange(k, s.len() as int)) is Some;
        let u = s.subrange(k, s.len() as int);
        lemma_code_shape(u);
        assert(k < s.len());
        assert(s[k] == u[0]);
        lemma_digit_prefix_len_unique(s, k);
    }
}

/// The number of whole seconds a magnitude of `value` in unit `u` denotes:
/// sub-second units divide (truncating), second and larger units multiply
/// by the fixed non-leap factor 1, 60, 3600, 86400 or 604800.
pub open spec fn whole_secs(value: nat, u: TimeUnit) -> nat {
    match u {
        TimeUnit::Nanosecond => value / 1_000_000_000,
        TimeUnit::Microsecond => value / 1_000_000,
        TimeUnit::Millisecond => value / 1_000,
        TimeUnit::Second => value,
        TimeUnit::Minute => value * 60,
        TimeUnit::Hour => value * 3_600,
        TimeUnit::Day => value * 86_400,
        TimeUnit::Week => value * 604_800,
    }
}

/// The nanoseconds left below one second when a magnitude of `value` in
/// unit `u` is split into whole seconds and a remainder; zero for units of
/// a second and above.
pub open spec fn spec_subsec_nanos(value: nat, u: TimeUnit) -> nat {
    match u {
        TimeUnit::Nanosecond => value % 1_000_000_000,
        TimeUnit::Microsecond => (value % 1_000_000) * 1_000,
        TimeUnit::Millisecond => (value % 1_000) * 1_000_000,
        _ => 0,
    }
}

/// The exact number of nanoseconds a magnitude of `value` in unit `u`
/// denotes.
pub open spec fn total_nanos(value: nat, u: TimeUnit) -> nat {
    match u {
        TimeUnit::Nanosecond => value,
        TimeUnit::Microsecond => value * 1_000,
        TimeUnit::Millisecond => value * 1_000_000,
        TimeUnit::Second => value * 1_000_000_000,
        TimeUnit::Minute => value * 60_000_000_000,
        TimeUnit::Hour => value * 3_600_000_000_000,
        TimeUnit::Day => value * 86_400_000_000_000,
        TimeUnit::Week => value * 604_800_000_000_000,
    }
}

/// Scaling both operands of a division by the same factor leaves the
/// quotient unchanged and scales the remainder.
proof fn lemma_scaled_div_mod(v: nat, k: nat, m: nat)
    requires
        k > 0,
        m > 0,
    ensures
        (v * k) / (m * k) == v / m,
        (v * k) % (m * k) == (v % m) * k,
{
    let q = v as int / m as int;
    let r = v as int % m as int;
    vstd::arithmetic::div_mod::lemma_fundamental_div_mod(v as int, m as int);
    vstd::arithmetic::div_mod::lemma_mod_bound(v as int, m as int);
    assert(v as int * k as int == q * (m as int * k as int) + r * k as int) by (nonlinear_arith)
        requires
            v as int == m as int * q + r,
    ;
    assert(r * k < m as int * k as int) by (nonlinear_arith)
        requires
            0 <= r < m as int,
            k as int > 0,
    ;
    vstd::arithmetic::div_mod::lemma_fundamental_div_mod_converse(
        (v * k) as int,
        (m * k) as int,
        q,
        r * k as int,
    );
}

/// Splitting a duration value into whole seconds and sub-second
/// nanoseconds loses nothing: the two parts are exactly the quotient and
/// remainder of its total nanosecond count by one billion.
pub proof fn lemma_nanos_decompose(value: nat, u: TimeUnit)
    ensures
        whole_secs(value, u) == total_nanos(value, u) / 1_000_000_000,
        spec_subsec_nanos(value, u) == total_nanos(value, u) % 1_000_000_000,
        spec_subsec_nanos(value, u) < 1_000_000_000,
{
    match u {
        TimeUnit::Nanosecond => {
        },
        TimeUnit::Microsecond => {
            lemma_scaled_div_mod(value, 1_000, 1_000_000);
        },
        TimeUnit::Millisecond => {
            lemma_scaled_div_mod(value, 1_000_000, 1_000);
        },
        TimeUnit::Second => {
            vstd::arithmetic::div_mod::lemma_fundamental_div_mod_converse(
                (value * 1_000_000_000) as int,
                1_000_000_000,
                value as int,
                0,
            );
        },
        TimeUnit::Minute => {
            assert(value * 60_000_000_000 == (value * 60) * 1_000_000_000 + 0);
            vstd::arithmetic::div_mod::lemma_fundamental_div_mod_converse(
                (value * 60_000_000_000) as int,
                1_000_000_000,
                (value * 60) as int,
                0,
            );
        },
        TimeUnit::Hour => {
            assert(value * 3_600_000_000_000 == (value * 3_600) * 1_000_000_000 + 0);
            vstd::arithmetic::div_mod::lemma_fundamental_div_mod_converse(
                (value * 3_600_000_000_000) as int,
                1_000_000_000,
                (value * 3_600) as int,
                0,
            );
        },
        TimeUnit::Day => {
            assert(value * 86_400_000_000_000 == (value * 86_400) * 1_000_000_000 + 0);
            vstd::arithmetic::div_mod::lemma_fundamental_div_mod_converse(
                (value * 86_400_000_000_000) as int,
                1_000_000_000,
                (value * 86_400) as int,
                0,
            );
        },
        TimeUnit::Week => {
            assert(value * 604_800_000_000_000 == (value * 604_800) * 1_000_000_000 + 0);
            vstd::arithmetic::div_mod::lemma_fundamental_div_mod_converse(
                (value * 604_800_000_000_000) as int,
                1_000_000_000,
                (value * 604_800) as int,
                0,
            );
        },
    }
}

/// The elapsed-time duration made of a whole-second count and a sub-second
/// nanosecond count below one billion.  What such a value holds inside is
/// opaque here; `std::time::Duration::new` determines it from the two
/// arguments alone.
pub uninterp spec fn duration_of(secs: u64, nanos: u32) -> Duration;

/// Relies on `std::time::Duration::new`: it builds the duration of `secs`
/// whole seconds plus `nanos` nanoseconds, determined by the two arguments
/// alone; with `nanos` below one billion there is no carry into the
/// seconds, so the call cannot panic.
#[verifier::external_body]
fn duration_new(secs: u64, nanos: u32) -> (r: Duration)
    requires
        nanos < 1_000_000_000,
    ensures
        r == duration_of(secs, nanos),
{
    Duration::new(secs, nanos)
}

/// An immutable pair of an unsigned 64-bit magnitude and a [`TimeUnit`].
///
/// Equality, hashing and ordering are structural on the pair, not on the
/// real-world duration it denotes: `60` minutes and `1` hour are distinct
/// values.
#[derive(Debug, PartialEq, Eq, Structural, Hash, Clone)]
pub struct DurationUnit {
    value: u64,
    unit: TimeUnit,
}

/// The mathematical content of a [`DurationUnit`]: its magnitude and unit.
pub struct DurationModel {
    pub value: nat,
    pub unit: TimeUnit,
}

impl View for DurationUnit {
    type V = DurationModel;

    closed spec fn view(&self) -> DurationModel {
        DurationModel { value: self.value as nat, unit: self.unit }
    }
}

impl DurationUnit {
    /// Parses a duration string: one or more ASCII digits immediately
    /// followed by one of the short unit codes `ns`, `us`, `ms`, `s`, `m`,
    /// `h`, `d`, `w`, and nothing else.  Long unit aliases, signs, decimal
    /// points, whitespace and compound strings are all rejected with
    /// [`Error::Syntax`], as is a digit run whose value does not fit in 64
    /// bits.
    pub fn from_str(s: &str) -> (r: Result<DurationUnit, Error>)
        ensures
            match r {
                Ok(d) => {
                    &&& matches_duration_grammar(s@)
                    &&& grammar_value(s@) <= u64::MAX
                    &&& d@.value == grammar_value(s@)
                    &&& Some(d@.unit) == grammar_unit(s@)
                },
                Err(e) => {
                    &&& e matches Error::Syntax(_)
                    &&& !(matches_duration_grammar(s@) && grammar_value(s@) <= u64::MAX)
                },
            },
    {
        let n = s.unicode_len();
        let mut k: usize = 0;
        while k < n && char_is_digit(s.get_char(k))
            invariant
                n == s@.len(),
                0 <= k <= n,
                forall|j: int| 0 <= j < k ==> is_digit_char(s@[j]),
            decreases n - k,
        {
            k = k + 1;
        }
        proof {
            lemma_digit_prefix_len_unique(s@, k as int);
        }
        if k == 0 {
            return Err(
                Error::Syntax(
                    String::from_str("Current string is not correct duration unit value"),
                ),
            );
        }
        let mut value: u64 = 0;
        let mut i: usize = 0;
        while i < k
            invariant
                n == s@.len(),
                0 <= i <= k <= n,
                forall|j: int| 0 <= j < k ==> is_digit_char(s@[j]),
                digit_prefix_len(s@) == k,
                value as nat == digits_val(s@.subrange(0, i as int)),
            decreases k - i,
        {
            let c = s.get_char(i);
            let d: u64 = char_digit_val(c);
            proof {
                lemma_digits_val_extend(s@, i as int);
            }
            let next: u64 = match value.checked_mul(10) {
                Some(v10) => match v10.checked_add(d) {
                    Some(v) => v,
                    None => {
                        proof {
                            lemma_digits_val_mono(s@, i + 1, k as int);
                        }
                        return Err(
                            Error::Syntax(
                                String::from_str(
                                    "Duration value does not fit into an unsigned 64-bit integer",
                                ),
                            ),
                        );
                    },
                },
                None => {
                    proof {
                        lemma_digits_val_mono(s@, i + 1, k as int);
                    }
                    return Err(
                        Error::Syntax(
                            String::from_str(
                                "Duration value does not fit into an unsigned 64-bit integer",
                            ),
                        ),
                    );
                },
            };
            value = next;
            i = i + 1;
        }
        let rest = s.substring_char(k, n);
        match unit_from_code(rest) {
            Some(u) => Ok(DurationUnit { value, unit: u }),
            None => Err(
                Error::Syntax(
                    String::from_str("Current string is not correct duration unit value"),
                ),
            ),
        }
    }

    /// Creates a duration value from an explicit magnitude and unit; every
    /// combination is accepted.
    pub fn new(value: u64, unit: TimeUnit) -> (r: DurationUnit)
        ensures
            r@.value == value as nat,
            r@.unit == unit,
    {
        DurationUnit { value, unit }
    }

    /// The unit of this duration value.
    pub fn unit(&self) -> (r: TimeUnit)
        ensures
            r == self@.unit,
    {
        self.unit
    }

    /// The magnitude of this duration value.
    pub fn value(&self) -> (r: u64)
        ensures
            r as nat == self@.value,
    {
        self.value
    }

    /// The number of whole seconds this value denotes; sub-second units
    /// truncate, larger units multiply by their fixed factor.  The caller
    /// must know the product fits in 64 bits; [`Self::checked_as_secs`]
    /// checks instead.
    pub fn as_secs(&self) -> (r: u64)
        requires
            whole_secs(self@.value, self@.unit) <= u64::MAX,
        ensures
            r as nat == whole_secs(self@.value, self@.unit),
    {
        match self.unit {
            TimeUnit::Nanosecond => self.value / 1_000_000_000,
            TimeUnit::Microsecond => self.value / 1_000_000,
            TimeUnit::Millisecond => self.value / 1_000,
            TimeUnit::Second => self.value,
            TimeUnit::Minute => self.value * 60,
            TimeUnit::Hour => self.value * 3_600,
            TimeUnit::Day => self.value * 86_400,
            TimeUnit::Week => self.value * 604_800,
        }
    }

    /// The number of whole seconds this value denotes, or `None` exactly
    /// when the multiplication for a unit of a minute and above overflows
    /// 64 bits.
    pub fn checked_as_secs(&self) -> (r: Option<u64>)
        ensures
            ({
                let ws = whole_secs(self@.value, self@.unit);
                if ws <= u64::MAX {
                    r == Some(ws as u64)
                } else {
                    r is None
                }
            }),
    {
        match self.unit {
            TimeUnit::Nanosecond => Some(self.value / 1_000_000_000),
            TimeUnit::Microsecond => Some(self.value / 1_000_000),
            TimeUnit::Millisecond => Some(self.value / 1_000),
            TimeUnit::Second => Some(self.value),
            TimeUnit::Minute => self.value.checked_mul(60),
            TimeUnit::Hour => self.value.checked_mul(3_600),
            TimeUnit::Day => self.value.checked_mul(86_400),
            TimeUnit::Week => self.value.checked_mul(604_800),
        }
    }

    /// The nanoseconds this value denotes below one whole second.
    pub fn subsec_nanos(&self) -> (r: u32)
        ensures
            r as nat == spec_subsec_nanos(self@.value, self@.unit),
            r < 1_000_000_000,
    {
        match self.unit {
            TimeUnit::Nanosecond => (self.value % 1_000_000_000) as u32,
            TimeUnit::Microsecond => ((self.value % 1_000_000) * 1_000) as u32,
            TimeUnit::Millisecond => ((self.value % 1_000) * 1_000_000) as u32,
            TimeUnit::Second => 0,
            TimeUnit::Minute => 0,
            TimeUnit::Hour => 0,
            TimeUnit::Day => 0,
            TimeUnit::Week => 0,
        }
    }

    /// The elapsed-time duration this value denotes, mapped per unit with
    /// no loss of precision: the result holds exactly
    /// [`total_nanos`] nanoseconds (see [`lemma_nanos_decompose`]).  The
    /// caller must know the whole-second count fits in 64 bits;
    /// [`Self::checked_to_duration`] checks instead.
    pub fn to_duration(&self) -> (r: Duration)
        requires
            whole_secs(self@.value, self@.unit) <= u64::MAX,
        ensures
            r == duration_of(
                whole_secs(self@.value, self@.unit) as u64,
                spec_subsec_nanos(self@.value, self@.unit) as u32,
            ),
    {
        let secs = self.as_secs();
        let nanos = self.subsec_nanos();
        duration_new(secs, nanos)
    }

    /// The elapsed-time duration this value denotes, or `None` exactly
    /// when its whole-second count overflows 64 bits.
    pub fn checked_to_duration(&self) -> (r: Option<Duration>)
        ensures
            ({
                let ws = whole_secs(self@.value, self@.unit);
                let sn = spec_subsec_nanos(self@.value, self@.unit);
                if ws <= u64::MAX {
                    r == Some(duration_of(ws as u64, sn as u32))
                } else {
                    r is None
                }
            }),
    {
        match self.checked_as_secs() {
            Some(_) => Some(self.to_duration()),
            None => None,
        }
    }
}

impl PartialOrd for DurationUnit {
    /// Ordering is structural on the pair — magnitude first, then unit
    /// rank — not on the real-world duration denoted: one hour orders above
    /// sixty minutes.
    fn partial_cmp(&self, other: &DurationUnit) -> (r: Option<core::cmp::Ordering>) {
        if self.value < other.value {
            Some(core::cmp::Ordering::Less)
        } else if self.value > other.value {
            Some(core::cmp::Ordering::Greater)
        } else {
            self.unit.partial_cmp(&other.unit)
        }
    }
}

impl vstd::std_specs::cmp::PartialOrdSpecImpl for DurationUnit {
    open spec fn obeys_partial_cmp_spec() -> bool {
        true
    }

    open spec fn partial_cmp_spec(&self, other: &DurationUnit) -> Option<core::cmp::Ordering> {
        if self@.value < other@.value {
            Some(core::cmp::Ordering::Less)
        } else if self@.value > other@.value {
            Some(core::cmp::Ordering::Greater)
        } else if unit_rank(self@.unit) < unit_rank(other@.unit) {
            Some(core::cmp::Ordering::Less)
        } else if unit_rank(self@.unit) == unit_rank(other@.unit) {
            Some(core::cmp::Ordering::Equal)
        } else {
            Some(core::cmp::Ordering::Greater)
        }
    }
}

/// Parses a duration string and converts it to an elapsed-time duration in
/// one step, exactly as parsing and then converting would; a value whose
/// whole-second count overflows 64 bits is rejected rather than wrapped.
pub fn parse_to_duration(s: &str) -> (r: Result<Duration, Error>)
    ensures
        match r {
            Ok(d) => {
                &&& matches_duration_grammar(s@)
                &&& grammar_value(s@) <= u64::MAX
                &&& grammar_unit(s@) matches Some(u) && whole_secs(grammar_value(s@), u)
                    <= u64::MAX && d == duration_of(
                    whole_secs(grammar_value(s@), u) as u64,
                    spec_subsec_nanos(grammar_value(s@), u) as u32,
                )
            },
            Err(e) => {
                &&& e matches Error::Syntax(_)
                &&& !({
                    &&& matches_duration_grammar(s@)
                    &&& grammar_value(s@) <= u64::MAX
                    &&& grammar_unit(s@) matches Some(u) && whole_secs(grammar_value(s@), u)
                        <= u64::MAX
                })
            },
        },
{
    match DurationUnit::from_str(s) {
        Ok(d) => match d.checked_to_duration() {
            Some(dur) => Ok(dur),
            None => Err(
                Error::Syntax(
                    String::from_str(
                        "Duration in seconds does not fit into an unsigned 64-bit integer",
                    ),
                ),
            ),
        },
        Err(e) => Err(e),
    }
}

} // verus!
