//! Server-level synonyms of topic settings, and the unit conversions some of
//! them need (hours or minutes into milliseconds).
use vstd::prelude::*;

use crate::text::{trim, trimmed_of};

verus! {

/// The decimal digit character for `d < 10`.
pub open spec fn digit_char(d: nat) -> char {
    (48 + d) as char
}

/// The decimal representation of `n`, without sign or leading zeros.
pub open spec fn decimal_of(n: nat) -> Seq<char>
    decreases n,
{
    if n < 10 {
        seq![digit_char(n)]
    } else {
        decimal_of(n / 10).push(digit_char(n % 10))
    }
}

/// Whether every character of `s` is an ASCII decimal digit.
pub open spec fn all_digits(s: Seq<char>) -> bool {
    forall|i: int| 0 <= i < s.len() ==> '0' <= #[trigger] s[i] <= '9'
}

/// The number that a run of decimal digits spells.
pub open spec fn digits_value(s: Seq<char>) -> nat
    decreases s.len(),
{
    if s.len() == 0 {
        0
    } else {
        10 * digits_value(s.drop_last()) + (s.last() as nat - 48) as nat
    }
}

/// The integer that `s` spells as an optional `+` or `-` followed by at least
/// one decimal digit and nothing else.
pub open spec fn parse_integer(s: Seq<char>) -> Option<int> {
    let negative = s.len() > 0 && s[0] == '-';
    let body = if s.len() > 0 && (s[0] == '-' || s[0] == '+') {
        s.drop_first()
    } else {
        s
    };
    if body.len() > 0 && all_digits(body) {
        Some(
            if negative {
                -(digits_value(body) as int)
            } else {
                digits_value(body) as int
            },
        )
    } else {
        None
    }
}

/// What `i32::from_str` accepts: an integer in the `i32` range.
pub open spec fn parse_i32(s: Seq<char>) -> Option<i32> {
    match parse_integer(s) {
        Some(v) => if i32::MIN <= v <= i32::MAX {
            Some(v as i32)
        } else {
            None
        },
        None => None,
    }
}

/// Relies on `i32::from_str` (`str::parse::<i32>`), whose accepted syntax its
/// documentation gives: an optional sign and decimal digits, in range. On
/// failure the error's text comes back.
#[verifier::external_body]
pub(crate) fn parse_i32_exec(s: &str) -> (r: Result<i32, String>)
    ensures
        r matches Ok(v) ==> parse_i32(s@) == Some(v),
        r is Err ==> parse_i32(s@) is None,
{
    match s.parse::<i32>() {
        Ok(v) => Ok(v),
        Err(e) => Err(e.to_string()),
    }
}

/// Relies on `u128::to_string`: the decimal representation of the value.
#[verifier::external_body]
fn u128_to_string(n: u128) -> (r: String)
    ensures
        r@ == decimal_of(n as nat),
{
    n.to_string()
}

/// The integer a trimmed setting holds, or `default_value` when it is empty
/// or not an `i32`.
pub open spec fn spec_value_to_int(trimmed: Seq<char>, default_value: i32) -> i32 {
    if trimmed.len() == 0 {
        default_value
    } else {
        match parse_i32(trimmed) {
            Some(v) => v,
            None => default_value,
        }
    }
}

/// Milliseconds in `count` units of `unit_seconds` seconds. The count is
/// taken as a `u64` (two's complement for negatives) and the product of
/// seconds wraps at 64 bits.
pub open spec fn millis_of(count: i32, unit_seconds: u64) -> nat {
    (((count as u64) as nat * unit_seconds as nat) % 0x1_0000_0000_0000_0000) * 1000
}

/// The integer a setting holds once trimmed, or `default_value`.
fn value_to_int(input: &str, default_value: i32) -> (r: i32)
    ensures
        r == spec_value_to_int(trimmed_of(input@), default_value),
{
    trimmed_value_to_int(trim(input), default_value)
}

/// The integer an already trimmed setting holds, or `default_value` when it
/// is empty or not an `i32`.
pub fn trimmed_value_to_int(trimmed: &str, default_value: i32) -> (r: i32)
    ensures
        r == spec_value_to_int(trimmed@, default_value),
{
    if trimmed.is_empty() {
        return default_value;
    }
    match parse_i32_exec(trimmed) {
        Ok(v) => v,
        Err(_) => default_value,
    }
}

/// The milliseconds in `count` units of `unit_seconds` seconds, in decimal.
pub fn milliseconds_string(count: i32, unit_seconds: u64) -> (r: String)
    ensures
        r@ == decimal_of(millis_of(count, unit_seconds)),
{
    #[verifier::truncate]
    let widened = count as u64;
    let seconds: u64 = widened.wrapping_mul(unit_seconds);
    let millis: u128 = seconds as u128 * 1000;
    u128_to_string(millis)
}

/// Converts a setting in hours into milliseconds, in decimal.
pub fn hours_to_milliseconds(input: String) -> (r: String)
    ensures
        r@ == decimal_of(millis_of(spec_value_to_int(trimmed_of(input@), 0), 3600)),
{
    milliseconds_string(value_to_int(input.as_str(), 0), 3600)
}

/// Converts a setting in minutes into milliseconds, in decimal.
pub fn minutes_to_milliseconds(input: String) -> (r: String)
    ensures
        r@ == decimal_of(millis_of(spec_value_to_int(trimmed_of(input@), 0), 60)),
{
    milliseconds_string(value_to_int(input.as_str(), 0), 60)
}

/// How a synonym's value is turned into the unit of the setting it stands for.
#[derive(Debug, Clone, Copy, PartialEq, Eq, Structural)]
pub enum Converter {
    /// The value is taken as it is.
    Identity,
    /// The value counts hours; milliseconds are wanted.
    HoursToMilliseconds,
    /// The value counts minutes; milliseconds are wanted.
    MinutesToMilliseconds,
}

impl Converter {
    /// What converting `input` gives.
    pub open spec fn spec_apply(self, input: Seq<char>) -> Seq<char> {
        match self {
            Converter::Identity => input,
            Converter::HoursToMilliseconds => decimal_of(
                millis_of(spec_value_to_int(trimmed_of(input), 0), 3600),
            ),
            Converter::MinutesToMilliseconds => decimal_of(
                millis_of(spec_value_to_int(trimmed_of(input), 0), 60),
            ),
        }
    }

    /// Converts a synonym's value.
    pub fn apply(&self, input: String) -> (r: String)
        ensures
            r@ == self.spec_apply(input@),
    {
        match self {
            Converter::Identity => input,
            Converter::HoursToMilliseconds => hours_to_milliseconds(input),
            Converter::MinutesToMilliseconds => minutes_to_milliseconds(input),
        }
    }
}

/// A synonym for a configuration, with the conversion its value needs.
#[derive(Debug, Clone)]
pub struct ConfigSynonym {
    name: String,
    converter: Converter,
}

impl ConfigSynonym {
    /// The synonym's configuration name.
    pub closed spec fn spec_name(&self) -> Seq<char> {
        self.name@
    }

    /// The synonym's conversion.
    pub closed spec fn spec_converter(&self) -> Converter {
        self.converter
    }

    /// A synonym with a specific name and converter.
    pub fn new(name: String, converter: Converter) -> (r: Self)
        ensures
            r.spec_name() == name@,
            r.spec_converter() == converter,
    {
        ConfigSynonym { name, converter }
    }

    /// A synonym whose value needs no conversion.
    pub fn new_identity(name: String) -> (r: Self)
        ensures
            r.spec_name() == name@,
            r.spec_converter() == Converter::Identity,
    {
        ConfigSynonym { name, converter: Converter::Identity }
    }

    /// The name of the synonym.
    pub fn name(&self) -> (r: &str)
        ensures
            r@ == self.spec_name(),
    {
        self.name.as_str()
    }

    /// The synonym's converter.
    pub fn converter(&self) -> (r: &Converter)
        ensures
            *r == self.spec_converter(),
    {
        &self.converter
    }

    /// Gives up the synonym, keeping its converter.
    pub fn own_converter(self) -> (r: Converter)
        ensures
            r == self.spec_converter(),
    {
        self.converter
    }
}

} // verus!
