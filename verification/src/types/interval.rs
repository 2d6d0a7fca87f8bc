//! The kline interval: the handful of named sizes, with an open variant for
//! any other channel suffix the exchange may offer.

use vstd::prelude::*;

use crate::text::str_eq;

verus! {

broadcast use vstd::string::group_string_axioms;

/// A kline interval. `Other` carries an interval name the library does not
/// know; its length in seconds is reported as zero.
#[derive(Debug, PartialEq)]
pub enum Interval {
    OneMinute,
    ThreeMinute,
    FiveMinute,
    FifteenMinute,
    OneHour,
    FourHour,
    Other(String),
}

impl Interval {
    /// The length of the interval in seconds; zero for an unknown interval.
    pub open spec fn spec_seconds(&self) -> u64 {
        match self {
            Interval::OneMinute => 60,
            Interval::ThreeMinute => 180,
            Interval::FiveMinute => 300,
            Interval::FifteenMinute => 900,
            Interval::OneHour => 3600,
            Interval::FourHour => 14400,
            Interval::Other(_) => 0,
        }
    }

    /// True when `s` is one of the named interval spellings.
    pub open spec fn spec_is_named(s: Seq<char>) -> bool {
        s == "1m"@ || s == "3m"@ || s == "5m"@ || s == "15m"@ || s == "1h"@ || s == "4h"@
    }

    /// Reads an interval from its spelling; an unknown spelling is kept as
    /// `Other` rather than rejected.
    pub fn from_str_non_strict(s: &str) -> (r: Self)
        ensures
            s@ == "1m"@ ==> r == Interval::OneMinute,
            s@ == "3m"@ ==> r == Interval::ThreeMinute,
            s@ == "5m"@ ==> r == Interval::FiveMinute,
            s@ == "15m"@ ==> r == Interval::FifteenMinute,
            s@ == "1h"@ ==> r == Interval::OneHour,
            s@ == "4h"@ ==> r == Interval::FourHour,
            !Self::spec_is_named(s@) ==> (r matches Interval::Other(t) && t@ == s@),
    {
        proof {
            reveal_strlit("1m");
            reveal_strlit("3m");
            reveal_strlit("5m");
            reveal_strlit("15m");
            reveal_strlit("1h");
            reveal_strlit("4h");
            assert("1m"@ =~= seq!['1', 'm']);
            assert("3m"@ =~= seq!['3', 'm']);
            assert("5m"@ =~= seq!['5', 'm']);
            assert("15m"@ =~= seq!['1', '5', 'm']);
            assert("1h"@ =~= seq!['1', 'h']);
            assert("4h"@ =~= seq!['4', 'h']);
        }
        if str_eq(s, "1m") {
            Interval::OneMinute
        } else if str_eq(s, "3m") {
            Interval::ThreeMinute
        } else if str_eq(s, "5m") {
            Interval::FiveMinute
        } else if str_eq(s, "15m") {
            Interval::FifteenMinute
        } else if str_eq(s, "1h") {
            Interval::OneHour
        } else if str_eq(s, "4h") {
            Interval::FourHour
        } else {
            Interval::Other(s.to_owned())
        }
    }

    /// The length of the interval in seconds; zero for an unknown interval.
    pub fn to_seconds(&self) -> (r: u64)
        ensures
            r == self.spec_seconds(),
    {
        match self {
            Interval::OneMinute => 60,
            Interval::ThreeMinute => 60 * 3,
            Interval::FiveMinute => 60 * 5,
            Interval::FifteenMinute => 60 * 15,
            Interval::OneHour => 60 * 60,
            Interval::FourHour => 60 * 60 * 4,
            Interval::Other(_) => 0,
        }
    }

    /// The length of the interval in milliseconds.
    pub fn to_millis(&self) -> (r: u64)
        ensures
            r == self.spec_seconds() * 1000,
    {
        self.to_seconds() * 1000
    }

    /// The interval's spelling, as it appears in channel names.
    pub fn to_str(&self) -> (r: String)
        ensures
            *self is OneMinute ==> r@ == "1m"@,
            *self is ThreeMinute ==> r@ == "3m"@,
            *self is FiveMinute ==> r@ == "5m"@,
            *self is FifteenMinute ==> r@ == "15m"@,
            *self is OneHour ==> r@ == "1h"@,
            *self is FourHour ==> r@ == "4h"@,
            *self matches Interval::Other(s) ==> r@ == s@,
    {
        match self {
            Interval::OneMinute => "1m".to_owned(),
            Interval::ThreeMinute => "3m".to_owned(),
            Interval::FiveMinute => "5m".to_owned(),
            Interval::FifteenMinute => "15m".to_owned(),
            Interval::OneHour => "1h".to_owned(),
            Interval::FourHour => "4h".to_owned(),
            Interval::Other(s) => s.clone(),
        }
    }
}

} // verus!
