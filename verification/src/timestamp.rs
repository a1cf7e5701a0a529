//! Points in time as the history table stores them.

use vstd::prelude::*;

verus! {

/// The text that chrono prints for the UTC date and time lying `seconds` whole
/// seconds and `nanos` nanoseconds after the Unix epoch, or `None` where chrono
/// has no such date and time.
pub uninterp spec fn utc_text(seconds: i64, nanos: u32) -> Option<Seq<char>>;

/// Calls `chrono::DateTime::from_timestamp` and prints what it returns with the
/// `Display` of `chrono::DateTime<chrono::Utc>`. Both depend on the two numbers
/// alone; the contract gives the outcome its name and claims nothing else.
#[verifier::external_body]
fn render_utc(seconds: i64, nanos: u32) -> (text: Option<String>)
    ensures
        utc_text(seconds, nanos) == match text {
            Some(s) => Some(s@),
            None => None,
        },
{
    match chrono::DateTime::from_timestamp(seconds, nanos) {
        Some(moment) => Some(moment.to_string()),
        None => None,
    }
}

/// A UTC date and time that can be printed.
#[derive(Debug, Clone, Copy, PartialEq, Eq)]
pub struct Timestamp {
    seconds: i64,
    nanos: u32,
}

impl Timestamp {
    #[verifier::type_invariant]
    spec fn printable(self) -> bool {
        utc_text(self.seconds, self.nanos) is Some
    }

    /// Whole seconds since the Unix epoch.
    pub closed spec fn unix_seconds(self) -> i64 {
        self.seconds
    }

    /// Nanoseconds past the whole second.
    pub closed spec fn subsec_nanos(self) -> u32 {
        self.nanos
    }

    /// How the timestamp reads in a report.
    pub open spec fn text(self) -> Seq<char> {
        utc_text(self.unix_seconds(), self.subsec_nanos()).unwrap()
    }

    /// The timestamp `seconds` and `nanos` after the Unix epoch, where chrono
    /// can represent it.
    pub fn from_unix(seconds: i64, nanos: u32) -> (made: Option<Timestamp>)
        ensures
            made is Some <==> utc_text(seconds, nanos) is Some,
            made matches Some(t) ==> t.unix_seconds() == seconds && t.subsec_nanos() == nanos,
    {
        match render_utc(seconds, nanos) {
            Some(_) => Some(Timestamp { seconds, nanos }),
            None => None,
        }
    }

    pub fn seconds(&self) -> (s: i64)
        ensures
            s == self.unix_seconds(),
    {
        self.seconds
    }

    pub fn nanos(&self) -> (n: u32)
        ensures
            n == self.subsec_nanos(),
    {
        self.nanos
    }

    /// Prints the timestamp, as `2015-05-15 00:00:00 UTC`.
    pub fn to_text(&self) -> (s: String)
        ensures
            s@ == self.text(),
    {
        proof {
            use_type_invariant(self);
        }
        match render_utc(self.seconds, self.nanos) {
            Some(s) => s,
            None => String::new(),
        }
    }
}

} // verus!
