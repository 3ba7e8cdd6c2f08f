//! Inclusive ranges of ISO dates.

use vstd::prelude::*;
use vstd::utf8::encode_utf8;
use crate::text::{lex_lt, str_lt};

verus! {

/// Dates from `start` to `end`, both inclusive, compared as strings.
#[derive(Debug, Clone, PartialEq)]
pub struct DateRange {
    pub start: String,
    pub end: String,
}

/// `date` lies within `start` and `end` in string order.
pub open spec fn in_range(start: Seq<char>, end: Seq<char>, date: Seq<char>) -> bool {
    !lex_lt(encode_utf8(date), encode_utf8(start)) && !lex_lt(encode_utf8(end), encode_utf8(date))
}

impl DateRange {
    /// Makes a range.
    pub fn new(start: String, end: String) -> (r: DateRange)
        ensures
            r == (DateRange { start, end }),
    {
        DateRange { start, end }
    }

    /// The first date.
    pub fn start(&self) -> (r: &str)
        ensures
            r@ == self.start@,
    {
        self.start.as_str()
    }

    /// The last date.
    pub fn end(&self) -> (r: &str)
        ensures
            r@ == self.end@,
    {
        self.end.as_str()
    }

    /// Whether `date` lies within the range, both ends included.
    pub fn contains(&self, date: &str) -> (r: bool)
        ensures
            r == in_range(self.start@, self.end@, date@),
    {
        !str_lt(date, self.start.as_str()) && !str_lt(self.end.as_str(), date)
    }
}

} // verus!
