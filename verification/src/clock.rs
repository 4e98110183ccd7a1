//! Trusted access to the wall clock.  Nothing can be promised about what
//! time it is, so the contracts state only the documented field ranges.

use vstd::prelude::*;

use chrono::{Datelike, Timelike};
use std::time::{SystemTime, UNIX_EPOCH};

verus! {

/// One reading of the local wall clock, broken into plain fields.
#[derive(Clone, Copy, Debug)]
pub struct TimeFields {
    pub year: u16,
    pub month: u16,
    pub day: u16,
    pub hour: u16,
    pub minute: u16,
    pub second: u16,
    pub millis: u16,
    /// The microseconds within the current second.
    pub micros: u32,
}

impl TimeFields {
    /// The ranges chrono documents for the calendar and clock accessors.
    pub open spec fn wf(self) -> bool {
        &&& 1 <= self.month <= 12
        &&& 1 <= self.day <= 31
        &&& self.hour < 24
        &&& self.minute < 60
        &&& self.second < 60
        &&& self.millis < 2000
        &&& self.micros < 2000000
    }
}

/// Relies on chrono::Local::now and its Datelike/Timelike accessors: month
/// runs from 1 to 12 and day from 1 to 31; hour, minute and second lie below
/// 24, 60 and 60; timestamp_subsec_millis and timestamp_subsec_micros lie
/// below 2000 and 2000000 (the excess over one second encodes a leap
/// second).  Which instant comes back cannot be stated.
#[verifier::external_body]
pub fn now_local() -> (r: TimeFields)
    ensures
        r.wf(),
{
    let now = chrono::Local::now();
    TimeFields {
        year: now.year() as u16,
        month: now.month() as u16,
        day: now.day() as u16,
        hour: now.hour() as u16,
        minute: now.minute() as u16,
        second: now.second() as u16,
        millis: now.timestamp_subsec_millis() as u16,
        micros: now.timestamp_subsec_micros(),
    }
}

/// Relies on std::time::SystemTime::now, measured from the Unix epoch in
/// whole seconds; a clock before the epoch reads as zero.  Which instant
/// comes back cannot be stated.
#[verifier::external_body]
pub fn now_secs() -> u64 {
    match SystemTime::now().duration_since(UNIX_EPOCH) {
        Ok(d) => d.as_secs(),
        Err(_) => 0,
    }
}

/// Relies on std::time::SystemTime::now, measured from the Unix epoch in
/// whole milliseconds; a clock before the epoch reads as zero.  Which
/// instant comes back cannot be stated.
#[verifier::external_body]
pub fn now_msecs() -> u128 {
    match SystemTime::now().duration_since(UNIX_EPOCH) {
        Ok(d) => d.as_millis(),
        Err(_) => 0,
    }
}

} // verus!
