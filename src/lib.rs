//! Daily lab attendance: classifies the day's check-ins against a cutoff and
//! renders the presence report posted to the lab channel.
use vstd::prelude::*;

pub mod clock;
pub mod classify;
pub mod report;
pub mod laws;
pub mod source;

use crate::classify::{absent_names, classify, late_names, Entry};
use crate::clock::TimeOfDay;
use crate::report::{render, report_text, ReportDate};

verus! {

/// What a run of the attendance job is configured with: the channel the
/// report goes to and the time of day after which a check-in is late.
#[derive(Clone, Copy, Debug, PartialEq, Eq, Structural)]
pub struct LabConfig {
    pub channel_id: u64,
    pub cutoff_hour: u32,
    pub cutoff_minute: u32,
}

impl LabConfig {
    pub fn new(channel_id: u64, cutoff_hour: u32, cutoff_minute: u32) -> (r: LabConfig)
        ensures
            r == (LabConfig { channel_id, cutoff_hour, cutoff_minute }),
    {
        LabConfig { channel_id, cutoff_hour, cutoff_minute }
    }

    /// The cutoff, on the minute.
    pub fn cutoff(&self) -> (r: TimeOfDay)
        ensures
            r == (TimeOfDay { hour: self.cutoff_hour, minute: self.cutoff_minute, second: 0 }),
    {
        TimeOfDay::new(self.cutoff_hour, self.cutoff_minute, 0)
    }
}

/// The day's presence report: the records sorted against the roster and the
/// cutoff, then rendered for `date` over the roster's size.
pub fn attendance_report(
    members: &Vec<Entry>,
    attendance: &Vec<Entry>,
    cutoff: &TimeOfDay,
    date: &ReportDate,
) -> (r: String)
    requires
        date.wf(),
    ensures
        r@ == report_text(
            absent_names(members@, attendance@),
            late_names(members@, attendance@, *cutoff),
            members@.len() as int,
            *date,
        ),
{
    let c = classify(members, attendance, cutoff);
    render(&c.absent, &c.late, members.len(), date)
}

} // verus!
