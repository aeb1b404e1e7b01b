//! The rules at the edge of the channel: what goes to the device for a
//! report, and what a write or a read that the caller made means to a
//! session.  The caller does the writing and the reading.

use vstd::prelude::*;
use crate::error::Error;
use crate::report::{Report, REPORT_SIZE};
use crate::session::Event;

verus! {

/// The report id that precedes every report on its way to the device.
pub const REPORT_ID: u8 = 0x00;

/// Number of bytes written for one report: the report id and the report.
pub const FRAME_SIZE: usize = 33;

/// The bytes to write for a report: the report id, then the report.
pub open spec fn frame_of(report: Seq<u8>) -> Seq<u8> {
    seq![REPORT_ID] + report
}

/// The bytes to write for a report: the report id, then the report.
pub fn frame(report: &Report) -> (bytes: Vec<u8>)
    ensures
        bytes@ == frame_of(report@),
        bytes@.len() == FRAME_SIZE,
{
    let mut bytes: Vec<u8> = Vec::new();
    bytes.push(REPORT_ID);
    let mut i: usize = 0;
    while i < REPORT_SIZE
        invariant
            i <= REPORT_SIZE,
            bytes@ == seq![REPORT_ID] + report@.subrange(0, i as int),
        decreases REPORT_SIZE - i,
    {
        bytes.push(report.byte(i));
        assert(bytes@ =~= seq![REPORT_ID] + report@.subrange(0, i + 1));
        i += 1;
    }
    assert(report@.subrange(0, REPORT_SIZE as int) =~= report@);
    bytes
}

/// The time to wait for a reply, in milliseconds: a time that is not
/// positive means to wait without limit.
pub fn time_limit(milliseconds: i32) -> (limit: Option<i32>)
    ensures
        limit == if milliseconds > 0 {
            Some(milliseconds)
        } else {
            None::<i32>
        },
{
    if milliseconds > 0 {
        Some(milliseconds)
    } else {
        None
    }
}

/// What a write that took `written` bytes of a frame means: the report
/// was sent if the whole frame was taken.
pub fn sent(written: usize) -> (event: Event)
    ensures
        event == if written == FRAME_SIZE {
            Event::Sent
        } else {
            Event::Failed(Error::InvalidReportSize)
        },
{
    if written == FRAME_SIZE {
        Event::Sent
    } else {
        Event::Failed(Error::InvalidReportSize)
    }
}

/// What a read means that put `count` bytes into `buffer` within the time
/// allowed.  No bytes means that the device did not answer in time; a
/// whole report is the reply; anything else is not a report.
pub fn received(buffer: &Vec<u8>, count: usize) -> (event: Event)
    ensures
        count == 0 ==> event == Event::Failed(Error::Timeout),
        count == REPORT_SIZE && buffer@.len() >= REPORT_SIZE ==> event is Reply && event->Reply_0@
            == buffer@.subrange(0, REPORT_SIZE as int),
        count != 0 && !(count == REPORT_SIZE && buffer@.len() >= REPORT_SIZE) ==> event
            == Event::Failed(Error::InvalidReportSize),
{
    if count == 0 {
        return Event::Failed(Error::Timeout);
    }
    if count != REPORT_SIZE || buffer.len() < REPORT_SIZE {
        return Event::Failed(Error::InvalidReportSize);
    }
    let mut bytes: [u8; 32] = [0u8; 32];
    let mut i: usize = 0;
    while i < REPORT_SIZE
        invariant
            i <= REPORT_SIZE <= buffer@.len(),
            forall|j: int| 0 <= j < i ==> bytes@[j] == buffer@[j],
        decreases REPORT_SIZE - i,
    {
        bytes[i] = buffer[i];
        i += 1;
    }
    let report = Report { bytes };
    assert(report@ =~= buffer@.subrange(0, REPORT_SIZE as int));
    Event::Reply(report)
}

} // verus!
