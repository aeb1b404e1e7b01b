//! The fixed-size report, the unit of exchange in both directions.

use vstd::prelude::*;
use crate::error::Error;

verus! {

/// Number of bytes in every report.
pub const REPORT_SIZE: usize = 32;

/// Number of framing bytes in a buffer transfer: the command id, the two
/// offset bytes and the length byte.
pub const BUFFER_HEADER: usize = 4;

/// Number of data bytes one buffer transfer carries: the report size less
/// the framing.
pub const CHUNK_SIZE: usize = 28;

/// Number of keycodes one buffer transfer carries.
pub const KEYCODES_PER_CHUNK: usize = 14;

/// One report: exactly [`REPORT_SIZE`] bytes.
#[derive(Clone, Copy, Debug, PartialEq, Eq)]
pub struct Report {
    pub bytes: [u8; 32],
}

impl View for Report {
    type V = Seq<u8>;

    open spec fn view(&self) -> Seq<u8> {
        self.bytes@
    }
}

/// `payload` followed by zero bytes up to the report size.
pub open spec fn framed(payload: Seq<u8>) -> Seq<u8> {
    Seq::new(
        REPORT_SIZE as nat,
        |i: int|
            if i < payload.len() {
                payload[i]
            } else {
                0u8
            },
    )
}

impl Report {
    /// The report of zero bytes.
    pub fn zeroed() -> (report: Report)
        ensures
            report@ == framed(Seq::<u8>::empty()),
    {
        let report = Report { bytes: [0u8; 32] };
        assert(report@ =~= framed(Seq::<u8>::empty()));
        report
    }

    /// Frames a payload for sending: the payload, then zero bytes up to the
    /// report size.  A payload longer than a report is refused.
    pub fn frame(payload: &Vec<u8>) -> (framed_payload: Result<Report, Error>)
        ensures
            payload@.len() <= REPORT_SIZE ==> framed_payload is Ok && framed_payload->Ok_0@
                == framed(payload@),
            payload@.len() > REPORT_SIZE ==> framed_payload == Err::<Report, Error>(
                Error::InvalidReportSize,
            ),
    {
        if payload.len() > REPORT_SIZE {
            return Err(Error::InvalidReportSize);
        }
        let mut bytes: [u8; 32] = [0u8; 32];
        let mut i: usize = 0;
        while i < payload.len()
            invariant
                i <= payload@.len() <= REPORT_SIZE,
                forall|j: int| 0 <= j < i ==> bytes@[j] == payload@[j],
                forall|j: int| i <= j < REPORT_SIZE ==> bytes@[j] == 0u8,
            decreases payload@.len() - i,
        {
            bytes[i] = payload[i];
            i += 1;
        }
        let report = Report { bytes };
        assert(report@ =~= framed(payload@));
        Ok(report)
    }

    /// Takes a buffer as a report.  Only a buffer of exactly the report
    /// size is one.
    pub fn from_bytes(bytes: &Vec<u8>) -> (report: Result<Report, Error>)
        ensures
            bytes@.len() == REPORT_SIZE ==> report is Ok && report->Ok_0@ == bytes@,
            bytes@.len() != REPORT_SIZE ==> report == Err::<Report, Error>(
                Error::InvalidReportSize,
            ),
    {
        if bytes.len() != REPORT_SIZE {
            return Err(Error::InvalidReportSize);
        }
        let framed_bytes = Report::frame(bytes);
        match framed_bytes {
            Ok(report) => {
                assert(report@ =~= bytes@);
                Ok(report)
            },
            Err(e) => Err(e),
        }
    }

    /// The bytes of the report as a vector.
    pub fn to_vec(&self) -> (bytes: Vec<u8>)
        ensures
            bytes@ == self@,
    {
        self.window(0, REPORT_SIZE)
    }

    /// The byte at position `at`.
    pub fn byte(&self, at: usize) -> (b: u8)
        requires
            at < REPORT_SIZE,
        ensures
            b == self@[at as int],
    {
        self.bytes[at]
    }

    /// The `len` bytes that start at position `start`.
    pub fn window(&self, start: usize, len: usize) -> (bytes: Vec<u8>)
        requires
            start + len <= REPORT_SIZE,
        ensures
            bytes@ == self@.subrange(start as int, start + len),
    {
        let mut bytes: Vec<u8> = Vec::new();
        let mut i: usize = 0;
        while i < len
            invariant
                i <= len,
                start + len <= REPORT_SIZE,
                bytes@ == self@.subrange(start as int, start + i),
            decreases len - i,
        {
            bytes.push(self.bytes[start + i]);
            assert(bytes@ =~= self@.subrange(start as int, start + i + 1));
            i += 1;
        }
        bytes
    }
}

} // verus!
