//! Failures and the three-way outcome of an operation.

use vstd::prelude::*;

verus! {

/// Why an operation could not be carried out.
#[derive(Clone, Copy, Debug, PartialEq, Eq)]
pub enum Error {
    /// No attached interface has the requested vendor id, product id and
    /// usage page.
    DeviceNotFound,
    /// The operating system refused access to the device.
    PermissionDenied,
    /// The channel failed while sending or receiving.
    Io,
    /// The device did not answer within the time allowed.
    Timeout,
    /// A buffer that had to have the report size, or to fit within it,
    /// does not.
    InvalidReportSize,
    /// The command does not exist in the protocol version the keyboard
    /// speaks.
    UnsupportedProtocol { version: u16 },
    /// The transfer needs a byte offset that the two offset bytes of a
    /// report cannot hold.
    AddressOutOfRange,
    /// More macro bytes were given than the keyboard's macro buffer holds.
    BufferOverflow { capacity: u16, actual: usize },
    /// A round trip after the first of a multi-report transfer was
    /// rejected; `completed` round trips had already been applied.
    PartialTransfer { completed: usize },
    /// An event was reported that the session was not waiting for.
    OutOfSequence,
}

/// How an operation ended: with a result, with the keyboard declining the
/// command, or with a failure to carry it out.
#[derive(Clone, Debug, PartialEq, Eq)]
pub enum Outcome<T> {
    /// The keyboard answered; the decoded result.
    Success(T),
    /// The keyboard answered with another command id than the one sent:
    /// it understood the framing and declined.
    Rejected,
    /// The operation could not be carried out.
    Failed(Error),
}

impl<T: View> View for Outcome<T> {
    type V = Outcome<T::V>;

    open spec fn view(&self) -> Outcome<T::V> {
        match *self {
            Outcome::Success(v) => Outcome::Success(v@),
            Outcome::Rejected => Outcome::Rejected,
            Outcome::Failed(e) => Outcome::Failed(e),
        }
    }
}

} // verus!
