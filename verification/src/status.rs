//! The sensor's two-bit status field and the error taxonomy of a read.

use vstd::prelude::*;

verus! {

/// Status reported in the top two bits of the first byte of every register
/// frame.  Exactly these four values exist; the field is two bits wide.
#[derive(Copy, Clone, Debug, PartialEq, Eq, Structural)]
pub enum Status {
    /// Fresh data; the reading is usable.
    Valid,
    /// Device is in command/configuration mode; the reading is unusable.
    Command,
    /// Data not refreshed since the last read; retry after the sampling
    /// interval has elapsed.
    Stale,
    /// Device reports an internal fault.
    Diagnostic,
}

impl Status {
    /// The status a status field denotes.  Only the low two bits are
    /// consulted, so every byte maps to one of the four variants.
    pub open spec fn spec_from_bits(bits: u8) -> Status {
        if bits % 4 == 0 {
            Status::Valid
        } else if bits % 4 == 1 {
            Status::Command
        } else if bits % 4 == 2 {
            Status::Stale
        } else {
            Status::Diagnostic
        }
    }

    /// Total conversion from decoded status bits.  It never panics: the two
    /// low bits select the variant and any wider value is reduced first.
    pub fn from_bits(bits: u8) -> (r: Status)
        ensures
            r == Status::spec_from_bits(bits),
    {
        let low: u8 = bits % 4;
        if low == 0 {
            Status::Valid
        } else if low == 1 {
            Status::Command
        } else if low == 2 {
            Status::Stale
        } else {
            Status::Diagnostic
        }
    }
}

/// Hard (non-transient) errors of a read.  `Other` propagates the bus's own
/// error verbatim; the remaining variants mirror the two unusable statuses.
#[derive(Copy, Clone, Debug)]
pub enum ApbError<E> {
    /// The underlying bus transaction failed.
    Other(E),
    /// The sensor answered in command/configuration mode ([`Status::Command`]).
    ErrorCommandMode,
    /// The sensor reports an internal fault ([`Status::Diagnostic`]).
    ErrorDiagnosticState,
}

/// Every outcome a read can take short of a delivered value.
#[derive(Copy, Clone, Debug)]
pub enum ReadError<E> {
    /// A hard error; see [`ApbError`].
    Other(ApbError<E>),
    /// Transient outcome for [`Status::Stale`]: the measurement is not ready
    /// yet and the caller should retry after a pacing delay.
    WouldBlock,
    /// The part number declares no thermometer, so a combined
    /// pressure-and-temperature read is rejected before any bus traffic.
    NoThermometer,
}

} // verus!
