//! Bit-exact decoding of the sensor's 2- and 4-byte register frames.
//!
//! Byte 0 carries the two-bit status in its top bits and the high six bits
//! of the 14-bit pressure below them; byte 1 is the low pressure byte.  In a
//! 4-byte frame, byte 2 is the high eight bits of the 11-bit temperature and
//! the top three bits of byte 3 are its low bits; the rest of byte 3 is
//! padding.  Decoding is a pure function of the frame bytes.

use vstd::prelude::*;
use crate::status::Status;

verus! {

/// Fields decoded from one 4-byte register frame.
#[derive(Copy, Clone, Debug, PartialEq, Eq, Structural)]
pub struct Output {
    /// Status from the top two bits of byte 0.
    pub status: Status,
    /// 14-bit raw pressure count.
    pub pressure: u16,
    /// 11-bit raw temperature count; zero when the frame carries none.
    pub temperature: u16,
}

/// The status field: the top two bits of the frame's first byte.
pub open spec fn spec_status_bits(b0: u8) -> u8 {
    b0 / 64
}

/// The 14-bit raw pressure: the low six bits of byte 0, then byte 1.
pub open spec fn spec_raw_pressure(b0: u8, b1: u8) -> int {
    (b0 % 64) * 256 + b1
}

/// The 11-bit raw temperature: byte 2, then the top three bits of byte 3.
pub open spec fn spec_raw_temperature(b2: u8, b3: u8) -> int {
    b2 * 8 + b3 / 32
}

/// What a 2-byte frame decodes to: (status bits, raw pressure).
pub open spec fn spec_decode_pressure(b0: u8, b1: u8) -> (u8, u16) {
    (spec_status_bits(b0), spec_raw_pressure(b0, b1) as u16)
}

/// What a 4-byte frame decodes to.
pub open spec fn spec_decode_output(b0: u8, b1: u8, b2: u8, b3: u8) -> Output {
    Output {
        status: Status::spec_from_bits(spec_status_bits(b0)),
        pressure: spec_raw_pressure(b0, b1) as u16,
        temperature: spec_raw_temperature(b2, b3) as u16,
    }
}

/// Decode a 2-byte pressure frame into its status bits and raw pressure.
pub fn decode_pressure(buffer: &[u8; 2]) -> (r: (u8, u16))
    ensures
        r == spec_decode_pressure(buffer[0], buffer[1]),
        r.0 == buffer[0] >> 6u8,
        r.0 < 4,
        r.1 == ((buffer[0] & 0x3f) as u16) << 8u16 | buffer[1] as u16,
        r.1 < 0x4000,
{
    let b0: u8 = buffer[0];
    let b1: u8 = buffer[1];
    let status_bits: u8 = b0 >> 6;
    let pressure: u16 = ((b0 & 0x3f) as u16) << 8 | (b1 as u16);
    proof {
        assert(b0 >> 6 == b0 / 64 && b0 >> 6 < 4) by (bit_vector);
        assert(((b0 & 0x3f) as u16) << 8 | (b1 as u16) == ((b0 % 64) as u16) * 256 + (b1 as u16))
            by (bit_vector);
    }
    (status_bits, pressure)
}

/// Decode a 4-byte frame into status, raw pressure and raw temperature.
pub fn decode_pressure_and_temperature(buffer: &[u8; 4]) -> (r: Output)
    ensures
        r == spec_decode_output(buffer[0], buffer[1], buffer[2], buffer[3]),
        r.pressure < 0x4000,
        r.temperature < 0x800,
{
    let b0: u8 = buffer[0];
    let b1: u8 = buffer[1];
    let b2: u8 = buffer[2];
    let b3: u8 = buffer[3];
    let status_bits: u8 = b0 >> 6;
    let pressure: u16 = ((b0 & 0x3f) as u16) << 8 | (b1 as u16);
    let temperature: u16 = ((b2 as u16) << 3) | ((b3 >> 5) as u16);
    proof {
        assert(b0 >> 6 == b0 / 64 && b0 >> 6 < 4) by (bit_vector);
        assert(((b0 & 0x3f) as u16) << 8 | (b1 as u16) == ((b0 % 64) as u16) * 256 + (b1 as u16))
            by (bit_vector);
        assert(((b2 as u16) << 3) | ((b3 >> 5) as u16) == (b2 as u16) * 8 + (b3 as u16) / 32)
            by (bit_vector);
    }
    Output { status: Status::from_bits(status_bits), pressure, temperature }
}

/// Law: decoding is pure, with no hidden state.  Any two decodes of equal
/// frame bytes yield the same (status, pressure, temperature) triple,
/// because every decode equals `spec_decode_output` of its bytes alone.
pub proof fn lemma_decode_deterministic(a: [u8; 4], b: [u8; 4], r1: Output, r2: Output)
    requires
        a@ == b@,
        r1 == spec_decode_output(a[0], a[1], a[2], a[3]),
        r2 == spec_decode_output(b[0], b[1], b[2], b[3]),
    ensures
        r1 == r2,
{
    assert(a[0] == a@[0] && a[1] == a@[1] && a[2] == a@[2] && a[3] == a@[3]);
    assert(b[0] == b@[0] && b[1] == b@[1] && b[2] == b@[2] && b[3] == b@[3]);
}

/// Law: the same, for the 2-byte pressure frame.
pub proof fn lemma_decode_pressure_deterministic(a: [u8; 2], b: [u8; 2], r1: (u8, u16), r2: (u8, u16))
    requires
        a@ == b@,
        r1 == spec_decode_pressure(a[0], a[1]),
        r2 == spec_decode_pressure(b[0], b[1]),
    ensures
        r1 == r2,
{
    assert(a[0] == a@[0] && a[1] == a@[1]);
    assert(b[0] == b@[0] && b[1] == b@[1]);
}

} // verus!
