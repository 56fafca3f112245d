//! The driver: owns the bus and delay capabilities and a calibration
//! [`Config`], and turns register frames into gated, converted readings.
//!
//! The bus and the millisecond delay are capabilities the host implements;
//! the driver itself performs no waiting and no retrying.  A stale reading
//! surfaces as the transient [`ReadError::WouldBlock`] outcome and the
//! caller paces its own retry, using the delay capability if it wants to.

use vstd::prelude::*;
use crate::convert::Scaled;
use crate::frame::{decode_pressure, decode_pressure_and_temperature};
use crate::frame::{spec_raw_pressure, spec_status_bits};
use crate::part_number::{parse, spec_parse, Config, PartNumberError};
use crate::status::{ApbError, ReadError, Status};

verus! {

/// Blocking byte-oriented bus read capability, keyed by a 7-bit address.
/// The host implements it; the driver promises nothing about the bytes a
/// read hands back and is verified for every possible frame.
pub trait Bus {
    /// The bus's own transport error.
    type Error;

    /// Blocking read of a 2-byte register frame from the device at `address`.
    fn read2(&mut self, address: u8) -> Result<[u8; 2], Self::Error>;

    /// Blocking read of a 4-byte register frame from the device at `address`.
    fn read4(&mut self, address: u8) -> Result<[u8; 4], Self::Error>;
}

/// Blocking millisecond delay capability, for power-up and sleep-wake
/// pacing by the caller; the decode and convert path never invokes it.
pub trait DelayMillis {
    /// Block for `ms` milliseconds.
    fn delay_ms(&mut self, ms: u16);
}

/// The converted pressure a valid frame delivers.
pub open spec fn spec_pressure_value(cfg: Config, b0: u8, b1: u8) -> Scaled {
    Scaled {
        num: cfg.spec_pressure_num(spec_raw_pressure(b0, b1) as u16) as i64,
        den: cfg.p_span() as u64,
    }
}

/// The outcome the status state machine assigns to a 2-byte frame: deliver
/// the converted value on `Valid`, report `Stale` as the transient
/// would-block outcome, and report `Command` and `Diagnostic` as distinct
/// hard errors.
pub open spec fn spec_pressure_outcome<E>(cfg: Config, b0: u8, b1: u8) -> Result<
    Scaled,
    ReadError<E>,
> {
    match Status::spec_from_bits(spec_status_bits(b0)) {
        Status::Valid => Ok(spec_pressure_value(cfg, b0, b1)),
        Status::Command => Err(ReadError::Other(ApbError::ErrorCommandMode)),
        Status::Stale => Err(ReadError::WouldBlock),
        Status::Diagnostic => Err(ReadError::Other(ApbError::ErrorDiagnosticState)),
    }
}

/// Gate a decoded 2-byte frame on its status and convert the reading.
/// Exhaustive over every frame: the outcome is exactly
/// [`spec_pressure_outcome`] of the two bytes.
pub fn evaluate_pressure_frame<E>(cfg: &Config, buffer: &[u8; 2]) -> (r: Result<
    Scaled,
    ReadError<E>,
>)
    requires
        cfg.wf(),
    ensures
        r == spec_pressure_outcome::<E>(*cfg, buffer[0], buffer[1]),
{
    let (status_bits, pressure) = decode_pressure(buffer);
    match Status::from_bits(status_bits) {
        Status::Valid => Ok(cfg.convert_pressure(pressure)),
        Status::Command => Err(ReadError::Other(ApbError::ErrorCommandMode)),
        Status::Stale => Err(ReadError::WouldBlock),
        Status::Diagnostic => Err(ReadError::Other(ApbError::ErrorDiagnosticState)),
    }
}

/// Law: status gating is exhaustive over all four possible 2-bit status
/// values.  Status 0 delivers the converted value, 1 is the command-mode
/// hard error, 2 the transient would-block outcome, 3 the diagnostic hard
/// error, and no frame takes any other path.
pub proof fn lemma_status_gating<E>(cfg: Config, b0: u8, b1: u8)
    ensures
        spec_status_bits(b0) < 4,
        spec_status_bits(b0) == 0 ==> spec_pressure_outcome::<E>(cfg, b0, b1)
            == Ok::<Scaled, ReadError<E>>(spec_pressure_value(cfg, b0, b1)),
        spec_status_bits(b0) == 1 ==> spec_pressure_outcome::<E>(cfg, b0, b1)
            == Err::<Scaled, ReadError<E>>(ReadError::Other(ApbError::ErrorCommandMode)),
        spec_status_bits(b0) == 2 ==> spec_pressure_outcome::<E>(cfg, b0, b1)
            == Err::<Scaled, ReadError<E>>(ReadError::WouldBlock),
        spec_status_bits(b0) == 3 ==> spec_pressure_outcome::<E>(cfg, b0, b1)
            == Err::<Scaled, ReadError<E>>(ReadError::Other(ApbError::ErrorDiagnosticState)),
{
}

/// One ABP sensor on its bus: the bus handle, the delay capability and the
/// part-number calibration, owned exclusively for the driver's lifetime.
pub struct Abp<B, D> {
    /// The bus the sensor answers on.
    pub bus: B,
    /// Delay capability for the caller's pacing; unused by conversion.
    pub delay: D,
    /// Calibration parsed from the part number; fixed at construction.
    pub config: Config,
}

impl<B: Bus, D: DelayMillis> Abp<B, D> {
    /// Open a driver for the sensor named by a catalog part number.
    ///
    /// Fails closed: a malformed part number is reported as the exact
    /// [`spec_parse`] error and no half-initialized driver is produced.
    pub fn new(bus: B, delay: D, part_nr: &str) -> (r: Result<Abp<B, D>, PartNumberError>)
        ensures
            match r {
                Ok(drv) => {
                    &&& spec_parse(part_nr@) == Ok::<Config, PartNumberError>(drv.config)
                    &&& drv.config.wf()
                    &&& drv.bus == bus
                    &&& drv.delay == delay
                },
                Err(e) => spec_parse(part_nr@) == Err::<Config, PartNumberError>(e),
            },
    {
        let config = match parse(part_nr) {
            Ok(c) => c,
            Err(e) => {
                return Err(e);
            },
        };
        Ok(Abp { bus, delay, config })
    }

    /// Read one pressure value: a 2-byte bus read, decoded, gated on its
    /// status and converted.
    ///
    /// The bytes come from the bus, so the contract promises that the
    /// result is the gated outcome of some frame — see
    /// [`spec_pressure_outcome`] for what each frame yields — or a
    /// propagated bus error.
    pub fn read(&mut self) -> (r: Result<Scaled, ReadError<B::Error>>)
        requires
            old(self).config.wf(),
        ensures
            final(self).config == old(self).config,
            final(self).delay == old(self).delay,
            match r {
                Err(ReadError::Other(ApbError::Other(_))) => true,
                _ => exists|b0: u8, b1: u8|
                    r == #[trigger] spec_pressure_outcome::<B::Error>(old(self).config, b0, b1),
            },
    {
        let address = self.config.i2c_address;
        let buffer = match self.bus.read2(address) {
            Ok(b) => b,
            Err(e) => {
                return Err(ReadError::Other(ApbError::Other(e)));
            },
        };
        let r = evaluate_pressure_frame(&self.config, &buffer);
        proof {
            assert(r == spec_pressure_outcome::<B::Error>(self.config, buffer[0], buffer[1]));
        }
        r
    }

    /// Read one pressure value through the 4-byte frame that also carries
    /// temperature.
    ///
    /// A part without a thermometer rejects the call before any bus
    /// traffic.  The 4-byte read path delivers the converted pressure of
    /// whatever frame arrives, without status gating; the decoded
    /// temperature is available to callers through
    /// [`decode_pressure_and_temperature`] and
    /// [`Config::convert_temperature`].
    pub fn pressure_and_temperature(&mut self) -> (r: Result<Scaled, ReadError<B::Error>>)
        requires
            old(self).config.wf(),
        ensures
            final(self).config == old(self).config,
            final(self).delay == old(self).delay,
            match r {
                Ok(v) => old(self).config.has_thermometer && exists|b0: u8, b1: u8|
                    v == #[trigger] spec_pressure_value(old(self).config, b0, b1),
                Err(ReadError::Other(ApbError::Other(_))) => old(self).config.has_thermometer,
                Err(ReadError::NoThermometer) => !old(self).config.has_thermometer
                    && *final(self) == *old(self),
                _ => false,
            },
    {
        if !self.config.has_thermometer {
            return Err(ReadError::NoThermometer);
        }
        let address = self.config.i2c_address;
        let buffer = match self.bus.read4(address) {
            Ok(b) => b,
            Err(e) => {
                return Err(ReadError::Other(ApbError::Other(e)));
            },
        };
        let output = decode_pressure_and_temperature(&buffer);
        let v = self.config.convert_pressure(output.pressure);
        proof {
            assert(v == spec_pressure_value(self.config, buffer[0], buffer[1]));
        }
        Ok(v)
    }
}

} // verus!
