//! Parsing of the fixed-format catalog part number into a calibration
//! [`Config`].
//!
//! The code is read at fixed character offsets (1-based in the catalog):
//! offsets 1-3 are the series marker `ABP`, 8-10 the three-digit rated
//! pressure, 11 the pressure-unit letter, 12 the range-type letter, 13 the
//! output-type digit, and 14 the transfer-function letter.  Offsets 4-7
//! (package, port, option) and 15 (supply voltage) do not affect calibration
//! and are ignored.  Parsing is pure and fails closed: every malformed field
//! is reported as a [`PartNumberError`], never defaulted.

use vstd::prelude::*;
use vstd::string::StrSliceExecFns;

verus! {

/// Pressure unit selected by the part number's unit letter.
#[derive(Copy, Clone, Debug, PartialEq, Eq, Structural)]
pub enum PressureUnit {
    /// Unit letter `M`: millibar.
    Mbar,
    /// Unit letter `B`: bar.
    Bar,
    /// Unit letter `K`: kilopascal.
    Kpa,
    /// Unit letter `P`: pound per square inch.
    Psi,
}

impl PressureUnit {
    /// Scale factor from this unit to pascals, in micropascals, so that the
    /// catalog constants (psi: 6894.757293 Pa) stay exact integers.
    pub open spec fn spec_conversion_factor_micro(self) -> u64 {
        match self {
            PressureUnit::Mbar => 100_000_000,
            PressureUnit::Bar => 100_000_000_000,
            PressureUnit::Kpa => 1_000_000_000,
            PressureUnit::Psi => 6_894_757_293,
        }
    }

    /// Scale factor from this unit to pascals, in micropascals per unit.
    pub fn conversion_factor_micro(self) -> (r: u64)
        ensures
            r == self.spec_conversion_factor_micro(),
    {
        match self {
            PressureUnit::Mbar => 100_000_000,
            PressureUnit::Bar => 100_000_000_000,
            PressureUnit::Kpa => 1_000_000_000,
            PressureUnit::Psi => 6_894_757_293,
        }
    }
}

/// Every way a part number can be rejected.  None of these is retryable.
#[derive(Copy, Clone, Debug, PartialEq, Eq, Structural)]
pub enum PartNumberError {
    /// The series marker at offsets 1-3 is not `ABP`.
    InvalidSeries,
    /// The rated pressure at offsets 8-10 is not three digits, or is zero
    /// (a zero span would make the transfer function degenerate).
    InvalidRange,
    /// The unit letter at offset 11 is none of `M`, `B`, `K`, `P`.
    UnknownUnit,
    /// The range-type letter at offset 12 is neither `D` nor `G`.
    InvalidRangeType,
    /// The output type at offset 13 is `A` or `S`: an analog or SPI variant,
    /// which this driver does not speak to.
    UnsupportedInterface,
    /// The output type at offset 13 is not a digit `0`-`7` (nor `A`/`S`).
    InvalidOutputType,
    /// The transfer-function letter at offset 14 is none of `A`, `D`, `S`, `T`.
    InvalidTransferFunction,
}

/// Per-unit calibration derived from the part number.  Created once at
/// construction and never mutated.
#[derive(Copy, Clone, Debug, PartialEq, Eq, Structural)]
pub struct Config {
    /// Rated maximum pressure, in the unit named by `unit`.
    pub p_max: u16,
    /// Rated minimum pressure: `-p_max` for differential parts, `0` for gauge.
    pub p_min: i16,
    /// Top of the calibrated digital span: 90% of the 14-bit range.
    pub o_max: u16,
    /// Bottom of the calibrated digital span: 10% of the 14-bit range.
    pub o_min: u16,
    /// Pressure unit the rated span is expressed in.
    pub unit: PressureUnit,
    /// 7-bit bus address selected by the output-type digit.
    pub i2c_address: u8,
    /// Whether the part reports a temperature field.
    pub has_thermometer: bool,
    /// Whether the part supports sleep mode.
    pub has_sleep: bool,
}

impl Config {
    /// Calibrated digital output span.
    pub open spec fn o_span(self) -> int {
        self.o_max - self.o_min
    }

    /// Rated physical span, in the part's pressure unit.
    pub open spec fn p_span(self) -> int {
        self.p_max - self.p_min
    }

    /// What every configuration produced by [`parse`] satisfies.  In
    /// particular `o_max > o_min` and `p_max > p_min`, so both spans are
    /// positive.
    pub open spec fn wf(self) -> bool {
        &&& self.o_max == 0x3999u16
        &&& self.o_min == 0x0666u16
        &&& 1 <= self.p_max <= 999
        &&& (self.p_min == 0 || self.p_min as int == -(self.p_max as int))
    }
}

/// Whether `c` is an ASCII decimal digit.
pub open spec fn is_digit(c: char) -> bool {
    48 <= c as u32 && c as u32 <= 57
}

/// Numeric value of an ASCII decimal digit.
pub open spec fn digit_val(c: char) -> int {
    c as u32 - 48
}

/// The series marker `ABP` stands at the first three offsets.
pub open spec fn series_ok(s: Seq<char>) -> bool {
    s.len() >= 3 && s[0] == 'A' && s[1] == 'B' && s[2] == 'P'
}

/// The rated pressure at offsets 8-10 is three ASCII digits.
pub open spec fn range_digits_ok(s: Seq<char>) -> bool {
    s.len() >= 10 && is_digit(s[7]) && is_digit(s[8]) && is_digit(s[9])
}

/// Rated maximum pressure read from the three digits at offsets 8-10.
pub open spec fn range_value(s: Seq<char>) -> int {
    100 * digit_val(s[7]) + 10 * digit_val(s[8]) + digit_val(s[9])
}

/// Whether `c` is a recognized pressure-unit letter.
pub open spec fn unit_known(c: char) -> bool {
    c == 'M' || c == 'B' || c == 'K' || c == 'P'
}

/// Unit selected by a recognized unit letter.
pub open spec fn spec_unit(c: char) -> PressureUnit {
    if c == 'M' {
        PressureUnit::Mbar
    } else if c == 'B' {
        PressureUnit::Bar
    } else if c == 'K' {
        PressureUnit::Kpa
    } else {
        PressureUnit::Psi
    }
}

/// Whether `c` selects one of the eight catalog bus addresses.
pub open spec fn address_known(c: char) -> bool {
    c == '0' || c == '1' || c == '2' || c == '3' || c == '4' || c == '5' || c == '6' || c == '7'
}

/// The fixed output-type-digit to bus-address table.
pub open spec fn spec_address(c: char) -> u8 {
    if c == '0' {
        0x08
    } else if c == '1' {
        0x18
    } else if c == '2' {
        0x28
    } else if c == '3' {
        0x38
    } else if c == '4' {
        0x48
    } else if c == '5' {
        0x58
    } else if c == '6' {
        0x68
    } else {
        0x78
    }
}

/// Whether `c` is a recognized transfer-function letter.
pub open spec fn transfer_known(c: char) -> bool {
    c == 'A' || c == 'D' || c == 'S' || c == 'T'
}

/// Sleep capability encoded by the transfer-function letter.
pub open spec fn spec_has_sleep(c: char) -> bool {
    c == 'D' || c == 'S'
}

/// Thermometer capability encoded by the transfer-function letter.
pub open spec fn spec_has_thermometer(c: char) -> bool {
    c == 'D' || c == 'T'
}

/// The configuration a valid part number denotes.
pub open spec fn spec_config(s: Seq<char>) -> Config {
    Config {
        p_max: range_value(s) as u16,
        p_min: if s[11] == 'D' {
            (-range_value(s)) as i16
        } else {
            0
        },
        o_max: 0x3999,
        o_min: 0x0666,
        unit: spec_unit(s[10]),
        i2c_address: spec_address(s[12]),
        has_thermometer: spec_has_thermometer(s[13]),
        has_sleep: spec_has_sleep(s[13]),
    }
}

/// What [`parse`] returns for every input, field checks in catalog order.
/// A code too short to contain a field fails with that field's error.
pub open spec fn spec_parse(s: Seq<char>) -> Result<Config, PartNumberError> {
    if !series_ok(s) {
        Err(PartNumberError::InvalidSeries)
    } else if !range_digits_ok(s) || range_value(s) == 0 {
        Err(PartNumberError::InvalidRange)
    } else if !(s.len() >= 11 && unit_known(s[10])) {
        Err(PartNumberError::UnknownUnit)
    } else if !(s.len() >= 12 && (s[11] == 'D' || s[11] == 'G')) {
        Err(PartNumberError::InvalidRangeType)
    } else if s.len() >= 13 && (s[12] == 'A' || s[12] == 'S') {
        Err(PartNumberError::UnsupportedInterface)
    } else if !(s.len() >= 13 && address_known(s[12])) {
        Err(PartNumberError::InvalidOutputType)
    } else if !(s.len() >= 14 && transfer_known(s[13])) {
        Err(PartNumberError::InvalidTransferFunction)
    } else {
        Ok(spec_config(s))
    }
}

/// The numeric value of an ASCII digit, or `None` for any other character.
fn digit_of(c: char) -> (r: Option<u8>)
    ensures
        r is Some <==> is_digit(c),
        r matches Some(v) ==> v == digit_val(c),
{
    let u: u32 = c as u32;
    if 48 <= u && u <= 57 {
        Some((u - 48) as u8)
    } else {
        None
    }
}

/// Parse a catalog part number into its calibration configuration.
///
/// Pure and total: every outcome is [`spec_parse`] of the code's characters,
/// and every accepted code yields a well-formed configuration.
pub fn parse(code: &str) -> (r: Result<Config, PartNumberError>)
    ensures
        r == spec_parse(code@),
        r matches Ok(cfg) ==> cfg.wf(),
{
    let n: usize = code.unicode_len();
    if n < 3 || code.get_char(0) != 'A' || code.get_char(1) != 'B' || code.get_char(2) != 'P' {
        return Err(PartNumberError::InvalidSeries);
    }
    if n < 10 {
        return Err(PartNumberError::InvalidRange);
    }
    let d_hundreds: u8 = match digit_of(code.get_char(7)) {
        Some(d) => d,
        None => {
            return Err(PartNumberError::InvalidRange);
        },
    };
    let d_tens: u8 = match digit_of(code.get_char(8)) {
        Some(d) => d,
        None => {
            return Err(PartNumberError::InvalidRange);
        },
    };
    let d_ones: u8 = match digit_of(code.get_char(9)) {
        Some(d) => d,
        None => {
            return Err(PartNumberError::InvalidRange);
        },
    };
    let p_max: u16 = d_hundreds as u16 * 100 + d_tens as u16 * 10 + d_ones as u16;
    if p_max == 0 {
        return Err(PartNumberError::InvalidRange);
    }
    if n < 11 {
        return Err(PartNumberError::UnknownUnit);
    }
    let unit_letter: char = code.get_char(10);
    let unit: PressureUnit = if unit_letter == 'M' {
        PressureUnit::Mbar
    } else if unit_letter == 'B' {
        PressureUnit::Bar
    } else if unit_letter == 'K' {
        PressureUnit::Kpa
    } else if unit_letter == 'P' {
        PressureUnit::Psi
    } else {
        return Err(PartNumberError::UnknownUnit);
    };
    if n < 12 {
        return Err(PartNumberError::InvalidRangeType);
    }
    let range_letter: char = code.get_char(11);
    let p_min: i16 = if range_letter == 'D' {
        -(p_max as i16)
    } else if range_letter == 'G' {
        0
    } else {
        return Err(PartNumberError::InvalidRangeType);
    };
    if n < 13 {
        return Err(PartNumberError::InvalidOutputType);
    }
    let out_letter: char = code.get_char(12);
    if out_letter == 'A' || out_letter == 'S' {
        return Err(PartNumberError::UnsupportedInterface);
    }
    let i2c_address: u8 = if out_letter == '0' {
        0x08
    } else if out_letter == '1' {
        0x18
    } else if out_letter == '2' {
        0x28
    } else if out_letter == '3' {
        0x38
    } else if out_letter == '4' {
        0x48
    } else if out_letter == '5' {
        0x58
    } else if out_letter == '6' {
        0x68
    } else if out_letter == '7' {
        0x78
    } else {
        return Err(PartNumberError::InvalidOutputType);
    };
    if n < 14 {
        return Err(PartNumberError::InvalidTransferFunction);
    }
    let tf_letter: char = code.get_char(13);
    let has_sleep: bool;
    let has_thermometer: bool;
    if tf_letter == 'A' {
        has_sleep = false;
        has_thermometer = false;
    } else if tf_letter == 'D' {
        has_sleep = true;
        has_thermometer = true;
    } else if tf_letter == 'S' {
        has_sleep = true;
        has_thermometer = false;
    } else if tf_letter == 'T' {
        has_sleep = false;
        has_thermometer = true;
    } else {
        return Err(PartNumberError::InvalidTransferFunction);
    }
    Ok(Config { p_max, p_min, o_max: 0x3999, o_min: 0x0666, unit, i2c_address, has_thermometer, has_sleep })
}

/// Law: a part number whose output-type letter is `A` or `S` never parses.
/// The driver never falls back to a default bus address for the analog and
/// SPI variants; when every earlier field is valid the reported error is
/// exactly `UnsupportedInterface`.
pub proof fn lemma_unsupported_interface(s: Seq<char>)
    requires
        s.len() >= 13,
        s[12] == 'A' || s[12] == 'S',
    ensures
        spec_parse(s) is Err,
        (series_ok(s) && range_digits_ok(s) && range_value(s) != 0 && s.len() >= 11
            && unit_known(s[10]) && s.len() >= 12 && (s[11] == 'D' || s[11] == 'G'))
            ==> spec_parse(s) == Err::<Config, PartNumberError>(PartNumberError::UnsupportedInterface),
{
}

} // verus!
