//! Driver core for the ABP series of piezoresistive board-mount pressure
//! sensors.

pub mod convert;
pub mod driver;
pub mod frame;
pub mod part_number;
pub mod status;

pub use convert::Scaled;
pub use driver::{Abp, Bus, DelayMillis};
pub use frame::{decode_pressure, decode_pressure_and_temperature, Output};
pub use part_number::{parse, Config, PartNumberError, PressureUnit};
pub use status::{ApbError, ReadError, Status};
