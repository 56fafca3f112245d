use abp::{Abp, ApbError, Bus, DelayMillis, PartNumberError, ReadError};

/// Bus double that replays one scripted answer and records the address used.
struct ScriptBus {
    frame2: Result<[u8; 2], u8>,
    frame4: Result<[u8; 4], u8>,
    seen_address: Option<u8>,
}

impl Bus for ScriptBus {
    type Error = u8;

    fn read2(&mut self, address: u8) -> Result<[u8; 2], u8> {
        self.seen_address = Some(address);
        self.frame2
    }

    fn read4(&mut self, address: u8) -> Result<[u8; 4], u8> {
        self.seen_address = Some(address);
        self.frame4
    }
}

struct NoDelay;

impl DelayMillis for NoDelay {
    fn delay_ms(&mut self, _ms: u16) {}
}

fn driver_with_frame2(frame2: Result<[u8; 2], u8>) -> Abp<ScriptBus, NoDelay> {
    let bus = ScriptBus { frame2, frame4: Ok([0; 4]), seen_address: None };
    Abp::new(bus, NoDelay, "ABPDRRT150PG2A3").expect("catalog code must parse")
}

#[test]
fn construction_fails_closed_on_bad_part_number() {
    let bus = ScriptBus { frame2: Ok([0; 2]), frame4: Ok([0; 4]), seen_address: None };
    let r = Abp::new(bus, NoDelay, "ABPDRRT150PGAA3");
    assert!(matches!(r, Err(PartNumberError::UnsupportedInterface)));
}

#[test]
fn status_gating_valid_delivers_converted_value() {
    let mut drv = driver_with_frame2(Ok([0x15, 0xAA]));
    let v = drv.read().expect("valid status must deliver a value");
    assert_eq!(v.den, 150);
    assert_eq!(v.num, 13107i64 * 5546 + 1638 * 150);
    // The read went to the address the part number selects.
    assert_eq!(drv.bus.seen_address, Some(0x28));
}

#[test]
fn status_gating_command_mode_is_hard_error() {
    let mut drv = driver_with_frame2(Ok([0x55, 0xAA]));
    let r = drv.read();
    assert!(matches!(r, Err(ReadError::Other(ApbError::ErrorCommandMode))));
}

#[test]
fn status_gating_stale_would_block() {
    let mut drv = driver_with_frame2(Ok([0x95, 0xAA]));
    let r = drv.read();
    assert!(matches!(r, Err(ReadError::WouldBlock)));
}

#[test]
fn status_gating_diagnostic_is_hard_error() {
    let mut drv = driver_with_frame2(Ok([0xD5, 0xAA]));
    let r = drv.read();
    assert!(matches!(r, Err(ReadError::Other(ApbError::ErrorDiagnosticState))));
}

#[test]
fn bus_error_is_propagated_verbatim() {
    let mut drv = driver_with_frame2(Err(7));
    let r = drv.read();
    assert!(matches!(r, Err(ReadError::Other(ApbError::Other(7)))));
}

#[test]
fn pressure_and_temperature_needs_a_thermometer() {
    // Transfer-function letter A: no thermometer on the part.
    let mut drv = driver_with_frame2(Ok([0x15, 0xAA]));
    let r = drv.pressure_and_temperature();
    assert!(matches!(r, Err(ReadError::NoThermometer)));
    // Rejected before any bus traffic.
    assert_eq!(drv.bus.seen_address, None);
}

#[test]
fn pressure_and_temperature_delivers_pressure() {
    let bus = ScriptBus {
        frame2: Ok([0; 2]),
        frame4: Ok([0x15, 0xAA, 0xFF, 0xE0]),
        seen_address: None,
    };
    let mut drv = Abp::new(bus, NoDelay, "ABPDRRT150PG2T3").expect("catalog code must parse");
    let v = drv.pressure_and_temperature().expect("4-byte path is not status gated");
    assert_eq!(v.den, 150);
    assert_eq!(v.num, 13107i64 * 5546 + 1638 * 150);
    assert_eq!(drv.bus.seen_address, Some(0x28));
}

#[test]
fn pressure_and_temperature_propagates_bus_error() {
    let bus = ScriptBus { frame2: Ok([0; 2]), frame4: Err(9), seen_address: None };
    let mut drv = Abp::new(bus, NoDelay, "ABPDRRT150PG2T3").expect("catalog code must parse");
    let r = drv.pressure_and_temperature();
    assert!(matches!(r, Err(ReadError::Other(ApbError::Other(9)))));
}
