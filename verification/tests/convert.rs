use abp::parse;

#[test]
fn temperature_conversion_boundaries() {
    let cfg = parse("ABPDRRT150PG2T3").unwrap();
    let cold = cfg.convert_temperature(0);
    assert_eq!(cold.den, 2047);
    assert_eq!(cold.num, -102350);
    assert_eq!(cold.num as f32 / cold.den as f32, -50.0);

    let hot = cfg.convert_temperature(2047);
    assert_eq!(hot.num, 307050);
    assert_eq!(hot.num as f32 / hot.den as f32, 150.0);

    let mid = cfg.convert_temperature(1023);
    assert_eq!(mid.num, 102250);
    let celsius = mid.num as f32 / mid.den as f32;
    assert!((celsius - 49.95).abs() < 0.01);
}

#[test]
fn temperature_conversion_is_monotonic_across_steps() {
    let cfg = parse("ABPDRRT150PG2T3").unwrap();
    let mut previous = cfg.convert_temperature(0).num;
    for raw in 1..2048u16 {
        let next = cfg.convert_temperature(raw).num;
        assert!(next > previous);
        previous = next;
    }
}

#[test]
fn pressure_conversion_gauge_exact() {
    // o_span = 0x3999 - 0x0666 = 13107, p_span = 150, o_min = 1638.
    let cfg = parse("ABPDRRT150PG2A3").unwrap();
    let v = cfg.convert_pressure(5546);
    assert_eq!(v.den, 150);
    assert_eq!(v.num, 13107i64 * 5546 + 1638 * 150);
}

#[test]
fn pressure_conversion_differential_exact() {
    // p_min = -60, so a raw count is shifted by 60 before scaling.
    let cfg = parse("ABPDRRT060MD1D3").unwrap();
    let v = cfg.convert_pressure(0);
    assert_eq!(v.den, 120);
    assert_eq!(v.num, 13107i64 * 60 + 1638 * 120);
    let top = cfg.convert_pressure(0x3FFF);
    assert_eq!(top.num, 13107i64 * (0x3FFF + 60) + 1638 * 120);
}
