use co_no2_calibrator::sensor::{Sensor, SensorType, SI};

fn calibrated(adc: u16, adc_null: u16, adc_mess: u16, c_null: u16, c_mess: u16) -> Sensor {
    let mut s = Sensor::new(SensorType::RaGasCO);
    s.set_adc_value(adc);
    s.set_adc_at_nullgas(adc_null);
    s.set_adc_at_messgas(adc_mess);
    s.set_concentration_nullgas(c_null);
    s.set_concentration_messgas(c_mess);
    s
}

#[test]
fn new_sensor_is_zeroed() {
    let s = Sensor::new(SensorType::RaGasNO2);
    assert_eq!(s.get_number(), 0);
    assert_eq!(s.get_adc_value(), 0);
    assert_eq!(s.get_min_value(), 0);
    assert_eq!(s.get_max_value(), 0);
    assert_eq!(s.get_adc_at_nullgas(), 0);
    assert_eq!(s.get_adc_at_messgas(), 0);
    assert_eq!(s.get_concentration_nullgas(), 0);
    assert_eq!(s.get_concentration_messgas(), 0);
    assert_eq!(s.get_sensor_type(), SensorType::RaGasNO2);
    assert_eq!(s.get_si(), SI::ppm);
}

#[test]
fn setters_and_getters() {
    let mut s = Sensor::new(SensorType::RaGasCO);
    s.set_number(7);
    s.set_adc_value(512);
    s.set_min_value(1);
    s.set_max_value(300);
    s.set_adc_at_nullgas(100);
    s.set_adc_at_messgas(900);
    s.set_concentration_nullgas(0);
    s.set_concentration_messgas(280);
    assert_eq!(s.get_number(), 7);
    assert_eq!(s.get_adc_value(), 512);
    assert_eq!(s.get_min_value(), 1);
    assert_eq!(s.get_max_value(), 300);
    assert_eq!(s.get_adc_at_nullgas(), 100);
    assert_eq!(s.get_adc_at_messgas(), 900);
    assert_eq!(s.get_concentration_nullgas(), 0);
    assert_eq!(s.get_concentration_messgas(), 280);
    assert_eq!(s.get_sensor_type(), SensorType::RaGasCO);
}

#[test]
fn millivolts_are_four_times_the_adc_value() {
    let mut s = Sensor::new(SensorType::RaGasNO2);
    assert_eq!(s.get_mv(), 0);
    s.set_adc_value(1023);
    assert_eq!(s.get_mv(), 4092);
    s.set_adc_value(16383);
    assert_eq!(s.get_mv(), 65532);
}

#[test]
fn value_by_two_point_calibration() {
    // slope (300 - 0) / (400 - 100) = 1, (250 - 100) * 1 + 0
    assert_eq!(calibrated(250, 100, 400, 0, 300).get_value(), 150);
    // slope (100 - 10) / (60 - 20) = 2 (rounded down), (50 - 20) * 2 + 10
    assert_eq!(calibrated(50, 20, 60, 10, 100).get_value(), 70);
}

#[test]
fn value_with_zero_span_adc_uses_one() {
    // adc_at_messgas 0 counts as 1: slope (5 - 0) / (1 - 0) = 5
    assert_eq!(calibrated(3, 0, 0, 0, 5).get_value(), 15);
}

#[test]
fn value_at_nullgas_reading_is_nullgas_concentration() {
    assert_eq!(calibrated(100, 100, 400, 20, 300).get_value(), 20);
}

#[test]
fn value_at_messgas_reading_does_not_exceed_messgas_concentration() {
    // slope (100 - 0) / (30 - 0) = 3, 30 * 3 = 90 <= 100
    assert_eq!(calibrated(30, 0, 30, 0, 100).get_value(), 90);
}

#[test]
fn value_grows_with_adc() {
    let a = calibrated(200, 100, 400, 0, 600).get_value();
    let b = calibrated(300, 100, 400, 0, 600).get_value();
    assert!(a <= b);
    assert_eq!((a, b), (200, 400));
}

#[test]
fn checked_mv_only_where_it_fits() {
    let mut s = Sensor::new(SensorType::RaGasNO2);
    s.set_adc_value(16383);
    assert_eq!(s.checked_mv(), Some(65532));
    s.set_adc_value(16384);
    assert_eq!(s.checked_mv(), None);
}

#[test]
fn checked_value_where_formula_is_defined() {
    assert_eq!(calibrated(250, 100, 400, 0, 300).checked_value(), Some(150));
    // concentration of span gas below zero gas
    assert_eq!(calibrated(250, 100, 400, 300, 0).checked_value(), None);
    // zero divisor
    assert_eq!(calibrated(250, 400, 400, 0, 300).checked_value(), None);
    // reading below the zero gas point
    assert_eq!(calibrated(50, 100, 400, 0, 300).checked_value(), None);
    // result beyond 16 bits: slope 60000, offset 2
    assert_eq!(calibrated(2, 0, 1, 0, 60000).checked_value(), None);
    // result exactly 65535
    assert_eq!(calibrated(1, 0, 1, 35, 65535).checked_value(), Some(65535));
}
