use co_no2_calibrator::kombisensor::{Kombisensor, DEFAULT_MODBUS_ADDRESS, REGISTER_COUNT};
use co_no2_calibrator::sensor::SensorType;

fn image() -> Vec<u16> {
    let mut regs: Vec<u16> = (0..REGISTER_COUNT).collect();
    regs[0] = 0;
    regs[1] = 11;
    regs[2] = 1;
    regs[3] = 5;
    regs[18] = 0;
    regs[28] = 0;
    regs
}

#[test]
fn new_kombisensor_defaults() {
    let k = Kombisensor::new();
    assert_eq!(k.get_version(), "0.0.0");
    assert_eq!(k.get_modbus_address(), 247);
    assert_eq!(DEFAULT_MODBUS_ADDRESS, 247);
    assert!(!k.get_live_update());
    assert_eq!(k.sensors.len(), 2);
    assert_eq!(k.sensors[0].get_sensor_type(), SensorType::RaGasNO2);
    assert_eq!(k.sensors[1].get_sensor_type(), SensorType::RaGasCO);
}

#[test]
fn kombisensor_setters() {
    let mut k = Kombisensor::new();
    k.set_version("1.2.3".to_string());
    k.set_modbus_address(17);
    k.set_live_update(true);
    assert_eq!(k.get_version(), "1.2.3");
    assert_eq!(k.get_modbus_address(), 17);
    assert!(k.get_live_update());
}

#[test]
fn parse_fills_version_and_both_sensors() {
    let mut k = Kombisensor::new();
    k.set_modbus_address(33);
    k.parse_modbus_registers(image());
    assert_eq!(k.get_version(), "0.11.1");
    assert_eq!(k.get_modbus_address(), 33);
    let s = &k.sensors[0];
    assert_eq!(
        (s.get_number(), s.get_adc_value(), s.get_min_value(), s.get_max_value()),
        (10, 11, 12, 13)
    );
    assert_eq!(
        (
            s.get_adc_at_nullgas(),
            s.get_adc_at_messgas(),
            s.get_concentration_nullgas(),
            s.get_concentration_messgas()
        ),
        (14, 15, 16, 17)
    );
    let s = &k.sensors[1];
    assert_eq!(
        (s.get_number(), s.get_adc_value(), s.get_min_value(), s.get_max_value()),
        (20, 21, 22, 23)
    );
    assert_eq!(
        (
            s.get_adc_at_nullgas(),
            s.get_adc_at_messgas(),
            s.get_concentration_nullgas(),
            s.get_concentration_messgas()
        ),
        (24, 25, 26, 27)
    );
    assert_eq!(k.sensors[0].get_sensor_type(), SensorType::RaGasNO2);
    assert_eq!(k.sensors[1].get_sensor_type(), SensorType::RaGasCO);
}

#[test]
fn parse_multi_digit_version() {
    let mut k = Kombisensor::new();
    let mut regs = image();
    regs[0] = 65535;
    regs[1] = 0;
    regs[2] = 120;
    k.parse_modbus_registers(regs);
    assert_eq!(k.get_version(), "65535.0.120");
    let parts: Vec<String> = k.get_version().split('.').map(|p| p.to_string()).collect();
    assert_eq!(parts, vec!["65535", "0", "120"]);
}

#[test]
fn parse_skips_slot_with_status_bit_one_set() {
    let mut k = Kombisensor::new();
    let mut regs = image();
    regs[18] = 0b10;
    regs[28] = 0b01;
    k.parse_modbus_registers(regs);
    // first slot untouched, second slot loaded (bit 0 alone does not block)
    assert_eq!(k.sensors[0].get_number(), 0);
    assert_eq!(k.sensors[0].get_min_value(), 0);
    assert_eq!(k.sensors[1].get_number(), 20);
    assert_eq!(k.sensors[1].get_concentration_messgas(), 27);
}

#[test]
fn parse_skips_second_slot_when_its_bit_is_set() {
    let mut k = Kombisensor::new();
    let mut regs = image();
    regs[28] = 0xFFFF;
    k.parse_modbus_registers(regs);
    assert_eq!(k.sensors[0].get_number(), 10);
    assert_eq!(k.sensors[1].get_number(), 0);
    assert_eq!(k.sensors[1].get_adc_value(), 0);
}

#[test]
fn parse_accepts_image_of_29_registers() {
    let mut k = Kombisensor::new();
    let mut regs = image();
    regs.truncate(29);
    k.parse_modbus_registers(regs);
    assert_eq!(k.sensors[1].get_concentration_messgas(), 27);
}

#[test]
fn parse_twice_is_parse_once() {
    let mut once = Kombisensor::new();
    once.parse_modbus_registers(image());
    let mut twice = Kombisensor::new();
    twice.parse_modbus_registers(image());
    twice.parse_modbus_registers(image());
    assert_eq!(once.get_version(), twice.get_version());
    for i in 0..2 {
        assert_eq!(once.sensors[i].get_number(), twice.sensors[i].get_number());
        assert_eq!(once.sensors[i].get_adc_value(), twice.sensors[i].get_adc_value());
        assert_eq!(once.sensors[i].get_min_value(), twice.sensors[i].get_min_value());
        assert_eq!(
            once.sensors[i].get_concentration_messgas(),
            twice.sensors[i].get_concentration_messgas()
        );
    }
}

#[test]
fn store_values_truncate_to_register_width() {
    let mut k = Kombisensor::new();
    k.store_min_value(&SensorType::RaGasNO2, 5);
    k.store_max_value(&SensorType::RaGasCO, 70000);
    k.store_concentration_nullgas(&SensorType::RaGasCO, 3);
    k.store_concentration_messgas(&SensorType::RaGasNO2, -1);
    assert_eq!(k.sensors[0].get_min_value(), 5);
    assert_eq!(k.sensors[1].get_min_value(), 0);
    assert_eq!(k.sensors[1].get_max_value(), 4464);
    assert_eq!(k.sensors[1].get_concentration_nullgas(), 3);
    assert_eq!(k.sensors[0].get_concentration_messgas(), 65535);
    k.store_modbus_address(300);
    assert_eq!(k.get_modbus_address(), 44);
    k.store_modbus_address(12);
    assert_eq!(k.get_modbus_address(), 12);
}
