use co_no2_calibrator::calib_error::CalibError;
use co_no2_calibrator::configuration::Configuration;

#[test]
fn default_serial_interface() {
    let c = Configuration::new();
    assert_eq!(c.get_serial_interface(), "/dev/ttyUSB0");
}

#[test]
fn set_serial_interface() {
    let mut c = Configuration::new();
    c.set_serial_interface("/dev/ttyS1");
    assert_eq!(c.get_serial_interface(), "/dev/ttyS1");
}

#[test]
fn valid_when_interface_exists() {
    let c = Configuration::new();
    assert!(c.is_valid(true).is_ok());
    assert!(matches!(c.is_valid(false), Err(CalibError::SerialInterfaceUnknown)));
}

#[test]
fn error_texts() {
    let e = CalibError::SerialInterfaceUnknown;
    assert_eq!(e.to_string(), "Serielle Schnittstelle ist nicht bekannt.");
    assert_eq!(e.description(), "Unbekannte serielle Schnittstelle");
    assert_eq!(e.cause(), None);
    let e = CalibError::Modbus("Connection timed out".to_string());
    assert_eq!(e.to_string(), "Connection timed out");
    assert_eq!(e.description(), "Connection timed out");
    assert_eq!(e.cause(), Some("Connection timed out".to_string()));
}
