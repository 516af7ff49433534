//! The state and the register protocol of the CO/NO2 combination sensors (RA-Gas,
//! Modbus interface) as a calibrator sees them: the sensor description filled from the
//! sensor's register image, the registers and coils that the calibration commands use,
//! the search for a sensor on the bus, and the concentration by two-point calibration.

pub mod calib_error;
pub mod commands;
pub mod configuration;
pub mod decimal;
pub mod gas;
pub mod kombisensor;
pub mod laws;
pub mod sensor;
