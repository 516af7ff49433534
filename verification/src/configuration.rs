use vstd::prelude::*;

use crate::calib_error::CalibError;

verus! {

/// Settings of the calibrator.
pub struct Configuration {
    serial_interface: &'static str,
}

impl View for Configuration {
    type V = Seq<char>;

    /// The path of the serial interface.
    closed spec fn view(&self) -> Seq<char> {
        self.serial_interface@
    }
}

impl Configuration {
    /// A configuration with the serial interface "/dev/ttyUSB0".
    pub fn new() -> (c: Self)
        ensures
            c@ == "/dev/ttyUSB0"@,
    {
        Configuration { serial_interface: "/dev/ttyUSB0" }
    }

    /// The path of the serial interface.
    pub fn get_serial_interface(&self) -> (r: &'static str)
        ensures
            r@ == self@,
    {
        self.serial_interface
    }

    /// Sets the path of the serial interface.
    pub fn set_serial_interface(&mut self, interface: &'static str)
        ensures
            final(self)@ == interface@,
    {
        self.serial_interface = interface
    }

    /// The configuration is usable when its serial interface exists;
    /// `interface_exists` tells whether the path of the serial interface exists.
    pub fn is_valid(&self, interface_exists: bool) -> (r: Result<(), CalibError>)
        ensures
            interface_exists ==> r is Ok,
            !interface_exists ==> r matches Err(CalibError::SerialInterfaceUnknown),
    {
        if interface_exists {
            Ok(())
        } else {
            Err(CalibError::SerialInterfaceUnknown)
        }
    }
}

} // verus!
