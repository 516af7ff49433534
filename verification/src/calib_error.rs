use vstd::prelude::*;

verus! {

/// Errors of the calibrator.
#[derive(Debug)]
pub enum CalibError {
    /// The configured serial interface does not exist.
    SerialInterfaceUnknown,
    /// The Modbus communication failed; the text is the Modbus error's message.
    Modbus(String),
}

impl CalibError {
    /// The human readable message of the error.
    pub fn to_string(&self) -> (r: String)
        ensures
            match self {
                CalibError::SerialInterfaceUnknown => r@ == "Serielle Schnittstelle ist nicht bekannt."@,
                CalibError::Modbus(message) => r@ == message@,
            },
    {
        match self {
            CalibError::SerialInterfaceUnknown => String::from_str(
                "Serielle Schnittstelle ist nicht bekannt.",
            ),
            CalibError::Modbus(message) => message.clone(),
        }
    }

    /// A short description of the error.
    pub fn description(&self) -> (r: String)
        ensures
            match self {
                CalibError::SerialInterfaceUnknown => r@ == "Unbekannte serielle Schnittstelle"@,
                CalibError::Modbus(message) => r@ == message@,
            },
    {
        match self {
            CalibError::SerialInterfaceUnknown => String::from_str(
                "Unbekannte serielle Schnittstelle",
            ),
            CalibError::Modbus(message) => message.clone(),
        }
    }

    /// The message of the underlying Modbus error, if there is one.
    pub fn cause(&self) -> (r: Option<String>)
        ensures
            match self {
                CalibError::SerialInterfaceUnknown => r is None,
                CalibError::Modbus(message) => r is Some && r->0@ == message@,
            },
    {
        match self {
            CalibError::SerialInterfaceUnknown => None,
            CalibError::Modbus(message) => Some(message.clone()),
        }
    }
}

} // verus!
