use vstd::prelude::*;

verus! {

/// The kind of measuring cell a sensor slot of the combination sensor carries.
#[derive(Debug, Clone, Copy, PartialEq, Eq)]
pub enum SensorType {
    /// Electrochemical nitrogen dioxide cell.
    RaGasNO2,
    /// Electrochemical carbon monoxide cell.
    RaGasCO,
}

/// The slot of the combination sensor that carries a cell of the given kind:
/// the NO2 cell sits in the first slot, the CO cell in the second.
pub open spec fn sensor_slot(sensor_type: SensorType) -> int {
    match sensor_type {
        SensorType::RaGasNO2 => 0,
        SensorType::RaGasCO => 1,
    }
}

/// Unit in which a sensor reports its concentration.
#[derive(Debug, Clone, Copy, PartialEq, Eq)]
#[allow(non_camel_case_types)]
pub enum SI {
    none,
    ppm,
    UEG,
    Vol,
}

/// One measuring cell of the CO/NO2 combination sensor (firmware 0.11.1).
///
/// `sensor_type` and `si` are not registers of the firmware: they are fixed
/// when the sensor is created.
#[derive(Debug)]
pub struct Sensor {
    number: u16,
    adc_value: u16,
    min_value: u16,
    max_value: u16,
    adc_at_nullgas: u16,
    adc_at_messgas: u16,
    concentration_nullgas: u16,
    concentration_messgas: u16,
    sensor_type: SensorType,
    si: SI,
}

/// The abstract state of a [`Sensor`]: its register values and its fixed kind and unit.
pub struct SensorModel {
    pub number: u16,
    pub adc_value: u16,
    pub min_value: u16,
    pub max_value: u16,
    pub adc_at_nullgas: u16,
    pub adc_at_messgas: u16,
    pub concentration_nullgas: u16,
    pub concentration_messgas: u16,
    pub sensor_type: SensorType,
    pub si: SI,
}

impl View for Sensor {
    type V = SensorModel;

    closed spec fn view(&self) -> SensorModel {
        SensorModel {
            number: self.number,
            adc_value: self.adc_value,
            min_value: self.min_value,
            max_value: self.max_value,
            adc_at_nullgas: self.adc_at_nullgas,
            adc_at_messgas: self.adc_at_messgas,
            concentration_nullgas: self.concentration_nullgas,
            concentration_messgas: self.concentration_messgas,
            sensor_type: self.sensor_type,
            si: self.si,
        }
    }
}

/// A freshly created sensor of the given kind: every register 0, unit ppm.
pub open spec fn fresh_sensor(sensor_type: SensorType) -> SensorModel {
    SensorModel {
        number: 0,
        adc_value: 0,
        min_value: 0,
        max_value: 0,
        adc_at_nullgas: 0,
        adc_at_messgas: 0,
        concentration_nullgas: 0,
        concentration_messgas: 0,
        sensor_type,
        si: SI::ppm,
    }
}

/// The ADC reading at the span gas point as the concentration formula uses it:
/// a stored 0 counts as 1, so that the formula never divides by zero for that reason.
pub open spec fn effective_adc_at_messgas(s: SensorModel) -> int {
    if s.adc_at_messgas == 0 { 1 } else { s.adc_at_messgas as int }
}

/// Slope of the two-point calibration line in whole concentration units per ADC step.
pub open spec fn calibration_slope(s: SensorModel) -> int {
    (s.concentration_messgas - s.concentration_nullgas) / (effective_adc_at_messgas(s) - s.adc_at_nullgas)
}

/// Concentration for the current ADC reading by the two-point calibration line
/// through (adc_at_nullgas, concentration_nullgas) with the integer slope above.
pub open spec fn calibrated_value(s: SensorModel) -> int {
    calibration_slope(s) * (s.adc_value - s.adc_at_nullgas) + s.concentration_nullgas
}

/// The inputs on which the concentration can be computed in 16-bit arithmetic:
/// no step goes below zero, the divisor is not zero and the result fits.
pub open spec fn value_computable(s: SensorModel) -> bool {
    &&& s.concentration_nullgas <= s.concentration_messgas
    &&& s.adc_at_nullgas < effective_adc_at_messgas(s)
    &&& s.adc_at_nullgas <= s.adc_value
    &&& calibrated_value(s) <= u16::MAX
}

/// Millivolt value of an ADC reading: the integer factor 5000 / 1024 = 4 times the reading.
pub open spec fn millivolts(adc_value: u16) -> int {
    4 * adc_value
}

impl Sensor {
    /// A sensor of the given kind with every register 0 and unit ppm.
    pub fn new(sensor_type: SensorType) -> (s: Self)
        ensures
            s@ == fresh_sensor(sensor_type),
    {
        Sensor {
            number: 0,
            adc_value: 0,
            min_value: 0,
            max_value: 0,
            adc_at_nullgas: 0,
            adc_at_messgas: 0,
            concentration_nullgas: 0,
            concentration_messgas: 0,
            sensor_type: sensor_type,
            si: SI::ppm,
        }
    }

    // Setters
    pub fn set_number(&mut self, number: u16)
        ensures
            final(self)@ == (SensorModel { number, ..old(self)@ }),
    {
        self.number = number;
    }

    pub fn set_adc_value(&mut self, adc_value: u16)
        ensures
            final(self)@ == (SensorModel { adc_value, ..old(self)@ }),
    {
        self.adc_value = adc_value;
    }

    pub fn set_min_value(&mut self, min_value: u16)
        ensures
            final(self)@ == (SensorModel { min_value, ..old(self)@ }),
    {
        self.min_value = min_value;
    }

    pub fn set_max_value(&mut self, max_value: u16)
        ensures
            final(self)@ == (SensorModel { max_value, ..old(self)@ }),
    {
        self.max_value = max_value;
    }

    pub fn set_adc_at_nullgas(&mut self, adc_at_nullgas: u16)
        ensures
            final(self)@ == (SensorModel { adc_at_nullgas, ..old(self)@ }),
    {
        self.adc_at_nullgas = adc_at_nullgas;
    }

    pub fn set_adc_at_messgas(&mut self, adc_at_messgas: u16)
        ensures
            final(self)@ == (SensorModel { adc_at_messgas, ..old(self)@ }),
    {
        self.adc_at_messgas = adc_at_messgas;
    }

    pub fn set_concentration_nullgas(&mut self, concentration_nullgas: u16)
        ensures
            final(self)@ == (SensorModel { concentration_nullgas, ..old(self)@ }),
    {
        self.concentration_nullgas = concentration_nullgas;
    }

    pub fn set_concentration_messgas(&mut self, concentration_messgas: u16)
        ensures
            final(self)@ == (SensorModel { concentration_messgas, ..old(self)@ }),
    {
        self.concentration_messgas = concentration_messgas;
    }

    // Getters
    pub fn get_number(&self) -> (r: u16)
        ensures
            r == self@.number,
    {
        self.number
    }

    pub fn get_adc_value(&self) -> (r: u16)
        ensures
            r == self@.adc_value,
    {
        self.adc_value
    }

    pub fn get_min_value(&self) -> (r: u16)
        ensures
            r == self@.min_value,
    {
        self.min_value
    }

    pub fn get_max_value(&self) -> (r: u16)
        ensures
            r == self@.max_value,
    {
        self.max_value
    }

    pub fn get_adc_at_nullgas(&self) -> (r: u16)
        ensures
            r == self@.adc_at_nullgas,
    {
        self.adc_at_nullgas
    }

    pub fn get_adc_at_messgas(&self) -> (r: u16)
        ensures
            r == self@.adc_at_messgas,
    {
        self.adc_at_messgas
    }

    pub fn get_concentration_nullgas(&self) -> (r: u16)
        ensures
            r == self@.concentration_nullgas,
    {
        self.concentration_nullgas
    }

    pub fn get_concentration_messgas(&self) -> (r: u16)
        ensures
            r == self@.concentration_messgas,
    {
        self.concentration_messgas
    }

    /// The kind of measuring cell.
    pub fn get_sensor_type(&self) -> (r: SensorType)
        ensures
            r == self@.sensor_type,
    {
        self.sensor_type
    }

    /// The unit of the concentration.
    pub fn get_si(&self) -> (r: SI)
        ensures
            r == self@.si,
    {
        self.si
    }

    // Miscellaneous
    /// Millivolts of the current ADC reading (integer factor 5000 / 1024 = 4).
    pub fn get_mv(&self) -> (r: u16)
        requires
            millivolts(self@.adc_value) <= u16::MAX,
        ensures
            r == millivolts(self@.adc_value),
    {
        (5000 / 1024) * self.adc_value
    }

    /// Concentration of the current ADC reading by the two-point calibration:
    /// `(c_mess - c_null) / (adc_mess - adc_null) * (adc - adc_null) + c_null`,
    /// where a stored `adc_mess` of 0 counts as 1.
    pub fn get_value(&self) -> (r: u16)
        requires
            value_computable(self@),
        ensures
            r == calibrated_value(self@),
    {
        let adc_value = self.adc_value;
        let concentration_nullgas = self.concentration_nullgas;
        let concentration_messgas = self.concentration_messgas;
        let adc_at_nullgas = self.adc_at_nullgas;
        let adc_at_messgas = if self.adc_at_messgas == 0 {
            1
        } else {
            self.adc_at_messgas
        };
        let slope: u16 = (concentration_messgas - concentration_nullgas) / (adc_at_messgas
            - adc_at_nullgas);
        let offset: u16 = adc_value - adc_at_nullgas;
        assert(slope * offset <= calibrated_value(self@));
        slope * offset + concentration_nullgas
    }

    /// The millivolts of the current ADC reading where they fit in 16 bits, `None` otherwise.
    pub fn checked_mv(&self) -> (r: Option<u16>)
        ensures
            r is Some <==> millivolts(self@.adc_value) <= u16::MAX,
            r matches Some(v) ==> v == millivolts(self@.adc_value),
    {
        if self.adc_value <= 16383 {
            Some(self.get_mv())
        } else {
            None
        }
    }

    /// The concentration of the current ADC reading where the calibration formula can be
    /// computed for it, `None` otherwise.
    pub fn checked_value(&self) -> (r: Option<u16>)
        ensures
            r is Some <==> value_computable(self@),
            r matches Some(v) ==> v == calibrated_value(self@),
    {
        let adc_at_messgas = if self.adc_at_messgas == 0 {
            1
        } else {
            self.adc_at_messgas
        };
        if self.concentration_messgas < self.concentration_nullgas
            || adc_at_messgas <= self.adc_at_nullgas || self.adc_value < self.adc_at_nullgas {
            return None;
        }
        let slope: u32 = ((self.concentration_messgas - self.concentration_nullgas) / (
        adc_at_messgas - self.adc_at_nullgas)) as u32;
        let offset: u32 = (self.adc_value - self.adc_at_nullgas) as u32;
        assert(slope * offset <= 65535 * 65535) by (nonlinear_arith)
            requires
                slope <= 65535,
                offset <= 65535,
        ;
        let value: u32 = slope * offset + self.concentration_nullgas as u32;
        if value <= 65535 {
            Some(self.get_value())
        } else {
            None
        }
    }
}

} // verus!
