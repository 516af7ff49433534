use vstd::prelude::*;

use crate::commands::sensor_number;
use crate::decimal::{decimal, push_decimal};
use crate::sensor::{fresh_sensor, sensor_slot, Sensor, SensorModel, SensorType};

verus! {

/// The default Modbus address of the RA-Gas sensors, where a search for a sensor starts.
pub const DEFAULT_MODBUS_ADDRESS: u8 = 247;

/// Number of holding registers of the combination sensor that describe its state.
pub const REGISTER_COUNT: u16 = 30;

/// In-memory description of the CO/NO2 combination sensor the calibrator talks to.
#[derive(Debug)]
pub struct Kombisensor {
    version: String,
    modbus_address: u8,
    pub sensors: Vec<Sensor>,
    live_update: bool,
}

/// The abstract state of a [`Kombisensor`].
pub struct KombisensorModel {
    pub version: Seq<char>,
    pub modbus_address: u8,
    pub sensors: Seq<SensorModel>,
    pub live_update: bool,
}

impl View for Kombisensor {
    type V = KombisensorModel;

    closed spec fn view(&self) -> KombisensorModel {
        KombisensorModel {
            version: self.version@,
            modbus_address: self.modbus_address,
            sensors: self.sensors@.map_values(|s: Sensor| s@),
            live_update: self.live_update,
        }
    }
}

// The register image of the sensor, as the firmware lays it out:
//   0..2   version (major, minor, patch)
//   3      Modbus address
//   10..18 first sensor slot (NO2), 20..28 second sensor slot (CO), each:
//          +0 number, +1 ADC value, +2 minimum, +3 maximum,
//          +4 ADC at zero gas, +5 ADC at span gas,
//          +6 concentration of zero gas, +7 concentration of span gas,
//          +8 status word
/// First register of the block of sensor slot `slot`.
pub open spec fn sensor_base(slot: int) -> int {
    10 + 10 * slot
}

/// The status word register of sensor slot `slot`.
pub open spec fn status_register(slot: int) -> int {
    sensor_base(slot) + 8
}

/// Whether a status word lets the slot's registers be taken over: bit 1 is clear.
pub open spec fn status_allows_load(word: u16) -> bool {
    (word / 2) % 2 == 0
}

/// The sensor `s` with the eight registers of slot `slot` taken over from `regs`.
pub open spec fn loaded_sensor(s: SensorModel, regs: Seq<u16>, slot: int) -> SensorModel {
    let b = sensor_base(slot);
    SensorModel {
        number: regs[b],
        adc_value: regs[b + 1],
        min_value: regs[b + 2],
        max_value: regs[b + 3],
        adc_at_nullgas: regs[b + 4],
        adc_at_messgas: regs[b + 5],
        concentration_nullgas: regs[b + 6],
        concentration_messgas: regs[b + 7],
        sensor_type: s.sensor_type,
        si: s.si,
    }
}

/// The sensor of slot `slot` after reading `regs`: loaded where the status word allows it,
/// unchanged otherwise.
pub open spec fn parsed_sensor(s: SensorModel, regs: Seq<u16>, slot: int) -> SensorModel {
    if status_allows_load(regs[status_register(slot)]) {
        loaded_sensor(s, regs, slot)
    } else {
        s
    }
}

/// The firmware version "major.minor.patch" in decimal.
pub open spec fn version_string(major: u16, minor: u16, patch: u16) -> Seq<char> {
    decimal(major as nat) + seq!['.'] + decimal(minor as nat) + seq!['.'] + decimal(patch as nat)
}

/// The state after reading the register image `regs`.
pub open spec fn parsed(k: KombisensorModel, regs: Seq<u16>) -> KombisensorModel {
    KombisensorModel {
        version: version_string(regs[0], regs[1], regs[2]),
        sensors: k.sensors.update(0, parsed_sensor(k.sensors[0], regs, 0)).update(
            1,
            parsed_sensor(k.sensors[1], regs, 1),
        ),
        ..k
    }
}

/// A register image long enough to read every register that the state comes from.
pub open spec fn register_image_complete(regs: Seq<u16>) -> bool {
    regs.len() > status_register(1)
}

/// The state of a freshly created combination sensor.
pub open spec fn fresh_kombisensor() -> KombisensorModel {
    KombisensorModel {
        version: seq!['0', '.', '0', '.', '0'],
        modbus_address: DEFAULT_MODBUS_ADDRESS,
        sensors: seq![fresh_sensor(SensorType::RaGasNO2), fresh_sensor(SensorType::RaGasCO)],
        live_update: false,
    }
}

/// The state after a value of the sensor in `slot` was changed to `s`.
pub open spec fn with_sensor(k: KombisensorModel, slot: int, s: SensorModel) -> KombisensorModel {
    KombisensorModel { sensors: k.sensors.update(slot, s), ..k }
}

/// Copies the eight registers of slot `slot` into `sensor`.
fn load_sensor(sensor: &mut Sensor, regs: &Vec<u16>, slot: usize)
    requires
        slot < 2,
        register_image_complete(regs@),
    ensures
        final(sensor)@ == loaded_sensor(old(sensor)@, regs@, slot as int),
{
    let b = 10 + 10 * slot;
    sensor.set_number(regs[b]);
    sensor.set_adc_value(regs[b + 1]);
    sensor.set_min_value(regs[b + 2]);
    sensor.set_max_value(regs[b + 3]);
    sensor.set_adc_at_nullgas(regs[b + 4]);
    sensor.set_adc_at_messgas(regs[b + 5]);
    sensor.set_concentration_nullgas(regs[b + 6]);
    sensor.set_concentration_messgas(regs[b + 7]);
}

impl Kombisensor {
    /// The state needs both sensor slots to be present.
    pub open spec fn wf(&self) -> bool {
        self@.sensors.len() >= 2
    }

    /// A combination sensor with version "0.0.0", Modbus address 247, a NO2 sensor in
    /// the first and a CO sensor in the second slot, and live update off.
    pub fn new() -> (k: Self)
        ensures
            k.wf(),
            k@ == fresh_kombisensor(),
    {
        proof { reveal_strlit("0.0.0"); }
        let k = Kombisensor {
            version: String::from_str("0.0.0"),
            modbus_address: DEFAULT_MODBUS_ADDRESS,
            sensors: vec![Sensor::new(SensorType::RaGasNO2), Sensor::new(SensorType::RaGasCO)],
            live_update: false,
        };
        assert(k@.sensors =~= fresh_kombisensor().sensors);
        assert(k@.version =~= fresh_kombisensor().version);
        k
    }

    // Getters
    /// The firmware version.
    pub fn get_version(&self) -> (r: String)
        ensures
            r@ == self@.version,
    {
        self.version.clone()
    }

    /// The Modbus address.
    pub fn get_modbus_address(&self) -> (r: u8)
        ensures
            r == self@.modbus_address,
    {
        self.modbus_address
    }

    /// Whether the live update flag is set.
    pub fn get_live_update(&self) -> (r: bool)
        ensures
            r == self@.live_update,
    {
        self.live_update
    }

    // Setters
    /// Sets the firmware version.
    pub fn set_version(&mut self, version: String)
        ensures
            final(self)@ == (KombisensorModel { version: version@, ..old(self)@ }),
    {
        self.version = version;
    }

    /// Sets the Modbus address.
    pub fn set_modbus_address(&mut self, modbus_address: u8)
        ensures
            final(self)@ == (KombisensorModel { modbus_address, ..old(self)@ }),
    {
        self.modbus_address = modbus_address
    }

    /// Sets the live update flag.
    pub fn set_live_update(&mut self, live_update: bool)
        ensures
            final(self)@ == (KombisensorModel { live_update, ..old(self)@ }),
    {
        self.live_update = live_update
    }

    // Miscellaneous
    /// Fills the state from the register image read from the sensor.
    ///
    /// The version becomes "r0.r1.r2". The registers of a sensor slot are taken over
    /// only where bit 1 of the slot's status word (register 18 or 28) is clear.
    pub fn parse_modbus_registers(&mut self, modbus_registers: Vec<u16>)
        requires
            old(self).wf(),
            register_image_complete(modbus_registers@),
        ensures
            final(self).wf(),
            final(self)@ == parsed(old(self)@, modbus_registers@),
    {
        let mut version = String::new();
        push_decimal(&mut version, modbus_registers[0]);
        proof { reveal_strlit("."); }
        version.append(".");
        push_decimal(&mut version, modbus_registers[1]);
        version.append(".");
        push_decimal(&mut version, modbus_registers[2]);
        let sensor1_status = modbus_registers[18];
        let sensor2_status = modbus_registers[28];
        let sensor1_enabled = (sensor1_status >> 1u16) & 1u16;
        let sensor2_enabled = (sensor2_status >> 1u16) & 1u16;
        assert(((sensor1_status >> 1u16) & 1u16 == 0) == ((sensor1_status / 2) % 2 == 0))
            by (bit_vector);
        assert(((sensor2_status >> 1u16) & 1u16 == 0) == ((sensor2_status / 2) % 2 == 0))
            by (bit_vector);

        self.set_version(version);

        if sensor1_enabled == 0 {
            load_sensor(&mut self.sensors[0], &modbus_registers, 0);
        }
        if sensor2_enabled == 0 {
            load_sensor(&mut self.sensors[1], &modbus_registers, 1);
        }
        assert(self@.sensors =~= parsed(old(self)@, modbus_registers@).sensors);
        assert(self@.version =~= parsed(old(self)@, modbus_registers@).version);
    }

    // Updates after a value was written to the sensor
    /// Records a new minimum of the sensor of the given kind; the value is kept
    /// as its low 16 bits, as the register holds it.
    pub fn store_min_value(&mut self, sensor_type: &SensorType, min_value: i32)
        requires
            old(self).wf(),
        ensures
            final(self).wf(),
            final(self)@ == with_sensor(
                old(self)@,
                sensor_slot(*sensor_type),
                SensorModel {
                    min_value: min_value as u16,
                    ..old(self)@.sensors[sensor_slot(*sensor_type)]
                },
            ),
    {
        let n = sensor_number(sensor_type);
        self.sensors[n].set_min_value(min_value as u16);
        assert(self@.sensors =~= with_sensor(
            old(self)@,
            n as int,
            SensorModel { min_value: min_value as u16, ..old(self)@.sensors[n as int] },
        ).sensors);
    }

    /// Records a new maximum of the sensor of the given kind (low 16 bits).
    pub fn store_max_value(&mut self, sensor_type: &SensorType, max_value: i32)
        requires
            old(self).wf(),
        ensures
            final(self).wf(),
            final(self)@ == with_sensor(
                old(self)@,
                sensor_slot(*sensor_type),
                SensorModel {
                    max_value: max_value as u16,
                    ..old(self)@.sensors[sensor_slot(*sensor_type)]
                },
            ),
    {
        let n = sensor_number(sensor_type);
        self.sensors[n].set_max_value(max_value as u16);
        assert(self@.sensors =~= with_sensor(
            old(self)@,
            n as int,
            SensorModel { max_value: max_value as u16, ..old(self)@.sensors[n as int] },
        ).sensors);
    }

    /// Records a new zero gas concentration of the sensor of the given kind (low 16 bits).
    pub fn store_concentration_nullgas(&mut self, sensor_type: &SensorType, value: i32)
        requires
            old(self).wf(),
        ensures
            final(self).wf(),
            final(self)@ == with_sensor(
                old(self)@,
                sensor_slot(*sensor_type),
                SensorModel {
                    concentration_nullgas: value as u16,
                    ..old(self)@.sensors[sensor_slot(*sensor_type)]
                },
            ),
    {
        let n = sensor_number(sensor_type);
        self.sensors[n].set_concentration_nullgas(value as u16);
        assert(self@.sensors =~= with_sensor(
            old(self)@,
            n as int,
            SensorModel { concentration_nullgas: value as u16, ..old(self)@.sensors[n as int] },
        ).sensors);
    }

    /// Records a new span gas concentration of the sensor of the given kind (low 16 bits).
    pub fn store_concentration_messgas(&mut self, sensor_type: &SensorType, value: i32)
        requires
            old(self).wf(),
        ensures
            final(self).wf(),
            final(self)@ == with_sensor(
                old(self)@,
                sensor_slot(*sensor_type),
                SensorModel {
                    concentration_messgas: value as u16,
                    ..old(self)@.sensors[sensor_slot(*sensor_type)]
                },
            ),
    {
        let n = sensor_number(sensor_type);
        self.sensors[n].set_concentration_messgas(value as u16);
        assert(self@.sensors =~= with_sensor(
            old(self)@,
            n as int,
            SensorModel { concentration_messgas: value as u16, ..old(self)@.sensors[n as int] },
        ).sensors);
    }

    /// Records the new Modbus address after it was written to the sensor (low 8 bits).
    pub fn store_modbus_address(&mut self, modbus_address: i32)
        ensures
            final(self)@ == (KombisensorModel { modbus_address: modbus_address as u8, ..old(self)@ }),
    {
        self.set_modbus_address(modbus_address as u8);
    }
}

} // verus!
