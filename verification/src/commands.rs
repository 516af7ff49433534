use vstd::prelude::*;

use crate::gas::GasType;
use crate::kombisensor::{sensor_base, DEFAULT_MODBUS_ADDRESS};
use crate::sensor::{sensor_slot, SensorType};

verus! {

/// The holding register that stores the Modbus address of the sensor.
pub const MODBUS_ADDRESS_REGISTER: i32 = 3;

/// Offset, within a sensor slot, of the register that holds the ADC reading
/// at the given calibration gas.
pub open spec fn adc_at_offset(gas_type: GasType) -> int {
    match gas_type {
        GasType::Nullgas => 4,
        GasType::Messgas => 5,
    }
}

/// The index of the sensor slot that carries a cell of the given kind.
pub fn sensor_number(sensor_type: &SensorType) -> (n: usize)
    ensures
        n == sensor_slot(*sensor_type),
{
    match *sensor_type {
        SensorType::RaGasNO2 => 0,
        SensorType::RaGasCO => 1,
    }
}

/// The register that stores the ADC reading of a sensor at zero gas (14 or 24)
/// or at span gas (15 or 25).
pub fn adc_at_register(gas_type: &GasType, sensor_type: &SensorType) -> (r: i32)
    ensures
        r == sensor_base(sensor_slot(*sensor_type)) + adc_at_offset(*gas_type),
{
    let sensor_num = sensor_number(sensor_type);
    let register_address_offset: i32 = match *gas_type {
        GasType::Nullgas => 14,
        GasType::Messgas => 15,
    };
    (sensor_num as i32 * 10) + register_address_offset
}

/// The register that stores the minimum of a sensor (12 or 22).
pub fn min_value_register(sensor_type: &SensorType) -> (r: i32)
    ensures
        r == sensor_base(sensor_slot(*sensor_type)) + 2,
{
    match *sensor_type {
        SensorType::RaGasNO2 => 12,
        SensorType::RaGasCO => 22,
    }
}

/// The register that stores the maximum of a sensor (13 or 23).
pub fn max_value_register(sensor_type: &SensorType) -> (r: i32)
    ensures
        r == sensor_base(sensor_slot(*sensor_type)) + 3,
{
    match *sensor_type {
        SensorType::RaGasNO2 => 13,
        SensorType::RaGasCO => 23,
    }
}

/// The register that stores the zero gas concentration of a sensor (16 or 26).
pub fn concentration_nullgas_register(sensor_type: &SensorType) -> (r: i32)
    ensures
        r == sensor_base(sensor_slot(*sensor_type)) + 6,
{
    match *sensor_type {
        SensorType::RaGasNO2 => 16,
        SensorType::RaGasCO => 26,
    }
}

/// The register that stores the span gas concentration of a sensor (17 or 27).
pub fn concentration_messgas_register(sensor_type: &SensorType) -> (r: i32)
    ensures
        r == sensor_base(sensor_slot(*sensor_type)) + 7,
{
    match *sensor_type {
        SensorType::RaGasNO2 => 17,
        SensorType::RaGasCO => 27,
    }
}

/// The coil that switches a sensor cell on or off: coil 0 for the NO2 cell,
/// coil 16 for the CO cell.
pub fn enable_coil(sensor_type: &SensorType) -> (r: i32)
    ensures
        r == 16 * sensor_slot(*sensor_type),
{
    match *sensor_type {
        SensorType::RaGasNO2 => 0,
        SensorType::RaGasCO => 16,
    }
}

/// The raw Modbus request that restarts the sensor hardware: function code 0x08
/// (diagnostics), sub-function 0x0001 (restart communications), sent to `slave_id`.
pub fn restart_request(slave_id: u8) -> (r: Vec<u8>)
    ensures
        r@ == seq![slave_id, 0x08u8, 0x00u8, 0x01u8],
{
    vec![slave_id, 0x08, 0x0, 0x01]
}

/// One step of the search for a sensor on the bus.
#[derive(Debug, Clone, Copy, PartialEq, Eq)]
pub enum DiscoveryStep {
    /// Ask the sensor at this address for a register.
    Probe(u8),
    /// A sensor answered at this address.
    Found(u8),
    /// No address answered.
    NotFound,
}

/// The step after probing `probed`: a sensor that answered is found; otherwise the
/// search goes on one address lower, and ends after address 1.
pub open spec fn next_discovery_step(probed: u8, answered: bool) -> DiscoveryStep {
    if answered {
        DiscoveryStep::Found(probed)
    } else if probed > 1 {
        DiscoveryStep::Probe((probed - 1) as u8)
    } else {
        DiscoveryStep::NotFound
    }
}

/// The first step of the search: the default address 247 of the RA-Gas sensors.
pub fn discovery_start() -> (s: DiscoveryStep)
    ensures
        s == DiscoveryStep::Probe(DEFAULT_MODBUS_ADDRESS),
{
    DiscoveryStep::Probe(DEFAULT_MODBUS_ADDRESS)
}

/// The step that follows probing address `probed`, given whether a sensor answered there.
pub fn discovery_next(probed: u8, answered: bool) -> (s: DiscoveryStep)
    ensures
        s == next_discovery_step(probed, answered),
{
    if answered {
        DiscoveryStep::Found(probed)
    } else if probed > 1 {
        DiscoveryStep::Probe(probed - 1)
    } else {
        DiscoveryStep::NotFound
    }
}

/// Whether a sensor answers at address `a`.
pub open spec fn answers_at(answers: spec_fn(u8) -> bool, a: u8) -> bool {
    answers(a)
}

/// A measure that each step of the search lowers.
pub open spec fn discovery_measure(step: DiscoveryStep) -> nat {
    match step {
        DiscoveryStep::Probe(p) => p as nat + 1,
        _ => 0,
    }
}

/// Where the search ends from `step` when the addresses for which `answers` holds
/// are those at which a sensor answers.
pub open spec fn discovery_outcome(step: DiscoveryStep, answers: spec_fn(u8) -> bool) -> DiscoveryStep
    decreases discovery_measure(step),
{
    match step {
        DiscoveryStep::Probe(p) => discovery_outcome(next_discovery_step(p, answers(p)), answers),
        _ => step,
    }
}

/// From a probe at `p >= 1`, the search finds the highest answering address not above `p`,
/// and finds nothing exactly when no address in 1..=p answers.
pub proof fn lemma_discovery_from(p: u8, answers: spec_fn(u8) -> bool)
    requires
        1 <= p,
    ensures
        match discovery_outcome(DiscoveryStep::Probe(p), answers) {
            DiscoveryStep::Found(a) => 1 <= a <= p && answers(a) && forall|b: u8|
                a < b <= p ==> !#[trigger] answers_at(answers, b),
            DiscoveryStep::NotFound => forall|b: u8| 1 <= b <= p ==> !#[trigger] answers_at(answers, b),
            DiscoveryStep::Probe(_) => false,
        },
    decreases p,
{
    let next = next_discovery_step(p, answers(p));
    assert(discovery_outcome(DiscoveryStep::Probe(p), answers) == discovery_outcome(next, answers));
    if answers(p) {
        assert(discovery_outcome(next, answers) == DiscoveryStep::Found(p));
    } else if p > 1 {
        let q = (p - 1) as u8;
        lemma_discovery_from(q, answers);
        assert(!answers_at(answers, p));
        match discovery_outcome(DiscoveryStep::Probe(q), answers) {
            DiscoveryStep::Found(a) => {
                assert forall|b: u8| a < b <= p implies !#[trigger] answers_at(answers, b) by {
                    if b <= q {
                        assert(a < b <= q);
                    }
                }
            },
            DiscoveryStep::NotFound => {
                assert forall|b: u8| 1 <= b <= p implies !#[trigger] answers_at(answers, b) by {
                    if b <= q {
                        assert(1 <= b <= q);
                    }
                }
            },
            DiscoveryStep::Probe(_) => {},
        }
    } else {
        assert(discovery_outcome(next, answers) == DiscoveryStep::NotFound);
        assert forall|b: u8| 1 <= b <= p implies !#[trigger] answers_at(answers, b) by {
            assert(b == p);
        }
    }
}

/// Law: the search that starts at address 247 and goes down finds the highest address
/// in 1..=247 at which a sensor answers, and reports none exactly when no address answers.
pub proof fn lemma_discovery_finds_highest(answers: spec_fn(u8) -> bool)
    ensures
        match discovery_outcome(DiscoveryStep::Probe(DEFAULT_MODBUS_ADDRESS), answers) {
            DiscoveryStep::Found(a) => 1 <= a <= 247 && answers(a) && forall|b: u8|
                a < b <= 247 ==> !#[trigger] answers_at(answers, b),
            DiscoveryStep::NotFound => forall|b: u8| 1 <= b <= 247 ==> !#[trigger] answers_at(answers, b),
            DiscoveryStep::Probe(_) => false,
        },
{
    lemma_discovery_from(DEFAULT_MODBUS_ADDRESS, answers);
}

} // verus!
