use vstd::prelude::*;

use crate::decimal::{decimal, digit_char};
use crate::kombisensor::{
    parsed, parsed_sensor, register_image_complete, sensor_base, status_allows_load,
    status_register, version_string, with_sensor, KombisensorModel,
};
use crate::sensor::{calibrated_value, sensor_slot, value_computable, SensorModel, SensorType};

verus! {

// Reading back what a command wrote
/// The sensor `s` with the register at `offset` of its slot (2 to 7) set to `v`.
pub open spec fn with_register(s: SensorModel, offset: int, v: u16) -> SensorModel {
    if offset == 2 {
        SensorModel { min_value: v, ..s }
    } else if offset == 3 {
        SensorModel { max_value: v, ..s }
    } else if offset == 4 {
        SensorModel { adc_at_nullgas: v, ..s }
    } else if offset == 5 {
        SensorModel { adc_at_messgas: v, ..s }
    } else if offset == 6 {
        SensorModel { concentration_nullgas: v, ..s }
    } else {
        SensorModel { concentration_messgas: v, ..s }
    }
}

/// Reading an image in which one register of a loadable slot was overwritten gives the
/// state read from the old image with that one value changed.
proof fn lemma_register_write_read(
    k: KombisensorModel,
    regs: Seq<u16>,
    slot: int,
    offset: int,
    v: u16,
)
    requires
        k.sensors.len() >= 2,
        register_image_complete(regs),
        0 <= slot < 2,
        2 <= offset < 8,
        status_allows_load(regs[status_register(slot)]),
    ensures
        parsed(k, regs.update(sensor_base(slot) + offset, v)) == with_sensor(
            parsed(k, regs),
            slot,
            with_register(parsed(k, regs).sensors[slot], offset, v),
        ),
{
    let regs2 = regs.update(sensor_base(slot) + offset, v);
    let before = parsed(k, regs);
    let after = parsed(k, regs2);
    let expected = with_sensor(before, slot, with_register(before.sensors[slot], offset, v));
    assert(regs2[0] == regs[0] && regs2[1] == regs[1] && regs2[2] == regs[2]);
    assert(regs2[status_register(0)] == regs[status_register(0)]);
    assert(regs2[status_register(1)] == regs[status_register(1)]);
    let other = 1 - slot;
    assert(parsed_sensor(k.sensors[other], regs2, other) == parsed_sensor(
        k.sensors[other],
        regs,
        other,
    )) by {
        let b = sensor_base(other);
        assert(regs2[b] == regs[b]);
        assert(regs2[b + 1] == regs[b + 1]);
        assert(regs2[b + 2] == regs[b + 2]);
        assert(regs2[b + 3] == regs[b + 3]);
        assert(regs2[b + 4] == regs[b + 4]);
        assert(regs2[b + 5] == regs[b + 5]);
        assert(regs2[b + 6] == regs[b + 6]);
        assert(regs2[b + 7] == regs[b + 7]);
    }
    assert(parsed_sensor(k.sensors[slot], regs2, slot) == with_register(
        before.sensors[slot],
        offset,
        v,
    )) by {
        let b = sensor_base(slot);
        assert(regs2[b] == regs[b]);
        assert(regs2[b + 1] == regs[b + 1]);
        assert(regs2[b + offset] == v);
        if offset != 2 {
            assert(regs2[b + 2] == regs[b + 2]);
        }
        if offset != 3 {
            assert(regs2[b + 3] == regs[b + 3]);
        }
        if offset != 4 {
            assert(regs2[b + 4] == regs[b + 4]);
        }
        if offset != 5 {
            assert(regs2[b + 5] == regs[b + 5]);
        }
        if offset != 6 {
            assert(regs2[b + 6] == regs[b + 6]);
        }
        if offset != 7 {
            assert(regs2[b + 7] == regs[b + 7]);
        }
    }
    assert(after.sensors =~= expected.sensors);
    assert(after.version =~= expected.version);
}

/// Law: after the minimum of a sensor was written to the register `min_value_register`
/// names, the state read back from the sensor is the state read before with the new
/// minimum recorded as `store_min_value` records it (where the slot's status word lets
/// the slot be read at all).
pub proof fn lemma_min_value_read_back(
    k: KombisensorModel,
    regs: Seq<u16>,
    sensor_type: SensorType,
    v: u16,
)
    requires
        k.sensors.len() >= 2,
        register_image_complete(regs),
        status_allows_load(regs[status_register(sensor_slot(sensor_type))]),
    ensures
        ({
            let slot = sensor_slot(sensor_type);
            let before = parsed(k, regs);
            parsed(k, regs.update(sensor_base(slot) + 2, v)) == with_sensor(
                before,
                slot,
                SensorModel { min_value: (v as i32) as u16, ..before.sensors[slot] },
            )
        }),
{
    lemma_register_write_read(k, regs, sensor_slot(sensor_type), 2, v);
}

/// Law: reading back after writing the maximum to `max_value_register` gives the state
/// read before with the maximum recorded as `store_max_value` records it.
pub proof fn lemma_max_value_read_back(
    k: KombisensorModel,
    regs: Seq<u16>,
    sensor_type: SensorType,
    v: u16,
)
    requires
        k.sensors.len() >= 2,
        register_image_complete(regs),
        status_allows_load(regs[status_register(sensor_slot(sensor_type))]),
    ensures
        ({
            let slot = sensor_slot(sensor_type);
            let before = parsed(k, regs);
            parsed(k, regs.update(sensor_base(slot) + 3, v)) == with_sensor(
                before,
                slot,
                SensorModel { max_value: (v as i32) as u16, ..before.sensors[slot] },
            )
        }),
{
    lemma_register_write_read(k, regs, sensor_slot(sensor_type), 3, v);
}

/// Law: reading back after writing the zero gas concentration to
/// `concentration_nullgas_register` gives the state read before with the value recorded
/// as `store_concentration_nullgas` records it.
pub proof fn lemma_concentration_nullgas_read_back(
    k: KombisensorModel,
    regs: Seq<u16>,
    sensor_type: SensorType,
    v: u16,
)
    requires
        k.sensors.len() >= 2,
        register_image_complete(regs),
        status_allows_load(regs[status_register(sensor_slot(sensor_type))]),
    ensures
        ({
            let slot = sensor_slot(sensor_type);
            let before = parsed(k, regs);
            parsed(k, regs.update(sensor_base(slot) + 6, v)) == with_sensor(
                before,
                slot,
                SensorModel { concentration_nullgas: (v as i32) as u16, ..before.sensors[slot] },
            )
        }),
{
    lemma_register_write_read(k, regs, sensor_slot(sensor_type), 6, v);
}

/// Law: reading back after writing the span gas concentration to
/// `concentration_messgas_register` gives the state read before with the value recorded
/// as `store_concentration_messgas` records it.
pub proof fn lemma_concentration_messgas_read_back(
    k: KombisensorModel,
    regs: Seq<u16>,
    sensor_type: SensorType,
    v: u16,
)
    requires
        k.sensors.len() >= 2,
        register_image_complete(regs),
        status_allows_load(regs[status_register(sensor_slot(sensor_type))]),
    ensures
        ({
            let slot = sensor_slot(sensor_type);
            let before = parsed(k, regs);
            parsed(k, regs.update(sensor_base(slot) + 7, v)) == with_sensor(
                before,
                slot,
                SensorModel { concentration_messgas: (v as i32) as u16, ..before.sensors[slot] },
            )
        }),
{
    lemma_register_write_read(k, regs, sensor_slot(sensor_type), 7, v);
}

/// Law: reading back after a new ADC calibration point was written to the register
/// `adc_at_register` names gives the state read before with only that calibration point
/// of that sensor changed: the zero gas point (offset 4) or the span gas point (offset 5).
pub proof fn lemma_adc_at_read_back(
    k: KombisensorModel,
    regs: Seq<u16>,
    sensor_type: SensorType,
    offset: int,
    v: u16,
)
    requires
        k.sensors.len() >= 2,
        register_image_complete(regs),
        status_allows_load(regs[status_register(sensor_slot(sensor_type))]),
        offset == 4 || offset == 5,
    ensures
        ({
            let slot = sensor_slot(sensor_type);
            let before = parsed(k, regs);
            parsed(k, regs.update(sensor_base(slot) + offset, v)) == with_sensor(
                before,
                slot,
                if offset == 4 {
                    SensorModel { adc_at_nullgas: v, ..before.sensors[slot] }
                } else {
                    SensorModel { adc_at_messgas: v, ..before.sensors[slot] }
                },
            )
        }),
{
    lemma_register_write_read(k, regs, sensor_slot(sensor_type), offset, v);
}

// Reading the register image
/// Law: reading the same register image twice gives the same state as reading it once.
pub proof fn lemma_parse_idempotent(k: KombisensorModel, regs: Seq<u16>)
    requires
        k.sensors.len() >= 2,
        register_image_complete(regs),
    ensures
        parsed(parsed(k, regs), regs) == parsed(k, regs),
{
    let once = parsed(k, regs);
    let twice = parsed(once, regs);
    assert(twice.sensors =~= once.sensors);
}

/// Law: reading the register image changes neither the Modbus address, nor the live update
/// flag, nor the number of sensors, nor the kind and unit of either sensor.
pub proof fn lemma_parse_keeps_identity(k: KombisensorModel, regs: Seq<u16>)
    requires
        k.sensors.len() >= 2,
        register_image_complete(regs),
    ensures
        parsed(k, regs).modbus_address == k.modbus_address,
        parsed(k, regs).live_update == k.live_update,
        parsed(k, regs).sensors.len() == k.sensors.len(),
        forall|i: int|
            0 <= i < k.sensors.len() ==> (#[trigger] parsed(k, regs).sensors[i]).sensor_type
                == k.sensors[i].sensor_type && parsed(k, regs).sensors[i].si == k.sensors[i].si,
{
}

// The concentration formula
/// Law: at the zero gas reading the concentration is the zero gas concentration.
pub proof fn lemma_value_at_nullgas(s: SensorModel)
    requires
        s.adc_value == s.adc_at_nullgas,
    ensures
        calibrated_value(s) == s.concentration_nullgas,
{
}

/// Law: the concentration does not decrease when the ADC reading grows.
pub proof fn lemma_value_monotonic(s1: SensorModel, s2: SensorModel)
    requires
        value_computable(s1),
        value_computable(s2),
        s2 == (SensorModel { adc_value: s2.adc_value, ..s1 }),
        s1.adc_value <= s2.adc_value,
    ensures
        calibrated_value(s1) <= calibrated_value(s2),
{
    let q = crate::sensor::calibration_slope(s1);
    let d1 = s1.adc_value - s1.adc_at_nullgas;
    let d2 = s2.adc_value - s2.adc_at_nullgas;
    assert(q >= 0) by (nonlinear_arith)
        requires
            q == (s1.concentration_messgas - s1.concentration_nullgas) / (
            crate::sensor::effective_adc_at_messgas(s1) - s1.adc_at_nullgas),
            s1.concentration_nullgas <= s1.concentration_messgas,
            s1.adc_at_nullgas < crate::sensor::effective_adc_at_messgas(s1),
    ;
    assert(q * d1 <= q * d2) by (nonlinear_arith)
        requires
            q >= 0,
            0 <= d1 <= d2,
    ;
}

/// Law: at the span gas reading the concentration does not exceed the span gas
/// concentration (the slope is rounded down).
pub proof fn lemma_value_at_messgas(s: SensorModel)
    requires
        value_computable(s),
        s.adc_at_messgas != 0,
        s.adc_value == s.adc_at_messgas,
    ensures
        calibrated_value(s) <= s.concentration_messgas,
{
    let num = s.concentration_messgas - s.concentration_nullgas;
    let den = s.adc_at_messgas - s.adc_at_nullgas;
    assert((num / den) * den <= num) by (nonlinear_arith)
        requires
            num >= 0,
            den > 0,
    ;
}

// The firmware version
/// The number that a string of decimal digits denotes.
pub open spec fn decimal_value(digits: Seq<char>) -> int
    decreases digits.len(),
{
    if digits.len() == 0 {
        0
    } else {
        decimal_value(digits.drop_last()) * 10 + digit_value(digits.last())
    }
}

/// The value of a decimal digit character.
pub open spec fn digit_value(c: char) -> int {
    if c == '1' {
        1
    } else if c == '2' {
        2
    } else if c == '3' {
        3
    } else if c == '4' {
        4
    } else if c == '5' {
        5
    } else if c == '6' {
        6
    } else if c == '7' {
        7
    } else if c == '8' {
        8
    } else if c == '9' {
        9
    } else {
        0
    }
}

/// Law: the decimal notation reads back as the number it was made from.
pub proof fn lemma_decimal_round_trip(n: nat)
    ensures
        decimal_value(decimal(n)) == n,
    decreases n,
{
    if n < 10 {
        let s = decimal(n);
        assert(s.drop_last() =~= Seq::<char>::empty());
        assert(decimal_value(Seq::<char>::empty()) == 0);
        assert(s.last() == digit_char(n as int));
        assert(digit_value(digit_char(n as int)) == n);
        assert(decimal_value(s) == decimal_value(s.drop_last()) * 10 + digit_value(s.last()));
    } else {
        lemma_decimal_round_trip(n / 10);
        let s = decimal(n);
        let d = (n % 10) as int;
        assert(s.drop_last() =~= decimal(n / 10));
        assert(s.last() == digit_char(d));
        assert(digit_value(digit_char(d)) == d);
        assert(decimal_value(s) == decimal_value(s.drop_last()) * 10 + digit_value(s.last()));
        assert((n / 10) * 10 + d == n);
    }
}

/// Law: a decimal notation holds no '.', so the version string "major.minor.patch" splits
/// at its two dots back into the three decimal numbers.
pub proof fn lemma_version_splits(major: u16, minor: u16, patch: u16)
    ensures
        forall|i: int|
            0 <= i < decimal(major as nat).len() ==> #[trigger] decimal(major as nat)[i] != '.',
        forall|i: int|
            0 <= i < decimal(minor as nat).len() ==> #[trigger] decimal(minor as nat)[i] != '.',
        forall|i: int|
            0 <= i < decimal(patch as nat).len() ==> #[trigger] decimal(patch as nat)[i] != '.',
        version_string(major, minor, patch) == decimal(major as nat) + seq!['.'] + decimal(
            minor as nat,
        ) + seq!['.'] + decimal(patch as nat),
        decimal_value(decimal(major as nat)) == major,
        decimal_value(decimal(minor as nat)) == minor,
        decimal_value(decimal(patch as nat)) == patch,
{
    lemma_no_dot(major as nat);
    lemma_no_dot(minor as nat);
    lemma_no_dot(patch as nat);
    lemma_decimal_round_trip(major as nat);
    lemma_decimal_round_trip(minor as nat);
    lemma_decimal_round_trip(patch as nat);
}

proof fn lemma_no_dot(n: nat)
    ensures
        forall|i: int| 0 <= i < decimal(n).len() ==> #[trigger] decimal(n)[i] != '.',
{
    crate::decimal::lemma_decimal_digits(n);
    assert forall|i: int| 0 <= i < decimal(n).len() implies #[trigger] decimal(n)[i] != '.' by {
        assert(crate::decimal::is_digit(decimal(n)[i]));
        let d = choose|d: int| 0 <= d < 10 && digit_char(d) == decimal(n)[i];
        assert(digit_char(d) != '.');
    }
}

// The sensor slots
/// Law: a freshly created combination sensor carries, in the slot that the commands
/// address for a kind of cell, a sensor of exactly that kind.
pub proof fn lemma_fresh_slots_match_kinds(sensor_type: SensorType)
    ensures
        crate::kombisensor::fresh_kombisensor().sensors[sensor_slot(sensor_type)].sensor_type
            == sensor_type,
{
}

// What reading the register image does, register by register
/// Law: a slot's status word lets the slot be read exactly when bit 1 of the word is clear,
/// whatever its other bits are.
pub proof fn lemma_status_word_bit_one(word: u16)
    ensures
        status_allows_load(word) == ((word >> 1u16) & 1u16 == 0u16),
{
    assert(((word / 2) % 2 == 0) == ((word >> 1u16) & 1u16 == 0u16)) by (bit_vector);
}

/// Law: reading a register image sets the version to the three first registers in decimal,
/// separated by dots; where bit 1 of the status word of a slot (register 18 or 28) is clear,
/// that slot's sensor takes over the eight registers 10..17 or 20..27, unchanged and in order
/// (number, ADC reading, minimum, maximum, ADC at zero gas, ADC at span gas, concentration
/// of zero gas, concentration of span gas); where that bit is set, the sensor stays as it
/// was. The kind and unit of each sensor never change.
pub proof fn lemma_parse_registers(k: KombisensorModel, regs: Seq<u16>, slot: int)
    requires
        k.sensors.len() >= 2,
        regs.len() >= 29,
        slot == 0 || slot == 1,
    ensures
        parsed(k, regs).version == decimal(regs[0] as nat) + seq!['.'] + decimal(regs[1] as nat)
            + seq!['.'] + decimal(regs[2] as nat),
        parsed(k, regs).sensors[slot].sensor_type == k.sensors[slot].sensor_type,
        parsed(k, regs).sensors[slot].si == k.sensors[slot].si,
        ((regs[18 + 10 * slot] >> 1u16) & 1u16 == 0u16) ==> {
            let s = parsed(k, regs).sensors[slot];
            &&& s.number == regs[10 + 10 * slot]
            &&& s.adc_value == regs[11 + 10 * slot]
            &&& s.min_value == regs[12 + 10 * slot]
            &&& s.max_value == regs[13 + 10 * slot]
            &&& s.adc_at_nullgas == regs[14 + 10 * slot]
            &&& s.adc_at_messgas == regs[15 + 10 * slot]
            &&& s.concentration_nullgas == regs[16 + 10 * slot]
            &&& s.concentration_messgas == regs[17 + 10 * slot]
        },
        ((regs[18 + 10 * slot] >> 1u16) & 1u16 != 0u16) ==> parsed(k, regs).sensors[slot]
            == k.sensors[slot],
{
    lemma_status_word_bit_one(regs[18 + 10 * slot]);
}

// Where the concentration is defined
/// Law: the concentration can be computed wherever every 16-bit step of the formula is
/// defined: the span gas concentration is not below the zero gas concentration, the zero gas
/// ADC reading lies below the span gas ADC reading (0 counting as 1), the current reading is
/// not below the zero gas reading, and the result fits in 16 bits.
pub proof fn lemma_value_computable_exactly(s: SensorModel)
    ensures
        value_computable(s) <==> ({
            let adc_mess: int = if s.adc_at_messgas == 0 { 1 } else { s.adc_at_messgas as int };
            &&& s.concentration_nullgas <= s.concentration_messgas
            &&& s.adc_at_nullgas < adc_mess
            &&& s.adc_at_nullgas <= s.adc_value
            &&& calibrated_value(s) <= 65535
        }),
{
}

/// Law: at the zero gas reading the concentration is always available, and it is the zero
/// gas concentration, whenever the calibration points are ordered (zero gas concentration
/// not above span gas concentration, zero gas ADC reading below the span gas one).
pub proof fn lemma_value_defined_at_nullgas(s: SensorModel)
    requires
        s.adc_value == s.adc_at_nullgas,
        s.concentration_nullgas <= s.concentration_messgas,
        s.adc_at_nullgas < (if s.adc_at_messgas == 0 { 1 } else { s.adc_at_messgas as int }),
    ensures
        value_computable(s),
        calibrated_value(s) == s.concentration_nullgas,
{
    let q = crate::sensor::calibration_slope(s);
    assert(q * 0 == 0) by (nonlinear_arith);
}

/// Law: if the concentration can be computed for a reading, it can be computed for every
/// lower reading down to the zero gas reading.
pub proof fn lemma_value_computable_below(s1: SensorModel, s2: SensorModel)
    requires
        value_computable(s1),
        s2 == (SensorModel { adc_value: s2.adc_value, ..s1 }),
        s1.adc_at_nullgas <= s2.adc_value <= s1.adc_value,
    ensures
        value_computable(s2),
        calibrated_value(s2) <= calibrated_value(s1),
{
    let q = crate::sensor::calibration_slope(s1);
    let d1 = s1.adc_value - s1.adc_at_nullgas;
    let d2 = s2.adc_value - s2.adc_at_nullgas;
    assert(q >= 0) by (nonlinear_arith)
        requires
            q == (s1.concentration_messgas - s1.concentration_nullgas) / (
            crate::sensor::effective_adc_at_messgas(s1) - s1.adc_at_nullgas),
            s1.concentration_nullgas <= s1.concentration_messgas,
            s1.adc_at_nullgas < crate::sensor::effective_adc_at_messgas(s1),
    ;
    assert(q * d2 <= q * d1) by (nonlinear_arith)
        requires
            q >= 0,
            0 <= d2 <= d1,
    ;
}

/// Law: the millivolt value starts at 0 and grows by exactly 4 (= 5000 / 1024 rounded down)
/// per ADC step, so it never exceeds the exact conversion reading * 5000 / 1024.
pub proof fn lemma_millivolts_steps(a: u16)
    ensures
        crate::sensor::millivolts(0) == 0,
        a < u16::MAX ==> crate::sensor::millivolts((a + 1) as u16) == crate::sensor::millivolts(a) + 4,
        crate::sensor::millivolts(a) * 1024 <= a * 5000,
{
}

} // verus!

