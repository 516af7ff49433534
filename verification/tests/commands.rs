use co_no2_calibrator::commands::{
    adc_at_register, concentration_messgas_register, concentration_nullgas_register,
    discovery_next, discovery_start, enable_coil, max_value_register, min_value_register,
    restart_request, sensor_number, DiscoveryStep, MODBUS_ADDRESS_REGISTER,
};
use co_no2_calibrator::gas::GasType;
use co_no2_calibrator::kombisensor::{Kombisensor, REGISTER_COUNT};
use co_no2_calibrator::sensor::SensorType;

#[test]
fn register_addresses() {
    let no2 = SensorType::RaGasNO2;
    let co = SensorType::RaGasCO;
    assert_eq!(sensor_number(&no2), 0);
    assert_eq!(sensor_number(&co), 1);
    assert_eq!(adc_at_register(&GasType::Nullgas, &no2), 14);
    assert_eq!(adc_at_register(&GasType::Messgas, &no2), 15);
    assert_eq!(adc_at_register(&GasType::Nullgas, &co), 24);
    assert_eq!(adc_at_register(&GasType::Messgas, &co), 25);
    assert_eq!(min_value_register(&no2), 12);
    assert_eq!(min_value_register(&co), 22);
    assert_eq!(max_value_register(&no2), 13);
    assert_eq!(max_value_register(&co), 23);
    assert_eq!(concentration_nullgas_register(&no2), 16);
    assert_eq!(concentration_nullgas_register(&co), 26);
    assert_eq!(concentration_messgas_register(&no2), 17);
    assert_eq!(concentration_messgas_register(&co), 27);
    assert_eq!(enable_coil(&no2), 0);
    assert_eq!(enable_coil(&co), 16);
    assert_eq!(MODBUS_ADDRESS_REGISTER, 3);
}

#[test]
fn restart_request_bytes() {
    assert_eq!(restart_request(247), vec![247, 0x08, 0x00, 0x01]);
    assert_eq!(restart_request(1), vec![1, 8, 0, 1]);
}

fn discover(answers: &dyn Fn(u8) -> bool) -> (DiscoveryStep, usize) {
    let mut step = discovery_start();
    let mut probes = 0;
    while let DiscoveryStep::Probe(address) = step {
        probes += 1;
        step = discovery_next(address, answers(address));
    }
    (step, probes)
}

#[test]
fn discovery_starts_at_default_address() {
    assert_eq!(discovery_start(), DiscoveryStep::Probe(247));
    assert_eq!(discover(&|_| true), (DiscoveryStep::Found(247), 1));
}

#[test]
fn discovery_finds_highest_answering_address() {
    assert_eq!(discover(&|a| a == 5 || a == 100), (DiscoveryStep::Found(100), 148));
    assert_eq!(discover(&|a| a == 1), (DiscoveryStep::Found(1), 247));
}

#[test]
fn discovery_reports_nothing_when_no_address_answers() {
    assert_eq!(discover(&|_| false), (DiscoveryStep::NotFound, 247));
    assert_eq!(discovery_next(1, false), DiscoveryStep::NotFound);
    assert_eq!(discovery_next(0, false), DiscoveryStep::NotFound);
    assert_eq!(discovery_next(2, false), DiscoveryStep::Probe(1));
    assert_eq!(discovery_next(9, true), DiscoveryStep::Found(9));
}

fn image() -> Vec<u16> {
    let mut regs = vec![0u16; REGISTER_COUNT as usize];
    for (i, r) in regs.iter_mut().enumerate() {
        *r = 100 + i as u16;
    }
    regs[18] = 0;
    regs[28] = 0;
    regs
}

#[test]
fn written_register_reads_back_as_stored_value() {
    for t in [SensorType::RaGasNO2, SensorType::RaGasCO] {
        let n = sensor_number(&t);
        let mut regs = image();
        regs[min_value_register(&t) as usize] = 4321;
        regs[max_value_register(&t) as usize] = 4322;
        regs[concentration_nullgas_register(&t) as usize] = 4323;
        regs[concentration_messgas_register(&t) as usize] = 4324;
        regs[adc_at_register(&GasType::Nullgas, &t) as usize] = 4325;
        regs[adc_at_register(&GasType::Messgas, &t) as usize] = 4326;
        let mut read_back = Kombisensor::new();
        read_back.parse_modbus_registers(regs);

        let mut stored = Kombisensor::new();
        stored.parse_modbus_registers(image());
        stored.store_min_value(&t, 4321);
        stored.store_max_value(&t, 4322);
        stored.store_concentration_nullgas(&t, 4323);
        stored.store_concentration_messgas(&t, 4324);

        for i in 0..2 {
            let (a, b) = (&read_back.sensors[i], &stored.sensors[i]);
            assert_eq!(a.get_number(), b.get_number());
            assert_eq!(a.get_adc_value(), b.get_adc_value());
            assert_eq!(a.get_min_value(), b.get_min_value());
            assert_eq!(a.get_max_value(), b.get_max_value());
            assert_eq!(a.get_concentration_nullgas(), b.get_concentration_nullgas());
            assert_eq!(a.get_concentration_messgas(), b.get_concentration_messgas());
        }
        assert_eq!(read_back.sensors[n].get_adc_at_nullgas(), 4325);
        assert_eq!(read_back.sensors[n].get_adc_at_messgas(), 4326);
        assert_eq!(read_back.sensors[1 - n].get_adc_at_nullgas(), stored.sensors[1 - n].get_adc_at_nullgas());
    }
}
