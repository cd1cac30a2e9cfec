use std::collections::HashMap;
use vl6180x::bus::{byte_read, high_byte, low_byte, word, word_read};
use vl6180x::init::{configuration_write, init_write, reset_write, PRIVATE_REGISTERS};
use vl6180x::protocol::{advance, begin, convert_raw_range_to_mm, scaling_of_code, unscaled_ptp_offset};
use vl6180x::{
    Access, Action, AmbientInterruptMode, AmbientStatusErrorCode, Channel, Config, Cursor,
    DynamicMode, Error, ModeType, OperatingMode, Operation, RangeInterruptMode,
    RangeStatusErrorCode, ReadyMode, Reply, Stage, Step, VL6180X,
};

/// A register file that answers the actions of the driver as a sensor would.
struct Device {
    address: u8,
    registers: HashMap<u16, u8>,
    writes: Vec<(u16, Vec<u8>)>,
    reads: Vec<u16>,
    pin: Vec<bool>,
    /// The interrupt status reads as 0 this many times before its register shows.
    quiet_polls: usize,
    /// The reads of the boot flag fail this many times.
    boot_failures: usize,
    /// The action with this number (from 0) fails.
    fail_at: Option<usize>,
    performed: usize,
}

impl Device {
    fn new() -> Device {
        let mut registers = HashMap::new();
        registers.insert(0x000, 0xB4);
        registers.insert(0x016, 0x01);
        registers.insert(0x024, 17);
        registers.insert(0x02D, 0b0001_0000);
        Device {
            address: 0x29,
            registers,
            writes: Vec::new(),
            reads: Vec::new(),
            pin: Vec::new(),
            quiet_polls: 0,
            boot_failures: 0,
            fail_at: None,
            performed: 0,
        }
    }

    fn get(&self, register: u16) -> u8 {
        *self.registers.get(&register).unwrap_or(&0)
    }

    fn perform(&mut self, action: Action) -> Reply<&'static str> {
        let number = self.performed;
        self.performed += 1;
        if self.fail_at == Some(number) {
            return Reply::Failed("broken");
        }
        match action {
            Action::ShutdownPin { high } => {
                self.pin.push(high);
                Reply::Done([0, 0])
            }
            Action::Bus { address, access } => {
                if address != self.address {
                    return Reply::Failed("nobody answers");
                }
                let bytes = access.frame();
                let register = u16::from_be_bytes([bytes[0], bytes[1]]);
                let read_len = access.read_len();
                if read_len == 0 {
                    let data = bytes[2..].to_vec();
                    for (i, byte) in data.iter().enumerate() {
                        self.registers.insert(register + i as u16, *byte);
                    }
                    if register == 0x212 {
                        self.address = data[0];
                    }
                    if register == 0x015 {
                        let mut status = self.get(0x04F);
                        if data[0] & 0b001 != 0 {
                            status &= !0b00_000_111;
                        }
                        if data[0] & 0b010 != 0 {
                            status &= !0b00_111_000;
                        }
                        if data[0] & 0b100 != 0 {
                            status &= !0b11_000_000;
                        }
                        self.registers.insert(0x04F, status);
                    }
                    self.writes.push((register, data));
                    Reply::Done([0, 0])
                } else {
                    assert_eq!(bytes.len(), 2);
                    self.reads.push(register);
                    if register == 0x016 && self.boot_failures > 0 {
                        self.boot_failures -= 1;
                        return Reply::Failed("still booting");
                    }
                    if register == 0x04F && self.quiet_polls > 0 {
                        self.quiet_polls -= 1;
                        return Reply::Done([0, 0xEE]);
                    }
                    let mut data = [0xEE, 0xEE];
                    for i in 0..read_len {
                        data[i] = self.get(register + i as u16);
                    }
                    Reply::Done(data)
                }
            }
        }
    }
}

fn drive<MODE: ModeType>(
    sensor: &mut VL6180X<MODE>,
    device: &mut Device,
    first: Step<&'static str>,
) -> Result<u16, Error<&'static str>> {
    let mut step = first;
    loop {
        match step {
            Step::Done(result) => return result,
            Step::Perform { cursor, action } => {
                let reply = device.perform(action);
                step = sensor.resume(cursor, reply);
            }
        }
    }
}

fn try_drive(
    sensor: &mut VL6180X<DynamicMode>,
    device: &mut Device,
    first: Step<&'static str>,
) -> Result<u16, Error<&'static str>> {
    let mut step = first;
    loop {
        match step {
            Step::Done(result) => return result,
            Step::Perform { cursor, action } => {
                let reply = device.perform(action);
                step = sensor.try_resume(cursor, reply);
            }
        }
    }
}

fn ready_sensor(device: &mut Device, config: &Config) -> VL6180X<ReadyMode> {
    let (mut sensor, first) = VL6180X::with_config(config);
    assert_eq!(drive(&mut sensor, device, first), Ok(0));
    device.writes.clear();
    device.reads.clear();
    device.performed = 0;
    sensor
}

fn dynamic_sensor(device: &mut Device) -> VL6180X<DynamicMode> {
    ready_sensor(device, &Config::new()).into_dynamic_mode()
}

fn byte_writes(list: &[(u16, u8)]) -> Vec<(u16, Vec<u8>)> {
    list.iter().map(|(register, value)| (*register, vec![*value])).collect()
}

fn default_configuration_writes(ptp_offset: u8) -> Vec<(u16, Vec<u8>)> {
    vec![
        (0x10A, vec![48]),
        (0x03F, vec![0x40]),
        (0x120, vec![1]),
        (0x031, vec![255]),
        (0x040, vec![0, 99]),
        (0x03E, vec![49]),
        (0x02E, vec![1]),
        (0x01B, vec![9]),
        (0x014, vec![0x24]),
        (0x011, vec![0x30]),
        (0x019, vec![0xFF]),
        (0x01A, vec![0]),
        (0x03A, vec![0xFF, 0xFF]),
        (0x03C, vec![0, 0]),
        (0x01C, vec![49]),
        (0x2A3, vec![0]),
        (0x096, vec![0, 253]),
        (0x024, vec![ptp_offset]),
        (0x021, vec![20]),
    ]
}

#[test]
fn words_go_most_significant_byte_first() {
    assert_eq!(high_byte(0x2A3), 0x02);
    assert_eq!(low_byte(0x2A3), 0xA3);
    assert_eq!(word(0x02, 0xA3), 0x2A3);
    assert_eq!(word(0xFF, 0xFF), 0xFFFF);
    assert_eq!(byte_read([7, 9]), 7);
    assert_eq!(word_read([0x12, 0x34]), 0x1234);
    for value in [0u16, 1, 255, 256, 0x1234, 0xFFFF] {
        assert_eq!(word(high_byte(value), low_byte(value)), value);
    }
}

#[test]
fn accesses_are_framed_as_the_bus_wants_them() {
    let read_byte = Access::ReadByte { register: 0x04F };
    assert_eq!(read_byte.frame(), vec![0x00, 0x4F]);
    assert_eq!(read_byte.read_len(), 1);
    assert_eq!(read_byte.register(), 0x04F);

    let read_word = Access::ReadWord { register: 0x050 };
    assert_eq!(read_word.frame(), vec![0x00, 0x50]);
    assert_eq!(read_word.read_len(), 2);

    let write_byte = Access::WriteByte { register: 0x212, value: 0x30 };
    assert_eq!(write_byte.frame(), vec![0x02, 0x12, 0x30]);
    assert_eq!(write_byte.read_len(), 0);

    let write_word = Access::WriteWord { register: 0x096, value: 0x1234 };
    assert_eq!(write_word.frame(), vec![0x00, 0x96, 0x12, 0x34]);
    assert_eq!(write_word.read_len(), 0);
    assert_eq!(write_word.register(), 0x096);
}

#[test]
fn raw_range_is_scaled_to_mm() {
    let mut config = Config::new();
    assert_eq!(convert_raw_range_to_mm(&config, 0), 0);
    assert_eq!(convert_raw_range_to_mm(&config, 123), 123);
    config.set_range_scaling(2).unwrap();
    for raw in 0u8..=255 {
        assert_eq!(convert_raw_range_to_mm(&config, raw), 2 * raw as u16);
    }
    config.set_range_scaling(3).unwrap();
    assert_eq!(convert_raw_range_to_mm(&config, 255), 765);
}

#[test]
fn scaling_two_gives_scaler_code_127_and_doubles_the_range() {
    let mut config = Config::new();
    config.set_range_scaling(2).unwrap();
    assert_eq!(
        configuration_write(&config, 16),
        Some(Access::WriteWord { register: 0x096, value: 127 })
    );
    assert_eq!(scaling_of_code(127), 2);

    let mut device = Device::new();
    let mut sensor = ready_sensor(&mut device, &config);
    assert_eq!(device.get(0x096), 0);
    assert_eq!(device.get(0x097), 127);
    device.registers.insert(0x04F, 0b00_000_100);
    device.registers.insert(0x062, 77);
    let first = sensor.read_range_mm();
    assert_eq!(drive(&mut sensor, &mut device, first), Ok(154));
}

#[test]
fn scaler_codes_stand_for_their_scaling() {
    assert_eq!(scaling_of_code(253), 1);
    assert_eq!(scaling_of_code(127), 2);
    assert_eq!(scaling_of_code(84), 3);
    assert_eq!(scaling_of_code(0), 1);
    assert_eq!(scaling_of_code(1000), 1);
    assert_eq!(unscaled_ptp_offset(17, 1), 17);
    assert_eq!(unscaled_ptp_offset(17, 2), 34);
    assert_eq!(unscaled_ptp_offset(17, 3), 51);
    assert_eq!(unscaled_ptp_offset(200, 2), 144);
}

#[test]
fn derived_register_values_of_the_defaults() {
    let config = Config::new();
    let expected = default_configuration_writes(0);
    for (index, (register, data)) in expected.iter().enumerate() {
        let write = configuration_write(&config, index).unwrap();
        assert_eq!(write.register(), *register);
        assert_eq!(write.frame()[2..].to_vec(), *data);
    }
    assert_eq!(configuration_write(&config, 19), None);
}

#[test]
fn derived_register_values_follow_the_configuration() {
    let mut config = Config::new();
    config.set_readout_averaging_period_multiplier(10).unwrap();
    config.set_ambient_analogue_gain_level(7).unwrap();
    config.ambient_integration_period(3);
    config.set_ambient_integration_period(256).unwrap();
    config.set_ambient_inter_measurement_period(2560).unwrap();
    config.set_range_max_convergence_time(30).unwrap();
    config.set_range_inter_measurement_period(2550).unwrap();
    config.set_range_interrupt_mode(RangeInterruptMode::Disabled);
    config.set_ambient_interrupt_mode(AmbientInterruptMode::Disabled);
    config.set_range_interrupt_thresholds(5, 6);
    config.set_ambient_interrupt_thresholds(0x0102, 0x0304);
    config.set_range_scaling(3).unwrap();
    let expected: Vec<(u16, Vec<u8>)> = vec![
        (0x10A, vec![10]),
        (0x03F, vec![0x47]),
        (0x120, vec![1]),
        (0x031, vec![3]),
        (0x040, vec![0, 255]),
        (0x03E, vec![255]),
        (0x02E, vec![1]),
        (0x01B, vec![254]),
        (0x014, vec![0x00]),
        (0x011, vec![0x20]),
        (0x019, vec![6]),
        (0x01A, vec![5]),
        (0x03A, vec![3, 4]),
        (0x03C, vec![1, 2]),
        (0x01C, vec![30]),
        (0x2A3, vec![0]),
        (0x096, vec![0, 84]),
        (0x024, vec![0]),
        (0x021, vec![6]),
    ];
    for (index, (register, data)) in expected.iter().enumerate() {
        let write = configuration_write(&config, index).unwrap();
        assert_eq!(write.register(), *register);
        assert_eq!(write.frame()[2..].to_vec(), *data);
    }
}

#[test]
fn gain_levels_index_the_gain_table() {
    let codes = [0x46u8, 0x45, 0x44, 0x43, 0x42, 0x41, 0x40, 0x47];
    let mut config = Config::new();
    for level in 0u8..8 {
        config.set_ambient_analogue_gain_level(level).unwrap();
        assert_eq!(
            configuration_write(&config, 1),
            Some(Access::WriteByte { register: 0x03F, value: codes[level as usize] })
        );
    }
}

#[test]
fn reset_writes_are_the_private_registers_and_the_flag() {
    assert_eq!(PRIVATE_REGISTERS.len(), 30);
    assert_eq!(reset_write(0), Some(Access::WriteByte { register: 0x207, value: 0x01 }));
    assert_eq!(reset_write(3), Some(Access::WriteByte { register: 0x097, value: 0xFD }));
    assert_eq!(reset_write(29), Some(Access::WriteByte { register: 0x030, value: 0x00 }));
    assert_eq!(reset_write(30), Some(Access::WriteByte { register: 0x016, value: 0 }));
    assert_eq!(reset_write(31), None);
    let config = Config::new();
    assert_eq!(init_write(&config, true, 30), reset_write(30));
    assert_eq!(init_write(&config, true, 31), configuration_write(&config, 0));
    assert_eq!(init_write(&config, true, 49), configuration_write(&config, 18));
    assert_eq!(init_write(&config, true, 50), None);
    assert_eq!(init_write(&config, false, 0), configuration_write(&config, 0));
    assert_eq!(init_write(&config, false, 19), None);
}

#[test]
fn initialising_a_fresh_device() {
    let mut device = Device::new();
    let (mut sensor, first) = VL6180X::<ReadyMode>::new();
    assert_eq!(drive(&mut sensor, &mut device, first), Ok(0));

    let mut expected = byte_writes(&PRIVATE_REGISTERS);
    expected.push((0x016, vec![0]));
    expected.extend(default_configuration_writes(17));
    expected.push((0x02D, vec![0b0001_0001]));
    assert_eq!(device.writes, expected);
    assert_eq!(device.reads, vec![0x000, 0x024, 0x016, 0x02D]);
    assert_eq!(sensor.config().settings().ptp_offset, 17);
    let mut values = Config::new().settings();
    values.ptp_offset = 17;
    assert_eq!(sensor.config().settings(), values);
}

#[test]
fn initialising_a_device_that_is_configured_already() {
    let mut device = Device::new();
    device.registers.insert(0x016, 0x00);
    // the device runs at a range scaling of 2 and holds half its offset
    device.registers.insert(0x096, 0);
    device.registers.insert(0x097, 127);
    device.registers.insert(0x024, 8);
    device.registers.insert(0x02D, 0b0001_0001);
    let mut config = Config::new();
    config.set_range_scaling(3).unwrap();
    let (mut sensor, first) = VL6180X::with_config(&config);
    assert_eq!(drive(&mut sensor, &mut device, first), Ok(0));

    assert_eq!(device.reads, vec![0x000, 0x024, 0x016, 0x096, 0x02D]);
    assert_eq!(sensor.config().settings().ptp_offset, 16);
    let mut expected = default_configuration_writes(5);
    expected[16] = (0x096, vec![0, 84]);
    expected[18] = (0x021, vec![6]);
    expected.push((0x02D, vec![0b0001_0000]));
    assert_eq!(device.writes, expected);
}

#[test]
fn initialising_another_device_fails() {
    let mut device = Device::new();
    device.registers.insert(0x000, 0xB5);
    let (mut sensor, first) = VL6180X::<ReadyMode>::new();
    assert_eq!(drive(&mut sensor, &mut device, first), Err(Error::InvalidDevice(0xB5)));
    assert_eq!(device.writes, vec![]);
    assert_eq!(device.reads, vec![0x000]);
}

#[test]
fn a_bus_error_ends_the_initialisation() {
    for failing in [0usize, 1, 2, 3, 20, 52, 53, 54] {
        let mut device = Device::new();
        device.fail_at = Some(failing);
        let (mut sensor, first) = VL6180X::<ReadyMode>::new();
        assert_eq!(drive(&mut sensor, &mut device, first), Err(Error::BusError("broken")));
        assert_eq!(device.performed, failing + 1);
    }
    let mut device = Device::new();
    device.fail_at = Some(55);
    let (mut sensor, first) = VL6180X::<ReadyMode>::new();
    assert_eq!(drive(&mut sensor, &mut device, first), Ok(0));
    assert_eq!(device.performed, 55);
}

#[test]
fn read_range_without_a_result_is_not_ready() {
    let mut device = Device::new();
    let mut sensor = ready_sensor(&mut device, &Config::new());
    device.registers.insert(0x04F, 0b00_100_000);
    let first = sensor.read_range_mm();
    assert_eq!(drive(&mut sensor, &mut device, first), Err(Error::ResultNotReady));
    assert_eq!(device.reads, vec![0x04F]);
    assert_eq!(device.writes, vec![]);
}

#[test]
fn read_range_reads_the_value_and_clears_the_interrupt() {
    let mut device = Device::new();
    let mut sensor = ready_sensor(&mut device, &Config::new());
    device.registers.insert(0x04F, 0b00_100_100);
    device.registers.insert(0x04D, 0b0000_0001);
    device.registers.insert(0x062, 200);
    let first = sensor.read_range_mm();
    assert_eq!(drive(&mut sensor, &mut device, first), Ok(200));
    assert_eq!(device.reads, vec![0x04F, 0x04D, 0x062]);
    assert_eq!(device.writes, vec![(0x015, vec![0b001])]);
    assert_eq!(device.get(0x04F), 0b00_100_000);
}

#[test]
fn read_range_reports_the_status_of_the_measurement() {
    let mut device = Device::new();
    let mut sensor = ready_sensor(&mut device, &Config::new());
    device.registers.insert(0x04F, 0b00_000_100);
    device.registers.insert(0x062, 200);

    device.registers.insert(0x04D, 0b0110_0000);
    let first = sensor.read_range_mm();
    assert_eq!(
        drive(&mut sensor, &mut device, first),
        Err(Error::RangeStatusError(RangeStatusErrorCode::EarlyConvergenceEstimate))
    );
    device.registers.insert(0x04D, 0b1111_0001);
    let first = sensor.read_range_mm_blocking();
    assert_eq!(
        drive(&mut sensor, &mut device, first),
        Err(Error::RangeStatusError(RangeStatusErrorCode::RangingAlgoOverflow))
    );
    device.registers.insert(0x04D, 0b1001_0000);
    let first = sensor.read_range_mm();
    assert_eq!(drive(&mut sensor, &mut device, first), Err(Error::UnknownRegisterCode(0b1001)));
    // the value was never read and the interrupt stays
    assert_eq!(device.reads, vec![0x04F, 0x04D, 0x04F, 0x04D, 0x04F, 0x04D]);
    assert_eq!(device.writes, vec![]);
}

#[test]
fn read_ambient_reads_two_bytes() {
    let mut device = Device::new();
    let mut sensor = ready_sensor(&mut device, &Config::new());
    device.registers.insert(0x04F, 0b00_100_100);
    device.registers.insert(0x04E, 0b0000_0000);
    device.registers.insert(0x050, 0x12);
    device.registers.insert(0x051, 0x34);
    let first = sensor.read_ambient();
    assert_eq!(drive(&mut sensor, &mut device, first), Ok(0x1234));
    assert_eq!(device.reads, vec![0x04F, 0x04E, 0x050]);
    assert_eq!(device.writes, vec![(0x015, vec![0b010])]);
    assert_eq!(device.get(0x04F), 0b00_000_100);

    let first = sensor.read_ambient();
    assert_eq!(drive(&mut sensor, &mut device, first), Err(Error::ResultNotReady));
}

#[test]
fn read_ambient_reports_the_status_of_the_measurement() {
    let mut device = Device::new();
    let mut sensor = ready_sensor(&mut device, &Config::new());
    device.registers.insert(0x04F, 0b00_100_000);
    device.registers.insert(0x04E, 0b0001_0000);
    let first = sensor.read_ambient();
    assert_eq!(
        drive(&mut sensor, &mut device, first),
        Err(Error::AmbientStatusError(AmbientStatusErrorCode::Overflow))
    );
    device.registers.insert(0x04E, 0b0010_0000);
    let first = sensor.read_ambient_blocking();
    assert_eq!(
        drive(&mut sensor, &mut device, first),
        Err(Error::AmbientStatusError(AmbientStatusErrorCode::Underflow))
    );
    device.registers.insert(0x04E, 0b0011_0000);
    let first = sensor.read_ambient();
    assert_eq!(drive(&mut sensor, &mut device, first), Err(Error::UnknownRegisterCode(3)));
}

#[test]
fn blocking_read_polls_until_the_result_is_there() {
    let mut device = Device::new();
    let mut sensor = ready_sensor(&mut device, &Config::new());
    device.registers.insert(0x04F, 0b00_000_100);
    device.registers.insert(0x062, 42);
    device.quiet_polls = 499;
    let first = sensor.read_range_mm_blocking();
    assert_eq!(drive(&mut sensor, &mut device, first), Ok(42));
    assert_eq!(device.reads.iter().filter(|register| **register == 0x04F).count(), 500);
}

#[test]
fn blocking_read_times_out_after_the_configured_polls() {
    let mut device = Device::new();
    let mut sensor = ready_sensor(&mut device, &Config::new());
    device.registers.insert(0x04F, 0b00_000_100);
    device.quiet_polls = 500;
    let first = sensor.read_range_mm_blocking();
    assert_eq!(drive(&mut sensor, &mut device, first), Err(Error::Timeout));
    assert_eq!(device.reads, vec![0x04F; 500]);
    assert_eq!(device.writes, vec![]);

    device.reads.clear();
    device.registers.insert(0x04F, 0b00_000_100);
    let first = sensor.read_ambient_blocking();
    assert_eq!(drive(&mut sensor, &mut device, first), Err(Error::Timeout));
    assert_eq!(device.reads, vec![0x04F; 500]);
}

#[test]
fn poll_single_starts_a_measurement_and_waits() {
    let mut device = Device::new();
    let mut sensor = ready_sensor(&mut device, &Config::new());
    device.registers.insert(0x04F, 0b00_100_100);
    device.registers.insert(0x062, 99);
    device.registers.insert(0x050, 0x01);
    device.registers.insert(0x051, 0x02);
    device.quiet_polls = 3;
    let first = sensor.poll_range_mm_single_blocking();
    assert_eq!(drive(&mut sensor, &mut device, first), Ok(99));
    assert_eq!(device.writes, vec![(0x018, vec![0x01]), (0x015, vec![0x01])]);
    assert_eq!(device.reads, vec![0x04F, 0x04F, 0x04F, 0x04F, 0x04D, 0x062]);

    device.writes.clear();
    let first = sensor.poll_ambient_single_blocking();
    assert_eq!(drive(&mut sensor, &mut device, first), Ok(0x0102));
    assert_eq!(device.writes, vec![(0x038, vec![0x01]), (0x015, vec![0x02])]);
}

#[test]
fn single_measurements_are_started_with_one_write() {
    let mut device = Device::new();
    let mut sensor = ready_sensor(&mut device, &Config::new());
    let first = sensor.start_range_single();
    assert_eq!(drive(&mut sensor, &mut device, first), Ok(0));
    let first = sensor.start_ambient_single();
    assert_eq!(drive(&mut sensor, &mut device, first), Ok(0));
    assert_eq!(device.writes, vec![(0x018, vec![0x01]), (0x038, vec![0x01])]);
    assert_eq!(device.reads, vec![]);
}

#[test]
fn identification_and_interrupt_status_are_read_as_they_are() {
    let mut device = Device::new();
    let mut sensor = ready_sensor(&mut device, &Config::new());
    device.registers.insert(0x04F, 0b10_011_001);
    let first = sensor.read_model_id();
    assert_eq!(drive(&mut sensor, &mut device, first), Ok(0xB4));
    let first = sensor.read_interrupt_status();
    assert_eq!(drive(&mut sensor, &mut device, first), Ok(0b10_011_001));
    assert_eq!(device.reads, vec![0x000, 0x04F]);
}

#[test]
fn interrupts_are_cleared_by_their_bits() {
    let mut device = Device::new();
    let mut sensor = ready_sensor(&mut device, &Config::new());
    let first = sensor.clear_error_interrupt();
    assert_eq!(drive(&mut sensor, &mut device, first), Ok(0));
    let first = sensor.clear_ambient_interrupt();
    assert_eq!(drive(&mut sensor, &mut device, first), Ok(0));
    let first = sensor.clear_range_interrupt();
    assert_eq!(drive(&mut sensor, &mut device, first), Ok(0));
    let first = sensor.clear_all_interrupts();
    assert_eq!(drive(&mut sensor, &mut device, first), Ok(0));
    assert_eq!(
        device.writes,
        vec![(0x015, vec![4]), (0x015, vec![2]), (0x015, vec![1]), (0x015, vec![7])]
    );
}

#[test]
fn change_i2c_address_validates_the_address() {
    let mut device = Device::new();
    let mut sensor = ready_sensor(&mut device, &Config::new());

    let first = sensor.change_i2c_address(0x07);
    assert_eq!(drive(&mut sensor, &mut device, first), Err(Error::InvalidAddress(0x07)));
    let first = sensor.change_i2c_address(0x78);
    assert_eq!(drive(&mut sensor, &mut device, first), Err(Error::InvalidAddress(0x78)));
    assert_eq!(device.performed, 0);
    assert_eq!(sensor.config().settings().address, 0x29);

    let first = sensor.change_i2c_address(0x29);
    assert_eq!(drive(&mut sensor, &mut device, first), Ok(0));
    assert_eq!(sensor.config().settings().address, 0x29);
    let first = sensor.change_i2c_address(0x77);
    assert_eq!(drive(&mut sensor, &mut device, first), Ok(0));
    assert_eq!(sensor.config().settings().address, 0x77);
    assert_eq!(device.address, 0x77);
    let first = sensor.change_i2c_address(0x08);
    assert_eq!(drive(&mut sensor, &mut device, first), Ok(0));
    assert_eq!(device.address, 0x08);
    assert_eq!(device.writes, vec![(0x212, vec![0x29]), (0x212, vec![0x77]), (0x212, vec![0x08])]);

    // the device is now spoken to at its new address
    let first = sensor.read_model_id();
    assert_eq!(drive(&mut sensor, &mut device, first), Ok(0xB4));
}

#[test]
fn a_failed_address_change_keeps_the_address() {
    let mut device = Device::new();
    let mut sensor = ready_sensor(&mut device, &Config::new());
    device.fail_at = Some(0);
    let first = sensor.change_i2c_address(0x30);
    assert_eq!(drive(&mut sensor, &mut device, first), Err(Error::BusError("broken")));
    assert_eq!(sensor.config().settings().address, 0x29);
}

#[test]
fn continuous_modes_are_toggled_and_the_type_follows() {
    let mut device = Device::new();
    let sensor = ready_sensor(&mut device, &Config::new());

    let (mut ranging, first) = sensor.start_range_continuous_mode();
    assert_eq!(drive(&mut ranging, &mut device, first), Ok(0));
    device.registers.insert(0x04F, 0b00_000_100);
    device.registers.insert(0x062, 31);
    let first = ranging.read_range_mm();
    assert_eq!(drive(&mut ranging, &mut device, first), Ok(31));
    let first = ranging.start_ambient_single();
    assert_eq!(drive(&mut ranging, &mut device, first), Ok(0));
    let (mut ready, first) = ranging.stop_range_continuous_mode();
    assert_eq!(drive(&mut ready, &mut device, first), Ok(0));
    assert_eq!(
        device.writes,
        vec![(0x018, vec![3]), (0x015, vec![1]), (0x038, vec![1]), (0x018, vec![3])]
    );

    device.writes.clear();
    let (mut ambient, first) = ready.start_ambient_continuous_mode();
    assert_eq!(drive(&mut ambient, &mut device, first), Ok(0));
    let first = ambient.start_range_single();
    assert_eq!(drive(&mut ambient, &mut device, first), Ok(0));
    let (mut ready, first) = ambient.stop_ambient_continuous_mode();
    assert_eq!(drive(&mut ready, &mut device, first), Ok(0));
    assert_eq!(device.writes, vec![(0x038, vec![3]), (0x018, vec![1]), (0x038, vec![3])]);

    device.writes.clear();
    let (mut interleaved, first) = ready.start_interleaved_continuous_mode();
    assert_eq!(drive(&mut interleaved, &mut device, first), Ok(0));
    let (mut ready, first) = interleaved.stop_interleaved_continuous_mode();
    assert_eq!(drive(&mut ready, &mut device, first), Ok(0));
    assert_eq!(device.writes, vec![(0x2A3, vec![1]), (0x038, vec![3]), (0x2A3, vec![0])]);

    device.writes.clear();
    let first = ready.stop_interleaved_continuous_direct();
    assert_eq!(drive(&mut ready, &mut device, first), Ok(0));
    assert_eq!(device.writes, vec![(0x2A3, vec![0])]);
}

#[test]
fn interleaved_mode_needs_room_for_both_measurements() {
    let mut config = Config::new();
    // (49 + 5) + 100 * 1.1 = 164 > 130 * 0.9 = 117
    config.set_ambient_inter_measurement_period(130).unwrap();
    let mut device = Device::new();
    let sensor = ready_sensor(&mut device, &config);
    let (mut interleaved, first) = sensor.start_interleaved_continuous_mode();
    assert_eq!(
        drive(&mut interleaved, &mut device, first),
        Err(Error::InvalidConfigurationValue(130))
    );
    assert_eq!(device.performed, 0);

    // (49 + 5) + 100 * 1.1 = 164 > 180 * 0.9 = 162, and 164 <= 190 * 0.9 = 171
    config.set_ambient_inter_measurement_period(180).unwrap();
    let step: Step<u8> = begin(&config, Operation::StartInterleavedContinuous);
    assert_eq!(step, Step::Done(Err(Error::InvalidConfigurationValue(180))));
    config.set_ambient_inter_measurement_period(190).unwrap();
    let step: Step<u8> = begin(&config, Operation::StartInterleavedContinuous);
    assert_eq!(
        step,
        Step::Perform {
            cursor: Cursor {
                operation: Operation::StartInterleavedContinuous,
                stage: Stage::InterleavedEnable
            },
            action: Action::Bus {
                address: 0x29,
                access: Access::WriteByte { register: 0x2A3, value: 1 }
            },
        }
    );
}

#[test]
fn power_off_and_on_again() {
    let mut device = Device::new();
    let sensor = ready_sensor(&mut device, &Config::new());
    let (mut off, first) = sensor.power_off();
    assert_eq!(drive(&mut off, &mut device, first), Ok(0));
    assert_eq!(device.pin, vec![false]);
    assert_eq!(device.performed, 1);

    device.registers.insert(0x016, 0x01);
    device.boot_failures = 3;
    device.performed = 0;
    let (mut ready, first) = off.power_on_and_init();
    assert_eq!(drive(&mut ready, &mut device, first), Ok(0));
    assert_eq!(device.pin, vec![false, true]);
    assert_eq!(device.reads, vec![0x016, 0x016, 0x016, 0x016, 0x024, 0x016, 0x02D]);
    assert_eq!(device.get(0x016), 0);
    assert_eq!(device.writes.len(), 30 + 1 + 19 + 1);
}

#[test]
fn a_pin_error_is_told_apart_from_a_bus_error() {
    let mut device = Device::new();
    let sensor = ready_sensor(&mut device, &Config::new());
    device.fail_at = Some(0);
    let (mut off, first) = sensor.power_off();
    assert_eq!(drive(&mut off, &mut device, first), Err(Error::GpioPinError("broken")));

    device.performed = 0;
    device.fail_at = Some(0);
    let (mut ready, first) = off.power_on_and_init();
    assert_eq!(drive(&mut ready, &mut device, first), Err(Error::GpioPinError("broken")));

    let mut device = Device::new();
    let sensor = ready_sensor(&mut device, &Config::new());
    let (off, _) = sensor.power_off::<&'static str>();
    device.registers.insert(0x016, 0x01);
    device.fail_at = Some(2);
    let (mut ready, first) = off.power_on_and_init();
    assert_eq!(drive(&mut ready, &mut device, first), Err(Error::BusError("broken")));
}

#[test]
fn dynamic_range_continuous_cycle() {
    let mut device = Device::new();
    let mut sensor = dynamic_sensor(&mut device);
    assert_eq!(sensor.operating_mode(), OperatingMode::Ready);

    let first = sensor.try_start_range_continuous_mode();
    assert_eq!(try_drive(&mut sensor, &mut device, first), Ok(0));
    assert_eq!(sensor.operating_mode(), OperatingMode::RangeContinuous);

    device.registers.insert(0x04F, 0b00_000_100);
    device.registers.insert(0x062, 150);
    let first = sensor.try_read_range_mm();
    assert_eq!(try_drive(&mut sensor, &mut device, first), Ok(150));
    assert_eq!(sensor.operating_mode(), OperatingMode::RangeContinuous);

    let first = sensor.try_stop_range_continuous_mode();
    assert_eq!(try_drive(&mut sensor, &mut device, first), Ok(0));
    assert_eq!(sensor.operating_mode(), OperatingMode::Ready);
    assert_eq!(device.writes, vec![(0x018, vec![3]), (0x015, vec![1]), (0x018, vec![3])]);
}

#[test]
fn dynamic_second_start_is_refused_and_nothing_is_toggled() {
    let mut device = Device::new();
    let mut sensor = dynamic_sensor(&mut device);
    let first = sensor.try_start_range_continuous_mode();
    assert_eq!(try_drive(&mut sensor, &mut device, first), Ok(0));
    device.writes.clear();
    device.performed = 0;

    let first = sensor.try_start_range_continuous_mode();
    assert_eq!(first, Step::Done(Err(Error::InvalidMethod(OperatingMode::RangeContinuous))));
    assert_eq!(
        try_drive(&mut sensor, &mut device, first),
        Err(Error::InvalidMethod(OperatingMode::RangeContinuous))
    );
    assert_eq!(device.performed, 0);
    assert_eq!(sensor.operating_mode(), OperatingMode::RangeContinuous);
}

#[test]
fn dynamic_operations_are_refused_outside_their_modes() {
    let mut device = Device::new();
    let mut sensor = dynamic_sensor(&mut device);
    let ready = Err(Error::InvalidMethod(OperatingMode::Ready));
    let first = sensor.try_stop_range_continuous_mode();
    assert_eq!(try_drive(&mut sensor, &mut device, first), ready);
    let first = sensor.try_stop_ambient_continuous_mode();
    assert_eq!(try_drive(&mut sensor, &mut device, first), ready);
    let first = sensor.try_stop_interleaved_continuous_mode();
    assert_eq!(try_drive(&mut sensor, &mut device, first), ready);
    let first = sensor.try_power_on_and_init();
    assert_eq!(try_drive(&mut sensor, &mut device, first), ready);
    let first = sensor.try_begin(Operation::Initialise);
    assert_eq!(try_drive(&mut sensor, &mut device, first), ready);

    let first = sensor.try_start_ambient_continuous_mode();
    assert_eq!(try_drive(&mut sensor, &mut device, first), Ok(0));
    assert_eq!(sensor.operating_mode(), OperatingMode::AmbientContinuous);
    let ambient = Err(Error::InvalidMethod(OperatingMode::AmbientContinuous));
    let first = sensor.try_start_ambient_single();
    assert_eq!(try_drive(&mut sensor, &mut device, first), ambient);
    let first = sensor.try_poll_range_mm_single_blocking();
    assert_eq!(try_drive(&mut sensor, &mut device, first), ambient);
    let first = sensor.try_poll_ambient_single_blocking();
    assert_eq!(try_drive(&mut sensor, &mut device, first), ambient);
    let first = sensor.try_start_range_continuous_mode();
    assert_eq!(try_drive(&mut sensor, &mut device, first), ambient);
    let first = sensor.try_start_interleaved_continuous_mode();
    assert_eq!(try_drive(&mut sensor, &mut device, first), ambient);
    let first = sensor.try_start_range_single();
    assert_eq!(try_drive(&mut sensor, &mut device, first), Ok(0));
    let first = sensor.try_stop_ambient_continuous_mode();
    assert_eq!(try_drive(&mut sensor, &mut device, first), Ok(0));
    assert_eq!(sensor.operating_mode(), OperatingMode::Ready);

    let first = sensor.try_start_range_continuous_mode();
    assert_eq!(try_drive(&mut sensor, &mut device, first), Ok(0));
    let ranging = Err(Error::InvalidMethod(OperatingMode::RangeContinuous));
    let first = sensor.try_start_range_single();
    assert_eq!(try_drive(&mut sensor, &mut device, first), ranging);
    let first = sensor.try_start_ambient_single();
    assert_eq!(try_drive(&mut sensor, &mut device, first), Ok(0));
    let first = sensor.try_stop_range_continuous_mode();
    assert_eq!(try_drive(&mut sensor, &mut device, first), Ok(0));

    let first = sensor.try_start_interleaved_continuous_mode();
    assert_eq!(try_drive(&mut sensor, &mut device, first), Ok(0));
    assert_eq!(sensor.operating_mode(), OperatingMode::InterleavedContinuous);
    let first = sensor.try_stop_interleaved_continuous_mode();
    assert_eq!(try_drive(&mut sensor, &mut device, first), Ok(0));
    assert_eq!(sensor.operating_mode(), OperatingMode::Ready);
}

#[test]
fn dynamic_powered_off_sensor_allows_power_on_only() {
    let mut device = Device::new();
    let mut sensor = dynamic_sensor(&mut device);
    let first = sensor.try_power_off();
    assert_eq!(try_drive(&mut sensor, &mut device, first), Ok(0));
    assert_eq!(sensor.operating_mode(), OperatingMode::PoweredOff);
    assert_eq!(device.pin, vec![false]);
    device.performed = 0;

    let off = Err(Error::InvalidMethod(OperatingMode::PoweredOff));
    let first = sensor.try_read_range_mm();
    assert_eq!(try_drive(&mut sensor, &mut device, first), off);
    let first = sensor.try_read_range_mm_blocking();
    assert_eq!(try_drive(&mut sensor, &mut device, first), off);
    let first = sensor.try_read_ambient();
    assert_eq!(try_drive(&mut sensor, &mut device, first), off);
    let first = sensor.try_read_ambient_blocking();
    assert_eq!(try_drive(&mut sensor, &mut device, first), off);
    let first = sensor.try_clear_error_interrupt();
    assert_eq!(try_drive(&mut sensor, &mut device, first), off);
    let first = sensor.try_clear_ambient_interrupt();
    assert_eq!(try_drive(&mut sensor, &mut device, first), off);
    let first = sensor.try_clear_range_interrupt();
    assert_eq!(try_drive(&mut sensor, &mut device, first), off);
    let first = sensor.try_clear_all_interrupts();
    assert_eq!(try_drive(&mut sensor, &mut device, first), off);
    let first = sensor.try_change_i2c_address(0x30);
    assert_eq!(try_drive(&mut sensor, &mut device, first), off);
    let first = sensor.try_power_off();
    assert_eq!(try_drive(&mut sensor, &mut device, first), off);
    let first = sensor.try_start_range_single();
    assert_eq!(try_drive(&mut sensor, &mut device, first), off);
    let first = sensor.try_start_range_continuous_mode();
    assert_eq!(try_drive(&mut sensor, &mut device, first), off);
    assert_eq!(device.performed, 0);

    device.registers.insert(0x016, 0x01);
    let first = sensor.try_power_on_and_init();
    assert_eq!(try_drive(&mut sensor, &mut device, first), Ok(0));
    assert_eq!(sensor.operating_mode(), OperatingMode::Ready);
    assert_eq!(device.pin, vec![false, true]);
}

#[test]
fn dynamic_failures_leave_the_mode_unchanged() {
    let mut device = Device::new();
    let mut sensor = dynamic_sensor(&mut device);
    device.fail_at = Some(0);
    let first = sensor.try_start_range_continuous_mode();
    assert_eq!(try_drive(&mut sensor, &mut device, first), Err(Error::BusError("broken")));
    assert_eq!(sensor.operating_mode(), OperatingMode::Ready);

    device.fail_at = Some(1);
    let first = sensor.try_power_off();
    assert_eq!(try_drive(&mut sensor, &mut device, first), Err(Error::GpioPinError("broken")));
    assert_eq!(sensor.operating_mode(), OperatingMode::Ready);

    device.fail_at = None;
    let first = sensor.try_read_range_mm();
    assert_eq!(try_drive(&mut sensor, &mut device, first), Err(Error::ResultNotReady));
    assert_eq!(sensor.operating_mode(), OperatingMode::Ready);
    let first = sensor.try_change_i2c_address(0x78);
    assert_eq!(try_drive(&mut sensor, &mut device, first), Err(Error::InvalidAddress(0x78)));
    assert_eq!(sensor.operating_mode(), OperatingMode::Ready);
}

#[test]
fn the_permission_table() {
    let modes = [
        OperatingMode::PoweredOff,
        OperatingMode::Ready,
        OperatingMode::RangeContinuous,
        OperatingMode::AmbientContinuous,
        OperatingMode::InterleavedContinuous,
    ];
    let start_range = Operation::StartSingle { channel: Channel::Range };
    let start_ambient = Operation::StartSingle { channel: Channel::Ambient };
    let read = Operation::Read { channel: Channel::Ambient, blocking: true };
    let poll = Operation::PollSingleBlocking { channel: Channel::Range };
    let allowed = |operation: Operation| -> Vec<bool> {
        modes.iter().map(|mode| mode.permits(operation)).collect()
    };
    assert_eq!(allowed(Operation::Initialise), vec![false, false, false, false, false]);
    assert_eq!(allowed(Operation::PowerOnAndInit), vec![true, false, false, false, false]);
    assert_eq!(allowed(Operation::PowerOff), vec![false, true, true, true, true]);
    assert_eq!(allowed(read), vec![false, true, true, true, true]);
    assert_eq!(allowed(Operation::ReadModelId), vec![false, true, true, true, true]);
    assert_eq!(allowed(Operation::ClearAllInterrupts), vec![false, true, true, true, true]);
    assert_eq!(allowed(poll), vec![false, true, false, false, false]);
    assert_eq!(allowed(start_range), vec![false, true, false, true, false]);
    assert_eq!(allowed(start_ambient), vec![false, true, true, false, false]);
    assert_eq!(
        allowed(Operation::StopContinuous { channel: Channel::Range }),
        vec![false, false, true, false, false]
    );
    assert_eq!(
        allowed(Operation::StopInterleavedContinuous),
        vec![false, false, false, false, true]
    );
    assert_eq!(Operation::PowerOff.arrival(), Some(OperatingMode::PoweredOff));
    assert_eq!(Operation::StartInterleavedContinuous.arrival(), Some(OperatingMode::InterleavedContinuous));
    assert_eq!(read.arrival(), None);
}

#[test]
fn steps_can_be_taken_from_any_cursor() {
    let mut config = Config::new();
    let operation = Operation::ReadModelId;
    // a cursor past the end of the writes goes on to the range checks
    let step: Step<u8> = advance(
        &mut config,
        Cursor { operation, stage: Stage::InitWrite { fresh: false, index: 200 } },
        Reply::Done([0, 0]),
    );
    assert_eq!(
        step,
        Step::Perform {
            cursor: Cursor { operation, stage: Stage::RangeChecks },
            action: Action::Bus { address: 0x29, access: Access::ReadByte { register: 0x02D } },
        }
    );
    // a cursor with an address out of bounds changes nothing
    let step: Step<u8> = advance(
        &mut config,
        Cursor { operation, stage: Stage::Address { new_address: 0x80 } },
        Reply::Done([0, 0]),
    );
    assert_eq!(step, Step::Done(Err(Error::InvalidAddress(0x80))));
    assert_eq!(config.settings(), Config::new().settings());
    // a timeout of the largest poll count
    let step: Step<u8> = advance(
        &mut config,
        Cursor {
            operation,
            stage: Stage::Event { channel: Channel::Range, blocking: true, polls: 65535 },
        },
        Reply::Done([0, 0]),
    );
    assert_eq!(step, Step::Done(Err(Error::Timeout)));
}
