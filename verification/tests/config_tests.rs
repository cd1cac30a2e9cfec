use vl6180x::{AmbientInterruptMode, Config, Error, RangeInterruptMode, Settings};

#[test]
fn bitwise_or_interrupt_modes() {
    let val = AmbientInterruptMode::NewSampleReady.bits() | RangeInterruptMode::NewSampleReady.bits();
    assert_eq!(val, 0x24)
}

#[test]
fn set_range_max_convergence_time_value_too_small() {
    let mut config = Config::new();
    assert_eq!(
        config.set_range_max_convergence_time(1).err().unwrap(),
        Error::InvalidConfigurationValue(1)
    )
}

#[test]
fn set_range_max_convergence_time_value_too_high() {
    let mut config = Config::new();
    assert_eq!(
        config.set_range_max_convergence_time(64).err().unwrap(),
        Error::InvalidConfigurationValue(64)
    )
}

#[test]
fn set_range_max_convergence_time_value_valid() {
    let mut config = Config::new();
    assert_eq!(config.set_range_max_convergence_time(20), Ok(()))
}

#[test]
fn new_config_holds_the_defaults() {
    let values = Config::new().settings();
    assert_eq!(
        values,
        Settings {
            io_mode2v8: true,
            address: 0x29,
            range_scaling: 1,
            ambient_scaling: 1,
            ptp_offset: 0,
            io_timeout: 500,
            readout_averaging_period_multiplier: 48,
            range_max_convergence_time: 49,
            range_inter_measurement_period: 100,
            range_vhv_recalibration_rate: 255,
            ambient_analogue_gain_level: 6,
            ambient_integration_period: 100,
            ambient_inter_measurement_period: 500,
            range_interrupt_mode: RangeInterruptMode::NewSampleReady,
            ambient_interrupt_mode: AmbientInterruptMode::NewSampleReady,
            range_low_interrupt_threshold: 0,
            range_high_interrupt_threshold: 0xFF,
            ambient_low_interrupt_threshold: 0,
            ambient_high_interrupt_threshold: 0xFFFF,
        }
    );
}

#[test]
fn interrupt_mode_bits_are_the_register_fields() {
    assert_eq!(AmbientInterruptMode::Disabled.bits(), 0);
    assert_eq!(AmbientInterruptMode::LevelLow.bits(), 0b00_001_000);
    assert_eq!(AmbientInterruptMode::LevelHigh.bits(), 0b00_010_000);
    assert_eq!(AmbientInterruptMode::OutOfWindow.bits(), 0b00_011_000);
    assert_eq!(AmbientInterruptMode::NewSampleReady.bits(), 0b00_100_000);
    assert_eq!(RangeInterruptMode::Disabled.bits(), 0);
    assert_eq!(RangeInterruptMode::LevelLow.bits(), 1);
    assert_eq!(RangeInterruptMode::LevelHigh.bits(), 2);
    assert_eq!(RangeInterruptMode::OutOfWindow.bits(), 3);
    assert_eq!(RangeInterruptMode::NewSampleReady.bits(), 4);
}

#[test]
fn range_max_convergence_time_bounds_are_inclusive() {
    let mut config = Config::new();
    assert_eq!(config.set_range_max_convergence_time(2), Ok(()));
    assert_eq!(config.settings().range_max_convergence_time, 2);
    assert_eq!(config.set_range_max_convergence_time(63), Ok(()));
    assert_eq!(config.settings().range_max_convergence_time, 63);
    assert_eq!(
        config.set_range_max_convergence_time(0),
        Err(Error::InvalidConfigurationValue(0))
    );
    assert_eq!(
        config.set_range_max_convergence_time(255),
        Err(Error::InvalidConfigurationValue(255))
    );
}

#[test]
fn rejected_setter_leaves_the_config_unchanged() {
    let mut config = Config::new();
    config.set_range_max_convergence_time(30).unwrap();
    let before = config.settings();

    assert!(config.set_range_max_convergence_time(1).is_err());
    assert_eq!(config.settings(), before);
    assert!(config.set_range_inter_measurement_period(35).is_err());
    assert_eq!(config.settings(), before);
    assert!(config.set_ambient_analogue_gain_level(8).is_err());
    assert_eq!(config.settings(), before);
    assert!(config.set_ambient_integration_period(0).is_err());
    assert_eq!(config.settings(), before);
    assert!(config.set_ambient_inter_measurement_period(2570).is_err());
    assert_eq!(config.settings(), before);
    assert!(config.set_range_scaling(4).is_err());
    assert_eq!(config.settings(), before);
    assert_eq!(config.settings().range_max_convergence_time, 30);
}

#[test]
fn accepted_setter_changes_its_own_field_only() {
    let mut config = Config::new();
    let mut expected = config.settings();

    config.set_range_max_convergence_time(30).unwrap();
    expected.range_max_convergence_time = 30;
    assert_eq!(config.settings(), expected);

    config.set_range_inter_measurement_period(50).unwrap();
    expected.range_inter_measurement_period = 50;
    assert_eq!(config.settings(), expected);

    config.set_readout_averaging_period_multiplier(7).unwrap();
    expected.readout_averaging_period_multiplier = 7;
    assert_eq!(config.settings(), expected);

    config.ambient_integration_period(12);
    expected.range_vhv_recalibration_rate = 12;
    assert_eq!(config.settings(), expected);

    config.set_ambient_analogue_gain_level(3).unwrap();
    expected.ambient_analogue_gain_level = 3;
    assert_eq!(config.settings(), expected);

    config.set_ambient_integration_period(50).unwrap();
    expected.ambient_integration_period = 50;
    assert_eq!(config.settings(), expected);

    config.set_ambient_inter_measurement_period(70).unwrap();
    expected.ambient_inter_measurement_period = 70;
    assert_eq!(config.settings(), expected);

    config.set_range_scaling(3).unwrap();
    expected.range_scaling = 3;
    assert_eq!(config.settings(), expected);

    config.set_range_interrupt_mode(RangeInterruptMode::LevelLow);
    expected.range_interrupt_mode = RangeInterruptMode::LevelLow;
    assert_eq!(config.settings(), expected);

    config.set_ambient_interrupt_mode(AmbientInterruptMode::OutOfWindow);
    expected.ambient_interrupt_mode = AmbientInterruptMode::OutOfWindow;
    assert_eq!(config.settings(), expected);

    config.set_range_interrupt_thresholds(10, 200);
    expected.range_low_interrupt_threshold = 10;
    expected.range_high_interrupt_threshold = 200;
    assert_eq!(config.settings(), expected);

    config.set_ambient_interrupt_thresholds(0x0102, 0xF0F1);
    expected.ambient_low_interrupt_threshold = 0x0102;
    expected.ambient_high_interrupt_threshold = 0xF0F1;
    assert_eq!(config.settings(), expected);
}

#[test]
fn range_inter_measurement_period_follows_the_convergence_time() {
    let mut config = Config::new();
    // default convergence time 49: (49 + 5) / 0.9 = 60
    assert_eq!(
        config.set_range_inter_measurement_period(50),
        Err(Error::InvalidConfigurationValue(50))
    );
    assert_eq!(config.set_range_inter_measurement_period(60), Ok(()));
    assert_eq!(config.settings().range_inter_measurement_period, 60);

    // convergence time 50: (50 + 5) / 0.9 = 61.1, so 60 is too short
    config.set_range_max_convergence_time(50).unwrap();
    assert_eq!(
        config.set_range_inter_measurement_period(60),
        Err(Error::InvalidConfigurationValue(60))
    );
    assert_eq!(config.set_range_inter_measurement_period(70), Ok(()));

    // convergence time 2: (2 + 5) / 0.9 = 7.8, the floor of 10 ms decides
    config.set_range_max_convergence_time(2).unwrap();
    assert_eq!(
        config.set_range_inter_measurement_period(0),
        Err(Error::InvalidConfigurationValue(0))
    );
    assert_eq!(config.set_range_inter_measurement_period(10), Ok(()));
}

#[test]
fn range_inter_measurement_period_is_a_multiple_of_ten_up_to_2550() {
    let mut config = Config::new();
    assert_eq!(
        config.set_range_inter_measurement_period(105),
        Err(Error::InvalidConfigurationValue(105))
    );
    assert_eq!(config.set_range_inter_measurement_period(2550), Ok(()));
    assert_eq!(
        config.set_range_inter_measurement_period(2560),
        Err(Error::InvalidConfigurationValue(2560))
    );
    assert_eq!(config.settings().range_inter_measurement_period, 2550);
}

#[test]
fn convergence_time_set_later_does_not_test_the_period_again() {
    let mut config = Config::new();
    config.set_range_max_convergence_time(2).unwrap();
    config.set_range_inter_measurement_period(10).unwrap();
    assert_eq!(config.set_range_max_convergence_time(63), Ok(()));
    assert_eq!(config.settings().range_inter_measurement_period, 10);
    assert_eq!(config.settings().range_max_convergence_time, 63);
}

#[test]
fn ambient_gain_level_bounds() {
    let mut config = Config::new();
    assert_eq!(config.set_ambient_analogue_gain_level(0), Ok(()));
    assert_eq!(config.set_ambient_analogue_gain_level(7), Ok(()));
    assert_eq!(
        config.set_ambient_analogue_gain_level(8),
        Err(Error::InvalidConfigurationValue(8))
    );
    assert_eq!(config.settings().ambient_analogue_gain_level, 7);
}

#[test]
fn ambient_integration_period_bounds() {
    let mut config = Config::new();
    assert_eq!(
        config.set_ambient_integration_period(0),
        Err(Error::InvalidConfigurationValue(0))
    );
    assert_eq!(config.set_ambient_integration_period(1), Ok(()));
    assert_eq!(config.set_ambient_integration_period(256), Ok(()));
    assert_eq!(
        config.set_ambient_integration_period(257),
        Err(Error::InvalidConfigurationValue(257))
    );
    assert_eq!(config.settings().ambient_integration_period, 256);
}

#[test]
fn ambient_inter_measurement_period_follows_the_integration_period() {
    let mut config = Config::new();
    // default integration period 100: 100 * 1.1 / 0.9 = 122.2
    assert_eq!(
        config.set_ambient_inter_measurement_period(120),
        Err(Error::InvalidConfigurationValue(120))
    );
    assert_eq!(config.set_ambient_inter_measurement_period(130), Ok(()));
    assert_eq!(config.settings().ambient_inter_measurement_period, 130);
    // and the range period is not touched
    assert_eq!(config.settings().range_inter_measurement_period, 100);

    // integration period 41: 41 * 1.1 / 0.9 = 50.1, of which 50 whole ms
    config.set_ambient_integration_period(41).unwrap();
    assert_eq!(
        config.set_ambient_inter_measurement_period(40),
        Err(Error::InvalidConfigurationValue(40))
    );
    assert_eq!(config.set_ambient_inter_measurement_period(50), Ok(()));

    // integration period 1: the floor of 10 ms decides
    config.set_ambient_integration_period(1).unwrap();
    assert_eq!(
        config.set_ambient_inter_measurement_period(0),
        Err(Error::InvalidConfigurationValue(0))
    );
    assert_eq!(config.set_ambient_inter_measurement_period(10), Ok(()));
}

#[test]
fn ambient_inter_measurement_period_is_a_multiple_of_ten_up_to_2560() {
    let mut config = Config::new();
    assert_eq!(
        config.set_ambient_inter_measurement_period(505),
        Err(Error::InvalidConfigurationValue(505))
    );
    assert_eq!(config.set_ambient_inter_measurement_period(2560), Ok(()));
    assert_eq!(
        config.set_ambient_inter_measurement_period(2570),
        Err(Error::InvalidConfigurationValue(2570))
    );
    assert_eq!(config.settings().ambient_inter_measurement_period, 2560);
}

#[test]
fn range_scaling_is_one_two_or_three() {
    let mut config = Config::new();
    assert_eq!(config.set_range_scaling(0), Err(Error::InvalidScalingFactor(0)));
    assert_eq!(config.set_range_scaling(4), Err(Error::InvalidScalingFactor(4)));
    assert_eq!(config.settings().range_scaling, 1);
    assert_eq!(config.set_range_scaling(1), Ok(()));
    assert_eq!(config.set_range_scaling(2), Ok(()));
    assert_eq!(config.set_range_scaling(3), Ok(()));
    assert_eq!(config.settings().range_scaling, 3);
}

#[test]
fn readout_averaging_period_multiplier_takes_every_value() {
    let mut config = Config::new();
    assert_eq!(config.set_readout_averaging_period_multiplier(0), Ok(()));
    assert_eq!(config.settings().readout_averaging_period_multiplier, 0);
    assert_eq!(config.set_readout_averaging_period_multiplier(255), Ok(()));
    assert_eq!(config.settings().readout_averaging_period_multiplier, 255);
}

#[test]
fn bus_error_converts_into_the_driver_error() {
    let error: Error<u8> = Error::from(7u8);
    assert_eq!(error, Error::BusError(7));
}
