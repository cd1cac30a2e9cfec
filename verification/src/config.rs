//! The configuration of the sensor: the tunable values, their bounds, and the
//! register values derived from them.

use crate::error::Error;
use crate::register::{
    SysModeGpio1Polarity, SysModeGpio1Select, AMBIENT_ANALOGUE_GAIN_CODE, RANGE_SCALAR_CODE,
};
use vstd::prelude::*;

verus! {

/// Bus address of the sensor after power-up.
pub const ADDRESS_DEFAULT: u8 = 0x29;

/// Lowest bus address that is not reserved.
pub const ADDRESS_MIN: u8 = 0x08;

/// Highest bus address that is not reserved.
pub const ADDRESS_MAX: u8 = 0x77;

/// Longest period between two range measurements in continuous mode, in ms.
pub const RANGE_INTER_MEASUREMENT_PERIOD_MAX: u16 = 2550;

/// Longest period between two ambient light measurements in continuous mode,
/// in ms. The register holds the period in steps of 10 ms, less one step, in
/// one byte.
pub const AMBIENT_INTER_MEASUREMENT_PERIOD_MAX: u16 = 2560;

/// Value of SYSRANGE__CROSSTALK_VALID_HEIGHT at a range scaling of 1, in mm.
pub const DEFAULT_CROSSTALK_VALID_HEIGHT: u8 = 20;

/// Possible interrupt modes for ambient light readings.
#[derive(Debug, Clone, Copy, PartialEq, Eq)]
pub enum AmbientInterruptMode {
    /// Disabled
    Disabled,
    /// Level Low (value < thresh_low)
    LevelLow,
    /// Level High (value > thresh_high)
    LevelHigh,
    /// Out Of Window (value < thresh_low OR value > thresh_high)
    OutOfWindow,
    /// New Sample Ready (this is the default)
    NewSampleReady,
}

impl AmbientInterruptMode {
    /// The mode as a field of SYSTEM__INTERRUPT_CONFIG_GPIO (bits 5:3).
    pub open spec fn spec_bits(self) -> u8 {
        match self {
            AmbientInterruptMode::Disabled => 0b00_000_000,
            AmbientInterruptMode::LevelLow => 0b00_001_000,
            AmbientInterruptMode::LevelHigh => 0b00_010_000,
            AmbientInterruptMode::OutOfWindow => 0b00_011_000,
            AmbientInterruptMode::NewSampleReady => 0b00_100_000,
        }
    }

    /// The mode as a field of SYSTEM__INTERRUPT_CONFIG_GPIO (bits 5:3).
    #[verifier::when_used_as_spec(spec_bits)]
    pub fn bits(self) -> (value: u8)
        ensures
            value == self.spec_bits(),
    {
        match self {
            AmbientInterruptMode::Disabled => 0b00_000_000,
            AmbientInterruptMode::LevelLow => 0b00_001_000,
            AmbientInterruptMode::LevelHigh => 0b00_010_000,
            AmbientInterruptMode::OutOfWindow => 0b00_011_000,
            AmbientInterruptMode::NewSampleReady => 0b00_100_000,
        }
    }
}

/// Possible interrupt modes for range readings.
#[derive(Debug, Clone, Copy, PartialEq, Eq)]
pub enum RangeInterruptMode {
    /// Disabled
    Disabled,
    /// Level Low (value < thresh_low)
    LevelLow,
    /// Level High (value > thresh_high)
    LevelHigh,
    /// Out Of Window (value < thresh_low OR value > thresh_high)
    OutOfWindow,
    /// New Sample Ready (this is the default)
    NewSampleReady,
}

impl RangeInterruptMode {
    /// The mode as a field of SYSTEM__INTERRUPT_CONFIG_GPIO (bits 2:0).
    pub open spec fn spec_bits(self) -> u8 {
        match self {
            RangeInterruptMode::Disabled => 0b00_000_000,
            RangeInterruptMode::LevelLow => 0b00_000_001,
            RangeInterruptMode::LevelHigh => 0b00_000_010,
            RangeInterruptMode::OutOfWindow => 0b00_000_011,
            RangeInterruptMode::NewSampleReady => 0b00_000_100,
        }
    }

    /// The mode as a field of SYSTEM__INTERRUPT_CONFIG_GPIO (bits 2:0).
    #[verifier::when_used_as_spec(spec_bits)]
    pub fn bits(self) -> (value: u8)
        ensures
            value == self.spec_bits(),
    {
        match self {
            RangeInterruptMode::Disabled => 0b00_000_000,
            RangeInterruptMode::LevelLow => 0b00_000_001,
            RangeInterruptMode::LevelHigh => 0b00_000_010,
            RangeInterruptMode::OutOfWindow => 0b00_000_011,
            RangeInterruptMode::NewSampleReady => 0b00_000_100,
        }
    }
}

/// The values that a [`Config`] holds, as a plain record. It is also the
/// mathematical model of a `Config`: the contracts of the driver speak of it.
#[derive(Debug, Clone, Copy, PartialEq)]
pub struct Settings {
    /// Whether the I/O pads run at 2.8 V.
    pub io_mode2v8: bool,
    /// Bus address of the sensor.
    pub address: u8,
    /// Range scaling factor: a raw range count stands for that many mm.
    pub range_scaling: u8,
    /// Scaler applied by the sensor to ambient light results.
    pub ambient_scaling: u8,
    /// Part-to-part range offset of the device at a range scaling of 1.
    pub ptp_offset: u8,
    /// Number of polls that find no result before a blocking read gives up.
    pub io_timeout: u16,
    /// Readout averaging period multiplier.
    pub readout_averaging_period_multiplier: u8,
    /// Range max convergence time, in ms.
    pub range_max_convergence_time: u8,
    /// Period between two range measurements in continuous mode, in ms.
    pub range_inter_measurement_period: u16,
    /// Number of range measurements between two VHV recalibrations.
    pub range_vhv_recalibration_rate: u8,
    /// Analogue gain level of the ambient light sensor.
    pub ambient_analogue_gain_level: u8,
    /// Integration period of an ambient light measurement, in ms.
    pub ambient_integration_period: u16,
    /// Period between two ambient light measurements in continuous mode, in ms.
    pub ambient_inter_measurement_period: u16,
    /// Interrupt mode for range readings.
    pub range_interrupt_mode: RangeInterruptMode,
    /// Interrupt mode for ambient light readings.
    pub ambient_interrupt_mode: AmbientInterruptMode,
    /// Low threshold of the range interrupt.
    pub range_low_interrupt_threshold: u8,
    /// High threshold of the range interrupt.
    pub range_high_interrupt_threshold: u8,
    /// Low threshold of the ambient light interrupt.
    pub ambient_low_interrupt_threshold: u16,
    /// High threshold of the ambient light interrupt.
    pub ambient_high_interrupt_threshold: u16,
}

impl Settings {
    /// The bounds that every value of a [`Config`] keeps at all times. The
    /// bounds that relate one value to another are tested when the later of
    /// the two is set, and are not part of it.
    pub open spec fn valid(self) -> bool {
        &&& ADDRESS_MIN <= self.address <= ADDRESS_MAX
        &&& 1 <= self.range_scaling <= 3
        &&& 2 <= self.range_max_convergence_time <= 63
        &&& self.range_inter_measurement_period % 10 == 0
        &&& 10 <= self.range_inter_measurement_period <= RANGE_INTER_MEASUREMENT_PERIOD_MAX
        &&& self.ambient_analogue_gain_level <= 7
        &&& 1 <= self.ambient_integration_period <= 256
        &&& self.ambient_inter_measurement_period % 10 == 0
        &&& 10 <= self.ambient_inter_measurement_period <= AMBIENT_INTER_MEASUREMENT_PERIOD_MAX
    }

    /// The values that the application note recommends.
    pub open spec fn defaults() -> Settings {
        Settings {
            io_mode2v8: true,
            address: ADDRESS_DEFAULT,
            range_scaling: 1,
            ambient_scaling: 1,
            ptp_offset: 0,
            io_timeout: 500,
            readout_averaging_period_multiplier: 48,
            range_max_convergence_time: 49,
            range_inter_measurement_period: 100,
            range_vhv_recalibration_rate: 255,
            ambient_analogue_gain_level: 6,
            ambient_integration_period: 100,
            ambient_inter_measurement_period: 500,
            range_interrupt_mode: RangeInterruptMode::NewSampleReady,
            ambient_interrupt_mode: AmbientInterruptMode::NewSampleReady,
            range_low_interrupt_threshold: 0,
            range_high_interrupt_threshold: 0xFF,
            ambient_low_interrupt_threshold: 0,
            ambient_high_interrupt_threshold: 0xFFFF,
        }
    }

    /// Whether `address` is a bus address that is not reserved.
    pub open spec fn address_in_bounds(address: u8) -> bool {
        ADDRESS_MIN <= address <= ADDRESS_MAX
    }

    /// Whether `time_ms` is a range max convergence time.
    pub open spec fn range_max_convergence_time_in_bounds(time_ms: u8) -> bool {
        2 <= time_ms <= 63
    }

    /// Whether `time_ms` can be the range inter-measurement period beside the
    /// range max convergence time held now: a multiple of 10 ms, at least
    /// 10 ms, at most the maximum, and with
    /// `range_max_convergence_time + 5 <= time_ms * 0.9`.
    pub open spec fn range_inter_measurement_period_in_bounds(self, time_ms: u16) -> bool {
        &&& time_ms % 10 == 0
        &&& 10 <= time_ms <= RANGE_INTER_MEASUREMENT_PERIOD_MAX
        &&& 10 * (self.range_max_convergence_time + 5) <= 9 * time_ms
    }

    /// Whether `level` is an analogue gain level.
    pub open spec fn ambient_analogue_gain_level_in_bounds(level: u8) -> bool {
        level <= 7
    }

    /// Whether `time_ms` is an ambient light integration period.
    pub open spec fn ambient_integration_period_in_bounds(time_ms: u16) -> bool {
        1 <= time_ms <= 256
    }

    /// The whole number of ms in `ambient_integration_period * 1.1 / 0.9`.
    pub open spec fn ambient_inter_measurement_period_floor(self) -> int {
        11 * self.ambient_integration_period / 9
    }

    /// Whether `time_ms` can be the ambient inter-measurement period beside
    /// the integration period held now: a multiple of 10 ms, at least 10 ms,
    /// at most the maximum, and not below
    /// [`Settings::ambient_inter_measurement_period_floor`].
    pub open spec fn ambient_inter_measurement_period_in_bounds(self, time_ms: u16) -> bool {
        &&& time_ms % 10 == 0
        &&& 10 <= time_ms <= AMBIENT_INTER_MEASUREMENT_PERIOD_MAX
        &&& self.ambient_inter_measurement_period_floor() <= time_ms
    }

    /// Whether `scaling` is a range scaling factor.
    pub open spec fn range_scaling_in_bounds(scaling: u8) -> bool {
        1 <= scaling <= 3
    }

    /// Whether the timing allows interleaved mode:
    /// `(range_max_convergence_time + 5) + ambient_integration_period * 1.1
    /// <= ambient_inter_measurement_period * 0.9`.
    pub open spec fn interleaved_timing_ok(self) -> bool {
        10 * (self.range_max_convergence_time + 5) + 11 * self.ambient_integration_period <= 9
            * self.ambient_inter_measurement_period
    }

    /// Value of SYSRANGE__INTERMEASUREMENT_PERIOD: the period in steps of
    /// 10 ms, less one.
    pub open spec fn range_inter_measurement_code(self) -> int {
        self.range_inter_measurement_period / 10 - 1
    }

    /// Value of SYSALS__INTERMEASUREMENT_PERIOD: the period in steps of 10 ms,
    /// less one.
    pub open spec fn ambient_inter_measurement_code(self) -> int {
        self.ambient_inter_measurement_period / 10 - 1
    }

    /// Value of SYSALS__INTEGRATION_PERIOD: the period in ms, less one.
    pub open spec fn ambient_integration_code(self) -> int {
        self.ambient_integration_period - 1
    }

    /// Value of SYSALS__ANALOGUE_GAIN: the table entry of the gain level.
    pub open spec fn ambient_gain_code(self) -> u8 {
        AMBIENT_ANALOGUE_GAIN_CODE[self.ambient_analogue_gain_level as int]
    }

    /// Value of RANGE_SCALER: the table entry of the range scaling factor.
    pub open spec fn range_scaler_code(self) -> u16 {
        RANGE_SCALAR_CODE[self.range_scaling as int]
    }

    /// Value of SYSTEM__INTERRUPT_CONFIG_GPIO: both interrupt modes, each in
    /// its field.
    pub open spec fn interrupt_config(self) -> u8 {
        self.range_interrupt_mode.spec_bits() | self.ambient_interrupt_mode.spec_bits()
    }

    /// Value of SYSTEM__MODE_GPIO1: active high, and interrupt output exactly
    /// when an interrupt mode is enabled.
    pub open spec fn gpio1_mode(self) -> u8 {
        if self.interrupt_config() != 0 {
            SysModeGpio1Polarity::ActiveHigh.spec_bits()
                | SysModeGpio1Select::InterruptOutput.spec_bits()
        } else {
            SysModeGpio1Polarity::ActiveHigh.spec_bits() | SysModeGpio1Select::Off.spec_bits()
        }
    }

    /// Value of SYSRANGE__PART_TO_PART_RANGE_OFFSET: the offset of the device
    /// divided by the range scaling factor.
    pub open spec fn scaled_ptp_offset(self) -> int {
        self.ptp_offset as int / self.range_scaling as int
    }

    /// Value of SYSRANGE__CROSSTALK_VALID_HEIGHT: the default height divided
    /// by the range scaling factor.
    pub open spec fn scaled_crosstalk_valid_height(self) -> int {
        DEFAULT_CROSSTALK_VALID_HEIGHT as int / self.range_scaling as int
    }

    /// Value of SYSRANGE__RANGE_CHECK_ENABLES, given the value `current` that
    /// the register holds: bit 0, which enables the early convergence
    /// estimate, is set exactly at a range scaling of 1, and the other bits
    /// stay.
    pub open spec fn range_check_enables(self, current: u8) -> u8 {
        (current & 0xFE) | if self.range_scaling == 1 {
            1u8
        } else {
            0u8
        }
    }

    /// The range in mm that a raw range count stands for: the count times the
    /// range scaling factor.
    pub open spec fn range_mm(self, raw_range: u8) -> int {
        self.range_scaling * raw_range
    }
}

/// Configuration of the driver.
///
/// A `Config` keeps every value within the bounds of [`Settings::valid`]: a
/// setter either takes the value it is given, or rejects it and changes
/// nothing.
#[derive(Debug, Clone, Copy)]
pub struct Config {
    values: Settings,
}

impl View for Config {
    type V = Settings;

    closed spec fn view(&self) -> Settings {
        self.values
    }
}

impl Config {
    #[verifier::type_invariant]
    pub closed spec fn within_bounds(self) -> bool {
        self.values.valid()
    }

    /// Create a configuration with default values, which are those of the
    /// application note.
    pub fn new() -> (config: Self)
        ensures
            config@ == Settings::defaults(),
            config@.valid(),
    {
        Config {
            values: Settings {
                io_mode2v8: true,
                address: ADDRESS_DEFAULT,
                range_scaling: 1,
                ambient_scaling: 1,
                ptp_offset: 0,
                io_timeout: 500,
                readout_averaging_period_multiplier: 48,
                range_max_convergence_time: 49,
                range_inter_measurement_period: 100,
                range_vhv_recalibration_rate: 255,
                ambient_analogue_gain_level: 6,
                ambient_integration_period: 100,
                ambient_inter_measurement_period: 500,
                range_interrupt_mode: RangeInterruptMode::NewSampleReady,
                ambient_interrupt_mode: AmbientInterruptMode::NewSampleReady,
                range_low_interrupt_threshold: 0,
                range_high_interrupt_threshold: 0xFF,
                ambient_low_interrupt_threshold: 0,
                ambient_high_interrupt_threshold: 0xFFFF,
            },
        }
    }

    /// The values held, all of them within their bounds.
    pub fn settings(&self) -> (values: Settings)
        ensures
            values == self@,
            values.valid(),
    {
        proof {
            use_type_invariant(self);
        }
        self.values
    }

    /// The range max convergence time (ms) is made up of the convergence time
    /// and sampling period.
    ///
    /// Min = 2ms; Max = 63ms; Default = 49ms
    ///
    /// Reducing the max convergence time will reduce the maximum time a
    /// measurement will be allowed to complete and can reduce the power
    /// consumption when no target is present. A value of 30ms is a suitable
    /// starting point.
    pub fn set_range_max_convergence_time(&mut self, time_ms: u8) -> (result: Result<
        (),
        Error<()>,
    >)
        ensures
            final(self)@.valid(),
            match result {
                Ok(()) => {
                    &&& Settings::range_max_convergence_time_in_bounds(time_ms)
                    &&& final(self)@ == (Settings {
                        range_max_convergence_time: time_ms,
                        ..old(self)@
                    })
                },
                Err(error) => {
                    &&& !Settings::range_max_convergence_time_in_bounds(time_ms)
                    &&& error == Error::<()>::InvalidConfigurationValue(time_ms as u16)
                    &&& final(self)@ == old(self)@
                },
            },
    {
        proof {
            use_type_invariant(&*self);
        }
        if time_ms < 2 || time_ms > 63 {
            return Err(Error::InvalidConfigurationValue(time_ms as u16));
        }
        self.values.range_max_convergence_time = time_ms;
        Ok(())
    }

    /// Set the period between each range measurement in continuous mode.
    ///
    /// Min = whichever is larger: 10ms OR the smallest value that satisfies
    /// `range_max_convergence_time + 5 <= range_inter_measurement_period * 0.9`
    ///
    /// Max = 2550ms; Default = 100ms;
    ///
    /// Value must be a multiple of 10ms.
    ///
    /// The lower bound follows the range max convergence time that is
    /// configured at the time of the call. Changing that time afterwards does
    /// not test the period again.
    pub fn set_range_inter_measurement_period(&mut self, time_ms: u16) -> (result: Result<
        (),
        Error<()>,
    >)
        ensures
            final(self)@.valid(),
            match result {
                Ok(()) => {
                    &&& old(self)@.range_inter_measurement_period_in_bounds(time_ms)
                    &&& final(self)@ == (Settings {
                        range_inter_measurement_period: time_ms,
                        ..old(self)@
                    })
                },
                Err(error) => {
                    &&& !old(self)@.range_inter_measurement_period_in_bounds(time_ms)
                    &&& error == Error::<()>::InvalidConfigurationValue(time_ms)
                    &&& final(self)@ == old(self)@
                },
            },
    {
        proof {
            use_type_invariant(&*self);
        }
        let needed: u32 = 10 * (self.values.range_max_convergence_time as u32 + 5);
        if time_ms % 10 != 0 || time_ms < 10 || time_ms > RANGE_INTER_MEASUREMENT_PERIOD_MAX
            || 9 * (time_ms as u32) < needed {
            return Err(Error::InvalidConfigurationValue(time_ms));
        }
        self.values.range_inter_measurement_period = time_ms;
        Ok(())
    }

    /// Set the readout averaging period multiplier. Every value is accepted.
    ///
    /// Sampling period = 1.3ms + 64.5μs * `readout_averaging_period_multiplier`
    ///
    /// Default = 48 which will give a sampling period of 4.4ms.
    /// Lower settings will result in increased noise.
    pub fn set_readout_averaging_period_multiplier(&mut self, time_ms: u8) -> (result: Result<
        (),
        Error<u8>,
    >)
        ensures
            result is Ok,
            final(self)@.valid(),
            final(self)@ == (Settings { readout_averaging_period_multiplier: time_ms, ..old(self)@ }),
    {
        proof {
            use_type_invariant(&*self);
        }
        self.values.readout_averaging_period_multiplier = time_ms;
        Ok(())
    }

    /// Set the range Very High Voltage (VHV) recalibration rate.
    ///
    /// A VHV calibration is run once at power-up and then automatically
    /// after every `rate_vhv` range measurements. AutoVHV can be disabled
    /// by setting this register to 0.
    pub fn ambient_integration_period(&mut self, rate_vhv: u8)
        ensures
            final(self)@.valid(),
            final(self)@ == (Settings { range_vhv_recalibration_rate: rate_vhv, ..old(self)@ }),
    {
        proof {
            use_type_invariant(&*self);
        }
        self.values.range_vhv_recalibration_rate = rate_vhv;
    }

    /// Set the analogue gain for the ambient light sensor
    ///
    /// Level Min = 0; Max = 7; Default = 6
    ///
    /// 0: ALS Gain = 1.01
    ///
    /// 1: ALS Gain = 1.28
    ///
    /// 2: ALS Gain = 1.72
    ///
    /// 3: ALS Gain = 2.60
    ///
    /// 4: ALS Gain = 5.21
    ///
    /// 5: ALS Gain = 10.32
    ///
    /// 6: ALS Gain = 20
    ///
    /// 7: ALS Gain = 40
    pub fn set_ambient_analogue_gain_level(&mut self, level: u8) -> (result: Result<
        (),
        Error<()>,
    >)
        ensures
            final(self)@.valid(),
            match result {
                Ok(()) => {
                    &&& Settings::ambient_analogue_gain_level_in_bounds(level)
                    &&& final(self)@ == (Settings {
                        ambient_analogue_gain_level: level,
                        ..old(self)@
                    })
                },
                Err(error) => {
                    &&& !Settings::ambient_analogue_gain_level_in_bounds(level)
                    &&& error == Error::<()>::InvalidConfigurationValue(level as u16)
                    &&& final(self)@ == old(self)@
                },
            },
    {
        proof {
            use_type_invariant(&*self);
        }
        if level > 7 {
            return Err(Error::InvalidConfigurationValue(level as u16));
        }
        self.values.ambient_analogue_gain_level = level;
        Ok(())
    }

    /// Set the integration period for ambient light measurement
    ///
    /// Min = 1ms; Max = 256ms; Default = 100ms
    ///
    /// The integration period is the time over which a single ambient light
    /// measurement is made. Integration times in the range 50-100ms are
    /// recommended to reduce impact of light flicker from artificial lighting
    pub fn set_ambient_integration_period(&mut self, time_ms: u16) -> (result: Result<
        (),
        Error<()>,
    >)
        ensures
            final(self)@.valid(),
            match result {
                Ok(()) => {
                    &&& Settings::ambient_integration_period_in_bounds(time_ms)
                    &&& final(self)@ == (Settings {
                        ambient_integration_period: time_ms,
                        ..old(self)@
                    })
                },
                Err(error) => {
                    &&& !Settings::ambient_integration_period_in_bounds(time_ms)
                    &&& error == Error::<()>::InvalidConfigurationValue(time_ms)
                    &&& final(self)@ == old(self)@
                },
            },
    {
        proof {
            use_type_invariant(&*self);
        }
        if time_ms < 1 || time_ms > 256 {
            return Err(Error::InvalidConfigurationValue(time_ms));
        }
        self.values.ambient_integration_period = time_ms;
        Ok(())
    }

    /// Set the period between each ambient measurement in continuous mode.
    ///
    /// Min = whichever is larger: 10ms OR the whole number of ms in
    /// `ambient_integration_period * 1.1 / 0.9`
    ///
    /// Max = 2560ms; Default = 500ms; Value must be a multiple of 10ms.
    ///
    /// The lower bound follows the integration period that is configured at
    /// the time of the call. Changing that period afterwards does not test
    /// this one again.
    ///
    /// Note: interleaved mode asks for more, see
    /// [`Settings::interleaved_timing_ok`]. That is only tested when
    /// interleaved mode is started.
    pub fn set_ambient_inter_measurement_period(&mut self, time_ms: u16) -> (result: Result<
        (),
        Error<u16>,
    >)
        ensures
            final(self)@.valid(),
            match result {
                Ok(()) => {
                    &&& old(self)@.ambient_inter_measurement_period_in_bounds(time_ms)
                    &&& final(self)@ == (Settings {
                        ambient_inter_measurement_period: time_ms,
                        ..old(self)@
                    })
                },
                Err(error) => {
                    &&& !old(self)@.ambient_inter_measurement_period_in_bounds(time_ms)
                    &&& error == Error::<u16>::InvalidConfigurationValue(time_ms)
                    &&& final(self)@ == old(self)@
                },
            },
    {
        proof {
            use_type_invariant(&*self);
        }
        let floor: u16 = 11 * self.values.ambient_integration_period / 9;
        if time_ms % 10 != 0 || time_ms < 10 || time_ms < floor || time_ms
            > AMBIENT_INTER_MEASUREMENT_PERIOD_MAX {
            return Err(Error::InvalidConfigurationValue(time_ms));
        }
        self.values.ambient_inter_measurement_period = time_ms;
        Ok(())
    }

    /// Set the range scaling factor: 1, 2 or 3. A raw range count then stands
    /// for that many mm, so a larger factor reaches further and resolves
    /// less. Default = 1.
    pub fn set_range_scaling(&mut self, scaling: u8) -> (result: Result<(), Error<()>>)
        ensures
            final(self)@.valid(),
            match result {
                Ok(()) => {
                    &&& Settings::range_scaling_in_bounds(scaling)
                    &&& final(self)@ == (Settings { range_scaling: scaling, ..old(self)@ })
                },
                Err(error) => {
                    &&& !Settings::range_scaling_in_bounds(scaling)
                    &&& error == Error::<()>::InvalidScalingFactor(scaling)
                    &&& final(self)@ == old(self)@
                },
            },
    {
        proof {
            use_type_invariant(&*self);
        }
        if scaling < 1 || scaling > 3 {
            return Err(Error::InvalidScalingFactor(scaling));
        }
        self.values.range_scaling = scaling;
        Ok(())
    }

    /// Set the range interrupt mode. Possible values:
    ///
    /// Disabled
    ///
    /// Level Low (value < thresh_low)
    ///
    /// Level High (value > thresh_high)
    ///
    /// Out Of Window (value < thresh_low OR value > thresh_high)
    ///
    /// New Sample Ready (this is the default)
    pub fn set_range_interrupt_mode(&mut self, interrupt_mode: RangeInterruptMode)
        ensures
            final(self)@.valid(),
            final(self)@ == (Settings { range_interrupt_mode: interrupt_mode, ..old(self)@ }),
    {
        proof {
            use_type_invariant(&*self);
        }
        self.values.range_interrupt_mode = interrupt_mode;
    }

    /// Set the ambient light sensor interrupt mode. Possible values:
    ///
    /// Disabled
    ///
    /// Level Low (value < thresh_low)
    ///
    /// Level High (value > thresh_high)
    ///
    /// Out Of Window (value < thresh_low OR value > thresh_high)
    ///
    /// New Sample Ready (this is the default)
    pub fn set_ambient_interrupt_mode(&mut self, interrupt_mode: AmbientInterruptMode)
        ensures
            final(self)@.valid(),
            final(self)@ == (Settings { ambient_interrupt_mode: interrupt_mode, ..old(self)@ }),
    {
        proof {
            use_type_invariant(&*self);
        }
        self.values.ambient_interrupt_mode = interrupt_mode;
    }

    /// Set the thresholds of the range interrupt. Every value is accepted.
    pub fn set_range_interrupt_thresholds(&mut self, low: u8, high: u8)
        ensures
            final(self)@.valid(),
            final(self)@ == (Settings {
                range_low_interrupt_threshold: low,
                range_high_interrupt_threshold: high,
                ..old(self)@
            }),
    {
        proof {
            use_type_invariant(&*self);
        }
        self.values.range_low_interrupt_threshold = low;
        self.values.range_high_interrupt_threshold = high;
    }

    /// Set the thresholds of the ambient light interrupt. Every value is
    /// accepted.
    pub fn set_ambient_interrupt_thresholds(&mut self, low: u16, high: u16)
        ensures
            final(self)@.valid(),
            final(self)@ == (Settings {
                ambient_low_interrupt_threshold: low,
                ambient_high_interrupt_threshold: high,
                ..old(self)@
            }),
    {
        proof {
            use_type_invariant(&*self);
        }
        self.values.ambient_low_interrupt_threshold = low;
        self.values.ambient_high_interrupt_threshold = high;
    }

    /// Records the part-to-part range offset of the device.
    pub(crate) fn set_ptp_offset(&mut self, ptp_offset: u8)
        ensures
            final(self)@.valid(),
            final(self)@ == (Settings { ptp_offset: ptp_offset, ..old(self)@ }),
    {
        proof {
            use_type_invariant(&*self);
        }
        self.values.ptp_offset = ptp_offset;
    }

    /// Records the bus address that the device now answers to.
    pub(crate) fn set_address(&mut self, address: u8)
        requires
            Settings::address_in_bounds(address),
        ensures
            final(self)@.valid(),
            final(self)@ == (Settings { address: address, ..old(self)@ }),
    {
        proof {
            use_type_invariant(&*self);
        }
        self.values.address = address;
    }
}

} // verus!
