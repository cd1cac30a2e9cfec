//! The protocol of the sensor as a machine that is driven step by step.
//!
//! An operation begins with [`begin`], which answers with a [`Step`]: either
//! the operation is over, or the host has an [`Action`] to perform. The host
//! performs it and calls [`advance`] with the cursor of the step and the
//! [`Reply`], which answers with the next step. [`first_step`] and
//! [`next_step`] say, for every operation, configuration, cursor and reply,
//! what the two answer.

use crate::bus::{byte_read, word_read, Access, Action, Reply};
use crate::bus::{spec_byte_read, spec_word_read};
use crate::config::{Config, Settings};
use crate::error::Error;
use crate::init::{init_write, init_writes};
use crate::register::{
    InterleavedModeEnableCode, Register16Bit, Register8Bit, SysAmbientStartCode,
    SysInterruptClearCode, SysRangeStartCode, MODEL_ID, RANGE_SCALAR_CODE,
};
use crate::status::{AmbientStatusErrorCode, RangeStatusErrorCode, ResultInterruptStatusGpioCode};
use vstd::prelude::*;

verus! {

/// The two measurement channels of the sensor.
#[derive(Debug, Clone, Copy, PartialEq, Eq, Structural)]
pub enum Channel {
    /// Distance to the target.
    Range,
    /// Ambient light level.
    Ambient,
}

impl Channel {
    /// The condition of the interrupt status register that says that the
    /// channel has no result to read.
    pub open spec fn spec_no_events(self) -> ResultInterruptStatusGpioCode {
        match self {
            Channel::Range => ResultInterruptStatusGpioCode::NoRangeEvents,
            Channel::Ambient => ResultInterruptStatusGpioCode::NoAmbientEvents,
        }
    }

    /// The condition of the interrupt status register that says that the
    /// channel has no result to read.
    #[verifier::when_used_as_spec(spec_no_events)]
    pub fn no_events(self) -> (condition: ResultInterruptStatusGpioCode)
        ensures
            condition == self.spec_no_events(),
    {
        match self {
            Channel::Range => ResultInterruptStatusGpioCode::NoRangeEvents,
            Channel::Ambient => ResultInterruptStatusGpioCode::NoAmbientEvents,
        }
    }

    /// The register that starts and stops the measurements of the channel.
    pub open spec fn spec_start_register(self) -> u16 {
        match self {
            Channel::Range => Register8Bit::SYSRANGE__START.spec_address(),
            Channel::Ambient => Register8Bit::SYSALS__START.spec_address(),
        }
    }

    /// The register that starts and stops the measurements of the channel.
    #[verifier::when_used_as_spec(spec_start_register)]
    pub fn start_register(self) -> (register: u16)
        ensures
            register == self.spec_start_register(),
    {
        match self {
            Channel::Range => Register8Bit::SYSRANGE__START.address(),
            Channel::Ambient => Register8Bit::SYSALS__START.address(),
        }
    }

    /// The write that starts one measurement of the channel.
    pub open spec fn spec_single_start(self) -> Access {
        Access::WriteByte {
            register: self.spec_start_register(),
            value: match self {
                Channel::Range => SysRangeStartCode::SingleStart.spec_bits(),
                Channel::Ambient => SysAmbientStartCode::SingleStart.spec_bits(),
            },
        }
    }

    /// The write that starts one measurement of the channel.
    #[verifier::when_used_as_spec(spec_single_start)]
    pub fn single_start(self) -> (write: Access)
        ensures
            write == self.spec_single_start(),
    {
        Access::WriteByte {
            register: self.start_register(),
            value: match self {
                Channel::Range => SysRangeStartCode::SingleStart.bits(),
                Channel::Ambient => SysAmbientStartCode::SingleStart.bits(),
            },
        }
    }

    /// The write that starts the continuous measurements of the channel when
    /// they are stopped, and stops them when they are running.
    pub open spec fn spec_continuous_toggle(self) -> Access {
        Access::WriteByte {
            register: self.spec_start_register(),
            value: match self {
                Channel::Range => SysRangeStartCode::ContinuousStartOrStop.spec_bits(),
                Channel::Ambient => SysAmbientStartCode::ContinuousStartOrStop.spec_bits(),
            },
        }
    }

    /// The write that starts the continuous measurements of the channel when
    /// they are stopped, and stops them when they are running.
    #[verifier::when_used_as_spec(spec_continuous_toggle)]
    pub fn continuous_toggle(self) -> (write: Access)
        ensures
            write == self.spec_continuous_toggle(),
    {
        Access::WriteByte {
            register: self.start_register(),
            value: match self {
                Channel::Range => SysRangeStartCode::ContinuousStartOrStop.bits(),
                Channel::Ambient => SysAmbientStartCode::ContinuousStartOrStop.bits(),
            },
        }
    }

    /// The read of the status register of the channel.
    pub open spec fn spec_status_read(self) -> Access {
        Access::ReadByte {
            register: match self {
                Channel::Range => Register8Bit::RESULT__RANGE_STATUS.spec_address(),
                Channel::Ambient => Register8Bit::RESULT__ALS_STATUS.spec_address(),
            },
        }
    }

    /// The read of the status register of the channel.
    #[verifier::when_used_as_spec(spec_status_read)]
    pub fn status_read(self) -> (read: Access)
        ensures
            read == self.spec_status_read(),
    {
        Access::ReadByte {
            register: match self {
                Channel::Range => Register8Bit::RESULT__RANGE_STATUS.address(),
                Channel::Ambient => Register8Bit::RESULT__ALS_STATUS.address(),
            },
        }
    }

    /// The read of the result register of the channel: one byte of range, two
    /// bytes of ambient light.
    pub open spec fn spec_value_read(self) -> Access {
        match self {
            Channel::Range => Access::ReadByte {
                register: Register8Bit::RESULT__RANGE_VAL.spec_address(),
            },
            Channel::Ambient => Access::ReadWord {
                register: Register16Bit::RESULT__ALS_VAL.spec_address(),
            },
        }
    }

    /// The read of the result register of the channel.
    #[verifier::when_used_as_spec(spec_value_read)]
    pub fn value_read(self) -> (read: Access)
        ensures
            read == self.spec_value_read(),
    {
        match self {
            Channel::Range => Access::ReadByte { register: Register8Bit::RESULT__RANGE_VAL.address() },
            Channel::Ambient => Access::ReadWord { register: Register16Bit::RESULT__ALS_VAL.address() },
        }
    }

    /// The write that clears the interrupt of the channel.
    pub open spec fn spec_interrupt_clear(self) -> Access {
        Access::WriteByte {
            register: Register8Bit::SYSTEM__INTERRUPT_CLEAR.spec_address(),
            value: match self {
                Channel::Range => SysInterruptClearCode::Range.spec_bits(),
                Channel::Ambient => SysInterruptClearCode::Ambient.spec_bits(),
            },
        }
    }

    /// The write that clears the interrupt of the channel.
    #[verifier::when_used_as_spec(spec_interrupt_clear)]
    pub fn interrupt_clear(self) -> (write: Access)
        ensures
            write == self.spec_interrupt_clear(),
    {
        Access::WriteByte {
            register: Register8Bit::SYSTEM__INTERRUPT_CLEAR.address(),
            value: match self {
                Channel::Range => SysInterruptClearCode::Range.bits(),
                Channel::Ambient => SysInterruptClearCode::Ambient.bits(),
            },
        }
    }

    /// The error that the value of the status register of the channel stands
    /// for, if it stands for one. The outcome of the measurement is in bits
    /// 7:4: no error if it is the outcome of a valid measurement, the outcome
    /// itself if it is another one, and the unknown code if it is none.
    pub open spec fn status_error<E>(self, register_value: u8) -> Option<Error<E>> {
        match self {
            Channel::Range => match RangeStatusErrorCode::of_code(register_value as int / 16) {
                Some(RangeStatusErrorCode::NoError) => None,
                Some(outcome) => Some(Error::RangeStatusError(outcome)),
                None => Some(Error::UnknownRegisterCode((register_value / 16) as u8)),
            },
            Channel::Ambient => match AmbientStatusErrorCode::of_code(register_value as int / 16) {
                Some(AmbientStatusErrorCode::NoError) => None,
                Some(outcome) => Some(Error::AmbientStatusError(outcome)),
                None => Some(Error::UnknownRegisterCode((register_value / 16) as u8)),
            },
        }
    }

    /// The error that the value of the status register of the channel stands
    /// for, if it stands for one.
    pub fn decode_status<E>(self, register_value: u8) -> (error: Option<Error<E>>)
        ensures
            error == self.status_error::<E>(register_value),
    {
        match self {
            Channel::Range => match RangeStatusErrorCode::try_from(register_value) {
                Ok(RangeStatusErrorCode::NoError) => None,
                Ok(outcome) => Some(Error::RangeStatusError(outcome)),
                Err(_) => Some(Error::UnknownRegisterCode(register_value / 16)),
            },
            Channel::Ambient => match AmbientStatusErrorCode::try_from(register_value) {
                Ok(AmbientStatusErrorCode::NoError) => None,
                Ok(outcome) => Some(Error::AmbientStatusError(outcome)),
                Err(_) => Some(Error::UnknownRegisterCode(register_value / 16)),
            },
        }
    }

    /// The reading that the data of the result register stands for: the raw
    /// range count times the range scaling factor, in mm, or the raw ambient
    /// light count as it is.
    pub open spec fn reading(self, settings: Settings, data: [u8; 2]) -> u16 {
        match self {
            Channel::Range => settings.range_mm(spec_byte_read(data)) as u16,
            Channel::Ambient => spec_word_read(data),
        }
    }

    /// The reading that the data of the result register stands for.
    pub fn convert(self, config: &Config, data: [u8; 2]) -> (value: u16)
        ensures
            value == self.reading(config@, data),
            self == Channel::Range ==> value == config@.range_scaling * spec_byte_read(data),
    {
        match self {
            Channel::Range => convert_raw_range_to_mm(config, byte_read(data)),
            Channel::Ambient => word_read(data),
        }
    }
}

/// The range in mm that a raw range count stands for: the count times the
/// range scaling factor of the configuration.
pub fn convert_raw_range_to_mm(config: &Config, raw_range: u8) -> (range_mm: u16)
    ensures
        range_mm == config@.range_scaling * raw_range,
        range_mm == config@.range_mm(raw_range),
{
    let settings = config.settings();
    assert(settings.range_scaling * raw_range <= 3 * 255) by (nonlinear_arith)
        requires
            settings.range_scaling <= 3,
            raw_range <= 255,
    ;
    (settings.range_scaling as u16) * (raw_range as u16)
}

/// The operations of the driver.
#[derive(Debug, Clone, Copy, PartialEq, Eq)]
pub enum Operation {
    /// Check that the device is a VL6180X and initialise it.
    Initialise,
    /// Read the model id of the sensor.
    ReadModelId,
    /// Read the interrupt status register.
    ReadInterruptStatus,
    /// Read the result of a measurement that was started before. A blocking
    /// read polls until the result is ready. One that does not block fails
    /// when it is not.
    Read { channel: Channel, blocking: bool },
    /// Start one measurement and read its result, blocking.
    PollSingleBlocking { channel: Channel },
    /// Start one measurement.
    StartSingle { channel: Channel },
    /// Start continuous measurements of one channel.
    StartContinuous { channel: Channel },
    /// Stop continuous measurements of one channel.
    StopContinuous { channel: Channel },
    /// Start continuous interleaved measurements of both channels.
    StartInterleavedContinuous,
    /// Stop continuous interleaved measurements.
    StopInterleavedContinuous,
    /// Clear one interrupt.
    ClearInterrupt { interrupt: SysInterruptClearCode },
    /// Clear the range, ambient light and error interrupts.
    ClearAllInterrupts,
    /// Make the device answer to another bus address.
    ChangeAddress { new_address: u8 },
    /// Power the sensor off.
    PowerOff,
    /// Power the sensor on, wait until it has booted and initialise it.
    PowerOnAndInit,
}

/// How far an operation has come: what the reply to the action in flight
/// stands for.
#[derive(Debug, Clone, Copy, PartialEq, Eq)]
pub enum Stage {
    /// The shutdown pin is being driven high.
    PinHigh,
    /// The fresh-out-of-reset flag is being read, to see whether the device
    /// has booted.
    Boot,
    /// The model id is being read, to be checked.
    ModelId,
    /// The part-to-part range offset is being read.
    PtpOffset,
    /// The fresh-out-of-reset flag is being read. `ptp_offset` is the value
    /// of the offset register.
    FreshFlag { ptp_offset: u8 },
    /// The range scaler of a device that is not fresh out of reset is being
    /// read. `ptp_offset` is the value of the offset register.
    HardwareScaler { ptp_offset: u8 },
    /// The write at `index` of the writes of the initialisation is in flight.
    InitWrite { fresh: bool, index: u8 },
    /// The range check enables are being read, to be written back with the
    /// early convergence estimate switched as the range scaling asks.
    RangeChecks,
    /// A register is being read whose value is the result.
    Fetch,
    /// The write that starts one measurement is in flight. A blocking read
    /// follows.
    Trigger { channel: Channel },
    /// The interrupt status is being read, to see whether the result is
    /// ready. `polls` counts the earlier reads that found nothing.
    Event { channel: Channel, blocking: bool, polls: u16 },
    /// The status register of the channel is being read.
    Status { channel: Channel },
    /// The result register of the channel is being read.
    Value { channel: Channel },
    /// The write that enables interleaved mode is in flight.
    InterleavedEnable,
    /// The write of the new bus address is in flight.
    Address { new_address: u8 },
    /// The last write of the operation is in flight. `value` is the result.
    LastWrite { value: u16 },
    /// The shutdown pin is being driven, as the last action of the operation.
    LastPin,
}

/// The place of an operation in flight. The host hands it back with the reply
/// to the action that came with it.
#[derive(Debug, Clone, Copy, PartialEq, Eq)]
pub struct Cursor {
    /// The operation in flight.
    pub operation: Operation,
    /// How far it has come.
    pub stage: Stage,
}

/// One step of an operation.
#[derive(Debug, PartialEq)]
pub enum Step<E> {
    /// The host performs `action` and then calls [`advance`] with `cursor`
    /// and the reply.
    Perform { cursor: Cursor, action: Action },
    /// The operation is over. The value is the reading or the register value
    /// that the operation asked for, and 0 if it asked for none.
    Done(Result<u16, Error<E>>),
}

/// The step that asks for `access` at the bus address of `settings`, with
/// `operation` then at `stage`.
pub open spec fn spec_transfer<E>(
    settings: Settings,
    operation: Operation,
    stage: Stage,
    access: Access,
) -> Step<E> {
    Step::Perform {
        cursor: Cursor { operation, stage },
        action: Action::Bus { address: settings.address, access },
    }
}

/// The step that asks for `access` at the bus address of `config`, with
/// `operation` then at `stage`.
fn transfer<E>(config: &Config, operation: Operation, stage: Stage, access: Access) -> (step: Step<
    E,
>)
    ensures
        step == spec_transfer::<E>(config@, operation, stage, access),
{
    Step::Perform {
        cursor: Cursor { operation, stage },
        action: Action::Bus { address: config.settings().address, access },
    }
}

/// The read of the interrupt status register.
pub open spec fn interrupt_status_read() -> Access {
    Access::ReadByte { register: Register8Bit::RESULT__INTERRUPT_STATUS_GPIO.spec_address() }
}

/// The read of the fresh-out-of-reset flag.
pub open spec fn fresh_flag_read() -> Access {
    Access::ReadByte { register: Register8Bit::SYSTEM__FRESH_OUT_OF_RESET.spec_address() }
}

/// The bits of SYSTEM__INTERRUPT_CLEAR that clear all three interrupts.
pub open spec fn all_interrupts() -> u8 {
    SysInterruptClearCode::Range.spec_bits() | SysInterruptClearCode::Ambient.spec_bits()
        | SysInterruptClearCode::Error.spec_bits()
}

/// The first step of `operation`.
///
/// Two operations test their input before anything is sent. A change of the
/// bus address fails with [`Error::InvalidAddress`] unless the new address is
/// within bounds. The start of interleaved mode fails with
/// [`Error::InvalidConfigurationValue`] of the ambient inter-measurement
/// period unless [`Settings::interleaved_timing_ok`] holds. Every other
/// operation begins with an action.
pub open spec fn first_step<E>(settings: Settings, operation: Operation) -> Step<E> {
    match operation {
        Operation::Initialise => spec_transfer(
            settings,
            operation,
            Stage::ModelId,
            Access::ReadByte { register: Register8Bit::IDENTIFICATION__MODEL_ID.spec_address() },
        ),
        Operation::ReadModelId => spec_transfer(
            settings,
            operation,
            Stage::Fetch,
            Access::ReadByte { register: Register8Bit::IDENTIFICATION__MODEL_ID.spec_address() },
        ),
        Operation::ReadInterruptStatus => spec_transfer(
            settings,
            operation,
            Stage::Fetch,
            interrupt_status_read(),
        ),
        Operation::Read { channel, blocking } => spec_transfer(
            settings,
            operation,
            Stage::Event { channel, blocking, polls: 0 },
            interrupt_status_read(),
        ),
        Operation::PollSingleBlocking { channel } => spec_transfer(
            settings,
            operation,
            Stage::Trigger { channel },
            channel.spec_single_start(),
        ),
        Operation::StartSingle { channel } => spec_transfer(
            settings,
            operation,
            Stage::LastWrite { value: 0 },
            channel.spec_single_start(),
        ),
        Operation::StartContinuous { channel } => spec_transfer(
            settings,
            operation,
            Stage::LastWrite { value: 0 },
            channel.spec_continuous_toggle(),
        ),
        Operation::StopContinuous { channel } => spec_transfer(
            settings,
            operation,
            Stage::LastWrite { value: 0 },
            channel.spec_continuous_toggle(),
        ),
        Operation::StartInterleavedContinuous => if settings.interleaved_timing_ok() {
            spec_transfer(
                settings,
                operation,
                Stage::InterleavedEnable,
                Access::WriteByte {
                    register: Register8Bit::INTERLEAVED_MODE__ENABLE.spec_address(),
                    value: InterleavedModeEnableCode::Enable.spec_bits(),
                },
            )
        } else {
            Step::Done(
                Err(Error::InvalidConfigurationValue(settings.ambient_inter_measurement_period)),
            )
        },
        Operation::StopInterleavedContinuous => spec_transfer(
            settings,
            operation,
            Stage::LastWrite { value: 0 },
            Access::WriteByte {
                register: Register8Bit::INTERLEAVED_MODE__ENABLE.spec_address(),
                value: InterleavedModeEnableCode::Disable.spec_bits(),
            },
        ),
        Operation::ClearInterrupt { interrupt } => spec_transfer(
            settings,
            operation,
            Stage::LastWrite { value: 0 },
            Access::WriteByte {
                register: Register8Bit::SYSTEM__INTERRUPT_CLEAR.spec_address(),
                value: interrupt.spec_bits(),
            },
        ),
        Operation::ClearAllInterrupts => spec_transfer(
            settings,
            operation,
            Stage::LastWrite { value: 0 },
            Access::WriteByte {
                register: Register8Bit::SYSTEM__INTERRUPT_CLEAR.spec_address(),
                value: all_interrupts(),
            },
        ),
        Operation::ChangeAddress { new_address } => if Settings::address_in_bounds(new_address) {
            spec_transfer(
                settings,
                operation,
                Stage::Address { new_address },
                Access::WriteByte {
                    register: Register8Bit::I2C_SLAVE__DEVICE_ADDRESS.spec_address(),
                    value: new_address,
                },
            )
        } else {
            Step::Done(Err(Error::InvalidAddress(new_address)))
        },
        Operation::PowerOff => Step::Perform {
            cursor: Cursor { operation, stage: Stage::LastPin },
            action: Action::ShutdownPin { high: false },
        },
        Operation::PowerOnAndInit => Step::Perform {
            cursor: Cursor { operation, stage: Stage::PinHigh },
            action: Action::ShutdownPin { high: true },
        },
    }
}

/// Begins `operation`: answers with its first step.
pub fn begin<E>(config: &Config, operation: Operation) -> (step: Step<E>)
    ensures
        step == first_step::<E>(config@, operation),
{
    let settings = config.settings();
    match operation {
        Operation::Initialise => transfer(
            config,
            operation,
            Stage::ModelId,
            Access::ReadByte { register: Register8Bit::IDENTIFICATION__MODEL_ID.address() },
        ),
        Operation::ReadModelId => transfer(
            config,
            operation,
            Stage::Fetch,
            Access::ReadByte { register: Register8Bit::IDENTIFICATION__MODEL_ID.address() },
        ),
        Operation::ReadInterruptStatus => transfer(
            config,
            operation,
            Stage::Fetch,
            Access::ReadByte { register: Register8Bit::RESULT__INTERRUPT_STATUS_GPIO.address() },
        ),
        Operation::Read { channel, blocking } => transfer(
            config,
            operation,
            Stage::Event { channel, blocking, polls: 0 },
            Access::ReadByte { register: Register8Bit::RESULT__INTERRUPT_STATUS_GPIO.address() },
        ),
        Operation::PollSingleBlocking { channel } => transfer(
            config,
            operation,
            Stage::Trigger { channel },
            channel.single_start(),
        ),
        Operation::StartSingle { channel } => transfer(
            config,
            operation,
            Stage::LastWrite { value: 0 },
            channel.single_start(),
        ),
        Operation::StartContinuous { channel } => transfer(
            config,
            operation,
            Stage::LastWrite { value: 0 },
            channel.continuous_toggle(),
        ),
        Operation::StopContinuous { channel } => transfer(
            config,
            operation,
            Stage::LastWrite { value: 0 },
            channel.continuous_toggle(),
        ),
        Operation::StartInterleavedContinuous => {
            let needed: u32 = 10 * (settings.range_max_convergence_time as u32 + 5) + 11 * (
            settings.ambient_integration_period as u32);
            if needed <= 9 * (settings.ambient_inter_measurement_period as u32) {
                transfer(
                    config,
                    operation,
                    Stage::InterleavedEnable,
                    Access::WriteByte {
                        register: Register8Bit::INTERLEAVED_MODE__ENABLE.address(),
                        value: InterleavedModeEnableCode::Enable.bits(),
                    },
                )
            } else {
                Step::Done(
                    Err(Error::InvalidConfigurationValue(settings.ambient_inter_measurement_period)),
                )
            }
        },
        Operation::StopInterleavedContinuous => transfer(
            config,
            operation,
            Stage::LastWrite { value: 0 },
            Access::WriteByte {
                register: Register8Bit::INTERLEAVED_MODE__ENABLE.address(),
                value: InterleavedModeEnableCode::Disable.bits(),
            },
        ),
        Operation::ClearInterrupt { interrupt } => transfer(
            config,
            operation,
            Stage::LastWrite { value: 0 },
            Access::WriteByte {
                register: Register8Bit::SYSTEM__INTERRUPT_CLEAR.address(),
                value: interrupt.bits(),
            },
        ),
        Operation::ClearAllInterrupts => transfer(
            config,
            operation,
            Stage::LastWrite { value: 0 },
            Access::WriteByte {
                register: Register8Bit::SYSTEM__INTERRUPT_CLEAR.address(),
                value: SysInterruptClearCode::Range.bits() | SysInterruptClearCode::Ambient.bits()
                    | SysInterruptClearCode::Error.bits(),
            },
        ),
        Operation::ChangeAddress { new_address } => {
            if new_address < 0x08 || new_address > 0x77 {
                Step::Done(Err(Error::InvalidAddress(new_address)))
            } else {
                transfer(
                    config,
                    operation,
                    Stage::Address { new_address },
                    Access::WriteByte {
                        register: Register8Bit::I2C_SLAVE__DEVICE_ADDRESS.address(),
                        value: new_address,
                    },
                )
            }
        },
        Operation::PowerOff => Step::Perform {
            cursor: Cursor { operation, stage: Stage::LastPin },
            action: Action::ShutdownPin { high: false },
        },
        Operation::PowerOnAndInit => Step::Perform {
            cursor: Cursor { operation, stage: Stage::PinHigh },
            action: Action::ShutdownPin { high: true },
        },
    }
}

/// The read of the range check enables.
pub open spec fn range_checks_read() -> Access {
    Access::ReadByte { register: Register8Bit::SYSRANGE__RANGE_CHECK_ENABLES.spec_address() }
}

/// The range scaling factor that a value of RANGE_SCALER stands for: 3 or 2
/// for their own table entries, and 1 for every other value.
pub open spec fn spec_scaling_of_code(code: u16) -> u8 {
    if code == RANGE_SCALAR_CODE[3] {
        3
    } else if code == RANGE_SCALAR_CODE[2] {
        2
    } else {
        1
    }
}

/// The range scaling factor that a value of RANGE_SCALER stands for.
#[verifier::when_used_as_spec(spec_scaling_of_code)]
pub fn scaling_of_code(code: u16) -> (scaling: u8)
    ensures
        scaling == spec_scaling_of_code(code),
        1 <= scaling <= 3,
{
    if code == RANGE_SCALAR_CODE[3] {
        3
    } else if code == RANGE_SCALAR_CODE[2] {
        2
    } else {
        1
    }
}

/// The part-to-part range offset at a range scaling of 1, given the offset
/// `held` by a device that runs at the range scaling `scaling`: the product of
/// the two, of which the register keeps the lower eight bits.
pub open spec fn spec_unscaled_ptp_offset(held: u8, scaling: u8) -> u8 {
    ((held * scaling) % 256) as u8
}

/// The part-to-part range offset at a range scaling of 1, given the offset
/// `held` by a device that runs at the range scaling `scaling`.
#[verifier::when_used_as_spec(spec_unscaled_ptp_offset)]
pub fn unscaled_ptp_offset(held: u8, scaling: u8) -> (offset: u8)
    ensures
        offset == spec_unscaled_ptp_offset(held, scaling),
{
    assert(held * scaling <= 255 * 255) by (nonlinear_arith)
        requires
            held <= 255,
            scaling <= 255,
    ;
    (((held as u16) * (scaling as u16)) % 256) as u8
}

/// The step of the initialisation that comes with the write at `index` of
/// [`init_writes`]. After the last write the range check enables are read.
pub open spec fn init_step<E>(
    settings: Settings,
    operation: Operation,
    fresh: bool,
    index: int,
) -> Step<E> {
    if 0 <= index < init_writes(settings, fresh).len() {
        spec_transfer(
            settings,
            operation,
            Stage::InitWrite { fresh, index: index as u8 },
            init_writes(settings, fresh)[index],
        )
    } else {
        spec_transfer(settings, operation, Stage::RangeChecks, range_checks_read())
    }
}

/// The step of the initialisation that comes with the write at `index`.
fn write_step<E>(config: &Config, operation: Operation, fresh: bool, index: usize) -> (step: Step<E>)
    ensures
        step == init_step::<E>(config@, operation, fresh, index as int),
{
    match init_write(config, fresh, index) {
        Some(access) => transfer(
            config,
            operation,
            Stage::InitWrite { fresh, index: index as u8 },
            access,
        ),
        None => transfer(
            config,
            operation,
            Stage::RangeChecks,
            Access::ReadByte { register: Register8Bit::SYSRANGE__RANGE_CHECK_ENABLES.address() },
        ),
    }
}

/// The step after an action that failed with `error`.
///
/// The wait for the device to boot goes on whatever the bus reports. A
/// failure of the shutdown pin ends the operation with
/// [`Error::GpioPinError`], every other failure with [`Error::BusError`].
pub open spec fn after_failure<E>(settings: Settings, cursor: Cursor, error: E) -> Step<E> {
    match cursor.stage {
        Stage::PinHigh => Step::Done(Err(Error::GpioPinError(error))),
        Stage::LastPin => Step::Done(Err(Error::GpioPinError(error))),
        Stage::Boot => spec_transfer(settings, cursor.operation, Stage::Boot, fresh_flag_read()),
        _ => Step::Done(Err(Error::BusError(error))),
    }
}

/// The configuration and the step after an action that succeeded with
/// `data`.
///
/// Power-on: once the pin is high the fresh-out-of-reset flag is read until
/// it reads 1, and the initialisation follows.
///
/// Initialisation: the model id has to be that of the sensor, else the
/// operation fails with [`Error::InvalidDevice`]. The part-to-part range
/// offset is read, then the fresh-out-of-reset flag. If the flag reads 1 the
/// offset is recorded as it is and all of [`init_writes`] follow. If not, the
/// device runs at the range scaling that its range scaler stands for, the
/// offset is recorded for a scaling of 1, and only the writes of the
/// configuration follow. At last the range check enables are read and
/// written back.
///
/// Measurement: while the interrupt status shows no result, a read that does
/// not block fails with [`Error::ResultNotReady`], and a blocking read polls
/// again until as many reads as the timeout of the configuration found
/// nothing, when it fails with [`Error::Timeout`]. With a result the status
/// register is read. It ends the operation if it stands for an error. Else
/// the result register is read, the interrupt of the channel is cleared, and
/// the reading is the value of the operation.
pub open spec fn after_success<E>(settings: Settings, cursor: Cursor, data: [u8; 2]) -> (
    Settings,
    Step<E>,
) {
    let operation = cursor.operation;
    match cursor.stage {
        Stage::PinHigh => (settings, spec_transfer(settings, operation, Stage::Boot, fresh_flag_read())),
        Stage::Boot => (
            settings,
            if spec_byte_read(data) == 1 {
                spec_transfer(
                    settings,
                    operation,
                    Stage::PtpOffset,
                    Access::ReadByte {
                        register: Register8Bit::SYSRANGE__PART_TO_PART_RANGE_OFFSET.spec_address(),
                    },
                )
            } else {
                spec_transfer(settings, operation, Stage::Boot, fresh_flag_read())
            },
        ),
        Stage::ModelId => (
            settings,
            if spec_byte_read(data) == MODEL_ID {
                spec_transfer(
                    settings,
                    operation,
                    Stage::PtpOffset,
                    Access::ReadByte {
                        register: Register8Bit::SYSRANGE__PART_TO_PART_RANGE_OFFSET.spec_address(),
                    },
                )
            } else {
                Step::Done(Err(Error::InvalidDevice(spec_byte_read(data))))
            },
        ),
        Stage::PtpOffset => (
            settings,
            spec_transfer(
                settings,
                operation,
                Stage::FreshFlag { ptp_offset: spec_byte_read(data) },
                fresh_flag_read(),
            ),
        ),
        Stage::FreshFlag { ptp_offset } => if spec_byte_read(data) == 1 {
            let recorded = Settings { ptp_offset: ptp_offset, ..settings };
            (recorded, init_step(recorded, operation, true, 0))
        } else {
            (
                settings,
                spec_transfer(
                    settings,
                    operation,
                    Stage::HardwareScaler { ptp_offset },
                    Access::ReadWord { register: Register16Bit::RANGE_SCALER.spec_address() },
                ),
            )
        },
        Stage::HardwareScaler { ptp_offset } => {
            let recorded = Settings {
                ptp_offset: spec_unscaled_ptp_offset(
                    ptp_offset,
                    spec_scaling_of_code(spec_word_read(data)),
                ),
                ..settings
            };
            (recorded, init_step(recorded, operation, false, 0))
        },
        Stage::InitWrite { fresh, index } => (
            settings,
            init_step(settings, operation, fresh, index + 1),
        ),
        Stage::RangeChecks => (
            settings,
            spec_transfer(
                settings,
                operation,
                Stage::LastWrite { value: 0 },
                Access::WriteByte {
                    register: Register8Bit::SYSRANGE__RANGE_CHECK_ENABLES.spec_address(),
                    value: settings.range_check_enables(spec_byte_read(data)),
                },
            ),
        ),
        Stage::Fetch => (settings, Step::Done(Ok(spec_byte_read(data) as u16))),
        Stage::Trigger { channel } => (
            settings,
            spec_transfer(
                settings,
                operation,
                Stage::Event { channel, blocking: true, polls: 0 },
                interrupt_status_read(),
            ),
        ),
        Stage::Event { channel, blocking, polls } => (
            settings,
            if ResultInterruptStatusGpioCode::spec_has_status(
                channel.spec_no_events(),
                spec_byte_read(data),
            ) {
                if !blocking {
                    Step::Done(Err(Error::ResultNotReady))
                } else if polls + 1 >= settings.io_timeout {
                    Step::Done(Err(Error::Timeout))
                } else {
                    spec_transfer(
                        settings,
                        operation,
                        Stage::Event { channel, blocking, polls: (polls + 1) as u16 },
                        interrupt_status_read(),
                    )
                }
            } else {
                spec_transfer(settings, operation, Stage::Status { channel }, channel.spec_status_read())
            },
        ),
        Stage::Status { channel } => (
            settings,
            match channel.status_error::<E>(spec_byte_read(data)) {
                Some(error) => Step::Done(Err(error)),
                None => spec_transfer(
                    settings,
                    operation,
                    Stage::Value { channel },
                    channel.spec_value_read(),
                ),
            },
        ),
        Stage::Value { channel } => (
            settings,
            spec_transfer(
                settings,
                operation,
                Stage::LastWrite { value: channel.reading(settings, data) },
                channel.spec_interrupt_clear(),
            ),
        ),
        Stage::InterleavedEnable => (
            settings,
            spec_transfer(
                settings,
                operation,
                Stage::LastWrite { value: 0 },
                Channel::Ambient.spec_continuous_toggle(),
            ),
        ),
        Stage::Address { new_address } => if Settings::address_in_bounds(new_address) {
            (Settings { address: new_address, ..settings }, Step::Done(Ok(0)))
        } else {
            (settings, Step::Done(Err(Error::InvalidAddress(new_address))))
        },
        Stage::LastWrite { value } => (settings, Step::Done(Ok(value))),
        Stage::LastPin => (settings, Step::Done(Ok(0))),
    }
}

/// The configuration and the step after the reply `reply` to the action that
/// came with `cursor`.
pub open spec fn next_step<E>(settings: Settings, cursor: Cursor, reply: Reply<E>) -> (
    Settings,
    Step<E>,
) {
    match reply {
        Reply::Done(data) => after_success(settings, cursor, data),
        Reply::Failed(error) => (settings, after_failure(settings, cursor, error)),
    }
}

/// Takes the operation at `cursor` one step further, after an action that
/// succeeded with `data`.
fn succeed<E>(config: &mut Config, cursor: Cursor, data: [u8; 2]) -> (step: Step<E>)
    ensures
        final(config)@ == after_success::<E>(old(config)@, cursor, data).0,
        step == after_success::<E>(old(config)@, cursor, data).1,
{
    let operation = cursor.operation;
    match cursor.stage {
        Stage::PinHigh => transfer(
            config,
            operation,
            Stage::Boot,
            Access::ReadByte { register: Register8Bit::SYSTEM__FRESH_OUT_OF_RESET.address() },
        ),
        Stage::Boot => {
            if byte_read(data) == 1 {
                transfer(
                    config,
                    operation,
                    Stage::PtpOffset,
                    Access::ReadByte {
                        register: Register8Bit::SYSRANGE__PART_TO_PART_RANGE_OFFSET.address(),
                    },
                )
            } else {
                transfer(
                    config,
                    operation,
                    Stage::Boot,
                    Access::ReadByte { register: Register8Bit::SYSTEM__FRESH_OUT_OF_RESET.address() },
                )
            }
        },
        Stage::ModelId => {
            if byte_read(data) == MODEL_ID {
                transfer(
                    config,
                    operation,
                    Stage::PtpOffset,
                    Access::ReadByte {
                        register: Register8Bit::SYSRANGE__PART_TO_PART_RANGE_OFFSET.address(),
                    },
                )
            } else {
                Step::Done(Err(Error::InvalidDevice(byte_read(data))))
            }
        },
        Stage::PtpOffset => transfer(
            config,
            operation,
            Stage::FreshFlag { ptp_offset: byte_read(data) },
            Access::ReadByte { register: Register8Bit::SYSTEM__FRESH_OUT_OF_RESET.address() },
        ),
        Stage::FreshFlag { ptp_offset } => {
            if byte_read(data) == 1 {
                config.set_ptp_offset(ptp_offset);
                write_step(config, operation, true, 0)
            } else {
                transfer(
                    config,
                    operation,
                    Stage::HardwareScaler { ptp_offset },
                    Access::ReadWord { register: Register16Bit::RANGE_SCALER.address() },
                )
            }
        },
        Stage::HardwareScaler { ptp_offset } => {
            let scaling = scaling_of_code(word_read(data));
            config.set_ptp_offset(unscaled_ptp_offset(ptp_offset, scaling));
            write_step(config, operation, false, 0)
        },
        Stage::InitWrite { fresh, index } => write_step(config, operation, fresh, index as usize + 1),
        Stage::RangeChecks => {
            let early_convergence: u8 = if config.settings().range_scaling == 1 {
                1
            } else {
                0
            };
            transfer(
                config,
                operation,
                Stage::LastWrite { value: 0 },
                Access::WriteByte {
                    register: Register8Bit::SYSRANGE__RANGE_CHECK_ENABLES.address(),
                    value: (byte_read(data) & 0xFE) | early_convergence,
                },
            )
        },
        Stage::Fetch => Step::Done(Ok(byte_read(data) as u16)),
        Stage::Trigger { channel } => transfer(
            config,
            operation,
            Stage::Event { channel, blocking: true, polls: 0 },
            Access::ReadByte { register: Register8Bit::RESULT__INTERRUPT_STATUS_GPIO.address() },
        ),
        Stage::Event { channel, blocking, polls } => {
            if ResultInterruptStatusGpioCode::has_status(channel.no_events(), byte_read(data)) {
                if !blocking {
                    Step::Done(Err(Error::ResultNotReady))
                } else if polls as u32 + 1 >= config.settings().io_timeout as u32 {
                    Step::Done(Err(Error::Timeout))
                } else {
                    transfer(
                        config,
                        operation,
                        Stage::Event { channel, blocking, polls: polls + 1 },
                        Access::ReadByte {
                            register: Register8Bit::RESULT__INTERRUPT_STATUS_GPIO.address(),
                        },
                    )
                }
            } else {
                transfer(config, operation, Stage::Status { channel }, channel.status_read())
            }
        },
        Stage::Status { channel } => match channel.decode_status(byte_read(data)) {
            Some(error) => Step::Done(Err(error)),
            None => transfer(config, operation, Stage::Value { channel }, channel.value_read()),
        },
        Stage::Value { channel } => {
            let value = channel.convert(config, data);
            transfer(config, operation, Stage::LastWrite { value }, channel.interrupt_clear())
        },
        Stage::InterleavedEnable => transfer(
            config,
            operation,
            Stage::LastWrite { value: 0 },
            Channel::Ambient.continuous_toggle(),
        ),
        Stage::Address { new_address } => {
            if new_address < 0x08 || new_address > 0x77 {
                Step::Done(Err(Error::InvalidAddress(new_address)))
            } else {
                config.set_address(new_address);
                Step::Done(Ok(0))
            }
        },
        Stage::LastWrite { value } => Step::Done(Ok(value)),
        Stage::LastPin => Step::Done(Ok(0)),
    }
}

/// Takes the operation at `cursor` one step further: answers with the step
/// that follows the reply `reply` to the action that came with `cursor`, and
/// records in `config` what the operation has learnt of the device.
pub fn advance<E>(config: &mut Config, cursor: Cursor, reply: Reply<E>) -> (step: Step<E>)
    ensures
        final(config)@ == next_step(old(config)@, cursor, reply).0,
        step == next_step(old(config)@, cursor, reply).1,
        final(config)@.valid(),
{
    let step = match reply {
        Reply::Done(data) => succeed(config, cursor, data),
        Reply::Failed(error) => match cursor.stage {
            Stage::PinHigh => Step::Done(Err(Error::GpioPinError(error))),
            Stage::LastPin => Step::Done(Err(Error::GpioPinError(error))),
            Stage::Boot => transfer(
                config,
                cursor.operation,
                Stage::Boot,
                Access::ReadByte { register: Register8Bit::SYSTEM__FRESH_OUT_OF_RESET.address() },
            ),
            _ => Step::Done(Err(Error::BusError(error))),
        },
    };
    let _ = config.settings();
    step
}

/// Where an operation stands after the host has performed the actions that
/// it was asked for and has got `replies` for them, in this order, beginning
/// from `step`. Replies that are left over when the operation is done are
/// not looked at.
pub open spec fn run<E>(settings: Settings, step: Step<E>, replies: Seq<Reply<E>>) -> (
    Settings,
    Step<E>,
)
    decreases replies.len(),
{
    if replies.len() == 0 {
        (settings, step)
    } else {
        match step {
            Step::Perform { cursor, .. } => {
                let (recorded, next) = next_step(settings, cursor, replies[0]);
                run(recorded, next, replies.drop_first())
            },
            Step::Done(_) => (settings, step),
        }
    }
}

/// The actions that the host is asked for on the way of [`run`], in order.
pub open spec fn actions<E>(settings: Settings, step: Step<E>, replies: Seq<Reply<E>>) -> Seq<
    Action,
>
    decreases replies.len(),
{
    match step {
        Step::Perform { cursor, action } => if replies.len() == 0 {
            seq![action]
        } else {
            let (recorded, next) = next_step(settings, cursor, replies[0]);
            seq![action] + actions(recorded, next, replies.drop_first())
        },
        Step::Done(_) => Seq::empty(),
    }
}

} // verus!
