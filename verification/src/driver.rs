//! The driver value, with the operating mode of the sensor in its type.
//!
//! A method that stands for an operation begins it: it answers with the first
//! [`Step`] and performs nothing itself. The host performs the action of the
//! step and calls [`VL6180X::resume`] with the reply until the operation is
//! done. A method that changes the mode takes the driver value and gives it
//! back in the type of the new mode, together with the first step. The new
//! value stands for the sensor once the operation is done and has succeeded.
//! If it fails, the value is to be dropped.

use crate::bus::Reply;
use crate::config::{Config, Settings};
use crate::error::Error;
use crate::mode::{
    AllowCommunication, AllowReadMeasurement, AllowStartAmbientSingle, AllowStartRangeSingle,
    AmbientContinuousMode, DynamicMode, InterleavedContinuousMode, ModeType, OperatingMode,
    PoweredOffMode, RangeContinuousMode, ReadyMode,
};
use crate::protocol::{
    advance, begin, first_step, next_step, run, Channel, Cursor, Operation, Step,
};
use crate::register::SysInterruptClearCode;
use vstd::prelude::*;

verus! {

/// VL6180X driver: the configuration of one sensor and its operating mode.
#[derive(Debug, Clone, Copy)]
pub struct VL6180X<MODE> {
    pub(crate) mode: MODE,
    pub(crate) config: Config,
}

/// Whether the mode type `FROM` allows `operation` and the operation leads to
/// the mode of the mode type `TO`.
pub open spec fn leads<FROM: ModeType, TO: ModeType>(operation: Operation) -> bool {
    &&& FROM::operating_mode().spec_permits(operation)
    &&& operation.spec_arrival() == Some(TO::operating_mode())
}

impl<MODE> VL6180X<MODE> {
    /// The values of the configuration of the driver.
    pub closed spec fn settings(&self) -> Settings {
        self.config@
    }

    /// The configuration of the driver.
    pub fn config(&self) -> (config: Config)
        ensures
            config@ == self.settings(),
            config@.valid(),
    {
        let _ = self.config.settings();
        self.config
    }

    /// The driver with the same configuration in another mode.
    pub(crate) fn into_mode<MODE2>(self, mode: MODE2) -> (driver: VL6180X<MODE2>)
        ensures
            driver.settings() == self.settings(),
            driver.mode == mode,
    {
        VL6180X { mode, config: self.config }
    }

    /// Stops interleaved continuous mode, whatever mode the driver is in.
    pub fn stop_interleaved_continuous_direct<E>(&self) -> (step: Step<E>)
        ensures
            step == first_step::<E>(self.settings(), Operation::StopInterleavedContinuous),
    {
        begin(&self.config, Operation::StopInterleavedContinuous)
    }
}

impl<MODE: ModeType> VL6180X<MODE> {
    /// Takes the operation at `cursor` one step further: answers with the
    /// step that follows the reply `reply` to the action that came with
    /// `cursor`.
    pub fn resume<E>(&mut self, cursor: Cursor, reply: Reply<E>) -> (step: Step<E>)
        ensures
            final(self).settings() == next_step(old(self).settings(), cursor, reply).0,
            step == next_step(old(self).settings(), cursor, reply).1,
    {
        advance(&mut self.config, cursor, reply)
    }
}

impl<MODE: AllowReadMeasurement> VL6180X<MODE> {
    /// Blocking read of the range measurement, in mm.
    /// The reading (whether single or continuous) must already have been
    /// started.
    pub fn read_range_mm_blocking<E>(&self) -> (step: Step<E>)
        ensures
            MODE::operating_mode().spec_permits(
                Operation::Read { channel: Channel::Range, blocking: true },
            ),
            step == first_step::<E>(
                self.settings(),
                Operation::Read { channel: Channel::Range, blocking: true },
            ),
    {
        proof {
            MODE::lemma_reads(Channel::Range, true);
        }
        begin(&self.config, Operation::Read { channel: Channel::Range, blocking: true })
    }

    /// Non-blocking read of the range measurement, in mm.
    /// The reading (whether single or continuous) must already have been
    /// started. Ends with [`crate::Error::ResultNotReady`] if the result is
    /// not ready.
    pub fn read_range_mm<E>(&self) -> (step: Step<E>)
        ensures
            MODE::operating_mode().spec_permits(
                Operation::Read { channel: Channel::Range, blocking: false },
            ),
            step == first_step::<E>(
                self.settings(),
                Operation::Read { channel: Channel::Range, blocking: false },
            ),
    {
        proof {
            MODE::lemma_reads(Channel::Range, false);
        }
        begin(&self.config, Operation::Read { channel: Channel::Range, blocking: false })
    }

    /// Blocking read of the raw ambient light measurement.
    /// The reading (whether single or continuous) must already have been
    /// started.
    pub fn read_ambient_blocking<E>(&self) -> (step: Step<E>)
        ensures
            MODE::operating_mode().spec_permits(
                Operation::Read { channel: Channel::Ambient, blocking: true },
            ),
            step == first_step::<E>(
                self.settings(),
                Operation::Read { channel: Channel::Ambient, blocking: true },
            ),
    {
        proof {
            MODE::lemma_reads(Channel::Ambient, true);
        }
        begin(&self.config, Operation::Read { channel: Channel::Ambient, blocking: true })
    }

    /// Non-blocking read of the raw ambient light measurement.
    /// The reading (whether single or continuous) must already have been
    /// started. Ends with [`crate::Error::ResultNotReady`] if the result is
    /// not ready.
    pub fn read_ambient<E>(&self) -> (step: Step<E>)
        ensures
            MODE::operating_mode().spec_permits(
                Operation::Read { channel: Channel::Ambient, blocking: false },
            ),
            step == first_step::<E>(
                self.settings(),
                Operation::Read { channel: Channel::Ambient, blocking: false },
            ),
    {
        proof {
            MODE::lemma_reads(Channel::Ambient, false);
        }
        begin(&self.config, Operation::Read { channel: Channel::Ambient, blocking: false })
    }
}

impl<MODE: AllowStartAmbientSingle> VL6180X<MODE> {
    /// Trigger ambient light measurement in a non-blocking way.
    ///
    /// Does not give the result. To get the measured value the host has the
    /// following options:
    /// 1. Check regularly to see if the result is ready with
    /// [`read_ambient`](VL6180X::read_ambient)
    /// 2. Use [`read_ambient_blocking`](VL6180X::read_ambient_blocking) to
    /// have the driver perform the regular checks.
    /// 3. Wait for the ambient interrupt to be triggered, indicating that the
    /// new sample is ready, then use the method of option 1.
    pub fn start_ambient_single<E>(&self) -> (step: Step<E>)
        ensures
            MODE::operating_mode().spec_permits(
                Operation::StartSingle { channel: Channel::Ambient },
            ),
            step == first_step::<E>(
                self.settings(),
                Operation::StartSingle { channel: Channel::Ambient },
            ),
    {
        proof {
            MODE::lemma_starts_ambient();
        }
        begin(&self.config, Operation::StartSingle { channel: Channel::Ambient })
    }
}

impl<MODE: AllowStartRangeSingle> VL6180X<MODE> {
    /// Trigger range measurement in a non-blocking way.
    ///
    /// Does not give the result. To get the measured value the host has the
    /// following options:
    /// 1. Check regularly to see if the result is ready with
    /// [`read_range_mm`](VL6180X::read_range_mm)
    /// 2. Use [`read_range_mm_blocking`](VL6180X::read_range_mm_blocking) to
    /// have the driver perform the regular checks.
    /// 3. Wait for the range interrupt to be triggered, indicating that the
    /// new sample is ready, then use the method of option 1.
    pub fn start_range_single<E>(&self) -> (step: Step<E>)
        ensures
            MODE::operating_mode().spec_permits(Operation::StartSingle { channel: Channel::Range }),
            step == first_step::<E>(
                self.settings(),
                Operation::StartSingle { channel: Channel::Range },
            ),
    {
        proof {
            MODE::lemma_starts_range();
        }
        begin(&self.config, Operation::StartSingle { channel: Channel::Range })
    }
}

impl<MODE: AllowCommunication> VL6180X<MODE> {
    /// Read the model id of the sensor. Should give 0xB4.
    pub fn read_model_id<E>(&self) -> (step: Step<E>)
        ensures
            MODE::operating_mode().spec_permits(Operation::ReadModelId),
            step == first_step::<E>(self.settings(), Operation::ReadModelId),
    {
        proof {
            MODE::lemma_powered();
        }
        begin(&self.config, Operation::ReadModelId)
    }

    /// Read the current interrupt status of the sensor.
    /// Can be in multiple states of
    /// [`ResultInterruptStatusGpioCode`](crate::ResultInterruptStatusGpioCode)
    /// at once. Use its `has_status` to look for particular states.
    pub fn read_interrupt_status<E>(&self) -> (step: Step<E>)
        ensures
            MODE::operating_mode().spec_permits(Operation::ReadInterruptStatus),
            step == first_step::<E>(self.settings(), Operation::ReadInterruptStatus),
    {
        proof {
            MODE::lemma_powered();
        }
        begin(&self.config, Operation::ReadInterruptStatus)
    }

    /// Clear error interrupt
    pub fn clear_error_interrupt<E>(&self) -> (step: Step<E>)
        ensures
            MODE::operating_mode().spec_permits(
                Operation::ClearInterrupt { interrupt: SysInterruptClearCode::Error },
            ),
            step == first_step::<E>(
                self.settings(),
                Operation::ClearInterrupt { interrupt: SysInterruptClearCode::Error },
            ),
    {
        proof {
            MODE::lemma_powered();
        }
        begin(&self.config, Operation::ClearInterrupt { interrupt: SysInterruptClearCode::Error })
    }

    /// Clear ambient interrupt
    pub fn clear_ambient_interrupt<E>(&self) -> (step: Step<E>)
        ensures
            MODE::operating_mode().spec_permits(
                Operation::ClearInterrupt { interrupt: SysInterruptClearCode::Ambient },
            ),
            step == first_step::<E>(
                self.settings(),
                Operation::ClearInterrupt { interrupt: SysInterruptClearCode::Ambient },
            ),
    {
        proof {
            MODE::lemma_powered();
        }
        begin(&self.config, Operation::ClearInterrupt { interrupt: SysInterruptClearCode::Ambient })
    }

    /// Clear range interrupt
    pub fn clear_range_interrupt<E>(&self) -> (step: Step<E>)
        ensures
            MODE::operating_mode().spec_permits(
                Operation::ClearInterrupt { interrupt: SysInterruptClearCode::Range },
            ),
            step == first_step::<E>(
                self.settings(),
                Operation::ClearInterrupt { interrupt: SysInterruptClearCode::Range },
            ),
    {
        proof {
            MODE::lemma_powered();
        }
        begin(&self.config, Operation::ClearInterrupt { interrupt: SysInterruptClearCode::Range })
    }

    /// Clear all interrupts (error, ambient and range)
    pub fn clear_all_interrupts<E>(&self) -> (step: Step<E>)
        ensures
            MODE::operating_mode().spec_permits(Operation::ClearAllInterrupts),
            step == first_step::<E>(self.settings(), Operation::ClearAllInterrupts),
    {
        proof {
            MODE::lemma_powered();
        }
        begin(&self.config, Operation::ClearAllInterrupts)
    }

    /// Powers off the sensor by setting the shutdown pin low.
    pub fn power_off<E>(self) -> (started: (VL6180X<PoweredOffMode>, Step<E>))
        ensures
            leads::<MODE, PoweredOffMode>(Operation::PowerOff),
            started.0.settings() == self.settings(),
            started.1 == first_step::<E>(self.settings(), Operation::PowerOff),
    {
        proof {
            MODE::lemma_powered();
        }
        let step = begin(&self.config, Operation::PowerOff);
        (self.into_mode(PoweredOffMode {  }), step)
    }

    /// Change current i2c address to new i2c address.
    ///
    /// After completion the device will answer to the new address programmed.
    /// Note that the address resets when the device is powered off.
    /// Only allows values between 0x08 and 0x77 as the device uses a 7 bit
    /// address and 0x00 - 0x07 and 0x78 - 0x7F are reserved.
    pub fn change_i2c_address<E>(&self, new_address: u8) -> (step: Step<E>)
        ensures
            MODE::operating_mode().spec_permits(Operation::ChangeAddress { new_address }),
            step == first_step::<E>(self.settings(), Operation::ChangeAddress { new_address }),
    {
        proof {
            MODE::lemma_powered();
        }
        begin(&self.config, Operation::ChangeAddress { new_address })
    }
}

/// The first step of `operation` on a sensor in the mode `mode`: that of
/// [`first_step`] where the mode allows the operation, and the end with
/// [`Error::InvalidMethod`] where it does not. In that case nothing is sent
/// to the sensor.
pub open spec fn try_first_step<E>(
    mode: OperatingMode,
    settings: Settings,
    operation: Operation,
) -> Step<E> {
    if mode.spec_permits(operation) {
        first_step(settings, operation)
    } else {
        Step::Done(Err(Error::InvalidMethod(mode)))
    }
}

/// Where the sensor and the driver stand after `operation` was begun in the
/// mode `mode` and the host has got `replies` for the actions that it was
/// asked for: the mode, the configuration, and the last step.
pub open spec fn try_run<E>(
    mode: OperatingMode,
    settings: Settings,
    operation: Operation,
    replies: Seq<Reply<E>>,
) -> (OperatingMode, Settings, Step<E>) {
    let (recorded, last) = run(settings, try_first_step::<E>(mode, settings, operation), replies);
    (mode.after(operation, last), recorded, last)
}

impl VL6180X<DynamicMode> {
    /// The operating mode of the sensor, as the driver has it on record.
    pub closed spec fn spec_operating_mode(&self) -> OperatingMode {
        self.mode@
    }

    /// The operating mode of the sensor, as the driver has it on record.
    #[verifier::when_used_as_spec(spec_operating_mode)]
    pub fn operating_mode(&self) -> (mode: OperatingMode)
        ensures
            mode == self.spec_operating_mode(),
    {
        self.mode.operating_mode()
    }

    /// Begins `operation` if the operating mode allows it, and fails with
    /// [`Error::InvalidMethod`] if not.
    pub fn try_begin<E>(&self, operation: Operation) -> (step: Step<E>)
        ensures
            step == try_first_step::<E>(self.spec_operating_mode(), self.settings(), operation),
    {
        let mode = self.mode.operating_mode();
        if mode.permits(operation) {
            begin(&self.config, operation)
        } else {
            Step::Done(Err(Error::InvalidMethod(mode)))
        }
    }

    /// Takes the operation at `cursor` one step further: answers with the
    /// step that follows the reply `reply` to the action that came with
    /// `cursor`. When the operation is done and has succeeded, the mode on
    /// record becomes the one that the operation leads to. A failure leaves
    /// the mode as it was.
    pub fn try_resume<E>(&mut self, cursor: Cursor, reply: Reply<E>) -> (step: Step<E>)
        ensures
            final(self).settings() == next_step(old(self).settings(), cursor, reply).0,
            step == next_step(old(self).settings(), cursor, reply).1,
            final(self).spec_operating_mode() == old(self).spec_operating_mode().after(
                cursor.operation,
                step,
            ),
    {
        let step = advance(&mut self.config, cursor, reply);
        let arrived = match &step {
            Step::Done(Ok(_)) => cursor.operation.arrival(),
            _ => None,
        };
        match arrived {
            Some(mode) => {
                self.mode.record(mode);
            },
            None => {},
        }
        step
    }
}

impl VL6180X<ReadyMode> {
    /// Create a new VL6180X driver with the default configuration, and begin
    /// to initialise the sensor.
    pub fn new<E>() -> (started: (Self, Step<E>))
        ensures
            started.0.settings() == Settings::defaults(),
            started.1 == first_step::<E>(Settings::defaults(), Operation::Initialise),
            Operation::Initialise.spec_arrival() == Some(ReadyMode::operating_mode()),
    {
        let config = Config::new();
        Self::with_config(&config)
    }

    /// Create a new VL6180X driver cloning provided config values, and begin
    /// to initialise the sensor.
    pub fn with_config<E>(config: &Config) -> (started: (Self, Step<E>))
        ensures
            started.0.settings() == config@,
            started.1 == first_step::<E>(config@, Operation::Initialise),
            Operation::Initialise.spec_arrival() == Some(ReadyMode::operating_mode()),
    {
        let chip = Self { mode: ReadyMode, config: *config };
        let step = begin(&chip.config, Operation::Initialise);
        (chip, step)
    }

    /// Make VL6180X dynamic
    ///
    /// The modes guarantee that you can only call methods valid for each
    /// mode, but can lead to some issues. Therefore, there is also a mode
    /// where the state is kept track of at runtime, allowing you to change the
    /// mode often, and without problems with ownership, or references, at the
    /// cost of some performance and the risk of runtime errors.
    pub fn into_dynamic_mode(self) -> (driver: VL6180X<DynamicMode>)
        ensures
            driver.settings() == self.settings(),
            driver.spec_operating_mode() == ReadyMode::operating_mode(),
    {
        self.into_mode(DynamicMode::new())
    }

    /// Poll the sensor for a single range measurement, in mm.
    /// Starts a single range measurement, then waits for the result as
    /// [`read_range_mm_blocking`](VL6180X::read_range_mm_blocking) does.
    pub fn poll_range_mm_single_blocking<E>(&self) -> (step: Step<E>)
        ensures
            ReadyMode::operating_mode().spec_permits(
                Operation::PollSingleBlocking { channel: Channel::Range },
            ),
            step == first_step::<E>(
                self.settings(),
                Operation::PollSingleBlocking { channel: Channel::Range },
            ),
    {
        begin(&self.config, Operation::PollSingleBlocking { channel: Channel::Range })
    }

    /// Poll the sensor for a single raw ambient light measurement.
    /// Starts a single ambient measurement, then waits for the result as
    /// [`read_ambient_blocking`](VL6180X::read_ambient_blocking) does.
    pub fn poll_ambient_single_blocking<E>(&self) -> (step: Step<E>)
        ensures
            ReadyMode::operating_mode().spec_permits(
                Operation::PollSingleBlocking { channel: Channel::Ambient },
            ),
            step == first_step::<E>(
                self.settings(),
                Operation::PollSingleBlocking { channel: Channel::Ambient },
            ),
    {
        begin(&self.config, Operation::PollSingleBlocking { channel: Channel::Ambient })
    }

    /// Starts continuous operation mode for reading range measurements.
    ///
    /// Main configuration values are the range inter-measurement period and
    /// the range max convergence time.
    pub fn start_range_continuous_mode<E>(self) -> (started: (
        VL6180X<RangeContinuousMode>,
        Step<E>,
    ))
        ensures
            leads::<ReadyMode, RangeContinuousMode>(
                Operation::StartContinuous { channel: Channel::Range },
            ),
            started.0.settings() == self.settings(),
            started.1 == first_step::<E>(
                self.settings(),
                Operation::StartContinuous { channel: Channel::Range },
            ),
    {
        let step = begin(&self.config, Operation::StartContinuous { channel: Channel::Range });
        (self.into_mode(RangeContinuousMode), step)
    }

    /// Starts continuous operation mode for reading ambient light
    /// measurements.
    pub fn start_ambient_continuous_mode<E>(self) -> (started: (
        VL6180X<AmbientContinuousMode>,
        Step<E>,
    ))
        ensures
            leads::<ReadyMode, AmbientContinuousMode>(
                Operation::StartContinuous { channel: Channel::Ambient },
            ),
            started.0.settings() == self.settings(),
            started.1 == first_step::<E>(
                self.settings(),
                Operation::StartContinuous { channel: Channel::Ambient },
            ),
    {
        let step = begin(&self.config, Operation::StartContinuous { channel: Channel::Ambient });
        (self.into_mode(AmbientContinuousMode), step)
    }

    /// Starts continuous operation mode for interleaved ambient light and
    /// range measurements. The inter-measurement period is the ambient
    /// inter-measurement period of the configuration.
    pub fn start_interleaved_continuous_mode<E>(self) -> (started: (
        VL6180X<InterleavedContinuousMode>,
        Step<E>,
    ))
        ensures
            leads::<ReadyMode, InterleavedContinuousMode>(Operation::StartInterleavedContinuous),
            started.0.settings() == self.settings(),
            started.1 == first_step::<E>(self.settings(), Operation::StartInterleavedContinuous),
    {
        let step = begin(&self.config, Operation::StartInterleavedContinuous);
        (self.into_mode(InterleavedContinuousMode {  }), step)
    }
}

impl VL6180X<RangeContinuousMode> {
    /// Stops range continuous mode.
    pub fn stop_range_continuous_mode<E>(self) -> (started: (VL6180X<ReadyMode>, Step<E>))
        ensures
            leads::<RangeContinuousMode, ReadyMode>(
                Operation::StopContinuous { channel: Channel::Range },
            ),
            started.0.settings() == self.settings(),
            started.1 == first_step::<E>(
                self.settings(),
                Operation::StopContinuous { channel: Channel::Range },
            ),
    {
        let step = begin(&self.config, Operation::StopContinuous { channel: Channel::Range });
        (self.into_mode(ReadyMode), step)
    }
}

impl VL6180X<AmbientContinuousMode> {
    /// Stops ambient continuous mode.
    pub fn stop_ambient_continuous_mode<E>(self) -> (started: (VL6180X<ReadyMode>, Step<E>))
        ensures
            leads::<AmbientContinuousMode, ReadyMode>(
                Operation::StopContinuous { channel: Channel::Ambient },
            ),
            started.0.settings() == self.settings(),
            started.1 == first_step::<E>(
                self.settings(),
                Operation::StopContinuous { channel: Channel::Ambient },
            ),
    {
        let step = begin(&self.config, Operation::StopContinuous { channel: Channel::Ambient });
        (self.into_mode(ReadyMode), step)
    }
}

impl VL6180X<InterleavedContinuousMode> {
    /// Stops interleaved continuous mode.
    pub fn stop_interleaved_continuous_mode<E>(self) -> (started: (VL6180X<ReadyMode>, Step<E>))
        ensures
            leads::<InterleavedContinuousMode, ReadyMode>(Operation::StopInterleavedContinuous),
            started.0.settings() == self.settings(),
            started.1 == first_step::<E>(self.settings(), Operation::StopInterleavedContinuous),
    {
        let step = begin(&self.config, Operation::StopInterleavedContinuous);
        (self.into_mode(ReadyMode), step)
    }
}

impl VL6180X<PoweredOffMode> {
    /// Powers on the sensor by setting the shutdown pin high. The operation
    /// then waits for the device to be booted and initialises it.
    pub fn power_on_and_init<E>(self) -> (started: (VL6180X<ReadyMode>, Step<E>))
        ensures
            leads::<PoweredOffMode, ReadyMode>(Operation::PowerOnAndInit),
            started.0.settings() == self.settings(),
            started.1 == first_step::<E>(self.settings(), Operation::PowerOnAndInit),
    {
        let step = begin(&self.config, Operation::PowerOnAndInit);
        (self.into_mode(ReadyMode), step)
    }
}

} // verus!
