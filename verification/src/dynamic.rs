//! The driver value with the operating mode of the sensor kept on record and
//! tested when an operation begins.

use crate::driver::{try_first_step, VL6180X};
use crate::mode::DynamicMode;
use crate::protocol::{Channel, Operation, Step};
use crate::register::SysInterruptClearCode;
use vstd::prelude::*;

verus! {

impl VL6180X<DynamicMode> {
    /// Same functionality as
    /// [`poll_range_mm_single_blocking`](VL6180X::poll_range_mm_single_blocking)
    /// but with a check on the current [`OperatingMode`](crate::OperatingMode).
    /// Valid when the mode is `Ready`, otherwise ends with
    /// [`InvalidMethod`](crate::Error::InvalidMethod).
    pub fn try_poll_range_mm_single_blocking<E>(&self) -> (step: Step<E>)
        ensures
            step == try_first_step::<E>(
                self.spec_operating_mode(),
                self.settings(),
                Operation::PollSingleBlocking { channel: Channel::Range },
            ),
    {
        self.try_begin(Operation::PollSingleBlocking { channel: Channel::Range })
    }

    /// Same functionality as
    /// [`poll_ambient_single_blocking`](VL6180X::poll_ambient_single_blocking)
    /// but with a check on the current [`OperatingMode`](crate::OperatingMode).
    /// Valid when the mode is `Ready`, otherwise ends with
    /// [`InvalidMethod`](crate::Error::InvalidMethod).
    pub fn try_poll_ambient_single_blocking<E>(&self) -> (step: Step<E>)
        ensures
            step == try_first_step::<E>(
                self.spec_operating_mode(),
                self.settings(),
                Operation::PollSingleBlocking { channel: Channel::Ambient },
            ),
    {
        self.try_begin(Operation::PollSingleBlocking { channel: Channel::Ambient })
    }

    /// Same functionality as
    /// [`start_range_continuous_mode`](VL6180X::start_range_continuous_mode)
    /// but with a check on the current [`OperatingMode`](crate::OperatingMode).
    /// Valid when the mode is `Ready`, otherwise ends with
    /// [`InvalidMethod`](crate::Error::InvalidMethod).
    pub fn try_start_range_continuous_mode<E>(&self) -> (step: Step<E>)
        ensures
            step == try_first_step::<E>(
                self.spec_operating_mode(),
                self.settings(),
                Operation::StartContinuous { channel: Channel::Range },
            ),
    {
        self.try_begin(Operation::StartContinuous { channel: Channel::Range })
    }

    /// Same functionality as
    /// [`stop_range_continuous_mode`](VL6180X::stop_range_continuous_mode)
    /// but with a check on the current [`OperatingMode`](crate::OperatingMode).
    /// Valid when the mode is `RangeContinuous`, otherwise ends with
    /// [`InvalidMethod`](crate::Error::InvalidMethod).
    pub fn try_stop_range_continuous_mode<E>(&self) -> (step: Step<E>)
        ensures
            step == try_first_step::<E>(
                self.spec_operating_mode(),
                self.settings(),
                Operation::StopContinuous { channel: Channel::Range },
            ),
    {
        self.try_begin(Operation::StopContinuous { channel: Channel::Range })
    }

    /// Same functionality as
    /// [`start_ambient_continuous_mode`](VL6180X::start_ambient_continuous_mode)
    /// but with a check on the current [`OperatingMode`](crate::OperatingMode).
    /// Valid when the mode is `Ready`, otherwise ends with
    /// [`InvalidMethod`](crate::Error::InvalidMethod).
    pub fn try_start_ambient_continuous_mode<E>(&self) -> (step: Step<E>)
        ensures
            step == try_first_step::<E>(
                self.spec_operating_mode(),
                self.settings(),
                Operation::StartContinuous { channel: Channel::Ambient },
            ),
    {
        self.try_begin(Operation::StartContinuous { channel: Channel::Ambient })
    }

    /// Same functionality as
    /// [`stop_ambient_continuous_mode`](VL6180X::stop_ambient_continuous_mode)
    /// but with a check on the current [`OperatingMode`](crate::OperatingMode).
    /// Valid when the mode is `AmbientContinuous`, otherwise ends with
    /// [`InvalidMethod`](crate::Error::InvalidMethod).
    pub fn try_stop_ambient_continuous_mode<E>(&self) -> (step: Step<E>)
        ensures
            step == try_first_step::<E>(
                self.spec_operating_mode(),
                self.settings(),
                Operation::StopContinuous { channel: Channel::Ambient },
            ),
    {
        self.try_begin(Operation::StopContinuous { channel: Channel::Ambient })
    }

    /// Same functionality as
    /// [`start_interleaved_continuous_mode`](VL6180X::start_interleaved_continuous_mode)
    /// but with a check on the current [`OperatingMode`](crate::OperatingMode).
    /// Valid when the mode is `Ready`, otherwise ends with
    /// [`InvalidMethod`](crate::Error::InvalidMethod).
    pub fn try_start_interleaved_continuous_mode<E>(&self) -> (step: Step<E>)
        ensures
            step == try_first_step::<E>(
                self.spec_operating_mode(),
                self.settings(),
                Operation::StartInterleavedContinuous,
            ),
    {
        self.try_begin(Operation::StartInterleavedContinuous)
    }

    /// Same functionality as
    /// [`stop_interleaved_continuous_mode`](VL6180X::stop_interleaved_continuous_mode)
    /// but with a check on the current [`OperatingMode`](crate::OperatingMode).
    /// Valid when the mode is `InterleavedContinuous`, otherwise ends with
    /// [`InvalidMethod`](crate::Error::InvalidMethod).
    pub fn try_stop_interleaved_continuous_mode<E>(&self) -> (step: Step<E>)
        ensures
            step == try_first_step::<E>(
                self.spec_operating_mode(),
                self.settings(),
                Operation::StopInterleavedContinuous,
            ),
    {
        self.try_begin(Operation::StopInterleavedContinuous)
    }

    /// Same functionality as
    /// [`start_range_single`](VL6180X::start_range_single)
    /// but with a check on the current [`OperatingMode`](crate::OperatingMode).
    /// Valid when the mode is `Ready` or `AmbientContinuous`, otherwise ends
    /// with [`InvalidMethod`](crate::Error::InvalidMethod).
    pub fn try_start_range_single<E>(&self) -> (step: Step<E>)
        ensures
            step == try_first_step::<E>(
                self.spec_operating_mode(),
                self.settings(),
                Operation::StartSingle { channel: Channel::Range },
            ),
    {
        self.try_begin(Operation::StartSingle { channel: Channel::Range })
    }

    /// Same functionality as
    /// [`start_ambient_single`](VL6180X::start_ambient_single)
    /// but with a check on the current [`OperatingMode`](crate::OperatingMode).
    /// Valid when the mode is `Ready` or `RangeContinuous`, otherwise ends
    /// with [`InvalidMethod`](crate::Error::InvalidMethod).
    pub fn try_start_ambient_single<E>(&self) -> (step: Step<E>)
        ensures
            step == try_first_step::<E>(
                self.spec_operating_mode(),
                self.settings(),
                Operation::StartSingle { channel: Channel::Ambient },
            ),
    {
        self.try_begin(Operation::StartSingle { channel: Channel::Ambient })
    }

    /// Same functionality as
    /// [`read_range_mm_blocking`](VL6180X::read_range_mm_blocking)
    /// but with a check on the current [`OperatingMode`](crate::OperatingMode).
    /// Valid in all modes except `PoweredOff`, in which case it ends with
    /// [`InvalidMethod`](crate::Error::InvalidMethod).
    pub fn try_read_range_mm_blocking<E>(&self) -> (step: Step<E>)
        ensures
            step == try_first_step::<E>(
                self.spec_operating_mode(),
                self.settings(),
                Operation::Read { channel: Channel::Range, blocking: true },
            ),
    {
        self.try_begin(Operation::Read { channel: Channel::Range, blocking: true })
    }

    /// Same functionality as [`read_range_mm`](VL6180X::read_range_mm)
    /// but with a check on the current [`OperatingMode`](crate::OperatingMode).
    /// Valid in all modes except `PoweredOff`, in which case it ends with
    /// [`InvalidMethod`](crate::Error::InvalidMethod).
    pub fn try_read_range_mm<E>(&self) -> (step: Step<E>)
        ensures
            step == try_first_step::<E>(
                self.spec_operating_mode(),
                self.settings(),
                Operation::Read { channel: Channel::Range, blocking: false },
            ),
    {
        self.try_begin(Operation::Read { channel: Channel::Range, blocking: false })
    }

    /// Same functionality as
    /// [`read_ambient_blocking`](VL6180X::read_ambient_blocking)
    /// but with a check on the current [`OperatingMode`](crate::OperatingMode).
    /// Valid in all modes except `PoweredOff`, in which case it ends with
    /// [`InvalidMethod`](crate::Error::InvalidMethod).
    pub fn try_read_ambient_blocking<E>(&self) -> (step: Step<E>)
        ensures
            step == try_first_step::<E>(
                self.spec_operating_mode(),
                self.settings(),
                Operation::Read { channel: Channel::Ambient, blocking: true },
            ),
    {
        self.try_begin(Operation::Read { channel: Channel::Ambient, blocking: true })
    }

    /// Same functionality as [`read_ambient`](VL6180X::read_ambient)
    /// but with a check on the current [`OperatingMode`](crate::OperatingMode).
    /// Valid in all modes except `PoweredOff`, in which case it ends with
    /// [`InvalidMethod`](crate::Error::InvalidMethod).
    pub fn try_read_ambient<E>(&self) -> (step: Step<E>)
        ensures
            step == try_first_step::<E>(
                self.spec_operating_mode(),
                self.settings(),
                Operation::Read { channel: Channel::Ambient, blocking: false },
            ),
    {
        self.try_begin(Operation::Read { channel: Channel::Ambient, blocking: false })
    }

    /// Same functionality as
    /// [`clear_error_interrupt`](VL6180X::clear_error_interrupt)
    /// but with a check on the current [`OperatingMode`](crate::OperatingMode).
    /// Valid in all modes except `PoweredOff`, in which case it ends with
    /// [`InvalidMethod`](crate::Error::InvalidMethod).
    pub fn try_clear_error_interrupt<E>(&self) -> (step: Step<E>)
        ensures
            step == try_first_step::<E>(
                self.spec_operating_mode(),
                self.settings(),
                Operation::ClearInterrupt { interrupt: SysInterruptClearCode::Error },
            ),
    {
        self.try_begin(Operation::ClearInterrupt { interrupt: SysInterruptClearCode::Error })
    }

    /// Same functionality as
    /// [`clear_ambient_interrupt`](VL6180X::clear_ambient_interrupt)
    /// but with a check on the current [`OperatingMode`](crate::OperatingMode).
    /// Valid in all modes except `PoweredOff`, in which case it ends with
    /// [`InvalidMethod`](crate::Error::InvalidMethod).
    pub fn try_clear_ambient_interrupt<E>(&self) -> (step: Step<E>)
        ensures
            step == try_first_step::<E>(
                self.spec_operating_mode(),
                self.settings(),
                Operation::ClearInterrupt { interrupt: SysInterruptClearCode::Ambient },
            ),
    {
        self.try_begin(Operation::ClearInterrupt { interrupt: SysInterruptClearCode::Ambient })
    }

    /// Same functionality as
    /// [`clear_range_interrupt`](VL6180X::clear_range_interrupt)
    /// but with a check on the current [`OperatingMode`](crate::OperatingMode).
    /// Valid in all modes except `PoweredOff`, in which case it ends with
    /// [`InvalidMethod`](crate::Error::InvalidMethod).
    pub fn try_clear_range_interrupt<E>(&self) -> (step: Step<E>)
        ensures
            step == try_first_step::<E>(
                self.spec_operating_mode(),
                self.settings(),
                Operation::ClearInterrupt { interrupt: SysInterruptClearCode::Range },
            ),
    {
        self.try_begin(Operation::ClearInterrupt { interrupt: SysInterruptClearCode::Range })
    }

    /// Same functionality as
    /// [`clear_all_interrupts`](VL6180X::clear_all_interrupts)
    /// but with a check on the current [`OperatingMode`](crate::OperatingMode).
    /// Valid in all modes except `PoweredOff`, in which case it ends with
    /// [`InvalidMethod`](crate::Error::InvalidMethod).
    pub fn try_clear_all_interrupts<E>(&self) -> (step: Step<E>)
        ensures
            step == try_first_step::<E>(
                self.spec_operating_mode(),
                self.settings(),
                Operation::ClearAllInterrupts,
            ),
    {
        self.try_begin(Operation::ClearAllInterrupts)
    }

    /// Same functionality as
    /// [`change_i2c_address`](VL6180X::change_i2c_address)
    /// but with a check on the current [`OperatingMode`](crate::OperatingMode).
    /// Valid in all modes except `PoweredOff`, in which case it ends with
    /// [`InvalidMethod`](crate::Error::InvalidMethod).
    pub fn try_change_i2c_address<E>(&self, new_address: u8) -> (step: Step<E>)
        ensures
            step == try_first_step::<E>(
                self.spec_operating_mode(),
                self.settings(),
                Operation::ChangeAddress { new_address },
            ),
    {
        self.try_begin(Operation::ChangeAddress { new_address })
    }

    /// Same functionality as [`power_off`](VL6180X::power_off)
    /// but with a check on the current [`OperatingMode`](crate::OperatingMode).
    /// Valid in all modes except `PoweredOff`, in which case it ends with
    /// [`InvalidMethod`](crate::Error::InvalidMethod).
    pub fn try_power_off<E>(&self) -> (step: Step<E>)
        ensures
            step == try_first_step::<E>(
                self.spec_operating_mode(),
                self.settings(),
                Operation::PowerOff,
            ),
    {
        self.try_begin(Operation::PowerOff)
    }

    /// Same functionality as
    /// [`power_on_and_init`](VL6180X::power_on_and_init)
    /// but with a check on the current [`OperatingMode`](crate::OperatingMode).
    /// Valid when the mode is `PoweredOff`, otherwise ends with
    /// [`InvalidMethod`](crate::Error::InvalidMethod).
    pub fn try_power_on_and_init<E>(&self) -> (step: Step<E>)
        ensures
            step == try_first_step::<E>(
                self.spec_operating_mode(),
                self.settings(),
                Operation::PowerOnAndInit,
            ),
    {
        self.try_begin(Operation::PowerOnAndInit)
    }
}

} // verus!
