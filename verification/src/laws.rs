//! What holds of the driver as a whole, proved from the definitions that the
//! contracts of its functions speak of.

use crate::bus::{spec_byte_read, Access, Action, Reply};
use crate::config::Settings;
use crate::driver::{try_first_step, try_run};
use crate::error::Error;
use crate::mode::OperatingMode;
use crate::init::init_writes;
use crate::protocol::{
    actions, first_step, fresh_flag_read, init_step, interrupt_status_read, next_step,
    range_checks_read, run, spec_scaling_of_code, spec_transfer, spec_unscaled_ptp_offset,
    Channel, Cursor, Operation, Stage, Step,
};
use crate::bus::spec_word_read;
use crate::register::{Register16Bit, MODEL_ID};
use crate::register::Register8Bit;
use crate::status::{RangeStatusErrorCode, ResultInterruptStatusGpioCode};
use vstd::prelude::*;
use vstd::std_specs::convert::TryFromSpec;

verus! {

/// Decoding the range status register goes by its upper four bits alone. The
/// code 0b0110 decodes to the failed early convergence estimate whatever the
/// lower four bits hold. The codes 0b1001 and 0b1010, and no others, stand
/// for no outcome, and they are returned as unknown register codes. Whatever
/// is decoded has the upper four bits as its code.
pub proof fn law_range_status_decoding(register_value: u8)
    ensures
        register_value / 16 == 0b0110 ==> RangeStatusErrorCode::try_from_spec(register_value)
            == Ok::<RangeStatusErrorCode, Error<()>>(
            RangeStatusErrorCode::EarlyConvergenceEstimate,
        ),
        (register_value / 16 == 0b1001 || register_value / 16 == 0b1010)
            <==> RangeStatusErrorCode::try_from_spec(register_value) == Err::<
            RangeStatusErrorCode,
            Error<()>,
        >(Error::UnknownRegisterCode((register_value / 16) as u8)),
        forall|outcome: RangeStatusErrorCode|
            RangeStatusErrorCode::try_from_spec(register_value) == Ok::<
                RangeStatusErrorCode,
                Error<()>,
            >(outcome) ==> outcome.spec_bits() == register_value / 16,
{
}

/// A change of the bus address is refused, before anything is sent, exactly
/// when the new address is below 0x08 or above 0x77. Otherwise the new
/// address is written to the device at the address that it has, and once the
/// write has succeeded the configuration holds the new address and nothing
/// else has changed. If the write fails the configuration stays as it was.
pub proof fn law_address_change<E>(settings: Settings, new_address: u8, data: [u8; 2], error: E)
    requires
        settings.valid(),
    ensures
        (new_address < 0x08 || new_address > 0x77) <==> first_step::<E>(
            settings,
            Operation::ChangeAddress { new_address },
        ) == Step::<E>::Done(Err(Error::InvalidAddress(new_address))),
        0x08 <= new_address <= 0x77 ==> {
            let operation = Operation::ChangeAddress { new_address };
            let begun = first_step::<E>(settings, operation);
            &&& begun is Perform
            &&& begun->action == Action::Bus {
                address: settings.address,
                access: Access::WriteByte {
                    register: Register8Bit::I2C_SLAVE__DEVICE_ADDRESS.spec_address(),
                    value: new_address,
                },
            }
            &&& run(settings, begun, seq![Reply::<E>::Done(data)]) == (
                Settings { address: new_address, ..settings },
                Step::<E>::Done(Ok(0)),
            )
            &&& run(settings, begun, seq![Reply::<E>::Failed(error)]) == (
                settings,
                Step::<E>::Done(Err(Error::BusError(error))),
            )
        },
{
    reveal_with_fuel(run, 3);
    let operation = Operation::ChangeAddress { new_address };
    let begun = first_step::<E>(settings, operation);
    if 0x08 <= new_address <= 0x77 {
        let ok = seq![Reply::<E>::Done(data)];
        let failed = seq![Reply::<E>::Failed(error)];
        assert(ok.drop_first().len() == 0);
        assert(failed.drop_first().len() == 0);
        assert(ok[0] == Reply::<E>::Done(data));
        assert(failed[0] == Reply::<E>::Failed(error));
    }
}

/// Every step keeps the configuration within its bounds, whatever cursor and
/// reply the host hands in.
pub proof fn law_steps_keep_bounds<E>(settings: Settings, cursor: Cursor, reply: Reply<E>)
    requires
        settings.valid(),
    ensures
        next_step(settings, cursor, reply).0.valid(),
{
}

/// An operation that is not allowed in the mode of the sensor ends at once
/// with the mode as its error: nothing is sent to the sensor. An operation
/// that fails, and one that does not change the mode, leave the mode as it
/// was.
pub proof fn law_mode_is_kept<E>(
    mode: OperatingMode,
    settings: Settings,
    operation: Operation,
    replies: Seq<Reply<E>>,
)
    ensures
        !mode.spec_permits(operation) ==> try_run(mode, settings, operation, replies) == (
            mode,
            settings,
            Step::<E>::Done(Err(Error::InvalidMethod(mode))),
        ),
        !(try_run(mode, settings, operation, replies).2 matches Step::Done(Ok(_)))
            ==> try_run(mode, settings, operation, replies).0 == mode,
        operation.spec_arrival() is None ==> try_run(mode, settings, operation, replies).0 == mode,
{
    reveal_with_fuel(run, 2);
}

/// From a sensor that is ready, starting continuous range measurements,
/// reading a range and stopping the measurements works without an error and
/// ends with a sensor that is ready, as long as the bus works, a result is
/// there and its status is that of a valid measurement. The range read is the
/// raw count times the range scaling factor. While the measurements run, a
/// second start is refused with the mode as its error, and nothing is sent
/// that would stop them.
pub proof fn law_range_continuous_cycle<E>(
    settings: Settings,
    started: [u8; 2],
    interrupt_status: [u8; 2],
    range_status: [u8; 2],
    raw_range: [u8; 2],
    cleared: [u8; 2],
    stopped: [u8; 2],
)
    requires
        settings.valid(),
        !ResultInterruptStatusGpioCode::spec_has_status(
            ResultInterruptStatusGpioCode::NoRangeEvents,
            spec_byte_read(interrupt_status),
        ),
        spec_byte_read(range_status) / 16 == 0,
    ensures
        try_run(
            OperatingMode::Ready,
            settings,
            Operation::StartContinuous { channel: Channel::Range },
            seq![Reply::<E>::Done(started)],
        ) == (OperatingMode::RangeContinuous, settings, Step::<E>::Done(Ok(0))),
        try_first_step::<E>(
            OperatingMode::RangeContinuous,
            settings,
            Operation::StartContinuous { channel: Channel::Range },
        ) == Step::<E>::Done(Err(Error::InvalidMethod(OperatingMode::RangeContinuous))),
        try_run(
            OperatingMode::RangeContinuous,
            settings,
            Operation::Read { channel: Channel::Range, blocking: false },
            seq![
                Reply::<E>::Done(interrupt_status),
                Reply::<E>::Done(range_status),
                Reply::<E>::Done(raw_range),
                Reply::<E>::Done(cleared),
            ],
        ) == (
            OperatingMode::RangeContinuous,
            settings,
            Step::<E>::Done(Ok((settings.range_scaling * spec_byte_read(raw_range)) as u16)),
        ),
        try_run(
            OperatingMode::RangeContinuous,
            settings,
            Operation::StopContinuous { channel: Channel::Range },
            seq![Reply::<E>::Done(stopped)],
        ) == (OperatingMode::Ready, settings, Step::<E>::Done(Ok(0))),
{
    reveal_with_fuel(run, 6);
    let one = seq![Reply::<E>::Done(started)];
    assert(one.drop_first().len() == 0);
    assert(one[0] == Reply::<E>::Done(started));
    let last = seq![Reply::<E>::Done(stopped)];
    assert(last.drop_first().len() == 0);
    assert(last[0] == Reply::<E>::Done(stopped));
    let read = seq![
        Reply::<E>::Done(interrupt_status),
        Reply::<E>::Done(range_status),
        Reply::<E>::Done(raw_range),
        Reply::<E>::Done(cleared),
    ];
    let read1 = read.drop_first();
    let read2 = read1.drop_first();
    let read3 = read2.drop_first();
    assert(read[0] == Reply::<E>::Done(interrupt_status));
    assert(read1[0] == Reply::<E>::Done(range_status));
    assert(read2[0] == Reply::<E>::Done(raw_range));
    assert(read3[0] == Reply::<E>::Done(cleared));
    assert(read3.drop_first().len() == 0);
}

/// The range scaler code of a configuration is the table entry of its range
/// scaling factor, and stands for that factor again. At a range scaling of 2
/// the code is 127, and a raw range count stands for twice as many mm.
pub proof fn law_range_scaling(settings: Settings, raw_range: u8)
    requires
        settings.valid(),
    ensures
        spec_scaling_of_code(settings.range_scaler_code()) == settings.range_scaling,
        settings.range_mm(raw_range) == settings.range_scaling * raw_range,
        settings.range_mm(raw_range) <= 765,
        settings.range_scaling == 2 ==> settings.range_scaler_code() == 127 && settings.range_mm(
            raw_range,
        ) == 2 * raw_range,
{
    assert(settings.range_scaling * raw_range <= 765) by (nonlinear_arith)
        requires
            settings.range_scaling <= 3,
            raw_range <= 255,
    ;
}

/// Whether `reply` is the reply to a read of the interrupt status that
/// succeeded and shows no result of `channel`.
pub open spec fn quiet<E>(channel: Channel, reply: Reply<E>) -> bool {
    reply matches Reply::Done(data) && ResultInterruptStatusGpioCode::spec_has_status(
        channel.spec_no_events(),
        spec_byte_read(data),
    )
}

/// The number of polls after which a blocking read gives up: the timeout of
/// the configuration, and one poll if the timeout is 0.
pub open spec fn poll_limit(settings: Settings) -> int {
    if settings.io_timeout == 0 {
        1
    } else {
        settings.io_timeout as int
    }
}

/// The accesses `accesses` as actions on the bus, at the address of
/// `settings`.
pub open spec fn bus_actions(settings: Settings, accesses: Seq<Access>) -> Seq<Action> {
    Seq::new(
        accesses.len(),
        |i: int| Action::Bus { address: settings.address, access: accesses[i] },
    )
}

/// A read of a result that does not block takes at most four actions. It
/// reads the interrupt status and fails as not ready if that shows no result
/// of the channel. Else it reads the status of the channel and fails with the
/// error that the status stands for, if it stands for one. Else it reads the
/// result, clears the interrupt of the channel, and ends with the reading.
/// The configuration stays as it was.
pub proof fn law_read<E>(
    settings: Settings,
    channel: Channel,
    interrupt_status: [u8; 2],
    status: [u8; 2],
    value: [u8; 2],
    cleared: [u8; 2],
)
    requires
        settings.valid(),
    ensures
        ({
            let begun = first_step::<E>(settings, Operation::Read { channel, blocking: false });
            let replies = seq![
                Reply::<E>::Done(interrupt_status),
                Reply::<E>::Done(status),
                Reply::<E>::Done(value),
                Reply::<E>::Done(cleared),
            ];
            let read_interrupt_status = Action::Bus {
                address: settings.address,
                access: interrupt_status_read(),
            };
            let read_status = Action::Bus {
                address: settings.address,
                access: channel.spec_status_read(),
            };
            let read_value = Action::Bus {
                address: settings.address,
                access: channel.spec_value_read(),
            };
            let clear = Action::Bus {
                address: settings.address,
                access: channel.spec_interrupt_clear(),
            };
            if quiet(channel, Reply::<E>::Done(interrupt_status)) {
                &&& run(settings, begun, replies) == (
                    settings,
                    Step::<E>::Done(Err(Error::ResultNotReady)),
                )
                &&& actions(settings, begun, replies) == seq![read_interrupt_status]
            } else {
                match channel.status_error::<E>(spec_byte_read(status)) {
                    Some(error) => {
                        &&& run(settings, begun, replies) == (settings, Step::<E>::Done(Err(error)))
                        &&& actions(settings, begun, replies) == seq![
                            read_interrupt_status,
                            read_status,
                        ]
                    },
                    None => {
                        &&& run(settings, begun, replies) == (
                            settings,
                            Step::<E>::Done(Ok(channel.reading(settings, value))),
                        )
                        &&& actions(settings, begun, replies) == seq![
                            read_interrupt_status,
                            read_status,
                            read_value,
                            clear,
                        ]
                    },
                }
            }
        }),
{
    reveal_with_fuel(run, 6);
    reveal_with_fuel(actions, 6);
    let begun = first_step::<E>(settings, Operation::Read { channel, blocking: false });
    let replies = seq![
        Reply::<E>::Done(interrupt_status),
        Reply::<E>::Done(status),
        Reply::<E>::Done(value),
        Reply::<E>::Done(cleared),
    ];
    let replies1 = replies.drop_first();
    let replies2 = replies1.drop_first();
    let replies3 = replies2.drop_first();
    assert(replies[0] == Reply::<E>::Done(interrupt_status));
    assert(replies1[0] == Reply::<E>::Done(status));
    assert(replies2[0] == Reply::<E>::Done(value));
    assert(replies3[0] == Reply::<E>::Done(cleared));
    assert(replies3.drop_first().len() == 0);
    let got = actions(settings, begun, replies);
    let read_interrupt_status = Action::Bus {
        address: settings.address,
        access: interrupt_status_read(),
    };
    let read_status = Action::Bus { address: settings.address, access: channel.spec_status_read() };
    let read_value = Action::Bus { address: settings.address, access: channel.spec_value_read() };
    let clear = Action::Bus { address: settings.address, access: channel.spec_interrupt_clear() };
    if quiet(channel, Reply::<E>::Done(interrupt_status)) {
        assert(got =~= seq![read_interrupt_status]);
    } else {
        match channel.status_error::<E>(spec_byte_read(status)) {
            Some(error) => {
                assert(got =~= seq![read_interrupt_status, read_status]);
            },
            None => {
                assert(got =~= seq![read_interrupt_status, read_status, read_value, clear]);
            },
        }
    }
}

/// A blocking read that is at `polls` polls without a result and gets only
/// replies without a result times out when the limit of polls is reached.
proof fn lemma_poll_times_out<E>(
    settings: Settings,
    operation: Operation,
    channel: Channel,
    polls: u16,
    replies: Seq<Reply<E>>,
)
    requires
        polls < poll_limit(settings),
        replies.len() >= poll_limit(settings) - polls,
        forall|i: int| 0 <= i < replies.len() ==> quiet(channel, #[trigger] replies[i]),
    ensures
        run(
            settings,
            spec_transfer::<E>(
                settings,
                operation,
                Stage::Event { channel, blocking: true, polls },
                interrupt_status_read(),
            ),
            replies,
        ) == (settings, Step::<E>::Done(Err(Error::Timeout))),
        actions(
            settings,
            spec_transfer::<E>(
                settings,
                operation,
                Stage::Event { channel, blocking: true, polls },
                interrupt_status_read(),
            ),
            replies,
        ) =~= Seq::new(
            (poll_limit(settings) - polls) as nat,
            |i: int| Action::Bus { address: settings.address, access: interrupt_status_read() },
        ),
    decreases poll_limit(settings) - polls,
{
    reveal_with_fuel(run, 3);
    reveal_with_fuel(actions, 3);
    let rest = replies.drop_first();
    assert(quiet(channel, replies[0]));
    if polls + 1 >= settings.io_timeout {
        assert(poll_limit(settings) - polls == 1);
    } else {
        assert forall|i: int| 0 <= i < rest.len() implies quiet(channel, #[trigger] rest[i]) by {
            assert(rest[i] == replies[i + 1]);
        }
        lemma_poll_times_out::<E>(settings, operation, channel, (polls + 1) as u16, rest);
    }
}

/// A blocking read whose polls of the interrupt status all succeed and show
/// no result of the channel fails with a timeout. It has then read the
/// interrupt status as many times as the timeout of the configuration says
/// (once if the timeout is 0) and has sent nothing else.
pub proof fn law_blocking_read_times_out<E>(
    settings: Settings,
    channel: Channel,
    replies: Seq<Reply<E>>,
)
    requires
        settings.valid(),
        replies.len() >= poll_limit(settings),
        forall|i: int| 0 <= i < replies.len() ==> quiet(channel, #[trigger] replies[i]),
    ensures
        run(
            settings,
            first_step::<E>(settings, Operation::Read { channel, blocking: true }),
            replies,
        ) == (settings, Step::<E>::Done(Err(Error::Timeout))),
        actions(
            settings,
            first_step::<E>(settings, Operation::Read { channel, blocking: true }),
            replies,
        ) == Seq::new(
            poll_limit(settings) as nat,
            |i: int| Action::Bus { address: settings.address, access: interrupt_status_read() },
        ),
{
    lemma_poll_times_out::<E>(
        settings,
        Operation::Read { channel, blocking: true },
        channel,
        0,
        replies,
    );
}

/// The writes of the initialisation are 19 for a device that is configured
/// already and 50 for one that is fresh out of reset.
pub proof fn lemma_init_writes_len(settings: Settings, fresh: bool)
    ensures
        init_writes(settings, fresh).len() == if fresh {
            50int
        } else {
            19int
        },
{
}

/// The step that follows the write at `index` of the initialisation, once
/// the write has succeeded, is that of the write at `index + 1`.
proof fn lemma_init_write_done<E>(
    settings: Settings,
    operation: Operation,
    fresh: bool,
    index: int,
    reply: Reply<E>,
)
    requires
        0 <= index < init_writes(settings, fresh).len(),
        (reply is Done),
    ensures
        (init_step::<E>(settings, operation, fresh, index) is Perform),
        init_step::<E>(settings, operation, fresh, index)->action == (Action::Bus {
            address: settings.address,
            access: init_writes(settings, fresh)[index],
        }),
        next_step(settings, init_step::<E>(settings, operation, fresh, index)->cursor, reply) == (
            settings,
            init_step::<E>(settings, operation, fresh, index + 1),
        ),
{
    lemma_init_writes_len(settings, fresh);
}

/// After the last write of the initialisation the range check enables are
/// read and written back, and the operation is done.
proof fn lemma_init_writes_end<E>(
    settings: Settings,
    operation: Operation,
    fresh: bool,
    replies: Seq<Reply<E>>,
)
    requires
        replies.len() == 2,
        (replies[0] is Done),
        (replies[1] is Done),
    ensures
        ({
            let step = init_step::<E>(
                settings,
                operation,
                fresh,
                init_writes(settings, fresh).len() as int,
            );
            &&& run(settings, step, replies) == (settings, Step::<E>::Done(Ok(0)))
            &&& actions(settings, step, replies) =~= bus_actions(
                settings,
                seq![
                    range_checks_read(),
                    Access::WriteByte {
                        register: Register8Bit::SYSRANGE__RANGE_CHECK_ENABLES.spec_address(),
                        value: settings.range_check_enables(spec_byte_read(replies[0]->Done_0)),
                    },
                ],
            )
        }),
{
    reveal_with_fuel(run, 4);
    reveal_with_fuel(actions, 4);
    let rest = replies.drop_first();
    assert(rest[0] == replies[1]);
    assert(rest.drop_first().len() == 0);
}

/// From the write at `index` on, the initialisation sends the writes that
/// are left and then reads the range check enables and writes them back.
proof fn lemma_init_writes_run<E>(
    settings: Settings,
    operation: Operation,
    fresh: bool,
    index: int,
    replies: Seq<Reply<E>>,
)
    requires
        0 <= index <= init_writes(settings, fresh).len(),
        replies.len() == init_writes(settings, fresh).len() - index + 2,
        forall|i: int| 0 <= i < replies.len() ==> #[trigger] replies[i] is Done,
    ensures
        run(settings, init_step::<E>(settings, operation, fresh, index), replies) == (
            settings,
            Step::<E>::Done(Ok(0)),
        ),
        actions(settings, init_step::<E>(settings, operation, fresh, index), replies)
            =~= bus_actions(
            settings,
            init_writes(settings, fresh).subrange(index, init_writes(settings, fresh).len() as int)
                + seq![
                range_checks_read(),
                Access::WriteByte {
                    register: Register8Bit::SYSRANGE__RANGE_CHECK_ENABLES.spec_address(),
                    value: settings.range_check_enables(
                        spec_byte_read(replies[replies.len() - 2]->Done_0),
                    ),
                },
            ],
        ),
    decreases init_writes(settings, fresh).len() - index,
{
    let writes = init_writes(settings, fresh);
    let step = init_step::<E>(settings, operation, fresh, index);
    let tail = seq![
        range_checks_read(),
        Access::WriteByte {
            register: Register8Bit::SYSRANGE__RANGE_CHECK_ENABLES.spec_address(),
            value: settings.range_check_enables(spec_byte_read(replies[replies.len() - 2]->Done_0)),
        },
    ];
    assert(replies[0] is Done);
    assert(replies[1] is Done);
    if index == writes.len() {
        lemma_init_writes_end::<E>(settings, operation, fresh, replies);
        assert(writes.subrange(index, writes.len() as int) + tail =~= tail);
    } else {
        let rest = replies.drop_first();
        assert forall|i: int| 0 <= i < rest.len() implies #[trigger] rest[i] is Done by {
            assert(rest[i] == replies[i + 1]);
        }
        assert(rest[rest.len() - 2] == replies[replies.len() - 2]);
        lemma_init_write_done::<E>(settings, operation, fresh, index, replies[0]);
        lemma_init_writes_run::<E>(settings, operation, fresh, index + 1, rest);
        let next = init_step::<E>(settings, operation, fresh, index + 1);
        assert(run(settings, step, replies) == run(settings, next, rest)) by {
            reveal_with_fuel(run, 2);
        }
        assert(actions(settings, step, replies) == seq![step->action] + actions(
            settings,
            next,
            rest,
        )) by {
            reveal_with_fuel(actions, 2);
        }
        let left = writes.subrange(index + 1, writes.len() as int) + tail;
        let all = writes.subrange(index, writes.len() as int) + tail;
        assert(all.len() == left.len() + 1);
        assert(all[0] == writes[index]);
        assert forall|i: int| 0 <= i < left.len() implies left[i] == all[i + 1] by {
            if i < writes.len() - index - 1 {
                assert(left[i] == writes[index + 1 + i]);
                assert(all[i + 1] == writes[index + 1 + i]);
            } else {
                assert(left[i] == tail[i - (writes.len() - index - 1)]);
                assert(all[i + 1] == tail[i + 1 - (writes.len() - index)]);
            }
        }
        assert(seq![step->action] + bus_actions(settings, left) =~= bus_actions(settings, all));
    }
}

/// The read of the part-to-part range offset, with which the initialisation
/// of the hardware begins.
pub open spec fn ptp_offset_read() -> Access {
    Access::ReadByte { register: Register8Bit::SYSRANGE__PART_TO_PART_RANGE_OFFSET.spec_address() }
}

/// The step with which the initialisation of the hardware begins, as a part
/// of `operation`.
pub open spec fn hardware_initialisation<E>(settings: Settings, operation: Operation) -> Step<E> {
    spec_transfer(settings, operation, Stage::PtpOffset, ptp_offset_read())
}

/// The write that ends the initialisation: the range check enables as they
/// were read, with the early convergence estimate switched as the range
/// scaling asks.
pub open spec fn range_checks_write(settings: Settings, current: [u8; 2]) -> Access {
    Access::WriteByte {
        register: Register8Bit::SYSRANGE__RANGE_CHECK_ENABLES.spec_address(),
        value: settings.range_check_enables(spec_byte_read(current)),
    }
}

/// Creating a driver begins with a read of the model id. If the model id is
/// that of the sensor the initialisation of the hardware follows. If the bus
/// fails, that is the error. Every other model id ends the operation with
/// the id as its error, and nothing is written to the device.
pub proof fn law_identification<E>(settings: Settings, data: [u8; 2], error: E)
    requires
        settings.valid(),
    ensures
        ({
            let operation = Operation::Initialise;
            let begun = first_step::<E>(settings, operation);
            &&& begun is Perform
            &&& begun->action == Action::Bus {
                address: settings.address,
                access: Access::ReadByte {
                    register: Register8Bit::IDENTIFICATION__MODEL_ID.spec_address(),
                },
            }
            &&& next_step(settings, begun->cursor, Reply::<E>::Done(data)) == (
                settings,
                if spec_byte_read(data) == MODEL_ID {
                    hardware_initialisation::<E>(settings, operation)
                } else {
                    Step::<E>::Done(Err(Error::InvalidDevice(spec_byte_read(data))))
                },
            )
            &&& next_step(settings, begun->cursor, Reply::<E>::Failed(error)) == (
                settings,
                Step::<E>::Done(Err(Error::BusError(error))),
            )
        }),
{
}

/// Whether `reply` is a reply to a read of the fresh-out-of-reset flag that
/// does not show a device that has booted: the read failed, or the flag does
/// not read 1.
pub open spec fn not_booted<E>(reply: Reply<E>) -> bool {
    match reply {
        Reply::Done(data) => spec_byte_read(data) != 1,
        Reply::Failed(_) => true,
    }
}

/// While the replies do not show a device that has booted, the wait for the
/// boot goes on with one more read of the flag for each reply.
proof fn lemma_boot_wait<E>(settings: Settings, operation: Operation, waiting: Seq<Reply<E>>)
    requires
        forall|i: int| 0 <= i < waiting.len() ==> not_booted(#[trigger] waiting[i]),
    ensures
        run(
            settings,
            spec_transfer::<E>(settings, operation, Stage::Boot, fresh_flag_read()),
            waiting,
        ) == (settings, spec_transfer::<E>(settings, operation, Stage::Boot, fresh_flag_read())),
        actions(
            settings,
            spec_transfer::<E>(settings, operation, Stage::Boot, fresh_flag_read()),
            waiting,
        ) =~= Seq::new(
            waiting.len() + 1,
            |i: int| Action::Bus { address: settings.address, access: fresh_flag_read() },
        ),
    decreases waiting.len(),
{
    reveal_with_fuel(run, 2);
    reveal_with_fuel(actions, 2);
    if waiting.len() > 0 {
        let rest = waiting.drop_first();
        assert(not_booted(waiting[0]));
        assert forall|i: int| 0 <= i < rest.len() implies not_booted(#[trigger] rest[i]) by {
            assert(rest[i] == waiting[i + 1]);
        }
        lemma_boot_wait::<E>(settings, operation, rest);
    }
}

/// Powering on drives the shutdown pin high. A failure of the pin ends the
/// operation with that error. Else the driver reads the fresh-out-of-reset
/// flag again and again, whatever the bus reports, until it reads 1. It sends
/// nothing else while it waits. Then the initialisation of the hardware
/// begins.
pub proof fn law_power_on_waits_for_the_boot<E>(
    settings: Settings,
    pin: [u8; 2],
    waiting: Seq<Reply<E>>,
    booted: [u8; 2],
    error: E,
)
    requires
        settings.valid(),
        forall|i: int| 0 <= i < waiting.len() ==> not_booted(#[trigger] waiting[i]),
        spec_byte_read(booted) == 1,
    ensures
        ({
            let operation = Operation::PowerOnAndInit;
            let begun = first_step::<E>(settings, operation);
            let flag_reads = Seq::new(
                waiting.len() + 1,
                |i: int| Action::Bus { address: settings.address, access: fresh_flag_read() },
            );
            &&& begun is Perform
            &&& begun->action == Action::ShutdownPin { high: true }
            &&& next_step(settings, begun->cursor, Reply::<E>::Failed(error)) == (
                settings,
                Step::<E>::Done(Err(Error::GpioPinError(error))),
            )
            &&& run(settings, begun, seq![Reply::<E>::Done(pin)] + waiting) == (
                settings,
                spec_transfer::<E>(settings, operation, Stage::Boot, fresh_flag_read()),
            )
            &&& actions(settings, begun, seq![Reply::<E>::Done(pin)] + waiting) == seq![
                Action::ShutdownPin { high: true },
            ] + flag_reads
            &&& next_step(
                settings,
                Cursor { operation, stage: Stage::Boot },
                Reply::<E>::Done(booted),
            ) == (settings, hardware_initialisation::<E>(settings, operation))
        }),
{
    reveal_with_fuel(run, 2);
    reveal_with_fuel(actions, 2);
    let operation = Operation::PowerOnAndInit;
    let begun = first_step::<E>(settings, operation);
    let replies = seq![Reply::<E>::Done(pin)] + waiting;
    assert(replies[0] == Reply::<E>::Done(pin));
    assert(replies.drop_first() =~= waiting);
    lemma_boot_wait::<E>(settings, operation, waiting);
    let flag_reads = Seq::new(
        waiting.len() + 1,
        |i: int| Action::Bus { address: settings.address, access: fresh_flag_read() },
    );
    assert(actions(settings, begun, replies) =~= seq![Action::ShutdownPin { high: true }]
        + flag_reads);
}

/// Initialising the hardware of a device that is fresh out of reset, over a
/// bus that works.
///
/// The driver reads the part-to-part range offset and the fresh-out-of-reset
/// flag. It records the offset, sends all the writes of [`init_writes`] for a
/// fresh device and for the configuration with that offset, reads the range
/// check enables and writes them back with the early convergence estimate
/// switched as the range scaling asks. It sends nothing else, ends without an
/// error, and has changed nothing of the configuration but the offset.
pub proof fn law_initialisation_of_a_fresh_device<E>(
    settings: Settings,
    operation: Operation,
    replies: Seq<Reply<E>>,
)
    requires
        settings.valid(),
        replies.len() == 2 + init_writes(settings, true).len() + 2,
        forall|i: int| 0 <= i < replies.len() ==> #[trigger] replies[i] is Done,
        spec_byte_read(replies[1]->Done_0) == 1,
    ensures
        ({
            let recorded = Settings { ptp_offset: spec_byte_read(replies[0]->Done_0), ..settings };
            let begun = hardware_initialisation::<E>(settings, operation);
            &&& recorded.valid()
            &&& run(settings, begun, replies) == (recorded, Step::<E>::Done(Ok(0)))
            &&& actions(settings, begun, replies) == bus_actions(
                settings,
                seq![ptp_offset_read(), fresh_flag_read()] + init_writes(recorded, true) + seq![
                    range_checks_read(),
                    range_checks_write(settings, replies[replies.len() - 2]->Done_0),
                ],
            )
        }),
{
    reveal_with_fuel(run, 3);
    reveal_with_fuel(actions, 3);
    let recorded = Settings { ptp_offset: spec_byte_read(replies[0]->Done_0), ..settings };
    let begun = hardware_initialisation::<E>(settings, operation);
    let replies1 = replies.drop_first();
    let replies2 = replies1.drop_first();
    assert(replies[0] is Done && replies[1] is Done);
    assert(replies1[0] == replies[1]);
    lemma_init_writes_len(settings, true);
    lemma_init_writes_len(recorded, true);
    assert forall|i: int| 0 <= i < replies2.len() implies #[trigger] replies2[i] is Done by {
        assert(replies2[i] == replies[i + 2]);
    }
    assert(replies2[replies2.len() - 2] == replies[replies.len() - 2]);
    lemma_init_writes_run::<E>(recorded, operation, true, 0, replies2);
    let writes = init_writes(recorded, true);
    assert(writes.subrange(0, writes.len() as int) =~= writes);
    let head = seq![ptp_offset_read(), fresh_flag_read()];
    let tail = seq![
        range_checks_read(),
        range_checks_write(settings, replies[replies.len() - 2]->Done_0),
    ];
    assert(actions(settings, begun, replies) =~= bus_actions(settings, head + writes + tail));
}

/// Initialising the hardware of a device that is not fresh out of reset,
/// over a bus that works.
///
/// The driver reads the part-to-part range offset, the fresh-out-of-reset
/// flag and the range scaler. It records the offset for a range scaling of 1:
/// the offset that the device holds times the range scaling that the range
/// scaler stands for. It then sends the writes of the configuration with that
/// offset, without those for a fresh device, reads the range check enables
/// and writes them back. It sends nothing else, ends without an error, and
/// has changed nothing of the configuration but the offset.
pub proof fn law_initialisation_of_a_configured_device<E>(
    settings: Settings,
    operation: Operation,
    replies: Seq<Reply<E>>,
)
    requires
        settings.valid(),
        replies.len() == 3 + init_writes(settings, false).len() + 2,
        forall|i: int| 0 <= i < replies.len() ==> #[trigger] replies[i] is Done,
        spec_byte_read(replies[1]->Done_0) != 1,
    ensures
        ({
            let recorded = Settings {
                ptp_offset: spec_unscaled_ptp_offset(
                    spec_byte_read(replies[0]->Done_0),
                    spec_scaling_of_code(spec_word_read(replies[2]->Done_0)),
                ),
                ..settings
            };
            let begun = hardware_initialisation::<E>(settings, operation);
            &&& recorded.valid()
            &&& run(settings, begun, replies) == (recorded, Step::<E>::Done(Ok(0)))
            &&& actions(settings, begun, replies) == bus_actions(
                settings,
                seq![
                    ptp_offset_read(),
                    fresh_flag_read(),
                    Access::ReadWord { register: Register16Bit::RANGE_SCALER.spec_address() },
                ] + init_writes(recorded, false) + seq![
                    range_checks_read(),
                    range_checks_write(settings, replies[replies.len() - 2]->Done_0),
                ],
            )
        }),
{
    reveal_with_fuel(run, 4);
    reveal_with_fuel(actions, 4);
    let recorded = Settings {
        ptp_offset: spec_unscaled_ptp_offset(
            spec_byte_read(replies[0]->Done_0),
            spec_scaling_of_code(spec_word_read(replies[2]->Done_0)),
        ),
        ..settings
    };
    let begun = hardware_initialisation::<E>(settings, operation);
    let replies1 = replies.drop_first();
    let replies2 = replies1.drop_first();
    let replies3 = replies2.drop_first();
    assert(replies[0] is Done && replies[1] is Done && replies[2] is Done);
    assert(replies1[0] == replies[1]);
    assert(replies2[0] == replies[2]);
    lemma_init_writes_len(settings, false);
    lemma_init_writes_len(recorded, false);
    assert forall|i: int| 0 <= i < replies3.len() implies #[trigger] replies3[i] is Done by {
        assert(replies3[i] == replies[i + 3]);
    }
    assert(replies3[replies3.len() - 2] == replies[replies.len() - 2]);
    lemma_init_writes_run::<E>(recorded, operation, false, 0, replies3);
    let writes = init_writes(recorded, false);
    assert(writes.subrange(0, writes.len() as int) =~= writes);
    let head = seq![
        ptp_offset_read(),
        fresh_flag_read(),
        Access::ReadWord { register: Register16Bit::RANGE_SCALER.spec_address() },
    ];
    let tail = seq![
        range_checks_read(),
        range_checks_write(settings, replies[replies.len() - 2]->Done_0),
    ];
    assert(actions(settings, begun, replies) =~= bus_actions(settings, head + writes + tail));
}

/// A bus that fails ends the initialisation at once with that error, at
/// whatever write it is.
pub proof fn law_initialisation_stops_at_a_bus_error<E>(
    settings: Settings,
    operation: Operation,
    fresh: bool,
    index: int,
    error: E,
)
    requires
        0 <= index < init_writes(settings, fresh).len(),
    ensures
        (init_step::<E>(settings, operation, fresh, index) is Perform),
        next_step(
            settings,
            init_step::<E>(settings, operation, fresh, index)->cursor,
            Reply::<E>::Failed(error),
        ) == (settings, Step::<E>::Done(Err(Error::BusError(error)))),
{
}

/// Interleaved mode is started with two writes: the one that enables it, and
/// the one that starts the continuous ambient light measurements. It is
/// refused, before anything is sent, exactly when the timing of the
/// configuration leaves no room for both measurements, and the error then
/// holds the ambient inter-measurement period.
pub proof fn law_interleaved_start<E>(settings: Settings, enabled: [u8; 2], started: [u8; 2])
    requires
        settings.valid(),
    ensures
        ({
            let begun = first_step::<E>(settings, Operation::StartInterleavedContinuous);
            let replies = seq![Reply::<E>::Done(enabled), Reply::<E>::Done(started)];
            if (settings.range_max_convergence_time + 5) * 10 + settings.ambient_integration_period
                * 11 > settings.ambient_inter_measurement_period * 9 {
                begun == Step::<E>::Done(
                    Err(Error::InvalidConfigurationValue(settings.ambient_inter_measurement_period)),
                )
            } else {
                &&& run(settings, begun, replies) == (settings, Step::<E>::Done(Ok(0)))
                &&& actions(settings, begun, replies) == bus_actions(
                    settings,
                    seq![
                        Access::WriteByte {
                            register: Register8Bit::INTERLEAVED_MODE__ENABLE.spec_address(),
                            value: 1,
                        },
                        Access::WriteByte {
                            register: Register8Bit::SYSALS__START.spec_address(),
                            value: 3,
                        },
                    ],
                )
            }
        }),
{
    reveal_with_fuel(run, 4);
    reveal_with_fuel(actions, 4);
    let begun = first_step::<E>(settings, Operation::StartInterleavedContinuous);
    let replies = seq![Reply::<E>::Done(enabled), Reply::<E>::Done(started)];
    let rest = replies.drop_first();
    assert(replies[0] == Reply::<E>::Done(enabled));
    assert(rest[0] == Reply::<E>::Done(started));
    assert(rest.drop_first().len() == 0);
    if settings.interleaved_timing_ok() {
        assert(actions(settings, begun, replies) =~= bus_actions(
            settings,
            seq![
                Access::WriteByte {
                    register: Register8Bit::INTERLEAVED_MODE__ENABLE.spec_address(),
                    value: 1,
                },
                Access::WriteByte { register: Register8Bit::SYSALS__START.spec_address(), value: 3 },
            ],
        ));
    }
}

/// Polling for a single measurement is starting a single measurement and
/// then reading it, blocking: it begins with the write that starts a single
/// measurement, and once that has succeeded it goes on as a blocking read
/// does from its beginning.
pub proof fn law_poll_is_start_then_blocking_read<E>(
    settings: Settings,
    channel: Channel,
    started: [u8; 2],
)
    requires
        settings.valid(),
    ensures
        ({
            let poll = first_step::<E>(settings, Operation::PollSingleBlocking { channel });
            let start = first_step::<E>(settings, Operation::StartSingle { channel });
            let read = first_step::<E>(settings, Operation::Read { channel, blocking: true });
            let next = next_step(settings, poll->cursor, Reply::<E>::Done(started));
            &&& poll is Perform && start is Perform && read is Perform
            &&& poll->action == start->action
            &&& next.0 == settings
            &&& next.1 is Perform
            &&& next.1->action == read->action
            &&& next.1->cursor.stage == read->cursor.stage
        }),
{
}

} // verus!
