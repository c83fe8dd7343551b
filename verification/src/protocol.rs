//! What the driver's sequences put on the wire, byte for byte, and how the
//! sequences relate to one another.

use crate::command::DeepSleepMode;
use crate::driver::{
    display_frame_ops, init_ops, initial_settings, power_down_steps, set_refresh_ops, sleep_ops,
    update_frame_ops, Settings,
};
use crate::geometry::frame_len;
use crate::interface::{poll_delay_or_default, Op};
use crate::waveform::{spec_waveform_table, RefreshLut, LUT_PARTIAL_UPDATE};
use vstd::prelude::*;

verus! {

/// An opcode on the wire: the select line low, then the opcode.
pub open spec fn opcode_frame(opcode: u8) -> Seq<Op> {
    seq![Op::SelectCommand, Op::Write(seq![opcode])]
}

/// An opcode and its payload on the wire: the select line low, the opcode,
/// the select line high, the payload.
pub open spec fn payload_frame(opcode: u8, payload: Seq<u8>) -> Seq<Op> {
    seq![Op::SelectCommand, Op::Write(seq![opcode]), Op::SelectData, Op::Write(payload)]
}

/// A wait for a busy line that reads high when the controller is idle.
pub open spec fn idle_wait(poll_delay_us: u32) -> Seq<Op> {
    seq![Op::WaitIdle { idle_high: true, poll_delay_us }]
}

/// An initialization on the wire.
pub open spec fn init_wire(poll_delay_us: u32) -> Seq<Op> {
    seq![Op::ResetLow, Op::Delay(10_000), Op::ResetHigh, Op::Delay(10_000)]
        + idle_wait(poll_delay_us)
        + opcode_frame(0x12)
        + idle_wait(poll_delay_us)
        + payload_frame(0x01, seq![0xF9, 0x00, 0x00])
        + payload_frame(0x11, seq![0x02])
        + payload_frame(0x44, seq![0x00, 0x0F])
        + payload_frame(0x45, seq![0x00, 0x00, 0xF9, 0x00])
        + payload_frame(0x3C, seq![0x03])
        + payload_frame(0x21, seq![0x00, 0x80])
        + payload_frame(0x1B, seq![0x80])
        + idle_wait(poll_delay_us)
        + payload_frame(0x4E, seq![0x00])
        + payload_frame(0x4F, seq![0x00])
        + idle_wait(poll_delay_us)
}

/// An initialization is a reset pulse, a software reset, then the
/// driver-output settings, the data entry mode, the RAM window by columns and
/// by rows, the border settings, the settings of the update path and of the
/// temperature sensor, and the two RAM address counters; the controller is
/// waited for after the reset pulse, after the software reset, before the
/// counters and at the end.
pub proof fn lemma_init_on_the_wire(poll_delay_us: u32)
    ensures
        init_ops(poll_delay_us) == init_wire(poll_delay_us),
{
    assert(init_ops(poll_delay_us) =~= init_wire(poll_delay_us));
}

/// The full RAM window and the counters at its origin, on the wire.
pub open spec fn full_window_wire(poll_delay_us: u32) -> Seq<Op> {
    payload_frame(0x44, seq![0x00, 0x0F])
        + payload_frame(0x45, seq![0x00, 0x00, 0xF9, 0x00])
        + idle_wait(poll_delay_us)
        + payload_frame(0x4E, seq![0x00])
        + payload_frame(0x4F, seq![0x00])
}

/// A refresh on the wire: the five steps clock on, analog on, display,
/// analog off, clock off; the activation; the wait for the controller.
pub open spec fn display_wire(poll_delay_us: u32) -> Seq<Op> {
    payload_frame(0x22, seq![0xC7]) + opcode_frame(0x20) + idle_wait(poll_delay_us)
}

/// Going to sleep on the wire: the wait for the controller; the four steps
/// analog on, clock on, analog off, clock off; the activation; the sleep
/// depth.
pub open spec fn sleep_wire(poll_delay_us: u32, depth: u8) -> Seq<Op> {
    idle_wait(poll_delay_us)
        + payload_frame(0x22, seq![0xC3])
        + opcode_frame(0x20)
        + payload_frame(0x10, seq![depth])
}

/// Writing a frame of the panel's size and then showing it puts on the
/// wire, in this order: an initialization, the full RAM window and the
/// counters at its origin once more, the frame itself behind the opcode that
/// writes the RAM, the steps of a refresh, the activation, and a last wait
/// for the controller.
pub proof fn lemma_update_then_display_on_the_wire(poll_delay_us: u32, buffer: Seq<u8>)
    requires
        buffer.len() == frame_len(),
    ensures
        update_frame_ops(poll_delay_us, buffer) + display_frame_ops(poll_delay_us)
            == init_wire(poll_delay_us)
            + full_window_wire(poll_delay_us)
            + payload_frame(0x24, buffer)
            + display_wire(poll_delay_us),
{
    lemma_init_on_the_wire(poll_delay_us);
    assert(update_frame_ops(poll_delay_us, buffer) + display_frame_ops(poll_delay_us)
        =~= init_wire(poll_delay_us)
        + full_window_wire(poll_delay_us)
        + payload_frame(0x24, buffer)
        + display_wire(poll_delay_us));
}

/// Going to sleep puts on the wire: a wait for the controller, the steps
/// that power the panel down, among which there is no display step, the
/// activation, and last of all the sleep depth behind the opcode that sends
/// the controller to sleep. Nothing follows it.
pub proof fn lemma_sleep_on_the_wire(poll_delay_us: u32, mode: DeepSleepMode)
    ensures
        !power_down_steps().display,
        sleep_ops(poll_delay_us, mode) == sleep_wire(poll_delay_us, mode.spec_to_u8()),
        sleep_ops(poll_delay_us, mode).last() == Op::Write(seq![mode.spec_to_u8()]),
{
    assert(sleep_ops(poll_delay_us, mode) =~= sleep_wire(poll_delay_us, mode.spec_to_u8()));
}

/// Setting the profile that is already in force asks nothing of the
/// hardware and changes nothing in the driver. So setting a profile twice
/// comes to the same as setting it once.
pub proof fn lemma_set_refresh_again_is_silent(settings: Settings, requested: RefreshLut)
    ensures
        set_refresh_ops(requested, requested) == Seq::<Op>::empty(),
        set_refresh_ops(settings.refresh, requested) + set_refresh_ops(requested, requested)
            == set_refresh_ops(settings.refresh, requested),
        (Settings { refresh: requested, ..(Settings { refresh: requested, ..settings }) })
            == (Settings { refresh: requested, ..settings }),
{
    let current = settings.refresh;
    assert(set_refresh_ops(current, requested) + set_refresh_ops(requested, requested)
        =~= set_refresh_ops(current, requested));
}

/// Changing the profile puts on the wire the waveform table of the new
/// profile, behind the opcode that writes the lookup-table register, and
/// nothing else. From the full profile to the quick one, that is the table
/// of the quick profile.
pub proof fn lemma_set_refresh_loads_the_table(current: RefreshLut, requested: RefreshLut)
    requires
        current != requested,
    ensures
        set_refresh_ops(current, requested) == payload_frame(
            0x32,
            spec_waveform_table(requested),
        ),
        set_refresh_ops(RefreshLut::Full, RefreshLut::Quick) == payload_frame(
            0x32,
            LUT_PARTIAL_UPDATE@,
        ),
{
    assert(set_refresh_ops(current, requested) =~= payload_frame(
        0x32,
        spec_waveform_table(requested),
    ));
    assert(set_refresh_ops(RefreshLut::Full, RefreshLut::Quick) =~= payload_frame(
        0x32,
        LUT_PARTIAL_UPDATE@,
    ));
}

/// Waking the panel puts on the wire what making the driver did, byte for
/// byte, whatever has been set since: the pause between two samples of the
/// busy line is fixed when the driver is made, and nothing else enters an
/// initialization.
pub proof fn lemma_wake_repeats_construction(delay_us: Option<u32>, settings: Settings)
    requires
        settings.poll_delay_us == initial_settings(delay_us).poll_delay_us,
    ensures
        init_ops(settings.poll_delay_us) == init_ops(initial_settings(delay_us).poll_delay_us),
        init_ops(settings.poll_delay_us) == init_wire(poll_delay_or_default(delay_us)),
{
    lemma_init_on_the_wire(settings.poll_delay_us);
}

} // verus!
