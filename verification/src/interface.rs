//! The transport framer: the reset pulse, the busy wait, and the framing of
//! commands and their data on the bus.
//!
//! The framer knows nothing of the controller's protocol. It turns each
//! request into operations on the reset line, the select line, the busy line
//! and the bus, and appends them to a [`Transcript`].

use crate::command::Command;
use vstd::prelude::*;
use vstd::slice::slice_to_vec;

verus! {

/// One operation on the hardware, for its owner to perform.
#[derive(Debug, PartialEq, Eq)]
pub enum BusOp {
    /// Drive the reset line low.
    ResetLow,
    /// Drive the reset line high.
    ResetHigh,
    /// Pause for this many microseconds.
    Delay(u32),
    /// Drive the select line low: what is written next is a command.
    SelectCommand,
    /// Drive the select line high: what is written next is data.
    SelectData,
    /// Transmit these bytes as one bus transaction.
    Write(Vec<u8>),
    /// Sample the busy line until it reads the idle level, pausing between
    /// samples as [`poll_busy`] says.
    WaitIdle { idle_high: bool, poll_delay_us: u32 },
}

/// The mathematical value of a [`BusOp`].
pub enum Op {
    ResetLow,
    ResetHigh,
    Delay(u32),
    SelectCommand,
    SelectData,
    Write(Seq<u8>),
    WaitIdle { idle_high: bool, poll_delay_us: u32 },
}

impl View for BusOp {
    type V = Op;

    open spec fn view(&self) -> Op {
        match self {
            BusOp::ResetLow => Op::ResetLow,
            BusOp::ResetHigh => Op::ResetHigh,
            BusOp::Delay(us) => Op::Delay(*us),
            BusOp::SelectCommand => Op::SelectCommand,
            BusOp::SelectData => Op::SelectData,
            BusOp::Write(bytes) => Op::Write(bytes@),
            BusOp::WaitIdle { idle_high, poll_delay_us } => Op::WaitIdle {
                idle_high: *idle_high,
                poll_delay_us: *poll_delay_us,
            },
        }
    }
}

/// The operations that the driver has asked for, oldest first.
#[derive(Debug, PartialEq, Eq)]
pub struct Transcript {
    pub ops: Vec<BusOp>,
}

impl View for Transcript {
    type V = Seq<Op>;

    open spec fn view(&self) -> Seq<Op> {
        self.ops@.map_values(|op: BusOp| op@)
    }
}

impl Transcript {
    /// An empty transcript.
    pub fn new() -> (bus: Transcript)
        ensures
            bus@ == Seq::<Op>::empty(),
    {
        let bus = Transcript { ops: Vec::new() };
        assert(bus@ =~= Seq::<Op>::empty());
        bus
    }

    /// Appends one operation.
    pub fn push(&mut self, op: BusOp)
        ensures
            final(self)@ == old(self)@.push(op@),
    {
        self.ops.push(op);
        assert(self@ =~= old(self)@.push(op@));
    }
}

/// The operations of a reset pulse.
pub open spec fn reset_ops(pulse_low_us: u32, settle_us: u32) -> Seq<Op> {
    seq![Op::ResetLow, Op::Delay(pulse_low_us), Op::ResetHigh, Op::Delay(settle_us)]
}

/// The operations that transmit one opcode.
pub open spec fn command_ops(command: Command) -> Seq<Op> {
    seq![Op::SelectCommand, Op::Write(seq![command.spec_address()])]
}

/// The operations that transmit a payload.
pub open spec fn data_ops(data: Seq<u8>) -> Seq<Op> {
    seq![Op::SelectData, Op::Write(data)]
}

/// The operations that transmit an opcode and then its payload.
pub open spec fn command_with_data_ops(command: Command, data: Seq<u8>) -> Seq<Op> {
    command_ops(command) + data_ops(data)
}

/// The operation that waits for the controller.
pub open spec fn wait_ops(busy_is_low_when_idle: bool, poll_delay_us: u32) -> Seq<Op> {
    seq![Op::WaitIdle { idle_high: !busy_is_low_when_idle, poll_delay_us }]
}

/// What to do after a sample of the busy line.
#[derive(Clone, Copy, Debug, PartialEq, Eq, Structural)]
pub enum Poll {
    /// The controller is idle: the wait is over.
    Idle,
    /// The controller is busy: sample again at once.
    Again,
    /// The controller is busy: pause for this many microseconds, then sample
    /// again.
    AgainAfter(u32),
}

/// What a sample of the busy line means for a wait.
pub open spec fn spec_poll_busy(line_high: bool, idle_high: bool, poll_delay_us: u32) -> Poll {
    if line_high == idle_high {
        Poll::Idle
    } else if poll_delay_us == 0 {
        Poll::Again
    } else {
        Poll::AgainAfter(poll_delay_us)
    }
}

/// Decides one round of a [`BusOp::WaitIdle`]: `line_high` is the level just
/// sampled. The wait goes on for as long as the line reads busy; it has no
/// time limit.
#[verifier::when_used_as_spec(spec_poll_busy)]
pub fn poll_busy(line_high: bool, idle_high: bool, poll_delay_us: u32) -> (next: Poll)
    ensures
        next == spec_poll_busy(line_high, idle_high, poll_delay_us),
{
    if line_high == idle_high {
        Poll::Idle
    } else if poll_delay_us == 0 {
        Poll::Again
    } else {
        Poll::AgainAfter(poll_delay_us)
    }
}

/// The pause between two samples of the busy line, in microseconds, where
/// the caller names none.
pub const DEFAULT_POLL_DELAY_US: u32 = 10_000;

/// The pause that a framer is made with.
pub open spec fn poll_delay_or_default(delay_us: Option<u32>) -> u32 {
    match delay_us {
        Some(us) => us,
        None => DEFAULT_POLL_DELAY_US,
    }
}

/// The framer. It holds the pause between two samples of the busy line.
#[derive(Clone, Copy, Debug, PartialEq, Eq, Structural)]
pub struct DisplayInterface {
    pub delay_us: u32,
}

impl DisplayInterface {
    /// A framer that pauses `delay_us` microseconds between two samples of
    /// the busy line, or [`DEFAULT_POLL_DELAY_US`] where none is given.
    pub fn new(delay_us: Option<u32>) -> (interface: DisplayInterface)
        ensures
            interface.delay_us == poll_delay_or_default(delay_us),
    {
        match delay_us {
            Some(us) => DisplayInterface { delay_us: us },
            None => DisplayInterface { delay_us: DEFAULT_POLL_DELAY_US },
        }
    }

    /// Selects the command phase and transmits the opcode, one byte.
    pub fn cmd(&self, bus: &mut Transcript, command: Command)
        ensures
            final(bus)@ == old(bus)@ + command_ops(command),
    {
        let mut opcode: Vec<u8> = Vec::new();
        opcode.push(command.address());
        bus.push(BusOp::SelectCommand);
        bus.push(BusOp::Write(opcode));
        assert(bus@ =~= old(bus)@ + command_ops(command));
    }

    /// Selects the data phase and transmits `data` as one transaction.
    pub fn data(&self, bus: &mut Transcript, data: &[u8])
        ensures
            final(bus)@ == old(bus)@ + data_ops(data@),
    {
        let payload: Vec<u8> = slice_to_vec(data);
        bus.push(BusOp::SelectData);
        bus.push(BusOp::Write(payload));
        assert(bus@ =~= old(bus)@ + data_ops(data@));
    }

    /// Transmits the opcode, then its payload.
    pub fn cmd_with_data(&self, bus: &mut Transcript, command: Command, data: &[u8])
        ensures
            final(bus)@ == old(bus)@ + command_with_data_ops(command, data@),
    {
        self.cmd(bus, command);
        self.data(bus, data);
        assert(bus@ =~= old(bus)@ + command_with_data_ops(command, data@));
    }

    /// Pulses the reset line: low for `pulse_low_us`, then high, then a pause
    /// of `settle_us` before anything else.
    pub fn reset(&self, bus: &mut Transcript, pulse_low_us: u32, settle_us: u32)
        ensures
            final(bus)@ == old(bus)@ + reset_ops(pulse_low_us, settle_us),
    {
        bus.push(BusOp::ResetLow);
        bus.push(BusOp::Delay(pulse_low_us));
        bus.push(BusOp::ResetHigh);
        bus.push(BusOp::Delay(settle_us));
        assert(bus@ =~= old(bus)@ + reset_ops(pulse_low_us, settle_us));
    }

    /// Waits until the busy line reads its idle level: low where
    /// `busy_is_low_when_idle`, high otherwise.
    pub fn wait_until_idle(&self, bus: &mut Transcript, busy_is_low_when_idle: bool)
        ensures
            final(bus)@ == old(bus)@ + wait_ops(busy_is_low_when_idle, self.delay_us),
    {
        bus.push(
            BusOp::WaitIdle { idle_high: !busy_is_low_when_idle, poll_delay_us: self.delay_us },
        );
        assert(bus@ =~= old(bus)@ + wait_ops(busy_is_low_when_idle, self.delay_us));
    }
}

} // verus!
