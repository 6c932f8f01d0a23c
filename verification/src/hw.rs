//! The vocabulary shared by every state machine of the engine: the hardware
//! operations it asks for, the answers it accepts, and the retry policies
//! that bound its polling.

use vstd::prelude::*;

verus! {

/// A GPIO port of the service processor.
#[derive(Copy, Clone, Debug, PartialEq, Eq, Structural)]
pub enum Port {
    A,
    B,
    C,
    D,
    E,
    F,
    G,
    H,
    I,
    J,
    K,
}

/// One or more pins of one port.
#[derive(Copy, Clone, Debug, PartialEq, Eq, Structural)]
pub struct PinSet {
    pub port: Port,
    pub pin_mask: u16,
}

/// The direction a pin is configured for.
#[derive(Copy, Clone, Debug, PartialEq, Eq, Structural)]
pub enum Mode {
    Input,
    Output,
}

/// The pull resistor a pin is configured with.
#[derive(Copy, Clone, Debug, PartialEq, Eq, Structural)]
pub enum Pull {
    Off,
    Up,
    Down,
}

/// A byte-wide register of the board controller.
#[derive(Copy, Clone, Debug, PartialEq, Eq, Structural)]
pub enum Register {
    TofinoEn,
    TofinoSeqState,
    TofinoSeqError,
    TofinoVid,
}

/// One hardware operation that a state machine asks its caller to perform.
#[derive(Copy, Clone, Debug, PartialEq, Eq, Structural)]
pub enum Action {
    /// Set the mode and pull of `pins`. The output level is left as it is.
    Configure { pins: PinSet, mode: Mode, pull: Pull },
    /// Drive the pins of `set_mask` high and those of `clear_mask` low.
    SetReset { port: Port, set_mask: u16, clear_mask: u16 },
    /// Read the input levels of `port`.
    ReadInput { port: Port },
    /// Block for `ticks` time units.
    Sleep { ticks: u64 },
    /// Put the configuration bus device into the mode that accepts an image.
    EnterConfigMode,
    /// Transmit the bytes `start..end` of the bitstream.
    WriteChunk { start: usize, end: usize },
    /// Take the configuration bus device out of configuration mode.
    LeaveConfigMode,
    /// Give up ownership of the configuration bus device.
    ReleaseBus,
    /// Write `value` to a register of the board controller.
    WriteRegister { register: Register, value: u8 },
    /// Read a register of the board controller.
    ReadRegister { register: Register },
    /// Program the core voltage regulator's output.
    SetVout { millivolts: u32 },
    /// Write the clock configuration packet at `index`.
    WritePacket { index: usize },
}

/// What the hardware answered to an [`Action`].
#[derive(Copy, Clone, Debug, PartialEq, Eq, Structural)]
pub enum Response {
    /// The operation was performed and yields no data.
    Ack,
    /// The input levels of the port that was read.
    Input(u16),
    /// The byte read from a register.
    Byte(u8),
    /// The bus or the device reported a failure.
    Fault,
}

/// How often a failed probe or attempt is repeated.
#[derive(Copy, Clone, Debug, PartialEq, Eq, Structural)]
pub enum RetryPolicy {
    /// Repeat until it succeeds, at the interval fixed by the operation.
    Unbounded,
    /// Repeat at most `count` times, `interval` time units apart.
    Bounded { count: u32, interval: u64 },
}

impl RetryPolicy {
    /// Whether one more repetition is allowed after `retries` of them.
    pub open spec fn spec_permits(self, retries: u32) -> bool {
        match self {
            RetryPolicy::Unbounded => true,
            RetryPolicy::Bounded { count, .. } => retries < count,
        }
    }

    /// The delay before a repetition; `fixed` is the operation's own.
    pub open spec fn spec_interval(self, fixed: u64) -> u64 {
        match self {
            RetryPolicy::Unbounded => fixed,
            RetryPolicy::Bounded { interval, .. } => interval,
        }
    }

    /// The count of repetitions made once one more is added to `retries`.
    /// An unbounded policy keeps no count.
    pub open spec fn spec_counted(self, retries: u32) -> u32 {
        match self {
            RetryPolicy::Unbounded => retries,
            RetryPolicy::Bounded { count, .. } => if retries < count {
                (retries + 1) as u32
            } else {
                retries
            },
        }
    }

    /// Whether one more repetition is allowed after `retries` of them.
    #[verifier::when_used_as_spec(spec_permits)]
    pub fn permits(self, retries: u32) -> (allowed: bool)
        ensures
            allowed == self.spec_permits(retries),
        no_unwind
    {
        match self {
            RetryPolicy::Unbounded => true,
            RetryPolicy::Bounded { count, .. } => retries < count,
        }
    }

    /// The delay before a repetition; `fixed` is the operation's own.
    #[verifier::when_used_as_spec(spec_interval)]
    pub fn interval(self, fixed: u64) -> (ticks: u64)
        ensures
            ticks == self.spec_interval(fixed),
        no_unwind
    {
        match self {
            RetryPolicy::Unbounded => fixed,
            RetryPolicy::Bounded { interval, .. } => interval,
        }
    }

    /// The count of repetitions made once one more is added to `retries`.
    #[verifier::when_used_as_spec(spec_counted)]
    pub fn counted(self, retries: u32) -> (next: u32)
        ensures
            next == self.spec_counted(retries),
        no_unwind
    {
        match self {
            RetryPolicy::Unbounded => retries,
            RetryPolicy::Bounded { count, .. } => if retries < count {
                retries + 1
            } else {
                retries
            },
        }
    }
}

/// The level that `port` drives after `action`, where it drove `level`
/// before. Only `SetReset` on that port changes a level; where a pin is
/// named in both masks, it is set.
pub open spec fn level_after(action: Action, port: Port, level: u16) -> u16 {
    match action {
        Action::SetReset { port: p, set_mask, clear_mask } => if p == port {
            (level & !clear_mask) | set_mask
        } else {
            level
        },
        _ => level,
    }
}

/// The level that `port` drives after all of `actions`, in order.
pub open spec fn level_after_all(actions: Seq<Action>, port: Port, level: u16) -> u16
    decreases actions.len(),
{
    if actions.len() == 0 {
        level
    } else {
        level_after(actions.last(), port, level_after_all(actions.drop_last(), port, level))
    }
}

} // verus!
