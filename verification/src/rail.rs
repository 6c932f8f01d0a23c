//! Ordered bring-up of a chain of dependent voltage rails.
//!
//! A rail is switched on, given a fixed time to settle, and then watched on
//! its power-good input until that is seen asserted. The next rail of the
//! chain is switched on only after that.

use vstd::prelude::*;
use crate::hw::{level_after, level_after_all, Action, Mode, PinSet, Port, Pull, Response, RetryPolicy};

verus! {

/// Time units between switching a rail on and the first look at its
/// power-good input.
pub const RAIL_SETTLE_DELAY: u64 = 2;

/// Time units between two looks at a power-good input.
pub const RAIL_POLL_INTERVAL: u64 = 2;

/// One rail: the output that enables its regulator (active high) and the
/// input on which the regulator reports power-good (active high).
#[derive(Copy, Clone, Debug, PartialEq, Eq, Structural)]
pub struct Rail {
    pub enable: PinSet,
    pub power_good: PinSet,
}

/// Where the sequencer stands with the rail it is working on.
#[derive(Copy, Clone, Debug, PartialEq, Eq, Structural)]
pub enum RailPhase {
    /// No rail is being enabled.
    Idle,
    /// The enable output is being driven high.
    Enabling,
    /// The settle delay is running.
    Settling,
    /// The power-good input is being read.
    Reading,
    /// The delay between two reads is running.
    Waiting,
    /// A hardware access failed; nothing more will be done.
    Halted,
}

/// What the sequencer wants next, or how enabling the rail ended.
#[derive(Copy, Clone, Debug, PartialEq, Eq, Structural)]
pub enum RailStep {
    /// Perform this and hand the response to `advance`.
    Perform(Action),
    /// The rail's power-good input was seen asserted.
    PowerGood,
    /// The retry policy is used up and power-good was never seen.
    GaveUp,
    /// The request does not fit the chain's order; nothing was done.
    OutOfOrder,
    /// A hardware access failed. This is fatal.
    Halt,
}

/// The sequencer as a mathematical value.
pub struct RailModel {
    /// The chain, first rail first.
    pub rails: Seq<Rail>,
    /// The pull that the power-good inputs are configured with.
    pub pull: Pull,
    /// How long a power-good input is watched.
    pub policy: RetryPolicy,
    /// How many rails, from the first on, have been seen good.
    pub confirmed: nat,
    pub phase: RailPhase,
    /// Reads repeated so far for the rail in work, under a bounded policy.
    pub retries: u32,
}

impl RailModel {
    /// The rail in work is one of the chain.
    pub open spec fn wf(self) -> bool {
        &&& self.confirmed <= self.rails.len()
        &&& self.busy() ==> self.confirmed < self.rails.len()
    }

    /// Whether a rail is being enabled right now.
    pub open spec fn busy(self) -> bool {
        self.phase != RailPhase::Idle && self.phase != RailPhase::Halted
    }

    /// The rail in work, or the next to be enabled.
    pub open spec fn current(self) -> Rail {
        self.rails[self.confirmed as int]
    }

    /// A fresh sequencer: no rail confirmed, nothing in work.
    pub open spec fn start(rails: Seq<Rail>, pull: Pull, policy: RetryPolicy) -> RailModel {
        RailModel { rails, pull, policy, confirmed: 0, phase: RailPhase::Idle, retries: 0 }
    }

    /// The configuration that makes the chain's pins safe to use: every
    /// power-good pin an input, then every enable pin an output. No level is
    /// written.
    pub open spec fn safe_defaults(self) -> Seq<Action> {
        Seq::new(
            2 * self.rails.len(),
            |i: int|
                if i < self.rails.len() {
                    Action::Configure {
                        pins: self.rails[i].power_good,
                        mode: Mode::Input,
                        pull: self.pull,
                    }
                } else {
                    Action::Configure {
                        pins: self.rails[i - self.rails.len()].enable,
                        mode: Mode::Output,
                        pull: Pull::Off,
                    }
                },
        )
    }

    /// The end of a sequencer whose hardware failed.
    pub open spec fn halted(self) -> (RailModel, RailStep) {
        (RailModel { phase: RailPhase::Halted, ..self }, RailStep::Halt)
    }

    /// Starts enabling rail number `rail`. Only the first rail not yet
    /// confirmed can be enabled, and only while nothing else is in work.
    pub open spec fn enable_rail_ordered(self, rail: nat) -> (RailModel, RailStep) {
        if self.phase == RailPhase::Halted {
            (self, RailStep::Halt)
        } else if self.phase != RailPhase::Idle || rail != self.confirmed || rail
            >= self.rails.len() {
            (self, RailStep::OutOfOrder)
        } else {
            (
                RailModel { phase: RailPhase::Enabling, retries: 0, ..self },
                RailStep::Perform(
                    Action::SetReset {
                        port: self.current().enable.port,
                        set_mask: self.current().enable.pin_mask,
                        clear_mask: 0,
                    },
                ),
            )
        }
    }

    /// Whether `response` is a read of the power-good port that shows the
    /// rail in work as good.
    pub open spec fn shows_power_good(self, response: Response) -> bool {
        response matches Response::Input(bits) && bits & self.current().power_good.pin_mask != 0
    }

    /// Takes the response to the action handed out last.
    pub open spec fn advance(self, response: Response) -> (RailModel, RailStep) {
        match self.phase {
            RailPhase::Idle => (self, RailStep::OutOfOrder),
            RailPhase::Halted => (self, RailStep::Halt),
            RailPhase::Enabling => if response == Response::Ack {
                (
                    RailModel { phase: RailPhase::Settling, ..self },
                    RailStep::Perform(Action::Sleep { ticks: RAIL_SETTLE_DELAY }),
                )
            } else {
                self.halted()
            },
            RailPhase::Settling | RailPhase::Waiting => if response == Response::Ack {
                (
                    RailModel { phase: RailPhase::Reading, ..self },
                    RailStep::Perform(Action::ReadInput { port: self.current().power_good.port }),
                )
            } else {
                self.halted()
            },
            RailPhase::Reading => if self.shows_power_good(response) {
                (
                    RailModel {
                        phase: RailPhase::Idle,
                        confirmed: self.confirmed + 1,
                        retries: 0,
                        ..self
                    },
                    RailStep::PowerGood,
                )
            } else if response is Input {
                if self.policy.permits(self.retries) {
                    (
                        RailModel {
                            phase: RailPhase::Waiting,
                            retries: self.policy.counted(self.retries),
                            ..self
                        },
                        RailStep::Perform(
                            Action::Sleep { ticks: self.policy.interval(RAIL_POLL_INTERVAL) },
                        ),
                    )
                } else {
                    (RailModel { phase: RailPhase::Idle, retries: 0, ..self }, RailStep::GaveUp)
                }
            } else {
                self.halted()
            },
        }
    }
}

/// One call made on a sequencer.
pub enum RailCall {
    /// `enable_rail_ordered` with this rail number.
    Enable(nat),
    /// `advance` with this response.
    Advance(Response),
}

impl RailModel {
    /// The effect of one call.
    pub open spec fn call(self, call: RailCall) -> (RailModel, RailStep) {
        match call {
            RailCall::Enable(rail) => self.enable_rail_ordered(rail),
            RailCall::Advance(response) => self.advance(response),
        }
    }

    /// The sequencer after all of `calls`, in order.
    pub open spec fn after(self, calls: Seq<RailCall>) -> RailModel
        decreases calls.len(),
    {
        if calls.len() == 0 {
            self
        } else {
            self.after(calls.drop_last()).call(calls.last()).0
        }
    }

    /// Whether call number `i` of `calls` handed the sequencer a read of the
    /// power-good input of rail number `rail`, made for that rail, in which
    /// its pin is high.
    pub open spec fn observed_good(self, calls: Seq<RailCall>, i: int, rail: nat) -> bool {
        &&& 0 <= i < calls.len()
        &&& self.after(calls.take(i)).phase == RailPhase::Reading
        &&& self.after(calls.take(i)).confirmed == rail
        &&& calls[i] matches RailCall::Advance(response)
        &&& self.after(calls.take(i)).shows_power_good(response)
    }
}

/// Success is reported for a rail only in answer to a read of its
/// power-good input that shows the pin high; starting to enable a rail never
/// reports it.
pub proof fn power_good_only_when_observed(m: RailModel, call: RailCall)
    ensures
        m.call(call).1 == RailStep::PowerGood ==> {
            &&& m.phase == RailPhase::Reading
            &&& call matches RailCall::Advance(response)
            &&& m.shows_power_good(response)
            &&& m.call(call).0.confirmed == m.confirmed + 1
        },
        m.call(call).1 != RailStep::PowerGood ==> m.call(call).0.confirmed == m.confirmed,
{
}

/// No call takes the sequencer out of its well-formed states or changes the
/// chain.
pub proof fn calls_preserve_chain(m: RailModel, calls: Seq<RailCall>)
    requires
        m.wf(),
    ensures
        m.after(calls).wf(),
        m.after(calls).rails == m.rails,
        m.after(calls).confirmed >= m.confirmed,
    decreases calls.len(),
{
    if calls.len() > 0 {
        calls_preserve_chain(m, calls.drop_last());
    }
}

/// Every rail that counts as confirmed was seen good: some earlier call
/// handed over a read of its power-good input with the pin high, while that
/// rail was the one in work.
pub proof fn confirmed_rails_were_observed(
    rails: Seq<Rail>,
    pull: Pull,
    policy: RetryPolicy,
    calls: Seq<RailCall>,
    rail: nat,
)
    requires
        rail < RailModel::start(rails, pull, policy).after(calls).confirmed,
    ensures
        exists|i: int| RailModel::start(rails, pull, policy).observed_good(calls, i, rail),
    decreases calls.len(),
{
    let m = RailModel::start(rails, pull, policy);
    if calls.len() > 0 {
        let earlier = calls.drop_last();
        let before = m.after(earlier);
        power_good_only_when_observed(before, calls.last());
        if rail < before.confirmed {
            confirmed_rails_were_observed(rails, pull, policy, earlier, rail);
            let i = choose|i: int| m.observed_good(earlier, i, rail);
            assert(earlier.take(i) == calls.take(i));
            assert(m.observed_good(calls, i, rail));
        } else {
            let i = calls.len() - 1;
            assert(calls.take(i) == earlier);
            assert(m.observed_good(calls, i, rail));
        }
    }
}

/// A rail is switched on only after every rail before it in the chain was
/// seen good: where a call hands out an action for rail number `rail`, each
/// earlier rail has its read among the calls before.
pub proof fn enable_follows_confirmation(
    rails: Seq<Rail>,
    pull: Pull,
    policy: RetryPolicy,
    calls: Seq<RailCall>,
    call: RailCall,
    earlier: nat,
)
    requires
        RailModel::start(rails, pull, policy).after(calls).call(call).1 is Perform,
        earlier < RailModel::start(rails, pull, policy).after(calls).call(call).0.confirmed,
    ensures
        exists|i: int| RailModel::start(rails, pull, policy).observed_good(calls, i, earlier),
{
    let m = RailModel::start(rails, pull, policy);
    power_good_only_when_observed(m.after(calls), call);
    confirmed_rails_were_observed(rails, pull, policy, calls, earlier);
}

/// A hardware failure is final: a sequencer that has halted stays as it is
/// and answers every call with `Halt`.
pub proof fn halt_is_final(m: RailModel, call: RailCall)
    requires
        m.phase == RailPhase::Halted,
    ensures
        m.call(call) == (m, RailStep::Halt),
{
}

/// An action of the safe defaults writes no level.
pub proof fn safe_defaults_only_configure(m: RailModel, i: int)
    requires
        0 <= i < m.safe_defaults().len(),
    ensures
        m.safe_defaults()[i] is Configure,
{
}

/// Actions that only configure pins leave every output level as it was.
pub proof fn configuring_keeps_levels(actions: Seq<Action>, port: Port, level: u16)
    requires
        forall|i: int| 0 <= i < actions.len() ==> actions[i] is Configure,
    ensures
        level_after_all(actions, port, level) == level,
    decreases actions.len(),
{
    if actions.len() > 0 {
        configuring_keeps_levels(actions.drop_last(), port, level);
    }
}

/// The safe defaults change no output level, applied once or twice in a
/// row: a rail that is on stays on.
pub proof fn safe_defaults_keep_levels(m: RailModel, port: Port, level: u16)
    ensures
        level_after_all(m.safe_defaults(), port, level) == level,
        level_after_all(m.safe_defaults() + m.safe_defaults(), port, level) == level,
{
    configuring_keeps_levels(m.safe_defaults(), port, level);
    configuring_keeps_levels(m.safe_defaults() + m.safe_defaults(), port, level);
}

/// Whether every pin that is high in `before` is high in `after`.
pub open spec fn keeps_high(before: u16, after: u16) -> bool {
    before & !after == 0
}

/// No action that the sequencer hands out drives a pin low: whatever is on
/// stays on.
pub proof fn sequencer_never_lowers(m: RailModel, call: RailCall, port: Port, level: u16)
    ensures
        m.call(call).1 matches RailStep::Perform(action) ==> keeps_high(
            level,
            level_after(action, port, level),
        ),
{
    if let RailStep::Perform(action) = m.call(call).1 {
        if let Action::SetReset { port: p, set_mask, clear_mask } = action {
            assert(clear_mask == 0);
            assert(level & !((level & !0u16) | set_mask) == 0) by (bit_vector);
        } else {
            assert(level & !level == 0) by (bit_vector);
        }
        if level_after(action, port, level) == level {
            assert(level & !level == 0) by (bit_vector);
        }
    }
}

/// Brings up a chain of rails in order.
pub struct PowerRailSequencer {
    rails: Vec<Rail>,
    pull: Pull,
    policy: RetryPolicy,
    confirmed: usize,
    phase: RailPhase,
    retries: u32,
}

impl View for PowerRailSequencer {
    type V = RailModel;

    closed spec fn view(&self) -> RailModel {
        RailModel {
            rails: self.rails@,
            pull: self.pull,
            policy: self.policy,
            confirmed: self.confirmed as nat,
            phase: self.phase,
            retries: self.retries,
        }
    }
}

impl PowerRailSequencer {
    #[verifier::type_invariant]
    spec fn inv(self) -> bool {
        self@.wf()
    }

    /// A sequencer for the chain `rails`, first rail first.
    pub fn new(rails: Vec<Rail>, pull: Pull, policy: RetryPolicy) -> (s: Self)
        ensures
            s@ == RailModel::start(rails@, pull, policy),
    {
        PowerRailSequencer { rails, pull, policy, confirmed: 0, phase: RailPhase::Idle, retries: 0 }
    }

    /// The number of rails seen good so far.
    pub fn confirmed(&self) -> (n: usize)
        ensures
            n == self@.confirmed,
    {
        self.confirmed
    }

    /// The number of rails in the chain.
    pub fn len(&self) -> (n: usize)
        ensures
            n == self@.rails.len(),
    {
        self.rails.len()
    }

    /// Whether every rail of the chain has been seen good.
    pub fn is_complete(&self) -> (done: bool)
        ensures
            done == (self@.confirmed == self@.rails.len()),
    {
        self.confirmed == self.rails.len()
    }

    /// Where the sequencer stands with the rail in work.
    pub fn phase(&self) -> (phase: RailPhase)
        ensures
            phase == self@.phase,
    {
        self.phase
    }

    /// The pin configuration to apply before anything else, on a cold start
    /// and on a restart alike. It sets modes only: an enable output that is
    /// already driven keeps its level.
    pub fn initialize_safe_defaults(&self) -> (actions: Vec<Action>)
        ensures
            actions@ == self@.safe_defaults(),
    {
        let n = self.rails.len();
        let mut actions: Vec<Action> = Vec::new();
        let mut i: usize = 0;
        while i < n
            invariant
                n == self.rails.len(),
                i <= n,
                actions.len() == i,
                forall|k: int| 0 <= k < i ==> actions[k] == self@.safe_defaults()[k],
            decreases n - i,
        {
            actions.push(
                Action::Configure {
                    pins: self.rails[i].power_good,
                    mode: Mode::Input,
                    pull: self.pull,
                },
            );
            i += 1;
        }
        let mut j: usize = 0;
        while j < n
            invariant
                n == self.rails.len(),
                j <= n,
                actions.len() == n + j,
                forall|k: int| 0 <= k < n + j ==> actions[k] == self@.safe_defaults()[k],
            decreases n - j,
        {
            actions.push(
                Action::Configure {
                    pins: self.rails[j].enable,
                    mode: Mode::Output,
                    pull: Pull::Off,
                },
            );
            j += 1;
        }
        assert(actions@ =~= self@.safe_defaults());
        actions
    }

    /// Starts enabling rail number `rail` and hands out the write that
    /// drives its enable output high. A request for any rail but the first
    /// unconfirmed one, or while a rail is in work, is refused with
    /// `OutOfOrder` and changes nothing.
    pub fn enable_rail_ordered(&mut self, rail: usize) -> (step: RailStep)
        ensures
            (final(self)@, step) == old(self)@.enable_rail_ordered(rail as nat),
        no_unwind
    {
        proof {
            use_type_invariant(&*self);
        }
        match self.phase {
            RailPhase::Halted => RailStep::Halt,
            RailPhase::Idle => {
                if rail != self.confirmed || rail >= self.rails.len() {
                    RailStep::OutOfOrder
                } else {
                    let pins = self.rails[rail].enable;
                    self.retries = 0;
                    self.phase = RailPhase::Enabling;
                    RailStep::Perform(
                        Action::SetReset { port: pins.port, set_mask: pins.pin_mask, clear_mask: 0 },
                    )
                }
            },
            _ => RailStep::OutOfOrder,
        }
    }

    /// Takes the response to the action handed out last and says what comes
    /// next. `PowerGood` is returned only for a read of the power-good port
    /// in which the rail's pin is high; any response that does not answer
    /// the action is a hardware failure and halts the sequencer.
    pub fn advance(&mut self, response: Response) -> (step: RailStep)
        ensures
            (final(self)@, step) == old(self)@.advance(response),
        no_unwind
    {
        proof {
            use_type_invariant(&*self);
        }
        match self.phase {
            RailPhase::Idle => RailStep::OutOfOrder,
            RailPhase::Halted => RailStep::Halt,
            RailPhase::Enabling => match response {
                Response::Ack => {
                    self.phase = RailPhase::Settling;
                    RailStep::Perform(Action::Sleep { ticks: RAIL_SETTLE_DELAY })
                },
                _ => {
                    self.phase = RailPhase::Halted;
                    RailStep::Halt
                },
            },
            RailPhase::Settling | RailPhase::Waiting => match response {
                Response::Ack => {
                    self.phase = RailPhase::Reading;
                    RailStep::Perform(
                        Action::ReadInput { port: self.rails[self.confirmed].power_good.port },
                    )
                },
                _ => {
                    self.phase = RailPhase::Halted;
                    RailStep::Halt
                },
            },
            RailPhase::Reading => match response {
                Response::Input(bits) => {
                    if bits & self.rails[self.confirmed].power_good.pin_mask != 0 {
                        assert(self.confirmed < self.rails.len());
                        let next: usize = self.confirmed + 1;
                        self.phase = RailPhase::Idle;
                        self.retries = 0;
                        self.confirmed = next;
                        RailStep::PowerGood
                    } else if self.policy.permits(self.retries) {
                        self.retries = self.policy.counted(self.retries);
                        self.phase = RailPhase::Waiting;
                        RailStep::Perform(
                            Action::Sleep { ticks: self.policy.interval(RAIL_POLL_INTERVAL) },
                        )
                    } else {
                        self.phase = RailPhase::Idle;
                        self.retries = 0;
                        RailStep::GaveUp
                    }
                },
                _ => {
                    self.phase = RailPhase::Halted;
                    RailStep::Halt
                },
            },
        }
    }
}

} // verus!
