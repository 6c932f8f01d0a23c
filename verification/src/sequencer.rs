//! The board-level sequencing server: the power state of the downstream
//! device and the operations that change it.
//!
//! An operation takes the server by value and gives it back when it ends,
//! so no second request can be served, and no state can be read, while one
//! is in flight. The power state is written once, as the last step of a
//! transition whose hardware operations have all succeeded.

use vstd::prelude::*;
use crate::clock::{ClockConfigLoader, ClockModel, ClockStep};
use crate::hw::{Action, Register, Response, RetryPolicy};
use crate::vid::{vid_of_code, Tofino2Vid};

verus! {

/// The notification bit of the timer.
pub const TIMER_MASK: u32 = 1;

/// Time units between two timer notifications.
pub const TIMER_INTERVAL: u64 = 1000;

/// The phase code from which on the downstream device's sequencer has
/// valid voltage-ID outputs.
pub const PHASE_THRESHOLD: u8 = 9;

/// How often the phase register is read again after the first read.
pub const PHASE_POLLS: u32 = 5;

/// Time units between two reads of the phase register.
pub const PHASE_POLL_INTERVAL: u64 = 10;

/// The power state of the downstream device.
#[derive(Copy, Clone, Debug, PartialEq, Eq, Structural)]
pub enum PowerState {
    /// Low power: the device is disabled.
    Standby,
    /// Full power: the device is enabled and its core voltage is set.
    Active,
}

/// Why a request was refused.
#[derive(Copy, Clone, Debug, PartialEq, Eq, Structural)]
pub enum SeqError {
    /// The requested state cannot be entered from the current one.
    IllegalTransition,
    /// The write of the clock configuration packet at this index failed.
    /// Indices count from zero.
    ClockConfigFailed { packet: usize },
    /// The device's sequencer did not reach the phase threshold in time.
    SequencerTimeout,
    /// The sampled voltage-ID code selects no voltage.
    InvalidVid,
}

/// What to do on a timer notification.
#[derive(Copy, Clone, Debug, PartialEq, Eq, Structural)]
pub struct TimerUpdate {
    /// The level to drive the status indicator to.
    pub led_on: bool,
    /// The deadline to arm the timer with.
    pub deadline: u64,
    /// The notification bits to arm the timer with.
    pub mask: u32,
}

/// The byte that enables or disables the downstream device.
pub open spec fn enable_value(enabled: bool) -> u8 {
    if enabled {
        1
    } else {
        0
    }
}

/// The write that enables or disables the downstream device.
pub open spec fn set_tofino_enabled(enabled: bool) -> Action {
    Action::WriteRegister { register: Register::TofinoEn, value: enable_value(enabled) }
}

/// The read of the phase that the downstream device's sequencer is in.
pub open spec fn get_tofino_seq_state() -> Action {
    Action::ReadRegister { register: Register::TofinoSeqState }
}

/// The server between two operations, as a mathematical value.
pub struct ServerModel {
    pub state: PowerState,
    /// The set-point sampled last.
    pub vid: Tofino2Vid,
    /// The deadline of the timer.
    pub deadline: u64,
    /// How long the phase register is watched.
    pub poll: RetryPolicy,
}

/// The hardware operation that an operation in flight is waiting for.
pub enum PendingModel {
    /// To `Active`: the device is being enabled.
    Enabling,
    /// To `Active`: the phase register is being read.
    ReadingPhase,
    /// To `Active`: the delay between two reads is running.
    WaitingPhase,
    /// To `Active`: the voltage-ID register is being read.
    SamplingVid,
    /// To `Active`: the device is being disabled again after an invalid
    /// voltage-ID.
    RollingBack,
    /// To `Active`: the regulator is being programmed.
    Programming,
    /// To `Standby`: the device is being disabled.
    Disabling,
    /// A clock configuration packet is being written.
    WritingPacket(ClockModel),
}

/// An operation in flight, as a mathematical value.
pub struct OperationModel {
    /// The server as it was when the operation began, but for `vid`.
    pub server: ServerModel,
    pub pending: PendingModel,
    /// Repeated reads of the phase register so far, under a bounded policy.
    pub retries: u32,
}

/// The outcome of a step, as a mathematical value.
pub enum ProgressModel {
    Perform(OperationModel, Action),
    Finished(ServerModel, Result<(), SeqError>),
    Halted,
}

impl ServerModel {
    /// A server at start-up: in `Standby`, with no voltage-ID sampled.
    pub open spec fn start(deadline: u64, poll: RetryPolicy) -> ServerModel {
        ServerModel { state: PowerState::Standby, vid: Tofino2Vid::Invalid, deadline, poll }
    }

    /// An operation of this server that begins by waiting for `pending`.
    pub open spec fn pending(self, pending: PendingModel) -> OperationModel {
        OperationModel { server: self, pending, retries: 0 }
    }

    /// Begins the transition to `requested`. From `Standby` to `Active` the
    /// device is enabled first; from `Active` to `Standby` it is disabled;
    /// every other pair is refused at once, with nothing done.
    pub open spec fn set_state(self, requested: PowerState) -> ProgressModel {
        match (self.state, requested) {
            (PowerState::Standby, PowerState::Active) => ProgressModel::Perform(
                self.pending(PendingModel::Enabling),
                set_tofino_enabled(true),
            ),
            (PowerState::Active, PowerState::Standby) => ProgressModel::Perform(
                self.pending(PendingModel::Disabling),
                set_tofino_enabled(false),
            ),
            _ => ProgressModel::Finished(self, Err(SeqError::IllegalTransition)),
        }
    }

    /// The server's part in a step of the clock configuration loader.
    pub open spec fn clock_progress(self, step: (ClockModel, ClockStep)) -> ProgressModel {
        match step.1 {
            ClockStep::Perform(action) => ProgressModel::Perform(
                self.pending(PendingModel::WritingPacket(step.0)),
                action,
            ),
            ClockStep::Done => ProgressModel::Finished(self, Ok(())),
            ClockStep::Failed { packet } => ProgressModel::Finished(
                self,
                Err(SeqError::ClockConfigFailed { packet }),
            ),
        }
    }

    /// Begins the load of a clock configuration of `packets` packets. The
    /// power state plays no part in it.
    pub open spec fn load_clock_config(self, packets: nat) -> ProgressModel {
        self.clock_progress(ClockModel::load(packets))
    }

    /// The timer fired: the deadline moves on by one interval and the
    /// status indicator changes its level.
    pub open spec fn handle_notification(self, led_on: bool) -> (ServerModel, TimerUpdate) {
        let deadline = (self.deadline + TIMER_INTERVAL) as u64;
        (
            ServerModel { deadline, ..self },
            TimerUpdate { led_on: !led_on, deadline, mask: TIMER_MASK },
        )
    }
}

impl OperationModel {
    /// The operation goes on with `action` and waits for `pending`.
    pub open spec fn next(self, pending: PendingModel, action: Action) -> ProgressModel {
        ProgressModel::Perform(OperationModel { pending, ..self }, action)
    }

    /// The operation goes on with a read of the phase register.
    pub open spec fn read_phase(self) -> ProgressModel {
        self.next(PendingModel::ReadingPhase, get_tofino_seq_state())
    }

    /// What follows a read of the phase register that gave `phase`.
    pub open spec fn after_phase(self, phase: u8) -> ProgressModel {
        if phase >= PHASE_THRESHOLD {
            self.next(
                PendingModel::SamplingVid,
                Action::ReadRegister { register: Register::TofinoVid },
            )
        } else if self.server.poll.permits(self.retries) {
            ProgressModel::Perform(
                OperationModel {
                    pending: PendingModel::WaitingPhase,
                    retries: self.server.poll.counted(self.retries),
                    ..self
                },
                Action::Sleep { ticks: self.server.poll.interval(PHASE_POLL_INTERVAL) },
            )
        } else {
            ProgressModel::Finished(self.server, Err(SeqError::SequencerTimeout))
        }
    }

    /// The operation once `code` was read from the voltage-ID register: the
    /// server holds the set-point that the code selects.
    pub open spec fn get_tofino_vid(self, code: u8) -> OperationModel {
        OperationModel { server: ServerModel { vid: vid_of_code(code), ..self.server }, ..self }
    }

    /// The write that programs the regulator to the sampled set-point. There
    /// is none for `Invalid`: that case is dealt with before.
    pub open spec fn apply_vid(self) -> Action
        recommends
            self.server.vid != Tofino2Vid::Invalid,
    {
        Action::SetVout { millivolts: self.server.vid.millivolts()->0 }
    }

    /// What follows a read of the voltage-ID register that gave `code`: the
    /// regulator is programmed to the voltage that the code selects, or,
    /// where it selects none, the device is disabled again.
    pub open spec fn after_vid(self, code: u8) -> ProgressModel {
        let sampled = self.get_tofino_vid(code);
        if sampled.server.vid == Tofino2Vid::Invalid {
            sampled.next(PendingModel::RollingBack, set_tofino_enabled(false))
        } else {
            sampled.next(PendingModel::Programming, sampled.apply_vid())
        }
    }

    /// The end of a transition that succeeded: only here the state changes.
    pub open spec fn commit(self, state: PowerState) -> ProgressModel {
        ProgressModel::Finished(ServerModel { state, ..self.server }, Ok(()))
    }

    /// Takes the response to the action handed out last. A response that
    /// does not answer that action is a hardware failure and halts.
    pub open spec fn resume(self, response: Response) -> ProgressModel {
        match self.pending {
            PendingModel::Enabling | PendingModel::WaitingPhase => if response == Response::Ack {
                self.read_phase()
            } else {
                ProgressModel::Halted
            },
            PendingModel::ReadingPhase => match response {
                Response::Byte(phase) => self.after_phase(phase),
                _ => ProgressModel::Halted,
            },
            PendingModel::SamplingVid => match response {
                Response::Byte(code) => self.after_vid(code),
                _ => ProgressModel::Halted,
            },
            PendingModel::RollingBack => if response == Response::Ack {
                ProgressModel::Finished(self.server, Err(SeqError::InvalidVid))
            } else {
                ProgressModel::Halted
            },
            PendingModel::Programming => if response == Response::Ack {
                self.commit(PowerState::Active)
            } else {
                ProgressModel::Halted
            },
            PendingModel::Disabling => if response == Response::Ack {
                self.commit(PowerState::Standby)
            } else {
                ProgressModel::Halted
            },
            PendingModel::WritingPacket(clock) => self.server.clock_progress(
                clock.advance(response),
            ),
        }
    }
}

impl ProgressModel {
    /// The outcome once `response` is handed to the operation in flight; an
    /// operation that has ended stays as it ended.
    pub open spec fn given(self, response: Response) -> ProgressModel {
        match self {
            ProgressModel::Perform(operation, _) => operation.resume(response),
            _ => self,
        }
    }

    /// The outcome once each of `responses` is handed over, in order.
    pub open spec fn feed(self, responses: Seq<Response>) -> ProgressModel
        decreases responses.len(),
    {
        if responses.len() == 0 {
            self
        } else {
            self.feed(responses.drop_last()).given(responses.last())
        }
    }
}

/// What a device answers while its phase register is polled: the reads of
/// the register, which give `phases` one by one, with an acknowledged delay
/// after each. The sequence holds the first `n` of those responses.
pub open spec fn poll_responses(phases: Seq<u8>, n: nat) -> Seq<Response> {
    Seq::new(
        n,
        |i: int|
            if i % 2 == 0 {
                Response::Byte(phases[i / 2])
            } else {
                Response::Ack
            },
    )
}

/// A request for the state that the server is in already is refused with
/// `IllegalTransition`: no action is handed out and the server is
/// unchanged. Every other request begins with the write that enables or
/// disables the device.
pub proof fn same_state_is_refused(s: ServerModel, requested: PowerState)
    ensures
        s.state == requested ==> s.set_state(requested) == ProgressModel::Finished(
            s,
            Err(SeqError::IllegalTransition),
        ),
        s.state != requested ==> s.set_state(requested) == ProgressModel::Perform(
            OperationModel {
                server: s,
                pending: if requested == PowerState::Active {
                    PendingModel::Enabling
                } else {
                    PendingModel::Disabling
                },
                retries: 0,
            },
            set_tofino_enabled(requested == PowerState::Active),
        ),
{
}

/// The power state changes only as the last step of an operation that
/// succeeds. While an operation is in flight, and where it ends in an
/// error, the state is the one it began with; the timer and the polling
/// policy never change.
pub proof fn state_changes_only_on_success(operation: OperationModel, response: Response)
    ensures
        match operation.resume(response) {
            ProgressModel::Perform(next, _) => {
                &&& next.server.state == operation.server.state
                &&& next.server.deadline == operation.server.deadline
                &&& next.server.poll == operation.server.poll
            },
            ProgressModel::Finished(server, result) => {
                &&& result is Err ==> server.state == operation.server.state
                &&& server.deadline == operation.server.deadline
                &&& server.poll == operation.server.poll
            },
            ProgressModel::Halted => true,
        },
{
}

proof fn polling_goes_on(s: ServerModel, count: u32, interval: u64, phases: Seq<u8>, n: nat)
    requires
        s.state == PowerState::Standby,
        s.poll == (RetryPolicy::Bounded { count, interval }),
        phases.len() == count + 1,
        forall|i: int| 0 <= i < phases.len() ==> phases[i] < PHASE_THRESHOLD,
        n <= 2 * count,
    ensures
        s.set_state(PowerState::Active).given(Response::Ack).feed(poll_responses(phases, n))
            matches ProgressModel::Perform(operation, _) && operation == (OperationModel {
            server: s,
            pending: if n % 2 == 0 {
                PendingModel::ReadingPhase
            } else {
                PendingModel::WaitingPhase
            },
            retries: ((n + 1) / 2) as u32,
        }),
    decreases n,
{
    if n > 0 {
        polling_goes_on(s, count, interval, phases, (n - 1) as nat);
        assert(poll_responses(phases, n).drop_last() =~= poll_responses(phases, (n - 1) as nat));
    }
}

/// From `Standby`, a request for `Active` fails with `SequencerTimeout`
/// where the phase register stays below the threshold in the first read and
/// in every repeated read that a bounded policy allows. The server is then
/// as it was: still in `Standby`.
pub proof fn phase_below_threshold_times_out(
    s: ServerModel,
    count: u32,
    interval: u64,
    phases: Seq<u8>,
)
    requires
        s.state == PowerState::Standby,
        s.poll == (RetryPolicy::Bounded { count, interval }),
        phases.len() == count + 1,
        forall|i: int| 0 <= i < phases.len() ==> phases[i] < PHASE_THRESHOLD,
    ensures
        s.set_state(PowerState::Active).given(Response::Ack).feed(
            poll_responses(phases, (2 * count + 1) as nat),
        ) == ProgressModel::Finished(s, Err(SeqError::SequencerTimeout)),
{
    let n = (2 * count + 1) as nat;
    polling_goes_on(s, count, interval, phases, (2 * count) as nat);
    assert(poll_responses(phases, n).drop_last() =~= poll_responses(phases, (2 * count) as nat));
}

/// Where the phase register has reached the threshold and the sampled code
/// selects no voltage, the device is disabled again and the request fails
/// with `InvalidVid`; the state is the one the operation began with.
pub proof fn invalid_vid_rolls_back(operation: OperationModel, phase: u8, code: u8)
    requires
        operation.pending == PendingModel::ReadingPhase,
        phase >= PHASE_THRESHOLD,
        vid_of_code(code) == Tofino2Vid::Invalid,
    ensures
        operation.resume(Response::Byte(phase)) matches ProgressModel::Perform(_, sample)
            && sample == (Action::ReadRegister { register: Register::TofinoVid }),
        operation.resume(Response::Byte(phase)).given(Response::Byte(code))
            matches ProgressModel::Perform(_, rollback) && rollback == set_tofino_enabled(false),
        operation.resume(Response::Byte(phase)).given(Response::Byte(code)).given(Response::Ack)
            == ProgressModel::Finished(
            ServerModel { vid: Tofino2Vid::Invalid, ..operation.server },
            Err(SeqError::InvalidVid),
        ),
{
}

/// Where the phase register has reached the threshold and the sampled code
/// selects a voltage, the regulator is programmed to it, and only once that
/// is acknowledged the server is in `Active`.
pub proof fn valid_vid_commits(operation: OperationModel, phase: u8, code: u8)
    requires
        operation.pending == PendingModel::ReadingPhase,
        phase >= PHASE_THRESHOLD,
        vid_of_code(code) != Tofino2Vid::Invalid,
    ensures
        operation.resume(Response::Byte(phase)).given(Response::Byte(code))
            matches ProgressModel::Perform(programming, program) && programming.server.state
            == operation.server.state && Some(program->millivolts) == vid_of_code(
            code,
        ).millivolts() && program is SetVout,
        operation.resume(Response::Byte(phase)).given(Response::Byte(code)).given(Response::Ack)
            == ProgressModel::Finished(
            ServerModel { state: PowerState::Active, vid: vid_of_code(code), ..operation.server },
            Ok(()),
        ),
{
}

/// Once a request for `Active` has succeeded, a second one is refused with
/// `IllegalTransition` at once: the device is not enabled a second time.
pub proof fn repeated_request_is_refused(operation: OperationModel, phase: u8, code: u8)
    requires
        operation.pending == PendingModel::ReadingPhase,
        phase >= PHASE_THRESHOLD,
        vid_of_code(code) != Tofino2Vid::Invalid,
    ensures
        operation.resume(Response::Byte(phase)).given(Response::Byte(code)).given(Response::Ack)
            matches ProgressModel::Finished(server, _) && server.set_state(PowerState::Active)
            == ProgressModel::Finished(server, Err(SeqError::IllegalTransition)),
{
}

/// From `Active`, a request for `Standby` disables the device and is
/// done: nothing is read back.
pub proof fn power_down_is_unconditional(s: ServerModel)
    requires
        s.state == PowerState::Active,
    ensures
        s.set_state(PowerState::Standby).given(Response::Ack) == ProgressModel::Finished(
            ServerModel { state: PowerState::Standby, ..s },
            Ok(()),
        ),
{
}

/// The sequencing server between two operations.
pub struct ServerImpl {
    state: PowerState,
    vid: Tofino2Vid,
    deadline: u64,
    poll: RetryPolicy,
}

enum Pending {
    Enabling,
    ReadingPhase,
    WaitingPhase,
    SamplingVid,
    RollingBack,
    Programming,
    Disabling,
    WritingPacket(ClockConfigLoader),
}

/// An operation in flight. It holds the server until it ends.
pub struct Operation {
    server: ServerImpl,
    pending: Pending,
    retries: u32,
}

/// What an operation wants next, or how it ended.
pub enum Progress {
    /// Perform the action and hand the response to `resume`.
    Perform(Operation, Action),
    /// The operation ended; the server is free again.
    Finished(ServerImpl, Result<(), SeqError>),
    /// A hardware access failed. This is fatal: the server is gone.
    Halted,
}

impl View for ServerImpl {
    type V = ServerModel;

    closed spec fn view(&self) -> ServerModel {
        ServerModel { state: self.state, vid: self.vid, deadline: self.deadline, poll: self.poll }
    }
}

impl View for Pending {
    type V = PendingModel;

    closed spec fn view(&self) -> PendingModel {
        match self {
            Pending::Enabling => PendingModel::Enabling,
            Pending::ReadingPhase => PendingModel::ReadingPhase,
            Pending::WaitingPhase => PendingModel::WaitingPhase,
            Pending::SamplingVid => PendingModel::SamplingVid,
            Pending::RollingBack => PendingModel::RollingBack,
            Pending::Programming => PendingModel::Programming,
            Pending::Disabling => PendingModel::Disabling,
            Pending::WritingPacket(clock) => PendingModel::WritingPacket(clock@),
        }
    }
}

impl View for Operation {
    type V = OperationModel;

    closed spec fn view(&self) -> OperationModel {
        OperationModel { server: self.server@, pending: self.pending@, retries: self.retries }
    }
}

impl View for Progress {
    type V = ProgressModel;

    open spec fn view(&self) -> ProgressModel {
        match self {
            Progress::Perform(operation, action) => ProgressModel::Perform(operation@, *action),
            Progress::Finished(server, result) => ProgressModel::Finished(server@, *result),
            Progress::Halted => ProgressModel::Halted,
        }
    }
}

/// Whether a byte read from the enable register says that the downstream
/// device is enabled.
pub fn tofino_enabled(en: u8) -> (enabled: bool)
    ensures
        enabled == (en == enable_value(true)),
{
    en == 1
}

impl ServerImpl {
    /// A server at start-up, with the timer's first deadline. The phase
    /// register is read once and then up to five times more, ten time units
    /// apart.
    pub fn new(deadline: u64) -> (server: Self)
        ensures
            server@ == ServerModel::start(
                deadline,
                RetryPolicy::Bounded { count: PHASE_POLLS, interval: PHASE_POLL_INTERVAL },
            ),
    {
        Self::with_policy(
            deadline,
            RetryPolicy::Bounded { count: PHASE_POLLS, interval: PHASE_POLL_INTERVAL },
        )
    }

    /// A server at start-up that watches the phase register as `poll` says.
    pub fn with_policy(deadline: u64, poll: RetryPolicy) -> (server: Self)
        ensures
            server@ == ServerModel::start(deadline, poll),
    {
        ServerImpl { state: PowerState::Standby, vid: Tofino2Vid::Invalid, deadline, poll }
    }

    /// The current power state.
    pub fn get_state(&self) -> (state: PowerState)
        ensures
            state == self@.state,
    {
        self.state
    }

    /// The set-point sampled last.
    pub fn vid(&self) -> (vid: Tofino2Vid)
        ensures
            vid == self@.vid,
    {
        self.vid
    }

    /// The deadline of the timer.
    pub fn deadline(&self) -> (deadline: u64)
        ensures
            deadline == self@.deadline,
    {
        self.deadline
    }

    /// The write that enables or disables the downstream device.
    pub fn set_tofino_enabled(enabled: bool) -> (action: Action)
        ensures
            action == set_tofino_enabled(enabled),
    {
        let value: u8 = if enabled {
            1
        } else {
            0
        };
        Action::WriteRegister { register: Register::TofinoEn, value }
    }

    /// The read of the phase that the downstream device's sequencer is in.
    pub fn get_tofino_seq_state() -> (action: Action)
        ensures
            action == get_tofino_seq_state(),
    {
        Action::ReadRegister { register: Register::TofinoSeqState }
    }

    /// The read of the error code of the downstream device's sequencer.
    pub fn get_tofino_seq_error() -> (action: Action)
        ensures
            action == (Action::ReadRegister { register: Register::TofinoSeqError }),
    {
        Action::ReadRegister { register: Register::TofinoSeqError }
    }

    fn begin(self, pending: Pending, action: Action) -> (progress: Progress)
        ensures
            progress@ == ProgressModel::Perform(self@.pending(pending@), action),
    {
        Progress::Perform(Operation { server: self, pending, retries: 0 }, action)
    }

    /// Begins the transition to `requested`. A request that the transition
    /// table does not hold, the current state among them, is refused with
    /// `IllegalTransition` and no action is handed out.
    pub fn set_state(self, requested: PowerState) -> (progress: Progress)
        ensures
            progress@ == self@.set_state(requested),
    {
        match (self.state, requested) {
            (PowerState::Standby, PowerState::Active) => self.begin(
                Pending::Enabling,
                Self::set_tofino_enabled(true),
            ),
            (PowerState::Active, PowerState::Standby) => self.begin(
                Pending::Disabling,
                Self::set_tofino_enabled(false),
            ),
            _ => Progress::Finished(self, Err(SeqError::IllegalTransition)),
        }
    }

    fn clock_progress(self, clock: ClockConfigLoader, step: ClockStep) -> (progress: Progress)
        ensures
            progress@ == self@.clock_progress((clock@, step)),
    {
        match step {
            ClockStep::Perform(action) => self.begin(Pending::WritingPacket(clock), action),
            ClockStep::Done => Progress::Finished(self, Ok(())),
            ClockStep::Failed { packet } => Progress::Finished(
                self,
                Err(SeqError::ClockConfigFailed { packet }),
            ),
        }
    }

    /// Begins the load of a clock configuration of `packets` packets. The
    /// first write that fails ends it with `ClockConfigFailed`, which names
    /// the packet; the packets after it are never handed out.
    pub fn load_clock_config(self, packets: usize) -> (progress: Progress)
        ensures
            progress@ == self@.load_clock_config(packets as nat),
    {
        let (clock, step) = ClockConfigLoader::load(packets);
        self.clock_progress(clock, step)
    }

    /// The notification bits that the server listens to.
    pub fn current_notification_mask(&self) -> (mask: u32)
        ensures
            mask == TIMER_MASK,
    {
        TIMER_MASK
    }

    /// The level to drive the status indicator to, given its level now.
    pub fn led_toggle(led_on: bool) -> (level: bool)
        ensures
            level == !led_on,
    {
        !led_on
    }

    /// Handles a timer notification, given the level of the status
    /// indicator: the deadline moves on by one interval, and the update says
    /// what to drive the indicator to and what to arm the timer with.
    pub fn handle_notification(&mut self, led_on: bool) -> (update: TimerUpdate)
        requires
            old(self)@.deadline + TIMER_INTERVAL <= u64::MAX,
        ensures
            (final(self)@, update) == old(self)@.handle_notification(led_on),
    {
        self.deadline = self.deadline + TIMER_INTERVAL;
        TimerUpdate {
            led_on: Self::led_toggle(led_on),
            deadline: self.deadline,
            mask: TIMER_MASK,
        }
    }
}

impl Operation {
    fn next(self, pending: Pending, action: Action) -> (progress: Progress)
        ensures
            progress@ == self@.next(pending@, action),
    {
        Progress::Perform(
            Operation { server: self.server, pending, retries: self.retries },
            action,
        )
    }

    fn after_phase(self, phase: u8) -> (progress: Progress)
        ensures
            progress@ == self@.after_phase(phase),
    {
        if phase >= PHASE_THRESHOLD {
            self.next(Pending::SamplingVid, Action::ReadRegister { register: Register::TofinoVid })
        } else if self.server.poll.permits(self.retries) {
            let ticks: u64 = self.server.poll.interval(PHASE_POLL_INTERVAL);
            let retries: u32 = self.server.poll.counted(self.retries);
            Progress::Perform(
                Operation { server: self.server, pending: Pending::WaitingPhase, retries },
                Action::Sleep { ticks },
            )
        } else {
            Progress::Finished(self.server, Err(SeqError::SequencerTimeout))
        }
    }

    fn get_tofino_vid(self, code: u8) -> (sampled: Operation)
        ensures
            sampled@ == self@.get_tofino_vid(code),
    {
        let server = ServerImpl {
            state: self.server.state,
            vid: Tofino2Vid::from_code(code),
            deadline: self.server.deadline,
            poll: self.server.poll,
        };
        Operation { server, pending: self.pending, retries: self.retries }
    }

    fn apply_vid(&self) -> (action: Action)
        requires
            self@.server.vid != Tofino2Vid::Invalid,
        ensures
            action == self@.apply_vid(),
    {
        match self.server.vid.millivolts() {
            Some(millivolts) => Action::SetVout { millivolts },
            None => unreached(),
        }
    }

    fn after_vid(self, code: u8) -> (progress: Progress)
        ensures
            progress@ == self@.after_vid(code),
    {
        let sampled = self.get_tofino_vid(code);
        if sampled.server.vid == Tofino2Vid::Invalid {
            sampled.next(Pending::RollingBack, ServerImpl::set_tofino_enabled(false))
        } else {
            let program = sampled.apply_vid();
            sampled.next(Pending::Programming, program)
        }
    }

    fn commit(self, state: PowerState) -> (progress: Progress)
        ensures
            progress@ == self@.commit(state),
    {
        Progress::Finished(
            ServerImpl {
                state,
                vid: self.server.vid,
                deadline: self.server.deadline,
                poll: self.server.poll,
            },
            Ok(()),
        )
    }

    /// Takes the response to the action handed out last and says what comes
    /// next, or how the operation ended.
    pub fn resume(self, response: Response) -> (progress: Progress)
        ensures
            progress@ == self@.resume(response),
    {
        match self.pending {
            Pending::Enabling | Pending::WaitingPhase => match response {
                Response::Ack => self.next(
                    Pending::ReadingPhase,
                    ServerImpl::get_tofino_seq_state(),
                ),
                _ => Progress::Halted,
            },
            Pending::ReadingPhase => match response {
                Response::Byte(phase) => self.after_phase(phase),
                _ => Progress::Halted,
            },
            Pending::SamplingVid => match response {
                Response::Byte(code) => self.after_vid(code),
                _ => Progress::Halted,
            },
            Pending::RollingBack => match response {
                Response::Ack => Progress::Finished(self.server, Err(SeqError::InvalidVid)),
                _ => Progress::Halted,
            },
            Pending::Programming => match response {
                Response::Ack => self.commit(PowerState::Active),
                _ => Progress::Halted,
            },
            Pending::Disabling => match response {
                Response::Ack => self.commit(PowerState::Standby),
                _ => Progress::Halted,
            },
            Pending::WritingPacket(mut clock) => {
                let step = clock.advance(response);
                self.server.clock_progress(clock, step)
            },
        }
    }
}

} // verus!
