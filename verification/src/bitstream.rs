//! Loading a configuration bitstream into an FPGA.
//!
//! One attempt is a triad: `begin` resets the device and opens its
//! configuration port, `continue_load` sends the image chunk by chunk, and
//! `finish` closes the port and waits for the device to report that it is
//! configured. An attempt that fails anywhere is abandoned: the bus is
//! released and the triad starts again from `begin`.

use vstd::prelude::*;
use crate::hw::{Action, PinSet, Response, RetryPolicy};

verus! {

/// The largest number of bytes sent in one chunk.
pub const CHUNK_SIZE: usize = 512;

/// Where a load stands, in the large.
#[derive(Copy, Clone, Debug, PartialEq, Eq, Structural)]
pub enum LoaderState {
    Idle,
    Loading,
    Done,
    Failed,
}

/// Where a load stands, action by action.
#[derive(Copy, Clone, Debug, PartialEq, Eq, Structural)]
pub enum LoadPhase {
    /// Nothing was started yet.
    Idle,
    /// `begin`: the configuration reset is being asserted.
    AssertingReset,
    /// `begin`: the ready signal is being read; it must be low.
    ProbingReset,
    /// `begin`: the configuration reset is being released.
    ReleasingReset,
    /// `begin`: the bus device is being put into configuration mode.
    EnteringConfig,
    /// `continue_load`: a chunk is being written.
    Writing,
    /// `finish`: the bus device is being taken out of configuration mode.
    LeavingConfig,
    /// `finish`: the ready signal is being read; it must be high.
    ProbingReady,
    /// `finish`: the delay between two reads of the ready signal is running.
    WaitingReady,
    /// The attempt failed and the bus is being released.
    Releasing,
    /// The delay before the next attempt is running.
    BackingOff,
    /// The device reported that it is configured.
    Done,
    /// The retry policy is used up.
    Failed,
}

/// What the loader wants next, or how the load ended.
#[derive(Copy, Clone, Debug, PartialEq, Eq, Structural)]
pub enum LoadStep {
    /// Perform this and hand the response to `advance`.
    Perform(Action),
    /// The device is configured.
    Done,
    /// Every attempt that the retry policy allows ended in a configuration
    /// sequence error. An unbounded policy never gets here.
    Failed,
    /// No load was started.
    NotStarted,
    /// A load is under way and is not cut short; nothing was done.
    Busy,
}

/// The end of the chunk that starts at `sent`, in an image of `len` bytes.
pub open spec fn chunk_end(len: nat, sent: nat) -> nat {
    if len - sent > CHUNK_SIZE {
        sent + CHUNK_SIZE as nat
    } else {
        len
    }
}

/// The loader as a mathematical value.
pub struct LoaderModel {
    /// The configuration-reset output of the device, active low.
    pub creset: PinSet,
    /// The ready input of the device, high once it is configured.
    pub cdone: PinSet,
    /// The image to load.
    pub bitstream: Seq<u8>,
    /// How often a failed attempt is repeated.
    pub retry: RetryPolicy,
    /// How often `finish` reads the ready signal again after the first read.
    pub ready_polls: u32,
    /// Time units between two such reads.
    pub ready_interval: u64,
    pub phase: LoadPhase,
    /// Bytes handed out in this attempt.
    pub sent: nat,
    /// Repeated reads of the ready signal in this attempt.
    pub polls: u32,
    /// Attempts repeated so far, under a bounded policy.
    pub attempts: u32,
}

impl LoaderModel {
    /// No more was handed out than the image holds, and the image can be
    /// held in memory.
    pub open spec fn wf(self) -> bool {
        self.sent <= self.bitstream.len() <= usize::MAX
    }

    /// Where the load stands, in the large.
    pub open spec fn state(self) -> LoaderState {
        match self.phase {
            LoadPhase::Idle => LoaderState::Idle,
            LoadPhase::Done => LoaderState::Done,
            LoadPhase::Failed => LoaderState::Failed,
            _ => LoaderState::Loading,
        }
    }

    /// A fresh loader: nothing was started.
    pub open spec fn start(
        creset: PinSet,
        cdone: PinSet,
        bitstream: Seq<u8>,
        retry: RetryPolicy,
        ready_polls: u32,
        ready_interval: u64,
    ) -> LoaderModel {
        LoaderModel {
            creset,
            cdone,
            bitstream,
            retry,
            ready_polls,
            ready_interval,
            phase: LoadPhase::Idle,
            sent: 0,
            polls: 0,
            attempts: 0,
        }
    }

    /// Whether `response` is a read that shows the ready signal at `high`.
    pub open spec fn shows_ready(self, response: Response, high: bool) -> bool {
        response matches Response::Input(bits) && (bits & self.cdone.pin_mask != 0) == high
    }

    /// Starts a load from the top, unless one is under way.
    pub open spec fn reprogram_fpga(self) -> (LoaderModel, LoadStep) {
        if self.state() == LoaderState::Loading {
            (self, LoadStep::Busy)
        } else {
            LoaderModel { attempts: 0, ..self }.begin()
        }
    }

    /// Opens an attempt: nothing is sent yet, and the device is put into
    /// configuration reset.
    pub open spec fn begin(self) -> (LoaderModel, LoadStep) {
        (
            LoaderModel { phase: LoadPhase::AssertingReset, sent: 0, polls: 0, ..self },
            LoadStep::Perform(
                Action::SetReset {
                    port: self.creset.port,
                    set_mask: 0,
                    clear_mask: self.creset.pin_mask,
                },
            ),
        )
    }

    /// Hands out the next chunk, in order and without gaps, or moves on to
    /// `finish` once the whole image has been handed out.
    pub open spec fn continue_load(self) -> (LoaderModel, LoadStep) {
        if self.sent < self.bitstream.len() {
            (
                LoaderModel {
                    phase: LoadPhase::Writing,
                    sent: chunk_end(self.bitstream.len(), self.sent),
                    ..self
                },
                LoadStep::Perform(
                    Action::WriteChunk {
                        start: self.sent as usize,
                        end: chunk_end(self.bitstream.len(), self.sent) as usize,
                    },
                ),
            )
        } else {
            self.finish()
        }
    }

    /// Closes the configuration port; the ready signal is read next.
    pub open spec fn finish(self) -> (LoaderModel, LoadStep) {
        (
            LoaderModel { phase: LoadPhase::LeavingConfig, polls: 0, ..self },
            LoadStep::Perform(Action::LeaveConfigMode),
        )
    }

    /// Abandons the attempt: the bus is released before anything else.
    pub open spec fn fail(self) -> (LoaderModel, LoadStep) {
        (LoaderModel { phase: LoadPhase::Releasing, ..self }, LoadStep::Perform(Action::ReleaseBus))
    }

    /// What follows the release of the bus: the next attempt, at once or
    /// after the policy's interval, or the end.
    pub open spec fn retry_or_stop(self) -> (LoaderModel, LoadStep) {
        match self.retry {
            RetryPolicy::Unbounded => self.begin(),
            RetryPolicy::Bounded { count, interval } => if self.attempts < count {
                (
                    LoaderModel {
                        phase: LoadPhase::BackingOff,
                        attempts: (self.attempts + 1) as u32,
                        ..self
                    },
                    LoadStep::Perform(Action::Sleep { ticks: interval }),
                )
            } else {
                (LoaderModel { phase: LoadPhase::Failed, ..self }, LoadStep::Failed)
            },
        }
    }

    /// Takes the response to the action handed out last.
    pub open spec fn advance(self, response: Response) -> (LoaderModel, LoadStep) {
        match self.phase {
            LoadPhase::Idle => (self, LoadStep::NotStarted),
            LoadPhase::Done => (self, LoadStep::Done),
            LoadPhase::Failed => (self, LoadStep::Failed),
            LoadPhase::AssertingReset => if response == Response::Ack {
                (
                    LoaderModel { phase: LoadPhase::ProbingReset, ..self },
                    LoadStep::Perform(Action::ReadInput { port: self.cdone.port }),
                )
            } else {
                self.fail()
            },
            LoadPhase::ProbingReset => if self.shows_ready(response, false) {
                (
                    LoaderModel { phase: LoadPhase::ReleasingReset, ..self },
                    LoadStep::Perform(
                        Action::SetReset {
                            port: self.creset.port,
                            set_mask: self.creset.pin_mask,
                            clear_mask: 0,
                        },
                    ),
                )
            } else {
                self.fail()
            },
            LoadPhase::ReleasingReset => if response == Response::Ack {
                (
                    LoaderModel { phase: LoadPhase::EnteringConfig, ..self },
                    LoadStep::Perform(Action::EnterConfigMode),
                )
            } else {
                self.fail()
            },
            LoadPhase::EnteringConfig | LoadPhase::Writing => if response == Response::Ack {
                self.continue_load()
            } else {
                self.fail()
            },
            LoadPhase::LeavingConfig | LoadPhase::WaitingReady => if response == Response::Ack {
                (
                    LoaderModel { phase: LoadPhase::ProbingReady, ..self },
                    LoadStep::Perform(Action::ReadInput { port: self.cdone.port }),
                )
            } else {
                self.fail()
            },
            LoadPhase::ProbingReady => if self.shows_ready(response, true) {
                (LoaderModel { phase: LoadPhase::Done, ..self }, LoadStep::Done)
            } else if response is Input && self.polls < self.ready_polls {
                (
                    LoaderModel {
                        phase: LoadPhase::WaitingReady,
                        polls: (self.polls + 1) as u32,
                        ..self
                    },
                    LoadStep::Perform(Action::Sleep { ticks: self.ready_interval }),
                )
            } else {
                self.fail()
            },
            LoadPhase::Releasing => self.retry_or_stop(),
            LoadPhase::BackingOff => if response == Response::Ack {
                self.begin()
            } else {
                self.fail()
            },
        }
    }
}

impl LoaderModel {
    /// The loader after `advance` was called with each of `responses`, in
    /// order.
    pub open spec fn after(self, responses: Seq<Response>) -> LoaderModel
        decreases responses.len(),
    {
        if responses.len() == 0 {
            self
        } else {
            self.after(responses.drop_last()).advance(responses.last()).0
        }
    }

    /// What those calls of `advance` returned, in order.
    pub open spec fn steps(self, responses: Seq<Response>) -> Seq<LoadStep>
        decreases responses.len(),
    {
        if responses.len() == 0 {
            Seq::empty()
        } else {
            self.steps(responses.drop_last()).push(
                self.after(responses.drop_last()).advance(responses.last()).1,
            )
        }
    }

    /// Whether an attempt is under way that has not failed.
    pub open spec fn in_attempt(self) -> bool {
        match self.phase {
            LoadPhase::Idle | LoadPhase::Releasing | LoadPhase::BackingOff | LoadPhase::Failed => false,
            _ => true,
        }
    }

    /// Whether the whole image has been handed out in this attempt.
    pub open spec fn image_sent(self) -> bool {
        match self.phase {
            LoadPhase::LeavingConfig
            | LoadPhase::ProbingReady
            | LoadPhase::WaitingReady
            | LoadPhase::Done => true,
            _ => false,
        }
    }
}

/// The bytes that the chunks among `steps` hold, chunk after chunk in the
/// order they were handed out, counted from the last release of the bus:
/// what the device has been sent in the attempt under way.
pub open spec fn delivered(bitstream: Seq<u8>, steps: Seq<LoadStep>) -> Seq<u8>
    decreases steps.len(),
{
    if steps.len() == 0 {
        Seq::empty()
    } else {
        let before = delivered(bitstream, steps.drop_last());
        match steps.last() {
            LoadStep::Perform(Action::WriteChunk { start, end }) => before + bitstream.subrange(
                start as int,
                end as int,
            ),
            LoadStep::Perform(Action::ReleaseBus) => Seq::empty(),
            _ => before,
        }
    }
}

/// A chunk is never empty and never longer than `CHUNK_SIZE`; only the one
/// that ends the image may be shorter. It starts where the one before it
/// ended.
pub proof fn chunks_are_bounded(m: LoaderModel)
    requires
        m.wf(),
    ensures
        m.continue_load().1 matches LoadStep::Perform(Action::WriteChunk { start, end }) ==> {
            &&& start == m.sent
            &&& end == m.continue_load().0.sent
            &&& 0 < end - start <= CHUNK_SIZE
            &&& end <= m.bitstream.len()
            &&& end - start < CHUNK_SIZE ==> end == m.bitstream.len()
        },
        m.continue_load().1 matches LoadStep::Perform(action) ==> (action is WriteChunk
            || action == Action::LeaveConfigMode),
        m.continue_load().1 == LoadStep::Perform(Action::LeaveConfigMode) ==> m.sent
            == m.bitstream.len(),
{
}

/// While an attempt is under way, what was delivered in it is the image up
/// to the byte count the loader keeps; once the loader goes on to finish,
/// that is the whole image.
proof fn delivered_tracks_sent(m0: LoaderModel, responses: Seq<Response>)
    requires
        m0.wf(),
        m0.state() != LoaderState::Loading,
    ensures
        ({
            let first = m0.reprogram_fpga();
            let m = first.0.after(responses);
            let steps = seq![first.1] + first.0.steps(responses);
            &&& m.wf()
            &&& m.bitstream == m0.bitstream
            &&& m.phase != LoadPhase::Idle
            &&& m.in_attempt() ==> delivered(m.bitstream, steps) == m.bitstream.take(m.sent as int)
            &&& m.image_sent() ==> m.sent == m.bitstream.len()
            &&& (m.phase == LoadPhase::Releasing || m.phase == LoadPhase::BackingOff)
                ==> delivered(m.bitstream, steps) == Seq::<u8>::empty()
        }),
    decreases responses.len(),
{
    let first = m0.reprogram_fpga();
    let image = m0.bitstream;
    if responses.len() == 0 {
        let steps = seq![first.1] + first.0.steps(responses);
        assert(steps =~= seq![first.1]);
        assert(steps.drop_last() =~= Seq::<LoadStep>::empty());
        assert(delivered(image, steps.drop_last()) =~= Seq::<u8>::empty());
        assert(delivered(image, steps) =~= image.take(0));
    } else {
        let earlier = responses.drop_last();
        delivered_tracks_sent(m0, earlier);
        let before = first.0.after(earlier);
        let steps_before = seq![first.1] + first.0.steps(earlier);
        let out = before.advance(responses.last());
        let steps = seq![first.1] + first.0.steps(responses);
        assert(steps =~= steps_before.push(out.1));
        assert(steps.drop_last() =~= steps_before);
        chunks_are_bounded(before);
        if let LoadStep::Perform(Action::WriteChunk { start, end }) = out.1 {
            assert(before.in_attempt());
            assert(image.take(start as int) + image.subrange(start as int, end as int)
                =~= image.take(end as int));
        } else if out.0.in_attempt() {
            if before.in_attempt() {
                assert(out.0.sent == before.sent);
            } else {
                assert(out.0.sent == 0);
                assert(out.1 is Perform);
                assert(delivered(image, steps) =~= image.take(0));
            }
        }
    }
}

/// Concatenated in the order they were handed out, the chunks of an attempt
/// that reached the end are the image, byte for byte, whatever its length
/// and however many attempts failed before.
pub proof fn chunks_reassemble_bitstream(m0: LoaderModel, responses: Seq<Response>)
    requires
        m0.wf(),
        m0.state() != LoaderState::Loading,
        m0.reprogram_fpga().0.after(responses).image_sent(),
    ensures
        delivered(
            m0.bitstream,
            seq![m0.reprogram_fpga().1] + m0.reprogram_fpga().0.steps(responses),
        ) == m0.bitstream,
{
    delivered_tracks_sent(m0, responses);
    assert(m0.bitstream.take(m0.bitstream.len() as int) =~= m0.bitstream);
}

/// The image and the device's pins are never changed, nor is the policy.
pub proof fn device_is_never_changed(m: LoaderModel, response: Response)
    ensures
        m.advance(response).0.bitstream == m.bitstream,
        m.advance(response).0.creset == m.creset,
        m.advance(response).0.cdone == m.cdone,
        m.advance(response).0.retry == m.retry,
        m.reprogram_fpga().0.bitstream == m.bitstream,
        m.reprogram_fpga().0.creset == m.creset,
        m.reprogram_fpga().0.cdone == m.cdone,
        m.reprogram_fpga().0.retry == m.retry,
{
}

/// Under an unbounded policy a load never ends in failure: every failed
/// attempt is followed by another.
pub proof fn unbounded_never_fails(m: LoaderModel, response: Response)
    requires
        m.retry == RetryPolicy::Unbounded,
        m.phase != LoadPhase::Failed,
    ensures
        m.advance(response).0.phase != LoadPhase::Failed,
        m.advance(response).1 != LoadStep::Failed,
        m.reprogram_fpga().0.phase != LoadPhase::Failed,
{
}

/// An FPGA as the loader sees it: its two handshake lines and its image.
pub struct FpgaDevice {
    /// The configuration-reset output, active low.
    pub creset: PinSet,
    /// The ready input, high once the device is configured.
    pub cdone: PinSet,
    /// The image; it is never changed.
    pub bitstream: Vec<u8>,
}

/// Loads the bitstream of one device, again and again until it takes.
pub struct BitstreamLoader {
    device: FpgaDevice,
    retry: RetryPolicy,
    ready_polls: u32,
    ready_interval: u64,
    phase: LoadPhase,
    sent: usize,
    polls: u32,
    attempts: u32,
}

impl View for BitstreamLoader {
    type V = LoaderModel;

    closed spec fn view(&self) -> LoaderModel {
        LoaderModel {
            creset: self.device.creset,
            cdone: self.device.cdone,
            bitstream: self.device.bitstream@,
            retry: self.retry,
            ready_polls: self.ready_polls,
            ready_interval: self.ready_interval,
            phase: self.phase,
            sent: self.sent as nat,
            polls: self.polls,
            attempts: self.attempts,
        }
    }
}

impl BitstreamLoader {
    #[verifier::type_invariant]
    spec fn inv(self) -> bool {
        self@.wf()
    }

    /// A loader for `device`. A failed attempt is repeated as `retry` allows;
    /// `finish` reads the ready signal once and then up to `ready_polls`
    /// times more, `ready_interval` time units apart.
    pub fn new(device: FpgaDevice, retry: RetryPolicy, ready_polls: u32, ready_interval: u64) -> (l:
        Self)
        ensures
            l@ == LoaderModel::start(
                device.creset,
                device.cdone,
                device.bitstream@,
                retry,
                ready_polls,
                ready_interval,
            ),
    {
        assert(device.bitstream@.len() == device.bitstream.len());
        BitstreamLoader {
            device,
            retry,
            ready_polls,
            ready_interval,
            phase: LoadPhase::Idle,
            sent: 0,
            polls: 0,
            attempts: 0,
        }
    }

    /// Where the load stands, in the large.
    pub fn state(&self) -> (state: LoaderState)
        ensures
            state == self@.state(),
    {
        match self.phase {
            LoadPhase::Idle => LoaderState::Idle,
            LoadPhase::Done => LoaderState::Done,
            LoadPhase::Failed => LoaderState::Failed,
            _ => LoaderState::Loading,
        }
    }

    /// The image that is loaded.
    pub fn bitstream(&self) -> (bytes: &Vec<u8>)
        ensures
            bytes@ == self@.bitstream,
    {
        &self.device.bitstream
    }

    /// Starts a load from the top and hands out its first action. A load
    /// that is under way runs to its end: the request is then answered with
    /// `Busy` and changes nothing.
    pub fn reprogram_fpga(&mut self) -> (step: LoadStep)
        ensures
            (final(self)@, step) == old(self)@.reprogram_fpga(),
        no_unwind
    {
        proof {
            use_type_invariant(&*self);
        }
        match self.phase {
            LoadPhase::Idle | LoadPhase::Done | LoadPhase::Failed => {
                self.attempts = 0;
                self.begin()
            },
            _ => LoadStep::Busy,
        }
    }

    fn begin(&mut self) -> (step: LoadStep)
        ensures
            (final(self)@, step) == old(self)@.begin(),
        no_unwind
    {
        proof {
            use_type_invariant(&*self);
        }
        self.sent = 0;
        self.polls = 0;
        self.phase = LoadPhase::AssertingReset;
        LoadStep::Perform(
            Action::SetReset {
                port: self.device.creset.port,
                set_mask: 0,
                clear_mask: self.device.creset.pin_mask,
            },
        )
    }

    fn continue_load(&mut self) -> (step: LoadStep)
        ensures
            (final(self)@, step) == old(self)@.continue_load(),
        no_unwind
    {
        proof {
            use_type_invariant(&*self);
        }
        let len: usize = self.device.bitstream.len();
        if self.sent < len {
            let start: usize = self.sent;
            let end: usize = if len - start > CHUNK_SIZE {
                start + CHUNK_SIZE
            } else {
                len
            };
            self.sent = end;
            self.phase = LoadPhase::Writing;
            LoadStep::Perform(Action::WriteChunk { start, end })
        } else {
            self.finish()
        }
    }

    fn finish(&mut self) -> (step: LoadStep)
        ensures
            (final(self)@, step) == old(self)@.finish(),
        no_unwind
    {
        proof {
            use_type_invariant(&*self);
        }
        self.polls = 0;
        self.phase = LoadPhase::LeavingConfig;
        LoadStep::Perform(Action::LeaveConfigMode)
    }

    fn fail(&mut self) -> (step: LoadStep)
        ensures
            (final(self)@, step) == old(self)@.fail(),
        no_unwind
    {
        proof {
            use_type_invariant(&*self);
        }
        self.phase = LoadPhase::Releasing;
        LoadStep::Perform(Action::ReleaseBus)
    }

    fn retry_or_stop(&mut self) -> (step: LoadStep)
        ensures
            (final(self)@, step) == old(self)@.retry_or_stop(),
        no_unwind
    {
        proof {
            use_type_invariant(&*self);
        }
        match self.retry {
            RetryPolicy::Unbounded => self.begin(),
            RetryPolicy::Bounded { count, interval } => {
                if self.attempts < count {
                    self.attempts = self.attempts + 1;
                    self.phase = LoadPhase::BackingOff;
                    LoadStep::Perform(Action::Sleep { ticks: interval })
                } else {
                    self.phase = LoadPhase::Failed;
                    LoadStep::Failed
                }
            },
        }
    }

    /// Takes the response to the action handed out last and says what comes
    /// next. A failure anywhere in an attempt leads to the release of the
    /// bus; whatever the release answers, the next attempt starts from the
    /// top, as long as the retry policy allows one.
    pub fn advance(&mut self, response: Response) -> (step: LoadStep)
        ensures
            (final(self)@, step) == old(self)@.advance(response),
        no_unwind
    {
        proof {
            use_type_invariant(&*self);
        }
        match self.phase {
            LoadPhase::Idle => LoadStep::NotStarted,
            LoadPhase::Done => LoadStep::Done,
            LoadPhase::Failed => LoadStep::Failed,
            LoadPhase::AssertingReset => match response {
                Response::Ack => {
                    self.phase = LoadPhase::ProbingReset;
                    LoadStep::Perform(Action::ReadInput { port: self.device.cdone.port })
                },
                _ => self.fail(),
            },
            LoadPhase::ProbingReset => match response {
                Response::Input(bits) => {
                    if bits & self.device.cdone.pin_mask == 0 {
                        self.phase = LoadPhase::ReleasingReset;
                        LoadStep::Perform(
                            Action::SetReset {
                                port: self.device.creset.port,
                                set_mask: self.device.creset.pin_mask,
                                clear_mask: 0,
                            },
                        )
                    } else {
                        self.fail()
                    }
                },
                _ => self.fail(),
            },
            LoadPhase::ReleasingReset => match response {
                Response::Ack => {
                    self.phase = LoadPhase::EnteringConfig;
                    LoadStep::Perform(Action::EnterConfigMode)
                },
                _ => self.fail(),
            },
            LoadPhase::EnteringConfig | LoadPhase::Writing => match response {
                Response::Ack => self.continue_load(),
                _ => self.fail(),
            },
            LoadPhase::LeavingConfig | LoadPhase::WaitingReady => match response {
                Response::Ack => {
                    self.phase = LoadPhase::ProbingReady;
                    LoadStep::Perform(Action::ReadInput { port: self.device.cdone.port })
                },
                _ => self.fail(),
            },
            LoadPhase::ProbingReady => match response {
                Response::Input(bits) => {
                    if bits & self.device.cdone.pin_mask != 0 {
                        self.phase = LoadPhase::Done;
                        LoadStep::Done
                    } else if self.polls < self.ready_polls {
                        self.polls = self.polls + 1;
                        self.phase = LoadPhase::WaitingReady;
                        LoadStep::Perform(Action::Sleep { ticks: self.ready_interval })
                    } else {
                        self.fail()
                    }
                },
                _ => self.fail(),
            },
            LoadPhase::Releasing => self.retry_or_stop(),
            LoadPhase::BackingOff => match response {
                Response::Ack => self.begin(),
                _ => self.fail(),
            },
        }
    }
}

} // verus!
