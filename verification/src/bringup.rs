//! The bring-up of the sequencer FPGA at start-up: pins are made safe, the
//! rails that power the FPGA are switched on in order, and the FPGA is
//! loaded with its bitstream.
//!
//! The process may be a restart of one that did all this before. Nothing
//! that powers the FPGA is ever switched off on the way.

use vstd::prelude::*;
use crate::bitstream::{BitstreamLoader, FpgaDevice, LoadPhase, LoadStep, LoaderModel};
use crate::hw::{Action, Mode, PinSet, Pull, Response, RetryPolicy};
use crate::rail::{PowerRailSequencer, Rail, RailModel, RailPhase, RailStep};

verus! {

/// Time units between the last rail's power-good and the first use of the
/// FPGA: one for the rail that is chained off the last, ten for the FPGA
/// to come out of power-down.
pub const POST_RAIL_DELAY: u64 = 11;

/// A pin that has to be driven to a fixed level before the FPGA's
/// configuration port can be used.
#[derive(Copy, Clone, Debug, PartialEq, Eq, Structural)]
pub struct HackPin {
    pub pins: PinSet,
    pub high: bool,
}

/// What a board is made of, as far as the bring-up goes.
pub struct BoardConfig {
    /// The rails that power the FPGA, in the order in which they come up.
    pub rails: Vec<Rail>,
    /// The pull that the power-good inputs need.
    pub power_good_pull: Pull,
    /// The FPGA and its bitstream.
    pub fpga: FpgaDevice,
    /// Repeated reads of the ready signal at the end of a load.
    pub ready_polls: u32,
    /// Time units between two such reads.
    pub ready_interval: u64,
    /// The reset of the logic inside the FPGA, active low, where the board
    /// has one.
    pub global_reset: Option<PinSet>,
    /// The pins to fix before the configuration port is used.
    pub hack_pins: Vec<HackPin>,
}

/// The part of the bring-up that is under way.
#[derive(Copy, Clone, Debug, PartialEq, Eq, Structural)]
pub enum Stage {
    /// Pins are being made safe and the FPGA is being put into reset.
    Prelude,
    /// The rails are being switched on.
    Rails,
    /// The FPGA is settling and the board's fixed pins are being set up.
    Interlude,
    /// The bitstream is being loaded.
    Loading,
    /// The logic inside the FPGA is being let out of reset.
    Postlude,
    /// The FPGA is powered and programmed.
    Done,
    /// A hardware access failed; nothing more will be done.
    Halted,
}

/// What the bring-up wants next, or how it ended.
#[derive(Copy, Clone, Debug, PartialEq, Eq, Structural)]
pub enum BringUpStep {
    /// Perform this and hand the response to `advance`.
    Perform(Action),
    /// The FPGA is powered and programmed.
    Done,
    /// A hardware access failed, or a part of the bring-up gave up. This is
    /// fatal.
    Halt,
}

/// The actions that fix the pins of `hack_pins`: for each, its level, then
/// its mode.
pub open spec fn hack_script(hack_pins: Seq<HackPin>) -> Seq<Action> {
    Seq::new(
        2 * hack_pins.len(),
        |i: int|
            if i % 2 == 0 {
                Action::SetReset {
                    port: hack_pins[i / 2].pins.port,
                    set_mask: if hack_pins[i / 2].high {
                        hack_pins[i / 2].pins.pin_mask
                    } else {
                        0
                    },
                    clear_mask: if hack_pins[i / 2].high {
                        0
                    } else {
                        hack_pins[i / 2].pins.pin_mask
                    },
                }
            } else {
                Action::Configure {
                    pins: hack_pins[i / 2].pins,
                    mode: Mode::Output,
                    pull: Pull::Off,
                }
            },
    )
}

/// The actions that take over the reset of the FPGA's logic and assert it
/// for the load: the pin is driven high before it is made an output, so
/// that it does not glitch, and driven low after.
pub open spec fn reset_script(global_reset: Option<PinSet>) -> Seq<Action> {
    match global_reset {
        Some(pins) => seq![
            Action::SetReset { port: pins.port, set_mask: pins.pin_mask, clear_mask: 0 },
            Action::Configure { pins, mode: Mode::Output, pull: Pull::Off },
            Action::SetReset { port: pins.port, set_mask: 0, clear_mask: pins.pin_mask },
        ],
        None => Seq::empty(),
    }
}

/// What is done before the rails: the safe defaults of the chain, then the
/// FPGA's handshake pins are set up and its configuration reset is driven
/// low, so that it does not start to configure itself as power comes up.
pub open spec fn prelude_script(rails: RailModel, creset: PinSet, cdone: PinSet) -> Seq<Action> {
    rails.safe_defaults() + seq![
        Action::Configure { pins: creset, mode: Mode::Output, pull: Pull::Off },
        Action::Configure { pins: cdone, mode: Mode::Input, pull: Pull::Off },
        Action::SetReset { port: creset.port, set_mask: 0, clear_mask: creset.pin_mask },
    ]
}

/// What is done between the rails and the load.
pub open spec fn interlude_script(
    hack_pins: Seq<HackPin>,
    global_reset: Option<PinSet>,
) -> Seq<Action> {
    seq![Action::Sleep { ticks: POST_RAIL_DELAY }] + hack_script(hack_pins) + reset_script(
        global_reset,
    )
}

/// What is done after the load: the FPGA's logic is let out of reset.
pub open spec fn postlude_script(global_reset: Option<PinSet>) -> Seq<Action> {
    match global_reset {
        Some(pins) => seq![
            Action::SetReset { port: pins.port, set_mask: pins.pin_mask, clear_mask: 0 },
        ],
        None => Seq::empty(),
    }
}

/// The bring-up as a mathematical value.
pub struct BringUpModel {
    pub prelude: Seq<Action>,
    pub interlude: Seq<Action>,
    pub postlude: Seq<Action>,
    pub rails: RailModel,
    pub loader: LoaderModel,
    pub stage: Stage,
    /// The place in the script of the stage, where the stage has one.
    pub index: nat,
}

impl BringUpModel {
    /// The parts are well-formed, and the place in a script is one of it.
    pub open spec fn wf(self) -> bool {
        &&& self.rails.wf()
        &&& self.loader.wf()
        &&& self.prelude.len() > 0
        &&& self.interlude.len() > 0
        &&& self.stage == Stage::Prelude ==> self.index < self.prelude.len()
        &&& self.stage == Stage::Interlude ==> self.index < self.interlude.len()
        &&& self.stage == Stage::Postlude ==> self.index < self.postlude.len()
    }

    /// The script of the stage under way, where it has one.
    pub open spec fn script(self) -> Seq<Action> {
        match self.stage {
            Stage::Prelude => self.prelude,
            Stage::Interlude => self.interlude,
            Stage::Postlude => self.postlude,
            _ => Seq::empty(),
        }
    }

    /// The end of a bring-up that cannot go on.
    pub open spec fn halted(self) -> (BringUpModel, BringUpStep) {
        (BringUpModel { stage: Stage::Halted, ..self }, BringUpStep::Halt)
    }

    /// Everything before the first action: the rails and the loader are
    /// fresh, and both repeat without bound.
    pub open spec fn configured(
        rails: Seq<Rail>,
        power_good_pull: Pull,
        creset: PinSet,
        cdone: PinSet,
        bitstream: Seq<u8>,
        ready_polls: u32,
        ready_interval: u64,
        global_reset: Option<PinSet>,
        hack_pins: Seq<HackPin>,
    ) -> BringUpModel {
        let rails = RailModel::start(rails, power_good_pull, RetryPolicy::Unbounded);
        BringUpModel {
            prelude: prelude_script(rails, creset, cdone),
            interlude: interlude_script(hack_pins, global_reset),
            postlude: postlude_script(global_reset),
            rails,
            loader: LoaderModel::start(
                creset,
                cdone,
                bitstream,
                RetryPolicy::Unbounded,
                ready_polls,
                ready_interval,
            ),
            stage: Stage::Prelude,
            index: 0,
        }
    }

    /// Begins the prelude. Its script is never empty.
    pub open spec fn start(self) -> (BringUpModel, BringUpStep) {
        (
            BringUpModel { stage: Stage::Prelude, index: 0, ..self },
            BringUpStep::Perform(self.prelude[0]),
        )
    }

    /// Begins the next rail, or the interlude once every rail is good.
    pub open spec fn enter_rails(self) -> (BringUpModel, BringUpStep) {
        if self.rails.confirmed == self.rails.rails.len() {
            self.enter_interlude()
        } else {
            let out = self.rails.enable_rail_ordered(self.rails.confirmed);
            match out.1 {
                RailStep::Perform(action) => (
                    BringUpModel { stage: Stage::Rails, rails: out.0, ..self },
                    BringUpStep::Perform(action),
                ),
                _ => BringUpModel { rails: out.0, ..self }.halted(),
            }
        }
    }

    /// Begins the interlude. Its script is never empty.
    pub open spec fn enter_interlude(self) -> (BringUpModel, BringUpStep) {
        (
            BringUpModel { stage: Stage::Interlude, index: 0, ..self },
            BringUpStep::Perform(self.interlude[0]),
        )
    }

    /// Begins the load of the bitstream.
    pub open spec fn enter_loading(self) -> (BringUpModel, BringUpStep) {
        let out = self.loader.reprogram_fpga();
        match out.1 {
            LoadStep::Perform(action) => (
                BringUpModel { stage: Stage::Loading, loader: out.0, ..self },
                BringUpStep::Perform(action),
            ),
            _ => BringUpModel { loader: out.0, ..self }.halted(),
        }
    }

    /// Begins the postlude, or ends the bring-up where there is none.
    pub open spec fn enter_postlude(self) -> (BringUpModel, BringUpStep) {
        if self.postlude.len() > 0 {
            (
                BringUpModel { stage: Stage::Postlude, index: 0, ..self },
                BringUpStep::Perform(self.postlude[0]),
            )
        } else {
            (BringUpModel { stage: Stage::Done, ..self }, BringUpStep::Done)
        }
    }

    /// What follows the script of the stage under way.
    pub open spec fn leave_script(self) -> (BringUpModel, BringUpStep) {
        match self.stage {
            Stage::Prelude => self.enter_rails(),
            Stage::Interlude => self.enter_loading(),
            _ => (BringUpModel { stage: Stage::Done, ..self }, BringUpStep::Done),
        }
    }

    /// Takes the response to the action handed out last.
    pub open spec fn advance(self, response: Response) -> (BringUpModel, BringUpStep) {
        match self.stage {
            Stage::Done => (self, BringUpStep::Done),
            Stage::Halted => (self, BringUpStep::Halt),
            Stage::Prelude | Stage::Interlude | Stage::Postlude => if response != Response::Ack {
                self.halted()
            } else if self.index + 1 < self.script().len() {
                (
                    BringUpModel { index: self.index + 1, ..self },
                    BringUpStep::Perform(self.script()[self.index + 1 as int]),
                )
            } else {
                self.leave_script()
            },
            Stage::Rails => {
                let out = self.rails.advance(response);
                let next = BringUpModel { rails: out.0, ..self };
                match out.1 {
                    RailStep::Perform(action) => (next, BringUpStep::Perform(action)),
                    RailStep::PowerGood => next.enter_rails(),
                    _ => next.halted(),
                }
            },
            Stage::Loading => {
                let out = self.loader.advance(response);
                let next = BringUpModel { loader: out.0, ..self };
                match out.1 {
                    LoadStep::Perform(action) => (next, BringUpStep::Perform(action)),
                    LoadStep::Done => next.enter_postlude(),
                    _ => next.halted(),
                }
            },
        }
    }

    /// The bring-up after `advance` was called with each of `responses`, in
    /// order.
    pub open spec fn after(self, responses: Seq<Response>) -> BringUpModel
        decreases responses.len(),
    {
        if responses.len() == 0 {
            self
        } else {
            self.after(responses.drop_last()).advance(responses.last()).0
        }
    }

    /// Whether the rails are behind the bring-up.
    pub open spec fn past_rails(self) -> bool {
        match self.stage {
            Stage::Interlude | Stage::Loading | Stage::Postlude | Stage::Done => true,
            _ => false,
        }
    }
}

impl BringUpModel {
    /// The order that the bring-up keeps: the load is not begun before
    /// every rail of the chain is good, and the bring-up is not past the load
    /// before the FPGA has reported that it is configured.
    pub open spec fn ordered(self) -> bool {
        &&& self.wf()
        &&& self.past_rails() ==> self.rails.confirmed == self.rails.rails.len()
        &&& (self.stage == Stage::Prelude || self.stage == Stage::Rails || self.stage
            == Stage::Interlude) ==> self.loader.phase == LoadPhase::Idle
        &&& (self.stage == Stage::Postlude || self.stage == Stage::Done) ==> self.loader.phase
            == LoadPhase::Done
    }
}

/// No response takes the bring-up out of its order.
pub proof fn advance_keeps_order(m: BringUpModel, response: Response)
    requires
        m.ordered(),
    ensures
        m.advance(response).0.ordered(),
{
}

/// Whatever the hardware answers, the bring-up keeps its order from the
/// first action on: the bitstream is loaded only onto an FPGA whose rails
/// were all seen good, and the bring-up is done only once the FPGA has
/// reported that it is configured.
pub proof fn load_follows_rails(m: BringUpModel, responses: Seq<Response>)
    requires
        m.rails.wf(),
        m.rails.confirmed == 0,
        m.rails.phase == RailPhase::Idle,
        m.loader.wf(),
        m.loader.phase == LoadPhase::Idle,
        m.prelude.len() > 0,
        m.interlude.len() > 0,
    ensures
        m.start().0.after(responses).ordered(),
    decreases responses.len(),
{
    if responses.len() > 0 {
        load_follows_rails(m, responses.drop_last());
        advance_keeps_order(m.start().0.after(responses.drop_last()), responses.last());
    }
}

/// The bring-up of one board.
pub struct BringUp {
    prelude: Vec<Action>,
    interlude: Vec<Action>,
    postlude: Vec<Action>,
    rails: PowerRailSequencer,
    loader: BitstreamLoader,
    stage: Stage,
    index: usize,
}

impl View for BringUp {
    type V = BringUpModel;

    closed spec fn view(&self) -> BringUpModel {
        BringUpModel {
            prelude: self.prelude@,
            interlude: self.interlude@,
            postlude: self.postlude@,
            rails: self.rails@,
            loader: self.loader@,
            stage: self.stage,
            index: self.index as nat,
        }
    }
}

fn prelude(rails: &PowerRailSequencer, creset: PinSet, cdone: PinSet) -> (script: Vec<Action>)
    ensures
        script@ == prelude_script(rails@, creset, cdone),
{
    let mut script = rails.initialize_safe_defaults();
    script.push(Action::Configure { pins: creset, mode: Mode::Output, pull: Pull::Off });
    script.push(Action::Configure { pins: cdone, mode: Mode::Input, pull: Pull::Off });
    script.push(Action::SetReset { port: creset.port, set_mask: 0, clear_mask: creset.pin_mask });
    assert(script@ =~= prelude_script(rails@, creset, cdone));
    script
}

fn interlude(hack_pins: &Vec<HackPin>, global_reset: Option<PinSet>) -> (script: Vec<Action>)
    ensures
        script@ == interlude_script(hack_pins@, global_reset),
{
    let mut script: Vec<Action> = Vec::new();
    script.push(Action::Sleep { ticks: POST_RAIL_DELAY });
    let n: usize = hack_pins.len();
    let mut i: usize = 0;
    while i < n
        invariant
            n == hack_pins.len(),
            i <= n,
            script.len() == 1 + 2 * i,
            script[0] == (Action::Sleep { ticks: POST_RAIL_DELAY }),
            forall|k: int| 0 <= k < 2 * i ==> script[k + 1] == hack_script(hack_pins@)[k],
        decreases n - i,
    {
        let hack = hack_pins[i];
        script.push(
            Action::SetReset {
                port: hack.pins.port,
                set_mask: if hack.high {
                    hack.pins.pin_mask
                } else {
                    0
                },
                clear_mask: if hack.high {
                    0
                } else {
                    hack.pins.pin_mask
                },
            },
        );
        script.push(Action::Configure { pins: hack.pins, mode: Mode::Output, pull: Pull::Off });
        i += 1;
    }
    match global_reset {
        Some(pins) => {
            script.push(
                Action::SetReset { port: pins.port, set_mask: pins.pin_mask, clear_mask: 0 },
            );
            script.push(Action::Configure { pins, mode: Mode::Output, pull: Pull::Off });
            script.push(
                Action::SetReset { port: pins.port, set_mask: 0, clear_mask: pins.pin_mask },
            );
        },
        None => {},
    }
    assert(script@ =~= interlude_script(hack_pins@, global_reset));
    script
}

fn postlude(global_reset: Option<PinSet>) -> (script: Vec<Action>)
    ensures
        script@ == postlude_script(global_reset),
{
    let mut script: Vec<Action> = Vec::new();
    match global_reset {
        Some(pins) => {
            script.push(
                Action::SetReset { port: pins.port, set_mask: pins.pin_mask, clear_mask: 0 },
            );
        },
        None => {},
    }
    assert(script@ =~= postlude_script(global_reset));
    script
}

impl BringUp {
    #[verifier::type_invariant]
    spec fn inv(self) -> bool {
        &&& self.prelude.len() > 0
        &&& self.interlude.len() > 0
        &&& self.stage == Stage::Prelude ==> self.index < self.prelude.len()
        &&& self.stage == Stage::Interlude ==> self.index < self.interlude.len()
        &&& self.stage == Stage::Postlude ==> self.index < self.postlude.len()
    }

    /// Sets the bring-up of a board up and hands out its first action. The
    /// rails are watched, and the load is repeated, without bound.
    pub fn start(config: BoardConfig) -> (out: (Self, BringUpStep))
        ensures
            (out.0@, out.1) == BringUpModel::configured(
                config.rails@,
                config.power_good_pull,
                config.fpga.creset,
                config.fpga.cdone,
                config.fpga.bitstream@,
                config.ready_polls,
                config.ready_interval,
                config.global_reset,
                config.hack_pins@,
            ).start(),
    {
        let creset = config.fpga.creset;
        let cdone = config.fpga.cdone;
        let rails = PowerRailSequencer::new(
            config.rails,
            config.power_good_pull,
            RetryPolicy::Unbounded,
        );
        let prelude = prelude(&rails, creset, cdone);
        let interlude = interlude(&config.hack_pins, config.global_reset);
        let postlude = postlude(config.global_reset);
        let loader = BitstreamLoader::new(
            config.fpga,
            RetryPolicy::Unbounded,
            config.ready_polls,
            config.ready_interval,
        );
        let first = prelude[0];
        (
            BringUp { prelude, interlude, postlude, rails, loader, stage: Stage::Prelude, index: 0 },
            BringUpStep::Perform(first),
        )
    }

    /// The part of the bring-up that is under way.
    pub fn stage(&self) -> (stage: Stage)
        ensures
            stage == self@.stage,
    {
        self.stage
    }

    /// The loader, which holds the bitstream that a `WriteChunk` speaks of.
    pub fn loader(&self) -> (loader: &BitstreamLoader)
        ensures
            loader@ == self@.loader,
    {
        &self.loader
    }

    fn halt(&mut self) -> (step: BringUpStep)
        ensures
            (final(self)@, step) == old(self)@.halted(),
    {
        proof {
            use_type_invariant(&*self);
        }
        self.stage = Stage::Halted;
        BringUpStep::Halt
    }

    fn enter_rails(&mut self) -> (step: BringUpStep)
        ensures
            (final(self)@, step) == old(self)@.enter_rails(),
    {
        proof {
            use_type_invariant(&*self);
        }
        if self.rails.is_complete() {
            self.enter_interlude()
        } else {
            let next = self.rails.confirmed();
            match self.rails.enable_rail_ordered(next) {
                RailStep::Perform(action) => {
                    self.stage = Stage::Rails;
                    BringUpStep::Perform(action)
                },
                _ => self.halt(),
            }
        }
    }

    fn enter_interlude(&mut self) -> (step: BringUpStep)
        ensures
            (final(self)@, step) == old(self)@.enter_interlude(),
    {
        proof {
            use_type_invariant(&*self);
        }
        self.index = 0;
        self.stage = Stage::Interlude;
        BringUpStep::Perform(self.interlude[0])
    }

    fn enter_loading(&mut self) -> (step: BringUpStep)
        ensures
            (final(self)@, step) == old(self)@.enter_loading(),
    {
        proof {
            use_type_invariant(&*self);
        }
        match self.loader.reprogram_fpga() {
            LoadStep::Perform(action) => {
                self.stage = Stage::Loading;
                BringUpStep::Perform(action)
            },
            _ => self.halt(),
        }
    }

    fn enter_postlude(&mut self) -> (step: BringUpStep)
        ensures
            (final(self)@, step) == old(self)@.enter_postlude(),
    {
        proof {
            use_type_invariant(&*self);
        }
        if self.postlude.len() > 0 {
            self.index = 0;
            self.stage = Stage::Postlude;
            BringUpStep::Perform(self.postlude[0])
        } else {
            self.stage = Stage::Done;
            BringUpStep::Done
        }
    }

    /// Takes the response to the action handed out last and says what comes
    /// next. The rails come up in the chain's order, and the load begins
    /// only once the last of them is good.
    pub fn advance(&mut self, response: Response) -> (step: BringUpStep)
        ensures
            (final(self)@, step) == old(self)@.advance(response),
    {
        proof {
            use_type_invariant(&*self);
        }
        match self.stage {
            Stage::Done => BringUpStep::Done,
            Stage::Halted => BringUpStep::Halt,
            Stage::Prelude => match response {
                Response::Ack => {
                    if self.index + 1 < self.prelude.len() {
                        self.index = self.index + 1;
                        BringUpStep::Perform(self.prelude[self.index])
                    } else {
                        self.enter_rails()
                    }
                },
                _ => self.halt(),
            },
            Stage::Interlude => match response {
                Response::Ack => {
                    if self.index + 1 < self.interlude.len() {
                        self.index = self.index + 1;
                        BringUpStep::Perform(self.interlude[self.index])
                    } else {
                        self.enter_loading()
                    }
                },
                _ => self.halt(),
            },
            Stage::Postlude => match response {
                Response::Ack => {
                    if self.index + 1 < self.postlude.len() {
                        self.index = self.index + 1;
                        BringUpStep::Perform(self.postlude[self.index])
                    } else {
                        self.stage = Stage::Done;
                        BringUpStep::Done
                    }
                },
                _ => self.halt(),
            },
            Stage::Rails => match self.rails.advance(response) {
                RailStep::Perform(action) => BringUpStep::Perform(action),
                RailStep::PowerGood => self.enter_rails(),
                _ => self.halt(),
            },
            Stage::Loading => match self.loader.advance(response) {
                LoadStep::Perform(action) => BringUpStep::Perform(action),
                LoadStep::Done => self.enter_postlude(),
                _ => self.halt(),
            },
        }
    }
}

} // verus!
