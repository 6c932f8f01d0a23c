//! Writing a multi-packet configuration to the clock generator.
//!
//! The packets are written in order. The first write that fails ends the
//! load: no later packet is attempted and nothing is retried.

use vstd::prelude::*;
use crate::hw::{Action, Response};

verus! {

/// Where a clock configuration load stands.
#[derive(Copy, Clone, Debug, PartialEq, Eq, Structural)]
pub enum ClockPhase {
    /// The packet at `next` is being written.
    Writing,
    /// Every packet was written.
    Done,
    /// The write of the packet at `next` failed.
    Failed,
}

/// What the loader wants next, or how the load ended.
#[derive(Copy, Clone, Debug, PartialEq, Eq, Structural)]
pub enum ClockStep {
    /// Perform this write and hand the response to `advance`.
    Perform(Action),
    /// Every packet was written.
    Done,
    /// The write of the packet at this index failed; the packets after it
    /// were not attempted. Indices count from zero.
    Failed { packet: usize },
}

/// The loader as a mathematical value.
pub struct ClockModel {
    /// The number of packets in the payload.
    pub packets: nat,
    /// The index of the packet in work; the packets before it are written.
    pub next: nat,
    pub phase: ClockPhase,
}

impl ClockModel {
    /// The packet in work is one of the payload.
    pub open spec fn wf(self) -> bool {
        &&& self.next <= self.packets
        &&& self.phase != ClockPhase::Done ==> self.next < self.packets
    }

    /// Hands out the write of the packet at `next`, or ends the load when
    /// there is none left.
    pub open spec fn write_next(self) -> (ClockModel, ClockStep) {
        if self.next < self.packets {
            (
                ClockModel { phase: ClockPhase::Writing, ..self },
                ClockStep::Perform(Action::WritePacket { index: self.next as usize }),
            )
        } else {
            (ClockModel { phase: ClockPhase::Done, ..self }, ClockStep::Done)
        }
    }

    /// Starts the load of a payload of `packets` packets.
    pub open spec fn load(packets: nat) -> (ClockModel, ClockStep) {
        ClockModel { packets, next: 0, phase: ClockPhase::Writing }.write_next()
    }

    /// Takes the response to the write handed out last: an `Ack` moves on to
    /// the next packet, anything else ends the load at this one.
    pub open spec fn advance(self, response: Response) -> (ClockModel, ClockStep) {
        match self.phase {
            ClockPhase::Done => (self, ClockStep::Done),
            ClockPhase::Failed => (self, ClockStep::Failed { packet: self.next as usize }),
            ClockPhase::Writing => if response == Response::Ack {
                ClockModel { next: self.next + 1, ..self }.write_next()
            } else {
                (
                    ClockModel { phase: ClockPhase::Failed, ..self },
                    ClockStep::Failed { packet: self.next as usize },
                )
            },
        }
    }
}

impl ClockModel {
    /// The loader after `advance` was called with each of `responses`, in
    /// order.
    pub open spec fn after(self, responses: Seq<Response>) -> ClockModel
        decreases responses.len(),
    {
        if responses.len() == 0 {
            self
        } else {
            self.after(responses.drop_last()).advance(responses.last()).0
        }
    }

    /// What those calls of `advance` returned, in order.
    pub open spec fn steps(self, responses: Seq<Response>) -> Seq<ClockStep>
        decreases responses.len(),
    {
        if responses.len() == 0 {
            Seq::empty()
        } else {
            self.steps(responses.drop_last()).push(
                self.after(responses.drop_last()).advance(responses.last()).1,
            )
        }
    }
}

/// `n` acknowledgements in a row.
pub open spec fn acks(n: nat) -> Seq<Response> {
    Seq::new(n, |i: int| Response::Ack)
}

/// As long as every write is acknowledged, the packets are handed out one
/// by one in their order: after `written` acknowledgements the packet at
/// that index is in work.
pub proof fn acknowledged_writes_go_in_order(packets: nat, written: nat)
    requires
        written < packets <= usize::MAX,
    ensures
        ClockModel::load(packets).0.after(acks(written)) == (ClockModel {
            packets,
            next: written,
            phase: ClockPhase::Writing,
        }),
        ClockModel::load(packets).1 == ClockStep::Perform(Action::WritePacket { index: 0 }),
        ClockModel::load(packets).0.steps(acks(written)).len() == written,
        forall|i: int|
            0 <= i < written ==> ClockModel::load(packets).0.steps(acks(written))[i]
                == ClockStep::Perform(Action::WritePacket { index: (i + 1) as usize }),
    decreases written,
{
    if written > 0 {
        acknowledged_writes_go_in_order(packets, (written - 1) as nat);
        assert(acks(written).drop_last() =~= acks((written - 1) as nat));
    }
}

/// Once a load has failed it stays failed: whatever is handed to it, it
/// names the same packet and hands out no further write.
pub proof fn failure_is_final(m: ClockModel, later: Seq<Response>)
    requires
        m.phase == ClockPhase::Failed,
    ensures
        m.after(later) == m,
        m.steps(later).len() == later.len(),
        forall|i: int|
            0 <= i < later.len() ==> m.steps(later)[i] == (ClockStep::Failed {
                packet: m.next as usize,
            }),
    decreases later.len(),
{
    if later.len() > 0 {
        failure_is_final(m, later.drop_last());
    }
}

proof fn steps_of_concatenation(m: ClockModel, first: Seq<Response>, second: Seq<Response>)
    ensures
        m.after(first + second) == m.after(first).after(second),
        m.steps(first + second) == m.steps(first) + m.after(first).steps(second),
    decreases second.len(),
{
    if second.len() == 0 {
        assert(first + second =~= first);
        assert(m.steps(first) + m.after(first).steps(second) =~= m.steps(first));
    } else {
        steps_of_concatenation(m, first, second.drop_last());
        assert((first + second).drop_last() =~= first + second.drop_last());
        assert(m.steps(first + second) =~= m.steps(first) + m.after(first).steps(second));
    }
}

/// Where the write of the packet at `failing` is the first that is not
/// acknowledged, the packets up to and including it are attempted, in
/// order; the load then ends naming that packet, and whatever follows, no
/// later packet is ever attempted.
pub proof fn first_failure_ends_load(
    packets: nat,
    failing: nat,
    fault: Response,
    later: Seq<Response>,
)
    requires
        failing < packets <= usize::MAX,
        fault != Response::Ack,
    ensures
        ({
            let load = ClockModel::load(packets);
            let steps = seq![load.1] + load.0.steps(acks(failing).push(fault) + later);
            &&& steps.len() == failing + 2 + later.len()
            &&& forall|i: int|
                0 <= i <= failing ==> steps[i] == ClockStep::Perform(
                    Action::WritePacket { index: i as usize },
                )
            &&& forall|i: int|
                failing < i < steps.len() ==> steps[i] == (ClockStep::Failed {
                    packet: failing as usize,
                })
        }),
{
    let load = ClockModel::load(packets);
    let head = acks(failing).push(fault);
    acknowledged_writes_go_in_order(packets, failing);
    assert(head.drop_last() =~= acks(failing));
    let failed = load.0.after(head);
    assert(failed == ClockModel { packets, next: failing, phase: ClockPhase::Failed });
    failure_is_final(failed, later);
    steps_of_concatenation(load.0, head, later);
    let steps = seq![load.1] + load.0.steps(head + later);
    assert(load.0.steps(head) =~= load.0.steps(acks(failing)).push(
        ClockStep::Failed { packet: failing as usize },
    ));
    assert forall|i: int| 0 <= i <= failing implies steps[i] == ClockStep::Perform(
        Action::WritePacket { index: i as usize },
    ) by {
        if i > 0 {
            assert(steps[i] == load.0.steps(acks(failing))[i - 1]);
        }
    }
    assert forall|i: int| failing < i < steps.len() implies steps[i] == (ClockStep::Failed {
        packet: failing as usize,
    }) by {
        if i > failing + 1 {
            assert(steps[i] == failed.steps(later)[i - failing - 2]);
        }
    }
}

/// Writes the packets of a clock configuration payload, one after another.
/// The packets themselves stay with the caller; the loader names them by
/// their place in the payload.
pub struct ClockConfigLoader {
    packets: usize,
    next: usize,
    phase: ClockPhase,
}

impl View for ClockConfigLoader {
    type V = ClockModel;

    closed spec fn view(&self) -> ClockModel {
        ClockModel { packets: self.packets as nat, next: self.next as nat, phase: self.phase }
    }
}

impl ClockConfigLoader {
    #[verifier::type_invariant]
    spec fn inv(self) -> bool {
        self@.wf()
    }

    /// Starts the load of a payload of `packets` packets and hands out the
    /// write of the first one. An empty payload is done at once.
    pub fn load(packets: usize) -> (out: (Self, ClockStep))
        ensures
            (out.0@, out.1) == ClockModel::load(packets as nat),
    {
        if 0 < packets {
            (
                ClockConfigLoader { packets, next: 0, phase: ClockPhase::Writing },
                ClockStep::Perform(Action::WritePacket { index: 0 }),
            )
        } else {
            (ClockConfigLoader { packets, next: 0, phase: ClockPhase::Done }, ClockStep::Done)
        }
    }

    /// Where the load stands.
    pub fn phase(&self) -> (phase: ClockPhase)
        ensures
            phase == self@.phase,
    {
        self.phase
    }

    /// The number of packets written so far.
    pub fn written(&self) -> (n: usize)
        ensures
            n == self@.next,
    {
        self.next
    }

    /// Takes the response to the write handed out last. On the first write
    /// that is not acknowledged the load ends with `Failed`, which names
    /// that packet; no later packet is handed out.
    pub fn advance(&mut self, response: Response) -> (step: ClockStep)
        ensures
            (final(self)@, step) == old(self)@.advance(response),
    {
        proof {
            use_type_invariant(&*self);
        }
        match self.phase {
            ClockPhase::Done => ClockStep::Done,
            ClockPhase::Failed => ClockStep::Failed { packet: self.next },
            ClockPhase::Writing => match response {
                Response::Ack => {
                    let next: usize = self.next + 1;
                    if next < self.packets {
                        self.next = next;
                        ClockStep::Perform(Action::WritePacket { index: next })
                    } else {
                        self.phase = ClockPhase::Done;
                        self.next = next;
                        ClockStep::Done
                    }
                },
                _ => {
                    self.phase = ClockPhase::Failed;
                    ClockStep::Failed { packet: self.next }
                },
            },
        }
    }
}

} // verus!
