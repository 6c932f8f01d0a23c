use seq_engine::bitstream::{FpgaDevice, LoaderState};
use seq_engine::bringup::{BoardConfig, BringUp, BringUpStep, HackPin, Stage, POST_RAIL_DELAY};
use seq_engine::hw::{Action, Mode, PinSet, Port, Pull, Response};
use seq_engine::rail::Rail;

const V1P2: Rail = Rail {
    enable: PinSet { port: Port::A, pin_mask: 1 << 15 },
    power_good: PinSet { port: Port::C, pin_mask: 1 << 7 },
};
const V3P3: Rail = Rail {
    enable: PinSet { port: Port::A, pin_mask: 1 << 4 },
    power_good: PinSet { port: Port::C, pin_mask: 1 << 6 },
};
const CRESET: PinSet = PinSet { port: Port::D, pin_mask: 1 << 5 };
const CDONE: PinSet = PinSet { port: Port::B, pin_mask: 1 << 4 };
const GLOBAL_RESET: PinSet = PinSet { port: Port::A, pin_mask: 1 << 6 };
const MUX_SEL: PinSet = PinSet { port: Port::I, pin_mask: 1 << 8 };

fn config(global_reset: Option<PinSet>, hack_pins: Vec<HackPin>, image: usize) -> BoardConfig {
    BoardConfig {
        rails: vec![V1P2, V3P3],
        power_good_pull: Pull::Off,
        fpga: FpgaDevice { creset: CRESET, cdone: CDONE, bitstream: vec![0xa5; image] },
        ready_polls: 0,
        ready_interval: 1,
        global_reset,
        hack_pins,
    }
}

/// A board on which every rail is good at the second read and the FPGA
/// takes its bitstream at the first attempt.
struct Board {
    actions: Vec<Action>,
    reads_of_port_c: usize,
    port_closed: bool,
    sent: usize,
}

impl Board {
    fn perform(&mut self, action: Action) -> Response {
        self.actions.push(action);
        match action {
            Action::ReadInput { port: Port::C } => {
                self.reads_of_port_c += 1;
                if self.reads_of_port_c % 2 == 0 {
                    Response::Input(0xffff)
                } else {
                    Response::Input(0)
                }
            }
            Action::ReadInput { .. } => {
                Response::Input(if self.port_closed { CDONE.pin_mask } else { 0 })
            }
            Action::WriteChunk { start, end } => {
                assert_eq!(start, self.sent);
                self.sent = end;
                Response::Ack
            }
            Action::LeaveConfigMode => {
                self.port_closed = true;
                Response::Ack
            }
            _ => Response::Ack,
        }
    }
}

fn run(config: BoardConfig) -> (BringUp, Vec<Action>) {
    let mut board = Board { actions: Vec::new(), reads_of_port_c: 0, port_closed: false, sent: 0 };
    let (mut bring_up, mut step) = BringUp::start(config);
    for _ in 0..1000 {
        match step {
            BringUpStep::Perform(action) => step = bring_up.advance(board.perform(action)),
            BringUpStep::Done => return (bring_up, board.actions),
            BringUpStep::Halt => panic!("the bring-up halted"),
        }
    }
    panic!("the bring-up did not come to an end");
}

fn output(pins: PinSet) -> Action {
    Action::Configure { pins, mode: Mode::Output, pull: Pull::Off }
}

fn input(pins: PinSet) -> Action {
    Action::Configure { pins, mode: Mode::Input, pull: Pull::Off }
}

fn high(pins: PinSet) -> Action {
    Action::SetReset { port: pins.port, set_mask: pins.pin_mask, clear_mask: 0 }
}

fn low(pins: PinSet) -> Action {
    Action::SetReset { port: pins.port, set_mask: 0, clear_mask: pins.pin_mask }
}

fn rail_up(rail: Rail) -> Vec<Action> {
    vec![
        high(rail.enable),
        Action::Sleep { ticks: 2 },
        Action::ReadInput { port: rail.power_good.port },
        Action::Sleep { ticks: 2 },
        Action::ReadInput { port: rail.power_good.port },
    ]
}

fn load(image: usize) -> Vec<Action> {
    let mut actions =
        vec![low(CRESET), Action::ReadInput { port: CDONE.port }, high(CRESET), Action::EnterConfigMode];
    let mut start = 0;
    while start < image {
        let end = (start + 512).min(image);
        actions.push(Action::WriteChunk { start, end });
        start = end;
    }
    actions.push(Action::LeaveConfigMode);
    actions.push(Action::ReadInput { port: CDONE.port });
    actions
}

#[test]
fn bring_up_of_a_board_with_reset_and_hack_pins() {
    let hack = HackPin { pins: MUX_SEL, high: false };
    let (bring_up, actions) = run(config(Some(GLOBAL_RESET), vec![hack], 1000));
    let mut expected = vec![
        input(V1P2.power_good),
        input(V3P3.power_good),
        output(V1P2.enable),
        output(V3P3.enable),
        output(CRESET),
        input(CDONE),
        low(CRESET),
    ];
    expected.extend(rail_up(V1P2));
    expected.extend(rail_up(V3P3));
    expected.push(Action::Sleep { ticks: 11 });
    expected.extend([low(MUX_SEL), output(MUX_SEL)]);
    expected.extend([high(GLOBAL_RESET), output(GLOBAL_RESET), low(GLOBAL_RESET)]);
    expected.extend(load(1000));
    expected.push(high(GLOBAL_RESET));
    assert_eq!(actions, expected);
    assert_eq!(bring_up.stage(), Stage::Done);
    assert_eq!(bring_up.loader().state(), LoaderState::Done);
    assert_eq!(POST_RAIL_DELAY, 11);
}

#[test]
fn bring_up_of_a_board_without_them() {
    let (bring_up, actions) = run(config(None, Vec::new(), 512));
    let mut expected = vec![
        input(V1P2.power_good),
        input(V3P3.power_good),
        output(V1P2.enable),
        output(V3P3.enable),
        output(CRESET),
        input(CDONE),
        low(CRESET),
    ];
    expected.extend(rail_up(V1P2));
    expected.extend(rail_up(V3P3));
    expected.push(Action::Sleep { ticks: 11 });
    expected.extend(load(512));
    assert_eq!(actions, expected);
    assert_eq!(bring_up.stage(), Stage::Done);
}

#[test]
fn a_hack_pin_may_be_driven_high() {
    let hack = HackPin { pins: MUX_SEL, high: true };
    let (_, actions) = run(config(None, vec![hack], 0));
    let at = actions.iter().position(|a| *a == Action::Sleep { ticks: 11 }).unwrap();
    assert_eq!(actions[at + 1..at + 3], [high(MUX_SEL), output(MUX_SEL)]);
}

#[test]
fn no_enable_is_driven_low_on_the_way() {
    let (_, actions) = run(config(Some(GLOBAL_RESET), Vec::new(), 100));
    let enables = V1P2.enable.pin_mask | V3P3.enable.pin_mask;
    for action in actions {
        if let Action::SetReset { port: Port::A, clear_mask, .. } = action {
            assert_eq!(clear_mask & enables, 0);
        }
    }
}

#[test]
fn the_load_waits_for_the_last_rail() {
    let (mut bring_up, mut step) = BringUp::start(config(None, Vec::new(), 100));
    let mut reads = 0;
    // The second rail never reports power-good: the bring-up must stay
    // with it and never touch the FPGA's configuration port.
    for _ in 0..2000 {
        let action = match step {
            BringUpStep::Perform(action) => action,
            other => panic!("the bring-up ended with {:?}", other),
        };
        assert!(!matches!(
            action,
            Action::EnterConfigMode | Action::WriteChunk { .. } | Action::LeaveConfigMode
        ));
        step = match action {
            Action::ReadInput { .. } => {
                reads += 1;
                bring_up.advance(Response::Input(V1P2.power_good.pin_mask))
            }
            _ => bring_up.advance(Response::Ack),
        };
    }
    assert!(reads > 900);
    assert_eq!(bring_up.stage(), Stage::Rails);
    assert_eq!(bring_up.loader().state(), LoaderState::Idle);
}

#[test]
fn a_failed_load_is_repeated_within_the_bring_up() {
    let (mut bring_up, mut step) = BringUp::start(config(None, Vec::new(), 100));
    let mut releases = 0;
    let mut port_closed = false;
    for _ in 0..1000 {
        let action = match step {
            BringUpStep::Perform(action) => action,
            _ => break,
        };
        let response = match action {
            Action::ReadInput { port: Port::C } => Response::Input(0xffff),
            Action::ReadInput { .. } => Response::Input(if port_closed { 0xffff } else { 0 }),
            Action::EnterConfigMode if releases < 3 => Response::Fault,
            Action::ReleaseBus => {
                releases += 1;
                Response::Fault
            }
            Action::LeaveConfigMode => {
                port_closed = true;
                Response::Ack
            }
            _ => Response::Ack,
        };
        step = bring_up.advance(response);
    }
    assert_eq!(step, BringUpStep::Done);
    assert_eq!(releases, 3);
}

#[test]
fn a_fault_outside_the_load_halts() {
    let (mut bring_up, step) = BringUp::start(config(None, Vec::new(), 100));
    assert_eq!(step, BringUpStep::Perform(input(V1P2.power_good)));
    assert_eq!(bring_up.advance(Response::Fault), BringUpStep::Halt);
    assert_eq!(bring_up.stage(), Stage::Halted);
    assert_eq!(bring_up.advance(Response::Ack), BringUpStep::Halt);
}
