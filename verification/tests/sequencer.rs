use seq_engine::hw::{Action, Register, Response, RetryPolicy};
use seq_engine::sequencer::{
    tofino_enabled, PowerState, Progress, SeqError, ServerImpl, TimerUpdate, PHASE_THRESHOLD,
    TIMER_INTERVAL, TIMER_MASK,
};
use seq_engine::vid::Tofino2Vid;

/// The downstream device and its regulator, as far as the server can tell.
struct Tofino {
    enabled: bool,
    enables: usize,
    disables: usize,
    /// The phase codes that successive reads of the phase register give;
    /// the last one repeats.
    phases: Vec<u8>,
    phase_reads: usize,
    vid: u8,
    vout: Option<u32>,
    slept: u64,
    actions: Vec<Action>,
}

impl Tofino {
    fn new(phases: Vec<u8>, vid: u8) -> Self {
        Tofino {
            enabled: false,
            enables: 0,
            disables: 0,
            phases,
            phase_reads: 0,
            vid,
            vout: None,
            slept: 0,
            actions: Vec::new(),
        }
    }

    fn perform(&mut self, action: Action) -> Response {
        self.actions.push(action);
        match action {
            Action::WriteRegister { register: Register::TofinoEn, value } => {
                self.enabled = value == 1;
                if self.enabled {
                    self.enables += 1;
                } else {
                    self.disables += 1;
                }
                Response::Ack
            }
            Action::ReadRegister { register: Register::TofinoSeqState } => {
                let i = self.phase_reads.min(self.phases.len() - 1);
                self.phase_reads += 1;
                Response::Byte(self.phases[i])
            }
            Action::ReadRegister { register: Register::TofinoVid } => Response::Byte(self.vid),
            Action::SetVout { millivolts } => {
                self.vout = Some(millivolts);
                Response::Ack
            }
            Action::Sleep { ticks } => {
                self.slept += ticks;
                Response::Ack
            }
            other => panic!("the server asked for {:?}", other),
        }
    }
}

fn run(mut progress: Progress, tofino: &mut Tofino) -> (ServerImpl, Result<(), SeqError>) {
    for _ in 0..1000 {
        progress = match progress {
            Progress::Perform(operation, action) => operation.resume(tofino.perform(action)),
            Progress::Finished(server, result) => return (server, result),
            Progress::Halted => panic!("the server halted"),
        };
    }
    panic!("the operation did not come to an end");
}

fn active_server(tofino: &mut Tofino) -> ServerImpl {
    let (server, result) = run(ServerImpl::new(0).set_state(PowerState::Active), tofino);
    assert_eq!(result, Ok(()));
    assert_eq!(server.get_state(), PowerState::Active);
    server
}

#[test]
fn server_starts_in_standby() {
    let server = ServerImpl::new(123);
    assert_eq!(server.get_state(), PowerState::Standby);
    assert_eq!(server.vid(), Tofino2Vid::Invalid);
    assert_eq!(server.deadline(), 123);
}

#[test]
fn standby_to_active_programs_the_sampled_voltage() {
    let mut tofino = Tofino::new(vec![9], 0b1100);
    let server = active_server(&mut tofino);
    assert_eq!(server.vid(), Tofino2Vid::V0P847);
    assert_eq!(tofino.vout, Some(847));
    assert!(tofino.enabled);
    assert_eq!(
        tofino.actions,
        vec![
            Action::WriteRegister { register: Register::TofinoEn, value: 1 },
            Action::ReadRegister { register: Register::TofinoSeqState },
            Action::ReadRegister { register: Register::TofinoVid },
            Action::SetVout { millivolts: 847 },
        ]
    );
}

#[test]
fn state_is_committed_only_after_the_regulator_is_programmed() {
    let mut progress = ServerImpl::new(0).set_state(PowerState::Active);
    let mut tofino = Tofino::new(vec![9], 0b1111);
    loop {
        progress = match progress {
            Progress::Perform(operation, Action::SetVout { millivolts }) => {
                assert_eq!(millivolts, 922);
                // The regulator fails: the server is gone, in no new state.
                assert!(matches!(operation.resume(Response::Fault), Progress::Halted));
                return;
            }
            Progress::Perform(operation, action) => operation.resume(tofino.perform(action)),
            _ => panic!("the transition ended before the regulator was programmed"),
        };
    }
}

#[test]
fn phase_that_never_reaches_the_threshold_times_out() {
    let mut tofino = Tofino::new(vec![8], 0b1111);
    let (server, result) = run(ServerImpl::new(0).set_state(PowerState::Active), &mut tofino);
    assert_eq!(result, Err(SeqError::SequencerTimeout));
    assert_eq!(server.get_state(), PowerState::Standby);
    // One read after the enable, then five polls, ten time units apart.
    assert_eq!(tofino.phase_reads, 6);
    assert_eq!(tofino.slept, 50);
    assert_eq!(tofino.vout, None);
    assert_eq!(tofino.enables, 1);
}

#[test]
fn phase_reached_on_the_last_poll_succeeds() {
    let mut tofino = Tofino::new(vec![0, 1, 2, 3, 4, 9], 0b1000);
    let (server, result) = run(ServerImpl::new(0).set_state(PowerState::Active), &mut tofino);
    assert_eq!(result, Ok(()));
    assert_eq!(server.get_state(), PowerState::Active);
    assert_eq!(tofino.phase_reads, 6);
    assert_eq!(tofino.slept, 50);
    assert_eq!(tofino.vout, Some(759));
}

#[test]
fn phase_reached_after_the_last_poll_is_too_late() {
    let mut tofino = Tofino::new(vec![0, 1, 2, 3, 4, 5, 9], 0b1000);
    let (server, result) = run(ServerImpl::new(0).set_state(PowerState::Active), &mut tofino);
    assert_eq!(result, Err(SeqError::SequencerTimeout));
    assert_eq!(server.get_state(), PowerState::Standby);
}

#[test]
fn phase_above_the_threshold_counts() {
    assert_eq!(PHASE_THRESHOLD, 9);
    let mut tofino = Tofino::new(vec![8, 255], 0b1001);
    let (_, result) = run(ServerImpl::new(0).set_state(PowerState::Active), &mut tofino);
    assert_eq!(result, Ok(()));
    assert_eq!(tofino.phase_reads, 2);
    assert_eq!(tofino.vout, Some(790));
}

#[test]
fn invalid_vid_rolls_back() {
    let mut tofino = Tofino::new(vec![9], 0b0111);
    let (server, result) = run(ServerImpl::new(0).set_state(PowerState::Active), &mut tofino);
    assert_eq!(result, Err(SeqError::InvalidVid));
    assert_eq!(server.get_state(), PowerState::Standby);
    assert_eq!(server.vid(), Tofino2Vid::Invalid);
    assert!(!tofino.enabled);
    assert_eq!(tofino.disables, 1);
    assert_eq!(tofino.vout, None);
    assert_eq!(
        tofino.actions.last(),
        Some(&Action::WriteRegister { register: Register::TofinoEn, value: 0 })
    );
}

#[test]
fn second_request_for_active_is_illegal_and_enables_nothing() {
    let mut tofino = Tofino::new(vec![9], 0b1111);
    let server = active_server(&mut tofino);
    assert_eq!(tofino.enables, 1);
    let performed = tofino.actions.len();
    let (server, result) = run(server.set_state(PowerState::Active), &mut tofino);
    assert_eq!(result, Err(SeqError::IllegalTransition));
    assert_eq!(server.get_state(), PowerState::Active);
    assert_eq!(tofino.enables, 1);
    assert_eq!(tofino.actions.len(), performed);
}

#[test]
fn standby_from_standby_is_illegal() {
    match ServerImpl::new(0).set_state(PowerState::Standby) {
        Progress::Finished(server, result) => {
            assert_eq!(result, Err(SeqError::IllegalTransition));
            assert_eq!(server.get_state(), PowerState::Standby);
        }
        _ => panic!("a refused request must end at once"),
    }
}

#[test]
fn active_to_standby_disables_without_reading_back() {
    let mut tofino = Tofino::new(vec![9], 0b1111);
    let server = active_server(&mut tofino);
    tofino.actions.clear();
    let (server, result) = run(server.set_state(PowerState::Standby), &mut tofino);
    assert_eq!(result, Ok(()));
    assert_eq!(server.get_state(), PowerState::Standby);
    assert!(!tofino.enabled);
    assert_eq!(
        tofino.actions,
        vec![Action::WriteRegister { register: Register::TofinoEn, value: 0 }]
    );
}

#[test]
fn a_fault_on_the_controller_halts() {
    match ServerImpl::new(0).set_state(PowerState::Active) {
        Progress::Perform(operation, _) => {
            assert!(matches!(operation.resume(Response::Fault), Progress::Halted));
        }
        _ => panic!("the transition must begin with an action"),
    }
    let mut tofino = Tofino::new(vec![9], 0b1111);
    match active_server(&mut tofino).set_state(PowerState::Standby) {
        Progress::Perform(operation, _) => {
            assert!(matches!(operation.resume(Response::Byte(0)), Progress::Halted));
        }
        _ => panic!("the transition must begin with an action"),
    }
}

#[test]
fn substituted_policies_bound_the_polling() {
    let mut tofino = Tofino::new(vec![0], 0b1111);
    let server = ServerImpl::with_policy(0, RetryPolicy::Bounded { count: 2, interval: 1 });
    let (_, result) = run(server.set_state(PowerState::Active), &mut tofino);
    assert_eq!(result, Err(SeqError::SequencerTimeout));
    assert_eq!(tofino.phase_reads, 3);
    assert_eq!(tofino.slept, 2);

    let mut phases = vec![0; 60];
    phases.push(9);
    let mut tofino = Tofino::new(phases, 0b1111);
    let server = ServerImpl::with_policy(0, RetryPolicy::Unbounded);
    let (server, result) = run(server.set_state(PowerState::Active), &mut tofino);
    assert_eq!(result, Ok(()));
    assert_eq!(server.get_state(), PowerState::Active);
    assert_eq!(tofino.phase_reads, 61);
    assert_eq!(tofino.slept, 600);
}

/// Loads a clock configuration against a bus on which the write of the
/// packet at `failing` fails.
fn load_clock(
    server: ServerImpl,
    packets: usize,
    failing: Option<usize>,
) -> (ServerImpl, Result<(), SeqError>, Vec<usize>) {
    let mut attempted = Vec::new();
    let mut progress = server.load_clock_config(packets);
    loop {
        progress = match progress {
            Progress::Perform(operation, Action::WritePacket { index }) => {
                attempted.push(index);
                operation.resume(if Some(index) == failing { Response::Fault } else { Response::Ack })
            }
            Progress::Finished(server, result) => return (server, result, attempted),
            _ => panic!("a clock configuration load only writes packets"),
        };
    }
}

#[test]
fn clock_config_stops_at_the_third_of_five_packets() {
    let (server, result, attempted) = load_clock(ServerImpl::new(0), 5, Some(2));
    assert_eq!(result, Err(SeqError::ClockConfigFailed { packet: 2 }));
    assert_eq!(attempted, vec![0, 1, 2]);
    assert_eq!(server.get_state(), PowerState::Standby);
}

#[test]
fn clock_config_writes_every_packet() {
    let (_, result, attempted) = load_clock(ServerImpl::new(0), 5, None);
    assert_eq!(result, Ok(()));
    assert_eq!(attempted, vec![0, 1, 2, 3, 4]);
}

#[test]
fn clock_config_does_not_depend_on_the_power_state() {
    let mut tofino = Tofino::new(vec![9], 0b1111);
    let server = active_server(&mut tofino);
    let (server, result, attempted) = load_clock(server, 2, Some(1));
    assert_eq!(result, Err(SeqError::ClockConfigFailed { packet: 1 }));
    assert_eq!(attempted, vec![0, 1]);
    assert_eq!(server.get_state(), PowerState::Active);
    let (_, result, _) = load_clock(server, 0, None);
    assert_eq!(result, Ok(()));
}

#[test]
fn timer_notification_toggles_the_led_and_moves_the_deadline() {
    let mut server = ServerImpl::new(5000);
    assert_eq!(server.current_notification_mask(), 1);
    assert_eq!(TIMER_MASK, 1);
    assert_eq!(TIMER_INTERVAL, 1000);
    assert_eq!(
        server.handle_notification(false),
        TimerUpdate { led_on: true, deadline: 6000, mask: 1 }
    );
    assert_eq!(
        server.handle_notification(true),
        TimerUpdate { led_on: false, deadline: 7000, mask: 1 }
    );
    assert_eq!(server.deadline(), 7000);
    assert_eq!(server.get_state(), PowerState::Standby);
    assert!(ServerImpl::led_toggle(false));
    assert!(!ServerImpl::led_toggle(true));
}

#[test]
fn enable_register_reads() {
    assert!(tofino_enabled(1));
    assert!(!tofino_enabled(0));
    assert!(!tofino_enabled(2));
}

#[test]
fn controller_register_accesses() {
    assert_eq!(
        ServerImpl::set_tofino_enabled(true),
        Action::WriteRegister { register: Register::TofinoEn, value: 1 }
    );
    assert_eq!(
        ServerImpl::set_tofino_enabled(false),
        Action::WriteRegister { register: Register::TofinoEn, value: 0 }
    );
    assert_eq!(
        ServerImpl::get_tofino_seq_state(),
        Action::ReadRegister { register: Register::TofinoSeqState }
    );
    assert_eq!(
        ServerImpl::get_tofino_seq_error(),
        Action::ReadRegister { register: Register::TofinoSeqError }
    );
}
