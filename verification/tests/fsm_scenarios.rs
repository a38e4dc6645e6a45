use chay::config::{LoggerConfig, PreCommandConfig, RenderedProgramConfig};
use chay::fsm::MachineResult;
use chay::os::{ChildId, Reply, Request, Signal};
use chay::program_fsm::{new_program_fsm, ProgramEvent, ProgramFsm, ProgramState};

const SEC: u64 = 1_000_000_000;
const HALF: u64 = 500_000_000;

/// One simulated process.
#[derive(Clone, Copy)]
struct Sim {
    alive: bool,
    code: Option<i32>,
    spawn_fails: bool,
    exits_with: Option<i32>,
    ignores_sigterm: bool,
}

/// A simulated operating system that performs the requests of a machine.
struct World {
    sims: [Sim; 4],
    log: Vec<Request>,
}

fn slot(child: ChildId) -> usize {
    match child {
        ChildId::Program => 0,
        ChildId::PreCommand => 1,
        ChildId::Logger => 2,
        ChildId::LoggerPreCommand => 3,
    }
}

impl World {
    fn new() -> World {
        let sim = Sim {
            alive: false,
            code: None,
            spawn_fails: false,
            exits_with: None,
            ignores_sigterm: false,
        };
        World { sims: [sim; 4], log: Vec::new() }
    }

    fn sim(&mut self, child: ChildId) -> &mut Sim {
        &mut self.sims[slot(child)]
    }

    fn perform(&mut self, request: Request) -> Reply {
        self.log.push(request);
        match request {
            Request::Spawn { child, .. } => {
                let sim = self.sim(child);
                if sim.spawn_fails {
                    return Reply::SpawnFailed { os_error: Some(2) };
                }
                match sim.exits_with {
                    Some(code) => {
                        sim.alive = false;
                        sim.code = Some(code);
                    }
                    None => sim.alive = true,
                }
                Reply::Spawned
            }
            Request::Probe { child } => {
                let sim = self.sim(child);
                if sim.alive {
                    Reply::Running
                } else {
                    Reply::Exited { code: sim.code }
                }
            }
            Request::Kill { child, signal } => {
                let sim = self.sim(child);
                if signal == Signal::SIGKILL || !sim.ignores_sigterm {
                    sim.alive = false;
                    sim.code = None;
                }
                Reply::Signalled
            }
            Request::Reap { child } => {
                assert!(!self.sim(child).alive, "reaped a running program");
                Reply::Reaped
            }
        }
    }

    fn spawns_of(&self, wanted: ChildId) -> usize {
        self.log
            .iter()
            .filter(|request| matches!(request, Request::Spawn { child, .. } if *child == wanted))
            .count()
    }

    fn kills_with(&self, wanted: Signal) -> usize {
        self.log
            .iter()
            .filter(|request| matches!(request, Request::Kill { signal, .. } if *signal == wanted))
            .count()
    }
}

fn tick(fsm: &mut ProgramFsm, now: u64, world: &mut World) {
    let mut journal: Vec<Reply> = Vec::new();
    loop {
        match fsm.update(now, &journal) {
            Ok(()) => return,
            Err(request) => journal.push(world.perform(request)),
        }
    }
}

fn send(fsm: &mut ProgramFsm, event: ProgramEvent, now: u64, world: &mut World) -> MachineResult {
    let mut journal: Vec<Reply> = Vec::new();
    loop {
        match fsm.react(&event, now, &journal) {
            Ok(result) => return result,
            Err(request) => journal.push(world.perform(request)),
        }
    }
}

fn config(command: &str) -> RenderedProgramConfig {
    let mut config = RenderedProgramConfig::default();
    config.program.command = command.to_string();
    config
}

/// Ticks every half second from `from` and returns the states in the order
/// in which they were first seen, the initial state included.
fn states_seen(fsm: &mut ProgramFsm, world: &mut World, from: u64, ticks: u64) -> Vec<ProgramState> {
    let mut seen = vec![fsm.current_state_key()];
    for i in 0..ticks {
        tick(fsm, from + i * HALF, world);
        if *seen.last().unwrap() != fsm.current_state_key() {
            seen.push(fsm.current_state_key());
        }
    }
    seen
}

#[test]
fn program_that_exits_at_once_is_given_up_after_the_attempts() {
    let mut config = config("/bin/true");
    config.program.num_restart_attempts = 2;
    config.program.backoff_delay_secs = 1;
    config.program.start_wait_secs = 0;
    let mut fsm = new_program_fsm("true".to_string(), &config);
    let mut world = World::new();
    world.sim(ChildId::Program).exits_with = Some(0);
    let seen = states_seen(&mut fsm, &mut world, 0, 20);
    assert_eq!(
        seen,
        vec![
            ProgramState::Starting,
            ProgramState::Backoff,
            ProgramState::Starting,
            ProgramState::Backoff,
            ProgramState::Starting,
            ProgramState::Exited,
        ]
    );
    assert_eq!(world.spawns_of(ChildId::Program), 3);
    assert_eq!(fsm.app_context().num_restarts, 0);
    assert!(!fsm.app_context().program.program.has_child);
}

#[test]
fn running_program_is_stopped_by_sigterm() {
    let mut config = config("/bin/sleep");
    config.program.args = Some(vec!["3600".to_string()]);
    config.program.start_wait_secs = 0;
    let mut fsm = new_program_fsm("sleep".to_string(), &config);
    let mut world = World::new();
    tick(&mut fsm, 0, &mut world);
    assert_eq!(fsm.current_state_key(), ProgramState::Running);
    assert_eq!(send(&mut fsm, ProgramEvent::Stop, HALF, &mut world), Ok(None));
    assert_eq!(fsm.current_state_key(), ProgramState::Stopping);
    tick(&mut fsm, SEC, &mut world);
    assert_eq!(fsm.current_state_key(), ProgramState::Stopped);
    assert_eq!(world.kills_with(Signal::SIGTERM), 1);
    assert_eq!(world.kills_with(Signal::SIGKILL), 0);
    assert!(!fsm.app_context().program.program.has_child);
    assert_eq!(fsm.app_context().sigterm_time, None);
}

#[test]
fn stubborn_program_is_killed_after_the_sigkill_delay() {
    let mut config = config("/bin/sleep");
    config.program.start_wait_secs = 0;
    config.program.sigkill_delay_secs = 10;
    let mut fsm = new_program_fsm("sleep".to_string(), &config);
    let mut world = World::new();
    world.sim(ChildId::Program).ignores_sigterm = true;
    tick(&mut fsm, 0, &mut world);
    assert_eq!(send(&mut fsm, ProgramEvent::Stop, 0, &mut world), Ok(None));
    tick(&mut fsm, SEC, &mut world);
    assert_eq!(fsm.current_state_key(), ProgramState::Stopping);
    assert_eq!(fsm.app_context().sigterm_time, Some(SEC));
    assert_eq!(world.kills_with(Signal::SIGTERM), 1);
    // One nanosecond before the delay is over nothing is sent.
    tick(&mut fsm, 11 * SEC - 1, &mut world);
    assert_eq!(fsm.current_state_key(), ProgramState::Stopping);
    assert_eq!(world.kills_with(Signal::SIGTERM), 1);
    assert_eq!(world.kills_with(Signal::SIGKILL), 0);
    // Exactly at the delay SIGKILL is sent, and the program is found stopped at once.
    tick(&mut fsm, 11 * SEC, &mut world);
    assert_eq!(world.kills_with(Signal::SIGKILL), 1);
    assert_eq!(fsm.current_state_key(), ProgramState::Stopped);
}

#[test]
fn sigkill_delay_of_zero_kills_on_the_tick_after_sigterm() {
    let mut config = config("/bin/sleep");
    config.program.start_wait_secs = 0;
    config.program.sigkill_delay_secs = 0;
    let mut fsm = new_program_fsm("sleep".to_string(), &config);
    let mut world = World::new();
    world.sim(ChildId::Program).ignores_sigterm = true;
    tick(&mut fsm, 0, &mut world);
    assert_eq!(send(&mut fsm, ProgramEvent::Stop, 0, &mut world), Ok(None));
    tick(&mut fsm, HALF, &mut world);
    assert_eq!(world.kills_with(Signal::SIGTERM), 1);
    assert_eq!(world.kills_with(Signal::SIGKILL), 0);
    assert_eq!(fsm.current_state_key(), ProgramState::Stopping);
    tick(&mut fsm, HALF, &mut world);
    assert_eq!(world.kills_with(Signal::SIGKILL), 1);
    assert_eq!(fsm.current_state_key(), ProgramState::Stopped);
}

#[test]
fn logger_is_spawned_first_and_receives_the_output_of_the_program() {
    let mut config = config("/bin/echo");
    config.program.args = Some(vec!["hello".to_string()]);
    config.program.start_wait_secs = 0;
    let mut logger = LoggerConfig::default();
    logger.command = "/bin/cat".to_string();
    logger.start_wait_secs = 0;
    config.logger = Some(logger);
    let mut fsm = new_program_fsm("echo".to_string(), &config);
    let mut world = World::new();
    tick(&mut fsm, 0, &mut world);
    assert_eq!(
        world.log,
        vec![
            Request::Spawn { child: ChildId::Logger, pipe_stdin: true, output_to: None },
            Request::Spawn {
                child: ChildId::Program,
                pipe_stdin: false,
                output_to: Some(ChildId::Logger)
            },
            Request::Probe { child: ChildId::Program },
            Request::Probe { child: ChildId::Logger },
        ]
    );
    assert_eq!(fsm.current_state_key(), ProgramState::Running);
    // The program exits: the machine leaves Running for Backoff and cleans up the logger.
    world.sim(ChildId::Program).alive = false;
    world.sim(ChildId::Program).code = Some(0);
    tick(&mut fsm, HALF, &mut world);
    assert_eq!(fsm.current_state_key(), ProgramState::Backoff);
    assert_eq!(fsm.app_context().num_restarts, 1);
    tick(&mut fsm, SEC, &mut world);
    assert_eq!(
        world.log.last(),
        Some(&Request::Probe { child: ChildId::Logger })
    );
    assert!(world.log.contains(&Request::Kill { child: ChildId::Logger, signal: Signal::SIGTERM }));
    assert!(!world.sims[slot(ChildId::Logger)].alive);
}

#[test]
fn failing_pre_command_keeps_the_program_from_being_spawned() {
    let mut config = config("/bin/sleep");
    let mut pre_command = PreCommandConfig::default();
    pre_command.command = "/bin/false".to_string();
    config.program.pre_command = Some(pre_command);
    config.program.num_restart_attempts = 2;
    config.program.backoff_delay_secs = 0;
    let mut fsm = new_program_fsm("guarded".to_string(), &config);
    let mut world = World::new();
    world.sim(ChildId::PreCommand).exits_with = Some(1);
    let seen = states_seen(&mut fsm, &mut world, 0, 30);
    assert_eq!(
        seen,
        vec![
            ProgramState::Starting,
            ProgramState::Backoff,
            ProgramState::Starting,
            ProgramState::Backoff,
            ProgramState::Starting,
            ProgramState::Exited,
        ]
    );
    assert_eq!(world.spawns_of(ChildId::Program), 0);
    assert_eq!(world.spawns_of(ChildId::PreCommand), 3);
}

#[test]
fn pre_command_is_spawned_on_one_tick_and_probed_on_the_next() {
    let mut config = config("/bin/sleep");
    let mut pre_command = PreCommandConfig::default();
    pre_command.command = "/bin/true".to_string();
    config.program.pre_command = Some(pre_command);
    config.program.start_wait_secs = 0;
    let mut fsm = new_program_fsm("guarded".to_string(), &config);
    let mut world = World::new();
    world.sim(ChildId::PreCommand).exits_with = Some(0);
    tick(&mut fsm, 0, &mut world);
    assert_eq!(
        world.log,
        vec![Request::Spawn { child: ChildId::PreCommand, pipe_stdin: false, output_to: None }]
    );
    assert_eq!(fsm.current_state_key(), ProgramState::Starting);
    tick(&mut fsm, HALF, &mut world);
    assert_eq!(fsm.current_state_key(), ProgramState::Running);
    assert_eq!(world.spawns_of(ChildId::Program), 1);
}

#[test]
fn pre_command_times_out_only_after_more_than_its_timeout() {
    let mut config = config("/bin/sleep");
    let mut pre_command = PreCommandConfig::default();
    pre_command.command = "/bin/sleep".to_string();
    pre_command.timeout_secs = 3;
    config.program.pre_command = Some(pre_command);
    let mut fsm = new_program_fsm("guarded".to_string(), &config);
    let mut world = World::new();
    tick(&mut fsm, 10 * SEC, &mut world);
    // After exactly the timeout the pre-command may still run.
    tick(&mut fsm, 13 * SEC, &mut world);
    assert_eq!(fsm.current_state_key(), ProgramState::Starting);
    // One nanosecond later it has failed, and the machine cleans up in Backoff.
    tick(&mut fsm, 13 * SEC + 1, &mut world);
    assert_eq!(fsm.current_state_key(), ProgramState::Backoff);
    assert_eq!(world.spawns_of(ChildId::Program), 0);
    tick(&mut fsm, 13 * SEC + 2, &mut world);
    assert!(world.log.contains(&Request::Kill {
        child: ChildId::PreCommand,
        signal: Signal::SIGTERM
    }));
}

#[test]
fn program_counts_as_started_once_the_start_wait_has_passed() {
    let mut config = config("/bin/sleep");
    config.program.start_wait_secs = 2;
    let mut fsm = new_program_fsm("sleep".to_string(), &config);
    let mut world = World::new();
    tick(&mut fsm, 5 * SEC, &mut world);
    assert_eq!(fsm.current_state_key(), ProgramState::Starting);
    assert_eq!(fsm.app_context().program.start_time, Some(5 * SEC));
    tick(&mut fsm, 7 * SEC - 1, &mut world);
    assert_eq!(fsm.current_state_key(), ProgramState::Starting);
    tick(&mut fsm, 7 * SEC, &mut world);
    assert_eq!(fsm.current_state_key(), ProgramState::Running);
    assert_eq!(world.spawns_of(ChildId::Program), 1);
}

#[test]
fn spawn_failure_counts_as_a_failed_start() {
    let mut config = config("/no/such/command");
    config.program.num_restart_attempts = 1;
    config.program.backoff_delay_secs = 0;
    let mut fsm = new_program_fsm("broken".to_string(), &config);
    let mut world = World::new();
    world.sim(ChildId::Program).spawn_fails = true;
    tick(&mut fsm, 0, &mut world);
    assert_eq!(fsm.current_state_key(), ProgramState::Backoff);
    assert_eq!(fsm.app_context().num_restarts, 1);
    tick(&mut fsm, HALF, &mut world);
    assert_eq!(fsm.current_state_key(), ProgramState::Starting);
    tick(&mut fsm, SEC, &mut world);
    assert_eq!(fsm.current_state_key(), ProgramState::Exited);
}

#[test]
fn failure_with_a_live_logger_leads_to_exiting_and_then_exited() {
    let mut config = config("/no/such/command");
    config.program.autorestart = false;
    let mut logger = LoggerConfig::default();
    logger.command = "/bin/cat".to_string();
    config.logger = Some(logger);
    let mut fsm = new_program_fsm("broken".to_string(), &config);
    let mut world = World::new();
    world.sim(ChildId::Program).spawn_fails = true;
    tick(&mut fsm, 0, &mut world);
    assert_eq!(fsm.current_state_key(), ProgramState::Exiting);
    tick(&mut fsm, HALF, &mut world);
    assert_eq!(fsm.current_state_key(), ProgramState::Exited);
    assert_eq!(world.kills_with(Signal::SIGTERM), 1);
    assert!(!fsm.app_context().logger.as_ref().unwrap().program.has_child);
}

#[test]
fn no_restart_attempts_means_a_failed_start_is_final() {
    let mut config = config("/bin/true");
    config.program.autorestart = true;
    config.program.num_restart_attempts = 0;
    config.program.start_wait_secs = 0;
    let mut fsm = new_program_fsm("true".to_string(), &config);
    let mut world = World::new();
    world.sim(ChildId::Program).exits_with = Some(0);
    tick(&mut fsm, 0, &mut world);
    assert_eq!(fsm.current_state_key(), ProgramState::Exited);
}

#[test]
fn backoff_delay_of_zero_starts_again_on_the_next_tick() {
    let mut config = config("/bin/true");
    config.program.backoff_delay_secs = 0;
    config.program.start_wait_secs = 0;
    let mut fsm = new_program_fsm("true".to_string(), &config);
    let mut world = World::new();
    world.sim(ChildId::Program).exits_with = Some(0);
    tick(&mut fsm, 7, &mut world);
    assert_eq!(fsm.current_state_key(), ProgramState::Backoff);
    tick(&mut fsm, 7, &mut world);
    assert_eq!(fsm.current_state_key(), ProgramState::Starting);
}

#[test]
fn backoff_waits_for_the_whole_delay() {
    let mut config = config("/bin/true");
    config.program.backoff_delay_secs = 2;
    config.program.start_wait_secs = 0;
    let mut fsm = new_program_fsm("true".to_string(), &config);
    let mut world = World::new();
    world.sim(ChildId::Program).exits_with = Some(0);
    tick(&mut fsm, SEC, &mut world);
    assert_eq!(fsm.current_state_key(), ProgramState::Backoff);
    tick(&mut fsm, 3 * SEC - 1, &mut world);
    assert_eq!(fsm.current_state_key(), ProgramState::Backoff);
    tick(&mut fsm, 3 * SEC, &mut world);
    assert_eq!(fsm.current_state_key(), ProgramState::Starting);
}

#[test]
fn without_autostart_nothing_is_spawned_until_a_start() {
    let mut config = config("/bin/sleep");
    config.program.autostart = false;
    config.program.start_wait_secs = 0;
    let mut fsm = new_program_fsm("idle".to_string(), &config);
    assert_eq!(fsm.current_state_key(), ProgramState::Stopped);
    let mut world = World::new();
    for i in 0..5 {
        tick(&mut fsm, i * HALF, &mut world);
        assert_eq!(fsm.current_state_key(), ProgramState::Stopped);
    }
    assert!(world.log.is_empty());
    assert_eq!(send(&mut fsm, ProgramEvent::Start, 3 * SEC, &mut world), Ok(None));
    assert_eq!(fsm.current_state_key(), ProgramState::Starting);
    assert!(world.log.is_empty());
    tick(&mut fsm, 3 * SEC + HALF, &mut world);
    assert_eq!(world.spawns_of(ChildId::Program), 1);
    assert_eq!(fsm.current_state_key(), ProgramState::Running);
}

#[test]
fn start_of_a_running_program_changes_nothing() {
    let mut config = config("/bin/sleep");
    config.program.start_wait_secs = 0;
    let mut fsm = new_program_fsm("sleep".to_string(), &config);
    let mut world = World::new();
    tick(&mut fsm, 0, &mut world);
    let requests = world.log.len();
    assert_eq!(
        send(&mut fsm, ProgramEvent::Start, HALF, &mut world),
        Ok(Some("Already running".to_string()))
    );
    assert_eq!(fsm.current_state_key(), ProgramState::Running);
    assert_eq!(world.log.len(), requests);
}

#[test]
fn stop_of_a_stopped_program_changes_nothing() {
    let mut config = config("/bin/sleep");
    config.program.autostart = false;
    let mut fsm = new_program_fsm("idle".to_string(), &config);
    let mut world = World::new();
    assert_eq!(
        send(&mut fsm, ProgramEvent::Stop, 0, &mut world),
        Ok(Some("Already stopped".to_string()))
    );
    assert_eq!(fsm.current_state_key(), ProgramState::Stopped);
    assert!(world.log.is_empty());
}

#[test]
fn restart_of_a_stopped_program_starts_it() {
    let mut config = config("/bin/sleep");
    config.program.autostart = false;
    let mut fsm = new_program_fsm("idle".to_string(), &config);
    let mut world = World::new();
    assert_eq!(
        send(&mut fsm, ProgramEvent::Restart, 0, &mut world),
        Ok(Some("Wasn't running (was stopped)".to_string()))
    );
    assert_eq!(fsm.current_state_key(), ProgramState::Starting);
}

#[test]
fn two_restarts_while_starting_collapse() {
    let mut config = config("/bin/sleep");
    config.program.start_wait_secs = 5;
    let mut fsm = new_program_fsm("sleep".to_string(), &config);
    let mut world = World::new();
    tick(&mut fsm, 0, &mut world);
    assert_eq!(fsm.current_state_key(), ProgramState::Starting);
    assert_eq!(send(&mut fsm, ProgramEvent::Restart, 1, &mut world), Ok(None));
    assert_eq!(fsm.current_state_key(), ProgramState::Stopping);
    assert!(fsm.app_context().should_restart);
    assert_eq!(
        send(&mut fsm, ProgramEvent::Restart, 2, &mut world),
        Ok(Some("Will restart after stopping".to_string()))
    );
    assert_eq!(fsm.current_state_key(), ProgramState::Stopping);
    assert!(fsm.app_context().should_restart);
    assert_eq!(fsm.app_context().num_restarts, 0);
    // The teardown ends in Starting, and the intent is forgotten.
    tick(&mut fsm, HALF, &mut world);
    assert_eq!(fsm.current_state_key(), ProgramState::Starting);
    assert!(!fsm.app_context().should_restart);
}

#[test]
fn start_is_refused_while_stopping() {
    let mut config = config("/bin/sleep");
    config.program.start_wait_secs = 0;
    let mut fsm = new_program_fsm("sleep".to_string(), &config);
    let mut world = World::new();
    world.sim(ChildId::Program).ignores_sigterm = true;
    tick(&mut fsm, 0, &mut world);
    assert_eq!(send(&mut fsm, ProgramEvent::Stop, 0, &mut world), Ok(None));
    assert_eq!(
        send(&mut fsm, ProgramEvent::Start, 0, &mut world),
        Err("Cannot start while stopping".to_string())
    );
    assert_eq!(
        send(&mut fsm, ProgramEvent::Stop, 0, &mut world),
        Ok(Some("Already stopping".to_string()))
    );
    assert_eq!(fsm.current_state_key(), ProgramState::Stopping);
}

#[test]
fn events_while_exiting() {
    let mut config = config("/no/such/command");
    config.program.autorestart = false;
    let mut logger = LoggerConfig::default();
    logger.command = "/bin/cat".to_string();
    config.logger = Some(logger);
    let mut fsm = new_program_fsm("broken".to_string(), &config);
    let mut world = World::new();
    world.sim(ChildId::Program).spawn_fails = true;
    world.sim(ChildId::Logger).ignores_sigterm = true;
    tick(&mut fsm, 0, &mut world);
    assert_eq!(fsm.current_state_key(), ProgramState::Exiting);
    assert_eq!(
        send(&mut fsm, ProgramEvent::Start, 0, &mut world),
        Err("Cannot start while exiting".to_string())
    );
    assert_eq!(
        send(&mut fsm, ProgramEvent::Stop, 0, &mut world),
        Ok(Some("Already stopping (exiting)".to_string()))
    );
    assert_eq!(
        send(&mut fsm, ProgramEvent::Restart, 0, &mut world),
        Ok(Some("Will restart after exiting".to_string()))
    );
    assert!(fsm.app_context().should_restart);
    world.sim(ChildId::Logger).alive = false;
    tick(&mut fsm, HALF, &mut world);
    assert_eq!(fsm.current_state_key(), ProgramState::Starting);
    assert!(!fsm.app_context().should_restart);
}

#[test]
fn events_while_exited() {
    let mut config = config("/bin/true");
    config.program.autorestart = false;
    config.program.start_wait_secs = 0;
    let mut fsm = new_program_fsm("true".to_string(), &config);
    let mut world = World::new();
    world.sim(ChildId::Program).exits_with = Some(0);
    tick(&mut fsm, 0, &mut world);
    assert_eq!(fsm.current_state_key(), ProgramState::Exited);
    assert_eq!(
        send(&mut fsm, ProgramEvent::Stop, 0, &mut world),
        Ok(Some("Already stopped (exited)".to_string()))
    );
    assert_eq!(
        send(&mut fsm, ProgramEvent::Restart, 0, &mut world),
        Ok(Some("Wasn't running (was exited)".to_string()))
    );
    assert_eq!(fsm.current_state_key(), ProgramState::Starting);
}

#[test]
fn events_while_starting() {
    let mut config = config("/bin/sleep");
    config.program.start_wait_secs = 5;
    let mut fsm = new_program_fsm("sleep".to_string(), &config);
    let mut world = World::new();
    tick(&mut fsm, 0, &mut world);
    assert_eq!(
        send(&mut fsm, ProgramEvent::Start, 0, &mut world),
        Ok(Some("Already starting".to_string()))
    );
    assert_eq!(fsm.current_state_key(), ProgramState::Starting);
    assert_eq!(send(&mut fsm, ProgramEvent::Stop, 0, &mut world), Ok(None));
    assert_eq!(fsm.current_state_key(), ProgramState::Stopping);
    assert!(!fsm.app_context().should_restart);
}

#[test]
fn start_in_backoff_resets_the_counter_and_starts_at_once_if_all_stopped() {
    let mut config = config("/bin/true");
    config.program.backoff_delay_secs = 100;
    config.program.start_wait_secs = 0;
    let mut fsm = new_program_fsm("true".to_string(), &config);
    let mut world = World::new();
    world.sim(ChildId::Program).exits_with = Some(0);
    tick(&mut fsm, 0, &mut world);
    assert_eq!(fsm.current_state_key(), ProgramState::Backoff);
    assert_eq!(fsm.app_context().num_restarts, 1);
    assert_eq!(
        send(&mut fsm, ProgramEvent::Start, SEC, &mut world),
        Ok(Some("Already starting (was backoff)".to_string()))
    );
    assert_eq!(fsm.current_state_key(), ProgramState::Starting);
    assert_eq!(fsm.app_context().num_restarts, 0);
}

#[test]
fn restart_in_backoff_with_a_live_logger_skips_the_delay_after_cleanup() {
    let mut config = config("/bin/echo");
    config.program.start_wait_secs = 0;
    config.program.backoff_delay_secs = 100;
    let mut logger = LoggerConfig::default();
    logger.command = "/bin/cat".to_string();
    logger.start_wait_secs = 0;
    config.logger = Some(logger);
    let mut fsm = new_program_fsm("echo".to_string(), &config);
    let mut world = World::new();
    tick(&mut fsm, 0, &mut world);
    assert_eq!(fsm.current_state_key(), ProgramState::Running);
    world.sim(ChildId::Program).alive = false;
    tick(&mut fsm, HALF, &mut world);
    assert_eq!(fsm.current_state_key(), ProgramState::Backoff);
    assert_eq!(
        send(&mut fsm, ProgramEvent::Restart, HALF, &mut world),
        Ok(Some("Will restart after backoff cleanup".to_string()))
    );
    assert_eq!(fsm.current_state_key(), ProgramState::Backoff);
    assert_eq!(fsm.app_context().num_restarts, 0);
    assert!(fsm.states.backoff.skip_backoff_delay);
    tick(&mut fsm, SEC, &mut world);
    assert_eq!(fsm.current_state_key(), ProgramState::Starting);
}

#[test]
fn start_in_backoff_with_a_live_logger_is_put_off() {
    let mut config = config("/bin/echo");
    config.program.start_wait_secs = 0;
    let mut logger = LoggerConfig::default();
    logger.command = "/bin/cat".to_string();
    logger.start_wait_secs = 0;
    config.logger = Some(logger);
    let mut fsm = new_program_fsm("echo".to_string(), &config);
    let mut world = World::new();
    tick(&mut fsm, 0, &mut world);
    world.sim(ChildId::Program).alive = false;
    tick(&mut fsm, HALF, &mut world);
    assert_eq!(
        send(&mut fsm, ProgramEvent::Start, HALF, &mut world),
        Ok(Some("Will start after backoff cleanup".to_string()))
    );
    assert_eq!(fsm.current_state_key(), ProgramState::Backoff);
}

#[test]
fn restart_in_backoff_when_all_stopped() {
    let mut config = config("/bin/true");
    config.program.backoff_delay_secs = 100;
    config.program.start_wait_secs = 0;
    let mut fsm = new_program_fsm("true".to_string(), &config);
    let mut world = World::new();
    world.sim(ChildId::Program).exits_with = Some(0);
    tick(&mut fsm, 0, &mut world);
    assert_eq!(
        send(&mut fsm, ProgramEvent::Restart, SEC, &mut world),
        Ok(Some("Wasn't running (was backoff)".to_string()))
    );
    assert_eq!(fsm.current_state_key(), ProgramState::Starting);
}

#[test]
fn stop_in_backoff_leads_to_stopping_and_stopped() {
    let mut config = config("/bin/true");
    config.program.backoff_delay_secs = 100;
    config.program.start_wait_secs = 0;
    let mut fsm = new_program_fsm("true".to_string(), &config);
    let mut world = World::new();
    world.sim(ChildId::Program).exits_with = Some(0);
    tick(&mut fsm, 0, &mut world);
    assert_eq!(send(&mut fsm, ProgramEvent::Stop, SEC, &mut world), Ok(None));
    assert_eq!(fsm.current_state_key(), ProgramState::Stopping);
    assert_eq!(fsm.app_context().num_restarts, 0);
    tick(&mut fsm, 2 * SEC, &mut world);
    assert_eq!(fsm.current_state_key(), ProgramState::Stopped);
}

#[test]
fn restart_of_a_running_program_stops_and_starts_it() {
    let mut config = config("/bin/sleep");
    config.program.start_wait_secs = 0;
    let mut fsm = new_program_fsm("sleep".to_string(), &config);
    let mut world = World::new();
    tick(&mut fsm, 0, &mut world);
    assert_eq!(send(&mut fsm, ProgramEvent::Restart, HALF, &mut world), Ok(None));
    assert_eq!(fsm.current_state_key(), ProgramState::Stopping);
    assert!(fsm.app_context().should_restart);
    let seen = states_seen(&mut fsm, &mut world, SEC, 3);
    assert_eq!(
        seen,
        vec![ProgramState::Stopping, ProgramState::Starting, ProgramState::Running]
    );
    assert_eq!(world.spawns_of(ChildId::Program), 2);
    assert!(!fsm.app_context().should_restart);
}

#[test]
fn restart_counter_never_exceeds_the_attempts() {
    let mut config = config("/bin/true");
    config.program.num_restart_attempts = 3;
    config.program.backoff_delay_secs = 0;
    config.program.start_wait_secs = 0;
    let mut fsm = new_program_fsm("true".to_string(), &config);
    let mut world = World::new();
    world.sim(ChildId::Program).exits_with = Some(0);
    let mut highest = 0;
    let mut backoffs = 0;
    let mut before = fsm.current_state_key();
    for i in 0..40 {
        tick(&mut fsm, i * HALF, &mut world);
        assert!(fsm.app_context().num_restarts <= 3);
        highest = highest.max(fsm.app_context().num_restarts);
        if fsm.current_state_key() == ProgramState::Backoff && before != ProgramState::Backoff {
            backoffs += 1;
        }
        before = fsm.current_state_key();
    }
    assert_eq!(highest, 3);
    assert_eq!(backoffs, 3);
    assert_eq!(fsm.current_state_key(), ProgramState::Exited);
}

#[test]
fn running_resets_the_restart_counter() {
    let mut config = config("/bin/sleep");
    config.program.backoff_delay_secs = 0;
    config.program.start_wait_secs = 0;
    let mut fsm = new_program_fsm("flaky".to_string(), &config);
    let mut world = World::new();
    world.sim(ChildId::Program).exits_with = Some(1);
    tick(&mut fsm, 0, &mut world);
    tick(&mut fsm, 0, &mut world);
    assert_eq!(fsm.current_state_key(), ProgramState::Starting);
    assert_eq!(fsm.app_context().num_restarts, 1);
    world.sim(ChildId::Program).exits_with = None;
    tick(&mut fsm, 0, &mut world);
    assert_eq!(fsm.current_state_key(), ProgramState::Running);
    assert_eq!(fsm.app_context().num_restarts, 0);
}

#[test]
fn quiescent_states_have_no_children() {
    let mut config = config("/bin/sleep");
    config.program.start_wait_secs = 0;
    let mut fsm = new_program_fsm("sleep".to_string(), &config);
    let mut world = World::new();
    tick(&mut fsm, 0, &mut world);
    assert_eq!(send(&mut fsm, ProgramEvent::Stop, 0, &mut world), Ok(None));
    tick(&mut fsm, 0, &mut world);
    assert_eq!(fsm.current_state_key(), ProgramState::Stopped);
    let probes = world.log.len();
    let mut at = 0;
    assert_eq!(fsm.app_context().all_programs_are_stopped(&Vec::new(), &mut at), Ok(true));
    assert_eq!(at, 0);
    assert_eq!(world.log.len(), probes);
}

#[test]
fn incomplete_journal_names_the_request_and_changes_nothing() {
    let mut config = config("/bin/sleep");
    config.program.start_wait_secs = 0;
    let mut fsm = new_program_fsm("sleep".to_string(), &config);
    let spawn = Request::Spawn { child: ChildId::Program, pipe_stdin: false, output_to: None };
    assert_eq!(fsm.update(0, &Vec::new()), Err(spawn));
    assert!(fsm.first_update);
    assert_eq!(fsm.update(0, &Vec::new()), Err(spawn));
    assert_eq!(
        fsm.update(0, &vec![Reply::Spawned]),
        Err(Request::Probe { child: ChildId::Program })
    );
    assert!(!fsm.app_context().program.program.has_child);
    assert_eq!(fsm.app_context().program.start_time, None);
    assert_eq!(fsm.current_state_key(), ProgramState::Starting);
    assert_eq!(fsm.update(0, &vec![Reply::Spawned, Reply::Running]), Ok(()));
    assert!(fsm.app_context().program.program.has_child);
    assert_eq!(fsm.current_state_key(), ProgramState::Running);
    assert!(!fsm.first_update);
}

#[test]
fn probe_failure_counts_as_not_running() {
    let mut config = config("/bin/sleep");
    config.program.start_wait_secs = 0;
    config.program.autorestart = false;
    let mut fsm = new_program_fsm("sleep".to_string(), &config);
    assert_eq!(fsm.update(0, &vec![Reply::Spawned, Reply::Running]), Ok(()));
    assert_eq!(fsm.current_state_key(), ProgramState::Running);
    // The probe of the tick fails, and so does the one that decides between Exited and Exiting.
    assert_eq!(
        fsm.update(1, &vec![Reply::ProbeFailed, Reply::ProbeFailed, Reply::Reaped]),
        Ok(())
    );
    assert_eq!(fsm.current_state_key(), ProgramState::Exited);
}

#[test]
fn pre_command_ended_by_a_signal_has_failed() {
    let mut config = config("/bin/sleep");
    let mut pre_command = PreCommandConfig::default();
    pre_command.command = "/bin/sleep".to_string();
    config.program.pre_command = Some(pre_command);
    config.program.autorestart = false;
    let mut fsm = new_program_fsm("guarded".to_string(), &config);
    assert_eq!(fsm.update(0, &vec![Reply::Spawned]), Ok(()));
    assert_eq!(
        fsm.update(1, &vec![Reply::Exited { code: None }, Reply::Exited { code: None }, Reply::Reaped]),
        Ok(())
    );
    assert_eq!(fsm.current_state_key(), ProgramState::Exited);
}

#[test]
fn program_whose_children_never_last_is_given_up_within_the_bound() {
    for attempts in 0..4u32 {
        let mut config = config("/bin/true");
        let mut pre_command = PreCommandConfig::default();
        pre_command.command = "/bin/true".to_string();
        config.program.pre_command = Some(pre_command);
        config.program.logger = Some("log".to_string());
        let mut logger = LoggerConfig::default();
        logger.command = "/bin/true".to_string();
        let mut logger_pre_command = PreCommandConfig::default();
        logger_pre_command.command = "/bin/true".to_string();
        logger.pre_command = Some(logger_pre_command);
        config.logger = Some(logger);
        config.program.num_restart_attempts = attempts;
        config.program.backoff_delay_secs = 0;
        let mut fsm = new_program_fsm("brief".to_string(), &config);
        let mut world = World::new();
        for child in [
            ChildId::Program,
            ChildId::PreCommand,
            ChildId::Logger,
            ChildId::LoggerPreCommand,
        ] {
            world.sim(child).exits_with = Some(0);
        }
        // Two ticks for the pre-commands and one for the rest of each start,
        // and one tick in `Backoff` for each attempt.
        let bound = 4 * u64::from(attempts) + 3;
        let mut seen = vec![fsm.current_state_key()];
        for i in 0..bound {
            assert_ne!(fsm.current_state_key(), ProgramState::Exited);
            tick(&mut fsm, i * HALF, &mut world);
            assert_ne!(fsm.current_state_key(), ProgramState::Running);
            assert_ne!(fsm.current_state_key(), ProgramState::Exiting);
            if *seen.last().unwrap() != fsm.current_state_key() {
                seen.push(fsm.current_state_key());
            }
        }
        assert_eq!(fsm.current_state_key(), ProgramState::Exited);
        let mut expected = vec![ProgramState::Starting];
        for _ in 0..attempts {
            expected.push(ProgramState::Backoff);
            expected.push(ProgramState::Starting);
        }
        expected.push(ProgramState::Exited);
        assert_eq!(seen, expected);
        assert_eq!(world.spawns_of(ChildId::Program), attempts as usize + 1);
    }
}
