use chay::config::{
    default_autorestart, default_autostart, default_backoff_delay_secs,
    default_num_restart_attempts, default_pre_command_timeout_secs, default_sigkill_delay_secs,
    default_start_wait_secs, LoggerConfig, PreCommandConfig, ProgramConfig,
    RenderedProgramConfig,
};
use chay::os::{
    elapsed, perform, secs_to_nanos, ChildId, ExitStatus, ProbeError, Reply, Request, Signal,
    SignalError, SpawnError, NANOS_PER_SEC,
};
use chay::program::Program;
use chay::program_context::{
    logger_name, logger_pre_command_name, pre_command_name, send_signal_to_program_if_running,
    signal_to_str, ProgramContext,
};

fn child(has_child: bool) -> Program {
    let mut program = Program::new(
        ChildId::Logger,
        "web-logger".to_string(),
        "/bin/cat".to_string(),
        Some(vec!["-u".to_string()]),
    );
    program.has_child = has_child;
    program
}

#[test]
fn elapsed_is_the_difference_and_never_negative() {
    assert_eq!(elapsed(10, 3), 7);
    assert_eq!(elapsed(3, 3), 0);
    assert_eq!(elapsed(3, 10), 0);
    assert_eq!(elapsed(u64::MAX, 0), u64::MAX);
}

#[test]
fn seconds_are_a_billion_nanoseconds() {
    assert_eq!(NANOS_PER_SEC, 1_000_000_000);
    assert_eq!(secs_to_nanos(0), 0);
    assert_eq!(secs_to_nanos(1), 1_000_000_000);
    assert_eq!(secs_to_nanos(10), 10_000_000_000);
    assert_eq!(secs_to_nanos(u32::MAX), 4_294_967_295_000_000_000);
}

#[test]
fn exit_status_is_a_success_only_with_code_zero() {
    assert!(ExitStatus { code: Some(0) }.success());
    assert!(!ExitStatus { code: Some(1) }.success());
    assert!(!ExitStatus { code: Some(-1) }.success());
    assert!(!ExitStatus { code: None }.success());
    assert_eq!(ExitStatus { code: Some(3) }.code(), Some(3));
    assert_eq!(ExitStatus { code: None }.code(), None);
}

#[test]
fn replies_are_read_as_outcomes() {
    assert_eq!(Reply::Running.probe_outcome(), Ok(None));
    assert_eq!(
        Reply::Exited { code: Some(2) }.probe_outcome(),
        Ok(Some(ExitStatus { code: Some(2) }))
    );
    assert_eq!(Reply::ProbeFailed.probe_outcome(), Err(ProbeError {}));
    assert_eq!(Reply::Spawned.probe_outcome(), Err(ProbeError {}));
    assert_eq!(Reply::Spawned.spawn_outcome(), Ok(()));
    assert_eq!(
        Reply::SpawnFailed { os_error: Some(13) }.spawn_outcome(),
        Err(SpawnError { os_error: Some(13) })
    );
    assert_eq!(Reply::Running.spawn_outcome(), Err(SpawnError { os_error: None }));
    assert_eq!(Reply::Signalled.signal_outcome(), Ok(()));
    assert_eq!(
        Reply::SignalFailed { errno: 3 }.signal_outcome(),
        Err(SignalError::Os { errno: 3 })
    );
}

#[test]
fn perform_reads_the_journal_in_order() {
    let journal = vec![Reply::Spawned, Reply::Running];
    let probe = Request::Probe { child: ChildId::Program };
    let mut at = 0;
    assert_eq!(perform(probe, &journal, &mut at), Ok(Reply::Spawned));
    assert_eq!(at, 1);
    assert_eq!(perform(probe, &journal, &mut at), Ok(Reply::Running));
    assert_eq!(at, 2);
    assert_eq!(perform(probe, &journal, &mut at), Err(probe));
    assert_eq!(at, 2);
}

#[test]
fn new_child_has_no_process() {
    let program = child(false);
    assert_eq!(program.id, ChildId::Logger);
    assert_eq!(program.name, "web-logger");
    assert_eq!(program.command, "/bin/cat");
    assert_eq!(program.args, Some(vec!["-u".to_string()]));
    assert!(!program.has_child);
}

#[test]
fn child_without_process_is_not_running_and_not_probed() {
    let program = child(false);
    let mut at = 0;
    assert_eq!(program.is_running(&Vec::new(), &mut at), Ok(false));
    assert_eq!(program.exit_status_unchecked(&Vec::new(), &mut at), Ok(Err(ProbeError {})));
    assert_eq!(program.reap(&Vec::new(), &mut at), Ok(()));
    assert_eq!(at, 0);
}

#[test]
fn child_with_process_is_probed() {
    let program = child(true);
    let probe = Request::Probe { child: ChildId::Logger };
    let mut at = 0;
    assert_eq!(program.is_running(&Vec::new(), &mut at), Err(probe));
    assert_eq!(program.is_running(&vec![Reply::Running], &mut at), Ok(true));
    assert_eq!(at, 1);
    let mut at = 0;
    assert_eq!(program.is_running(&vec![Reply::Exited { code: Some(0) }], &mut at), Ok(false));
    let mut at = 0;
    assert_eq!(program.is_running(&vec![Reply::ProbeFailed], &mut at), Ok(false));
    let mut at = 0;
    assert_eq!(
        program.exit_status_unchecked(&vec![Reply::Exited { code: Some(9) }], &mut at),
        Ok(Ok(Some(ExitStatus { code: Some(9) })))
    );
    let mut at = 0;
    assert_eq!(program.exit_status_unchecked(&vec![Reply::Running], &mut at), Ok(Ok(None)));
    let mut at = 0;
    assert_eq!(
        program.exit_status_unchecked(&vec![Reply::ProbeFailed], &mut at),
        Ok(Err(ProbeError {}))
    );
}

#[test]
fn signal_without_process_fails_without_asking() {
    let program = child(false);
    let mut at = 0;
    assert_eq!(
        program.send_signal(Signal::SIGTERM, &Vec::new(), &mut at),
        Ok(Err(SignalError::NoChild))
    );
    assert_eq!(at, 0);
}

#[test]
fn signal_is_delivered_or_refused_by_the_os() {
    let program = child(true);
    let mut at = 0;
    assert_eq!(
        program.send_signal(Signal::SIGKILL, &Vec::new(), &mut at),
        Err(Request::Kill { child: ChildId::Logger, signal: Signal::SIGKILL })
    );
    assert_eq!(program.send_signal(Signal::SIGKILL, &vec![Reply::Signalled], &mut at), Ok(Ok(())));
    let mut at = 0;
    assert_eq!(
        program.send_signal(Signal::SIGTERM, &vec![Reply::SignalFailed { errno: 1 }], &mut at),
        Ok(Err(SignalError::Os { errno: 1 }))
    );
}

#[test]
fn start_reaps_the_old_process_and_spawns_a_new_one() {
    let mut program = child(true);
    let mut at = 0;
    assert_eq!(
        program.start(true, None, &Vec::new(), &mut at),
        Err(Request::Reap { child: ChildId::Logger })
    );
    let mut program = child(true);
    let mut at = 0;
    assert_eq!(
        program.start(true, None, &vec![Reply::Reaped], &mut at),
        Err(Request::Spawn { child: ChildId::Logger, pipe_stdin: true, output_to: None })
    );
    let mut program = child(true);
    let mut at = 0;
    assert_eq!(
        program.start(true, None, &vec![Reply::Reaped, Reply::Spawned], &mut at),
        Ok(Ok(()))
    );
    assert_eq!(at, 2);
    assert!(program.has_child);
}

#[test]
fn failed_start_leaves_no_process() {
    let mut program = child(false);
    let mut at = 0;
    assert_eq!(
        program.start(
            false,
            Some(ChildId::Logger),
            &vec![Reply::SpawnFailed { os_error: Some(2) }],
            &mut at
        ),
        Ok(Err(SpawnError { os_error: Some(2) }))
    );
    assert!(!program.has_child);
    assert_eq!(at, 1);
}

#[test]
fn reset_gives_the_process_up() {
    let mut program = child(true);
    let mut at = 0;
    assert_eq!(program.reset_child_proc(&vec![Reply::Reaped], &mut at), Ok(()));
    assert!(!program.has_child);
    assert_eq!(at, 1);
    assert_eq!(program.reset_child_proc(&vec![Reply::Reaped], &mut at), Ok(()));
    assert_eq!(at, 1);
}

#[test]
fn signal_goes_only_to_a_running_process() {
    let program = child(true);
    let mut at = 0;
    assert_eq!(
        send_signal_to_program_if_running(&program, Signal::SIGTERM, &vec![Reply::Running], &mut at),
        Err(Request::Kill { child: ChildId::Logger, signal: Signal::SIGTERM })
    );
    let mut at = 0;
    assert_eq!(
        send_signal_to_program_if_running(
            &program,
            Signal::SIGTERM,
            &vec![Reply::Exited { code: Some(0) }],
            &mut at
        ),
        Ok(())
    );
    assert_eq!(at, 1);
    let mut at = 0;
    assert_eq!(
        send_signal_to_program_if_running(
            &program,
            Signal::SIGTERM,
            &vec![Reply::Running, Reply::SignalFailed { errno: 3 }],
            &mut at
        ),
        Ok(())
    );
    assert_eq!(at, 2);
}

#[test]
fn names_of_the_side_cars() {
    assert_eq!(pre_command_name("web"), "web-pre-command");
    assert_eq!(logger_name("web"), "web-logger");
    assert_eq!(logger_pre_command_name("web"), "web-logger-pre-command");
    assert_eq!(logger_name(""), "-logger");
}

#[test]
fn names_of_the_signals() {
    assert_eq!(signal_to_str(Signal::SIGKILL), "SIGKILL");
    assert_eq!(signal_to_str(Signal::SIGTERM), "SIGTERM");
}

#[test]
fn defaults_of_the_configuration() {
    assert_eq!(default_pre_command_timeout_secs(), 1);
    assert_eq!(default_start_wait_secs(), 1);
    assert!(default_autostart());
    assert!(default_autorestart());
    assert_eq!(default_backoff_delay_secs(), 1);
    assert_eq!(default_num_restart_attempts(), 4);
    assert_eq!(default_sigkill_delay_secs(), 10);
    let program = ProgramConfig::default();
    assert!(program.autostart);
    assert!(program.autorestart);
    assert_eq!(program.backoff_delay_secs, 1);
    assert_eq!(program.num_restart_attempts, 4);
    assert_eq!(program.sigkill_delay_secs, 10);
    assert_eq!(program.start_wait_secs, 1);
    assert_eq!(program.pre_command, None);
    assert_eq!(program.logger, None);
    assert_eq!(PreCommandConfig::default().timeout_secs, 1);
    assert_eq!(LoggerConfig::default().start_wait_secs, 1);
    assert_eq!(RenderedProgramConfig::default().logger, None);
}

fn full_config() -> RenderedProgramConfig {
    RenderedProgramConfig {
        program: ProgramConfig {
            command: "/usr/bin/web".to_string(),
            args: Some(vec!["--port".to_string(), "80".to_string()]),
            pre_command: Some(PreCommandConfig {
                command: "/usr/bin/migrate".to_string(),
                args: None,
                timeout_secs: 30,
            }),
            start_wait_secs: 2,
            logger: Some("file".to_string()),
            autostart: false,
            autorestart: true,
            backoff_delay_secs: 5,
            num_restart_attempts: 7,
            sigkill_delay_secs: 3,
        },
        logger: Some(LoggerConfig {
            command: "/usr/bin/tee".to_string(),
            args: Some(vec!["/var/log/web".to_string()]),
            pre_command: Some(PreCommandConfig {
                command: "/bin/mkdir".to_string(),
                args: Some(vec!["-p".to_string(), "/var/log".to_string()]),
                timeout_secs: 4,
            }),
            start_wait_secs: 6,
        }),
    }
}

#[test]
fn getters_of_the_configuration() {
    let config = full_config();
    assert!(!config.autostart());
    assert!(config.autorestart());
    assert_eq!(config.backoff_delay_secs(), 5);
    assert_eq!(config.num_restart_attempts(), 7);
    assert_eq!(config.sigkill_delay_secs(), 3);
    assert_eq!(config.program.command(), "/usr/bin/web");
    assert_eq!(config.program.args(), Some(vec!["--port".to_string(), "80".to_string()]));
    assert!(!config.program.autostart());
    assert!(config.program.autorestart());
    assert_eq!(config.program.backoff_delay(), 5);
    assert_eq!(config.program.num_restart_attempts(), 7);
    assert_eq!(config.program.sigkill_delay(), 3);
}

#[test]
fn copy_of_a_configuration_is_equal() {
    let config = full_config();
    assert_eq!(config.clone(), config);
    assert_eq!(config.program.clone(), config.program);
    assert_eq!(RenderedProgramConfig::default().clone(), RenderedProgramConfig::default());
}

#[test]
fn context_has_the_children_that_the_configuration_describes() {
    let context = ProgramContext::new("web", full_config());
    assert_eq!(context.name(), "web");
    assert_eq!(context.config, full_config());
    assert_eq!(context.num_restarts, 0);
    assert!(!context.should_restart);
    assert_eq!(context.sigterm_time, None);
    assert_eq!(context.program.program.id, ChildId::Program);
    assert_eq!(context.program.program.name, "web");
    assert_eq!(context.program.program.command, "/usr/bin/web");
    assert_eq!(
        context.program.program.args,
        Some(vec!["--port".to_string(), "80".to_string()])
    );
    assert_eq!(context.program.start_wait, 2_000_000_000);
    assert_eq!(context.program.start_time, None);
    let pre_command = context.pre_command.as_ref().unwrap();
    assert_eq!(pre_command.program.id, ChildId::PreCommand);
    assert_eq!(pre_command.program.name, "web-pre-command");
    assert_eq!(pre_command.program.command, "/usr/bin/migrate");
    assert_eq!(pre_command.program.args, None);
    assert_eq!(pre_command.timeout, 30_000_000_000);
    let logger = context.logger.as_ref().unwrap();
    assert_eq!(logger.program.id, ChildId::Logger);
    assert_eq!(logger.program.name, "web-logger");
    assert_eq!(logger.program.command, "/usr/bin/tee");
    assert_eq!(logger.start_wait, 6_000_000_000);
    let logger_pre_command = context.logger_pre_command.as_ref().unwrap();
    assert_eq!(logger_pre_command.program.id, ChildId::LoggerPreCommand);
    assert_eq!(logger_pre_command.program.name, "web-logger-pre-command");
    assert_eq!(logger_pre_command.program.command, "/bin/mkdir");
    assert_eq!(logger_pre_command.timeout, 4_000_000_000);
    assert!(!logger_pre_command.program.has_child);
}

#[test]
fn context_without_side_cars() {
    let context = ProgramContext::new("solo", RenderedProgramConfig::default());
    assert!(context.pre_command.is_none());
    assert!(context.logger.is_none());
    assert!(context.logger_pre_command.is_none());
}

fn launched_context() -> ProgramContext {
    let mut context = ProgramContext::new("web", full_config());
    context.program.program.has_child = true;
    context.pre_command.as_mut().unwrap().program.has_child = true;
    context.logger.as_mut().unwrap().program.has_child = true;
    context.logger_pre_command.as_mut().unwrap().program.has_child = true;
    context
}

#[test]
fn all_running_probes_the_logger_first() {
    let context = launched_context();
    let mut at = 0;
    assert_eq!(
        context.all_programs_are_running(&Vec::new(), &mut at),
        Err(Request::Probe { child: ChildId::Logger })
    );
    let mut at = 0;
    assert_eq!(
        context.all_programs_are_running(&vec![Reply::Running], &mut at),
        Err(Request::Probe { child: ChildId::Program })
    );
    let mut at = 0;
    assert_eq!(context.all_programs_are_running(&vec![Reply::Running, Reply::Running], &mut at), Ok(true));
    let mut at = 0;
    assert_eq!(
        context.all_programs_are_running(&vec![Reply::Exited { code: Some(0) }], &mut at),
        Ok(false)
    );
    assert_eq!(at, 1);
    let mut at = 0;
    assert_eq!(
        context.all_programs_are_running(&vec![Reply::Running, Reply::ProbeFailed], &mut at),
        Ok(false)
    );
}

#[test]
fn all_stopped_probes_up_to_the_first_that_runs() {
    let context = launched_context();
    let exited = Reply::Exited { code: Some(0) };
    let mut at = 0;
    assert_eq!(
        context.all_programs_are_stopped(&Vec::new(), &mut at),
        Err(Request::Probe { child: ChildId::Program })
    );
    let mut at = 0;
    assert_eq!(
        context.all_programs_are_stopped(&vec![exited], &mut at),
        Err(Request::Probe { child: ChildId::PreCommand })
    );
    let mut at = 0;
    assert_eq!(
        context.all_programs_are_stopped(&vec![exited, exited], &mut at),
        Err(Request::Probe { child: ChildId::Logger })
    );
    let mut at = 0;
    assert_eq!(
        context.all_programs_are_stopped(&vec![exited, exited, exited], &mut at),
        Err(Request::Probe { child: ChildId::LoggerPreCommand })
    );
    let mut at = 0;
    assert_eq!(context.all_programs_are_stopped(&vec![exited, exited, exited, exited], &mut at), Ok(true));
    assert_eq!(at, 4);
    let mut at = 0;
    assert_eq!(context.all_programs_are_stopped(&vec![exited, Reply::Running], &mut at), Ok(false));
    assert_eq!(at, 2);
}

#[test]
fn signals_go_to_the_side_cars_first() {
    let context = launched_context();
    let mut journal: Vec<Reply> = Vec::new();
    let mut asked: Vec<Request> = Vec::new();
    loop {
        let mut at = 0;
        match context.send_signal_to_all_running_programs(Signal::SIGTERM, &journal, &mut at) {
            Ok(()) => break,
            Err(request) => {
                asked.push(request);
                journal.push(match request {
                    Request::Probe { .. } => Reply::Running,
                    _ => Reply::Signalled,
                });
            }
        }
    }
    let order = [
        ChildId::PreCommand,
        ChildId::LoggerPreCommand,
        ChildId::Logger,
        ChildId::Program,
    ];
    let mut expected: Vec<Request> = Vec::new();
    for child in order {
        expected.push(Request::Probe { child });
        expected.push(Request::Kill { child, signal: Signal::SIGTERM });
    }
    assert_eq!(asked, expected);
}

#[test]
fn termination_protocol_sends_sigterm_first_and_sigkill_when_due() {
    let mut context = ProgramContext::new("solo", RenderedProgramConfig::default());
    context.program.program.has_child = true;
    context.config.program.sigkill_delay_secs = 2;
    let mut at = 0;
    assert_eq!(
        context.send_sigterm_or_sigkill_signal_to_all_running_programs(
            100,
            &vec![Reply::Running, Reply::Signalled],
            &mut at
        ),
        Ok(())
    );
    assert_eq!(context.sigterm_time, Some(100));
    assert_eq!(at, 2);
    // Before the delay is over nothing is asked of the operating system.
    let mut at = 0;
    assert_eq!(
        context.send_sigterm_or_sigkill_signal_to_all_running_programs(
            100 + 2 * NANOS_PER_SEC - 1,
            &Vec::new(),
            &mut at
        ),
        Ok(())
    );
    assert_eq!(context.sigterm_time, Some(100));
    let mut at = 0;
    assert_eq!(
        context.send_sigterm_or_sigkill_signal_to_all_running_programs(
            100 + 2 * NANOS_PER_SEC,
            &vec![Reply::Running],
            &mut at
        ),
        Err(Request::Kill { child: ChildId::Program, signal: Signal::SIGKILL })
    );
}

#[test]
fn reset_reaps_every_child_and_keeps_counter_and_intent() {
    let mut context = launched_context();
    context.num_restarts = 3;
    context.should_restart = true;
    context.sigterm_time = Some(5);
    context.program.start_time = Some(1);
    let mut at = 0;
    assert_eq!(
        context.reset(&vec![Reply::Reaped, Reply::Reaped, Reply::Reaped, Reply::Reaped], &mut at),
        Ok(())
    );
    assert_eq!(at, 4);
    assert!(!context.program.program.has_child);
    assert!(!context.pre_command.as_ref().unwrap().program.has_child);
    assert!(!context.logger.as_ref().unwrap().program.has_child);
    assert!(!context.logger_pre_command.as_ref().unwrap().program.has_child);
    assert_eq!(context.program.start_time, None);
    assert_eq!(context.sigterm_time, None);
    assert_eq!(context.num_restarts, 3);
    assert!(context.should_restart);
}

#[test]
fn checkpoint_brings_back_what_changed() {
    let mut context = launched_context();
    context.num_restarts = 2;
    let saved = context.checkpoint();
    context.num_restarts = 0;
    context.should_restart = true;
    context.program.program.has_child = false;
    context.logger.as_mut().unwrap().start_time = Some(9);
    context.restore(saved);
    assert_eq!(context.num_restarts, 2);
    assert!(!context.should_restart);
    assert!(context.program.program.has_child);
    assert_eq!(context.logger.as_ref().unwrap().start_time, None);
    assert_eq!(context.checkpoint(), saved);
}
