//! A supervised program: its process, its side-cars and what the state
//! machine remembers about them.

use crate::config::{args_view, clone_args, RenderedProgramConfig};
use crate::os::{
    action_agrees, elapsed, query_agrees, secs_to_nanos, spec_elapsed, spec_secs_to_nanos,
    ChildId, Reply, Signal, Step,
};
use crate::program::Program;
use vstd::prelude::*;
use vstd::string::StringExecFns;

verus! {

/// How far a pre-command has come.
#[allow(non_camel_case_types)]
#[derive(Clone, Copy, Debug, PartialEq, Eq, Structural)]
pub enum PrecommandStatus {
    RUNNING,
    SUCCESS,
    ERROR,
}

/// A helper that must exit with code 0 before the process it belongs to is
/// launched.
#[derive(Debug)]
pub struct PrecommandContext {
    pub program: Program,
    /// The helper has failed if it runs for longer than this, in nanoseconds.
    pub timeout: u64,
    /// The clock reading at which the helper was launched.
    pub start_time: Option<u64>,
}

/// How far a long-running process has come with starting.
#[allow(non_camel_case_types)]
#[derive(Clone, Copy, Debug, PartialEq, Eq, Structural)]
pub enum SubprogramStatus {
    STARTING,
    SUCCESS,
    ERROR,
}

/// A long-running process: the program itself or its logger.
#[derive(Debug)]
pub struct SubprogramContext {
    pub program: Program,
    /// The process counts as started once it has run for this long, in
    /// nanoseconds.
    pub start_wait: u64,
    /// The clock reading at which the process was launched.
    pub start_time: Option<u64>,
}

/// Runs a program and all associated side-car programs (the logger, if one
/// is configured, and the pre-commands).
#[derive(Debug)]
pub struct ProgramContext {
    pub name: String,
    pub config: RenderedProgramConfig,
    pub program: SubprogramContext,
    pub pre_command: Option<PrecommandContext>,
    pub logger: Option<SubprogramContext>,
    pub logger_pre_command: Option<PrecommandContext>,
    /// How many times in a row the program has been started again.
    pub num_restarts: u32,
    /// Whether the program is to be started again once it has been stopped.
    pub should_restart: bool,
    /// The clock reading at which SIGTERM was sent, while terminating.
    pub sigterm_time: Option<u64>,
}

/// What changes about one child while it is supervised.
#[derive(Clone, Copy, Debug, PartialEq, Eq, Structural)]
pub struct ChildCheckpoint {
    pub has_child: bool,
    pub start_time: Option<u64>,
}

/// Everything that changes about a supervised program; see
/// [`ProgramContext::checkpoint`].
#[derive(Clone, Copy, Debug, PartialEq, Eq, Structural)]
pub struct ContextCheckpoint {
    pub program: ChildCheckpoint,
    pub pre_command: ChildCheckpoint,
    pub logger: ChildCheckpoint,
    pub logger_pre_command: ChildCheckpoint,
    pub num_restarts: u32,
    pub should_restart: bool,
    pub sigterm_time: Option<u64>,
}

/// The name under which the pre-command of a program's logger is reported.
pub fn logger_pre_command_name(program_name: &str) -> (r: String)
    ensures
        r@ == program_name@ + "-logger-pre-command"@,
{
    let mut name = String::from_str(program_name);
    name.append("-logger-pre-command");
    name
}

/// The name under which the logger of a program is reported.
pub fn logger_name(program_name: &str) -> (r: String)
    ensures
        r@ == program_name@ + "-logger"@,
{
    let mut name = String::from_str(program_name);
    name.append("-logger");
    name
}

/// The name under which the pre-command of a program is reported.
pub fn pre_command_name(program_name: &str) -> (r: String)
    ensures
        r@ == program_name@ + "-pre-command"@,
{
    let mut name = String::from_str(program_name);
    name.append("-pre-command");
    name
}

/// The conventional name of a signal.
pub open spec fn spec_signal_to_str(signal: Signal) -> Seq<char> {
    match signal {
        Signal::SIGKILL => "SIGKILL"@,
        Signal::SIGTERM => "SIGTERM"@,
    }
}

pub fn signal_to_str(signal: Signal) -> (r: String)
    ensures
        r@ == spec_signal_to_str(signal),
{
    match signal {
        Signal::SIGKILL => String::from_str("SIGKILL"),
        Signal::SIGTERM => String::from_str("SIGTERM"),
    }
}

pub open spec fn spec_send_signal_to_program_if_running(
    program: Program,
    signal: Signal,
    journal: Seq<Reply>,
    at: nat,
) -> Step<((), nat)> {
    match program.spec_is_running(journal, at) {
        Err(request) => Err(request),
        Ok((false, next)) => Ok(((), next)),
        Ok((true, next)) => match program.spec_send_signal(signal, journal, next) {
            Err(request) => Err(request),
            Ok((_, last)) => Ok(((), last)),
        },
    }
}

/// Probes the process and, if it runs, sends it the signal. Whether the
/// signal could be delivered makes no difference to what follows.
pub fn send_signal_to_program_if_running(
    program: &Program,
    signal: Signal,
    journal: &Vec<Reply>,
    at: &mut usize,
) -> (r: Step<()>)
    ensures
        query_agrees(
            spec_send_signal_to_program_if_running(*program, signal, journal@, *old(at) as nat),
            r,
            *final(at),
        ),
{
    if program.is_running(journal, at)? {
        let _ = program.send_signal(signal, journal, at)?;
    }
    Ok(())
}

/// Goes on from `sofar` with the probe of one more child, unless a child
/// was already found running or there is no such child.
pub open spec fn spec_or_running(
    sofar: Step<(bool, nat)>,
    child: Option<Program>,
    journal: Seq<Reply>,
) -> Step<(bool, nat)> {
    match sofar {
        Err(request) => Err(request),
        Ok((true, at)) => Ok((true, at)),
        Ok((false, at)) => match child {
            None => Ok((false, at)),
            Some(program) => program.spec_is_running(journal, at),
        },
    }
}

/// Goes on from `sofar` with the signal to one more child, if there is one.
pub open spec fn spec_then_signal(
    sofar: Step<((), nat)>,
    child: Option<Program>,
    signal: Signal,
    journal: Seq<Reply>,
) -> Step<((), nat)> {
    match sofar {
        Err(request) => Err(request),
        Ok((_, at)) => match child {
            None => Ok(((), at)),
            Some(program) => spec_send_signal_to_program_if_running(program, signal, journal, at),
        },
    }
}

impl PrecommandContext {
    /// What never changes about the helper.
    pub open spec fn fixed(self) -> PrecommandContext {
        PrecommandContext { program: self.program.fixed(), start_time: None, ..self }
    }

    pub open spec fn spec_checkpoint(self) -> ChildCheckpoint {
        ChildCheckpoint { has_child: self.program.has_child, start_time: self.start_time }
    }

    pub open spec fn spec_restored(self, saved: ChildCheckpoint) -> PrecommandContext {
        PrecommandContext {
            program: Program { has_child: saved.has_child, ..self.program },
            start_time: saved.start_time,
            ..self
        }
    }

    pub open spec fn spec_reset(self, journal: Seq<Reply>, at: nat) -> Step<
        (PrecommandContext, nat),
    > {
        match self.program.spec_reset_child_proc(journal, at) {
            Err(request) => Err(request),
            Ok((program, next)) => Ok((PrecommandContext { program, start_time: None, ..self }, next)),
        }
    }

    /// Reaps the helper, gives it up and forgets when it was launched.
    pub fn reset(&mut self, journal: &Vec<Reply>, at: &mut usize) -> (r: Step<()>)
        ensures
            action_agrees(
                old(self).spec_reset(journal@, *old(at) as nat),
                r,
                *final(self),
                *final(at),
            ),
            final(self).fixed() == old(self).fixed(),
    {
        self.program.reset_child_proc(journal, at)?;
        self.start_time = None;
        Ok(())
    }
}

impl SubprogramContext {
    /// What never changes about the process.
    pub open spec fn fixed(self) -> SubprogramContext {
        SubprogramContext { program: self.program.fixed(), start_time: None, ..self }
    }

    pub open spec fn spec_checkpoint(self) -> ChildCheckpoint {
        ChildCheckpoint { has_child: self.program.has_child, start_time: self.start_time }
    }

    pub open spec fn spec_restored(self, saved: ChildCheckpoint) -> SubprogramContext {
        SubprogramContext {
            program: Program { has_child: saved.has_child, ..self.program },
            start_time: saved.start_time,
            ..self
        }
    }

    pub open spec fn spec_reset(self, journal: Seq<Reply>, at: nat) -> Step<
        (SubprogramContext, nat),
    > {
        match self.program.spec_reset_child_proc(journal, at) {
            Err(request) => Err(request),
            Ok((program, next)) => Ok((SubprogramContext { program, start_time: None, ..self }, next)),
        }
    }

    /// Reaps the process, gives it up and forgets when it was launched.
    pub fn reset(&mut self, journal: &Vec<Reply>, at: &mut usize) -> (r: Step<()>)
        ensures
            action_agrees(
                old(self).spec_reset(journal@, *old(at) as nat),
                r,
                *final(self),
                *final(at),
            ),
            final(self).fixed() == old(self).fixed(),
    {
        self.program.reset_child_proc(journal, at)?;
        self.start_time = None;
        Ok(())
    }
}

/// The process of a helper, if the helper is configured.
pub open spec fn helper_process(helper: Option<PrecommandContext>) -> Option<Program> {
    match helper {
        Some(context) => Some(context.program),
        None => None,
    }
}

/// The process of a logger, if the logger is configured.
pub open spec fn logger_process(logger: Option<SubprogramContext>) -> Option<Program> {
    match logger {
        Some(context) => Some(context.program),
        None => None,
    }
}

pub open spec fn fixed_helper(helper: Option<PrecommandContext>) -> Option<PrecommandContext> {
    match helper {
        Some(context) => Some(context.fixed()),
        None => None,
    }
}

pub open spec fn fixed_logger(logger: Option<SubprogramContext>) -> Option<SubprogramContext> {
    match logger {
        Some(context) => Some(context.fixed()),
        None => None,
    }
}

pub open spec fn spec_reset_helper(
    helper: Option<PrecommandContext>,
    journal: Seq<Reply>,
    at: nat,
) -> Step<(Option<PrecommandContext>, nat)> {
    match helper {
        None => Ok((None, at)),
        Some(context) => match context.spec_reset(journal, at) {
            Err(request) => Err(request),
            Ok((after, next)) => Ok((Some(after), next)),
        },
    }
}

pub open spec fn spec_reset_logger(
    logger: Option<SubprogramContext>,
    journal: Seq<Reply>,
    at: nat,
) -> Step<(Option<SubprogramContext>, nat)> {
    match logger {
        None => Ok((None, at)),
        Some(context) => match context.spec_reset(journal, at) {
            Err(request) => Err(request),
            Ok((after, next)) => Ok((Some(after), next)),
        },
    }
}

/// The helper that `name` and `config` describe, not yet launched.
pub open spec fn describes_helper(
    helper: PrecommandContext,
    id: ChildId,
    name: Seq<char>,
    command: Seq<char>,
    args: Option<Seq<Seq<char>>>,
    timeout_secs: u32,
) -> bool {
    &&& helper.program.id == id
    &&& helper.program.name@ == name
    &&& helper.program.command@ == command
    &&& args_view(helper.program.args) == args
    &&& helper.timeout == spec_secs_to_nanos(timeout_secs)
}

/// The long-running process that `name` and `config` describe.
pub open spec fn describes_subprogram(
    subprogram: SubprogramContext,
    id: ChildId,
    name: Seq<char>,
    command: Seq<char>,
    args: Option<Seq<Seq<char>>>,
    start_wait_secs: u32,
) -> bool {
    &&& subprogram.program.id == id
    &&& subprogram.program.name@ == name
    &&& subprogram.program.command@ == command
    &&& args_view(subprogram.program.args) == args
    &&& subprogram.start_wait == spec_secs_to_nanos(start_wait_secs)
}

impl ProgramContext {
    /// The children are those that the name and the configuration describe:
    /// the program, its pre-command if it has one, the logger if there is
    /// one, and the logger's pre-command if it has one.
    pub open spec fn describes_config(self) -> bool {
        &&& describes_subprogram(
            self.program,
            ChildId::Program,
            self.name@,
            self.config.program.command@,
            args_view(self.config.program.args),
            self.config.program.start_wait_secs,
        )
        &&& match self.config.program.pre_command {
            None => self.pre_command is None,
            Some(config) => self.pre_command matches Some(helper) && describes_helper(
                helper,
                ChildId::PreCommand,
                self.name@ + "-pre-command"@,
                config.command@,
                args_view(config.args),
                config.timeout_secs,
            ),
        }
        &&& match self.config.logger {
            None => self.logger is None && self.logger_pre_command is None,
            Some(config) => {
                &&& self.logger matches Some(logger) && describes_subprogram(
                    logger,
                    ChildId::Logger,
                    self.name@ + "-logger"@,
                    config.command@,
                    args_view(config.args),
                    config.start_wait_secs,
                )
                &&& match config.pre_command {
                    None => self.logger_pre_command is None,
                    Some(helper_config) => self.logger_pre_command matches Some(helper)
                        && describes_helper(
                        helper,
                        ChildId::LoggerPreCommand,
                        self.name@ + "-logger-pre-command"@,
                        helper_config.command@,
                        args_view(helper_config.args),
                        helper_config.timeout_secs,
                    ),
                }
            },
        }
    }

    /// Nothing has been launched and nothing is remembered.
    pub open spec fn pristine(self) -> bool {
        self.spec_checkpoint() == (ContextCheckpoint {
            program: ChildCheckpoint { has_child: false, start_time: None },
            pre_command: ChildCheckpoint { has_child: false, start_time: None },
            logger: ChildCheckpoint { has_child: false, start_time: None },
            logger_pre_command: ChildCheckpoint { has_child: false, start_time: None },
            num_restarts: 0,
            should_restart: false,
            sigterm_time: None,
        })
    }

    /// The program `name` with the children that `config` describes, none of
    /// them launched.
    pub fn new(name: &str, config: RenderedProgramConfig) -> (r: Self)
        ensures
            r.name@ == name@,
            r.config == config,
            r.describes_config(),
            r.pristine(),
    {
        let program = SubprogramContext {
            program: Program::new(
                ChildId::Program,
                String::from_str(name),
                config.program.command.clone(),
                clone_args(&config.program.args),
            ),
            start_wait: secs_to_nanos(config.program.start_wait_secs),
            start_time: None,
        };
        let pre_command = if let Some(pre_command_config) = &config.program.pre_command {
            Some(
                PrecommandContext {
                    program: Program::new(
                        ChildId::PreCommand,
                        pre_command_name(name),
                        pre_command_config.command.clone(),
                        clone_args(&pre_command_config.args),
                    ),
                    timeout: secs_to_nanos(pre_command_config.timeout_secs),
                    start_time: None,
                },
            )
        } else {
            None
        };
        let logger = if let Some(logger_config) = &config.logger {
            Some(
                SubprogramContext {
                    program: Program::new(
                        ChildId::Logger,
                        logger_name(name),
                        logger_config.command.clone(),
                        clone_args(&logger_config.args),
                    ),
                    start_wait: secs_to_nanos(logger_config.start_wait_secs),
                    start_time: None,
                },
            )
        } else {
            None
        };
        let logger_pre_command = if let Some(logger_config) = &config.logger {
            if let Some(logger_pre_command_config) = &logger_config.pre_command {
                Some(
                    PrecommandContext {
                        program: Program::new(
                            ChildId::LoggerPreCommand,
                            logger_pre_command_name(name),
                            logger_pre_command_config.command.clone(),
                            clone_args(&logger_pre_command_config.args),
                        ),
                        timeout: secs_to_nanos(logger_pre_command_config.timeout_secs),
                        start_time: None,
                    },
                )
            } else {
                None
            }
        } else {
            None
        };
        Self {
            name: String::from_str(name),
            config,
            program,
            pre_command,
            logger,
            logger_pre_command,
            num_restarts: 0u32,
            should_restart: false,
            sigterm_time: None,
        }
    }

    pub fn name(&self) -> (r: String)
        ensures
            r@ == self.name@,
    {
        self.name.clone()
    }

    pub open spec fn spec_child(self, id: ChildId) -> Option<Program> {
        match id {
            ChildId::Program => Some(self.program.program),
            ChildId::PreCommand => helper_process(self.pre_command),
            ChildId::Logger => logger_process(self.logger),
            ChildId::LoggerPreCommand => helper_process(self.logger_pre_command),
        }
    }

    /// The child of that kind, if the program has one.
    pub fn child(&self, id: ChildId) -> (r: Option<&Program>)
        ensures
            match r {
                Some(program) => self.spec_child(id) == Some(*program),
                None => self.spec_child(id) is None,
            },
    {
        match id {
            ChildId::Program => Some(&self.program.program),
            ChildId::PreCommand => match &self.pre_command {
                Some(helper) => Some(&helper.program),
                None => None,
            },
            ChildId::Logger => match &self.logger {
                Some(logger) => Some(&logger.program),
                None => None,
            },
            ChildId::LoggerPreCommand => match &self.logger_pre_command {
                Some(helper) => Some(&helper.program),
                None => None,
            },
        }
    }

    /// What never changes: the program without its processes, timers and
    /// counters.
    pub open spec fn fixed(self) -> ProgramContext {
        ProgramContext {
            program: self.program.fixed(),
            pre_command: fixed_helper(self.pre_command),
            logger: fixed_logger(self.logger),
            logger_pre_command: fixed_helper(self.logger_pre_command),
            num_restarts: 0,
            should_restart: false,
            sigterm_time: None,
            ..self
        }
    }

    /// Everything that changes. A side-car that is not configured counts as
    /// not launched.
    pub open spec fn spec_checkpoint(self) -> ContextCheckpoint {
        let absent = ChildCheckpoint { has_child: false, start_time: None };
        ContextCheckpoint {
            program: self.program.spec_checkpoint(),
            pre_command: match self.pre_command {
                Some(helper) => helper.spec_checkpoint(),
                None => absent,
            },
            logger: match self.logger {
                Some(logger) => logger.spec_checkpoint(),
                None => absent,
            },
            logger_pre_command: match self.logger_pre_command {
                Some(helper) => helper.spec_checkpoint(),
                None => absent,
            },
            num_restarts: self.num_restarts,
            should_restart: self.should_restart,
            sigterm_time: self.sigterm_time,
        }
    }

    /// The program with everything that changes taken from `saved`.
    pub open spec fn spec_restored(self, saved: ContextCheckpoint) -> ProgramContext {
        ProgramContext {
            program: self.program.spec_restored(saved.program),
            pre_command: match self.pre_command {
                Some(helper) => Some(helper.spec_restored(saved.pre_command)),
                None => None,
            },
            logger: match self.logger {
                Some(logger) => Some(logger.spec_restored(saved.logger)),
                None => None,
            },
            logger_pre_command: match self.logger_pre_command {
                Some(helper) => Some(helper.spec_restored(saved.logger_pre_command)),
                None => None,
            },
            num_restarts: saved.num_restarts,
            should_restart: saved.should_restart,
            sigterm_time: saved.sigterm_time,
            ..self
        }
    }

    /// A copy of everything that changes.
    pub fn checkpoint(&self) -> (r: ContextCheckpoint)
        ensures
            r == self.spec_checkpoint(),
    {
        let absent = ChildCheckpoint { has_child: false, start_time: None };
        ContextCheckpoint {
            program: ChildCheckpoint {
                has_child: self.program.program.has_child,
                start_time: self.program.start_time,
            },
            pre_command: match &self.pre_command {
                Some(helper) => ChildCheckpoint {
                    has_child: helper.program.has_child,
                    start_time: helper.start_time,
                },
                None => absent,
            },
            logger: match &self.logger {
                Some(logger) => ChildCheckpoint {
                    has_child: logger.program.has_child,
                    start_time: logger.start_time,
                },
                None => absent,
            },
            logger_pre_command: match &self.logger_pre_command {
                Some(helper) => ChildCheckpoint {
                    has_child: helper.program.has_child,
                    start_time: helper.start_time,
                },
                None => absent,
            },
            num_restarts: self.num_restarts,
            should_restart: self.should_restart,
            sigterm_time: self.sigterm_time,
        }
    }

    /// Puts back everything that changes as `saved` holds it.
    pub fn restore(&mut self, saved: ContextCheckpoint)
        ensures
            *final(self) == old(self).spec_restored(saved),
    {
        self.program.program.has_child = saved.program.has_child;
        self.program.start_time = saved.program.start_time;
        if let Some(helper) = &mut self.pre_command {
            helper.program.has_child = saved.pre_command.has_child;
            helper.start_time = saved.pre_command.start_time;
        }
        if let Some(logger) = &mut self.logger {
            logger.program.has_child = saved.logger.has_child;
            logger.start_time = saved.logger.start_time;
        }
        if let Some(helper) = &mut self.logger_pre_command {
            helper.program.has_child = saved.logger_pre_command.has_child;
            helper.start_time = saved.logger_pre_command.start_time;
        }
        self.num_restarts = saved.num_restarts;
        self.should_restart = saved.should_restart;
        self.sigterm_time = saved.sigterm_time;
    }

    /// A program is what never changes about it together with what does.
    pub proof fn lemma_restored(self, other: ProgramContext)
        requires
            self.fixed() == other.fixed(),
        ensures
            other.spec_restored(self.spec_checkpoint()) == self,
    {
    }

    /// No child has a process.
    pub open spec fn nothing_launched(self) -> bool {
        &&& !self.program.program.has_child
        &&& self.pre_command matches Some(helper) ==> !helper.program.has_child
        &&& self.logger matches Some(logger) ==> !logger.program.has_child
        &&& self.logger_pre_command matches Some(helper) ==> !helper.program.has_child
    }

    /// No child has a process or a time at which it was launched, and no
    /// SIGTERM is remembered.
    pub open spec fn at_rest(self) -> bool {
        &&& self.nothing_launched()
        &&& self.program.start_time is None
        &&& self.pre_command matches Some(helper) ==> helper.start_time is None
        &&& self.logger matches Some(logger) ==> logger.start_time is None
        &&& self.logger_pre_command matches Some(helper) ==> helper.start_time is None
        &&& self.sigterm_time is None
    }

    /// Whether the program is at rest.
    pub fn is_at_rest(&self) -> (r: bool)
        ensures
            r == self.at_rest(),
    {
        let program = !self.program.program.has_child && self.program.start_time.is_none();
        let pre_command = match &self.pre_command {
            Some(helper) => !helper.program.has_child && helper.start_time.is_none(),
            None => true,
        };
        let logger = match &self.logger {
            Some(logger) => !logger.program.has_child && logger.start_time.is_none(),
            None => true,
        };
        let logger_pre_command = match &self.logger_pre_command {
            Some(helper) => !helper.program.has_child && helper.start_time.is_none(),
            None => true,
        };
        program && pre_command && logger && logger_pre_command && self.sigterm_time.is_none()
    }

    #[verifier::opaque]
    pub open spec fn spec_all_programs_are_running(self, journal: Seq<Reply>, at: nat) -> Step<
        (bool, nat),
    > {
        match self.logger {
            None => self.program.program.spec_is_running(journal, at),
            Some(logger) => match logger.program.spec_is_running(journal, at) {
                Err(request) => Err(request),
                Ok((false, next)) => Ok((false, next)),
                Ok((true, next)) => self.program.program.spec_is_running(journal, next),
            },
        }
    }

    /// Whether the logger, if one is configured, and the program both run.
    /// The logger is probed first, and the program only if the logger runs.
    pub fn all_programs_are_running(&self, journal: &Vec<Reply>, at: &mut usize) -> (r: Step<bool>)
        ensures
            query_agrees(
                self.spec_all_programs_are_running(journal@, *old(at) as nat),
                r,
                *final(at),
            ),
    {
        reveal(ProgramContext::spec_all_programs_are_running);
        if let Some(logger) = &self.logger {
            if !logger.program.is_running(journal, at)? {
                return Ok(false);
            }
        }
        self.program.program.is_running(journal, at)
    }

    /// Whether some child runs: the program, its pre-command, the logger and
    /// the logger's pre-command are probed in this order, up to the first
    /// that runs.
    #[verifier::opaque]
    pub open spec fn spec_any_program_is_running(self, journal: Seq<Reply>, at: nat) -> Step<
        (bool, nat),
    > {
        spec_or_running(
            spec_or_running(
                spec_or_running(
                    self.program.program.spec_is_running(journal, at),
                    helper_process(self.pre_command),
                    journal,
                ),
                logger_process(self.logger),
                journal,
            ),
            helper_process(self.logger_pre_command),
            journal,
        )
    }

    pub open spec fn spec_all_programs_are_stopped(self, journal: Seq<Reply>, at: nat) -> Step<
        (bool, nat),
    > {
        match self.spec_any_program_is_running(journal, at) {
            Err(request) => Err(request),
            Ok((running, next)) => Ok((!running, next)),
        }
    }

    /// Whether no child runs.
    pub fn all_programs_are_stopped(&self, journal: &Vec<Reply>, at: &mut usize) -> (r: Step<bool>)
        ensures
            query_agrees(
                self.spec_all_programs_are_stopped(journal@, *old(at) as nat),
                r,
                *final(at),
            ),
    {
        reveal(ProgramContext::spec_any_program_is_running);
        if self.program.program.is_running(journal, at)? {
            return Ok(false);
        }
        if let Some(pre_command) = &self.pre_command {
            if pre_command.program.is_running(journal, at)? {
                return Ok(false);
            }
        }
        if let Some(logger) = &self.logger {
            if logger.program.is_running(journal, at)? {
                return Ok(false);
            }
        }
        if let Some(logger_pre_command) = &self.logger_pre_command {
            if logger_pre_command.program.is_running(journal, at)? {
                return Ok(false);
            }
        }
        Ok(true)
    }

    pub open spec fn spec_reset(self, journal: Seq<Reply>, at: nat) -> Step<(ProgramContext, nat)> {
        match self.program.spec_reset(journal, at) {
            Err(request) => Err(request),
            Ok((program, at1)) => match spec_reset_helper(self.pre_command, journal, at1) {
                Err(request) => Err(request),
                Ok((pre_command, at2)) => match spec_reset_logger(self.logger, journal, at2) {
                    Err(request) => Err(request),
                    Ok((logger, at3)) => match spec_reset_helper(
                        self.logger_pre_command,
                        journal,
                        at3,
                    ) {
                        Err(request) => Err(request),
                        Ok((logger_pre_command, at4)) => Ok(
                            (
                                ProgramContext {
                                    program,
                                    pre_command,
                                    logger,
                                    logger_pre_command,
                                    sigterm_time: None,
                                    ..self
                                },
                                at4,
                            ),
                        ),
                    },
                },
            },
        }
    }

    /// Reaps and gives up every child and forgets all timers. The restart
    /// counter and the restart intent stay as they are.
    pub fn reset(&mut self, journal: &Vec<Reply>, at: &mut usize) -> (r: Step<()>)
        ensures
            action_agrees(
                old(self).spec_reset(journal@, *old(at) as nat),
                r,
                *final(self),
                *final(at),
            ),
            final(self).fixed() == old(self).fixed(),
    {
        self.program.reset(journal, at)?;
        if let Some(pre_command) = &mut self.pre_command {
            pre_command.reset(journal, at)?;
        }
        if let Some(logger) = &mut self.logger {
            logger.reset(journal, at)?;
        }
        if let Some(logger_pre_command) = &mut self.logger_pre_command {
            logger_pre_command.reset(journal, at)?;
        }
        self.sigterm_time = None;
        Ok(())
    }

    #[verifier::opaque]
    pub open spec fn spec_send_signal_to_all_running_programs(
        self,
        signal: Signal,
        journal: Seq<Reply>,
        at: nat,
    ) -> Step<((), nat)> {
        spec_then_signal(
            spec_then_signal(
                spec_then_signal(
                    spec_then_signal(Ok(((), at)), helper_process(self.pre_command), signal, journal),
                    helper_process(self.logger_pre_command),
                    signal,
                    journal,
                ),
                logger_process(self.logger),
                signal,
                journal,
            ),
            Some(self.program.program),
            signal,
            journal,
        )
    }

    /// Sends the signal to every child that runs: the pre-command, the
    /// logger's pre-command, the logger and the program, in this order, each
    /// probed just before.
    pub fn send_signal_to_all_running_programs(
        &self,
        signal: Signal,
        journal: &Vec<Reply>,
        at: &mut usize,
    ) -> (r: Step<()>)
        ensures
            query_agrees(
                self.spec_send_signal_to_all_running_programs(signal, journal@, *old(at) as nat),
                r,
                *final(at),
            ),
    {
        reveal(ProgramContext::spec_send_signal_to_all_running_programs);
        if let Some(pre_command) = &self.pre_command {
            send_signal_to_program_if_running(&pre_command.program, signal, journal, at)?;
        }
        if let Some(logger_pre_command) = &self.logger_pre_command {
            send_signal_to_program_if_running(&logger_pre_command.program, signal, journal, at)?;
        }
        if let Some(logger) = &self.logger {
            send_signal_to_program_if_running(&logger.program, signal, journal, at)?;
        }
        send_signal_to_program_if_running(&self.program.program, signal, journal, at)
    }

    /// Whether SIGKILL is due at `now`: SIGTERM was sent at least
    /// `sigkill_delay_secs` ago.
    pub open spec fn sigkill_due(self, now: u64) -> bool {
        self.sigterm_time matches Some(sigterm_time) && spec_elapsed(now, sigterm_time)
            >= spec_secs_to_nanos(self.config.program.sigkill_delay_secs)
    }

    pub open spec fn spec_send_sigterm_or_sigkill_signal_to_all_running_programs(
        self,
        now: u64,
        journal: Seq<Reply>,
        at: nat,
    ) -> Step<(ProgramContext, nat)> {
        match self.sigterm_time {
            Some(_) => if self.sigkill_due(now) {
                match self.spec_send_signal_to_all_running_programs(Signal::SIGKILL, journal, at) {
                    Err(request) => Err(request),
                    Ok((_, next)) => Ok((self, next)),
                }
            } else {
                Ok((self, at))
            },
            None => {
                let marked = ProgramContext { sigterm_time: Some(now), ..self };
                match marked.spec_send_signal_to_all_running_programs(Signal::SIGTERM, journal, at) {
                    Err(request) => Err(request),
                    Ok((_, next)) => Ok((marked, next)),
                }
            },
        }
    }

    /// One step of the termination protocol. The first call sends SIGTERM
    /// to every running child and remembers `now`. Later calls send SIGKILL
    /// to every running child once `sigkill_delay_secs` have passed since
    /// then, and do nothing before.
    pub fn send_sigterm_or_sigkill_signal_to_all_running_programs(
        &mut self,
        now: u64,
        journal: &Vec<Reply>,
        at: &mut usize,
    ) -> (r: Step<()>)
        ensures
            action_agrees(
                old(self).spec_send_sigterm_or_sigkill_signal_to_all_running_programs(
                    now,
                    journal@,
                    *old(at) as nat,
                ),
                r,
                *final(self),
                *final(at),
            ),
            final(self).fixed() == old(self).fixed(),
    {
        if let Some(sigterm_time) = self.sigterm_time {
            let sigkill_timeout = secs_to_nanos(self.config.sigkill_delay_secs());
            if elapsed(now, sigterm_time) >= sigkill_timeout {
                self.send_signal_to_all_running_programs(Signal::SIGKILL, journal, at)?;
            }
        } else {
            self.sigterm_time = Some(now);
            self.send_signal_to_all_running_programs(Signal::SIGTERM, journal, at)?;
        }
        Ok(())
    }
}

} // verus!
