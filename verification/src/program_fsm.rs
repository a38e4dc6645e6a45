//! The seven states of a supervised program and what they do on a tick and
//! on an event.

use crate::config::RenderedProgramConfig;
use crate::fsm::{
    Context, ContextImpl, Machine, MachineResult, MachineResultView, Scene, State,
};
use crate::os::{
    action_agrees, call_agrees, elapsed, query_agrees, secs_to_nanos, spec_elapsed,
    spec_secs_to_nanos, ChildId, Reply, Step,
};
use crate::program_context::{
    fixed_helper, PrecommandContext, PrecommandStatus, ProgramContext, SubprogramContext,
    SubprogramStatus,
};
use vstd::prelude::*;
use vstd::string::StringExecFns;

verus! {

/// The machine that supervises one program.
pub type ProgramFsm = Machine;

/// What a client can ask of a program.
#[derive(Clone, Copy, Debug, PartialEq, Eq, Structural)]
pub enum ProgramEvent {
    Start,
    Stop,
    Restart,
}

/// The keys of the states.
#[derive(Clone, Copy, Debug, PartialEq, Eq, Hash, Structural)]
pub enum ProgramState {
    /// Quiescent because a client asked for it.
    Stopped,
    /// Quiescent because the supervisor gave up.
    Exited,
    /// Waiting before the next attempt to start.
    Backoff,
    /// Bringing the children up, in order.
    Starting,
    /// The steady state.
    Running,
    /// Tearing down because a client asked for it.
    Stopping,
    /// Tearing down because the supervisor gave up.
    Exiting,
}

#[derive(Clone, Copy, Debug, Default, PartialEq, Eq, Structural)]
pub struct Stopped {}

#[derive(Clone, Copy, Debug, Default, PartialEq, Eq, Structural)]
pub struct Exited {}

#[derive(Clone, Copy, Debug, Default, PartialEq, Eq, Structural)]
pub struct Backoff {
    /// The clock reading at which the state was entered.
    pub enter_time: Option<u64>,
    /// Whether a client has asked to start without waiting for the delay.
    pub skip_backoff_delay: bool,
}

#[derive(Clone, Copy, Debug, Default, PartialEq, Eq, Structural)]
pub struct Starting {}

#[derive(Clone, Copy, Debug, Default, PartialEq, Eq, Structural)]
pub struct Running {}

#[derive(Clone, Copy, Debug, Default, PartialEq, Eq, Structural)]
pub struct Stopping {}

#[derive(Clone, Copy, Debug, Default, PartialEq, Eq, Structural)]
pub struct Exiting {}

/// The table of the states, one of each.
#[derive(Clone, Copy, Debug, Default, PartialEq, Eq, Structural)]
pub struct States {
    pub stopped: Stopped,
    pub exited: Exited,
    pub backoff: Backoff,
    pub starting: Starting,
    pub running: Running,
    pub stopping: Stopping,
    pub exiting: Exiting,
}

impl States {
    /// The table in which no state remembers anything.
    pub fn new() -> (r: Self)
        ensures
            r == (States {
                stopped: Stopped {  },
                exited: Exited {  },
                backoff: Backoff { enter_time: None, skip_backoff_delay: false },
                starting: Starting {  },
                running: Running {  },
                stopping: Stopping {  },
                exiting: Exiting {  },
            }),
    {
        States {
            stopped: Stopped {  },
            exited: Exited {  },
            backoff: Backoff { enter_time: None, skip_backoff_delay: false },
            starting: Starting {  },
            running: Running {  },
            stopping: Stopping {  },
            exiting: Exiting {  },
        }
    }
}

/// The state in which a program begins: `Starting` if it is to be started
/// without being asked, else `Stopped`.
pub open spec fn spec_initial_state(autostart: bool) -> ProgramState {
    if autostart {
        ProgramState::Starting
    } else {
        ProgramState::Stopped
    }
}

/// The machine for the program `program_name` that `config` describes.
/// Nothing is launched yet.
pub fn new_program_fsm(program_name: String, config: &RenderedProgramConfig) -> (r: ProgramFsm)
    ensures
        r.wf(),
        r.first_update,
        r.app_context.describes_config(),
        r.context.current_state_key == spec_initial_state(config.program.autostart),
        r.app_context.name@ == program_name@,
        r.app_context.config.same_as(config),
        r.app_context.pristine(),
        r.states.backoff == (Backoff { enter_time: None, skip_backoff_delay: false }),
{
    let program_ctx = ProgramContext::new(program_name.as_str(), config.clone());
    let init_state = if config.autostart() {
        ProgramState::Starting
    } else {
        ProgramState::Stopped
    };
    Machine::new(program_ctx, init_state, States::new())
}

/// `Exited` if every child has stopped, `Exiting` otherwise.
pub open spec fn spec_transition_to_exited_or_exiting(
    program_ctx: ProgramContext,
    journal: Seq<Reply>,
    at: nat,
) -> Step<(ContextImpl, nat)> {
    match program_ctx.spec_all_programs_are_stopped(journal, at) {
        Err(request) => Err(request),
        Ok((true, next)) => Ok((ContextImpl { current_state_key: ProgramState::Exited }, next)),
        Ok((false, next)) => Ok((ContextImpl { current_state_key: ProgramState::Exiting }, next)),
    }
}

pub fn transition_to_exited_or_exiting(
    context: &mut ContextImpl,
    program_ctx: &ProgramContext,
    journal: &Vec<Reply>,
    at: &mut usize,
) -> (r: Step<()>)
    ensures
        action_agrees(
            spec_transition_to_exited_or_exiting(*program_ctx, journal@, *old(at) as nat),
            r,
            *final(context),
            *final(at),
        ),
{
    if program_ctx.all_programs_are_stopped(journal, at)? {
        context.transition(ProgramState::Exited);
    } else {
        context.transition(ProgramState::Exiting);
    }
    Ok(())
}

/// Whether another attempt to start is made after a failure: restarts are
/// wanted and not yet used up.
pub open spec fn restart_allowed(program_ctx: ProgramContext) -> bool {
    program_ctx.config.program.autorestart && program_ctx.num_restarts
        < program_ctx.config.program.num_restart_attempts
}

/// Where a failure leads: to `Backoff` while another attempt is allowed,
/// else to `Exited` or `Exiting`.
pub open spec fn spec_transition_to_backoff_or_exiting(
    program_ctx: ProgramContext,
    journal: Seq<Reply>,
    at: nat,
) -> Step<(ContextImpl, nat)> {
    if restart_allowed(program_ctx) {
        Ok((ContextImpl { current_state_key: ProgramState::Backoff }, at))
    } else {
        spec_transition_to_exited_or_exiting(program_ctx, journal, at)
    }
}

pub fn transition_to_backoff_or_exiting(
    context: &mut ContextImpl,
    program_ctx: &ProgramContext,
    journal: &Vec<Reply>,
    at: &mut usize,
) -> (r: Step<()>)
    ensures
        action_agrees(
            spec_transition_to_backoff_or_exiting(*program_ctx, journal@, *old(at) as nat),
            r,
            *final(context),
            *final(at),
        ),
{
    if program_ctx.config.autorestart() && program_ctx.num_restarts
        < program_ctx.config.num_restart_attempts() {
        context.transition(ProgramState::Backoff);
        Ok(())
    } else {
        transition_to_exited_or_exiting(context, program_ctx, journal, at)
    }
}

pub open spec fn spec_transition_to_stopped_or_restart(should_restart: bool) -> ContextImpl {
    ContextImpl {
        current_state_key: if should_restart {
            ProgramState::Starting
        } else {
            ProgramState::Stopped
        },
    }
}

pub fn transition_to_stopped_or_restart(should_restart: bool, context: &mut ContextImpl)
    ensures
        *final(context) == spec_transition_to_stopped_or_restart(should_restart),
{
    if should_restart {
        context.transition(ProgramState::Starting);
    } else {
        context.transition(ProgramState::Stopped);
    }
}

pub open spec fn spec_transition_to_exited_or_restart(should_restart: bool) -> ContextImpl {
    ContextImpl {
        current_state_key: if should_restart {
            ProgramState::Starting
        } else {
            ProgramState::Exited
        },
    }
}

pub fn transition_to_exited_or_restart(should_restart: bool, context: &mut ContextImpl)
    ensures
        *final(context) == spec_transition_to_exited_or_restart(should_restart),
{
    if should_restart {
        context.transition(ProgramState::Starting);
    } else {
        context.transition(ProgramState::Exited);
    }
}

/// Makes sure that nothing runs any more: if some child runs, one step of
/// the termination protocol is made and the children are probed again. The
/// result says whether every child was found stopped.
#[verifier::opaque]
pub open spec fn spec_wind_down(
    program_ctx: ProgramContext,
    now: u64,
    journal: Seq<Reply>,
    at: nat,
) -> Step<(bool, ProgramContext, nat)> {
    match program_ctx.spec_all_programs_are_stopped(journal, at) {
        Err(request) => Err(request),
        Ok((true, next)) => Ok((true, program_ctx, next)),
        Ok((false, next)) => match program_ctx.spec_send_sigterm_or_sigkill_signal_to_all_running_programs(
        now, journal, next) {
            Err(request) => Err(request),
            Ok((signalled, after)) => match signalled.spec_all_programs_are_stopped(
                journal,
                after,
            ) {
                Err(request) => Err(request),
                Ok((stopped, last)) => Ok((stopped, signalled, last)),
            },
        },
    }
}

pub fn wind_down(program_ctx: &mut ProgramContext, now: u64, journal: &Vec<Reply>, at: &mut usize) -> (r:
    Step<bool>)
    ensures
        call_agrees(
            spec_wind_down(*old(program_ctx), now, journal@, *old(at) as nat),
            r,
            *final(program_ctx),
            *final(at),
        ),
        final(program_ctx).fixed() == old(program_ctx).fixed(),
{
    reveal(spec_wind_down);
    if program_ctx.all_programs_are_stopped(journal, at)? {
        return Ok(true);
    }
    program_ctx.send_sigterm_or_sigkill_signal_to_all_running_programs(now, journal, at)?;
    // Check again if everything is stopped in case we just killed everything above.
    program_ctx.all_programs_are_stopped(journal, at)
}

/// The tick of a state that tears the program down: once every child has
/// stopped, the next state is `Starting` if a restart was asked for and
/// `quiescent` otherwise.
pub open spec fn spec_teardown_update(
    context: ContextImpl,
    program_ctx: ProgramContext,
    quiescent: ProgramState,
    now: u64,
    journal: Seq<Reply>,
    at: nat,
) -> Step<((ContextImpl, ProgramContext), nat)> {
    match spec_wind_down(program_ctx, now, journal, at) {
        Err(request) => Err(request),
        Ok((false, after, next)) => Ok(((context, after), next)),
        Ok((true, after, next)) => Ok(
            (
                (
                    ContextImpl {
                        current_state_key: if after.should_restart {
                            ProgramState::Starting
                        } else {
                            quiescent
                        },
                    },
                    after,
                ),
                next,
            ),
        ),
    }
}

/// What a quiescent state does when it is entered: the restart counter
/// starts over and every child is reaped and given up.
pub open spec fn spec_enter_quiescent(program_ctx: ProgramContext, journal: Seq<Reply>, at: nat) -> Step<
    (ProgramContext, nat),
> {
    (ProgramContext { num_restarts: 0, ..program_ctx }).spec_reset(journal, at)
}

/// What a state that tears down does when it is entered.
pub open spec fn spec_enter_teardown(program_ctx: ProgramContext) -> ProgramContext {
    ProgramContext { sigterm_time: None, num_restarts: 0, ..program_ctx }
}

/// What a state that tears down does when it is left: the restart intent is
/// forgotten and every child is reaped and given up.
pub open spec fn spec_exit_teardown(program_ctx: ProgramContext, journal: Seq<Reply>, at: nat) -> Step<
    (ProgramContext, nat),
> {
    (ProgramContext { should_restart: false, ..program_ctx }).spec_reset(journal, at)
}

impl State for Stopped {
    open spec fn slot(states: States) -> Self {
        states.stopped
    }

    open spec fn with_slot(states: States, state: Self) -> States {
        States { stopped: state, ..states }
    }

    open spec fn spec_react(
        scene: Scene<Self>,
        event: ProgramEvent,
        journal: Seq<Reply>,
        at: nat,
    ) -> Step<(MachineResultView, Scene<Self>, nat)> {
        let starting = Scene {
            context: ContextImpl { current_state_key: ProgramState::Starting },
            ..scene
        };
        match event {
            ProgramEvent::Start => Ok((Ok(None), starting, at)),
            ProgramEvent::Stop => Ok((Ok(Some("Already stopped"@)), scene, at)),
            ProgramEvent::Restart => Ok((Ok(Some("Wasn't running (was stopped)"@)), starting, at)),
        }
    }

    open spec fn spec_enter(
        state: Self,
        app: ProgramContext,
        now: u64,
        journal: Seq<Reply>,
        at: nat,
    ) -> Step<((Self, ProgramContext), nat)> {
        match spec_enter_quiescent(app, journal, at) {
            Err(request) => Err(request),
            Ok((after, next)) => Ok(((state, after), next)),
        }
    }

    fn update(
        &mut self,
        context: &mut ContextImpl,
        app_context: &mut ProgramContext,
        now: u64,
        journal: &Vec<Reply>,
        at: &mut usize,
    ) -> (r: Step<()>) {
        Ok(())
    }

    fn react(
        &mut self,
        event: &ProgramEvent,
        context: &mut ContextImpl,
        app_context: &mut ProgramContext,
        journal: &Vec<Reply>,
        at: &mut usize,
    ) -> (r: Step<MachineResult>) {
        match event {
            ProgramEvent::Start => {
                context.transition(ProgramState::Starting);
                Ok(MachineResult::Ok(None))
            },
            ProgramEvent::Stop => Ok(MachineResult::Ok(Some(String::from_str("Already stopped")))),
            ProgramEvent::Restart => {
                context.transition(ProgramState::Starting);
                Ok(MachineResult::Ok(Some(String::from_str("Wasn't running (was stopped)"))))
            },
        }
    }

    fn enter(
        &mut self,
        program_ctx: &mut ProgramContext,
        now: u64,
        journal: &Vec<Reply>,
        at: &mut usize,
    ) -> (r: Step<()>) {
        program_ctx.num_restarts = 0u32;
        program_ctx.reset(journal, at)
    }

    fn exit(&mut self, program_ctx: &mut ProgramContext, journal: &Vec<Reply>, at: &mut usize) -> (r:
        Step<()>) {
        Ok(())
    }
}

impl State for Exited {
    open spec fn slot(states: States) -> Self {
        states.exited
    }

    open spec fn with_slot(states: States, state: Self) -> States {
        States { exited: state, ..states }
    }

    open spec fn spec_react(
        scene: Scene<Self>,
        event: ProgramEvent,
        journal: Seq<Reply>,
        at: nat,
    ) -> Step<(MachineResultView, Scene<Self>, nat)> {
        let starting = Scene {
            context: ContextImpl { current_state_key: ProgramState::Starting },
            ..scene
        };
        match event {
            ProgramEvent::Start => Ok((Ok(None), starting, at)),
            ProgramEvent::Stop => Ok((Ok(Some("Already stopped (exited)"@)), scene, at)),
            ProgramEvent::Restart => Ok((Ok(Some("Wasn't running (was exited)"@)), starting, at)),
        }
    }

    open spec fn spec_enter(
        state: Self,
        app: ProgramContext,
        now: u64,
        journal: Seq<Reply>,
        at: nat,
    ) -> Step<((Self, ProgramContext), nat)> {
        match spec_enter_quiescent(app, journal, at) {
            Err(request) => Err(request),
            Ok((after, next)) => Ok(((state, after), next)),
        }
    }

    fn update(
        &mut self,
        context: &mut ContextImpl,
        app_context: &mut ProgramContext,
        now: u64,
        journal: &Vec<Reply>,
        at: &mut usize,
    ) -> (r: Step<()>) {
        Ok(())
    }

    fn react(
        &mut self,
        event: &ProgramEvent,
        context: &mut ContextImpl,
        app_context: &mut ProgramContext,
        journal: &Vec<Reply>,
        at: &mut usize,
    ) -> (r: Step<MachineResult>) {
        match event {
            ProgramEvent::Start => {
                context.transition(ProgramState::Starting);
                Ok(MachineResult::Ok(None))
            },
            ProgramEvent::Stop => Ok(
                MachineResult::Ok(Some(String::from_str("Already stopped (exited)"))),
            ),
            ProgramEvent::Restart => {
                context.transition(ProgramState::Starting);
                Ok(MachineResult::Ok(Some(String::from_str("Wasn't running (was exited)"))))
            },
        }
    }

    fn enter(
        &mut self,
        program_ctx: &mut ProgramContext,
        now: u64,
        journal: &Vec<Reply>,
        at: &mut usize,
    ) -> (r: Step<()>) {
        program_ctx.num_restarts = 0u32;
        program_ctx.reset(journal, at)
    }

    fn exit(&mut self, program_ctx: &mut ProgramContext, journal: &Vec<Reply>, at: &mut usize) -> (r:
        Step<()>) {
        Ok(())
    }
}

impl Backoff {
    /// Whether the delay has passed at `now`, or need not be waited for.
    pub open spec fn delay_over(self, program_ctx: ProgramContext, now: u64) -> bool {
        self.skip_backoff_delay || (self.enter_time matches Some(enter_time) && spec_elapsed(
            now,
            enter_time,
        ) >= spec_secs_to_nanos(program_ctx.config.program.backoff_delay_secs))
    }

    /// The answer to a client that asks to start or to start again.
    pub open spec fn spec_react_to_start(
        scene: Scene<Self>,
        when_stopped: Seq<char>,
        when_running: Seq<char>,
        journal: Seq<Reply>,
        at: nat,
    ) -> Step<(MachineResultView, Scene<Self>, nat)> {
        let app = ProgramContext { num_restarts: 0, ..scene.app };
        match app.spec_all_programs_are_stopped(journal, at) {
            Err(request) => Err(request),
            Ok((true, next)) => Ok(
                (
                    Ok(Some(when_stopped)),
                    Scene {
                        context: ContextImpl { current_state_key: ProgramState::Starting },
                        app,
                        ..scene
                    },
                    next,
                ),
            ),
            Ok((false, next)) => Ok(
                (
                    Ok(Some(when_running)),
                    Scene { state: Backoff { skip_backoff_delay: true, ..scene.state }, app, ..scene },
                    next,
                ),
            ),
        }
    }
}

impl State for Backoff {
    open spec fn slot(states: States) -> Self {
        states.backoff
    }

    open spec fn with_slot(states: States, state: Self) -> States {
        States { backoff: state, ..states }
    }

    open spec fn update_ready(state: Self, app: ProgramContext) -> bool {
        state.enter_time is Some
    }

    open spec fn enter_ready(state: Self, app: ProgramContext) -> bool {
        app.num_restarts < u32::MAX
    }

    open spec fn spec_update(scene: Scene<Self>, now: u64, journal: Seq<Reply>, at: nat) -> Step<
        (Scene<Self>, nat),
    > {
        match spec_wind_down(scene.app, now, journal, at) {
            Err(request) => Err(request),
            Ok((false, after, next)) => Ok((Scene { app: after, ..scene }, next)),
            Ok((true, after, next)) => if scene.state.delay_over(after, now) {
                Ok(
                    (
                        Scene {
                            context: ContextImpl { current_state_key: ProgramState::Starting },
                            app: after,
                            ..scene
                        },
                        next,
                    ),
                )
            } else {
                Ok((Scene { app: after, ..scene }, next))
            },
        }
    }

    open spec fn spec_react(
        scene: Scene<Self>,
        event: ProgramEvent,
        journal: Seq<Reply>,
        at: nat,
    ) -> Step<(MachineResultView, Scene<Self>, nat)> {
        match event {
            ProgramEvent::Start => Self::spec_react_to_start(
                scene,
                "Already starting (was backoff)"@,
                "Will start after backoff cleanup"@,
                journal,
                at,
            ),
            ProgramEvent::Stop => Ok(
                (
                    Ok(None),
                    Scene {
                        context: ContextImpl { current_state_key: ProgramState::Stopping },
                        ..scene
                    },
                    at,
                ),
            ),
            ProgramEvent::Restart => Self::spec_react_to_start(
                scene,
                "Wasn't running (was backoff)"@,
                "Will restart after backoff cleanup"@,
                journal,
                at,
            ),
        }
    }

    open spec fn spec_enter(
        state: Self,
        app: ProgramContext,
        now: u64,
        journal: Seq<Reply>,
        at: nat,
    ) -> Step<((Self, ProgramContext), nat)> {
        Ok(
            (
                (
                    Backoff { skip_backoff_delay: false, enter_time: Some(now) },
                    ProgramContext {
                        sigterm_time: None,
                        num_restarts: (app.num_restarts + 1) as u32,
                        ..app
                    },
                ),
                at,
            ),
        )
    }

    open spec fn spec_exit(state: Self, app: ProgramContext, journal: Seq<Reply>, at: nat) -> Step<
        ((Self, ProgramContext), nat),
    > {
        match app.spec_reset(journal, at) {
            Err(request) => Err(request),
            Ok((after, next)) => Ok(((state, after), next)),
        }
    }

    fn update(
        &mut self,
        context: &mut ContextImpl,
        program_ctx: &mut ProgramContext,
        now: u64,
        journal: &Vec<Reply>,
        at: &mut usize,
    ) -> (r: Step<()>) {
        // Ensure everything is stopped from the previous running state before we restart.
        if !wind_down(program_ctx, now, journal, at)? {
            return Ok(());
        }
        if self.skip_backoff_delay {
            context.transition(ProgramState::Starting);
            return Ok(());
        }
        if elapsed(now, self.enter_time.unwrap()) >= secs_to_nanos(
            program_ctx.config.backoff_delay_secs(),
        ) {
            context.transition(ProgramState::Starting);
        }
        Ok(())
    }

    fn react(
        &mut self,
        event: &ProgramEvent,
        context: &mut ContextImpl,
        program_ctx: &mut ProgramContext,
        journal: &Vec<Reply>,
        at: &mut usize,
    ) -> (r: Step<MachineResult>) {
        match event {
            ProgramEvent::Start => {
                // Reset num_restarts since the client explicitly told us to start again.
                program_ctx.num_restarts = 0u32;
                if program_ctx.all_programs_are_stopped(journal, at)? {
                    context.transition(ProgramState::Starting);
                    return Ok(
                        MachineResult::Ok(Some(String::from_str("Already starting (was backoff)"))),
                    );
                }
                self.skip_backoff_delay = true;
                Ok(MachineResult::Ok(Some(String::from_str("Will start after backoff cleanup"))))
            },
            ProgramEvent::Stop => {
                context.transition(ProgramState::Stopping);
                Ok(MachineResult::Ok(None))
            },
            ProgramEvent::Restart => {
                // Reset num_restarts since the client explicitly told us to start again.
                program_ctx.num_restarts = 0u32;
                if program_ctx.all_programs_are_stopped(journal, at)? {
                    context.transition(ProgramState::Starting);
                    return Ok(
                        MachineResult::Ok(Some(String::from_str("Wasn't running (was backoff)"))),
                    );
                }
                self.skip_backoff_delay = true;
                Ok(MachineResult::Ok(Some(String::from_str("Will restart after backoff cleanup"))))
            },
        }
    }

    fn enter(
        &mut self,
        program_ctx: &mut ProgramContext,
        now: u64,
        journal: &Vec<Reply>,
        at: &mut usize,
    ) -> (r: Step<()>) {
        self.skip_backoff_delay = false;
        program_ctx.sigterm_time = None;
        program_ctx.num_restarts += 1u32;
        self.enter_time = Some(now);
        Ok(())
    }

    fn exit(&mut self, program_ctx: &mut ProgramContext, journal: &Vec<Reply>, at: &mut usize) -> (r:
        Step<()>) {
        program_ctx.reset(journal, at)
    }
}

/// The outcome of one look at a pre-command: launched if it was not yet,
/// else probed.
pub open spec fn spec_check_pre_command(
    pre_command: PrecommandContext,
    now: u64,
    journal: Seq<Reply>,
    at: nat,
) -> Step<(PrecommandStatus, PrecommandContext, nat)> {
    match pre_command.start_time {
        Some(start_time) => match pre_command.program.spec_exit_status_unchecked(journal, at) {
            Err(request) => Err(request),
            Ok((Ok(None), next)) => if spec_elapsed(now, start_time) > pre_command.timeout {
                Ok((PrecommandStatus::ERROR, pre_command, next))
            } else {
                Ok((PrecommandStatus::RUNNING, pre_command, next))
            },
            Ok((Ok(Some(exit_status)), next)) => if exit_status.spec_success() {
                Ok((PrecommandStatus::SUCCESS, pre_command, next))
            } else {
                Ok((PrecommandStatus::ERROR, pre_command, next))
            },
            Ok((Err(_), next)) => Ok((PrecommandStatus::ERROR, pre_command, next)),
        },
        None => match pre_command.program.spec_start(false, None, journal, at) {
            Err(request) => Err(request),
            Ok((Err(_), program, next)) => Ok(
                (PrecommandStatus::ERROR, PrecommandContext { program, ..pre_command }, next),
            ),
            Ok((Ok(_), program, next)) => Ok(
                (
                    PrecommandStatus::RUNNING,
                    PrecommandContext { program, start_time: Some(now), ..pre_command },
                    next,
                ),
            ),
        },
    }
}

/// As [`spec_check_pre_command`], where a pre-command that is not
/// configured has succeeded.
pub open spec fn spec_run_pre_command(
    pre_command: Option<PrecommandContext>,
    now: u64,
    journal: Seq<Reply>,
    at: nat,
) -> Step<(PrecommandStatus, Option<PrecommandContext>, nat)> {
    match pre_command {
        None => Ok((PrecommandStatus::SUCCESS, None, at)),
        Some(context) => match spec_check_pre_command(context, now, journal, at) {
            Err(request) => Err(request),
            Ok((status, after, next)) => Ok((status, Some(after), next)),
        },
    }
}

/// The outcome of one probe of a long-running process that was launched.
pub open spec fn spec_check_subprogram(
    subprogram: SubprogramContext,
    now: u64,
    journal: Seq<Reply>,
    at: nat,
) -> Step<(SubprogramStatus, nat)> {
    match subprogram.program.spec_exit_status_unchecked(journal, at) {
        Err(request) => Err(request),
        Ok((Ok(None), next)) => if spec_elapsed(now, subprogram.start_time.unwrap())
            >= subprogram.start_wait {
            Ok((SubprogramStatus::SUCCESS, next))
        } else {
            Ok((SubprogramStatus::STARTING, next))
        },
        Ok((_, next)) => Ok((SubprogramStatus::ERROR, next)),
    }
}

/// Launches a long-running process unless it was launched before. The
/// result says whether it is launched now.
pub open spec fn spec_start_subprogram(
    subprogram: SubprogramContext,
    pipe_stdin: bool,
    output_to: Option<ChildId>,
    now: u64,
    journal: Seq<Reply>,
    at: nat,
) -> Step<(bool, SubprogramContext, nat)> {
    if subprogram.start_time is Some {
        Ok((true, subprogram, at))
    } else {
        match subprogram.program.spec_start(pipe_stdin, output_to, journal, at) {
            Err(request) => Err(request),
            Ok((Err(_), program, next)) => Ok(
                (false, SubprogramContext { program, ..subprogram }, next),
            ),
            Ok((Ok(_), program, next)) => Ok(
                (true, SubprogramContext { program, start_time: Some(now), ..subprogram }, next),
            ),
        }
    }
}

/// Launches what is not launched yet: the logger, if one is configured,
/// with a pipe to its stdin, and then the program, with its output wired
/// to the logger if there is one. Stops at the first launch that fails.
#[verifier::opaque]
pub open spec fn spec_launch(program_ctx: ProgramContext, now: u64, journal: Seq<Reply>, at: nat) -> Step<
    (bool, ProgramContext, nat),
> {
    match program_ctx.logger {
        Some(logger) => match spec_start_subprogram(logger, true, None, now, journal, at) {
            Err(request) => Err(request),
            Ok((false, logger, next)) => Ok(
                (false, ProgramContext { logger: Some(logger), ..program_ctx }, next),
            ),
            Ok((true, logger, next)) => match spec_start_subprogram(
                program_ctx.program,
                false,
                Some(ChildId::Logger),
                now,
                journal,
                next,
            ) {
                Err(request) => Err(request),
                Ok((launched, program, last)) => Ok(
                    (
                        launched,
                        ProgramContext { logger: Some(logger), program, ..program_ctx },
                        last,
                    ),
                ),
            },
        },
        None => match spec_start_subprogram(program_ctx.program, false, None, now, journal, at) {
            Err(request) => Err(request),
            Ok((launched, program, next)) => Ok(
                (launched, ProgramContext { program, ..program_ctx }, next),
            ),
        },
    }
}

/// Probes the program and then, if the program has started, the logger.
#[verifier::opaque]
pub open spec fn spec_await_started(
    program_ctx: ProgramContext,
    now: u64,
    journal: Seq<Reply>,
    at: nat,
) -> Step<(SubprogramStatus, nat)> {
    match spec_check_subprogram(program_ctx.program, now, journal, at) {
        Err(request) => Err(request),
        Ok((SubprogramStatus::SUCCESS, next)) => match program_ctx.logger {
            None => Ok((SubprogramStatus::SUCCESS, next)),
            Some(logger) => spec_check_subprogram(logger, now, journal, next),
        },
        Ok((status, next)) => Ok((status, next)),
    }
}

impl Starting {
    /// Launches the pre-command if it has not been launched, and probes it
    /// otherwise. It has failed if it could not be launched, exited with
    /// another code than 0, could not be probed, or still runs after more
    /// than its timeout.
    pub fn check_pre_command(
        pre_command: &mut PrecommandContext,
        now: u64,
        journal: &Vec<Reply>,
        at: &mut usize,
    ) -> (r: Step<PrecommandStatus>)
        ensures
            call_agrees(
                spec_check_pre_command(*old(pre_command), now, journal@, *old(at) as nat),
                r,
                *final(pre_command),
                *final(at),
            ),
            final(pre_command).fixed() == old(pre_command).fixed(),
    {
        if let Some(start_time) = pre_command.start_time {
            match pre_command.program.exit_status_unchecked(journal, at)? {
                Ok(None) => {
                    // The program is still running. Check if it has timed out.
                    if elapsed(now, start_time) > pre_command.timeout {
                        return Ok(PrecommandStatus::ERROR);
                    }
                    // We are still waiting for pre_command to finish running.
                    return Ok(PrecommandStatus::RUNNING);
                },
                Ok(Some(exit_status)) => {
                    if !exit_status.success() {
                        return Ok(PrecommandStatus::ERROR);
                    }
                    // The program finished running successfully!
                    return Ok(PrecommandStatus::SUCCESS);
                },
                Err(_) => {
                    return Ok(PrecommandStatus::ERROR);
                },
            }
        }
        // Command has not been started yet.
        if let Err(_) = pre_command.program.start(false, None, journal, at)? {
            return Ok(PrecommandStatus::ERROR);
        }
        pre_command.start_time = Some(now);
        Ok(PrecommandStatus::RUNNING)
    }

    /// Probes a process that has been launched. It has started once it has
    /// run for its start-wait, and it has failed if it exited or could not
    /// be probed.
    pub fn check_subprogram(
        subprogram: &SubprogramContext,
        now: u64,
        journal: &Vec<Reply>,
        at: &mut usize,
    ) -> (r: Step<SubprogramStatus>)
        requires
            subprogram.start_time is Some,
        ensures
            query_agrees(
                spec_check_subprogram(*subprogram, now, journal@, *old(at) as nat),
                r,
                *final(at),
            ),
    {
        let start_time = subprogram.start_time.unwrap();
        match subprogram.program.exit_status_unchecked(journal, at)? {
            Ok(None) => {
                // The program is still running. Check if it has reached the start_wait period.
                if elapsed(now, start_time) >= subprogram.start_wait {
                    return Ok(SubprogramStatus::SUCCESS);
                }
                Ok(SubprogramStatus::STARTING)
            },
            Ok(Some(_)) => Ok(SubprogramStatus::ERROR),
            Err(_) => Ok(SubprogramStatus::ERROR),
        }
    }

    fn run_pre_command(
        pre_command: &mut Option<PrecommandContext>,
        now: u64,
        journal: &Vec<Reply>,
        at: &mut usize,
    ) -> (r: Step<PrecommandStatus>)
        ensures
            call_agrees(
                spec_run_pre_command(*old(pre_command), now, journal@, *old(at) as nat),
                r,
                *final(pre_command),
                *final(at),
            ),
            fixed_helper(*final(pre_command)) == fixed_helper(*old(pre_command)),
    {
        match pre_command {
            Some(context) => Starting::check_pre_command(context, now, journal, at),
            None => Ok(PrecommandStatus::SUCCESS),
        }
    }

    fn start_subprogram(
        subprogram: &mut SubprogramContext,
        pipe_stdin: bool,
        output_to: Option<ChildId>,
        now: u64,
        journal: &Vec<Reply>,
        at: &mut usize,
    ) -> (r: Step<bool>)
        ensures
            call_agrees(
                spec_start_subprogram(
                    *old(subprogram),
                    pipe_stdin,
                    output_to,
                    now,
                    journal@,
                    *old(at) as nat,
                ),
                r,
                *final(subprogram),
                *final(at),
            ),
            final(subprogram).fixed() == old(subprogram).fixed(),
            r == Ok::<bool, crate::os::Request>(true) ==> final(subprogram).start_time is Some,
    {
        // Start the process if it isn't already started.
        if subprogram.start_time.is_none() {
            if let Err(_) = subprogram.program.start(pipe_stdin, output_to, journal, at)? {
                return Ok(false);
            }
            subprogram.start_time = Some(now);
        }
        Ok(true)
    }

    fn launch(program_ctx: &mut ProgramContext, now: u64, journal: &Vec<Reply>, at: &mut usize) -> (r:
        Step<bool>)
        ensures
            call_agrees(
                spec_launch(*old(program_ctx), now, journal@, *old(at) as nat),
                r,
                *final(program_ctx),
                *final(at),
            ),
            final(program_ctx).fixed() == old(program_ctx).fixed(),
            r == Ok::<bool, crate::os::Request>(true) ==> {
                &&& final(program_ctx).program.start_time is Some
                &&& final(program_ctx).logger matches Some(logger) ==> logger.start_time is Some
            },
    {
        reveal(spec_launch);
        if let Some(logger) = &mut program_ctx.logger {
            if !Starting::start_subprogram(logger, true, None, now, journal, at)? {
                return Ok(false);
            }
            // Start the program with its stdout and stderr piped into the logger's stdin.
            Starting::start_subprogram(
                &mut program_ctx.program,
                false,
                Some(ChildId::Logger),
                now,
                journal,
                at,
            )
        } else {
            Starting::start_subprogram(&mut program_ctx.program, false, None, now, journal, at)
        }
    }

    fn await_started(program_ctx: &ProgramContext, now: u64, journal: &Vec<Reply>, at: &mut usize) -> (r:
        Step<SubprogramStatus>)
        requires
            program_ctx.program.start_time is Some,
            program_ctx.logger matches Some(logger) ==> logger.start_time is Some,
        ensures
            query_agrees(
                spec_await_started(*program_ctx, now, journal@, *old(at) as nat),
                r,
                *final(at),
            ),
    {
        reveal(spec_await_started);
        // Wait for the program to start successfully.
        match Starting::check_subprogram(&program_ctx.program, now, journal, at)? {
            SubprogramStatus::STARTING => return Ok(SubprogramStatus::STARTING),
            SubprogramStatus::SUCCESS => (),
            SubprogramStatus::ERROR => return Ok(SubprogramStatus::ERROR),
        }
        // Check the logger after the program because the logger will often exit if the
        // program fails to start, and then the program's exit is the one worth reporting.
        if let Some(logger) = &program_ctx.logger {
            return Starting::check_subprogram(logger, now, journal, at);
        }
        Ok(SubprogramStatus::SUCCESS)
    }

    /// A start has failed: the next state is decided by the restart policy.
    pub open spec fn spec_fail(scene: Scene<Self>, app: ProgramContext, journal: Seq<Reply>, at: nat) -> Step<
        (Scene<Self>, nat),
    > {
        match spec_transition_to_backoff_or_exiting(app, journal, at) {
            Err(request) => Err(request),
            Ok((context, next)) => Ok((Scene { context, app, ..scene }, next)),
        }
    }

    /// The last part of the tick: launch what is missing and see whether
    /// it has started.
    #[verifier::opaque]
    pub open spec fn spec_bring_up(scene: Scene<Self>, now: u64, journal: Seq<Reply>, at: nat) -> Step<
        (Scene<Self>, nat),
    > {
        match spec_launch(scene.app, now, journal, at) {
            Err(request) => Err(request),
            Ok((false, app, next)) => Self::spec_fail(scene, app, journal, next),
            Ok((true, app, next)) => match spec_await_started(app, now, journal, next) {
                Err(request) => Err(request),
                Ok((SubprogramStatus::STARTING, last)) => Ok((Scene { app, ..scene }, last)),
                Ok((SubprogramStatus::ERROR, last)) => Self::spec_fail(scene, app, journal, last),
                Ok((SubprogramStatus::SUCCESS, last)) => Ok(
                    (
                        Scene {
                            context: ContextImpl { current_state_key: ProgramState::Running },
                            app,
                            ..scene
                        },
                        last,
                    ),
                ),
            },
        }
    }

    /// The middle part of the tick: the program's pre-command, then
    /// [`Starting::spec_bring_up`].
    #[verifier::opaque]
    pub open spec fn spec_prepare(scene: Scene<Self>, now: u64, journal: Seq<Reply>, at: nat) -> Step<
        (Scene<Self>, nat),
    > {
        match spec_run_pre_command(scene.app.pre_command, now, journal, at) {
            Err(request) => Err(request),
            Ok((status, pre_command, next)) => {
                let app = ProgramContext { pre_command, ..scene.app };
                match status {
                    PrecommandStatus::RUNNING => Ok((Scene { app, ..scene }, next)),
                    PrecommandStatus::ERROR => Self::spec_fail(scene, app, journal, next),
                    PrecommandStatus::SUCCESS => Self::spec_bring_up(
                        Scene { app, ..scene },
                        now,
                        journal,
                        next,
                    ),
                }
            },
        }
    }
}

impl State for Starting {
    open spec fn slot(states: States) -> Self {
        states.starting
    }

    open spec fn with_slot(states: States, state: Self) -> States {
        States { starting: state, ..states }
    }

    /// The ordered bring-up: the logger's pre-command, the program's
    /// pre-command, the logger, the program. A pre-command that still runs
    /// ends the tick; a failure anywhere ends the attempt.
    open spec fn spec_update(scene: Scene<Self>, now: u64, journal: Seq<Reply>, at: nat) -> Step<
        (Scene<Self>, nat),
    > {
        match spec_run_pre_command(scene.app.logger_pre_command, now, journal, at) {
            Err(request) => Err(request),
            Ok((status, logger_pre_command, next)) => {
                let app = ProgramContext { logger_pre_command, ..scene.app };
                match status {
                    PrecommandStatus::RUNNING => Ok((Scene { app, ..scene }, next)),
                    PrecommandStatus::ERROR => Self::spec_fail(scene, app, journal, next),
                    PrecommandStatus::SUCCESS => Self::spec_prepare(
                        Scene { app, ..scene },
                        now,
                        journal,
                        next,
                    ),
                }
            },
        }
    }

    open spec fn spec_react(
        scene: Scene<Self>,
        event: ProgramEvent,
        journal: Seq<Reply>,
        at: nat,
    ) -> Step<(MachineResultView, Scene<Self>, nat)> {
        let stopping = ContextImpl { current_state_key: ProgramState::Stopping };
        match event {
            ProgramEvent::Start => Ok(
                (
                    Ok(Some("Already starting"@)),
                    Scene { app: ProgramContext { num_restarts: 0, ..scene.app }, ..scene },
                    at,
                ),
            ),
            ProgramEvent::Stop => Ok((Ok(None), Scene { context: stopping, ..scene }, at)),
            ProgramEvent::Restart => Ok(
                (
                    Ok(None),
                    Scene {
                        context: stopping,
                        app: ProgramContext { num_restarts: 0, should_restart: true, ..scene.app },
                        ..scene
                    },
                    at,
                ),
            ),
        }
    }

    fn update(
        &mut self,
        context: &mut ContextImpl,
        program_ctx: &mut ProgramContext,
        now: u64,
        journal: &Vec<Reply>,
        at: &mut usize,
    ) -> (r: Step<()>) {
        reveal(Starting::spec_prepare);
        reveal(Starting::spec_bring_up);
        match Starting::run_pre_command(&mut program_ctx.logger_pre_command, now, journal, at)? {
            PrecommandStatus::RUNNING => return Ok(()),
            PrecommandStatus::SUCCESS => (),
            PrecommandStatus::ERROR => {
                return transition_to_backoff_or_exiting(context, program_ctx, journal, at);
            },
        }
        match Starting::run_pre_command(&mut program_ctx.pre_command, now, journal, at)? {
            PrecommandStatus::RUNNING => return Ok(()),
            PrecommandStatus::SUCCESS => (),
            PrecommandStatus::ERROR => {
                return transition_to_backoff_or_exiting(context, program_ctx, journal, at);
            },
        }
        if !Starting::launch(program_ctx, now, journal, at)? {
            return transition_to_backoff_or_exiting(context, program_ctx, journal, at);
        }
        match Starting::await_started(program_ctx, now, journal, at)? {
            SubprogramStatus::STARTING => return Ok(()),
            SubprogramStatus::SUCCESS => (),
            SubprogramStatus::ERROR => {
                return transition_to_backoff_or_exiting(context, program_ctx, journal, at);
            },
        }
        // If we get here, all the pre-commands succeeded and both the logger and the
        // program are running successfully!
        context.transition(ProgramState::Running);
        Ok(())
    }

    fn react(
        &mut self,
        event: &ProgramEvent,
        context: &mut ContextImpl,
        program_ctx: &mut ProgramContext,
        journal: &Vec<Reply>,
        at: &mut usize,
    ) -> (r: Step<MachineResult>) {
        match event {
            ProgramEvent::Start => {
                // Reset num_restarts since the client explicitly told us to start again.
                program_ctx.num_restarts = 0u32;
                Ok(MachineResult::Ok(Some(String::from_str("Already starting"))))
            },
            ProgramEvent::Stop => {
                context.transition(ProgramState::Stopping);
                Ok(MachineResult::Ok(None))
            },
            ProgramEvent::Restart => {
                // Reset num_restarts since the client explicitly told us to start again.
                program_ctx.num_restarts = 0u32;
                program_ctx.should_restart = true;
                context.transition(ProgramState::Stopping);
                Ok(MachineResult::Ok(None))
            },
        }
    }

    fn enter(
        &mut self,
        program_ctx: &mut ProgramContext,
        now: u64,
        journal: &Vec<Reply>,
        at: &mut usize,
    ) -> (r: Step<()>) {
        Ok(())
    }

    fn exit(&mut self, program_ctx: &mut ProgramContext, journal: &Vec<Reply>, at: &mut usize) -> (r:
        Step<()>) {
        Ok(())
    }
}

impl State for Running {
    open spec fn slot(states: States) -> Self {
        states.running
    }

    open spec fn with_slot(states: States, state: Self) -> States {
        States { running: state, ..states }
    }

    open spec fn spec_update(scene: Scene<Self>, now: u64, journal: Seq<Reply>, at: nat) -> Step<
        (Scene<Self>, nat),
    > {
        match scene.app.spec_all_programs_are_running(journal, at) {
            Err(request) => Err(request),
            Ok((true, next)) => Ok((scene, next)),
            Ok((false, next)) => match spec_transition_to_backoff_or_exiting(
                scene.app,
                journal,
                next,
            ) {
                Err(request) => Err(request),
                Ok((context, last)) => Ok((Scene { context, ..scene }, last)),
            },
        }
    }

    open spec fn spec_react(
        scene: Scene<Self>,
        event: ProgramEvent,
        journal: Seq<Reply>,
        at: nat,
    ) -> Step<(MachineResultView, Scene<Self>, nat)> {
        let stopping = ContextImpl { current_state_key: ProgramState::Stopping };
        match event {
            ProgramEvent::Start => Ok((Ok(Some("Already running"@)), scene, at)),
            ProgramEvent::Stop => Ok(
                (
                    Ok(None),
                    Scene {
                        context: stopping,
                        app: ProgramContext { should_restart: false, ..scene.app },
                        ..scene
                    },
                    at,
                ),
            ),
            ProgramEvent::Restart => Ok(
                (
                    Ok(None),
                    Scene {
                        context: stopping,
                        app: ProgramContext { should_restart: true, ..scene.app },
                        ..scene
                    },
                    at,
                ),
            ),
        }
    }

    open spec fn spec_enter(
        state: Self,
        app: ProgramContext,
        now: u64,
        journal: Seq<Reply>,
        at: nat,
    ) -> Step<((Self, ProgramContext), nat)> {
        Ok(((state, ProgramContext { num_restarts: 0, ..app }), at))
    }

    fn update(
        &mut self,
        context: &mut ContextImpl,
        program_ctx: &mut ProgramContext,
        now: u64,
        journal: &Vec<Reply>,
        at: &mut usize,
    ) -> (r: Step<()>) {
        if !program_ctx.all_programs_are_running(journal, at)? {
            return transition_to_backoff_or_exiting(context, program_ctx, journal, at);
        }
        Ok(())
    }

    fn react(
        &mut self,
        event: &ProgramEvent,
        context: &mut ContextImpl,
        program_ctx: &mut ProgramContext,
        journal: &Vec<Reply>,
        at: &mut usize,
    ) -> (r: Step<MachineResult>) {
        match event {
            ProgramEvent::Start => Ok(MachineResult::Ok(Some(String::from_str("Already running")))),
            ProgramEvent::Stop => {
                program_ctx.should_restart = false;
                context.transition(ProgramState::Stopping);
                Ok(MachineResult::Ok(None))
            },
            ProgramEvent::Restart => {
                program_ctx.should_restart = true;
                context.transition(ProgramState::Stopping);
                Ok(MachineResult::Ok(None))
            },
        }
    }

    fn enter(
        &mut self,
        program_ctx: &mut ProgramContext,
        now: u64,
        journal: &Vec<Reply>,
        at: &mut usize,
    ) -> (r: Step<()>) {
        program_ctx.num_restarts = 0u32;
        Ok(())
    }

    fn exit(&mut self, program_ctx: &mut ProgramContext, journal: &Vec<Reply>, at: &mut usize) -> (r:
        Step<()>) {
        Ok(())
    }
}

/// The answer of a state that tears down to an event: a start is refused,
/// a stop withdraws the restart intent and a restart records it.
pub open spec fn spec_teardown_react<S>(
    scene: Scene<S>,
    event: ProgramEvent,
    refusal: Seq<char>,
    stopping: Seq<char>,
    restarting: Seq<char>,
    at: nat,
) -> Step<(MachineResultView, Scene<S>, nat)> {
    match event {
        ProgramEvent::Start => Ok((Err(refusal), scene, at)),
        ProgramEvent::Stop => Ok(
            (
                Ok(Some(stopping)),
                Scene { app: ProgramContext { should_restart: false, ..scene.app }, ..scene },
                at,
            ),
        ),
        ProgramEvent::Restart => Ok(
            (
                Ok(Some(restarting)),
                Scene { app: ProgramContext { should_restart: true, ..scene.app }, ..scene },
                at,
            ),
        ),
    }
}

impl State for Stopping {
    open spec fn slot(states: States) -> Self {
        states.stopping
    }

    open spec fn with_slot(states: States, state: Self) -> States {
        States { stopping: state, ..states }
    }

    open spec fn spec_update(scene: Scene<Self>, now: u64, journal: Seq<Reply>, at: nat) -> Step<
        (Scene<Self>, nat),
    > {
        match spec_teardown_update(
            scene.context,
            scene.app,
            ProgramState::Stopped,
            now,
            journal,
            at,
        ) {
            Err(request) => Err(request),
            Ok(((context, app), next)) => Ok((Scene { context, app, ..scene }, next)),
        }
    }

    open spec fn spec_react(
        scene: Scene<Self>,
        event: ProgramEvent,
        journal: Seq<Reply>,
        at: nat,
    ) -> Step<(MachineResultView, Scene<Self>, nat)> {
        spec_teardown_react(
            scene,
            event,
            "Cannot start while stopping"@,
            "Already stopping"@,
            "Will restart after stopping"@,
            at,
        )
    }

    open spec fn spec_enter(
        state: Self,
        app: ProgramContext,
        now: u64,
        journal: Seq<Reply>,
        at: nat,
    ) -> Step<((Self, ProgramContext), nat)> {
        Ok(((state, spec_enter_teardown(app)), at))
    }

    open spec fn spec_exit(state: Self, app: ProgramContext, journal: Seq<Reply>, at: nat) -> Step<
        ((Self, ProgramContext), nat),
    > {
        match spec_exit_teardown(app, journal, at) {
            Err(request) => Err(request),
            Ok((after, next)) => Ok(((state, after), next)),
        }
    }

    fn update(
        &mut self,
        context: &mut ContextImpl,
        program_ctx: &mut ProgramContext,
        now: u64,
        journal: &Vec<Reply>,
        at: &mut usize,
    ) -> (r: Step<()>) {
        if wind_down(program_ctx, now, journal, at)? {
            transition_to_stopped_or_restart(program_ctx.should_restart, context);
        }
        Ok(())
    }

    fn react(
        &mut self,
        event: &ProgramEvent,
        context: &mut ContextImpl,
        program_ctx: &mut ProgramContext,
        journal: &Vec<Reply>,
        at: &mut usize,
    ) -> (r: Step<MachineResult>) {
        match event {
            ProgramEvent::Start => Ok(
                MachineResult::Err(String::from_str("Cannot start while stopping")),
            ),
            ProgramEvent::Stop => {
                program_ctx.should_restart = false;
                Ok(MachineResult::Ok(Some(String::from_str("Already stopping"))))
            },
            ProgramEvent::Restart => {
                program_ctx.should_restart = true;
                Ok(MachineResult::Ok(Some(String::from_str("Will restart after stopping"))))
            },
        }
    }

    fn enter(
        &mut self,
        program_ctx: &mut ProgramContext,
        now: u64,
        journal: &Vec<Reply>,
        at: &mut usize,
    ) -> (r: Step<()>) {
        program_ctx.sigterm_time = None;
        program_ctx.num_restarts = 0u32;
        Ok(())
    }

    fn exit(&mut self, program_ctx: &mut ProgramContext, journal: &Vec<Reply>, at: &mut usize) -> (r:
        Step<()>) {
        program_ctx.should_restart = false;
        program_ctx.reset(journal, at)
    }
}

impl State for Exiting {
    open spec fn slot(states: States) -> Self {
        states.exiting
    }

    open spec fn with_slot(states: States, state: Self) -> States {
        States { exiting: state, ..states }
    }

    open spec fn spec_update(scene: Scene<Self>, now: u64, journal: Seq<Reply>, at: nat) -> Step<
        (Scene<Self>, nat),
    > {
        match spec_teardown_update(
            scene.context,
            scene.app,
            ProgramState::Exited,
            now,
            journal,
            at,
        ) {
            Err(request) => Err(request),
            Ok(((context, app), next)) => Ok((Scene { context, app, ..scene }, next)),
        }
    }

    open spec fn spec_react(
        scene: Scene<Self>,
        event: ProgramEvent,
        journal: Seq<Reply>,
        at: nat,
    ) -> Step<(MachineResultView, Scene<Self>, nat)> {
        spec_teardown_react(
            scene,
            event,
            "Cannot start while exiting"@,
            "Already stopping (exiting)"@,
            "Will restart after exiting"@,
            at,
        )
    }

    open spec fn spec_enter(
        state: Self,
        app: ProgramContext,
        now: u64,
        journal: Seq<Reply>,
        at: nat,
    ) -> Step<((Self, ProgramContext), nat)> {
        Ok(((state, spec_enter_teardown(app)), at))
    }

    open spec fn spec_exit(state: Self, app: ProgramContext, journal: Seq<Reply>, at: nat) -> Step<
        ((Self, ProgramContext), nat),
    > {
        match spec_exit_teardown(app, journal, at) {
            Err(request) => Err(request),
            Ok((after, next)) => Ok(((state, after), next)),
        }
    }

    fn update(
        &mut self,
        context: &mut ContextImpl,
        program_ctx: &mut ProgramContext,
        now: u64,
        journal: &Vec<Reply>,
        at: &mut usize,
    ) -> (r: Step<()>) {
        if wind_down(program_ctx, now, journal, at)? {
            transition_to_exited_or_restart(program_ctx.should_restart, context);
        }
        Ok(())
    }

    fn react(
        &mut self,
        event: &ProgramEvent,
        context: &mut ContextImpl,
        program_ctx: &mut ProgramContext,
        journal: &Vec<Reply>,
        at: &mut usize,
    ) -> (r: Step<MachineResult>) {
        match event {
            ProgramEvent::Start => Ok(
                MachineResult::Err(String::from_str("Cannot start while exiting")),
            ),
            ProgramEvent::Stop => {
                program_ctx.should_restart = false;
                Ok(MachineResult::Ok(Some(String::from_str("Already stopping (exiting)"))))
            },
            ProgramEvent::Restart => {
                program_ctx.should_restart = true;
                Ok(MachineResult::Ok(Some(String::from_str("Will restart after exiting"))))
            },
        }
    }

    fn enter(
        &mut self,
        program_ctx: &mut ProgramContext,
        now: u64,
        journal: &Vec<Reply>,
        at: &mut usize,
    ) -> (r: Step<()>) {
        program_ctx.sigterm_time = None;
        program_ctx.num_restarts = 0u32;
        Ok(())
    }

    fn exit(&mut self, program_ctx: &mut ProgramContext, journal: &Vec<Reply>, at: &mut usize) -> (r:
        Step<()>) {
        program_ctx.should_restart = false;
        program_ctx.reset(journal, at)
    }
}

} // verus!
