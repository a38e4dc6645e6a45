//! What holds of every machine, whatever the operating system answers.
//!
//! The laws speak of ticks and events that are complete: the journal holds
//! the outcome of every operation that the tick or event asks for.

use crate::fsm::{Machine, MachineResultView, Scene, State};
use crate::os::{Reply, Request, Signal};
use crate::program::Program;
use crate::program_context::{
    spec_send_signal_to_program_if_running, PrecommandContext, ProgramContext,
};
use crate::program_fsm::{
    restart_allowed, spec_await_started, spec_check_subprogram, spec_launch,
    spec_run_pre_command, spec_wind_down, ProgramEvent, ProgramState, Starting,
};
use crate::upkeep::{
    lemma_enter_state, lemma_exit_state, lemma_first_enter, lemma_react_keeps_wf,
    lemma_react_state, lemma_update_keeps_wf, lemma_update_state, lemma_wind_down,
};
use vstd::prelude::*;

verus! {

/// The machine once the entry hook of its initial state has run, at clock
/// reading `now`.
pub open spec fn first_entered(machine: Machine, now: u64) -> Machine {
    match machine.spec_maybe_enter_on_first_update(now, Seq::empty(), 0) {
        Ok((after, _)) => after,
        Err(_) => machine,
    }
}

/// The entry hook of the initial state asks nothing of the operating
/// system: it runs the same with every journal and leaves the journal
/// untouched.
pub proof fn lemma_first_enter_asks_nothing(
    machine: Machine,
    now: u64,
    journal: Seq<Reply>,
    at: nat,
)
    requires
        machine.wf(),
    ensures
        machine.spec_maybe_enter_on_first_update(now, journal, at) == Ok::<(Machine, nat), Request>(
            (first_entered(machine, now), at),
        ),
        first_entered(machine, now).wf(),
        !first_entered(machine, now).first_update,
        first_entered(machine, now).context == machine.context,
        first_entered(machine, now).app_context.should_restart
            == machine.app_context.should_restart,
        first_entered(machine, now).app_context.fixed() == machine.app_context.fixed(),
        first_entered(machine, now).app_context.num_restarts >= machine.app_context.num_restarts,
        !machine.first_update ==> first_entered(machine, now) == machine,
{
    reveal(Machine::spec_enter_state);
    lemma_first_enter(machine, now, journal, at);
    lemma_first_enter(machine, now, Seq::empty(), 0);
}

/// What a complete tick at clock reading `now` has made of `before`.
///
/// The restart counter goes up by one when `Backoff` is entered, stays when
/// `Starting` is entered from `Backoff`, and is 0 after every other change
/// of state. After a change of state no restart is intended any more.
pub open spec fn tick_made(before: Machine, now: u64, after: Machine) -> bool {
    let ready = first_entered(before, now);
    let from = before.context.current_state_key;
    let to = after.context.current_state_key;
    let count = ready.app_context.num_restarts;
    &&& after.wf()
    &&& !after.first_update
    &&& after.app_context.fixed() == before.app_context.fixed()
    &&& to == from ==> {
        &&& after.app_context.num_restarts == count
        &&& after.app_context.should_restart == before.app_context.should_restart
    }
    &&& to != from ==> !after.app_context.should_restart
    &&& to != from ==> match to {
        ProgramState::Stopped => from == ProgramState::Stopping
            && !before.app_context.should_restart,
        ProgramState::Exited => {
            ||| from == ProgramState::Exiting && !before.app_context.should_restart
            ||| (from == ProgramState::Starting || from == ProgramState::Running)
                && !restart_allowed(ready.app_context)
        },
        ProgramState::Exiting => (from == ProgramState::Starting || from == ProgramState::Running)
            && !restart_allowed(ready.app_context),
        ProgramState::Backoff => {
            &&& from == ProgramState::Starting || from == ProgramState::Running
            &&& restart_allowed(ready.app_context)
            &&& after.app_context.num_restarts == count + 1
        },
        ProgramState::Starting => {
            ||| from == ProgramState::Backoff && after.app_context.num_restarts == count
            ||| (from == ProgramState::Stopping || from == ProgramState::Exiting)
                && before.app_context.should_restart && after.app_context.num_restarts == 0
        },
        ProgramState::Running => from == ProgramState::Starting,
        ProgramState::Stopping => false,
    }
}

/// Every complete tick is one of the transitions that [`tick_made`] lists.
pub proof fn lemma_tick(machine: Machine, now: u64, journal: Seq<Reply>)
    requires
        machine.wf(),
    ensures
        machine.spec_update(now, journal) matches Ok(after) ==> tick_made(machine, now, after),
{
    lemma_update_keeps_wf(machine, now, journal, 0);
    lemma_first_enter_asks_nothing(machine, now, journal, 0);
    let ready = first_entered(machine, now);
    lemma_update_state(ready, now, journal, 0);
    if let Ok((updated, at2)) = ready.spec_update_state(now, journal, 0) {
        let from = ready.context.current_state_key;
        let to = updated.context.current_state_key;
        if to != from {
            lemma_exit_state(updated, from, journal, at2);
            if let Ok((gone, at3)) = updated.spec_exit_state(from, journal, at2) {
                lemma_enter_state(gone, to, now, journal, at3);
            }
        }
    }
}

/// The restart counter never exceeds the configured attempts: not in a
/// machine as it is between its callbacks, and so not after a tick or an
/// event, which leave it so.
pub proof fn law_restart_counter_is_bounded(
    machine: Machine,
    event: ProgramEvent,
    now: u64,
    journal: Seq<Reply>,
)
    requires
        machine.wf(),
    ensures
        machine.app_context.num_restarts <= machine.app_context.config.program.num_restart_attempts,
        machine.spec_update(now, journal) matches Ok(after) ==> after.app_context.num_restarts
            <= after.app_context.config.program.num_restart_attempts,
        machine.spec_react(event, now, journal) matches Ok((_, after))
            ==> after.app_context.num_restarts
            <= after.app_context.config.program.num_restart_attempts,
{
    lemma_update_keeps_wf(machine, now, journal, 0);
    lemma_react_keeps_wf(machine, event, now, journal, 0);
}

/// In `Stopped` and in `Exited` every child has stopped: the question is
/// answered without a probe, whatever the journal holds.
pub proof fn law_quiescent_means_stopped(machine: Machine, journal: Seq<Reply>, at: nat)
    requires
        machine.wf(),
        machine.context.current_state_key == ProgramState::Stopped
            || machine.context.current_state_key == ProgramState::Exited,
    ensures
        machine.app_context.spec_all_programs_are_stopped(journal, at) == Ok::<
            (bool, nat),
            Request,
        >((true, at)),
{
    reveal(ProgramContext::spec_any_program_is_running);
}

/// In `Stopped` and in `Exited` the program is as it was made: no child
/// has a process or a start time, no SIGTERM is remembered, the restart
/// counter is 0 and no restart is intended.
pub proof fn law_quiescent_holds_nothing(machine: Machine)
    requires
        machine.wf(),
        machine.context.current_state_key == ProgramState::Stopped
            || machine.context.current_state_key == ProgramState::Exited,
    ensures
        machine.app_context.pristine(),
        machine.app_context.at_rest(),
        machine.app_context.num_restarts == 0,
        !machine.app_context.should_restart,
{
}

/// A probe of `program` at position `at` of the journal found it running.
pub open spec fn found_running(program: Program, journal: Seq<Reply>, at: nat) -> bool {
    program.spec_is_running(journal, at) matches Ok((true, _))
}

/// The journal holds a probe that found the program running and, if a
/// logger is configured, one that found the logger running.
pub open spec fn all_found_running(program_ctx: ProgramContext, journal: Seq<Reply>) -> bool {
    &&& exists|at: nat| found_running(program_ctx.program.program, journal, at)
    &&& program_ctx.logger matches Some(logger) ==> exists|at: nat|
        found_running(logger.program, journal, at)
}

/// A machine is in `Running` at the end of a tick only if the tick has
/// probed the program and the logger and found them running.
pub proof fn law_running_means_running(machine: Machine, now: u64, journal: Seq<Reply>)
    requires
        machine.wf(),
    ensures
        machine.spec_update(now, journal) matches Ok(after) ==> (after.context.current_state_key
            == ProgramState::Running ==> all_found_running(after.app_context, journal)),
{
    lemma_tick(machine, now, journal);
    lemma_first_enter_asks_nothing(machine, now, journal, 0);
    let ready = first_entered(machine, now);
    if let Ok(after) = machine.spec_update(now, journal) {
        if after.context.current_state_key == ProgramState::Running {
            reveal(Machine::spec_update_state);
            reveal(Machine::spec_exit_state);
            reveal(Machine::spec_enter_state);
            let from = ready.context.current_state_key;
            if from == ProgramState::Running {
                reveal(ProgramContext::spec_all_programs_are_running);
                let program_ctx = ready.app_context;
                match program_ctx.logger {
                    None => {
                        assert(found_running(program_ctx.program.program, journal, 0));
                    },
                    Some(logger) => {
                        assert(found_running(logger.program, journal, 0));
                        let next = logger.program.spec_is_running(journal, 0).unwrap().1;
                        assert(found_running(program_ctx.program.program, journal, next));
                    },
                }
            } else {
                assert(from == ProgramState::Starting);
                lemma_started_means_running(ready.scene::<Starting>(), now, journal, 0);
            }
        }
    }
}

/// The last part of the tick of `Starting` ends in `Running` only once the
/// program and the logger have been probed and found running.
pub proof fn lemma_brought_up_means_running(
    scene: Scene<Starting>,
    now: u64,
    journal: Seq<Reply>,
    at: nat,
)
    requires
        scene.context.current_state_key != ProgramState::Running,
    ensures
        Starting::spec_bring_up(scene, now, journal, at) matches Ok((after, _)) ==> (
        after.context.current_state_key == ProgramState::Running ==> all_found_running(
            after.app,
            journal,
        )),
{
    reveal(Starting::spec_bring_up);
    reveal(spec_await_started);
    if let Ok((after, _)) = Starting::spec_bring_up(scene, now, journal, at) {
        if after.context.current_state_key == ProgramState::Running {
            let (_, launched, at1) = spec_launch(scene.app, now, journal, at).unwrap();
            assert(after.app == launched);
            assert(found_running(launched.program.program, journal, at1));
            match launched.logger {
                None => {},
                Some(logger) => {
                    let (_, at2) = spec_check_subprogram(
                        launched.program,
                        now,
                        journal,
                        at1,
                    ).unwrap();
                    assert(found_running(logger.program, journal, at2));
                },
            }
        }
    }
}

pub proof fn lemma_prepared_means_running(
    scene: Scene<Starting>,
    now: u64,
    journal: Seq<Reply>,
    at: nat,
)
    requires
        scene.context.current_state_key != ProgramState::Running,
    ensures
        Starting::spec_prepare(scene, now, journal, at) matches Ok((after, _)) ==> (
        after.context.current_state_key == ProgramState::Running ==> all_found_running(
            after.app,
            journal,
        )),
{
    reveal(Starting::spec_prepare);
    if let Ok((_, pre_command, next)) = spec_run_pre_command(
        scene.app.pre_command,
        now,
        journal,
        at,
    ) {
        let app = ProgramContext { pre_command, ..scene.app };
        lemma_brought_up_means_running(Scene { app, ..scene }, now, journal, next);
    }
}

pub proof fn lemma_started_means_running(
    scene: Scene<Starting>,
    now: u64,
    journal: Seq<Reply>,
    at: nat,
)
    requires
        scene.context.current_state_key != ProgramState::Running,
    ensures
        Starting::spec_update(scene, now, journal, at) matches Ok((after, _)) ==> (
        after.context.current_state_key == ProgramState::Running ==> all_found_running(
            after.app,
            journal,
        )),
{
    if let Ok((_, logger_pre_command, next)) = spec_run_pre_command(
        scene.app.logger_pre_command,
        now,
        journal,
        at,
    ) {
        let app = ProgramContext { logger_pre_command, ..scene.app };
        lemma_prepared_means_running(Scene { app, ..scene }, now, journal, next);
    }
}

/// When a machine leaves `Stopping` or `Exiting`, no restart is intended
/// any more. Only a tick makes it leave: an event never does.
pub proof fn law_restart_intent_cleared(
    machine: Machine,
    event: ProgramEvent,
    now: u64,
    journal: Seq<Reply>,
)
    requires
        machine.wf(),
        machine.context.current_state_key == ProgramState::Stopping
            || machine.context.current_state_key == ProgramState::Exiting,
    ensures
        machine.spec_update(now, journal) matches Ok(after) ==> (after.context.current_state_key
            != machine.context.current_state_key ==> !after.app_context.should_restart),
        machine.spec_react(event, now, journal) matches Ok((_, after))
            ==> after.context.current_state_key == machine.context.current_state_key,
{
    lemma_tick(machine, now, journal);
    lemma_event(machine, event, now, journal);
}

/// What a complete event at clock reading `now` has made of `before`.
///
/// An event that asks for a start leaves the restart counter at 0,
/// whatever the state. Where the state changes, it changes as
/// [`crate::upkeep::event_leads`] says.
pub open spec fn event_made(before: Machine, event: ProgramEvent, now: u64, after: Machine) -> bool {
    let from = before.context.current_state_key;
    let to = after.context.current_state_key;
    &&& after.wf()
    &&& !after.first_update
    &&& after.app_context.fixed() == before.app_context.fixed()
    &&& crate::upkeep::event_leads(from, event, to)
    &&& event != ProgramEvent::Stop ==> after.app_context.num_restarts == 0
    &&& (to == ProgramState::Stopping || to == ProgramState::Exiting)
        ==> after.app_context.should_restart == crate::upkeep::should_restart_after(
        from,
        event,
        before.app_context.should_restart,
    )
}

/// Every complete event is one of the transitions that [`event_made`] lists.
pub proof fn lemma_event(machine: Machine, event: ProgramEvent, now: u64, journal: Seq<Reply>)
    requires
        machine.wf(),
    ensures
        machine.spec_react(event, now, journal) matches Ok((_, after)) ==> event_made(
            machine,
            event,
            now,
            after,
        ),
{
    lemma_react_keeps_wf(machine, event, now, journal, 0);
    lemma_first_enter_asks_nothing(machine, now, journal, 0);
    let ready = first_entered(machine, now);
    lemma_react_state(ready, event, journal, 0);
    if let Ok((_, answered, at2)) = ready.spec_react_state(event, journal, 0) {
        let from = ready.context.current_state_key;
        let to = answered.context.current_state_key;
        if to != from {
            lemma_exit_state(answered, from, journal, at2);
            if let Ok((gone, at3)) = answered.spec_exit_state(from, journal, at2) {
                lemma_enter_state(gone, to, now, journal, at3);
            }
        }
    }
}

/// With a backoff delay of 0, a tick in `Backoff` leads to `Starting` as
/// soon as every child has stopped, and only then.
pub proof fn law_zero_backoff_delay(machine: Machine, now: u64, journal: Seq<Reply>)
    requires
        machine.wf(),
        machine.context.current_state_key == ProgramState::Backoff,
        machine.app_context.config.program.backoff_delay_secs == 0,
    ensures
        machine.spec_update(now, journal) matches Ok(after) ==> (after.context.current_state_key
            == ProgramState::Starting <==> spec_wind_down(
            first_entered(machine, now).app_context,
            now,
            journal,
            0,
        ) matches Ok((true, _, _))),
{
    lemma_tick(machine, now, journal);
    lemma_first_enter_asks_nothing(machine, now, journal, 0);
    let ready = first_entered(machine, now);
    reveal(Machine::spec_update_state);
    reveal(Machine::spec_enter_state);
    lemma_wind_down(ready.app_context, now, journal, 0);
    if let Ok((updated, at2)) = ready.spec_update_state(now, journal, 0) {
        if updated.context.current_state_key != ProgramState::Backoff {
            lemma_exit_state(updated, ProgramState::Backoff, journal, at2);
            if let Ok((gone, at3)) = updated.spec_exit_state(ProgramState::Backoff, journal, at2) {
                lemma_enter_state(gone, ProgramState::Starting, now, journal, at3);
            }
        }
    }
}

/// With a SIGKILL delay of 0, every step of the termination protocol after
/// the one that sent SIGTERM sends SIGKILL to the children that still run.
pub proof fn law_zero_sigkill_delay(
    program_ctx: ProgramContext,
    now: u64,
    journal: Seq<Reply>,
    at: nat,
)
    requires
        program_ctx.config.program.sigkill_delay_secs == 0,
        program_ctx.sigterm_time is Some,
    ensures
        program_ctx.spec_send_sigterm_or_sigkill_signal_to_all_running_programs(now, journal, at)
            == match program_ctx.spec_send_signal_to_all_running_programs(
            Signal::SIGKILL,
            journal,
            at,
        ) {
            Err(request) => Err::<(ProgramContext, nat), Request>(request),
            Ok((_, next)) => Ok((program_ctx, next)),
        },
{
}

/// The first step of the termination protocol leaves the time of SIGTERM
/// behind, so that every later step finds it.
pub proof fn law_sigterm_is_remembered(
    program_ctx: ProgramContext,
    now: u64,
    journal: Seq<Reply>,
    at: nat,
)
    ensures
        program_ctx.spec_send_sigterm_or_sigkill_signal_to_all_running_programs(now, journal, at)
            matches Ok((after, _)) ==> after.sigterm_time is Some,
{
}

/// A child that is found running is sent the signal: the operation asked
/// for after the probe is the delivery of that signal to that child.
pub proof fn law_running_child_is_signalled(program: Program, signal: Signal, journal: Seq<Reply>)
    requires
        program.has_child,
        journal.len() > 0,
        journal.last() == Reply::Running,
    ensures
        spec_send_signal_to_program_if_running(
            program,
            signal,
            journal,
            (journal.len() - 1) as nat,
        ) == Err::<((), nat), Request>(Request::Kill { child: program.id, signal }),
{
}

/// With no restart attempts, a start that fails leads to `Exited` or
/// `Exiting`, never to `Backoff`.
pub proof fn law_no_attempts_gives_up(machine: Machine, now: u64, journal: Seq<Reply>)
    requires
        machine.wf(),
        machine.context.current_state_key == ProgramState::Starting,
        machine.app_context.config.program.num_restart_attempts == 0,
    ensures
        machine.spec_update(now, journal) matches Ok(after) ==> {
            ||| after.context.current_state_key == ProgramState::Starting
            ||| after.context.current_state_key == ProgramState::Running
            ||| after.context.current_state_key == ProgramState::Exited
            ||| after.context.current_state_key == ProgramState::Exiting
        },
{
    lemma_tick(machine, now, journal);
    lemma_first_enter_asks_nothing(machine, now, journal, 0);
}

/// A program that is `Stopped` stays so until a client asks for it: a tick
/// completes without any operation, launches nothing and stays in
/// `Stopped`.
pub proof fn law_stopped_until_asked(machine: Machine, now: u64)
    requires
        machine.wf(),
        machine.context.current_state_key == ProgramState::Stopped,
    ensures
        machine.spec_update(now, Seq::empty()) matches Ok(after)
            && after.context.current_state_key == ProgramState::Stopped
            && after.app_context.nothing_launched(),
{
    lemma_update_keeps_wf(machine, now, Seq::empty(), 0);
    lemma_first_enter_asks_nothing(machine, now, Seq::empty(), 0);
    reveal(Machine::spec_update_state);
}

/// The machine after a tick at clock reading `tick.0` with the journal
/// `tick.1`. A tick whose journal is incomplete leaves the machine as it is.
pub open spec fn after_tick(machine: Machine, tick: (u64, Seq<Reply>)) -> Machine {
    match machine.spec_update(tick.0, tick.1) {
        Ok(after) => after,
        Err(_) => machine,
    }
}

/// How often the machine enters `Backoff` during the ticks.
pub open spec fn backoffs_entered(machine: Machine, ticks: Seq<(u64, Seq<Reply>)>) -> nat
    decreases ticks.len(),
{
    if ticks.len() == 0 {
        0
    } else {
        let next = after_tick(machine, ticks[0]);
        let entered: nat = if next.context.current_state_key == ProgramState::Backoff
            && machine.context.current_state_key != ProgramState::Backoff {
            1
        } else {
            0
        };
        entered + backoffs_entered(next, ticks.skip(1))
    }
}

/// Whether the machine enters `Running` during the ticks.
pub open spec fn reaches_running(machine: Machine, ticks: Seq<(u64, Seq<Reply>)>) -> bool
    decreases ticks.len(),
{
    if ticks.len() == 0 {
        false
    } else {
        let next = after_tick(machine, ticks[0]);
        (next.context.current_state_key == ProgramState::Running
            && machine.context.current_state_key != ProgramState::Running) || reaches_running(
            next,
            ticks.skip(1),
        )
    }
}

/// How many more attempts to start the program can be made before the
/// supervisor gives up, as long as no client steps in and the program does
/// not get to run.
pub open spec fn attempts_left(machine: Machine) -> nat {
    let app = machine.app_context;
    let all = app.config.program.num_restart_attempts as nat;
    if !app.config.program.autorestart {
        0
    } else {
        match machine.context.current_state_key {
            ProgramState::Starting | ProgramState::Backoff => (all - app.num_restarts) as nat,
            ProgramState::Running => all,
            ProgramState::Stopping | ProgramState::Exiting => if app.should_restart {
                all
            } else {
                0
            },
            ProgramState::Stopped | ProgramState::Exited => 0,
        }
    }
}

/// A tick that does not lead into `Running` uses up one attempt if it
/// enters `Backoff`, and never wins one back.
pub proof fn lemma_tick_uses_attempts(machine: Machine, tick: (u64, Seq<Reply>))
    requires
        machine.wf(),
    ensures
        after_tick(machine, tick).wf(),
        ({
            let next = after_tick(machine, tick);
            let from = machine.context.current_state_key;
            let to = next.context.current_state_key;
            (to != ProgramState::Running || from == ProgramState::Running) ==> attempts_left(next)
                + (if to == ProgramState::Backoff && from != ProgramState::Backoff {
                1nat
            } else {
                0nat
            }) <= attempts_left(machine)
        }),
{
    lemma_tick(machine, tick.0, tick.1);
    lemma_first_enter_asks_nothing(machine, tick.0, tick.1, 0);
}

/// However the operating system answers: as long as no client steps in and
/// the program does not get to run, the supervisor enters `Backoff` at most
/// as often as attempts are left, and so at most `num_restart_attempts`
/// times. The start that fails after that leads to `Exited` or `Exiting`
/// (see [`tick_made`]).
pub proof fn law_attempts_are_bounded(machine: Machine, ticks: Seq<(u64, Seq<Reply>)>)
    requires
        machine.wf(),
        !reaches_running(machine, ticks),
    ensures
        backoffs_entered(machine, ticks) <= attempts_left(machine),
        attempts_left(machine) <= machine.app_context.config.program.num_restart_attempts,
    decreases ticks.len(),
{
    if ticks.len() > 0 {
        lemma_tick_uses_attempts(machine, ticks[0]);
        law_attempts_are_bounded(after_tick(machine, ticks[0]), ticks.skip(1));
    }
}

/// Once the supervisor has given up, a tick leads from `Exiting` to
/// `Exited` as soon as every child has stopped, and nowhere else; and a
/// tick in `Exited` stays there.
pub proof fn law_giving_up_ends_exited(machine: Machine, now: u64, journal: Seq<Reply>)
    requires
        machine.wf(),
        !machine.app_context.should_restart,
        machine.context.current_state_key == ProgramState::Exiting
            || machine.context.current_state_key == ProgramState::Exited,
    ensures
        machine.spec_update(now, journal) matches Ok(after) ==> {
            &&& after.context.current_state_key == ProgramState::Exiting
                || after.context.current_state_key == ProgramState::Exited
            &&& machine.context.current_state_key == ProgramState::Exiting ==> (
            after.context.current_state_key == ProgramState::Exited <==> spec_wind_down(
                first_entered(machine, now).app_context,
                now,
                journal,
                0,
            ) matches Ok((true, _, _)))
            &&& machine.context.current_state_key == ProgramState::Exited
                ==> after.context.current_state_key == ProgramState::Exited
        },
{
    lemma_tick(machine, now, journal);
    lemma_first_enter_asks_nothing(machine, now, journal, 0);
    let ready = first_entered(machine, now);
    reveal(Machine::spec_update_state);
    lemma_wind_down(ready.app_context, now, journal, 0);
    if let Ok((updated, at2)) = ready.spec_update_state(now, journal, 0) {
        let from = ready.context.current_state_key;
        let to = updated.context.current_state_key;
        if to != from {
            lemma_exit_state(updated, from, journal, at2);
            if let Ok((gone, at3)) = updated.spec_exit_state(from, journal, at2) {
                lemma_enter_state(gone, to, now, journal, at3);
            }
        }
    }
}

/// A client that asks a running program to start changes nothing and is
/// told so.
pub proof fn law_start_while_running(machine: Machine, now: u64, journal: Seq<Reply>)
    requires
        machine.wf(),
        machine.context.current_state_key == ProgramState::Running,
    ensures
        machine.spec_react(ProgramEvent::Start, now, journal) == Ok::<
            (MachineResultView, Machine),
            Request,
        >((Ok(Some("Already running"@)), first_entered(machine, now))),
{
    lemma_first_enter_asks_nothing(machine, now, journal, 0);
    reveal(Machine::spec_react_state);
}

/// A client that asks a stopped program to stop changes nothing and is
/// told so.
pub proof fn law_stop_while_stopped(machine: Machine, now: u64, journal: Seq<Reply>)
    requires
        machine.wf(),
        machine.context.current_state_key == ProgramState::Stopped,
    ensures
        machine.spec_react(ProgramEvent::Stop, now, journal) == Ok::<
            (MachineResultView, Machine),
            Request,
        >((Ok(Some("Already stopped"@)), first_entered(machine, now))),
{
    lemma_first_enter_asks_nothing(machine, now, journal, 0);
    reveal(Machine::spec_react_state);
}

/// Two requests to restart a program that is starting come to the same as
/// one: the first begins the teardown and records the intent, the second
/// changes nothing.
pub proof fn law_restarts_collapse(
    machine: Machine,
    now: u64,
    journal: Seq<Reply>,
    later: u64,
    later_journal: Seq<Reply>,
)
    requires
        machine.wf(),
        machine.context.current_state_key == ProgramState::Starting,
    ensures
        machine.spec_react(ProgramEvent::Restart, now, journal) matches Ok((first, once)) && first
            == Ok::<Option<Seq<char>>, Seq<char>>(None) && once.context.current_state_key
            == ProgramState::Stopping && once.app_context.should_restart
            && once.app_context.num_restarts == 0 && once.spec_react(
            ProgramEvent::Restart,
            later,
            later_journal,
        ) == Ok::<(MachineResultView, Machine), Request>(
            (Ok(Some("Will restart after stopping"@)), once),
        ),
{
    lemma_first_enter_asks_nothing(machine, now, journal, 0);
    lemma_event(machine, ProgramEvent::Restart, now, journal);
    reveal(Machine::spec_react_state);
    reveal(Machine::spec_exit_state);
    reveal(Machine::spec_enter_state);
    let once = machine.spec_react(ProgramEvent::Restart, now, journal).unwrap().1;
    lemma_first_enter_asks_nothing(once, later, later_journal, 0);
}

/// The machine after the ticks, one after the other.
pub open spec fn after_ticks(machine: Machine, ticks: Seq<(u64, Seq<Reply>)>) -> Machine
    decreases ticks.len(),
{
    if ticks.len() == 0 {
        machine
    } else {
        after_ticks(after_tick(machine, ticks[0]), ticks.skip(1))
    }
}

/// A tick that does not lead into `Running` uses up exactly one attempt if
/// it enters `Backoff`, and none otherwise.
pub proof fn lemma_tick_counts_attempts(machine: Machine, tick: (u64, Seq<Reply>))
    requires
        machine.wf(),
        !(machine.first_update && machine.context.current_state_key == ProgramState::Backoff),
    ensures
        after_tick(machine, tick).wf(),
        !(after_tick(machine, tick).first_update && after_tick(
            machine,
            tick,
        ).context.current_state_key == ProgramState::Backoff),
        ({
            let next = after_tick(machine, tick);
            let from = machine.context.current_state_key;
            let to = next.context.current_state_key;
            (to != ProgramState::Running || from == ProgramState::Running) ==> attempts_left(next)
                + (if to == ProgramState::Backoff && from != ProgramState::Backoff {
                1nat
            } else {
                0nat
            }) == attempts_left(machine)
        }),
{
    lemma_tick(machine, tick.0, tick.1);
    lemma_first_enter_asks_nothing(machine, tick.0, tick.1, 0);
    reveal(Machine::spec_enter_state);
}

/// However the operating system answers: as long as no client steps in and
/// the program does not get to run, every entry into `Backoff` uses up one
/// attempt, and nothing else does. So a program that is started without
/// being asked, is to be started again and never gets to run has entered
/// `Backoff` exactly `num_restart_attempts` times when the supervisor has
/// given up: the states it has been in are `Starting`, then `Backoff` and
/// `Starting` once for each attempt, and then `Exiting` or `Exited`
/// (see [`tick_made`] for the order).
pub proof fn law_attempts_are_used_up(machine: Machine, ticks: Seq<(u64, Seq<Reply>)>)
    requires
        machine.wf(),
        !(machine.first_update && machine.context.current_state_key == ProgramState::Backoff),
        !reaches_running(machine, ticks),
    ensures
        backoffs_entered(machine, ticks) + attempts_left(after_ticks(machine, ticks))
            == attempts_left(machine),
        after_ticks(machine, ticks).wf(),
        ({
            let last = after_ticks(machine, ticks).context.current_state_key;
            let app = machine.app_context;
            machine.context.current_state_key == ProgramState::Starting && app.num_restarts == 0
                && app.config.program.autorestart && !after_ticks(
                machine,
                ticks,
            ).app_context.should_restart && (last == ProgramState::Exited || last
                == ProgramState::Exiting) ==> backoffs_entered(machine, ticks)
                == app.config.program.num_restart_attempts
        }),
    decreases ticks.len(),
{
    if ticks.len() > 0 {
        lemma_tick_counts_attempts(machine, ticks[0]);
        law_attempts_are_used_up(after_tick(machine, ticks[0]), ticks.skip(1));
    }
}

/// Whether the machine enters the state `key` during the ticks.
pub open spec fn reaches(machine: Machine, ticks: Seq<(u64, Seq<Reply>)>, key: ProgramState) -> bool
    decreases ticks.len(),
{
    if ticks.len() == 0 {
        false
    } else {
        let next = after_tick(machine, ticks[0]);
        (next.context.current_state_key == key && machine.context.current_state_key != key)
            || reaches(next, ticks.skip(1), key)
    }
}

/// Entering `Running` is entering the state `Running`.
pub proof fn lemma_reaches_running(machine: Machine, ticks: Seq<(u64, Seq<Reply>)>)
    ensures
        reaches_running(machine, ticks) == reaches(machine, ticks, ProgramState::Running),
    decreases ticks.len(),
{
    if ticks.len() > 0 {
        lemma_reaches_running(after_tick(machine, ticks[0]), ticks.skip(1));
    }
}

/// The states that the machine enters during the ticks, in order: each
/// state that a tick leads to from another one.
pub open spec fn states_entered(machine: Machine, ticks: Seq<(u64, Seq<Reply>)>) -> Seq<
    ProgramState,
>
    decreases ticks.len(),
{
    if ticks.len() == 0 {
        Seq::empty()
    } else {
        let next = after_tick(machine, ticks[0]);
        let rest = states_entered(next, ticks.skip(1));
        if next.context.current_state_key != machine.context.current_state_key {
            seq![next.context.current_state_key].add(rest)
        } else {
            rest
        }
    }
}

/// The states that lie ahead of a program whose every start fails with
/// nothing left running, when it has been started again `count` times of
/// `attempts`: from `Starting` it goes to `Backoff` and back while
/// attempts are left, and then to `Exited`.
pub open spec fn failing_run(in_backoff: bool, count: nat, attempts: nat) -> Seq<ProgramState>
    decreases 2 * (attempts - count) + (if in_backoff { 2int } else { 1int }),
{
    if count > attempts {
        Seq::empty()
    } else if in_backoff {
        seq![ProgramState::Starting].add(failing_run(false, count, attempts))
    } else if count < attempts {
        seq![ProgramState::Backoff].add(failing_run(true, count + 1, attempts))
    } else {
        seq![ProgramState::Exited]
    }
}

/// Ticks lead nowhere from `Exited`.
pub proof fn lemma_exited_stays(machine: Machine, ticks: Seq<(u64, Seq<Reply>)>)
    requires
        machine.wf(),
        machine.context.current_state_key == ProgramState::Exited,
    ensures
        states_entered(machine, ticks) == Seq::<ProgramState>::empty(),
        after_ticks(machine, ticks).context.current_state_key == ProgramState::Exited,
    decreases ticks.len(),
{
    if ticks.len() > 0 {
        lemma_tick(machine, ticks[0].0, ticks[0].1);
        lemma_exited_stays(after_tick(machine, ticks[0]), ticks.skip(1));
    }
}

/// A program that is to be started again, and whose every start fails
/// with nothing left running, is given up after its attempts. Seen from
/// `Starting` with no attempt used, the states that it enters are
/// `Backoff` and `Starting`, once for each of the `num_restart_attempts`,
/// and then `Exited`, where it stays. It never is in `Running`.
///
/// Stated for every run of ticks without an event that ends in `Exited`
/// and enters neither `Running` nor `Exiting` on the way, from `Starting`
/// or from `Backoff`, with any number of attempts used.
pub proof fn law_failing_program_is_given_up(machine: Machine, ticks: Seq<(u64, Seq<Reply>)>)
    requires
        machine.wf(),
        machine.context.current_state_key == ProgramState::Starting || (
        machine.context.current_state_key == ProgramState::Backoff && !machine.first_update),
        machine.app_context.config.program.autorestart,
        !reaches(machine, ticks, ProgramState::Running),
        !reaches(machine, ticks, ProgramState::Exiting),
        after_ticks(machine, ticks).context.current_state_key == ProgramState::Exited,
    ensures
        states_entered(machine, ticks) == failing_run(
            machine.context.current_state_key == ProgramState::Backoff,
            machine.app_context.num_restarts as nat,
            machine.app_context.config.program.num_restart_attempts as nat,
        ),
    decreases ticks.len(),
{
    if ticks.len() > 0 {
        let next = after_tick(machine, ticks[0]);
        let rest = ticks.skip(1);
        lemma_tick(machine, ticks[0].0, ticks[0].1);
        lemma_first_enter_asks_nothing(machine, ticks[0].0, ticks[0].1, 0);
        reveal(Machine::spec_enter_state);
        let ready = first_entered(machine, ticks[0].0);
        assert(ready.app_context.num_restarts == machine.app_context.num_restarts);
        assert(ready.app_context.config == machine.app_context.config);
        assert(next.app_context.fixed().config == next.app_context.config);
        assert(machine.app_context.fixed().config == machine.app_context.config);
        let from = machine.context.current_state_key;
        let to = next.context.current_state_key;
        let count = machine.app_context.num_restarts as nat;
        let attempts = machine.app_context.config.program.num_restart_attempts as nat;
        if to == ProgramState::Exited {
            lemma_exited_stays(next, rest);
            assert(from == ProgramState::Starting);
            assert(count == attempts);
            assert(seq![ProgramState::Exited].add(Seq::empty()) =~= seq![ProgramState::Exited]);
            assert(failing_run(false, count, attempts) == seq![ProgramState::Exited]);
        } else {
            law_failing_program_is_given_up(next, rest);
            if to != from {
                if to == ProgramState::Backoff {
                    assert(from == ProgramState::Starting);
                    assert(count < attempts);
                    assert(next.app_context.num_restarts == count + 1);
                    assert(failing_run(false, count, attempts) == seq![ProgramState::Backoff].add(
                        failing_run(true, count + 1, attempts),
                    ));
                } else {
                    assert(to == ProgramState::Starting);
                    assert(from == ProgramState::Backoff);
                    assert(next.app_context.num_restarts == count);
                    assert(failing_run(true, count, attempts) == seq![ProgramState::Starting].add(
                        failing_run(false, count, attempts),
                    ));
                }
            }
        }
    }
}

/// No probe of the journal finds a child running: whatever was started
/// has exited by the time it is looked at.
pub open spec fn none_runs(journal: Seq<Reply>) -> bool {
    forall|k: int| 0 <= k < journal.len() ==> journal[k] != Reply::Running
}

/// Where no probe finds a child running, every child is found stopped and
/// the program is not found running.
pub proof fn lemma_none_runs(program_ctx: ProgramContext, journal: Seq<Reply>, at: nat)
    requires
        none_runs(journal),
    ensures
        program_ctx.spec_all_programs_are_stopped(journal, at) matches Ok((stopped, _)) ==> stopped,
        program_ctx.spec_all_programs_are_running(journal, at) matches Ok((running, _))
            ==> !running,
        forall|program: Program, at: nat| !found_running(program, journal, at),
{
    reveal(ProgramContext::spec_any_program_is_running);
    reveal(ProgramContext::spec_all_programs_are_running);
}

/// Where no probe finds a child running, the last part of the tick of
/// `Starting` leads neither to `Running` nor to `Exiting`.
pub proof fn lemma_brought_up_while_none_runs(
    scene: Scene<Starting>,
    now: u64,
    journal: Seq<Reply>,
    at: nat,
)
    requires
        none_runs(journal),
        scene.context.current_state_key == ProgramState::Starting,
    ensures
        Starting::spec_bring_up(scene, now, journal, at) matches Ok((after, _)) ==> (
        after.context.current_state_key != ProgramState::Running
            && after.context.current_state_key != ProgramState::Exiting
            && after.context.current_state_key != ProgramState::Stopping),
{
    lemma_brought_up_means_running(scene, now, journal, at);
    reveal(Starting::spec_bring_up);
    if let Ok((_, app, next)) = spec_launch(scene.app, now, journal, at) {
        lemma_none_runs(app, journal, next);
        if let Ok((_, last)) = spec_await_started(app, now, journal, next) {
            lemma_none_runs(app, journal, last);
        }
    }
}

/// Where no probe finds a child running, the tick of `Starting` leads
/// neither to `Running` nor to `Exiting`.
pub proof fn lemma_started_while_none_runs(
    scene: Scene<Starting>,
    now: u64,
    journal: Seq<Reply>,
    at: nat,
)
    requires
        none_runs(journal),
        scene.context.current_state_key == ProgramState::Starting,
    ensures
        Starting::spec_update(scene, now, journal, at) matches Ok((after, _)) ==> (
        after.context.current_state_key != ProgramState::Running
            && after.context.current_state_key != ProgramState::Exiting
            && after.context.current_state_key != ProgramState::Stopping),
{
    if let Ok((_, logger_pre_command, next)) = spec_run_pre_command(
        scene.app.logger_pre_command,
        now,
        journal,
        at,
    ) {
        let app = ProgramContext { logger_pre_command, ..scene.app };
        lemma_none_runs(app, journal, next);
        reveal(Starting::spec_prepare);
        if let Ok((_, pre_command, last)) = spec_run_pre_command(
            app.pre_command,
            now,
            journal,
            next,
        ) {
            let prepared = ProgramContext { pre_command, ..app };
            lemma_none_runs(prepared, journal, last);
            lemma_brought_up_while_none_runs(
                Scene { app: prepared, ..scene },
                now,
                journal,
                last,
            );
        }
    }
}

/// A program whose children are all gone whenever they are looked at is
/// never found in `Running`, `Stopping` or `Exiting` at the end of a tick:
/// it has started nothing that lasts, and there is nothing to wait for.
pub proof fn law_nothing_lasts(machine: Machine, now: u64, journal: Seq<Reply>)
    requires
        machine.wf(),
        none_runs(journal),
    ensures
        machine.spec_update(now, journal) matches Ok(after) ==> (
        after.context.current_state_key != ProgramState::Running
            && after.context.current_state_key != ProgramState::Stopping
            && after.context.current_state_key != ProgramState::Exiting),
{
    lemma_first_enter_asks_nothing(machine, now, journal, 0);
    let ready = first_entered(machine, now);
    reveal(Machine::spec_update_state);
    reveal(Machine::spec_exit_state);
    reveal(Machine::spec_enter_state);
    reveal(spec_wind_down);
    lemma_none_runs(ready.app_context, journal, 0);
    match ready.context.current_state_key {
        ProgramState::Starting => {
            lemma_started_while_none_runs(ready.scene::<Starting>(), now, journal, 0);
        },
        ProgramState::Running => {
            if let Ok((_, next)) = ready.app_context.spec_all_programs_are_running(journal, 0) {
                lemma_none_runs(ready.app_context, journal, next);
            }
        },
        _ => {},
    }
}

/// A run of ticks in which no probe finds a child running.
pub open spec fn nothing_lasts(ticks: Seq<(u64, Seq<Reply>)>) -> bool {
    forall|k: int| 0 <= k < ticks.len() ==> none_runs(#[trigger] ticks[k].1)
}

/// A program whose children are all gone whenever they are looked at
/// enters neither `Running` nor `Exiting` nor `Stopping`, however many
/// ticks are made.
pub proof fn law_nothing_lasts_in_a_run(machine: Machine, ticks: Seq<(u64, Seq<Reply>)>)
    requires
        machine.wf(),
        nothing_lasts(ticks),
    ensures
        !reaches(machine, ticks, ProgramState::Running),
        !reaches(machine, ticks, ProgramState::Exiting),
        !reaches(machine, ticks, ProgramState::Stopping),
    decreases ticks.len(),
{
    if ticks.len() > 0 {
        let next = after_tick(machine, ticks[0]);
        let rest = ticks.skip(1);
        assert(none_runs(ticks[0].1));
        law_nothing_lasts(machine, ticks[0].0, ticks[0].1);
        lemma_tick(machine, ticks[0].0, ticks[0].1);
        assert(nothing_lasts(rest)) by {
            assert forall|k: int| 0 <= k < rest.len() implies none_runs(#[trigger] rest[k].1) by {
                assert(rest[k] == ticks[k + 1]);
            }
        }
        law_nothing_lasts_in_a_run(next, rest);
    }
}

/// Whether a helper is configured and has not been launched.
pub open spec fn to_be_launched(helper: Option<PrecommandContext>) -> bool {
    helper matches Some(context) && context.start_time is None
}

/// The most ticks that a start may still take where nothing lasts: one for
/// each pre-command that is still to be launched, and one for the rest.
pub open spec fn launches_left(program_ctx: ProgramContext) -> nat {
    let first: nat = if to_be_launched(program_ctx.logger_pre_command) {
        1
    } else {
        0
    };
    let second: nat = if to_be_launched(program_ctx.pre_command) {
        1
    } else {
        0
    };
    first + second + 1
}

/// The most ticks, apart from those that wait for the backoff delay, that
/// a program whose children never last can still make before it is given
/// up: at most four for each attempt that is left, and those of the start
/// that is under way.
pub open spec fn ticks_left(machine: Machine) -> nat {
    let attempts: nat = if restart_allowed(machine.app_context) {
        (machine.app_context.config.program.num_restart_attempts
            - machine.app_context.num_restarts) as nat
    } else {
        0
    };
    match machine.context.current_state_key {
        ProgramState::Starting => 4 * attempts + launches_left(machine.app_context),
        ProgramState::Backoff => 4 * attempts + 4,
        _ => 0,
    }
}

/// Whether a tick at clock reading `now` finds the machine in `Backoff`
/// with the backoff delay still to wait for.
pub open spec fn waits(machine: Machine, now: u64) -> bool {
    machine.context.current_state_key == ProgramState::Backoff
        && !machine.states.backoff.delay_over(machine.app_context, now)
}

/// Where no probe finds a child running, a tick of `Starting` that stays
/// in `Starting` has launched a pre-command.
pub proof fn lemma_start_goes_on(scene: Scene<Starting>, now: u64, journal: Seq<Reply>, at: nat)
    requires
        none_runs(journal),
        scene.context.current_state_key == ProgramState::Starting,
    ensures
        Starting::spec_update(scene, now, journal, at) matches Ok((after, _)) ==> (
        after.context.current_state_key == ProgramState::Starting ==> launches_left(after.app)
            < launches_left(scene.app)),
{
    if let Ok((_, logger_pre_command, next)) = spec_run_pre_command(
        scene.app.logger_pre_command,
        now,
        journal,
        at,
    ) {
        let app = ProgramContext { logger_pre_command, ..scene.app };
        lemma_none_runs(app, journal, next);
        reveal(Starting::spec_prepare);
        if let Ok((_, pre_command, last)) = spec_run_pre_command(
            app.pre_command,
            now,
            journal,
            next,
        ) {
            let prepared = ProgramContext { pre_command, ..app };
            lemma_none_runs(prepared, journal, last);
            reveal(Starting::spec_bring_up);
            reveal(spec_await_started);
            if let Ok((_, launched, probe)) = spec_launch(prepared, now, journal, last) {
                lemma_none_runs(launched, journal, probe);
            }
        }
    }
}

/// Every complete tick of a program whose children never last brings the
/// end nearer, unless it waits for the backoff delay: it leads to
/// `Exited`, or leaves fewer ticks to make.
pub proof fn lemma_tick_brings_the_end_nearer(machine: Machine, tick: (u64, Seq<Reply>))
    requires
        machine.wf(),
        machine.context.current_state_key == ProgramState::Starting || (
        machine.context.current_state_key == ProgramState::Backoff && !machine.first_update),
        none_runs(tick.1),
        machine.spec_update(tick.0, tick.1) is Ok,
    ensures
        ({
            let after = after_tick(machine, tick);
            &&& after.wf()
            &&& !after.first_update
            &&& after.context.current_state_key == ProgramState::Exited
                || after.context.current_state_key == ProgramState::Starting
                || after.context.current_state_key == ProgramState::Backoff
            &&& after.context.current_state_key != ProgramState::Exited ==> if waits(
                machine,
                tick.0,
            ) {
                ticks_left(after) == ticks_left(machine)
            } else {
                ticks_left(after) < ticks_left(machine)
            }
        }),
{
    let (now, journal) = tick;
    let after = after_tick(machine, tick);
    lemma_tick(machine, now, journal);
    law_nothing_lasts(machine, now, journal);
    lemma_first_enter_asks_nothing(machine, now, journal, 0);
    let ready = first_entered(machine, now);
    reveal(Machine::spec_update_state);
    reveal(Machine::spec_exit_state);
    reveal(Machine::spec_enter_state);
    reveal(spec_wind_down);
    lemma_none_runs(ready.app_context, journal, 0);
    assert(ready.app_context.fixed().config == ready.app_context.config);
    assert(after.app_context.fixed().config == after.app_context.config);
    assert(machine.app_context.fixed().config == machine.app_context.config);
    if machine.context.current_state_key == ProgramState::Starting {
        lemma_started_while_none_runs(ready.scene::<Starting>(), now, journal, 0);
        lemma_start_goes_on(ready.scene::<Starting>(), now, journal, 0);
    }
}

/// Every tick of the run is complete: its journal holds the outcome of
/// every operation that it asks for.
pub open spec fn run_is_complete(machine: Machine, ticks: Seq<(u64, Seq<Reply>)>) -> bool
    decreases ticks.len(),
{
    ticks.len() == 0 || (machine.spec_update(ticks[0].0, ticks[0].1) is Ok && run_is_complete(
        after_tick(machine, ticks[0]),
        ticks.skip(1),
    ))
}

/// How many ticks of the run find the machine in `Backoff` with the
/// backoff delay still to wait for.
pub open spec fn waiting_ticks(machine: Machine, ticks: Seq<(u64, Seq<Reply>)>) -> nat
    decreases ticks.len(),
{
    if ticks.len() == 0 {
        0
    } else {
        let rest = waiting_ticks(after_tick(machine, ticks[0]), ticks.skip(1));
        if waits(machine, ticks[0].0) {
            rest + 1
        } else {
            rest
        }
    }
}

/// A program whose children never last is given up in the end: once
/// [`ticks_left`] complete ticks have been made, not counting those that
/// wait for the backoff delay, the machine is in `Exited`.
pub proof fn law_program_that_never_lasts_ends_exited(
    machine: Machine,
    ticks: Seq<(u64, Seq<Reply>)>,
)
    requires
        machine.wf(),
        machine.context.current_state_key == ProgramState::Starting
            || machine.context.current_state_key == ProgramState::Exited || (
        machine.context.current_state_key == ProgramState::Backoff && !machine.first_update),
        nothing_lasts(ticks),
        run_is_complete(machine, ticks),
        ticks.len() >= ticks_left(machine) + waiting_ticks(machine, ticks),
    ensures
        after_ticks(machine, ticks).context.current_state_key == ProgramState::Exited,
    decreases ticks.len(),
{
    if machine.context.current_state_key == ProgramState::Exited {
        lemma_exited_stays(machine, ticks);
    } else if ticks.len() > 0 {
        let next = after_tick(machine, ticks[0]);
        let rest = ticks.skip(1);
        assert(none_runs(ticks[0].1));
        lemma_tick_brings_the_end_nearer(machine, ticks[0]);
        assert(nothing_lasts(rest)) by {
            assert forall|k: int| 0 <= k < rest.len() implies none_runs(#[trigger] rest[k].1) by {
                assert(rest[k] == ticks[k + 1]);
            }
        }
        law_program_that_never_lasts_ends_exited(next, rest);
    }
}

/// A program that is to be started again, and whose children are all gone
/// whenever they are looked at, is given up after its attempts. Seen from
/// `Starting` with no attempt used, the states that it enters are
/// `Backoff` and `Starting`, once for each of the `num_restart_attempts`,
/// and then `Exited`, where it stays. It never is in `Running`.
///
/// Stated for every run of complete ticks without an event that is long
/// enough, from `Starting` or from `Backoff`, with any number of attempts
/// used.
pub proof fn law_program_that_never_lasts_is_given_up(
    machine: Machine,
    ticks: Seq<(u64, Seq<Reply>)>,
)
    requires
        machine.wf(),
        machine.context.current_state_key == ProgramState::Starting || (
        machine.context.current_state_key == ProgramState::Backoff && !machine.first_update),
        machine.app_context.config.program.autorestart,
        nothing_lasts(ticks),
        run_is_complete(machine, ticks),
        ticks.len() >= ticks_left(machine) + waiting_ticks(machine, ticks),
    ensures
        after_ticks(machine, ticks).context.current_state_key == ProgramState::Exited,
        after_ticks(machine, ticks).app_context.num_restarts == 0,
        after_ticks(machine, ticks).app_context.at_rest(),
        !reaches(machine, ticks, ProgramState::Running),
        states_entered(machine, ticks) == failing_run(
            machine.context.current_state_key == ProgramState::Backoff,
            machine.app_context.num_restarts as nat,
            machine.app_context.config.program.num_restart_attempts as nat,
        ),
        machine.context.current_state_key == ProgramState::Starting
            && machine.app_context.num_restarts == 0 ==> backoffs_entered(machine, ticks)
            == machine.app_context.config.program.num_restart_attempts,
{
    law_program_that_never_lasts_ends_exited(machine, ticks);
    law_nothing_lasts_in_a_run(machine, ticks);
    law_failing_program_is_given_up(machine, ticks);
    lemma_reaches_running(machine, ticks);
    law_attempts_are_used_up(machine, ticks);
    law_quiescent_holds_nothing(after_ticks(machine, ticks));
}

} // verus!
