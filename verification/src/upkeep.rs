//! What the callbacks of the states do to a machine, stated state by state,
//! and that they keep what holds of a machine between its callbacks.

use crate::fsm::{Machine, Scene, State};
use crate::os::Reply;
use crate::program_context::{ProgramContext, SubprogramStatus};
use crate::program_fsm::{
    restart_allowed, spec_await_started, spec_enter_teardown, spec_launch, spec_run_pre_command,
    spec_wind_down, Backoff, ProgramEvent, ProgramState, Starting, States,
};
use vstd::prelude::*;

verus! {

/// What the entry hook of state `key` has made of `before`.
pub open spec fn entered(before: Machine, key: ProgramState, now: u64, after: Machine) -> bool {
    &&& after.context == before.context
    &&& after.first_update == before.first_update
    &&& after.app_context.fixed() == before.app_context.fixed()
    &&& after.app_context.should_restart == before.app_context.should_restart
    &&& match key {
        ProgramState::Stopped | ProgramState::Exited => {
            &&& after.states == before.states
            &&& after.app_context.num_restarts == 0
            &&& after.app_context.at_rest()
        },
        ProgramState::Backoff => {
            &&& after.states == (States {
                backoff: Backoff { skip_backoff_delay: false, enter_time: Some(now) },
                ..before.states
            })
            &&& after.app_context == (ProgramContext {
                sigterm_time: None,
                num_restarts: (before.app_context.num_restarts + 1) as u32,
                ..before.app_context
            })
        },
        ProgramState::Starting => after == before,
        ProgramState::Running => after == (Machine {
            app_context: ProgramContext { num_restarts: 0, ..before.app_context },
            ..before
        }),
        ProgramState::Stopping | ProgramState::Exiting => after == (Machine {
            app_context: spec_enter_teardown(before.app_context),
            ..before
        }),
    }
}

/// What the exit hook of state `key` has made of `before`.
pub open spec fn left(before: Machine, key: ProgramState, after: Machine) -> bool {
    &&& after.context == before.context
    &&& after.first_update == before.first_update
    &&& after.states == before.states
    &&& after.app_context.fixed() == before.app_context.fixed()
    &&& after.app_context.num_restarts == before.app_context.num_restarts
    &&& match key {
        ProgramState::Backoff => {
            &&& after.app_context.should_restart == before.app_context.should_restart
            &&& after.app_context.nothing_launched()
        },
        ProgramState::Stopping | ProgramState::Exiting => {
            &&& !after.app_context.should_restart
            &&& after.app_context.nothing_launched()
        },
        _ => after == before,
    }
}

/// Where a tick in state `from` can lead and on what condition: the
/// transitions of the machine that a tick makes.
pub open spec fn tick_leads(from: ProgramState, to: ProgramState, after: ProgramContext) -> bool {
    match to {
        ProgramState::Stopped => from == ProgramState::Stopping && !after.should_restart,
        ProgramState::Exited => (from == ProgramState::Exiting && !after.should_restart) || ((from
            == ProgramState::Starting || from == ProgramState::Running) && !restart_allowed(after)),
        ProgramState::Backoff => (from == ProgramState::Starting || from == ProgramState::Running)
            && restart_allowed(after),
        ProgramState::Starting => from == ProgramState::Backoff || ((from == ProgramState::Stopping
            || from == ProgramState::Exiting) && after.should_restart),
        ProgramState::Running => from == ProgramState::Starting && after.program.program.has_child
            && (after.logger matches Some(logger) ==> logger.program.has_child),
        ProgramState::Stopping => false,
        ProgramState::Exiting => (from == ProgramState::Starting || from == ProgramState::Running)
            && !restart_allowed(after),
    }
}

/// What the tick of the current state has made of `before`.
pub open spec fn ticked(before: Machine, after: Machine) -> bool {
    let from = before.context.current_state_key;
    let to = after.context.current_state_key;
    &&& after.first_update == before.first_update
    &&& after.states == before.states
    &&& after.app_context.fixed() == before.app_context.fixed()
    &&& after.app_context.num_restarts == before.app_context.num_restarts
    &&& after.app_context.should_restart == before.app_context.should_restart
    &&& to != from ==> tick_leads(from, to, after.app_context)
    &&& (to == from && (from == ProgramState::Stopped || from == ProgramState::Exited
        || from == ProgramState::Running)) ==> after == before
}

pub proof fn lemma_enter_state(
    machine: Machine,
    key: ProgramState,
    now: u64,
    journal: Seq<Reply>,
    at: nat,
)
    ensures
        machine.spec_enter_state(key, now, journal, at) matches Ok((after, _)) ==> entered(
            machine,
            key,
            now,
            after,
        ),
{
    reveal(Machine::spec_enter_state);
}

pub proof fn lemma_exit_state(machine: Machine, key: ProgramState, journal: Seq<Reply>, at: nat)
    ensures
        machine.spec_exit_state(key, journal, at) matches Ok((after, _)) ==> left(
            machine,
            key,
            after,
        ),
{
    reveal(Machine::spec_exit_state);
}

/// What one step of winding down leaves of a program: at most the time of
/// SIGTERM is new.
pub proof fn lemma_wind_down(program_ctx: ProgramContext, now: u64, journal: Seq<Reply>, at: nat)
    ensures
        spec_wind_down(program_ctx, now, journal, at) matches Ok((_, after, _)) ==> {
            ||| after == program_ctx
            ||| after == (ProgramContext { sigterm_time: Some(now), ..program_ctx })
        },
{
    reveal(spec_wind_down);
}

/// What a launch leaves of a program: only the program and the logger can
/// have changed, and by no more than being launched.
pub proof fn lemma_launch(program_ctx: ProgramContext, now: u64, journal: Seq<Reply>, at: nat)
    ensures
        spec_launch(program_ctx, now, journal, at) matches Ok((_, after, _)) ==> {
            &&& after == (ProgramContext {
                program: after.program,
                logger: after.logger,
                ..program_ctx
            })
            &&& after.fixed() == program_ctx.fixed()
        },
{
    reveal(spec_launch);
}

/// A program counts as started only if the program and the logger have a
/// process.
pub proof fn lemma_await_started(program_ctx: ProgramContext, now: u64, journal: Seq<Reply>, at: nat)
    ensures
        spec_await_started(program_ctx, now, journal, at) matches Ok(
            (SubprogramStatus::SUCCESS, _),
        ) ==> {
            &&& program_ctx.program.program.has_child
            &&& program_ctx.logger matches Some(logger) ==> logger.program.has_child
        },
{
    reveal(spec_await_started);
}

/// What a tick in `Starting`, or a part of it, has made of `before`.
pub open spec fn starting_ticked(before: Scene<Starting>, after: Scene<Starting>) -> bool {
    &&& after.state == before.state
    &&& after.app.fixed() == before.app.fixed()
    &&& after.app.num_restarts == before.app.num_restarts
    &&& after.app.should_restart == before.app.should_restart
    &&& after.context != before.context ==> tick_leads(
        ProgramState::Starting,
        after.context.current_state_key,
        after.app,
    )
}

pub proof fn lemma_starting_bring_up(scene: Scene<Starting>, now: u64, journal: Seq<Reply>, at: nat)
    ensures
        Starting::spec_bring_up(scene, now, journal, at) matches Ok((after, _))
            ==> starting_ticked(scene, after),
{
    reveal(Starting::spec_bring_up);
    lemma_launch(scene.app, now, journal, at);
    if let Ok((true, app, next)) = spec_launch(scene.app, now, journal, at) {
        lemma_await_started(app, now, journal, next);
    }
}

pub proof fn lemma_starting_prepare(scene: Scene<Starting>, now: u64, journal: Seq<Reply>, at: nat)
    ensures
        Starting::spec_prepare(scene, now, journal, at) matches Ok((after, _)) ==> starting_ticked(
            scene,
            after,
        ),
{
    reveal(Starting::spec_prepare);
    if let Ok((status, pre_command, next)) = spec_run_pre_command(
        scene.app.pre_command,
        now,
        journal,
        at,
    ) {
        let app = ProgramContext { pre_command, ..scene.app };
        assert(app.fixed() == scene.app.fixed());
        lemma_starting_bring_up(Scene { app, ..scene }, now, journal, next);
    }
}

pub proof fn lemma_starting_update(scene: Scene<Starting>, now: u64, journal: Seq<Reply>, at: nat)
    ensures
        Starting::spec_update(scene, now, journal, at) matches Ok((after, _)) ==> starting_ticked(
            scene,
            after,
        ),
{
    if let Ok((status, logger_pre_command, next)) = spec_run_pre_command(
        scene.app.logger_pre_command,
        now,
        journal,
        at,
    ) {
        let app = ProgramContext { logger_pre_command, ..scene.app };
        assert(app.fixed() == scene.app.fixed());
        lemma_starting_prepare(Scene { app, ..scene }, now, journal, next);
    }
}

pub proof fn lemma_update_state(machine: Machine, now: u64, journal: Seq<Reply>, at: nat)
    ensures
        machine.spec_update_state(now, journal, at) matches Ok((after, _)) ==> ticked(
            machine,
            after,
        ),
{
    reveal(Machine::spec_update_state);
    match machine.context.current_state_key {
        ProgramState::Starting => {
            lemma_starting_update(machine.scene::<Starting>(), now, journal, at);
        },
        ProgramState::Backoff | ProgramState::Stopping | ProgramState::Exiting => {
            lemma_wind_down(machine.app_context, now, journal, at);
        },
        _ => {},
    }
}

/// What never changes about a program decides whether its children are
/// those that its configuration describes.
pub proof fn lemma_describes(a: ProgramContext, b: ProgramContext)
    requires
        a.fixed() == b.fixed(),
        a.describes_config(),
    ensures
        b.describes_config(),
{
}

pub proof fn lemma_first_enter(machine: Machine, now: u64, journal: Seq<Reply>, at: nat)
    requires
        machine.wf(),
    ensures
        machine.first_update ==> machine.enter_ready(machine.context.current_state_key),
        machine.spec_maybe_enter_on_first_update(now, journal, at) matches Ok((after, _)) ==> {
            &&& after.wf()
            &&& !after.first_update
            &&& after.update_ready()
            &&& after.context == machine.context
            &&& after.app_context.fixed() == machine.app_context.fixed()
            &&& after.app_context.should_restart == machine.app_context.should_restart
        },
{
    if machine.first_update {
        let cleared = Machine { first_update: false, ..machine };
        lemma_enter_state(cleared, machine.context.current_state_key, now, journal, at);
    }
}

/// A tick keeps what holds of a machine between its callbacks.
pub proof fn lemma_update_keeps_wf(machine: Machine, now: u64, journal: Seq<Reply>, at: nat)
    requires
        machine.wf(),
    ensures
        machine.spec_update_at(now, journal, at) matches Ok((after, _)) ==> after.wf()
            && !after.first_update,
{
    lemma_first_enter(machine, now, journal, at);
    if let Ok((entered, at1)) = machine.spec_maybe_enter_on_first_update(now, journal, at) {
        lemma_update_state(entered, now, journal, at1);
        if let Ok((updated, at2)) = entered.spec_update_state(now, journal, at1) {
            let from = entered.context.current_state_key;
            let to = updated.context.current_state_key;
            if to != from {
                lemma_exit_state(updated, from, journal, at2);
                if let Ok((gone, at3)) = updated.spec_exit_state(from, journal, at2) {
                    lemma_enter_state(gone, to, now, journal, at3);
                }
            }
        }
    }
}

/// Where an event in state `from` leads: the transitions of the machine
/// that an event makes. Only in `Backoff` does it depend on the children,
/// which must have stopped before the program is started again.
pub open spec fn event_leads(from: ProgramState, event: ProgramEvent, to: ProgramState) -> bool {
    match (from, event) {
        (ProgramState::Stopped | ProgramState::Exited, ProgramEvent::Stop) => to == from,
        (ProgramState::Stopped | ProgramState::Exited, _) => to == ProgramState::Starting,
        (ProgramState::Backoff, ProgramEvent::Stop) => to == ProgramState::Stopping,
        (ProgramState::Backoff, _) => to == ProgramState::Starting || to == ProgramState::Backoff,
        (ProgramState::Starting | ProgramState::Running, ProgramEvent::Start) => to == from,
        (ProgramState::Starting | ProgramState::Running, _) => to == ProgramState::Stopping,
        (ProgramState::Stopping | ProgramState::Exiting, _) => to == from,
    }
}

/// The restart counter after an event in state `from`: an event that asks
/// for a start makes it 0 in `Backoff` and `Starting`.
pub open spec fn num_restarts_after(from: ProgramState, event: ProgramEvent, before: u32) -> u32 {
    if (from == ProgramState::Backoff || from == ProgramState::Starting) && event
        != ProgramEvent::Stop {
        0
    } else {
        before
    }
}

/// The restart intent after an event in state `from`.
pub open spec fn should_restart_after(
    from: ProgramState,
    event: ProgramEvent,
    before: bool,
) -> bool {
    match (from, event) {
        (ProgramState::Starting, ProgramEvent::Restart) => true,
        (
            ProgramState::Running | ProgramState::Stopping | ProgramState::Exiting,
            ProgramEvent::Restart,
        ) => true,
        (
            ProgramState::Running | ProgramState::Stopping | ProgramState::Exiting,
            ProgramEvent::Stop,
        ) => false,
        _ => before,
    }
}

/// What the answer of the current state to `event` has made of `before`.
pub open spec fn reacted(before: Machine, event: ProgramEvent, after: Machine) -> bool {
    let from = before.context.current_state_key;
    let to = after.context.current_state_key;
    &&& after.first_update == before.first_update
    &&& after.app_context == (ProgramContext {
        num_restarts: num_restarts_after(from, event, before.app_context.num_restarts),
        should_restart: should_restart_after(from, event, before.app_context.should_restart),
        ..before.app_context
    })
    &&& event_leads(from, event, to)
    &&& to != from ==> after.states == before.states
    &&& to == from ==> {
        ||| after.states == before.states
        ||| from == ProgramState::Backoff && after.states == (States {
            backoff: Backoff { skip_backoff_delay: true, ..before.states.backoff },
            ..before.states
        })
    }
}

pub proof fn lemma_react_state(machine: Machine, event: ProgramEvent, journal: Seq<Reply>, at: nat)
    ensures
        machine.spec_react_state(event, journal, at) matches Ok((_, after, _)) ==> reacted(
            machine,
            event,
            after,
        ),
{
    reveal(Machine::spec_react_state);
}

/// An event keeps what holds of a machine between its callbacks.
pub proof fn lemma_react_keeps_wf(
    machine: Machine,
    event: ProgramEvent,
    now: u64,
    journal: Seq<Reply>,
    at: nat,
)
    requires
        machine.wf(),
    ensures
        machine.spec_react_at(event, now, journal, at) matches Ok((_, after, _)) ==> after.wf()
            && !after.first_update,
{
    lemma_first_enter(machine, now, journal, at);
    if let Ok((entered, at1)) = machine.spec_maybe_enter_on_first_update(now, journal, at) {
        lemma_react_state(entered, event, journal, at1);
        if let Ok((_, reacted, at2)) = entered.spec_react_state(event, journal, at1) {
            let from = entered.context.current_state_key;
            let to = reacted.context.current_state_key;
            if to != from {
                lemma_exit_state(reacted, from, journal, at2);
                if let Ok((gone, at3)) = reacted.spec_exit_state(from, journal, at2) {
                    lemma_enter_state(gone, to, now, journal, at3);
                }
            }
        }
    }
}

/// An event leaves the name of the program as it is.
pub proof fn lemma_react_keeps_name(
    machine: Machine,
    event: ProgramEvent,
    now: u64,
    journal: Seq<Reply>,
    at: nat,
)
    requires
        machine.wf(),
    ensures
        machine.spec_react_at(event, now, journal, at) matches Ok((_, after, _))
            ==> after.app_context.name == machine.app_context.name,
{
    lemma_first_enter(machine, now, journal, at);
    if let Ok((entered, at1)) = machine.spec_maybe_enter_on_first_update(now, journal, at) {
        lemma_react_state(entered, event, journal, at1);
        if let Ok((_, answered, at2)) = entered.spec_react_state(event, journal, at1) {
            let from = entered.context.current_state_key;
            let to = answered.context.current_state_key;
            if to != from {
                lemma_exit_state(answered, from, journal, at2);
                if let Ok((gone, at3)) = answered.spec_exit_state(from, journal, at2) {
                    lemma_enter_state(gone, to, now, journal, at3);
                }
            }
        }
    }
}

} // verus!
