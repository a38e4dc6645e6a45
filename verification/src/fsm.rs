//! The state machine that supervises one program: a table of states, the
//! key of the current one, and the program that the states act on.
//!
//! A state has four callbacks. `update` is the periodic tick, `react`
//! answers an event from a client, and `enter` and `exit` run whenever the
//! current state changes. `enter` of the initial state runs at the start of
//! the first `update` or `react`, never before.

use crate::os::{action_agrees, Reply, Request, Step};
use crate::program_context::{ContextCheckpoint, ProgramContext};
use crate::program_fsm::{
    Backoff, Exited, Exiting, ProgramEvent, ProgramState, Running, Starting, States, Stopped,
    Stopping,
};
use crate::upkeep::{
    lemma_describes, lemma_exit_state, lemma_first_enter, lemma_react_keeps_wf, lemma_react_state,
    lemma_update_keeps_wf, lemma_update_state,
};
use vstd::prelude::*;

verus! {

/// What a state answers to an event: a message or nothing on success, and a
/// message on refusal.
pub type MachineResult = Result<Option<String>, String>;

/// The characters of a [`MachineResult`].
pub type MachineResultView = Result<Option<Seq<char>>, Seq<char>>;

pub open spec fn machine_result_view(result: MachineResult) -> MachineResultView {
    match result {
        Ok(Some(message)) => Ok(Some(message@)),
        Ok(None) => Ok(None),
        Err(message) => Err(message@),
    }
}

/// The means by which a state names the state that is to be current next.
pub trait Context {
    /// The key of the state that is current.
    spec fn spec_current_state_key(&self) -> ProgramState;

    /// Makes `state_key` the key of the current state. The hooks of the two
    /// states run later, when the callback has returned.
    fn transition(&mut self, state_key: ProgramState)
        ensures
            final(self).spec_current_state_key() == state_key,
    ;
}

#[derive(Clone, Copy, Debug, PartialEq, Eq, Structural)]
pub struct ContextImpl {
    pub current_state_key: ProgramState,
}

impl ContextImpl {
    pub fn new(init_state_key: ProgramState) -> (r: Self)
        ensures
            r.current_state_key == init_state_key,
    {
        ContextImpl { current_state_key: init_state_key }
    }
}

impl Context for ContextImpl {
    open spec fn spec_current_state_key(&self) -> ProgramState {
        self.current_state_key
    }

    fn transition(&mut self, state_key: ProgramState) {
        self.current_state_key = state_key;
    }
}

/// What a callback of a state sees and may change: the state's own data,
/// the key of the current state, and the program.
pub struct Scene<S> {
    pub state: S,
    pub context: ContextImpl,
    pub app: ProgramContext,
}

/// A callback that answered `got` and left `scene` and the journal position
/// `at` is the step `expected`.
pub open spec fn react_agrees<S>(
    expected: Step<(MachineResultView, Scene<S>, nat)>,
    got: Step<MachineResult>,
    scene: Scene<S>,
    at: usize,
) -> bool {
    match expected {
        Ok((answer, after, next)) => got matches Ok(result) && machine_result_view(result)
            == answer && scene == after && at == next,
        Err(request) => got == Err::<MachineResult, Request>(request),
    }
}

/// One state of the machine.
///
/// Each callback is stated by a spec function of the same name with the
/// prefix `spec_`, from what the callback sees to what it leaves. A
/// callback that does nothing need not state it.
pub trait State: Sized {
    /// The state's own data, taken from the table.
    spec fn slot(states: States) -> Self;

    /// The table with the state's own data replaced.
    spec fn with_slot(states: States, state: Self) -> States;

    /// What `update` needs of the state and the program.
    open spec fn update_ready(state: Self, app: ProgramContext) -> bool {
        true
    }

    /// What `enter` needs of the state and the program.
    open spec fn enter_ready(state: Self, app: ProgramContext) -> bool {
        true
    }

    open spec fn spec_update(scene: Scene<Self>, now: u64, journal: Seq<Reply>, at: nat) -> Step<
        (Scene<Self>, nat),
    > {
        Ok((scene, at))
    }

    open spec fn spec_react(
        scene: Scene<Self>,
        event: ProgramEvent,
        journal: Seq<Reply>,
        at: nat,
    ) -> Step<(MachineResultView, Scene<Self>, nat)> {
        Ok((Ok(None), scene, at))
    }

    open spec fn spec_enter(
        state: Self,
        app: ProgramContext,
        now: u64,
        journal: Seq<Reply>,
        at: nat,
    ) -> Step<((Self, ProgramContext), nat)> {
        Ok(((state, app), at))
    }

    open spec fn spec_exit(state: Self, app: ProgramContext, journal: Seq<Reply>, at: nat) -> Step<
        ((Self, ProgramContext), nat),
    > {
        Ok(((state, app), at))
    }

    /// The periodic tick, at clock reading `now`.
    fn update(
        &mut self,
        context: &mut ContextImpl,
        app_context: &mut ProgramContext,
        now: u64,
        journal: &Vec<Reply>,
        at: &mut usize,
    ) -> (r: Step<()>)
        requires
            Self::update_ready(*old(self), *old(app_context)),
        ensures
            action_agrees(
                Self::spec_update(
                    Scene { state: *old(self), context: *old(context), app: *old(app_context) },
                    now,
                    journal@,
                    *old(at) as nat,
                ),
                r,
                Scene { state: *final(self), context: *final(context), app: *final(app_context) },
                *final(at),
            ),
            final(app_context).fixed() == old(app_context).fixed(),
    ;

    /// The answer to an event from a client.
    fn react(
        &mut self,
        event: &ProgramEvent,
        context: &mut ContextImpl,
        app_context: &mut ProgramContext,
        journal: &Vec<Reply>,
        at: &mut usize,
    ) -> (r: Step<MachineResult>)
        ensures
            react_agrees(
                Self::spec_react(
                    Scene { state: *old(self), context: *old(context), app: *old(app_context) },
                    *event,
                    journal@,
                    *old(at) as nat,
                ),
                r,
                Scene { state: *final(self), context: *final(context), app: *final(app_context) },
                *final(at),
            ),
            final(app_context).fixed() == old(app_context).fixed(),
    ;

    /// Runs when the state becomes current, at clock reading `now`.
    fn enter(
        &mut self,
        app_context: &mut ProgramContext,
        now: u64,
        journal: &Vec<Reply>,
        at: &mut usize,
    ) -> (r: Step<()>)
        requires
            Self::enter_ready(*old(self), *old(app_context)),
        ensures
            action_agrees(
                Self::spec_enter(*old(self), *old(app_context), now, journal@, *old(at) as nat),
                r,
                (*final(self), *final(app_context)),
                *final(at),
            ),
            final(app_context).fixed() == old(app_context).fixed(),
    ;

    /// Runs when the state stops being current.
    fn exit(&mut self, app_context: &mut ProgramContext, journal: &Vec<Reply>, at: &mut usize) -> (r:
        Step<()>)
        ensures
            action_agrees(
                Self::spec_exit(*old(self), *old(app_context), journal@, *old(at) as nat),
                r,
                (*final(self), *final(app_context)),
                *final(at),
            ),
            final(app_context).fixed() == old(app_context).fixed(),
    ;
}

/// A program, the table of its states and the key of the current state.
#[derive(Debug)]
pub struct Machine {
    pub app_context: ProgramContext,
    pub states: States,
    pub context: ContextImpl,
    /// Whether no callback has run yet, so that `enter` of the initial state
    /// is still due.
    pub first_update: bool,
}

/// Everything that changes about a machine; see [`Machine::checkpoint`].
#[derive(Clone, Copy, Debug, PartialEq, Eq, Structural)]
pub struct MachineCheckpoint {
    pub app_context: ContextCheckpoint,
    pub states: States,
    pub context: ContextImpl,
    pub first_update: bool,
}

/// The step `expected` of a machine, where the callback made the step `got`
/// of the scene of one state.
pub open spec fn lifted<S: State>(machine: Machine, got: Step<(Scene<S>, nat)>) -> Step<
    (Machine, nat),
> {
    match got {
        Err(request) => Err(request),
        Ok((scene, next)) => Ok(
            (
                Machine {
                    app_context: scene.app,
                    states: S::with_slot(machine.states, scene.state),
                    context: scene.context,
                    ..machine
                },
                next,
            ),
        ),
    }
}

impl Machine {
    pub fn new(app_context: ProgramContext, init_state: ProgramState, states: States) -> (r: Self)
        ensures
            r == (Machine {
                app_context,
                states,
                context: ContextImpl { current_state_key: init_state },
                first_update: true,
            }),
    {
        Machine { app_context, states, context: ContextImpl::new(init_state), first_update: true }
    }

    pub open spec fn spec_state(&self) -> ProgramState {
        self.context.current_state_key
    }

    /// The key of the current state.
    #[verifier::when_used_as_spec(spec_state)]
    pub fn current_state_key(&self) -> (r: ProgramState)
        ensures
            r == self.context.current_state_key,
    {
        self.context.current_state_key
    }

    /// The program that the machine supervises.
    pub fn app_context(&self) -> (r: &ProgramContext)
        ensures
            *r == self.app_context,
    {
        &self.app_context
    }

    /// What the states see of the machine, with the data of state `S`.
    pub open spec fn scene<S: State>(self) -> Scene<S> {
        Scene { state: S::slot(self.states), context: self.context, app: self.app_context }
    }

    pub open spec fn spec_update_in<S: State>(self, now: u64, journal: Seq<Reply>, at: nat) -> Step<
        (Machine, nat),
    > {
        lifted::<S>(self, S::spec_update(self.scene::<S>(), now, journal, at))
    }

    pub open spec fn spec_react_in<S: State>(
        self,
        event: ProgramEvent,
        journal: Seq<Reply>,
        at: nat,
    ) -> Step<(MachineResultView, Machine, nat)> {
        match S::spec_react(self.scene::<S>(), event, journal, at) {
            Err(request) => Err(request),
            Ok((answer, scene, next)) => match lifted::<S>(self, Ok((scene, next))) {
                Err(request) => Err(request),
                Ok((machine, last)) => Ok((answer, machine, last)),
            },
        }
    }

    pub open spec fn spec_enter_in<S: State>(self, now: u64, journal: Seq<Reply>, at: nat) -> Step<
        (Machine, nat),
    > {
        match S::spec_enter(S::slot(self.states), self.app_context, now, journal, at) {
            Err(request) => Err(request),
            Ok(((state, app), next)) => Ok(
                (
                    Machine {
                        app_context: app,
                        states: S::with_slot(self.states, state),
                        ..self
                    },
                    next,
                ),
            ),
        }
    }

    pub open spec fn spec_exit_in<S: State>(self, journal: Seq<Reply>, at: nat) -> Step<
        (Machine, nat),
    > {
        match S::spec_exit(S::slot(self.states), self.app_context, journal, at) {
            Err(request) => Err(request),
            Ok(((state, app), next)) => Ok(
                (
                    Machine {
                        app_context: app,
                        states: S::with_slot(self.states, state),
                        ..self
                    },
                    next,
                ),
            ),
        }
    }

    /// The tick of the current state.
    #[verifier::opaque]
    pub open spec fn spec_update_state(self, now: u64, journal: Seq<Reply>, at: nat) -> Step<
        (Machine, nat),
    > {
        match self.context.current_state_key {
            ProgramState::Stopped => self.spec_update_in::<Stopped>(now, journal, at),
            ProgramState::Exited => self.spec_update_in::<Exited>(now, journal, at),
            ProgramState::Backoff => self.spec_update_in::<Backoff>(now, journal, at),
            ProgramState::Starting => self.spec_update_in::<Starting>(now, journal, at),
            ProgramState::Running => self.spec_update_in::<Running>(now, journal, at),
            ProgramState::Stopping => self.spec_update_in::<Stopping>(now, journal, at),
            ProgramState::Exiting => self.spec_update_in::<Exiting>(now, journal, at),
        }
    }

    /// The answer of the current state to `event`.
    #[verifier::opaque]
    pub open spec fn spec_react_state(self, event: ProgramEvent, journal: Seq<Reply>, at: nat) -> Step<
        (MachineResultView, Machine, nat),
    > {
        match self.context.current_state_key {
            ProgramState::Stopped => self.spec_react_in::<Stopped>(event, journal, at),
            ProgramState::Exited => self.spec_react_in::<Exited>(event, journal, at),
            ProgramState::Backoff => self.spec_react_in::<Backoff>(event, journal, at),
            ProgramState::Starting => self.spec_react_in::<Starting>(event, journal, at),
            ProgramState::Running => self.spec_react_in::<Running>(event, journal, at),
            ProgramState::Stopping => self.spec_react_in::<Stopping>(event, journal, at),
            ProgramState::Exiting => self.spec_react_in::<Exiting>(event, journal, at),
        }
    }

    /// The entry hook of the state `key`.
    #[verifier::opaque]
    pub open spec fn spec_enter_state(
        self,
        key: ProgramState,
        now: u64,
        journal: Seq<Reply>,
        at: nat,
    ) -> Step<(Machine, nat)> {
        match key {
            ProgramState::Stopped => self.spec_enter_in::<Stopped>(now, journal, at),
            ProgramState::Exited => self.spec_enter_in::<Exited>(now, journal, at),
            ProgramState::Backoff => self.spec_enter_in::<Backoff>(now, journal, at),
            ProgramState::Starting => self.spec_enter_in::<Starting>(now, journal, at),
            ProgramState::Running => self.spec_enter_in::<Running>(now, journal, at),
            ProgramState::Stopping => self.spec_enter_in::<Stopping>(now, journal, at),
            ProgramState::Exiting => self.spec_enter_in::<Exiting>(now, journal, at),
        }
    }

    /// The exit hook of the state `key`.
    #[verifier::opaque]
    pub open spec fn spec_exit_state(self, key: ProgramState, journal: Seq<Reply>, at: nat) -> Step<
        (Machine, nat),
    > {
        match key {
            ProgramState::Stopped => self.spec_exit_in::<Stopped>(journal, at),
            ProgramState::Exited => self.spec_exit_in::<Exited>(journal, at),
            ProgramState::Backoff => self.spec_exit_in::<Backoff>(journal, at),
            ProgramState::Starting => self.spec_exit_in::<Starting>(journal, at),
            ProgramState::Running => self.spec_exit_in::<Running>(journal, at),
            ProgramState::Stopping => self.spec_exit_in::<Stopping>(journal, at),
            ProgramState::Exiting => self.spec_exit_in::<Exiting>(journal, at),
        }
    }

    /// Before the first callback, the entry hook of the initial state runs.
    pub open spec fn spec_maybe_enter_on_first_update(
        self,
        now: u64,
        journal: Seq<Reply>,
        at: nat,
    ) -> Step<(Machine, nat)> {
        if self.first_update {
            (Machine { first_update: false, ..self }).spec_enter_state(
                self.context.current_state_key,
                now,
                journal,
                at,
            )
        } else {
            Ok((self, at))
        }
    }

    /// If a callback has named another state than `old_state_key`, the exit
    /// hook of the old and then the entry hook of the new state run.
    pub open spec fn spec_maybe_change_state(
        self,
        old_state_key: ProgramState,
        now: u64,
        journal: Seq<Reply>,
        at: nat,
    ) -> Step<(Machine, nat)> {
        if self.context.current_state_key != old_state_key {
            match self.spec_exit_state(old_state_key, journal, at) {
                Err(request) => Err(request),
                Ok((left, next)) => left.spec_enter_state(
                    self.context.current_state_key,
                    now,
                    journal,
                    next,
                ),
            }
        } else {
            Ok((self, at))
        }
    }

    /// One tick, from position `at` of the journal.
    pub open spec fn spec_update_at(self, now: u64, journal: Seq<Reply>, at: nat) -> Step<
        (Machine, nat),
    > {
        match self.spec_maybe_enter_on_first_update(now, journal, at) {
            Err(request) => Err(request),
            Ok((entered, at1)) => match entered.spec_update_state(now, journal, at1) {
                Err(request) => Err(request),
                Ok((updated, at2)) => updated.spec_maybe_change_state(
                    entered.context.current_state_key,
                    now,
                    journal,
                    at2,
                ),
            },
        }
    }

    /// One event, from position `at` of the journal.
    pub open spec fn spec_react_at(
        self,
        event: ProgramEvent,
        now: u64,
        journal: Seq<Reply>,
        at: nat,
    ) -> Step<(MachineResultView, Machine, nat)> {
        match self.spec_maybe_enter_on_first_update(now, journal, at) {
            Err(request) => Err(request),
            Ok((entered, at1)) => match entered.spec_react_state(event, journal, at1) {
                Err(request) => Err(request),
                Ok((answer, reacted, at2)) => match reacted.spec_maybe_change_state(
                    entered.context.current_state_key,
                    now,
                    journal,
                    at2,
                ) {
                    Err(request) => Err(request),
                    Ok((changed, at3)) => Ok((answer, changed, at3)),
                },
            },
        }
    }

    /// One tick at clock reading `now`, with the outcomes in `journal`: the
    /// machine after it, or the operation whose outcome the journal lacks.
    pub open spec fn spec_update(self, now: u64, journal: Seq<Reply>) -> Step<Machine> {
        match self.spec_update_at(now, journal, 0) {
            Err(request) => Err(request),
            Ok((machine, _)) => Ok(machine),
        }
    }

    /// One event at clock reading `now`, with the outcomes in `journal`:
    /// the answer and the machine after it, or the operation whose outcome
    /// the journal lacks.
    pub open spec fn spec_react(self, event: ProgramEvent, now: u64, journal: Seq<Reply>) -> Step<
        (MachineResultView, Machine),
    > {
        match self.spec_react_at(event, now, journal, 0) {
            Err(request) => Err(request),
            Ok((answer, machine, _)) => Ok((answer, machine)),
        }
    }

    /// What holds of a machine between its callbacks.
    ///
    /// The restart counter never exceeds the configured attempts, and is 0
    /// outside `Backoff` and `Starting`. A restart is only intended while
    /// the program is torn down. In `Stopped` and `Exited` the program is at
    /// rest: no child has a process or a start time and no SIGTERM is
    /// remembered. In `Running` the program and the logger have a process.
    pub open spec fn wf(self) -> bool {
        let key = self.context.current_state_key;
        let app = self.app_context;
        &&& app.num_restarts <= app.config.program.num_restart_attempts
        &&& (key == ProgramState::Backoff && self.first_update) ==> app.num_restarts
            < app.config.program.num_restart_attempts
        &&& (key == ProgramState::Backoff && !self.first_update)
            ==> self.states.backoff.enter_time is Some
        &&& (key != ProgramState::Backoff && key != ProgramState::Starting) ==> app.num_restarts
            == 0
        &&& app.should_restart ==> (key == ProgramState::Stopping || key == ProgramState::Exiting)
        &&& (key == ProgramState::Stopped || key == ProgramState::Exited) ==> app.at_rest()
        &&& key == ProgramState::Running ==> {
            &&& app.program.program.has_child
            &&& app.logger matches Some(logger) ==> logger.program.has_child
        }
    }

    /// Whether the machine is as a machine is between its callbacks. It is,
    /// unless its fields were changed from outside.
    pub fn is_wf(&self) -> (r: bool)
        ensures
            r == self.wf(),
    {
        let key = self.context.current_state_key;
        let app = &self.app_context;
        let attempts = app.config.num_restart_attempts();
        let at_rest = app.is_at_rest();
        let logger_launched = match &app.logger {
            Some(logger) => logger.program.has_child,
            None => true,
        };
        app.num_restarts <= attempts && (!(key == ProgramState::Backoff && self.first_update)
            || app.num_restarts < attempts) && (!(key == ProgramState::Backoff
            && !self.first_update) || self.states.backoff.enter_time.is_some()) && (key
            == ProgramState::Backoff || key == ProgramState::Starting || app.num_restarts == 0)
            && (!app.should_restart || key == ProgramState::Stopping || key
            == ProgramState::Exiting) && (!(key == ProgramState::Stopped || key
            == ProgramState::Exited) || at_rest) && (key != ProgramState::Running || (
        app.program.program.has_child && logger_launched))
    }

    /// What the entry hook of state `key` needs.
    pub open spec fn enter_ready(self, key: ProgramState) -> bool {
        key == ProgramState::Backoff ==> self.app_context.num_restarts < u32::MAX
    }

    /// What the tick of the current state needs.
    pub open spec fn update_ready(self) -> bool {
        self.context.current_state_key == ProgramState::Backoff
            ==> self.states.backoff.enter_time is Some
    }

    fn enter_state(&mut self, key: ProgramState, now: u64, journal: &Vec<Reply>, at: &mut usize) -> (r:
        Step<()>)
        requires
            old(self).enter_ready(key),
        ensures
            action_agrees(
                old(self).spec_enter_state(key, now, journal@, *old(at) as nat),
                r,
                *final(self),
                *final(at),
            ),
            final(self).app_context.fixed() == old(self).app_context.fixed(),
    {
        reveal(Machine::spec_enter_state);
        match key {
            ProgramState::Stopped => self.states.stopped.enter(
                &mut self.app_context,
                now,
                journal,
                at,
            ),
            ProgramState::Exited => self.states.exited.enter(
                &mut self.app_context,
                now,
                journal,
                at,
            ),
            ProgramState::Backoff => self.states.backoff.enter(
                &mut self.app_context,
                now,
                journal,
                at,
            ),
            ProgramState::Starting => self.states.starting.enter(
                &mut self.app_context,
                now,
                journal,
                at,
            ),
            ProgramState::Running => self.states.running.enter(
                &mut self.app_context,
                now,
                journal,
                at,
            ),
            ProgramState::Stopping => self.states.stopping.enter(
                &mut self.app_context,
                now,
                journal,
                at,
            ),
            ProgramState::Exiting => self.states.exiting.enter(
                &mut self.app_context,
                now,
                journal,
                at,
            ),
        }
    }

    fn exit_state(&mut self, key: ProgramState, journal: &Vec<Reply>, at: &mut usize) -> (r: Step<
        (),
    >)
        ensures
            action_agrees(
                old(self).spec_exit_state(key, journal@, *old(at) as nat),
                r,
                *final(self),
                *final(at),
            ),
            final(self).app_context.fixed() == old(self).app_context.fixed(),
    {
        reveal(Machine::spec_exit_state);
        match key {
            ProgramState::Stopped => self.states.stopped.exit(&mut self.app_context, journal, at),
            ProgramState::Exited => self.states.exited.exit(&mut self.app_context, journal, at),
            ProgramState::Backoff => self.states.backoff.exit(&mut self.app_context, journal, at),
            ProgramState::Starting => self.states.starting.exit(&mut self.app_context, journal, at),
            ProgramState::Running => self.states.running.exit(&mut self.app_context, journal, at),
            ProgramState::Stopping => self.states.stopping.exit(&mut self.app_context, journal, at),
            ProgramState::Exiting => self.states.exiting.exit(&mut self.app_context, journal, at),
        }
    }

    fn update_state(&mut self, now: u64, journal: &Vec<Reply>, at: &mut usize) -> (r: Step<()>)
        requires
            old(self).update_ready(),
        ensures
            action_agrees(
                old(self).spec_update_state(now, journal@, *old(at) as nat),
                r,
                *final(self),
                *final(at),
            ),
            final(self).app_context.fixed() == old(self).app_context.fixed(),
    {
        reveal(Machine::spec_update_state);
        match self.context.current_state_key {
            ProgramState::Stopped => self.states.stopped.update(
                &mut self.context,
                &mut self.app_context,
                now,
                journal,
                at,
            ),
            ProgramState::Exited => self.states.exited.update(
                &mut self.context,
                &mut self.app_context,
                now,
                journal,
                at,
            ),
            ProgramState::Backoff => self.states.backoff.update(
                &mut self.context,
                &mut self.app_context,
                now,
                journal,
                at,
            ),
            ProgramState::Starting => self.states.starting.update(
                &mut self.context,
                &mut self.app_context,
                now,
                journal,
                at,
            ),
            ProgramState::Running => self.states.running.update(
                &mut self.context,
                &mut self.app_context,
                now,
                journal,
                at,
            ),
            ProgramState::Stopping => self.states.stopping.update(
                &mut self.context,
                &mut self.app_context,
                now,
                journal,
                at,
            ),
            ProgramState::Exiting => self.states.exiting.update(
                &mut self.context,
                &mut self.app_context,
                now,
                journal,
                at,
            ),
        }
    }

    fn react_state(&mut self, event: &ProgramEvent, journal: &Vec<Reply>, at: &mut usize) -> (r:
        Step<MachineResult>)
        ensures
            machine_react_agrees(
                old(self).spec_react_state(*event, journal@, *old(at) as nat),
                r,
                *final(self),
                *final(at),
            ),
            final(self).app_context.fixed() == old(self).app_context.fixed(),
    {
        reveal(Machine::spec_react_state);
        match self.context.current_state_key {
            ProgramState::Stopped => self.states.stopped.react(
                event,
                &mut self.context,
                &mut self.app_context,
                journal,
                at,
            ),
            ProgramState::Exited => self.states.exited.react(
                event,
                &mut self.context,
                &mut self.app_context,
                journal,
                at,
            ),
            ProgramState::Backoff => self.states.backoff.react(
                event,
                &mut self.context,
                &mut self.app_context,
                journal,
                at,
            ),
            ProgramState::Starting => self.states.starting.react(
                event,
                &mut self.context,
                &mut self.app_context,
                journal,
                at,
            ),
            ProgramState::Running => self.states.running.react(
                event,
                &mut self.context,
                &mut self.app_context,
                journal,
                at,
            ),
            ProgramState::Stopping => self.states.stopping.react(
                event,
                &mut self.context,
                &mut self.app_context,
                journal,
                at,
            ),
            ProgramState::Exiting => self.states.exiting.react(
                event,
                &mut self.context,
                &mut self.app_context,
                journal,
                at,
            ),
        }
    }

    /// Runs the entry hook of the initial state if no callback has run yet.
    pub fn maybe_enter_on_first_update(&mut self, now: u64, journal: &Vec<Reply>, at: &mut usize) -> (r:
        Step<()>)
        requires
            old(self).first_update ==> old(self).enter_ready(old(self).context.current_state_key),
        ensures
            action_agrees(
                old(self).spec_maybe_enter_on_first_update(now, journal@, *old(at) as nat),
                r,
                *final(self),
                *final(at),
            ),
            final(self).app_context.fixed() == old(self).app_context.fixed(),
    {
        let state_key = self.current_state_key();
        if self.first_update {
            self.first_update = false;
            // Ensure we call the enter method for the initial state before doing anything.
            self.enter_state(state_key, now, journal, at)?;
        }
        Ok(())
    }

    /// Runs the exit hook of `old_state_key` and the entry hook of the
    /// current state if the two differ.
    pub fn maybe_change_state(
        &mut self,
        old_state_key: ProgramState,
        now: u64,
        journal: &Vec<Reply>,
        at: &mut usize,
    ) -> (r: Step<()>)
        requires
            old(self).context.current_state_key != old_state_key ==> old(self).enter_ready(
                old(self).context.current_state_key,
            ),
        ensures
            action_agrees(
                old(self).spec_maybe_change_state(old_state_key, now, journal@, *old(at) as nat),
                r,
                *final(self),
                *final(at),
            ),
            final(self).app_context.fixed() == old(self).app_context.fixed(),
    {
        let new_state_key = self.current_state_key();
        if new_state_key != old_state_key {
            proof {
                lemma_exit_state(*self, old_state_key, journal@, *at as nat);
            }
            self.exit_state(old_state_key, journal, at)?;
            self.enter_state(new_state_key, now, journal, at)?;
        }
        Ok(())
    }

    /// Everything that changes about the machine.
    pub open spec fn spec_checkpoint(self) -> MachineCheckpoint {
        MachineCheckpoint {
            app_context: self.app_context.spec_checkpoint(),
            states: self.states,
            context: self.context,
            first_update: self.first_update,
        }
    }

    /// The machine with everything that changes taken from `saved`.
    pub open spec fn spec_restored(self, saved: MachineCheckpoint) -> Machine {
        Machine {
            app_context: self.app_context.spec_restored(saved.app_context),
            states: saved.states,
            context: saved.context,
            first_update: saved.first_update,
        }
    }

    /// A copy of everything that changes.
    pub fn checkpoint(&self) -> (r: MachineCheckpoint)
        ensures
            r == self.spec_checkpoint(),
    {
        MachineCheckpoint {
            app_context: self.app_context.checkpoint(),
            states: self.states,
            context: self.context,
            first_update: self.first_update,
        }
    }

    /// Puts back everything that changes as `saved` holds it.
    pub fn restore(&mut self, saved: MachineCheckpoint)
        ensures
            *final(self) == old(self).spec_restored(saved),
    {
        self.app_context.restore(saved.app_context);
        self.states = saved.states;
        self.context = saved.context;
        self.first_update = saved.first_update;
    }

    fn run_update(&mut self, now: u64, journal: &Vec<Reply>, at: &mut usize) -> (r: Step<()>)
        requires
            old(self).wf(),
        ensures
            action_agrees(
                old(self).spec_update_at(now, journal@, *old(at) as nat),
                r,
                *final(self),
                *final(at),
            ),
            final(self).app_context.fixed() == old(self).app_context.fixed(),
    {
        proof {
            lemma_first_enter(*self, now, journal@, *at as nat);
        }
        self.maybe_enter_on_first_update(now, journal, at)?;
        let state_key = self.current_state_key();
        proof {
            lemma_update_state(*self, now, journal@, *at as nat);
        }
        self.update_state(now, journal, at)?;
        self.maybe_change_state(state_key, now, journal, at)
    }

    /// One tick at clock reading `now`, with the outcomes that `journal`
    /// holds from position `at` on. The tick is made as a whole or not at
    /// all: where the journal ends too early the machine is left as it was.
    pub fn update_at(&mut self, now: u64, journal: &Vec<Reply>, at: &mut usize) -> (r: Step<()>)
        requires
            old(self).wf(),
        ensures
            action_agrees(
                old(self).spec_update_at(now, journal@, *old(at) as nat),
                r,
                *final(self),
                *final(at),
            ),
            r is Err ==> *final(self) == *old(self),
            final(self).wf(),
            final(self).app_context.fixed() == old(self).app_context.fixed(),
    {
        let saved = self.checkpoint();
        let r = self.run_update(now, journal, at);
        if r.is_err() {
            proof {
                old(self).app_context.lemma_restored(self.app_context);
            }
            self.restore(saved);
        } else {
            proof {
                lemma_update_keeps_wf(*old(self), now, journal@, *old(at) as nat);
            }
        }
        r
    }

    /// One tick at clock reading `now`.
    ///
    /// `journal` holds the outcomes of the operations that the driver has
    /// performed for this tick so far, in order. `Err` names the next
    /// operation to perform; the machine is then unchanged, and the call is
    /// to be made again with the outcome appended. `Ok` means that the tick
    /// is complete.
    pub fn update(&mut self, now: u64, journal: &Vec<Reply>) -> (r: Step<()>)
        requires
            old(self).wf(),
        ensures
            match old(self).spec_update(now, journal@) {
                Ok(after) => r is Ok && *final(self) == after,
                Err(request) => r == Err::<(), Request>(request) && *final(self) == *old(self),
            },
            final(self).wf(),
            final(self).app_context.fixed() == old(self).app_context.fixed(),
            old(self).app_context.describes_config()
                ==> final(self).app_context.describes_config(),
    {
        let mut at: usize = 0;
        let r = self.update_at(now, journal, &mut at);
        proof {
            if old(self).app_context.describes_config() {
                lemma_describes(old(self).app_context, self.app_context);
            }
        }
        r
    }

    fn run_react(&mut self, event: &ProgramEvent, now: u64, journal: &Vec<Reply>, at: &mut usize) -> (r:
        Step<MachineResult>)
        requires
            old(self).wf(),
        ensures
            machine_react_agrees(
                old(self).spec_react_at(*event, now, journal@, *old(at) as nat),
                r,
                *final(self),
                *final(at),
            ),
            final(self).app_context.fixed() == old(self).app_context.fixed(),
    {
        proof {
            lemma_first_enter(*self, now, journal@, *at as nat);
        }
        self.maybe_enter_on_first_update(now, journal, at)?;
        let state_key = self.current_state_key();
        proof {
            lemma_react_state(*self, *event, journal@, *at as nat);
        }
        let result = self.react_state(event, journal, at)?;
        self.maybe_change_state(state_key, now, journal, at)?;
        Ok(result)
    }

    /// One event at clock reading `now`, with the outcomes that `journal`
    /// holds from position `at` on. The event is handled as a whole or not
    /// at all: where the journal ends too early the machine is left as it
    /// was.
    pub fn react_at(
        &mut self,
        event: &ProgramEvent,
        now: u64,
        journal: &Vec<Reply>,
        at: &mut usize,
    ) -> (r: Step<MachineResult>)
        requires
            old(self).wf(),
        ensures
            machine_react_agrees(
                old(self).spec_react_at(*event, now, journal@, *old(at) as nat),
                r,
                *final(self),
                *final(at),
            ),
            r is Err ==> *final(self) == *old(self),
            final(self).wf(),
            final(self).app_context.fixed() == old(self).app_context.fixed(),
    {
        let saved = self.checkpoint();
        let r = self.run_react(event, now, journal, at);
        if r.is_err() {
            proof {
                old(self).app_context.lemma_restored(self.app_context);
            }
            self.restore(saved);
        } else {
            proof {
                lemma_react_keeps_wf(*old(self), *event, now, journal@, *old(at) as nat);
            }
        }
        r
    }

    /// One event from a client, at clock reading `now`.
    ///
    /// `journal` holds the outcomes of the operations that the driver has
    /// performed for this event so far, in order. `Err` names the next
    /// operation to perform; the machine is then unchanged, and the call is
    /// to be made again with the outcome appended. `Ok` holds the answer of
    /// the state that was current.
    pub fn react(&mut self, event: &ProgramEvent, now: u64, journal: &Vec<Reply>) -> (r: Step<
        MachineResult,
    >)
        requires
            old(self).wf(),
        ensures
            match old(self).spec_react(*event, now, journal@) {
                Ok((answer, after)) => r matches Ok(result) && machine_result_view(result)
                    == answer && *final(self) == after,
                Err(request) => r == Err::<MachineResult, Request>(request) && *final(self)
                    == *old(self),
            },
            final(self).wf(),
            final(self).app_context.fixed() == old(self).app_context.fixed(),
            old(self).app_context.describes_config()
                ==> final(self).app_context.describes_config(),
    {
        let mut at: usize = 0;
        let r = self.react_at(event, now, journal, &mut at);
        proof {
            if old(self).app_context.describes_config() {
                lemma_describes(old(self).app_context, self.app_context);
            }
        }
        r
    }
}

/// The machine answered `got` and became `machine`, as `expected` says.
pub open spec fn machine_react_agrees(
    expected: Step<(MachineResultView, Machine, nat)>,
    got: Step<MachineResult>,
    machine: Machine,
    at: usize,
) -> bool {
    match expected {
        Ok((answer, after, next)) => got matches Ok(result) && machine_result_view(result)
            == answer && machine == after && at == next,
        Err(request) => got == Err::<MachineResult, Request>(request),
    }
}

} // verus!
