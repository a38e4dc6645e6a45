//! All the programs together: the tick that advances every machine, the
//! event that is handed to the machines whose name matches, and the
//! snapshot of their states.
//!
//! As with one machine, a tick or an event for all is made as a whole or
//! not at all. The journal then holds the outcomes for all the machines,
//! in the order of the machines.

use crate::fsm::{
    machine_result_view, Machine, MachineCheckpoint, MachineResult, MachineResultView,
};
use crate::config::{rendered_names, RenderedProgramConfig};
use crate::names::{ascending, is_name_less, name_less};
use crate::os::{Reply, Request};
use crate::program_fsm::{new_program_fsm, spec_initial_state, ProgramEvent, ProgramFsm, ProgramState};
use vstd::prelude::*;
use vstd::string::StringExecFns;

verus! {

/// Whether the wildcard pattern matches the whole of the input: `?` stands
/// for exactly one character, `*` for any number of characters, and every
/// other character for itself.
pub open spec fn glob_matches(pattern: Seq<char>, input: Seq<char>) -> bool
    decreases pattern.len(), input.len(),
{
    if pattern.len() == 0 {
        input.len() == 0
    } else if pattern[0] == '*' {
        glob_matches(pattern.skip(1), input) || (input.len() > 0 && glob_matches(
            pattern,
            input.skip(1),
        ))
    } else {
        input.len() > 0 && (pattern[0] == '?' || pattern[0] == input[0]) && glob_matches(
            pattern.skip(1),
            input.skip(1),
        )
    }
}

/// `wildmatch::WildMatch::new(pattern).matches(input)`: whether the pattern,
/// in which `?` matches exactly one character and `*` any number of
/// characters, matches the entire input. Case matters and nothing escapes
/// a wildcard.
#[verifier::external_body]
fn wildcard_matches(pattern: &str, input: &str) -> (r: bool)
    ensures
        r == glob_matches(pattern@, input@),
{
    wildmatch::WildMatch::new(pattern).matches(input)
}

/// Whether a program expression names the program: the expression `all`
/// names every program, any other is a wildcard pattern for the name.
pub open spec fn spec_program_matches(program_expr: Seq<char>, program_name: Seq<char>) -> bool {
    program_expr == "all"@ || glob_matches(program_expr, program_name)
}

pub fn program_matches(program_expr: &str, program_name: &str) -> (r: bool)
    ensures
        r == spec_program_matches(program_expr@, program_name@),
{
    let match_all = String::from_str(program_expr) == String::from_str("all");
    match_all || wildcard_matches(program_expr, program_name)
}

/// The operation that a tick or an event for all programs needs next, and
/// the position of the machine that asks for it.
#[derive(Clone, Copy, Debug, PartialEq, Eq, Structural)]
pub struct FleetRequest {
    pub program: usize,
    pub request: Request,
}

/// No program has a name that the expression matches.
#[derive(Debug, PartialEq, Eq)]
pub struct NoProgramsFound {
    pub program_expr: String,
}

impl NoProgramsFound {
    /// The words in which a client is told.
    pub fn message(&self) -> (r: String)
        ensures
            r@ == "No programs found matching expression: "@ + self.program_expr@,
    {
        let mut message = String::from_str("No programs found matching expression: ");
        message.append(self.program_expr.as_str());
        message
    }
}

/// What the machines answered to an event, by name and in the order of the
/// machines; or that the expression matched none.
pub type ProgramEventsResult = Result<Vec<(String, MachineResult)>, NoProgramsFound>;

/// Every machine is as a machine is between its callbacks.
pub open spec fn all_wf(fsms: Seq<Machine>) -> bool {
    forall|i: int| 0 <= i < fsms.len() ==> (#[trigger] fsms[i]).wf()
}

/// A tick of the machines from position `from` on, one after the other,
/// with the outcomes that the journal holds from position `at` on.
pub open spec fn spec_update_from(
    fsms: Seq<Machine>,
    now: u64,
    journal: Seq<Reply>,
    at: nat,
    from: nat,
) -> Result<Seq<Machine>, (nat, Request)>
    decreases fsms.len() - from,
{
    if from >= fsms.len() {
        Ok(fsms)
    } else {
        match fsms[from as int].spec_update_at(now, journal, at) {
            Err(request) => Err((from, request)),
            Ok((after, next)) => spec_update_from(
                fsms.update(from as int, after),
                now,
                journal,
                next,
                from + 1,
            ),
        }
    }
}

/// A tick of every machine, in order: the machines after it, or the
/// position of the machine that needs an outcome which the journal lacks,
/// with the operation.
pub open spec fn spec_update_program_fsms(fsms: Seq<Machine>, now: u64, journal: Seq<Reply>) -> Result<
    Seq<Machine>,
    (nat, Request),
> {
    spec_update_from(fsms, now, journal, 0, 0)
}

/// Puts the machines before position `upto` back as `saved` holds them.
fn restore_all(
    program_fsms: &mut Vec<ProgramFsm>,
    saved: &Vec<MachineCheckpoint>,
    upto: usize,
    Ghost(at_entry): Ghost<Seq<Machine>>,
)
    requires
        upto <= old(program_fsms)@.len(),
        old(program_fsms)@.len() == at_entry.len(),
        saved@.len() >= upto,
        forall|k: int|
            0 <= k < upto ==> saved@[k] == (#[trigger] at_entry[k]).spec_checkpoint()
                && old(program_fsms)@[k].app_context.fixed() == at_entry[k].app_context.fixed(),
        forall|k: int| upto <= k < at_entry.len() ==> old(program_fsms)@[k] == at_entry[k],
    ensures
        final(program_fsms)@ == at_entry,
{
    let mut k: usize = 0;
    while k < upto
        invariant
            k <= upto,
            upto <= program_fsms@.len(),
            program_fsms@.len() == at_entry.len(),
            saved@.len() >= upto,
            forall|j: int|
                k <= j < upto ==> saved@[j] == (#[trigger] at_entry[j]).spec_checkpoint()
                    && program_fsms@[j].app_context.fixed() == at_entry[j].app_context.fixed(),
            forall|j: int| upto <= j < at_entry.len() ==> program_fsms@[j] == at_entry[j],
            forall|j: int| 0 <= j < k ==> program_fsms@[j] == at_entry[j],
        decreases upto - k,
    {
        proof {
            at_entry[k as int].app_context.lemma_restored(program_fsms@[k as int].app_context);
        }
        let checkpoint = saved[k];
        let fsm = &mut program_fsms[k];
        fsm.restore(checkpoint);
        k = k + 1;
    }
    assert(program_fsms@ =~= at_entry);
}

/// One tick of every machine, in order, at clock reading `now`.
///
/// `journal` holds the outcomes of the operations that the driver has
/// performed for this tick so far, for all the machines, in order. `Err`
/// names the next operation and the machine that asks for it; every
/// machine is then unchanged, and the call is to be made again with the
/// outcome appended. `Ok` means that the tick is complete.
pub fn update_program_fsms(program_fsms: &mut Vec<ProgramFsm>, now: u64, journal: &Vec<Reply>) -> (r:
    Result<(), FleetRequest>)
    requires
        all_wf(old(program_fsms)@),
    ensures
        match spec_update_program_fsms(old(program_fsms)@, now, journal@) {
            Ok(after) => r is Ok && final(program_fsms)@ == after,
            Err((program, request)) => r matches Err(pending) && pending.program == program
                && pending.request == request && final(program_fsms)@ == old(program_fsms)@,
        },
        all_wf(final(program_fsms)@),
        machine_names(final(program_fsms)@) == machine_names(old(program_fsms)@),
{
    let ghost at_entry = program_fsms@;
    let n = program_fsms.len();
    let mut saved: Vec<MachineCheckpoint> = Vec::new();
    let mut at: usize = 0;
    let mut i: usize = 0;
    while i < n
        invariant
            i <= n,
            n == at_entry.len(),
            program_fsms@.len() == n,
            saved@.len() == i,
            at_entry == old(program_fsms)@,
            all_wf(at_entry),
            all_wf(program_fsms@),
            forall|k: int|
                0 <= k < i ==> saved@[k] == (#[trigger] at_entry[k]).spec_checkpoint()
                    && program_fsms@[k].app_context.fixed() == at_entry[k].app_context.fixed(),
            forall|k: int| i <= k < n ==> program_fsms@[k] == at_entry[k],
            spec_update_from(at_entry, now, journal@, 0, 0) == spec_update_from(
                program_fsms@,
                now,
                journal@,
                at as nat,
                i as nat,
            ),
        decreases n - i,
    {
        let ghost before = program_fsms@;
        let ghost reached = at as nat;
        saved.push(program_fsms[i].checkpoint());
        let fsm = &mut program_fsms[i];
        let step = fsm.update_at(now, journal, &mut at);
        assert(spec_update_from(before, now, journal@, reached, i as nat) == match before[i as int].spec_update_at(
            now,
            journal@,
            reached,
        ) {
            Err(request) => Err::<Seq<Machine>, (nat, Request)>((i as nat, request)),
            Ok((after, next)) => spec_update_from(
                before.update(i as int, after),
                now,
                journal@,
                next,
                (i + 1) as nat,
            ),
        });
        match step {
            Err(request) => {
                assert(program_fsms@ =~= before);
                restore_all(program_fsms, &saved, i, Ghost(at_entry));
                return Err(FleetRequest { program: i, request });
            },
            Ok(_) => {},
        }
        i = i + 1;
    }
    assert(machine_names(program_fsms@) =~= machine_names(at_entry)) by {
        assert forall|k: int| 0 <= k < n implies program_fsms@[k].app_context.name
            == at_entry[k].app_context.name by {
            assert(program_fsms@[k].app_context.fixed().name == at_entry[k].app_context.fixed().name);
        }
    }
    Ok(())
}

/// The characters of the answers of the machines.
pub open spec fn answers_view(answers: Seq<(String, MachineResult)>) -> Seq<
    (Seq<char>, MachineResultView),
> {
    Seq::new(answers.len(), |i: int| (answers[i].0@, machine_result_view(answers[i].1)))
}

/// An event for the machines from position `from` on, one after the
/// other: each machine whose name the expression matches reacts, and its
/// answer is added to `answers` under its name.
pub open spec fn spec_dispatch_from(
    fsms: Seq<Machine>,
    event: ProgramEvent,
    program_expr: Seq<char>,
    now: u64,
    journal: Seq<Reply>,
    at: nat,
    from: nat,
    answers: Seq<(Seq<char>, MachineResultView)>,
) -> Result<(Seq<Machine>, Seq<(Seq<char>, MachineResultView)>), (nat, Request)>
    decreases fsms.len() - from,
{
    if from >= fsms.len() {
        Ok((fsms, answers))
    } else if !spec_program_matches(program_expr, fsms[from as int].app_context.name@) {
        spec_dispatch_from(fsms, event, program_expr, now, journal, at, from + 1, answers)
    } else {
        match fsms[from as int].spec_react_at(event, now, journal, at) {
            Err(request) => Err((from, request)),
            Ok((answer, after, next)) => spec_dispatch_from(
                fsms.update(from as int, after),
                event,
                program_expr,
                now,
                journal,
                next,
                from + 1,
                answers.push((fsms[from as int].app_context.name@, answer)),
            ),
        }
    }
}

/// An event for every machine whose name the expression matches, in the
/// order of the machines: the machines after it with their answers, or the
/// position of the machine that needs an outcome which the journal lacks,
/// with the operation.
pub open spec fn spec_dispatch_program_event(
    fsms: Seq<Machine>,
    event: ProgramEvent,
    program_expr: Seq<char>,
    now: u64,
    journal: Seq<Reply>,
) -> Result<(Seq<Machine>, Seq<(Seq<char>, MachineResultView)>), (nat, Request)> {
    spec_dispatch_from(fsms, event, program_expr, now, journal, 0, 0, Seq::empty())
}

/// The result of an event is what is told to the client: the answers by
/// name, or that no program was found if there is no answer.
pub open spec fn events_result_agrees(
    result: ProgramEventsResult,
    program_expr: Seq<char>,
    answers: Seq<(Seq<char>, MachineResultView)>,
) -> bool {
    match result {
        Ok(list) => answers.len() > 0 && answers_view(list@) == answers,
        Err(nothing) => answers.len() == 0 && nothing.program_expr@ == program_expr,
    }
}

/// One event from a client for the programs that `program_expr` names, at
/// clock reading `now`.
///
/// The machines are asked in order. Each whose name matches reacts, and
/// its answer is collected under its name. If none matches, the client is
/// told that no program was found, and nothing has changed.
///
/// `journal` is as for [`update_program_fsms`]: `Err` names the next
/// operation and the machine that asks for it, and every machine is then
/// unchanged.
pub fn dispatch_program_event(
    program_fsms: &mut Vec<ProgramFsm>,
    event: &ProgramEvent,
    program_expr: &str,
    now: u64,
    journal: &Vec<Reply>,
) -> (r: Result<ProgramEventsResult, FleetRequest>)
    requires
        all_wf(old(program_fsms)@),
    ensures
        match spec_dispatch_program_event(
            old(program_fsms)@,
            *event,
            program_expr@,
            now,
            journal@,
        ) {
            Ok((after, answers)) => r matches Ok(result) && final(program_fsms)@ == after
                && events_result_agrees(result, program_expr@, answers),
            Err((program, request)) => r matches Err(pending) && pending.program == program
                && pending.request == request && final(program_fsms)@ == old(program_fsms)@,
        },
        all_wf(final(program_fsms)@),
        machine_names(final(program_fsms)@) == machine_names(old(program_fsms)@),
{
    let ghost at_entry = program_fsms@;
    let n = program_fsms.len();
    let mut saved: Vec<MachineCheckpoint> = Vec::new();
    let mut result: Vec<(String, MachineResult)> = Vec::new();
    let mut at: usize = 0;
    let mut i: usize = 0;
    assert(answers_view(result@) =~= Seq::empty());
    while i < n
        invariant
            i <= n,
            n == at_entry.len(),
            program_fsms@.len() == n,
            saved@.len() == i,
            at_entry == old(program_fsms)@,
            all_wf(at_entry),
            all_wf(program_fsms@),
            forall|k: int|
                0 <= k < i ==> saved@[k] == (#[trigger] at_entry[k]).spec_checkpoint()
                    && program_fsms@[k].app_context.fixed() == at_entry[k].app_context.fixed(),
            forall|k: int| i <= k < n ==> program_fsms@[k] == at_entry[k],
            spec_dispatch_from(at_entry, *event, program_expr@, now, journal@, 0, 0, Seq::empty())
                == spec_dispatch_from(
                program_fsms@,
                *event,
                program_expr@,
                now,
                journal@,
                at as nat,
                i as nat,
                answers_view(result@),
            ),
        decreases n - i,
    {
        let ghost before = program_fsms@;
        let ghost collected = result@;
        let ghost reached = at as nat;
        saved.push(program_fsms[i].checkpoint());
        let program_name = program_fsms[i].app_context().name();
        assert(spec_dispatch_from(
            before,
            *event,
            program_expr@,
            now,
            journal@,
            reached,
            i as nat,
            answers_view(collected),
        ) == if !spec_program_matches(program_expr@, before[i as int].app_context.name@) {
            spec_dispatch_from(
                before,
                *event,
                program_expr@,
                now,
                journal@,
                reached,
                (i + 1) as nat,
                answers_view(collected),
            )
        } else {
            match before[i as int].spec_react_at(*event, now, journal@, reached) {
                Err(request) => Err::<
                    (Seq<Machine>, Seq<(Seq<char>, MachineResultView)>),
                    (nat, Request),
                >((i as nat, request)),
                Ok((answer, after, next)) => spec_dispatch_from(
                    before.update(i as int, after),
                    *event,
                    program_expr@,
                    now,
                    journal@,
                    next,
                    (i + 1) as nat,
                    answers_view(collected).push((before[i as int].app_context.name@, answer)),
                ),
            }
        });
        if program_matches(program_expr, program_name.as_str()) {
            let fsm = &mut program_fsms[i];
            let step = fsm.react_at(event, now, journal, &mut at);
            match step {
                Err(request) => {
                    assert(program_fsms@ =~= before);
                    restore_all(program_fsms, &saved, i, Ghost(at_entry));
                    return Err(FleetRequest { program: i, request });
                },
                Ok(answer) => {
                    result.push((program_name, answer));
                    assert(answers_view(result@) =~= answers_view(collected).push(
                        (before[i as int].app_context.name@, machine_result_view(answer)),
                    ));
                },
            }
        } else {
            assert(program_fsms@ =~= before);
        }
        i = i + 1;
    }
    assert(machine_names(program_fsms@) =~= machine_names(at_entry)) by {
        assert forall|k: int| 0 <= k < n implies program_fsms@[k].app_context.name
            == at_entry[k].app_context.name by {
            assert(program_fsms@[k].app_context.fixed().name == at_entry[k].app_context.fixed().name);
        }
    }
    if result.len() == 0 {
        assert(answers_view(result@) =~= Seq::empty());
        Ok(Err(NoProgramsFound { program_expr: String::from_str(program_expr) }))
    } else {
        Ok(Ok(result))
    }
}

/// The state of every program, by name and in the order of the machines.
pub open spec fn spec_program_states(fsms: Seq<Machine>) -> Seq<(Seq<char>, ProgramState)> {
    Seq::new(fsms.len(), |i: int| (fsms[i].app_context.name@, fsms[i].context.current_state_key))
}

/// The characters and states of a snapshot.
pub open spec fn states_view(states: Seq<(String, ProgramState)>) -> Seq<(Seq<char>, ProgramState)> {
    Seq::new(states.len(), |i: int| (states[i].0@, states[i].1))
}

/// A snapshot: the name and the current state of every program.
pub fn program_states(program_fsms: &Vec<ProgramFsm>) -> (r: Vec<(String, ProgramState)>)
    ensures
        states_view(r@) == spec_program_states(program_fsms@),
{
    let mut states: Vec<(String, ProgramState)> = Vec::new();
    let mut i: usize = 0;
    while i < program_fsms.len()
        invariant
            i <= program_fsms@.len(),
            states@.len() == i,
            forall|k: int|
                0 <= k < i ==> (#[trigger] states@[k]).0@ == program_fsms@[k].app_context.name@
                    && states@[k].1 == program_fsms@[k].context.current_state_key,
        decreases program_fsms@.len() - i,
    {
        let fsm = &program_fsms[i];
        states.push((fsm.app_context().name(), fsm.current_state_key()));
        i = i + 1;
    }
    assert(states_view(states@) =~= spec_program_states(program_fsms@));
    states
}

/// A copy of a snapshot.
pub fn clone_program_states(program_states: &Vec<(String, ProgramState)>) -> (r: Vec<
    (String, ProgramState),
>)
    ensures
        states_view(r@) == states_view(program_states@),
{
    let mut copy: Vec<(String, ProgramState)> = Vec::new();
    let mut i: usize = 0;
    while i < program_states.len()
        invariant
            i <= program_states@.len(),
            copy@.len() == i,
            forall|k: int|
                0 <= k < i ==> (#[trigger] copy@[k]).0@ == program_states@[k].0@ && copy@[k].1
                    == program_states@[k].1,
        decreases program_states@.len() - i,
    {
        let entry = &program_states[i];
        copy.push((entry.0.clone(), entry.1));
        i = i + 1;
    }
    assert(states_view(copy@) =~= states_view(program_states@));
    copy
}

/// A snapshot on its way to one subscriber.
#[derive(Debug, PartialEq, Eq)]
pub struct Delivery {
    pub subscriber: u64,
    pub program_states: Vec<(String, ProgramState)>,
}

/// The subscribers that are sent every snapshot, each known by the number
/// that the driver gave it.
#[derive(Debug)]
pub struct ProgramStatesChannels {
    pub senders: Vec<u64>,
}

impl ProgramStatesChannels {
    /// No subscriber is listed twice.
    pub open spec fn wf(self) -> bool {
        self.senders@.no_duplicates()
    }

    /// Whether the subscriber is listed.
    pub open spec fn spec_is_subscribed(self, subscriber: u64) -> bool {
        self.senders@.contains(subscriber)
    }

    pub fn new() -> (r: Self)
        ensures
            r.wf(),
            r.senders@.len() == 0,
    {
        ProgramStatesChannels { senders: Vec::new() }
    }

    /// The position of the subscriber in the list, if it is listed.
    fn position(&self, subscriber: u64) -> (r: Option<usize>)
        ensures
            match r {
                Some(i) => i < self.senders@.len() && self.senders@[i as int] == subscriber,
                None => !self.senders@.contains(subscriber),
            },
    {
        let mut i: usize = 0;
        while i < self.senders.len()
            invariant
                i <= self.senders@.len(),
                forall|k: int| 0 <= k < i ==> self.senders@[k] != subscriber,
            decreases self.senders@.len() - i,
        {
            if self.senders[i] == subscriber {
                return Some(i);
            }
            i = i + 1;
        }
        None
    }

    pub fn is_subscribed(&self, subscriber: u64) -> (r: bool)
        ensures
            r == self.spec_is_subscribed(subscriber),
    {
        self.position(subscriber).is_some()
    }

    /// Lists the subscriber, last, unless it is listed already.
    pub fn subscribe(&mut self, subscriber: u64)
        requires
            old(self).wf(),
        ensures
            final(self).wf(),
            final(self).senders@ == if old(self).spec_is_subscribed(subscriber) {
                old(self).senders@
            } else {
                old(self).senders@.push(subscriber)
            },
    {
        if self.position(subscriber).is_none() {
            self.senders.push(subscriber);
        }
    }

    /// Takes the subscriber off the list; the others keep their order.
    pub fn unsubscribe(&mut self, subscriber: u64)
        requires
            old(self).wf(),
        ensures
            final(self).wf(),
            !final(self).spec_is_subscribed(subscriber),
            forall|other: u64|
                other != subscriber ==> final(self).spec_is_subscribed(other) == old(
                    self,
                ).spec_is_subscribed(other),
            final(self).senders@ == old(self).senders@.filter(|listed: u64| listed != subscriber),
    {
        broadcast use vstd::seq_lib::group_seq_properties;

        match self.position(subscriber) {
            None => {
                proof {
                    lemma_filter_keeps_all(self.senders@, subscriber);
                }
            },
            Some(i) => {
                proof {
                    lemma_filter_drops_one(self.senders@, subscriber, i as int);
                }
                let _ = self.senders.remove(i);
            },
        }
    }

    /// One delivery for each subscriber, in the order of the list, each with
    /// its own copy of the snapshot.
    pub fn broadcast(&self, program_states: &Vec<(String, ProgramState)>) -> (r: Vec<Delivery>)
        ensures
            deliveries_reach(r@, self.senders@, states_view(program_states@)),
    {
        let mut deliveries: Vec<Delivery> = Vec::new();
        let mut i: usize = 0;
        while i < self.senders.len()
            invariant
                i <= self.senders@.len(),
                deliveries@.len() == i,
                forall|k: int|
                    0 <= k < i ==> (#[trigger] deliveries@[k]).subscriber == self.senders@[k]
                        && states_view(deliveries@[k].program_states@) == states_view(
                        program_states@,
                    ),
            decreases self.senders@.len() - i,
        {
            deliveries.push(
                Delivery {
                    subscriber: self.senders[i],
                    program_states: clone_program_states(program_states),
                },
            );
            i = i + 1;
        }
        deliveries
    }
}

/// There is exactly one delivery for each subscriber, in order, and each
/// holds the snapshot.
pub open spec fn deliveries_reach(
    deliveries: Seq<Delivery>,
    subscribers: Seq<u64>,
    snapshot: Seq<(Seq<char>, ProgramState)>,
) -> bool {
    &&& deliveries.len() == subscribers.len()
    &&& forall|k: int|
        0 <= k < deliveries.len() ==> (#[trigger] deliveries[k]).subscriber == subscribers[k]
            && states_view(deliveries[k].program_states@) == snapshot
}

proof fn lemma_filter_keeps_all(list: Seq<u64>, subscriber: u64)
    requires
        !list.contains(subscriber),
    ensures
        list.filter(|listed: u64| listed != subscriber) == list,
    decreases list.len(),
{
    reveal(Seq::filter);
    if list.len() > 0 {
        assert(list.drop_last().len() < list.len());
        assert(forall|k: int|
            0 <= k < list.drop_last().len() ==> list.drop_last()[k] == list[k]);
        assert(!list.drop_last().contains(subscriber));
        lemma_filter_keeps_all(list.drop_last(), subscriber);
        assert(list.last() == list[list.len() - 1]);
        assert(list.last() != subscriber);
        assert(list.drop_last().push(list.last()) =~= list);
    }
}

proof fn lemma_filter_drops_one(list: Seq<u64>, subscriber: u64, i: int)
    requires
        list.no_duplicates(),
        0 <= i < list.len(),
        list[i] == subscriber,
    ensures
        list.filter(|listed: u64| listed != subscriber) == list.remove(i),
        list.remove(i).no_duplicates(),
        !list.remove(i).contains(subscriber),
        forall|other: u64| other != subscriber ==> list.remove(i).contains(other) == list.contains(other),
    decreases list.len(),
{
    reveal(Seq::filter);
    let kept = |listed: u64| listed != subscriber;
    assert forall|other: u64| other != subscriber implies list.remove(i).contains(other)
        == list.contains(other) by {
        if list.contains(other) {
            let k = choose|k: int| 0 <= k < list.len() && list[k] == other;
            if k < i {
                assert(list.remove(i)[k] == other);
            } else {
                assert(list.remove(i)[k - 1] == other);
            }
        }
    }
    if i == list.len() - 1 {
        assert(list.remove(i) =~= list.drop_last());
        assert(!list.drop_last().contains(subscriber));
        lemma_filter_keeps_all(list.drop_last(), subscriber);
    } else {
        assert(list.drop_last().no_duplicates());
        lemma_filter_drops_one(list.drop_last(), subscriber, i);
        assert(list.last() != subscriber);
        assert(list.drop_last().remove(i).push(list.last()) =~= list.remove(i));
    }
}

/// The snapshot that every subscriber is sent after a tick and after an
/// event: one delivery for each subscriber that is listed, each with the
/// name and the state that every program has now.
pub fn broadcast_program_states(
    program_fsms: &Vec<ProgramFsm>,
    program_states_channels: &ProgramStatesChannels,
) -> (r: Vec<Delivery>)
    ensures
        deliveries_reach(r@, program_states_channels.senders@, spec_program_states(program_fsms@)),
{
    let states = program_states(program_fsms);
    program_states_channels.broadcast(&states)
}

/// What the supervisor does when the timer fires: one tick of every
/// machine, and then a snapshot for every subscriber.
///
/// The deliveries hold the state that every program has after the tick.
/// `journal` and `Err` are as for [`update_program_fsms`].
pub fn tick(
    program_fsms: &mut Vec<ProgramFsm>,
    program_states_channels: &ProgramStatesChannels,
    now: u64,
    journal: &Vec<Reply>,
) -> (r: Result<Vec<Delivery>, FleetRequest>)
    requires
        all_wf(old(program_fsms)@),
    ensures
        match spec_update_program_fsms(old(program_fsms)@, now, journal@) {
            Ok(after) => r matches Ok(deliveries) && final(program_fsms)@ == after
                && deliveries_reach(
                deliveries@,
                program_states_channels.senders@,
                spec_program_states(after),
            ),
            Err((program, request)) => r matches Err(pending) && pending.program == program
                && pending.request == request && final(program_fsms)@ == old(program_fsms)@,
        },
        all_wf(final(program_fsms)@),
        machine_names(final(program_fsms)@) == machine_names(old(program_fsms)@),
{
    update_program_fsms(program_fsms, now, journal)?;
    Ok(broadcast_program_states(program_fsms, program_states_channels))
}

/// What the supervisor does when a client sends an event: the event is
/// handed to the programs that the expression names, and then there is a
/// snapshot for every subscriber, whether or not a program was found.
///
/// The deliveries hold the state that every program has after the event.
/// `journal` and `Err` are as for [`dispatch_program_event`].
pub fn handle_event(
    program_fsms: &mut Vec<ProgramFsm>,
    program_states_channels: &ProgramStatesChannels,
    event: &ProgramEvent,
    program_expr: &str,
    now: u64,
    journal: &Vec<Reply>,
) -> (r: Result<(ProgramEventsResult, Vec<Delivery>), FleetRequest>)
    requires
        all_wf(old(program_fsms)@),
    ensures
        match spec_dispatch_program_event(
            old(program_fsms)@,
            *event,
            program_expr@,
            now,
            journal@,
        ) {
            Ok((after, answers)) => r matches Ok((result, deliveries)) && final(program_fsms)@
                == after && events_result_agrees(result, program_expr@, answers)
                && deliveries_reach(
                deliveries@,
                program_states_channels.senders@,
                spec_program_states(after),
            ),
            Err((program, request)) => r matches Err(pending) && pending.program == program
                && pending.request == request && final(program_fsms)@ == old(program_fsms)@,
        },
        all_wf(final(program_fsms)@),
        machine_names(final(program_fsms)@) == machine_names(old(program_fsms)@),
{
    let result = dispatch_program_event(program_fsms, event, program_expr, now, journal)?;
    let deliveries = broadcast_program_states(program_fsms, program_states_channels);
    Ok((result, deliveries))
}

/// What an event for the machines from position `from` on leaves: the
/// machines before `from` and those whose name does not match are as they
/// were, every machine keeps its name, the answers that were there stay,
/// and an answer is added exactly if a name matches.
pub proof fn lemma_dispatch_from(
    fsms: Seq<Machine>,
    event: ProgramEvent,
    program_expr: Seq<char>,
    now: u64,
    journal: Seq<Reply>,
    at: nat,
    from: nat,
    answers: Seq<(Seq<char>, MachineResultView)>,
)
    requires
        all_wf(fsms),
        from <= fsms.len(),
    ensures
        spec_dispatch_from(fsms, event, program_expr, now, journal, at, from, answers) matches Ok(
            (after, all),
        ) ==> {
            &&& after.len() == fsms.len()
            &&& all_wf(after)
            &&& all.len() >= answers.len()
            &&& forall|i: int|
                0 <= i < fsms.len() ==> (#[trigger] after[i]).app_context.name
                    == fsms[i].app_context.name
            &&& forall|i: int|
                0 <= i < fsms.len() && (i < from || !spec_program_matches(
                    program_expr,
                    fsms[i].app_context.name@,
                )) ==> #[trigger] after[i] == fsms[i]
            &&& all.len() == answers.len() <==> forall|i: int|
                from <= i < fsms.len() ==> !spec_program_matches(
                    program_expr,
                    (#[trigger] fsms[i]).app_context.name@,
                )
        },
    decreases fsms.len() - from,
{
    if from < fsms.len() {
        let machine = fsms[from as int];
        if !spec_program_matches(program_expr, machine.app_context.name@) {
            lemma_dispatch_from(fsms, event, program_expr, now, journal, at, from + 1, answers);
        } else {
            crate::upkeep::lemma_react_keeps_wf(machine, event, now, journal, at);
            crate::upkeep::lemma_react_keeps_name(machine, event, now, journal, at);
            if let Ok((answer, changed, next)) = machine.spec_react_at(event, now, journal, at) {
                let during = fsms.update(from as int, changed);
                assert(all_wf(during)) by {
                    assert forall|i: int| 0 <= i < during.len() implies (#[trigger] during[i]).wf() by {
                        if i != from {
                            assert(fsms[i].wf());
                        }
                    }
                }
                lemma_dispatch_from(
                    during,
                    event,
                    program_expr,
                    now,
                    journal,
                    next,
                    from + 1,
                    answers.push((machine.app_context.name@, answer)),
                );
            }
        }
    }
}

/// An event changes only the machines whose name the expression matches,
/// and no machine changes its name. No program is found exactly if no name
/// matches, and nothing has changed then.
pub proof fn law_event_reaches_the_matching(
    fsms: Seq<Machine>,
    event: ProgramEvent,
    program_expr: Seq<char>,
    now: u64,
    journal: Seq<Reply>,
)
    requires
        all_wf(fsms),
    ensures
        spec_dispatch_program_event(fsms, event, program_expr, now, journal) matches Ok(
            (after, answers),
        ) ==> {
            &&& after.len() == fsms.len()
            &&& forall|i: int|
                0 <= i < fsms.len() ==> (#[trigger] after[i]).app_context.name
                    == fsms[i].app_context.name
            &&& forall|i: int|
                0 <= i < fsms.len() && !spec_program_matches(
                    program_expr,
                    fsms[i].app_context.name@,
                ) ==> #[trigger] after[i] == fsms[i]
            &&& answers.len() == 0 <==> forall|i: int|
                0 <= i < fsms.len() ==> !spec_program_matches(
                    program_expr,
                    (#[trigger] fsms[i]).app_context.name@,
                )
            &&& answers.len() == 0 ==> after == fsms
        },
{
    lemma_dispatch_from(fsms, event, program_expr, now, journal, 0, 0, Seq::empty());
    if let Ok((after, answers)) = spec_dispatch_program_event(
        fsms,
        event,
        program_expr,
        now,
        journal,
    ) {
        if answers.len() == 0 {
            assert(after =~= fsms);
        }
    }
}

/// The names of the programs that the machines supervise, in order.
pub open spec fn machine_names(fsms: Seq<Machine>) -> Seq<Seq<char>> {
    Seq::new(fsms.len(), |i: int| fsms[i].app_context.name@)
}

/// One machine for each program, in the order of the programs, each as
/// [`new_program_fsm`] makes it. The machines have the names of the
/// programs: where those are ascending, so are these, and ticks and events
/// keep them so.
pub fn new_program_fsms(rendered_config: &Vec<(String, RenderedProgramConfig)>) -> (r: Vec<
    ProgramFsm,
>)
    ensures
        r@.len() == rendered_config@.len(),
        all_wf(r@),
        machine_names(r@) == rendered_names(rendered_config@),
        forall|i: int|
            0 <= i < r@.len() ==> {
                &&& (#[trigger] r@[i]).first_update
                &&& r@[i].app_context.describes_config()
                &&& r@[i].app_context.pristine()
                &&& r@[i].app_context.config.same_as(&rendered_config@[i].1)
                &&& r@[i].context.current_state_key == spec_initial_state(
                    rendered_config@[i].1.program.autostart,
                )
            },
{
    let mut program_fsms: Vec<ProgramFsm> = Vec::new();
    let mut i: usize = 0;
    while i < rendered_config.len()
        invariant
            i <= rendered_config@.len(),
            program_fsms@.len() == i,
            all_wf(program_fsms@),
            forall|k: int|
                0 <= k < i ==> {
                    &&& (#[trigger] program_fsms@[k]).first_update
                    &&& program_fsms@[k].app_context.name@ == rendered_config@[k].0@
                    &&& program_fsms@[k].app_context.describes_config()
                    &&& program_fsms@[k].app_context.pristine()
                    &&& program_fsms@[k].app_context.config.same_as(&rendered_config@[k].1)
                    &&& program_fsms@[k].context.current_state_key == spec_initial_state(
                        rendered_config@[k].1.program.autostart,
                    )
                },
        decreases rendered_config@.len() - i,
    {
        let entry = &rendered_config[i];
        let fsm = new_program_fsm(entry.0.clone(), &entry.1);
        program_fsms.push(fsm);
        i = i + 1;
    }
    assert(machine_names(program_fsms@) =~= rendered_names(rendered_config@));
    program_fsms
}

/// Whether the machines are in ascending order of the names of their
/// programs, so that no two have the same name.
pub fn names_ascending(program_fsms: &Vec<ProgramFsm>) -> (r: bool)
    ensures
        r == ascending(machine_names(program_fsms@)),
{
    let mut i: usize = 1;
    while i < program_fsms.len()
        invariant
            1 <= i,
            forall|k: int|
                0 <= k < i - 1 && k < program_fsms@.len() - 1 ==> name_less(
                    #[trigger] machine_names(program_fsms@)[k],
                    machine_names(program_fsms@)[k + 1],
                ),
        decreases program_fsms@.len() - i,
    {
        if !is_name_less(
            program_fsms[i - 1].app_context.name.as_str(),
            program_fsms[i].app_context.name.as_str(),
        ) {
            assert(!name_less(
                machine_names(program_fsms@)[i - 1],
                machine_names(program_fsms@)[i - 1 + 1],
            ));
            return false;
        }
        i = i + 1;
    }
    true
}

/// Of two broadcasts, one after the other, every subscriber gets both
/// snapshots: the first with the first delivery that is made out to it,
/// the second with the second. No subscriber is left out or served twice,
/// and none gets a snapshot that another does not get.
pub proof fn law_every_snapshot_reaches_every_subscriber(
    subscribers: Seq<u64>,
    first: Seq<(Seq<char>, ProgramState)>,
    second: Seq<(Seq<char>, ProgramState)>,
    first_deliveries: Seq<Delivery>,
    second_deliveries: Seq<Delivery>,
    subscriber: u64,
)
    requires
        subscribers.no_duplicates(),
        subscribers.contains(subscriber),
        deliveries_reach(first_deliveries, subscribers, first),
        deliveries_reach(second_deliveries, subscribers, second),
    ensures
        exists|k: int|
            0 <= k < subscribers.len() && (#[trigger] first_deliveries[k]).subscriber
                == subscriber && states_view(first_deliveries[k].program_states@) == first
                && second_deliveries[k].subscriber == subscriber && states_view(
                second_deliveries[k].program_states@,
            ) == second && forall|other: int|
                0 <= other < subscribers.len() && other != k ==> (
                #[trigger] first_deliveries[other]).subscriber != subscriber
                    && second_deliveries[other].subscriber != subscriber,
{
    let k = choose|k: int| 0 <= k < subscribers.len() && subscribers[k] == subscriber;
    assert(first_deliveries[k].subscriber == subscriber);
    assert(second_deliveries[k].subscriber == subscriber);
    assert forall|other: int| 0 <= other < subscribers.len() && other != k implies (
    #[trigger] first_deliveries[other]).subscriber != subscriber
        && second_deliveries[other].subscriber != subscriber by {
        assert(subscribers[other] != subscribers[k]);
    }
}

} // verus!
