//! From what the machines hold to what goes over the wire.

use crate::chay_proto::{
    event_results_view, statuses_view, ChaydServiceGetStatusResponse,
    ChaydServiceRestartResponse, ChaydServiceStartResponse, ChaydServiceStopResponse,
    EventOutcome, EventOutcomeView, ProgramEventResult, ProgramStatus,
};
use crate::fsm::{machine_result_view, MachineResult, MachineResultView};
use crate::program_fsm::ProgramState;
use vstd::prelude::*;

verus! {

pub open spec fn spec_proto_from_program_state(
    program_state: ProgramState,
) -> crate::chay_proto::ProgramState {
    match program_state {
        ProgramState::Stopped => crate::chay_proto::ProgramState::Stopped,
        ProgramState::Exited => crate::chay_proto::ProgramState::Exited,
        ProgramState::Backoff => crate::chay_proto::ProgramState::Backoff,
        ProgramState::Starting => crate::chay_proto::ProgramState::Starting,
        ProgramState::Running => crate::chay_proto::ProgramState::Running,
        ProgramState::Stopping => crate::chay_proto::ProgramState::Stopping,
        ProgramState::Exiting => crate::chay_proto::ProgramState::Exiting,
    }
}

/// The state of a program as it goes over the wire: the state of the same
/// name.
pub fn proto_from_program_state(program_state: ProgramState) -> (r:
    crate::chay_proto::ProgramState)
    ensures
        r == spec_proto_from_program_state(program_state),
{
    match program_state {
        ProgramState::Stopped => crate::chay_proto::ProgramState::Stopped,
        ProgramState::Exited => crate::chay_proto::ProgramState::Exited,
        ProgramState::Backoff => crate::chay_proto::ProgramState::Backoff,
        ProgramState::Starting => crate::chay_proto::ProgramState::Starting,
        ProgramState::Running => crate::chay_proto::ProgramState::Running,
        ProgramState::Stopping => crate::chay_proto::ProgramState::Stopping,
        ProgramState::Exiting => crate::chay_proto::ProgramState::Exiting,
    }
}

/// An answer as it goes over the wire: a success keeps its message, or has
/// the empty message if it had none, and a refusal keeps its message.
pub open spec fn spec_proto_program_event_result(machine_result: MachineResultView) -> Option<
    EventOutcomeView,
> {
    match machine_result {
        Ok(Some(message)) => Some(EventOutcomeView::Accepted { message }),
        Ok(None) => Some(EventOutcomeView::Accepted { message: Seq::empty() }),
        Err(message) => Some(EventOutcomeView::Refused { message }),
    }
}

pub fn proto_program_event_result_from_machine_result(machine_result: &MachineResult) -> (r:
    ProgramEventResult)
    ensures
        r@ == spec_proto_program_event_result(machine_result_view(*machine_result)),
{
    match machine_result {
        Ok(Some(message)) => ProgramEventResult {
            result: Some(EventOutcome::Accepted { message: message.clone() }),
        },
        Ok(None) => ProgramEventResult {
            result: Some(EventOutcome::Accepted { message: String::new() }),
        },
        Err(message) => ProgramEventResult {
            result: Some(EventOutcome::Refused { message: message.clone() }),
        },
    }
}

/// The answers of the programs as they go over the wire: each under the
/// name of its program, in the same order.
pub open spec fn spec_proto_program_event_results(
    program_events_results: Seq<(String, MachineResult)>,
) -> Seq<(Seq<char>, Option<EventOutcomeView>)> {
    Seq::new(
        program_events_results.len(),
        |i: int|
            (
                program_events_results[i].0@,
                spec_proto_program_event_result(machine_result_view(program_events_results[i].1)),
            ),
    )
}

fn proto_program_event_results(program_events_results: &Vec<(String, MachineResult)>) -> (r: Vec<
    (String, ProgramEventResult),
>)
    ensures
        event_results_view(r@) == spec_proto_program_event_results(program_events_results@),
{
    let mut results: Vec<(String, ProgramEventResult)> = Vec::new();
    let mut i: usize = 0;
    while i < program_events_results.len()
        invariant
            i <= program_events_results@.len(),
            results@.len() == i,
            forall|k: int|
                0 <= k < i ==> (#[trigger] results@[k]).0@ == program_events_results@[k].0@
                    && results@[k].1@ == spec_proto_program_event_result(
                    machine_result_view(program_events_results@[k].1),
                ),
        decreases program_events_results@.len() - i,
    {
        let entry = &program_events_results[i];
        results.push((entry.0.clone(), proto_program_event_result_from_machine_result(&entry.1)));
        i = i + 1;
    }
    assert(event_results_view(results@) =~= spec_proto_program_event_results(
        program_events_results@,
    ));
    results
}

pub fn proto_start_response_from_program_events_results(
    program_events_results: &Vec<(String, MachineResult)>,
) -> (r: ChaydServiceStartResponse)
    ensures
        event_results_view(r.program_event_results@) == spec_proto_program_event_results(
            program_events_results@,
        ),
{
    ChaydServiceStartResponse {
        program_event_results: proto_program_event_results(program_events_results),
    }
}

pub fn proto_stop_response_from_program_events_results(
    program_events_results: &Vec<(String, MachineResult)>,
) -> (r: ChaydServiceStopResponse)
    ensures
        event_results_view(r.program_event_results@) == spec_proto_program_event_results(
            program_events_results@,
        ),
{
    ChaydServiceStopResponse {
        program_event_results: proto_program_event_results(program_events_results),
    }
}

pub fn proto_restart_response_from_program_events_results(
    program_events_results: &Vec<(String, MachineResult)>,
) -> (r: ChaydServiceRestartResponse)
    ensures
        event_results_view(r.program_event_results@) == spec_proto_program_event_results(
            program_events_results@,
        ),
{
    ChaydServiceRestartResponse {
        program_event_results: proto_program_event_results(program_events_results),
    }
}

/// A snapshot as it goes over the wire: the name and the state of every
/// program, in the same order.
pub open spec fn spec_proto_program_statuses(program_states: Seq<(String, ProgramState)>) -> Seq<
    (Seq<char>, crate::chay_proto::ProgramState),
> {
    Seq::new(
        program_states.len(),
        |i: int| (program_states[i].0@, spec_proto_from_program_state(program_states[i].1)),
    )
}

pub fn proto_status_response_from_program_states(
    program_states: &Vec<(String, ProgramState)>,
) -> (r: ChaydServiceGetStatusResponse)
    ensures
        statuses_view(r.program_statuses@) == spec_proto_program_statuses(program_states@),
{
    let mut statuses: Vec<ProgramStatus> = Vec::new();
    let mut i: usize = 0;
    while i < program_states.len()
        invariant
            i <= program_states@.len(),
            statuses@.len() == i,
            forall|k: int|
                0 <= k < i ==> (#[trigger] statuses@[k]).name@ == program_states@[k].0@
                    && statuses@[k].state == spec_proto_from_program_state(program_states@[k].1),
        decreases program_states@.len() - i,
    {
        let entry = &program_states[i];
        statuses.push(
            ProgramStatus { name: entry.0.clone(), state: proto_from_program_state(entry.1) },
        );
        i = i + 1;
    }
    assert(statuses_view(statuses@) =~= spec_proto_program_statuses(program_states@));
    ChaydServiceGetStatusResponse { program_statuses: statuses }
}

} // verus!
