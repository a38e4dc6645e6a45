//! The messages that go over the wire, as plain values.

use vstd::prelude::*;

verus! {

/// The state of a program as a client is told it.
#[derive(Clone, Copy, Debug, PartialEq, Eq, Structural)]
pub enum ProgramState {
    /// What a message holds that names no state.
    Unspecified,
    Stopped,
    Exited,
    Backoff,
    Starting,
    Running,
    Stopping,
    Exiting,
}

/// How a program took an event: it went along, perhaps with a remark, or
/// it refused, with the reason.
#[derive(Debug, PartialEq, Eq)]
pub enum EventOutcome {
    Accepted { message: String },
    Refused { message: String },
}

/// What one program answered to an event.
#[derive(Debug, PartialEq, Eq)]
pub struct ProgramEventResult {
    pub result: Option<EventOutcome>,
}

/// The name and the state of one program.
#[derive(Debug, PartialEq, Eq)]
pub struct ProgramStatus {
    pub name: String,
    pub state: ProgramState,
}

/// The answer to a request for the status: one snapshot.
#[derive(Debug, PartialEq, Eq)]
pub struct ChaydServiceGetStatusResponse {
    pub program_statuses: Vec<ProgramStatus>,
}

/// The answer to a request to start programs: what each answered, by name.
#[derive(Debug, PartialEq, Eq)]
pub struct ChaydServiceStartResponse {
    pub program_event_results: Vec<(String, ProgramEventResult)>,
}

/// The answer to a request to stop programs: what each answered, by name.
#[derive(Debug, PartialEq, Eq)]
pub struct ChaydServiceStopResponse {
    pub program_event_results: Vec<(String, ProgramEventResult)>,
}

/// The answer to a request to restart programs: what each answered, by
/// name.
#[derive(Debug, PartialEq, Eq)]
pub struct ChaydServiceRestartResponse {
    pub program_event_results: Vec<(String, ProgramEventResult)>,
}

/// The characters of an outcome.
pub enum EventOutcomeView {
    Accepted { message: Seq<char> },
    Refused { message: Seq<char> },
}

impl ProgramEventResult {
    pub open spec fn view(&self) -> Option<EventOutcomeView> {
        match self.result {
            Some(EventOutcome::Accepted { message }) => Some(
                EventOutcomeView::Accepted { message: message@ },
            ),
            Some(EventOutcome::Refused { message }) => Some(
                EventOutcomeView::Refused { message: message@ },
            ),
            None => None,
        }
    }
}

/// The characters of the answers of a response.
pub open spec fn event_results_view(results: Seq<(String, ProgramEventResult)>) -> Seq<
    (Seq<char>, Option<EventOutcomeView>),
> {
    Seq::new(results.len(), |i: int| (results[i].0@, results[i].1@))
}

/// The characters and states of a status response.
pub open spec fn statuses_view(statuses: Seq<ProgramStatus>) -> Seq<(Seq<char>, ProgramState)> {
    Seq::new(statuses.len(), |i: int| (statuses[i].name@, statuses[i].state))
}

} // verus!
