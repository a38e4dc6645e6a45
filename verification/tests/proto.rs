use chay::chay_proto;
use chay::chay_proto::{EventOutcome, ProgramEventResult, ProgramStatus};
use chay::fsm::MachineResult;
use chay::program_fsm::ProgramState;
use chay::proto_converters::{
    proto_from_program_state, proto_program_event_result_from_machine_result,
    proto_restart_response_from_program_events_results,
    proto_start_response_from_program_events_results, proto_status_response_from_program_states,
    proto_stop_response_from_program_events_results,
};

#[test]
fn every_state_goes_over_the_wire_under_its_name() {
    assert_eq!(proto_from_program_state(ProgramState::Stopped), chay_proto::ProgramState::Stopped);
    assert_eq!(proto_from_program_state(ProgramState::Exited), chay_proto::ProgramState::Exited);
    assert_eq!(proto_from_program_state(ProgramState::Backoff), chay_proto::ProgramState::Backoff);
    assert_eq!(proto_from_program_state(ProgramState::Starting), chay_proto::ProgramState::Starting);
    assert_eq!(proto_from_program_state(ProgramState::Running), chay_proto::ProgramState::Running);
    assert_eq!(proto_from_program_state(ProgramState::Stopping), chay_proto::ProgramState::Stopping);
    assert_eq!(proto_from_program_state(ProgramState::Exiting), chay_proto::ProgramState::Exiting);
}

fn accepted(message: &str) -> ProgramEventResult {
    ProgramEventResult { result: Some(EventOutcome::Accepted { message: message.to_string() }) }
}

fn refused(message: &str) -> ProgramEventResult {
    ProgramEventResult { result: Some(EventOutcome::Refused { message: message.to_string() }) }
}

#[test]
fn answers_keep_their_messages() {
    let with_message: MachineResult = Ok(Some("Already running".to_string()));
    let without: MachineResult = Ok(None);
    let refusal: MachineResult = Err("Cannot start while stopping".to_string());
    assert_eq!(
        proto_program_event_result_from_machine_result(&with_message),
        accepted("Already running")
    );
    assert_eq!(proto_program_event_result_from_machine_result(&without), accepted(""));
    assert_eq!(
        proto_program_event_result_from_machine_result(&refusal),
        refused("Cannot start while stopping")
    );
}

fn answers() -> Vec<(String, MachineResult)> {
    vec![
        ("a".to_string(), Ok(None)),
        ("b".to_string(), Err("Cannot start while exiting".to_string())),
        ("c".to_string(), Ok(Some("Already starting".to_string()))),
    ]
}

fn wire_answers() -> Vec<(String, ProgramEventResult)> {
    vec![
        ("a".to_string(), accepted("")),
        ("b".to_string(), refused("Cannot start while exiting")),
        ("c".to_string(), accepted("Already starting")),
    ]
}

#[test]
fn start_response_holds_every_answer_by_name() {
    let response = proto_start_response_from_program_events_results(&answers());
    assert_eq!(response.program_event_results, wire_answers());
}

#[test]
fn stop_response_holds_every_answer_by_name() {
    let response = proto_stop_response_from_program_events_results(&answers());
    assert_eq!(response.program_event_results, wire_answers());
}

#[test]
fn restart_response_holds_every_answer_by_name() {
    let response = proto_restart_response_from_program_events_results(&answers());
    assert_eq!(response.program_event_results, wire_answers());
    let empty = proto_restart_response_from_program_events_results(&Vec::new());
    assert!(empty.program_event_results.is_empty());
}

#[test]
fn status_response_holds_every_program() {
    let snapshot = vec![
        ("db".to_string(), ProgramState::Running),
        ("web".to_string(), ProgramState::Backoff),
    ];
    let response = proto_status_response_from_program_states(&snapshot);
    assert_eq!(
        response.program_statuses,
        vec![
            ProgramStatus { name: "db".to_string(), state: chay_proto::ProgramState::Running },
            ProgramStatus { name: "web".to_string(), state: chay_proto::ProgramState::Backoff },
        ]
    );
}
