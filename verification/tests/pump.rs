use dual_sink::coordinator::{on_broker_result, on_store_result, start, CoordinatorState};
use dual_sink::messages::{PublishRequest, PumpError};
use dual_sink::pump::{pump_step, run_pump, PumpDecision};

fn ok() -> Result<(), PumpError> {
    Ok(())
}

fn err(msg: &str) -> Result<(), PumpError> {
    Err(PumpError { message: String::from(msg) })
}

#[test]
fn pump_step_continues_on_success() {
    match pump_step(&ok()) {
        PumpDecision::Continue => {}
        PumpDecision::Stop { .. } => panic!("a drained event must not stop the pump"),
    }
}

#[test]
fn pump_step_stops_on_error() {
    match pump_step(&err("poll failed")) {
        PumpDecision::Stop { error } => assert_eq!(error, "poll failed"),
        PumpDecision::Continue => panic!("a polling error must stop the pump"),
    }
}

#[test]
fn pump_stops_at_first_error() {
    let events = vec![ok(), ok(), err("poll failed"), ok(), ok()];
    let (polled, stopped) = run_pump(&events);
    assert_eq!(polled, 3, "nothing is polled past the first error");
    assert!(stopped);
}

#[test]
fn pump_drains_an_error_free_trace() {
    let events = vec![ok(), ok(), ok(), ok()];
    let (polled, stopped) = run_pump(&events);
    assert_eq!(polled, 4);
    assert!(!stopped);
}

#[test]
fn pump_handles_an_empty_trace() {
    let events: Vec<Result<(), PumpError>> = Vec::new();
    let (polled, stopped) = run_pump(&events);
    assert_eq!(polled, 0);
    assert!(!stopped);
}

#[test]
fn pump_stop_leaves_request_handling_unaffected() {
    let events = vec![err("connection reset")];
    let (polled, stopped) = run_pump(&events);
    assert_eq!(polled, 1);
    assert!(stopped);

    let req = PublishRequest { content: String::from("still works") };
    let (state, _action) = start(req);
    let (state, action) = on_store_result(state, Ok(()));
    assert!(action.is_some());
    let state = on_broker_result(state, Ok(()));
    match state {
        CoordinatorState::Finished { reply, .. } => assert_eq!(reply.status, 200),
        _ => panic!("request not settled"),
    }
}
