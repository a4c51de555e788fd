//! The background event pump's decision logic.
//!
//! The pump drains the broker's event stream for the whole process lifetime:
//! each successful poll is discarded, and the first polling error terminates
//! the pump for good — there is no reconnect.

use vstd::prelude::*;

use crate::messages::{outcome_view, PumpError};

verus! {

/// What the pump does after one poll of the event stream.
pub enum PumpDecision {
    /// The event was drained; keep polling.
    Continue,
    /// Polling failed; the pump stops for good, carrying the error's text.
    Stop { error: String },
}

/// The mathematical value of a pump decision.
#[verifier::ext_equal]
pub enum PumpDecisionModel {
    Continue,
    Stop { error: Seq<char> },
}

impl View for PumpDecision {
    type V = PumpDecisionModel;

    open spec fn view(&self) -> PumpDecisionModel {
        match self {
            PumpDecision::Continue => PumpDecisionModel::Continue,
            PumpDecision::Stop { error } => PumpDecisionModel::Stop { error: error@ },
        }
    }
}

/// The decision for one poll outcome: drain successes, stop at any error.
pub open spec fn spec_pump_step(res: Result<(), Seq<char>>) -> PumpDecisionModel {
    match res {
        Ok(_) => PumpDecisionModel::Continue,
        Err(msg) => PumpDecisionModel::Stop { error: msg },
    }
}

/// Decide on one poll outcome. Successful polls carry protocol events
/// (connection acks, publish acks, pings) that are discarded; any polling
/// error terminates the pump.
pub fn pump_step(res: &Result<(), PumpError>) -> (d: PumpDecision)
    ensures
        d@ == spec_pump_step(outcome_view(*res)),
{
    match res {
        Ok(_) => PumpDecision::Continue,
        Err(e) => PumpDecision::Stop { error: e.message.clone() },
    }
}

/// Drain a finite trace of poll outcomes as the pump would: poll in order,
/// discard successes, and stop at the first error. Returns how many polls
/// were made and whether an error stopped the pump: every polled outcome but
/// the last is a success, and the pump polls past the whole trace exactly
/// when no outcome in it is an error.
pub fn run_pump(events: &Vec<Result<(), PumpError>>) -> (out: (usize, bool))
    ensures
        out.0 <= events@.len(),
        forall|j: int| 0 <= j < out.0 - 1 ==> events@[j] is Ok,
        out.1 <==> (out.0 >= 1 && events@[out.0 - 1] is Err),
        !out.1 ==> out.0 == events@.len(),
{
    let mut i: usize = 0;
    loop
        invariant
            i <= events@.len(),
            forall|j: int| 0 <= j < i ==> events@[j] is Ok,
        decreases events@.len() - i,
    {
        if i == events.len() {
            return (i, false);
        }
        let d = pump_step(&events[i]);
        i = i + 1;
        match d {
            PumpDecision::Continue => {}
            PumpDecision::Stop { error: _ } => {
                return (i, true);
            }
        }
    }
}

} // verus!
