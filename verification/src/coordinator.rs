//! The per-request publish coordinator.
//!
//! One request is driven through two independent sinks with a fixed policy:
//! the durable store write is the gating step; only when it succeeds is the
//! broker publish requested, with the fixed topic, at-least-once quality and
//! retain off. A store failure short-circuits the request; a broker failure
//! after the store write leaves the stored row in place — an accepted
//! inconsistency window, not rolled back.
//!
//! The coordinator is a pure state machine: it emits the action to perform
//! and the caller feeds the backend's outcome back in. It keeps no state
//! across requests.

use vstd::prelude::*;
use vstd::pervasive::unreached;
use vstd::string::StringExecFns;

use crate::messages::{outcome_view, BrokerError, HttpReply, PublishRequest, ReplyModel, StoreError};

verus! {

/// Delivery guarantee requested from the broker.
#[derive(Clone, Copy, Debug, PartialEq, Eq, Structural)]
pub enum QualityOfService {
    /// Fire and forget: the broker may drop the message.
    AtMostOnce,
    /// The broker may redeliver but never silently drops before acknowledging.
    AtLeastOnce,
    /// Delivered exactly once.
    ExactlyOnce,
}

/// The topic every request publishes to.
pub fn publish_topic() -> (t: &'static str)
    ensures
        t@ == "messages/secure/api"@,
{
    "messages/secure/api"
}

/// An effect the coordinator asks its caller to perform against a backend.
pub enum Action {
    /// Insert the content as one new row in the durable store.
    StoreInsert { content: String },
    /// Publish the payload on the broker.
    BrokerPublish { topic: String, qos: QualityOfService, retain: bool, payload: String },
}

/// The mathematical value of an action.
#[verifier::ext_equal]
pub enum ActionModel {
    StoreInsert { content: Seq<char> },
    BrokerPublish { topic: Seq<char>, qos: QualityOfService, retain: bool, payload: Seq<char> },
}

impl View for Action {
    type V = ActionModel;

    open spec fn view(&self) -> ActionModel {
        match self {
            Action::StoreInsert { content } => ActionModel::StoreInsert { content: content@ },
            Action::BrokerPublish { topic, qos, retain, payload } => ActionModel::BrokerPublish {
                topic: topic@,
                qos: *qos,
                retain: *retain,
                payload: payload@,
            },
        }
    }
}

/// Where one request stands.
pub enum CoordinatorState {
    /// The store insert has been requested and its outcome is awaited.
    AwaitingStore { content: String },
    /// The store write succeeded; the broker publish outcome is awaited.
    AwaitingBroker { content: String },
    /// The request is settled: the reply to send, and whether each sink
    /// took the message.
    Finished { reply: HttpReply, stored: bool, published: bool },
}

/// The mathematical value of a coordinator state.
#[verifier::ext_equal]
pub enum StateModel {
    AwaitingStore { content: Seq<char> },
    AwaitingBroker { content: Seq<char> },
    Finished { reply: ReplyModel, stored: bool, published: bool },
}

impl View for CoordinatorState {
    type V = StateModel;

    open spec fn view(&self) -> StateModel {
        match self {
            CoordinatorState::AwaitingStore { content } => StateModel::AwaitingStore {
                content: content@,
            },
            CoordinatorState::AwaitingBroker { content } => StateModel::AwaitingBroker {
                content: content@,
            },
            CoordinatorState::Finished { reply, stored, published } => StateModel::Finished {
                reply: reply@,
                stored: *stored,
                published: *published,
            },
        }
    }
}

/// The one publish action a request with this payload may give rise to:
/// fixed topic, at-least-once quality, retain off.
pub open spec fn publish_action(payload: Seq<char>) -> ActionModel {
    ActionModel::BrokerPublish {
        topic: "messages/secure/api"@,
        qos: QualityOfService::AtLeastOnce,
        retain: false,
        payload,
    }
}

/// Starting a request: remember the content and ask for the store insert.
pub open spec fn spec_start(content: Seq<char>) -> (StateModel, ActionModel) {
    (StateModel::AwaitingStore { content }, ActionModel::StoreInsert { content })
}

/// The store outcome settles whether the broker is consulted at all: success
/// requests the publish; failure settles the request with the store's
/// message and no publish action.
pub open spec fn spec_on_store_result(content: Seq<char>, res: Result<(), Seq<char>>) -> (
    StateModel,
    Option<ActionModel>,
) {
    match res {
        Ok(_) => (StateModel::AwaitingBroker { content }, Some(publish_action(content))),
        Err(msg) => (
            StateModel::Finished {
                reply: ReplyModel { status: 500, body: "DB error: "@ + msg },
                stored: false,
                published: false,
            },
            None,
        ),
    }
}

/// The broker outcome settles the request. Either way the store row written
/// before it stays in place.
pub open spec fn spec_on_broker_result(res: Result<(), Seq<char>>) -> StateModel {
    match res {
        Ok(_) => StateModel::Finished {
            reply: ReplyModel { status: 200, body: "Message published and saved"@ },
            stored: true,
            published: true,
        },
        Err(msg) => StateModel::Finished {
            reply: ReplyModel { status: 500, body: "MQTT error: "@ + msg },
            stored: true,
            published: false,
        },
    }
}

/// The settled state of one request as a function of the content and the two
/// backend outcomes. The broker outcome is consulted only when the store
/// outcome is success.
pub open spec fn spec_request_outcome(
    content: Seq<char>,
    store: Result<(), Seq<char>>,
    broker: Result<(), Seq<char>>,
) -> StateModel {
    match store {
        Ok(_) => spec_on_broker_result(broker),
        Err(_) => spec_on_store_result(content, store).0,
    }
}

/// Begin handling one request: take ownership of the content and emit the
/// store insert — always the first and gating step.
pub fn start(req: PublishRequest) -> (out: (CoordinatorState, Action))
    ensures
        (out.0@, out.1@) == spec_start(req@),
{
    let content = req.content;
    let for_store = content.clone();
    (CoordinatorState::AwaitingStore { content }, Action::StoreInsert { content: for_store })
}

/// Feed the store outcome in. On success the broker publish is requested
/// with the same content; on failure the request settles at once with the
/// store's message and no publish action is emitted.
pub fn on_store_result(state: CoordinatorState, res: Result<(), StoreError>) -> (out: (
    CoordinatorState,
    Option<Action>,
))
    requires
        state is AwaitingStore,
    ensures
        out.0@ == spec_on_store_result(state->AwaitingStore_content@, outcome_view(res)).0,
        (match out.1 {
            Some(a) => spec_on_store_result(state->AwaitingStore_content@, outcome_view(res)).1
                == Some(a@),
            None => spec_on_store_result(state->AwaitingStore_content@, outcome_view(res)).1
                is None,
        }),
{
    match state {
        CoordinatorState::AwaitingStore { content } => match res {
            Ok(_) => {
                let payload = content.clone();
                let action = Action::BrokerPublish {
                    topic: String::from_str(publish_topic()),
                    qos: QualityOfService::AtLeastOnce,
                    retain: false,
                    payload,
                };
                (CoordinatorState::AwaitingBroker { content }, Some(action))
            }
            Err(e) => {
                let mut body = String::from_str("DB error: ");
                body.append(e.message.as_str());
                (
                    CoordinatorState::Finished {
                        reply: HttpReply { status: 500, body },
                        stored: false,
                        published: false,
                    },
                    None,
                )
            }
        },
        _ => unreached(),
    }
}

/// Feed the broker outcome in and settle the request. Success replies with
/// the confirmation body; failure replies with the broker's message — and in
/// both outcomes the row written by the store stays in place.
pub fn on_broker_result(state: CoordinatorState, res: Result<(), BrokerError>) -> (out:
    CoordinatorState)
    requires
        state is AwaitingBroker,
    ensures
        out@ == spec_on_broker_result(outcome_view(res)),
{
    match res {
        Ok(_) => CoordinatorState::Finished {
            reply: HttpReply {
                status: 200,
                body: String::from_str("Message published and saved"),
            },
            stored: true,
            published: true,
        },
        Err(e) => {
            let mut body = String::from_str("MQTT error: ");
            body.append(e.message.as_str());
            CoordinatorState::Finished {
                reply: HttpReply { status: 500, body },
                stored: true,
                published: false,
            }
        }
    }
}

/// Ordering law: a broker publish action exists only when the store result
/// is success — and then it is exactly the fixed publish of the request's
/// content.
pub proof fn lemma_publish_only_after_store_success(content: Seq<char>, res: Result<(), Seq<char>>)
    ensures
        spec_on_store_result(content, res).1 is Some ==> res is Ok,
        res is Ok ==> spec_on_store_result(content, res).1 == Some(publish_action(content)),
{
}

/// Short-circuit law: a store failure settles the request at once with a
/// server error carrying the store's message, and no publish action is
/// emitted — neither sink holds the message.
pub proof fn lemma_store_failure_short_circuits(content: Seq<char>, msg: Seq<char>)
    ensures
        ({
            let (s, a) = spec_on_store_result(content, Err(msg));
            &&& a is None
            &&& s matches StateModel::Finished { reply, stored, published } && !stored
                && !published && reply.status == 500 && reply.body == "DB error: "@ + msg
        }),
{
}

/// Partial-failure law: when the store succeeded and the broker publish
/// failed, the settled state still records the stored row — it is not rolled
/// back — and the reply is a server error carrying the broker's message.
pub proof fn lemma_partial_failure_keeps_row(content: Seq<char>, msg: Seq<char>)
    ensures
        ({
            let s = spec_request_outcome(content, Ok(()), Err(msg));
            s matches StateModel::Finished { reply, stored, published } && stored && !published
                && reply.status == 500 && reply.body == "MQTT error: "@ + msg
        }),
{
}

/// Visibility law: over every pair of backend outcomes, the settled state
/// records a stored row exactly when the store result is success, a
/// delivered publish exactly when both results are success, and a success
/// status exactly when both results are success.
pub proof fn lemma_outcome_flags(
    content: Seq<char>,
    store: Result<(), Seq<char>>,
    broker: Result<(), Seq<char>>,
)
    ensures
        ({
            let s = spec_request_outcome(content, store, broker);
            &&& s is Finished
            &&& s->stored == store is Ok
            &&& s->published == (store is Ok && broker is Ok)
            &&& s->reply.status == if store is Ok && broker is Ok { 200int } else { 500int }
        }),
{
}

/// Repeats law: the coordinator keeps no state across requests — its actions
/// are a function of the request's content alone. A repeated submission of
/// the same content therefore issues its own store insert and its own
/// publish of that same content; nothing is deduplicated.
pub proof fn lemma_repeats_independent(content: Seq<char>)
    ensures
        spec_start(content).1 == (ActionModel::StoreInsert { content }),
        spec_on_store_result(content, Ok(())).1 == Some(publish_action(content)),
        publish_action(content)->payload == content,
{
}

} // verus!
