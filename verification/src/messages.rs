//! Request, reply, and error types shared by the coordinator and the pump.

use vstd::prelude::*;

verus! {

/// One inbound publish request: the caller-supplied text payload. It lives
/// for the duration of one request and carries no other state.
pub struct PublishRequest {
    pub content: String,
}

impl View for PublishRequest {
    type V = Seq<char>;

    open spec fn view(&self) -> Seq<char> {
        self.content@
    }
}

/// A failure reported by the persistent store backend (connectivity,
/// constraint violation, pool timeout), carrying the backend's message.
pub struct StoreError {
    pub message: String,
}

impl View for StoreError {
    type V = Seq<char>;

    open spec fn view(&self) -> Seq<char> {
        self.message@
    }
}

/// A failure reported by the broker publish call (not connected, transport
/// error, broker rejection), carrying the backend's message.
pub struct BrokerError {
    pub message: String,
}

impl View for BrokerError {
    type V = Seq<char>;

    open spec fn view(&self) -> Seq<char> {
        self.message@
    }
}

/// A failure of one poll of the broker's event stream.
pub struct PumpError {
    pub message: String,
}

impl View for PumpError {
    type V = Seq<char>;

    open spec fn view(&self) -> Seq<char> {
        self.message@
    }
}

/// The outcome handed back to the transport layer: a status code and a body.
pub struct HttpReply {
    pub status: u16,
    pub body: String,
}

/// The mathematical value of a reply.
#[verifier::ext_equal]
pub struct ReplyModel {
    pub status: int,
    pub body: Seq<char>,
}

impl View for HttpReply {
    type V = ReplyModel;

    open spec fn view(&self) -> ReplyModel {
        ReplyModel { status: self.status as int, body: self.body@ }
    }
}

/// A backend outcome as specifications see it: success, or the backend's
/// message.
pub open spec fn outcome_view<E: View<V = Seq<char>>>(r: Result<(), E>) -> Result<(), Seq<char>> {
    match r {
        Ok(_) => Ok(()),
        Err(e) => Err(e@),
    }
}

} // verus!
