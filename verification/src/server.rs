//! The accept loop: one connection at a time, until a signal interrupts the
//! waiting.

use crate::document::Decoded;
use crate::framing::{
    frame_response, frame_step, framed_response, FrameModel, FrameState, Framer,
};
use crate::protocol::{request_of_decoded, Reason, Request, RequestModel};
use crate::response::{invalid_text, reason_text, Response, ResponseModel};
use vstd::prelude::*;

verus! {

/// How long the service waits for a client to send, in milliseconds.
pub const TIMEOUT_MS: u64 = 250;

/// What waiting for a connection gave.
#[derive(Clone, Copy, Debug, PartialEq, Eq, Structural)]
pub enum Accepted {
    /// A client connected.
    Connection,
    /// A signal interrupted the waiting.
    Interrupted,
    /// Waiting failed.
    Failed,
}

/// What the listener yields next.
#[derive(Clone, Copy, Debug, PartialEq, Eq, Structural)]
pub enum Yield {
    /// A connection; reads on it are to time out after this many
    /// milliseconds.
    Connection { read_timeout_ms: u64 },
    /// The end of service.
    End,
    /// An error.
    Failure,
}

/// Where the server stands.
#[derive(Clone, Copy, Debug, PartialEq, Eq, Structural)]
pub enum ServerState {
    /// Waiting for a connection.
    Listening,
    /// A connection is open; its response has not been sent.
    Serving,
    /// Service is over.
    Stopped,
}

/// What happened to the server.
#[derive(Clone, Copy, Debug, PartialEq, Eq, Structural)]
pub enum ServerEvent {
    /// Waiting for a connection ended, and the listener yielded this.
    Yielded(Yield),
    /// The response was written, or could not be, and the connection closed.
    Closed,
}

/// What the listener yields for an outcome of waiting; `timeout_set` says
/// whether the read timeout could be set on the connection.
pub open spec fn yielded(accepted: Accepted, timeout_set: bool) -> Yield {
    match accepted {
        Accepted::Interrupted => Yield::End,
        Accepted::Failed => Yield::Failure,
        Accepted::Connection => if timeout_set {
            Yield::Connection { read_timeout_ms: 250 }
        } else {
            Yield::Failure
        },
    }
}

/// The server after an event. A connection is served to its end before the
/// next is waited for; the end of service is final; a failure leaves the
/// server listening.
pub open spec fn server_transition(state: ServerState, event: ServerEvent) -> ServerState {
    match (state, event) {
        (ServerState::Listening, ServerEvent::Yielded(Yield::Connection { .. })) => ServerState::Serving,
        (ServerState::Listening, ServerEvent::Yielded(Yield::End)) => ServerState::Stopped,
        (ServerState::Listening, ServerEvent::Yielded(Yield::Failure)) => ServerState::Listening,
        (ServerState::Serving, ServerEvent::Closed) => ServerState::Listening,
        (state, _) => state,
    }
}

/// The listener of requests, as far as it decides.
#[derive(Clone, Copy, Debug, PartialEq, Eq, Structural)]
pub struct RequestListener {
    state: ServerState,
}

impl View for RequestListener {
    type V = ServerState;

    closed spec fn view(&self) -> ServerState {
        self.state
    }
}

impl RequestListener {
    /// A listener that waits for its first connection.
    pub fn new() -> (r: RequestListener)
        ensures
            r@ == ServerState::Listening,
    {
        RequestListener { state: ServerState::Listening }
    }

    /// Whether the listener may wait for a connection now.
    pub fn may_accept(&self) -> (r: bool)
        ensures
            r == (self@ == ServerState::Listening),
    {
        match self.state {
            ServerState::Listening => true,
            _ => false,
        }
    }

    /// Takes in how waiting for a connection ended, and says what to yield.
    pub fn next(&mut self, accepted: Accepted, timeout_set: bool) -> (r: Option<Yield>)
        ensures
            old(self)@ != ServerState::Listening ==> r is None && final(self)@ == old(self)@,
            old(self)@ == ServerState::Listening ==> r == Some(yielded(accepted, timeout_set))
                && final(self)@ == server_transition(
                old(self)@,
                ServerEvent::Yielded(yielded(accepted, timeout_set)),
            ),
    {
        match self.state {
            ServerState::Listening => {},
            _ => {
                return None;
            },
        }
        match accepted {
            Accepted::Interrupted => {
                self.state = ServerState::Stopped;
                Some(Yield::End)
            },
            Accepted::Failed => Some(Yield::Failure),
            Accepted::Connection => {
                if timeout_set {
                    self.state = ServerState::Serving;
                    Some(Yield::Connection { read_timeout_ms: TIMEOUT_MS })
                } else {
                    Some(Yield::Failure)
                }
            },
        }
    }

    /// Takes in that the connection was answered and closed.
    pub fn closed(&mut self)
        ensures
            final(self)@ == server_transition(old(self)@, ServerEvent::Closed),
    {
        match self.state {
            ServerState::Serving => {
                self.state = ServerState::Listening;
            },
            _ => {},
        }
    }
}

/// One connection: its request is read, judged, and answered once.
#[derive(Debug)]
pub struct RequestConnection {
    framer: Framer,
}

impl View for RequestConnection {
    type V = FrameModel;

    closed spec fn view(&self) -> FrameModel {
        self.framer@
    }
}

/// What a decoded body leads to: the request to serve, or the response that
/// says why there is none.
pub open spec fn judged(decoded: Decoded, detail: Seq<char>) -> Result<RequestModel, ResponseModel> {
    match request_of_decoded(decoded) {
        RequestModel::Invalid { reason } => Err(
            ResponseModel::Error(invalid_text(reason, detail)),
        ),
        request => Ok(request),
    }
}

impl RequestConnection {
    /// A connection of which nothing has been read.
    pub fn new() -> (r: RequestConnection)
        ensures
            r@ == (FrameModel { body: Seq::empty(), state: FrameState::Reading }),
    {
        RequestConnection { framer: Framer::new() }
    }

    /// Takes one more line of the request, and says whether more are wanted.
    pub fn read_line(&mut self, line: &[u8]) -> (r: FrameState)
        ensures
            final(self)@ == frame_step(old(self)@, line@),
            r == final(self)@.state,
    {
        self.framer.push_line(line)
    }

    /// Ends the reading: the body of the request, or the response to a
    /// request that ended early or was too large.
    pub fn read_request(self) -> (r: Result<Vec<u8>, Response>)
        ensures
            match self@.state {
                FrameState::Complete => r matches Ok(body) && body@ == self@.body,
                FrameState::Reading => r matches Err(response) && response@
                    == ResponseModel::Error(reason_text(Reason::Incomplete)),
                FrameState::TooLarge => r matches Err(response) && response@
                    == ResponseModel::Error(reason_text(Reason::TooLarge)),
            },
    {
        proof {
            reveal_strlit("");
        }
        match self.framer.finish() {
            Ok(body) => Ok(body),
            Err(reason) => Err(Response::invalid(reason, "")),
        }
    }

    /// Judges what the codec made of the body: the request to serve, or the
    /// response to send at once. `detail` is added to that response; it is
    /// the codec's complaint where the body was no document.
    pub fn execute(decoded: &Decoded, detail: &str) -> (r: Result<Request, Response>)
        ensures
            match judged(*decoded, detail@) {
                Ok(request) => r matches Ok(q) && q@ == request,
                Err(response) => r matches Err(p) && p@ == response,
            },
            r matches Ok(q) ==> !(q@ is Invalid),
    {
        let request = Request::from_decoded(decoded);
        match request {
            Request::Invalid { reason } => Err(Response::invalid(reason, detail)),
            request => Ok(request),
        }
    }

    /// Puts a response on the wire: `encoded` is its document as the codec
    /// wrote it.
    pub fn write_response(encoded: &[u8]) -> (r: Vec<u8>)
        ensures
            r@ == framed_response(encoded@),
    {
        frame_response(encoded)
    }
}

/// Every body is answered: what is not served as a request gets an error
/// response, and a request that is served is never an invalid one.
pub proof fn law_every_body_is_answered(decoded: Decoded, detail: Seq<char>)
    ensures
        judged(decoded, detail) matches Err(response) ==> response is Error,
        judged(decoded, detail) matches Ok(request) ==> !(request is Invalid) && request
            == request_of_decoded(decoded),
        decoded is Malformed ==> judged(decoded, detail) is Err,
        decoded matches Decoded::Documents(d) && d@.len() != 1 ==> judged(decoded, detail) is Err,
{
}

/// One connection is open at a time, and service ends only by an interrupt:
/// no connection is yielded while one is served, nothing brings a stopped
/// server back, and only an interrupted wait stops it.
pub proof fn law_one_connection_at_a_time(state: ServerState, event: ServerEvent)
    ensures
        state == ServerState::Serving && event is Yielded ==> server_transition(state, event)
            == ServerState::Serving,
        state == ServerState::Stopped ==> server_transition(state, event) == ServerState::Stopped,
        server_transition(state, event) == ServerState::Stopped && state != ServerState::Stopped
            ==> state == ServerState::Listening && event == ServerEvent::Yielded(Yield::End),
        server_transition(state, event) == ServerState::Serving && state != ServerState::Serving
            ==> state == ServerState::Listening && event matches ServerEvent::Yielded(
            Yield::Connection { .. },
        ),
        forall|accepted: Accepted, timeout_set: bool|
            #[trigger] yielded(accepted, timeout_set) == Yield::End <==> accepted
                == Accepted::Interrupted,
{
}

} // verus!
