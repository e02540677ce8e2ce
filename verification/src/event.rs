//! The events of the browser's control plane, reduced to what the engine reads.

use vstd::prelude::*;

verus! {

/// How the rendering engine perceives a requested resource.
#[derive(Clone, Copy, Debug, PartialEq, Eq, Structural)]
pub enum ResourceType {
    Document,
    Stylesheet,
    Image,
    Media,
    Font,
    Script,
    TextTrack,
    Xhr,
    Fetch,
    Prefetch,
    EventSource,
    WebSocket,
    Manifest,
    SignedExchange,
    Ping,
    CspViolationReport,
    Preflight,
    FedCm,
    Other,
}

/// A response became available for some request.
#[derive(Debug, PartialEq, Eq)]
pub struct ResponseReceived {
    /// The URL the response came from.
    pub url: String,
}

/// A request is blocked until it is answered with a terminal command.
#[derive(Debug, PartialEq, Eq)]
pub struct RequestPaused {
    /// The handle under which the paused request is answered.
    pub request_id: String,
    /// The correlation key shared with the observation stream, where the
    /// browser reports one.
    pub network_id: Option<String>,
    /// The URL the request is going to.
    pub url: String,
    /// The status code of the response, present exactly when the request was
    /// paused at the response stage.
    pub response_status_code: Option<i64>,
}

/// The page is about to send a request.
#[derive(Debug, PartialEq, Eq)]
pub struct RequestWillBeSent {
    /// The correlation key of the request.
    pub request_id: String,
    /// The loader the request belongs to.
    pub loader_id: String,
    /// The declared kind of the requested resource.
    pub resource_type: Option<ResourceType>,
}

/// One event of any of the three streams.
#[derive(Debug, PartialEq, Eq)]
pub enum InterceptEvent {
    ResponseReceived(ResponseReceived),
    RequestPaused(RequestPaused),
    RequestWillBeSent(RequestWillBeSent),
}

impl RequestPaused {
    /// The pause happened after the response arrived, when no request-level
    /// decision applies any more.
    pub open spec fn at_response_stage(&self) -> bool {
        self.response_status_code is Some
    }

    /// The correlation key of a request-stage pause, if the event has one.
    pub open spec fn key(&self) -> Option<Seq<char>> {
        match self.network_id {
            Some(id) if !self.at_response_stage() => Some(id@),
            _ => None,
        }
    }
}

} // verus!
