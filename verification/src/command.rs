//! The terminal commands that answer a paused request.

use vstd::prelude::*;
use vstd::string::StringExecFns;
use vstd::utf8::encode_utf8;
use crate::config::{ConfigView, InterceptorConfig};
use crate::encoding::{base64_standard, encode_base64};
use crate::resolution::InterceptAction;

verus! {

/// Why a request failed at the network level.
#[derive(Clone, Copy, Debug, PartialEq, Eq, Structural)]
pub enum ErrorReason {
    Failed,
    Aborted,
    TimedOut,
    AccessDenied,
    ConnectionClosed,
    ConnectionReset,
    ConnectionRefused,
    ConnectionAborted,
    ConnectionFailed,
    NameNotResolved,
    InternetDisconnected,
    AddressUnreachable,
    BlockedByClient,
    BlockedByResponse,
}

/// A terminal command for the control plane. Each one names the paused
/// request by its handle.
#[derive(Debug, PartialEq, Eq)]
pub enum Command {
    /// Continue the request unmodified.
    ContinueRequest { request_id: String },
    /// Fail the request with the given reason.
    FailRequest { request_id: String, error_reason: ErrorReason },
    /// Answer the request with the given status and base64-encoded body.
    FulfillRequest { request_id: String, response_code: i64, body: String },
}

/// The mathematical content of a [`Command`].
pub enum CommandView {
    ContinueRequest { request_id: Seq<char> },
    FailRequest { request_id: Seq<char>, error_reason: ErrorReason },
    FulfillRequest { request_id: Seq<char>, response_code: i64, body: Seq<char> },
}

impl View for Command {
    type V = CommandView;

    open spec fn view(&self) -> CommandView {
        match *self {
            Command::ContinueRequest { request_id } => CommandView::ContinueRequest {
                request_id: request_id@,
            },
            Command::FailRequest { request_id, error_reason } => CommandView::FailRequest {
                request_id: request_id@,
                error_reason,
            },
            Command::FulfillRequest { request_id, response_code, body } => {
                CommandView::FulfillRequest { request_id: request_id@, response_code, body: body@ }
            },
        }
    }
}

impl CommandView {
    /// The handle of the request that the command answers.
    pub open spec fn request_id(self) -> Seq<char> {
        match self {
            CommandView::ContinueRequest { request_id } => request_id,
            CommandView::FailRequest { request_id, .. } => request_id,
            CommandView::FulfillRequest { request_id, .. } => request_id,
        }
    }

    /// The action that the command carries out.
    pub open spec fn action(self) -> InterceptAction {
        match self {
            CommandView::ContinueRequest { .. } => InterceptAction::Forward,
            CommandView::FailRequest { .. } => InterceptAction::Abort,
            CommandView::FulfillRequest { .. } => InterceptAction::Fulfill,
        }
    }
}

/// The content of an optional command.
pub open spec fn command_view(command: Option<Command>) -> Option<CommandView> {
    match command {
        Some(command) => Some(command@),
        None => None,
    }
}

/// The body of the synthetic response as it travels to the control plane.
pub open spec fn fulfill_body(config: ConfigView) -> Seq<char> {
    base64_standard(encode_utf8(config.content))
}

/// The command that carries out `action` on the request paused under
/// `request_id`. A pending action has no command.
pub open spec fn command_for(
    config: ConfigView,
    action: InterceptAction,
    request_id: Seq<char>,
) -> Option<CommandView> {
    match action {
        InterceptAction::Forward => Some(CommandView::ContinueRequest { request_id }),
        InterceptAction::Abort => Some(
            CommandView::FailRequest { request_id, error_reason: ErrorReason::Aborted },
        ),
        InterceptAction::Fulfill => Some(
            CommandView::FulfillRequest {
                request_id,
                response_code: config.response_code,
                body: fulfill_body(config),
            },
        ),
        InterceptAction::Pending => None,
    }
}

impl Command {
    /// The handle of the request that the command answers.
    pub fn request_id(&self) -> (request_id: &str)
        ensures
            request_id@ == self@.request_id(),
    {
        match self {
            Command::ContinueRequest { request_id } => request_id.as_str(),
            Command::FailRequest { request_id, .. } => request_id.as_str(),
            Command::FulfillRequest { request_id, .. } => request_id.as_str(),
        }
    }

    /// The action that the command carries out.
    pub fn action(&self) -> (action: InterceptAction)
        ensures
            action == self@.action(),
            action != InterceptAction::Pending,
    {
        match self {
            Command::ContinueRequest { .. } => InterceptAction::Forward,
            Command::FailRequest { .. } => InterceptAction::Abort,
            Command::FulfillRequest { .. } => InterceptAction::Fulfill,
        }
    }

    /// The command that answers a request with a body already encoded.
    pub fn fulfill_request(request_id: &str, response_code: i64, body: String) -> (command: Self)
        ensures
            command@ == (CommandView::FulfillRequest {
                request_id: request_id@,
                response_code,
                body: body@,
            }),
    {
        Command::FulfillRequest { request_id: String::from_str(request_id), response_code, body }
    }
}

/// The command that lets the request proceed untouched.
pub fn forward(request_id: &str) -> (command: Command)
    ensures
        command@ == (CommandView::ContinueRequest { request_id: request_id@ }),
{
    Command::ContinueRequest { request_id: String::from_str(request_id) }
}

/// The command that fails the request as aborted.
pub fn abort(request_id: &str) -> (command: Command)
    ensures
        command@ == (CommandView::FailRequest {
            request_id: request_id@,
            error_reason: ErrorReason::Aborted,
        }),
{
    Command::FailRequest {
        request_id: String::from_str(request_id),
        error_reason: ErrorReason::Aborted,
    }
}

/// The command that answers the request with the configured synthetic
/// response.
pub fn fulfill(request_id: &str, config: &InterceptorConfig) -> (command: Command)
    ensures
        command@ == (CommandView::FulfillRequest {
            request_id: request_id@,
            response_code: config@.response_code,
            body: fulfill_body(config@),
        }),
{
    proof {
        use_type_invariant(config);
    }
    let body = encode_base64(config.content().as_bytes());
    Command::fulfill_request(request_id, config.response_code(), body)
}

} // verus!
