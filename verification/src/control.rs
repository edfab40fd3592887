//! The control channel: the three requests that the client makes of the
//! service, and what each reply means.

use vstd::prelude::*;
use crate::endpoint::SERVER_URL;
use crate::json::{parse_document, parsed_document, render_document};
use crate::text::{decimal, decimal_text, join, text_view};

verus! {

/// The operations of the control channel.
#[derive(Clone, Copy, Debug, PartialEq, Eq, Structural)]
pub enum ControlOp {
    /// Ask the service whether it is there.
    Probe,
    /// Ask the service to start recognition.
    Start,
    /// Ask the service to stop recognition.
    Stop,
}

/// The HTTP method of a control request.
#[derive(Clone, Copy, Debug, PartialEq, Eq, Structural)]
pub enum Method {
    Get,
    Post,
}

/// What goes wrong between the client and the service.
#[derive(Clone, Debug, PartialEq, Eq)]
pub enum SessionError {
    /// The service was not reached, or did not answer as a service would.
    Transport(String),
    /// The service answered a start or stop request with a status outside 2xx.
    Control { status: u16 },
    /// The service closed the stream in good order.
    StreamClosed,
}

/// The mathematical value of a [`SessionError`].
pub enum SessionErrorView {
    Transport(Seq<char>),
    Control { status: u16 },
    StreamClosed,
}

impl View for SessionError {
    type V = SessionErrorView;

    open spec fn view(&self) -> SessionErrorView {
        match self {
            SessionError::Transport(reason) => SessionErrorView::Transport(reason@),
            SessionError::Control { status } => SessionErrorView::Control { status: *status },
            SessionError::StreamClosed => SessionErrorView::StreamClosed,
        }
    }
}

/// What came back for a start or stop request.
#[derive(Clone, Debug, PartialEq, Eq)]
pub enum Reply {
    /// No answer came; the text says why.
    Unreachable(String),
    /// The service answered with this HTTP status.
    Status(u16),
}

/// The mathematical value of a [`Reply`].
pub enum ReplyView {
    Unreachable(Seq<char>),
    Status(u16),
}

impl View for Reply {
    type V = ReplyView;

    open spec fn view(&self) -> ReplyView {
        match self {
            Reply::Unreachable(reason) => ReplyView::Unreachable(reason@),
            Reply::Status(status) => ReplyView::Status(*status),
        }
    }
}

/// What came back for a status probe.
#[derive(Clone, Debug, PartialEq, Eq)]
pub enum ProbeReply {
    /// No answer came; the text says why.
    Unreachable(String),
    /// The service answered with this HTTP status and this body.
    Answer { status: u16, body: Vec<u8> },
}

/// The mathematical value of a [`ProbeReply`].
pub enum ProbeReplyView {
    Unreachable(Seq<char>),
    Answer { status: u16, body: Seq<u8> },
}

impl View for ProbeReply {
    type V = ProbeReplyView;

    open spec fn view(&self) -> ProbeReplyView {
        match self {
            ProbeReply::Unreachable(reason) => ProbeReplyView::Unreachable(reason@),
            ProbeReply::Answer { status, body } => ProbeReplyView::Answer {
                status: *status,
                body: body@,
            },
        }
    }
}

/// Whether an HTTP status is one of success, 200 to 299.
pub open spec fn status_succeeds(status: u16) -> bool {
    200 <= status < 300
}

/// What the client says of a status outside 2xx.
pub open spec fn refusal_text(status: u16) -> Seq<char> {
    "Server returned error: "@ + decimal_text(status as nat)
}

/// What the client says of a 2xx probe answer whose body is no JSON document.
pub open spec fn unreadable_text() -> Seq<char> {
    "status reply is not JSON"@
}

/// What the client says of a stream that the service closed.
pub open spec fn closed_text() -> Seq<char> {
    "stream closed by the service"@
}

impl SessionErrorView {
    /// The error in words.
    pub open spec fn message(self) -> Seq<char> {
        match self {
            SessionErrorView::Transport(reason) => reason,
            SessionErrorView::Control { status } => refusal_text(status),
            SessionErrorView::StreamClosed => closed_text(),
        }
    }
}

impl ControlOp {
    /// The HTTP method of the operation's request.
    pub open spec fn method_of(self) -> Method {
        match self {
            ControlOp::Probe => Method::Get,
            ControlOp::Start => Method::Post,
            ControlOp::Stop => Method::Post,
        }
    }

    /// The path of the operation's request.
    pub open spec fn path_text(self) -> Seq<char> {
        match self {
            ControlOp::Probe => "/api/status"@,
            ControlOp::Start => "/api/start"@,
            ControlOp::Stop => "/api/stop"@,
        }
    }

    /// The HTTP method of the operation's request.
    pub fn method(self) -> (method: Method)
        ensures
            method == self.method_of(),
    {
        match self {
            ControlOp::Probe => Method::Get,
            ControlOp::Start => Method::Post,
            ControlOp::Stop => Method::Post,
        }
    }

    /// The path of the operation's request.
    pub fn path(self) -> (path: &'static str)
        ensures
            path@ == self.path_text(),
    {
        match self {
            ControlOp::Probe => "/api/status",
            ControlOp::Start => "/api/start",
            ControlOp::Stop => "/api/stop",
        }
    }

    /// The address of the operation's request: the control origin, then the
    /// path.
    pub fn address(self) -> (address: String)
        ensures
            address@ == SERVER_URL@ + self.path_text(),
    {
        join(SERVER_URL, self.path())
    }
}

impl SessionError {
    /// The error in words.
    pub fn message(&self) -> (text: String)
        ensures
            text@ == self@.message(),
    {
        match self {
            SessionError::Transport(reason) => reason.clone(),
            SessionError::Control { status } => refusal(*status),
            SessionError::StreamClosed => "stream closed by the service".to_owned(),
        }
    }

    /// A copy of the error.
    pub fn duplicate(&self) -> (copy: SessionError)
        ensures
            copy@ == self@,
    {
        match self {
            SessionError::Transport(reason) => SessionError::Transport(reason.clone()),
            SessionError::Control { status } => SessionError::Control { status: *status },
            SessionError::StreamClosed => SessionError::StreamClosed,
        }
    }
}

/// Whether an HTTP status is one of success.
pub fn is_success(status: u16) -> (success: bool)
    ensures
        success == status_succeeds(status),
{
    200 <= status && status < 300
}

fn refusal(status: u16) -> (text: String)
    ensures
        text@ == refusal_text(status),
{
    let number: String = decimal(status);
    join("Server returned error: ", number.as_str())
}

/// The view of the outcome of a start or stop request.
pub open spec fn outcome_view(outcome: Result<(), SessionError>) -> Result<(), SessionErrorView> {
    match outcome {
        Ok(_) => Ok(()),
        Err(e) => Err(e@),
    }
}

/// The view of the outcome of a probe.
pub open spec fn descriptor_view(outcome: Result<String, SessionError>) -> Result<
    Seq<char>,
    SessionErrorView,
> {
    match outcome {
        Ok(descriptor) => Ok(descriptor@),
        Err(e) => Err(e@),
    }
}

/// What a reply to a start or stop request means: any 2xx status is
/// success, any other status a control error that carries it, and no answer a
/// transport error.
pub open spec fn control_result(reply: ReplyView) -> Result<(), SessionErrorView> {
    match reply {
        ReplyView::Unreachable(reason) => Err(SessionErrorView::Transport(reason)),
        ReplyView::Status(status) => if status_succeeds(status) {
            Ok(())
        } else {
            Err(SessionErrorView::Control { status })
        },
    }
}

/// What an answer to a probe means, given the compact text of its body where
/// the body is a JSON document: with a 2xx status and such a body the
/// descriptor is that text; every other answer is a transport error.
pub open spec fn probe_verdict_of(status: u16, document: Option<Seq<char>>) -> Result<
    Seq<char>,
    SessionErrorView,
> {
    if !status_succeeds(status) {
        Err(SessionErrorView::Transport(refusal_text(status)))
    } else {
        match document {
            Some(text) => Ok(text),
            None => Err(SessionErrorView::Transport(unreadable_text())),
        }
    }
}

/// What a reply to a probe means.
pub open spec fn probe_result(reply: ProbeReplyView) -> Result<Seq<char>, SessionErrorView> {
    match reply {
        ProbeReplyView::Unreachable(reason) => Err(SessionErrorView::Transport(reason)),
        ProbeReplyView::Answer { status, body } => probe_verdict_of(status, parsed_document(body)),
    }
}

/// Judges a reply to a start or stop request.
pub fn control_outcome(reply: &Reply) -> (outcome: Result<(), SessionError>)
    ensures
        outcome_view(outcome) == control_result(reply@),
{
    match reply {
        Reply::Unreachable(reason) => Err(SessionError::Transport(reason.clone())),
        Reply::Status(status) => {
            if is_success(*status) {
                Ok(())
            } else {
                Err(SessionError::Control { status: *status })
            }
        },
    }
}

/// Judges an answer to a probe from its status and from the compact text of
/// its body, which is `None` where the body is no JSON document.
pub fn probe_verdict(status: u16, document: Option<String>) -> (outcome: Result<
    String,
    SessionError,
>)
    ensures
        descriptor_view(outcome) == probe_verdict_of(status, text_view(document)),
{
    if !is_success(status) {
        Err(SessionError::Transport(refusal(status)))
    } else {
        match document {
            Some(text) => Ok(text),
            None => Err(SessionError::Transport("status reply is not JSON".to_owned())),
        }
    }
}

/// The compact JSON text of a body, or `None` where the body is no JSON
/// document.
pub fn compact_document(body: &[u8]) -> (text: Option<String>)
    ensures
        text_view(text) == parsed_document(body@),
{
    match parse_document(body) {
        Ok(document) => Some(render_document(&document)),
        Err(_) => None,
    }
}

/// Judges a reply to a probe. The body is read only where the status is one
/// of success.
pub fn probe_outcome(reply: &ProbeReply) -> (outcome: Result<String, SessionError>)
    ensures
        descriptor_view(outcome) == probe_result(reply@),
{
    match reply {
        ProbeReply::Unreachable(reason) => Err(SessionError::Transport(reason.clone())),
        ProbeReply::Answer { status, body } => {
            if is_success(*status) {
                probe_verdict(*status, compact_document(body.as_slice()))
            } else {
                probe_verdict(*status, None)
            }
        },
    }
}

} // verus!
