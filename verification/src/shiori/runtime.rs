//! The life of a SHIORI module: it is loaded, asked, and unloaded.
//!
//! What the host does to the module and what the module's service does are
//! not decided here. Decided here is what is to happen on each call, given
//! whether the module is loaded, and whether it is loaded afterwards.
use crate::charset::Charset;
use crate::shiori::v3::error::{ShioriError, ShioriErrorView};
use crate::shiori::v3::parse::{request_of, response_of};
use crate::shiori::v3::request::Request;
use crate::shiori::v3::response::{IntoResponse, Response, ResponseView};
use crate::shiori::v3::status::StatusCode;
use crate::shiori::v3::version::Version;
use vstd::prelude::*;
use vstd::string::*;

verus! {

/// Whether the module's context is there.
#[derive(Debug, PartialEq, Eq, Clone, Copy, Hash, Structural)]
pub enum Lifecycle {
    /// No context: the module has not been loaded, or has been unloaded.
    Unloaded,
    /// The context is there.
    Loaded,
}

/// What the host asks of the module.
#[derive(Debug, PartialEq, Eq, Clone, Copy, Hash, Structural)]
pub enum Call {
    /// To load its context.
    Load,
    /// To drop its context.
    Unload,
    /// To answer a request.
    Request,
}

/// Why a call is refused.
#[derive(Debug, PartialEq, Eq, Clone, Copy, Hash, Structural)]
pub enum Refusal {
    /// The context is there already.
    AlreadyLoaded,
    /// The context is not there.
    NotLoaded,
}

/// What is to happen on a call.
#[derive(Debug, PartialEq, Eq, Clone, Copy, Hash, Structural)]
pub enum Action {
    /// The context is to be made.
    CreateContext,
    /// The context is to be dropped.
    DropContext,
    /// The service is to be called with the context.
    CallService,
    /// Nothing is to be done but to report the refusal.
    Refuse(Refusal),
}

/// What is to happen on a call in a state.
pub open spec fn action_for(state: Lifecycle, call: Call) -> Action {
    match (state, call) {
        (Lifecycle::Unloaded, Call::Load) => Action::CreateContext,
        (Lifecycle::Loaded, Call::Load) => Action::Refuse(Refusal::AlreadyLoaded),
        (Lifecycle::Loaded, Call::Unload) => Action::DropContext,
        (Lifecycle::Unloaded, Call::Unload) => Action::Refuse(Refusal::NotLoaded),
        (Lifecycle::Loaded, Call::Request) => Action::CallService,
        (Lifecycle::Unloaded, Call::Request) => Action::Refuse(Refusal::NotLoaded),
    }
}

/// The state after a call, given whether what was to happen succeeded.
pub open spec fn state_after(state: Lifecycle, call: Call, succeeded: bool) -> Lifecycle {
    match (state, call) {
        (Lifecycle::Unloaded, Call::Load) => if succeeded {
            Lifecycle::Loaded
        } else {
            Lifecycle::Unloaded
        },
        (Lifecycle::Loaded, Call::Unload) => Lifecycle::Unloaded,
        _ => state,
    }
}

/// Decides what is to happen on a call.
pub fn decide(state: Lifecycle, call: Call) -> (action: Action)
    ensures
        action == action_for(state, call),
{
    match (state, call) {
        (Lifecycle::Unloaded, Call::Load) => Action::CreateContext,
        (Lifecycle::Loaded, Call::Load) => Action::Refuse(Refusal::AlreadyLoaded),
        (Lifecycle::Loaded, Call::Unload) => Action::DropContext,
        (Lifecycle::Unloaded, Call::Unload) => Action::Refuse(Refusal::NotLoaded),
        (Lifecycle::Loaded, Call::Request) => Action::CallService,
        (Lifecycle::Unloaded, Call::Request) => Action::Refuse(Refusal::NotLoaded),
    }
}

/// The state after a call, given whether what was to happen succeeded.
pub fn advance(state: Lifecycle, call: Call, succeeded: bool) -> (next: Lifecycle)
    ensures
        next == state_after(state, call, succeeded),
{
    match (state, call) {
        (Lifecycle::Unloaded, Call::Load) => if succeeded {
            Lifecycle::Loaded
        } else {
            Lifecycle::Unloaded
        },
        (Lifecycle::Loaded, Call::Unload) => Lifecycle::Unloaded,
        _ => state,
    }
}

impl Refusal {
    /// The text of the message for this refusal.
    pub open spec fn message_spec(self) -> Seq<char> {
        match self {
            Refusal::AlreadyLoaded => "context already loaded"@,
            Refusal::NotLoaded => "context not loaded"@,
        }
    }

    /// The message shown for this refusal.
    pub fn message(&self) -> (text: &'static str)
        ensures
            text@ == self.message_spec(),
    {
        match self {
            Refusal::AlreadyLoaded => "context already loaded",
            Refusal::NotLoaded => "context not loaded",
        }
    }

    /// The error that reports this refusal.
    pub fn into_error(self) -> (error: ShioriError)
        ensures
            error@ == (ShioriErrorView {
                message: self.message_spec(),
                detail: self.message_spec(),
                context: None,
                version: None,
                status_code: None,
            }),
    {
        ShioriError::new(self.message())
    }
}

/// The response that stands for a failure: SHIORI/3.0, the status code, and
/// no header.
pub open spec fn failure(status_code: StatusCode) -> ResponseView {
    ResponseView {
        version: Version::Shiori30,
        status_code,
        headers: Seq::empty(),
        charset: Charset::Ascii,
    }
}

/// Reads the request that the host hands over. Bytes that are no request
/// are answered with `400 Bad Request`.
pub fn receive(input: &[u8]) -> (res: Result<Request, Response>)
    ensures
        match request_of(input@) {
            Ok(request) => res matches Ok(r) && r@ == request && r.wf(),
            Err(_) => res matches Err(response) && response@ == failure(StatusCode::BadRequest),
        },
{
    match Request::parse(input) {
        Ok(request) => Ok(request),
        Err(e) => Err(
            ShioriError::new(e.message()).with_status_code(StatusCode::BadRequest).into_response(),
        ),
    }
}

/// Reads the response that a module hands back. Bytes that are no
/// response count as `500 Internal Server Error`.
pub fn accept(output: &[u8]) -> (response: Response)
    ensures
        match response_of(output@) {
            Ok(r) => response@ == r && response.wf(),
            Err(_) => response@ == failure(StatusCode::InternalServerError),
        },
{
    match Response::parse(output) {
        Ok(response) => response,
        Err(e) => ShioriError::new(e.message()).with_status_code(
            StatusCode::InternalServerError,
        ).into_response(),
    }
}

/// The response that goes back to the host for what a service returned:
/// its response, or the response that reports its error.
pub fn answer(outcome: Result<Response, ShioriError>) -> (response: Response)
    ensures
        match outcome {
            Ok(r) => response == r,
            Err(e) => response@ == e.response(),
        },
{
    match outcome {
        Ok(response) => response,
        Err(e) => e.into_response(),
    }
}

/// The service is called exactly while the context is there, the context
/// is made only where there is none, and a refusal changes nothing.
pub proof fn lemma_lifecycle(state: Lifecycle, call: Call, succeeded: bool)
    ensures
        action_for(state, Call::Request) == Action::CallService <==> state == Lifecycle::Loaded,
        action_for(state, call) == Action::CreateContext ==> state == Lifecycle::Unloaded,
        action_for(state, call) is Refuse ==> state_after(state, call, succeeded) == state,
        !succeeded && call != Call::Unload ==> state_after(state, call, succeeded) == state,
{
}

} // verus!
