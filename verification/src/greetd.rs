//! The greetd protocol: its messages, how they are encoded, and the authentication flow.

use greetd_ipc::{AuthMessageType as Amt, ErrorType as Et, Request as Rq, Response as Rs};
use vstd::prelude::*;

use crate::sessions::opt_view;
use crate::text::clone_strings;

verus! {

#[verifier::external_type_specification]
#[verifier::external_body]
pub struct ExJsonError(serde_json::Error);

/// Type of an authentication message from greetd.
#[derive(Debug, Clone, Copy, PartialEq, Eq, Structural)]
pub enum MessageType {
    Visible,
    Secret,
    Info,
    Error,
}

/// Type of an error reported by greetd.
#[derive(Debug, Clone, Copy, PartialEq, Eq, Structural)]
pub enum ErrorType {
    /// A generic error.
    Error,
    /// An error caused by failed authentication.
    AuthError,
}

/// A request from the greeter to greetd.
#[derive(Debug, Clone)]
pub enum Request {
    CreateSession { username: String },
    PostAuthMessageResponse { response: Option<String> },
    StartSession { cmd: Vec<String>, env: Vec<String> },
    CancelSession,
}

/// A request as plain values.
pub enum RequestView {
    CreateSession { username: Seq<char> },
    PostAuthMessageResponse { response: Option<Seq<char>> },
    StartSession { cmd: Seq<Seq<char>>, env: Seq<Seq<char>> },
    CancelSession,
}

impl View for Request {
    type V = RequestView;

    open spec fn view(&self) -> RequestView {
        match self {
            Request::CreateSession { username } => RequestView::CreateSession { username: username@ },
            Request::PostAuthMessageResponse { response } => RequestView::PostAuthMessageResponse {
                response: opt_view(*response),
            },
            Request::StartSession { cmd, env } => RequestView::StartSession {
                cmd: cmd.deep_view(),
                env: env.deep_view(),
            },
            Request::CancelSession => RequestView::CancelSession,
        }
    }
}

/// A response from greetd.
#[derive(Debug, Clone)]
pub enum Response {
    Success,
    Error { error_type: ErrorType, description: String },
    AuthMessage { auth_message_type: MessageType, auth_message: String },
}

/// A response as plain values.
pub enum ResponseView {
    Success,
    Error { error_type: ErrorType, description: Seq<char> },
    AuthMessage { auth_message_type: MessageType, auth_message: Seq<char> },
}

impl View for Response {
    type V = ResponseView;

    open spec fn view(&self) -> ResponseView {
        match self {
            Response::Success => ResponseView::Success,
            Response::Error { error_type, description } => ResponseView::Error {
                error_type: *error_type,
                description: description@,
            },
            Response::AuthMessage { auth_message_type, auth_message } => ResponseView::AuthMessage {
                auth_message_type: *auth_message_type,
                auth_message: auth_message@,
            },
        }
    }
}

/// The JSON that `serde_json::to_vec` writes for a `greetd_ipc::Request` with these fields,
/// if it writes one.
pub uninterp spec fn greetd_request_json(req: RequestView) -> Option<Seq<u8>>;

/// The `greetd_ipc::Response` that `serde_json::from_slice` reads from these bytes, if any.
pub uninterp spec fn greetd_response_json(bytes: Seq<u8>) -> Option<ResponseView>;

/// Serializes the corresponding `greetd_ipc::Request` with `serde_json::to_vec`.
/// Claims that the bytes are `greetd_request_json` of the request, and that an error comes
/// exactly when that gives nothing.
#[verifier::external_body]
fn request_json(req: &Request) -> (res: Result<Vec<u8>, serde_json::Error>)
    ensures
        match res {
            Ok(b) => greetd_request_json(req@) == Some(b@),
            Err(_) => greetd_request_json(req@) is None,
        },
{
    let ipc = match req.clone() {
        Request::CreateSession { username } => Rq::CreateSession { username },
        Request::PostAuthMessageResponse { response } => Rq::PostAuthMessageResponse { response },
        Request::StartSession { cmd, env } => Rq::StartSession { cmd, env },
        Request::CancelSession => Rq::CancelSession,
    };
    serde_json::to_vec(&ipc)
}

/// Deserializes a `greetd_ipc::Response` with `serde_json::from_slice` and converts it,
/// field for field. Claims that the result is `greetd_response_json` of the bytes, and that
/// an error comes exactly when that gives nothing.
#[verifier::external_body]
fn response_json(bytes: &[u8]) -> (res: Result<Response, serde_json::Error>)
    ensures
        match res {
            Ok(r) => greetd_response_json(bytes@) == Some(r@),
            Err(_) => greetd_response_json(bytes@) is None,
        },
{
    Ok(match serde_json::from_slice::<Rs>(bytes)? {
        Rs::Success => Response::Success,
        Rs::Error { error_type: Et::Error, description } => Response::Error { error_type: ErrorType::Error, description },
        Rs::Error { error_type: Et::AuthError, description } => Response::Error { error_type: ErrorType::AuthError, description },
        Rs::AuthMessage { auth_message_type: Amt::Visible, auth_message } => Response::AuthMessage { auth_message_type: MessageType::Visible, auth_message },
        Rs::AuthMessage { auth_message_type: Amt::Secret, auth_message } => Response::AuthMessage { auth_message_type: MessageType::Secret, auth_message },
        Rs::AuthMessage { auth_message_type: Amt::Info, auth_message } => Response::AuthMessage { auth_message_type: MessageType::Info, auth_message },
        Rs::AuthMessage { auth_message_type: Amt::Error, auth_message } => Response::AuthMessage { auth_message_type: MessageType::Error, auth_message },
    })
}

/// What can go wrong between the greeter and greetd, apart from I/O.
#[derive(Debug, Clone, Copy, PartialEq, Eq, Structural)]
pub enum ProtocolError {
    /// The request could not be serialized.
    Serialize,
    /// The response is not a greetd response.
    Deserialize,
}

/// The JSON body of a request.
pub fn encode_request(req: &Request) -> (res: Result<Vec<u8>, ProtocolError>)
    ensures
        match greetd_request_json(req@) {
            Some(b) => res matches Ok(v) && v@ == b,
            None => res == Err::<Vec<u8>, ProtocolError>(ProtocolError::Serialize),
        },
{
    match request_json(req) {
        Ok(b) => Ok(b),
        Err(_) => Err(ProtocolError::Serialize),
    }
}

/// The response whose JSON body is `body`.
pub fn decode_response(body: &[u8]) -> (res: Result<Response, ProtocolError>)
    ensures
        match greetd_response_json(body@) {
            Some(r) => res matches Ok(v) && v@ == r,
            None => res == Err::<Response, ProtocolError>(ProtocolError::Deserialize),
        },
{
    match response_json(body) {
        Ok(r) => Ok(r),
        Err(_) => Err(ProtocolError::Deserialize),
    }
}

/// State of an authentication.
#[derive(Debug, Clone)]
pub enum AuthState {
    /// Waiting for user input.
    Idle,
    /// Session created, waiting for the answer to a message.
    AwaitingAuth { message_type: MessageType, message: String },
    /// Authentication successful, ready to start the session.
    Authenticated,
    /// Session started.
    SessionStarted,
    /// An error occurred.
    Error(String),
}

/// An authentication state as plain values.
pub enum AuthStateView {
    Idle,
    AwaitingAuth { message_type: MessageType, message: Seq<char> },
    Authenticated,
    SessionStarted,
    Error(Seq<char>),
}

impl View for AuthState {
    type V = AuthStateView;

    open spec fn view(&self) -> AuthStateView {
        match self {
            AuthState::Idle => AuthStateView::Idle,
            AuthState::AwaitingAuth { message_type, message } => AuthStateView::AwaitingAuth {
                message_type: *message_type,
                message: message@,
            },
            AuthState::Authenticated => AuthStateView::Authenticated,
            AuthState::SessionStarted => AuthStateView::SessionStarted,
            AuthState::Error(m) => AuthStateView::Error(m@),
        }
    }
}

/// Result of an authentication step.
#[derive(Debug, Clone)]
pub enum AuthResult {
    /// More input is needed (password, etc.).
    NeedInput { message_type: MessageType, message: String },
    /// Authentication successful.
    Success,
    /// Authentication failed.
    Failed(String),
}

/// An authentication result as plain values.
pub enum AuthResultView {
    NeedInput { message_type: MessageType, message: Seq<char> },
    Success,
    Failed(Seq<char>),
}

impl View for AuthResult {
    type V = AuthResultView;

    open spec fn view(&self) -> AuthResultView {
        match self {
            AuthResult::NeedInput { message_type, message } => AuthResultView::NeedInput {
                message_type: *message_type,
                message: message@,
            },
            AuthResult::Success => AuthResultView::Success,
            AuthResult::Failed(m) => AuthResultView::Failed(m@),
        }
    }
}

/// The message shown for an error from greetd.
pub open spec fn error_message(error_type: ErrorType, description: Seq<char>) -> Seq<char> {
    match error_type {
        ErrorType::AuthError => if description.len() == 0 {
            "Authentication failed"@
        } else {
            "Authentication failed: "@ + description
        },
        ErrorType::Error => if description.len() == 0 {
            "An error occurred"@
        } else {
            description
        },
    }
}

/// Format an error message from greetd.
pub fn format_error(error_type: ErrorType, description: &str) -> (res: String)
    ensures
        res@ == error_message(error_type, description@),
{
    match error_type {
        ErrorType::AuthError => if description.is_empty() {
            String::from_str("Authentication failed")
        } else {
            String::from_str("Authentication failed: ").concat(description)
        },
        ErrorType::Error => if description.is_empty() {
            String::from_str("An error occurred")
        } else {
            String::from_str(description)
        },
    }
}

/// The state and result that a response to `CreateSession` or `PostAuthMessageResponse`
/// leads to.
pub open spec fn auth_outcome(r: ResponseView) -> (AuthStateView, AuthResultView) {
    match r {
        ResponseView::AuthMessage { auth_message_type, auth_message } => (
            AuthStateView::AwaitingAuth { message_type: auth_message_type, message: auth_message },
            AuthResultView::NeedInput { message_type: auth_message_type, message: auth_message },
        ),
        ResponseView::Success => (AuthStateView::Authenticated, AuthResultView::Success),
        ResponseView::Error { error_type, description } => (
            AuthStateView::Error(error_message(error_type, description)),
            AuthResultView::Failed(error_message(error_type, description)),
        ),
    }
}

/// A prompt from greetd is passed on as it came: the result asks for input with the
/// prompt's own type and text, and the flow waits on that same prompt. Success
/// authenticates; an error fails with the error's message and leaves the flow in error.
pub proof fn lemma_auth_outcome_keeps_prompt(r: ResponseView)
    ensures
        r matches ResponseView::AuthMessage { auth_message_type: t, auth_message: m } ==> {
            &&& auth_outcome(r).0 == (AuthStateView::AwaitingAuth { message_type: t, message: m })
            &&& auth_outcome(r).1 == (AuthResultView::NeedInput { message_type: t, message: m })
        },
        r is Success ==> auth_outcome(r).0 == AuthStateView::Authenticated && auth_outcome(r).1 == AuthResultView::Success,
        r matches ResponseView::Error { error_type: e, description: d } ==> {
            &&& auth_outcome(r).0 == AuthStateView::Error(error_message(e, d))
            &&& auth_outcome(r).1 == AuthResultView::Failed(error_message(e, d))
        },
{
}

/// The message for a response other than success or error to `StartSession`.
pub open spec fn unexpected_start_message() -> Seq<char> {
    "Unexpected response when starting session"@
}

/// The authentication flow with greetd, as a state machine: it says which request to send,
/// and takes greetd's response to decide the next state and what the user sees.
#[derive(Debug, Clone)]
pub struct AuthFlow {
    state: AuthState,
}

impl AuthFlow {
    /// The current state.
    pub closed spec fn current(&self) -> AuthStateView {
        self.state@
    }

    /// A flow in the idle state.
    pub fn new() -> (res: Self)
        ensures
            res.current() == AuthStateView::Idle,
    {
        AuthFlow { state: AuthState::Idle }
    }

    /// The request that starts authentication for a user.
    pub fn start_request(username: &str) -> (req: Request)
        ensures
            req@ == (RequestView::CreateSession { username: username@ }),
    {
        Request::CreateSession { username: String::from_str(username) }
    }

    /// The request that answers an authentication message.
    pub fn respond_request(response: Option<&str>) -> (req: Request)
        ensures
            req@ == (RequestView::PostAuthMessageResponse {
                response: match response {
                    Some(r) => Some(r@),
                    None => None,
                },
            }),
    {
        match response {
            Some(r) => Request::PostAuthMessageResponse { response: Some(String::from_str(r)) },
            None => Request::PostAuthMessageResponse { response: None },
        }
    }

    /// The request that starts the user's session.
    pub fn start_session_request(cmd: &Vec<String>, env: &Vec<String>) -> (req: Request)
        ensures
            req@ == (RequestView::StartSession { cmd: cmd.deep_view(), env: env.deep_view() }),
    {
        let c = clone_strings(cmd);
        let e = clone_strings(env);
        proof {
            assert(c.deep_view() =~= cmd.deep_view());
            assert(e.deep_view() =~= env.deep_view());
        }
        Request::StartSession { cmd: c, env: e }
    }

    /// The request that cancels the session.
    pub fn cancel_request() -> (req: Request)
        ensures
            req@ == RequestView::CancelSession,
    {
        Request::CancelSession
    }

    /// Takes greetd's response to `CreateSession` or `PostAuthMessageResponse`.
    pub fn on_auth_response(&mut self, response: Response) -> (res: AuthResult)
        ensures
            (final(self).current(), res@) == auth_outcome(response@),
    {
        match response {
            Response::AuthMessage { auth_message_type, auth_message } => {
                self.state = AuthState::AwaitingAuth {
                    message_type: auth_message_type,
                    message: auth_message.clone(),
                };
                AuthResult::NeedInput { message_type: auth_message_type, message: auth_message }
            },
            Response::Success => {
                self.state = AuthState::Authenticated;
                AuthResult::Success
            },
            Response::Error { error_type, description } => {
                let msg = format_error(error_type, description.as_str());
                self.state = AuthState::Error(msg.clone());
                AuthResult::Failed(msg)
            },
        }
    }

    /// Takes greetd's response to `StartSession`: success starts the session; anything else
    /// is an error with its message, and leaves the state as it was.
    pub fn on_start_response(&mut self, response: Response) -> (res: Result<(), String>)
        ensures
            match response@ {
                ResponseView::Success => res is Ok && final(self).current() == AuthStateView::SessionStarted,
                ResponseView::Error { error_type, description } => res matches Err(m)
                    && m@ == error_message(error_type, description)
                    && final(self).current() == old(self).current(),
                ResponseView::AuthMessage { .. } => res matches Err(m)
                    && m@ == unexpected_start_message()
                    && final(self).current() == old(self).current(),
            },
    {
        match response {
            Response::Success => {
                self.state = AuthState::SessionStarted;
                Ok(())
            },
            Response::Error { error_type, description } => Err(format_error(error_type, description.as_str())),
            Response::AuthMessage { .. } => Err(String::from_str("Unexpected response when starting session")),
        }
    }

    /// Returns to the idle state (after a cancel request, whatever greetd answered).
    pub fn cancel(&mut self)
        ensures
            final(self).current() == AuthStateView::Idle,
    {
        self.state = AuthState::Idle;
    }

    /// Get the current authentication state.
    pub fn state(&self) -> (res: &AuthState)
        ensures
            res@ == self.current(),
    {
        &self.state
    }
}

/// Demo authenticator for running without greetd: it asks for a password and accepts any.
#[derive(Debug)]
pub struct DemoAuthenticator {
    state: AuthState,
    username: String,
}

impl DemoAuthenticator {
    /// The current state.
    pub closed spec fn current(&self) -> AuthStateView {
        self.state@
    }

    /// The user that authentication was started for (empty before any).
    pub closed spec fn user(&self) -> Seq<char> {
        self.username@
    }

    pub fn new() -> (res: Self)
        ensures
            res.current() == AuthStateView::Idle,
            res.user() == Seq::<char>::empty(),
    {
        DemoAuthenticator { state: AuthState::Idle, username: String::new() }
    }

    /// Start authentication for a user: a password is always asked for.
    pub fn start(&mut self, username: &str) -> (res: AuthResult)
        ensures
            final(self).user() == username@,
            final(self).current() == (AuthStateView::AwaitingAuth {
                message_type: MessageType::Secret,
                message: "Password:"@,
            }),
            res@ == (AuthResultView::NeedInput { message_type: MessageType::Secret, message: "Password:"@ }),
    {
        self.username = String::from_str(username);
        self.state = AuthState::AwaitingAuth {
            message_type: MessageType::Secret,
            message: String::from_str("Password:"),
        };
        AuthResult::NeedInput { message_type: MessageType::Secret, message: String::from_str("Password:") }
    }

    /// Submit an authentication response: any password is accepted, none is refused.
    pub fn respond(&mut self, response: Option<&str>) -> (res: AuthResult)
        ensures
            final(self).user() == old(self).user(),
            response is Some ==> res@ == AuthResultView::Success
                && final(self).current() == AuthStateView::Authenticated,
            response is None ==> res@ == AuthResultView::Failed("No password provided"@)
                && final(self).current() == old(self).current(),
    {
        if response.is_some() {
            self.state = AuthState::Authenticated;
            AuthResult::Success
        } else {
            AuthResult::Failed(String::from_str("No password provided"))
        }
    }

    /// Start the user's session (nothing is started in demo mode).
    pub fn start_session(&mut self, cmd: &[String], env: &[String])
        ensures
            final(self).user() == old(self).user(),
            final(self).current() == AuthStateView::SessionStarted,
    {
        self.state = AuthState::SessionStarted;
    }

    /// Cancel the current authentication.
    pub fn cancel(&mut self)
        ensures
            final(self).user() == old(self).user(),
            final(self).current() == AuthStateView::Idle,
    {
        self.state = AuthState::Idle;
    }

    /// Get the current authentication state.
    pub fn state(&self) -> (res: &AuthState)
        ensures
            res@ == self.current(),
    {
        &self.state
    }
}

} // verus!
