use vstd::prelude::*;
use vstd::string::StringExecFns;
use crate::form::{FieldErrors, FormContent, FormModel};

verus! {

/// Whose password is rotated, and on whose authority.
#[derive(Debug, PartialEq, Eq)]
pub struct Props {
    pub username: String,
    /// A privileged caller changes a password without proving the old one.
    pub is_admin: bool,
}

/// What the start of an exchange produces: the context that the client
/// keeps, and the message for the server.
#[derive(Debug, PartialEq, Eq)]
pub struct Started {
    pub state: Vec<u8>,
    pub message: Vec<u8>,
}

/// The server's answer to the start of a registration.
#[derive(Debug, PartialEq, Eq)]
pub struct RegistrationStartReply {
    pub registration_response: Vec<u8>,
    /// Correlation token, sent back unchanged with the upload.
    pub server_data: Vec<u8>,
}

/// Why an attempt ended without a new password.
#[derive(Debug, PartialEq, Eq)]
pub enum RotationError {
    /// The form broke a constraint; nothing was sent.
    Validation(FieldErrors),
    /// The server's answer does not fit the current password.
    Credential,
    /// A cryptographic step failed for another reason than a wrong password.
    Protocol,
    /// The backend could not be reached or refused; the text is its own.
    Transport(String),
    /// An event arrived that the pending exchange does not expect.
    ContractViolation,
}

/// How an attempt ended.
#[derive(Debug, PartialEq, Eq)]
pub enum RotationOutcome {
    Success,
    Failure(RotationError),
}

/// Where an attempt stands.
#[derive(Clone, Copy, Debug, PartialEq, Eq, Structural)]
pub enum Phase {
    Idle,
    InitiatingLogin,
    AwaitingLoginResponse,
    VerifyingLogin,
    InitiatingRegistration,
    AwaitingRegistrationStartResponse,
    SealingRegistration,
    AwaitingRegistrationFinishResponse,
    Done,
}

/// What can happen to the component.
#[derive(Debug, PartialEq, Eq)]
pub enum Msg {
    /// The user edited the form.
    FormUpdate(FormModel),
    /// The user asked for the change.
    Submit,
    /// The login exchange was started; `None` if that was not possible.
    LoginInitiated(Option<Started>),
    /// The backend answered the login request with a credential response.
    AuthenticationStartResponse(Result<Vec<u8>, String>),
    /// The credential response was checked against the pending login.
    LoginFinished(bool),
    /// The registration exchange was started; `None` if that was not possible.
    RegistrationInitiated(Option<Started>),
    /// The backend answered the registration request.
    RegistrationStartResponse(Result<RegistrationStartReply, String>),
    /// The upload was computed from the server's answer; `None` if the
    /// answer could not be used.
    RegistrationSealed(Option<Vec<u8>>),
    /// The backend stored the upload, or did not.
    RegistrationFinishResponse(Result<(), String>),
}

/// What the caller has to do next, and report back on.
#[derive(Debug, PartialEq, Eq)]
pub enum Action {
    Nothing,
    /// Start a login exchange with this password and report `LoginInitiated`.
    InitiateLogin { password: String },
    /// Send the login request and report `AuthenticationStartResponse`.
    SendLoginStart { username: String, login_start_request: Vec<u8> },
    /// Check the response against the context and report `LoginFinished`.
    FinishLogin { context: Vec<u8>, credential_response: Vec<u8> },
    /// Start a registration exchange with this password and report
    /// `RegistrationInitiated`.
    InitiateRegistration { password: String },
    /// Send the registration request and report `RegistrationStartResponse`.
    SendRegistrationStart { username: String, registration_start_request: Vec<u8> },
    /// Compute the upload from context and response and report
    /// `RegistrationSealed`.
    FinishRegistration { context: Vec<u8>, registration_response: Vec<u8> },
    /// Send the upload and report `RegistrationFinishResponse`.
    SendRegistrationFinish { server_data: Vec<u8>, registration_upload: Vec<u8> },
    /// The attempt is over.
    Finish(RotationOutcome),
}

/// A failure, with the backend's text as plain characters.
pub enum Fault {
    Validation(FieldErrors),
    Credential,
    Protocol,
    Transport(Seq<char>),
    ContractViolation,
}

/// An event, with its payload as plain values. The two parts of a started
/// exchange are the context and the message, in this order; the two parts of
/// the registration answer are the response and the correlation token.
pub enum Event {
    FormUpdate(FormContent),
    Submit,
    LoginInitiated(Option<(Seq<u8>, Seq<u8>)>),
    AuthenticationStartResponse(Result<Seq<u8>, Seq<char>>),
    LoginFinished(bool),
    RegistrationInitiated(Option<(Seq<u8>, Seq<u8>)>),
    RegistrationStartResponse(Result<(Seq<u8>, Seq<u8>), Seq<char>>),
    RegistrationSealed(Option<Seq<u8>>),
    RegistrationFinishResponse(Result<(), Seq<char>>),
}

/// An action, with its payload as plain values. `Finish` holds the failure,
/// or `None` for a success.
pub enum Instruction {
    Nothing,
    InitiateLogin { password: Seq<char> },
    SendLoginStart { username: Seq<char>, login_start_request: Seq<u8> },
    FinishLogin { context: Seq<u8>, credential_response: Seq<u8> },
    InitiateRegistration { password: Seq<char> },
    SendRegistrationStart { username: Seq<char>, registration_start_request: Seq<u8> },
    FinishRegistration { context: Seq<u8>, registration_response: Seq<u8> },
    SendRegistrationFinish { server_data: Seq<u8>, registration_upload: Seq<u8> },
    Finish(Option<Fault>),
}

impl View for RotationError {
    type V = Fault;

    open spec fn view(&self) -> Fault {
        match *self {
            RotationError::Validation(findings) => Fault::Validation(findings),
            RotationError::Credential => Fault::Credential,
            RotationError::Protocol => Fault::Protocol,
            RotationError::Transport(text) => Fault::Transport(text@),
            RotationError::ContractViolation => Fault::ContractViolation,
        }
    }
}

impl View for RotationOutcome {
    type V = Option<Fault>;

    open spec fn view(&self) -> Option<Fault> {
        match *self {
            RotationOutcome::Success => None,
            RotationOutcome::Failure(error) => Some(error@),
        }
    }
}

/// The two parts of a started exchange, if it was started.
pub open spec fn spec_started(started: Option<Started>) -> Option<(Seq<u8>, Seq<u8>)> {
    match started {
        Some(started) => Some((started.state@, started.message@)),
        None => None,
    }
}

impl View for Msg {
    type V = Event;

    open spec fn view(&self) -> Event {
        match *self {
            Msg::FormUpdate(model) => Event::FormUpdate(model@),
            Msg::Submit => Event::Submit,
            Msg::LoginInitiated(started) => Event::LoginInitiated(spec_started(started)),
            Msg::AuthenticationStartResponse(response) => Event::AuthenticationStartResponse(
                match response {
                    Ok(credential_response) => Ok(credential_response@),
                    Err(text) => Err(text@),
                },
            ),
            Msg::LoginFinished(verified) => Event::LoginFinished(verified),
            Msg::RegistrationInitiated(started) => Event::RegistrationInitiated(
                spec_started(started),
            ),
            Msg::RegistrationStartResponse(response) => Event::RegistrationStartResponse(
                match response {
                    Ok(reply) => Ok((reply.registration_response@, reply.server_data@)),
                    Err(text) => Err(text@),
                },
            ),
            Msg::RegistrationSealed(upload) => Event::RegistrationSealed(
                match upload {
                    Some(upload) => Some(upload@),
                    None => None,
                },
            ),
            Msg::RegistrationFinishResponse(response) => Event::RegistrationFinishResponse(
                match response {
                    Ok(_) => Ok(()),
                    Err(text) => Err(text@),
                },
            ),
        }
    }
}

impl View for Action {
    type V = Instruction;

    open spec fn view(&self) -> Instruction {
        match *self {
            Action::Nothing => Instruction::Nothing,
            Action::InitiateLogin { password } => Instruction::InitiateLogin { password: password@ },
            Action::SendLoginStart { username, login_start_request } => Instruction::SendLoginStart {
                username: username@,
                login_start_request: login_start_request@,
            },
            Action::FinishLogin { context, credential_response } => Instruction::FinishLogin {
                context: context@,
                credential_response: credential_response@,
            },
            Action::InitiateRegistration { password } => Instruction::InitiateRegistration {
                password: password@,
            },
            Action::SendRegistrationStart {
                username,
                registration_start_request,
            } => Instruction::SendRegistrationStart {
                username: username@,
                registration_start_request: registration_start_request@,
            },
            Action::FinishRegistration {
                context,
                registration_response,
            } => Instruction::FinishRegistration {
                context: context@,
                registration_response: registration_response@,
            },
            Action::SendRegistrationFinish {
                server_data,
                registration_upload,
            } => Instruction::SendRegistrationFinish {
                server_data: server_data@,
                registration_upload: registration_upload@,
            },
            Action::Finish(outcome) => Instruction::Finish(outcome@),
        }
    }
}

impl Instruction {
    /// The action hands a request to the backend.
    pub open spec fn is_request(self) -> bool {
        self is SendLoginStart || self is SendRegistrationStart || self is SendRegistrationFinish
    }

    /// The action is a step of the proof of the current password.
    pub open spec fn is_login_step(self) -> bool {
        self is InitiateLogin || self is SendLoginStart || self is FinishLogin
    }
}

impl Phase {
    /// A request is with the backend and its answer is outstanding.
    pub open spec fn spec_awaits_backend(self) -> bool {
        self == Phase::AwaitingLoginResponse || self == Phase::AwaitingRegistrationStartResponse
            || self == Phase::AwaitingRegistrationFinishResponse
    }

    #[verifier::when_used_as_spec(spec_awaits_backend)]
    pub fn awaits_backend(self) -> (awaits: bool)
        ensures
            awaits == self.spec_awaits_backend(),
    {
        self == Phase::AwaitingLoginResponse || self == Phase::AwaitingRegistrationStartResponse
            || self == Phase::AwaitingRegistrationFinishResponse
    }

    /// The phase belongs to the proof of the current password.
    pub open spec fn in_login(self) -> bool {
        self == Phase::InitiatingLogin || self == Phase::AwaitingLoginResponse
            || self == Phase::VerifyingLogin
    }

    /// Position of the phase in the order in which an attempt visits them.
    pub open spec fn rank(self) -> nat {
        match self {
            Phase::Idle => 0,
            Phase::InitiatingLogin => 1,
            Phase::AwaitingLoginResponse => 2,
            Phase::VerifyingLogin => 3,
            Phase::InitiatingRegistration => 4,
            Phase::AwaitingRegistrationStartResponse => 5,
            Phase::SealingRegistration => 6,
            Phase::AwaitingRegistrationFinishResponse => 7,
            Phase::Done => 8,
        }
    }
}

impl Action {
    /// Whether the action hands a request to the backend.
    pub fn is_request(&self) -> (request: bool)
        ensures
            request == self@.is_request(),
    {
        match self {
            Action::SendLoginStart { .. } => true,
            Action::SendRegistrationStart { .. } => true,
            Action::SendRegistrationFinish { .. } => true,
            _ => false,
        }
    }
}

/// The text shown for an error. A rejected password and an unknown user read
/// the same; a transport failure is shown in the backend's words.
pub open spec fn spec_message(error: Fault) -> Seq<char> {
    match error {
        Fault::Validation(_) => "Check the form for errors"@,
        Fault::Credential => "Invalid username or password"@,
        Fault::Protocol => "Could not complete password change"@,
        Fault::Transport(text) => text,
        Fault::ContractViolation => "Internal error"@,
    }
}

impl RotationError {
    /// The text to show to the user.
    pub fn message(&self) -> (text: String)
        ensures
            text@ == spec_message(self@),
    {
        match self {
            RotationError::Validation(_) => String::from_str("Check the form for errors"),
            RotationError::Credential => String::from_str("Invalid username or password"),
            RotationError::Protocol => String::from_str("Could not complete password change"),
            RotationError::Transport(text) => text.clone(),
            RotationError::ContractViolation => String::from_str("Internal error"),
        }
    }

    /// A second value equal to this one.
    pub fn duplicate(&self) -> (copy: Self)
        ensures
            copy@ == self@,
    {
        match self {
            RotationError::Validation(findings) => RotationError::Validation(*findings),
            RotationError::Credential => RotationError::Credential,
            RotationError::Protocol => RotationError::Protocol,
            RotationError::Transport(text) => RotationError::Transport(text.clone()),
            RotationError::ContractViolation => RotationError::ContractViolation,
        }
    }
}

} // verus!
