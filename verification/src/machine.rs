use vstd::prelude::*;
use crate::form::{FormContent, FormModel};
use crate::protocol::{
    Action, Event, Fault, Instruction, Msg, Phase, Props, RotationError, RotationOutcome,
};
use crate::slot::{OpaqueData, Pending};

verus! {

/// One password change, from the form to the stored credential.
#[derive(Debug, PartialEq, Eq)]
pub struct ChangePasswordForm {
    pub props: Props,
    pub form: FormModel,
    /// The error of the last event, for display.
    pub error: Option<RotationError>,
    /// The context of the exchange whose answer is outstanding.
    pub opaque_data: OpaqueData,
    /// A request is with the backend; submitting is disabled meanwhile.
    pub task: bool,
    pub phase: Phase,
    /// The correlation token of the registration, kept until the upload.
    pub server_data: Option<Vec<u8>>,
}

/// The state of a component, as plain values.
pub struct Rotation {
    pub username: Seq<char>,
    pub is_admin: bool,
    pub form: FormContent,
    pub error: Option<Fault>,
    pub pending: Pending,
    pub task: bool,
    pub phase: Phase,
    pub server_data: Option<Seq<u8>>,
}

impl View for ChangePasswordForm {
    type V = Rotation;

    open spec fn view(&self) -> Rotation {
        Rotation {
            username: self.props.username@,
            is_admin: self.props.is_admin,
            form: self.form@,
            error: match self.error {
                Some(error) => Some(error@),
                None => None,
            },
            pending: self.opaque_data@,
            task: self.task,
            phase: self.phase,
            server_data: match self.server_data {
                Some(server_data) => Some(server_data@),
                None => None,
            },
        }
    }
}

/// What handling an event gives: the next action, or why the attempt ended.
pub open spec fn spec_result(r: Result<Action, RotationError>) -> Result<Instruction, Fault> {
    match r {
        Ok(action) => Ok(action@),
        Err(error) => Err(error@),
    }
}

/// The state with the attempt abandoned: nothing pending, nothing in flight.
pub open spec fn spec_reset(s: Rotation) -> Rotation {
    Rotation { pending: Pending::Empty, task: false, phase: Phase::Idle, server_data: None, ..s }
}

/// An attempt that ends with `error`.
pub open spec fn spec_fail(s: Rotation, error: Fault) -> (Rotation, Result<Instruction, Fault>) {
    (spec_reset(s), Err(error))
}

/// From the state to the start of the registration exchange.
pub open spec fn spec_begin_registration(s: Rotation) -> (Rotation, Result<Instruction, Fault>) {
    (
        Rotation { phase: Phase::InitiatingRegistration, ..s },
        Ok(Instruction::InitiateRegistration { password: s.form.password }),
    )
}

/// The transition table: the state after `msg`, and what to do next or why
/// the attempt ended.
///
/// Each event is accepted in one phase only. In any other phase it ends the
/// attempt with `ContractViolation`; so does a context that is not where the
/// phase says. An edit or a submission outside `Idle` changes nothing.
pub open spec fn spec_handle(s: Rotation, msg: Event) -> (Rotation, Result<Instruction, Fault>) {
    match msg {
        Event::FormUpdate(model) => if s.phase == Phase::Idle {
            (Rotation { form: model, ..s }, Ok(Instruction::Nothing))
        } else {
            (s, Ok(Instruction::Nothing))
        },
        Event::Submit => if s.phase != Phase::Idle {
            (s, Ok(Instruction::Nothing))
        } else if !s.form.valid(s.is_admin) {
            spec_fail(s, Fault::Validation(s.form.findings(s.is_admin)))
        } else if s.is_admin {
            spec_begin_registration(s)
        } else {
            (
                Rotation { phase: Phase::InitiatingLogin, ..s },
                Ok(Instruction::InitiateLogin { password: s.form.old_password }),
            )
        },
        Event::LoginInitiated(started) => if s.phase != Phase::InitiatingLogin || !(s.pending
            is Empty) {
            spec_fail(s, Fault::ContractViolation)
        } else {
            match started {
                Some((context, message)) => (
                    Rotation {
                        pending: Pending::Login(context),
                        task: true,
                        phase: Phase::AwaitingLoginResponse,
                        ..s
                    },
                    Ok(
                        Instruction::SendLoginStart {
                            username: s.username,
                            login_start_request: message,
                        },
                    ),
                ),
                None => spec_fail(s, Fault::Protocol),
            }
        },
        Event::AuthenticationStartResponse(response) => if s.phase
            != Phase::AwaitingLoginResponse {
            spec_fail(s, Fault::ContractViolation)
        } else {
            match (response, s.pending) {
                (Err(text), _) => spec_fail(s, Fault::Transport(text)),
                (Ok(credential_response), Pending::Login(context)) => (
                    Rotation {
                        pending: Pending::Empty,
                        task: false,
                        phase: Phase::VerifyingLogin,
                        ..s
                    },
                    Ok(Instruction::FinishLogin { context, credential_response }),
                ),
                (Ok(_), _) => spec_fail(s, Fault::ContractViolation),
            }
        },
        Event::LoginFinished(verified) => if s.phase != Phase::VerifyingLogin {
            spec_fail(s, Fault::ContractViolation)
        } else if verified {
            spec_begin_registration(s)
        } else {
            spec_fail(s, Fault::Credential)
        },
        Event::RegistrationInitiated(started) => if s.phase != Phase::InitiatingRegistration
            || !(s.pending is Empty) {
            spec_fail(s, Fault::ContractViolation)
        } else {
            match started {
                Some((context, message)) => (
                    Rotation {
                        pending: Pending::Registration(context),
                        task: true,
                        phase: Phase::AwaitingRegistrationStartResponse,
                        ..s
                    },
                    Ok(
                        Instruction::SendRegistrationStart {
                            username: s.username,
                            registration_start_request: message,
                        },
                    ),
                ),
                None => spec_fail(s, Fault::Protocol),
            }
        },
        Event::RegistrationStartResponse(response) => if s.phase
            != Phase::AwaitingRegistrationStartResponse {
            spec_fail(s, Fault::ContractViolation)
        } else {
            match (response, s.pending) {
                (Err(text), _) => spec_fail(s, Fault::Transport(text)),
                (Ok((registration_response, server_data)), Pending::Registration(context)) => (
                    Rotation {
                        pending: Pending::Empty,
                        task: false,
                        phase: Phase::SealingRegistration,
                        server_data: Some(server_data),
                        ..s
                    },
                    Ok(Instruction::FinishRegistration { context, registration_response }),
                ),
                (Ok(_), _) => spec_fail(s, Fault::ContractViolation),
            }
        },
        Event::RegistrationSealed(upload) => if s.phase != Phase::SealingRegistration {
            spec_fail(s, Fault::ContractViolation)
        } else {
            match (upload, s.server_data) {
                (None, _) => spec_fail(s, Fault::Protocol),
                (Some(registration_upload), Some(server_data)) => (
                    Rotation {
                        task: true,
                        phase: Phase::AwaitingRegistrationFinishResponse,
                        server_data: None,
                        ..s
                    },
                    Ok(Instruction::SendRegistrationFinish { server_data, registration_upload }),
                ),
                (Some(_), None) => spec_fail(s, Fault::ContractViolation),
            }
        },
        Event::RegistrationFinishResponse(response) => if s.phase
            != Phase::AwaitingRegistrationFinishResponse {
            spec_fail(s, Fault::ContractViolation)
        } else {
            match response {
                Ok(_) => (
                    Rotation { task: false, phase: Phase::Done, ..s },
                    Ok(Instruction::Finish(None)),
                ),
                Err(text) => spec_fail(s, Fault::Transport(text)),
            }
        },
    }
}

/// One event as the caller sees it: the error slot is cleared first, and an
/// error ends up in it and in the outcome that is handed back.
pub open spec fn spec_update(s: Rotation, msg: Event) -> (Rotation, Instruction) {
    let (t, r) = spec_handle(Rotation { error: None, ..s }, msg);
    match r {
        Ok(action) => (t, action),
        Err(error) => (
            Rotation { error: Some(error), task: false, ..t },
            Instruction::Finish(Some(error)),
        ),
    }
}

impl Rotation {
    /// The state of a component that has seen no event.
    pub open spec fn fresh(username: Seq<char>, is_admin: bool) -> Rotation {
        Rotation {
            username,
            is_admin,
            form: FormContent {
                old_password: Seq::empty(),
                password: Seq::empty(),
                confirm_password: Seq::empty(),
            },
            error: None,
            pending: Pending::Empty,
            task: false,
            phase: Phase::Idle,
            server_data: None,
        }
    }

    /// The parts of the state agree with the phase: a login context is
    /// pending exactly while the login answer is awaited, a registration
    /// context exactly while the registration answer is awaited, a request is
    /// in flight exactly in the three awaiting phases, the correlation token
    /// is held exactly while the upload is computed, and a privileged change
    /// is never in a login phase.
    pub open spec fn wf(self) -> bool {
        &&& self.pending is Login <==> self.phase == Phase::AwaitingLoginResponse
        &&& self.pending is Registration <==> self.phase
            == Phase::AwaitingRegistrationStartResponse
        &&& self.task <==> self.phase.spec_awaits_backend()
        &&& self.server_data is Some <==> self.phase == Phase::SealingRegistration
        &&& self.is_admin ==> !self.phase.in_login()
    }
}

impl ChangePasswordForm {
    /// A component for an empty form, with nothing pending.
    pub fn create(props: Props) -> (s: Self)
        ensures
            s@ == Rotation::fresh(props.username@, props.is_admin),
            s@.wf(),
    {
        ChangePasswordForm {
            props,
            form: FormModel::new(String::new(), String::new(), String::new()),
            error: None,
            opaque_data: OpaqueData::Empty,
            task: false,
            phase: Phase::Idle,
            server_data: None,
        }
    }

    /// Whether a submission would be looked at.
    pub fn can_submit(&self) -> (free: bool)
        ensures
            free == (self.phase == Phase::Idle),
    {
        self.phase == Phase::Idle
    }

    fn fail(&mut self, error: RotationError) -> (r: Result<Action, RotationError>)
        ensures
            (final(self)@, spec_result(r)) == spec_fail(old(self)@, error@),
    {
        self.opaque_data = OpaqueData::Empty;
        self.task = false;
        self.phase = Phase::Idle;
        self.server_data = None;
        Err(error)
    }

    fn begin_registration(&mut self) -> (r: Result<Action, RotationError>)
        ensures
            (final(self)@, spec_result(r)) == spec_begin_registration(old(self)@),
    {
        self.phase = Phase::InitiatingRegistration;
        Ok(Action::InitiateRegistration { password: self.form.password.clone() })
    }

    /// Applies one event according to the transition table.
    pub fn handle_message(&mut self, msg: Msg) -> (r: Result<Action, RotationError>)
        ensures
            (final(self)@, spec_result(r)) == spec_handle(old(self)@, msg@),
    {
        match msg {
            Msg::FormUpdate(model) => {
                if self.phase == Phase::Idle {
                    self.form = model;
                }
                Ok(Action::Nothing)
            },
            Msg::Submit => {
                if self.phase != Phase::Idle {
                    return Ok(Action::Nothing);
                }
                let findings = self.form.check(self.props.is_admin);
                if !findings.is_clean() {
                    return self.fail(RotationError::Validation(findings));
                }
                if self.props.is_admin {
                    self.begin_registration()
                } else {
                    self.phase = Phase::InitiatingLogin;
                    Ok(Action::InitiateLogin { password: self.form.old_password.clone() })
                }
            },
            Msg::LoginInitiated(started) => {
                if self.phase != Phase::InitiatingLogin || !self.opaque_data.is_empty() {
                    return self.fail(RotationError::ContractViolation);
                }
                match started {
                    Some(started) => {
                        self.opaque_data.store(OpaqueData::Login(started.state));
                        self.task = true;
                        self.phase = Phase::AwaitingLoginResponse;
                        Ok(
                            Action::SendLoginStart {
                                username: self.props.username.clone(),
                                login_start_request: started.message,
                            },
                        )
                    },
                    None => self.fail(RotationError::Protocol),
                }
            },
            Msg::AuthenticationStartResponse(response) => {
                if self.phase != Phase::AwaitingLoginResponse {
                    return self.fail(RotationError::ContractViolation);
                }
                match response {
                    Err(text) => self.fail(RotationError::Transport(text)),
                    Ok(credential_response) => match self.opaque_data.take() {
                        OpaqueData::Login(context) => {
                            self.task = false;
                            self.phase = Phase::VerifyingLogin;
                            Ok(Action::FinishLogin { context, credential_response })
                        },
                        _ => self.fail(RotationError::ContractViolation),
                    },
                }
            },
            Msg::LoginFinished(verified) => {
                if self.phase != Phase::VerifyingLogin {
                    return self.fail(RotationError::ContractViolation);
                }
                if verified {
                    self.begin_registration()
                } else {
                    self.fail(RotationError::Credential)
                }
            },
            Msg::RegistrationInitiated(started) => {
                if self.phase != Phase::InitiatingRegistration || !self.opaque_data.is_empty() {
                    return self.fail(RotationError::ContractViolation);
                }
                match started {
                    Some(started) => {
                        self.opaque_data.store(OpaqueData::Registration(started.state));
                        self.task = true;
                        self.phase = Phase::AwaitingRegistrationStartResponse;
                        Ok(
                            Action::SendRegistrationStart {
                                username: self.props.username.clone(),
                                registration_start_request: started.message,
                            },
                        )
                    },
                    None => self.fail(RotationError::Protocol),
                }
            },
            Msg::RegistrationStartResponse(response) => {
                if self.phase != Phase::AwaitingRegistrationStartResponse {
                    return self.fail(RotationError::ContractViolation);
                }
                match response {
                    Err(text) => self.fail(RotationError::Transport(text)),
                    Ok(reply) => match self.opaque_data.take() {
                        OpaqueData::Registration(context) => {
                            self.task = false;
                            self.phase = Phase::SealingRegistration;
                            self.server_data = Some(reply.server_data);
                            Ok(
                                Action::FinishRegistration {
                                    context,
                                    registration_response: reply.registration_response,
                                },
                            )
                        },
                        _ => self.fail(RotationError::ContractViolation),
                    },
                }
            },
            Msg::RegistrationSealed(upload) => {
                if self.phase != Phase::SealingRegistration {
                    return self.fail(RotationError::ContractViolation);
                }
                match upload {
                    None => self.fail(RotationError::Protocol),
                    Some(registration_upload) => match self.server_data.take() {
                        Some(server_data) => {
                            self.task = true;
                            self.phase = Phase::AwaitingRegistrationFinishResponse;
                            Ok(
                                Action::SendRegistrationFinish {
                                    server_data,
                                    registration_upload,
                                },
                            )
                        },
                        None => self.fail(RotationError::ContractViolation),
                    },
                }
            },
            Msg::RegistrationFinishResponse(response) => {
                if self.phase != Phase::AwaitingRegistrationFinishResponse {
                    return self.fail(RotationError::ContractViolation);
                }
                match response {
                    Ok(_) => {
                        self.task = false;
                        self.phase = Phase::Done;
                        Ok(Action::Finish(RotationOutcome::Success))
                    },
                    Err(text) => self.fail(RotationError::Transport(text)),
                }
            },
        }
    }

    /// Takes one event: clears the error slot, applies the event, and on an
    /// error fills the slot and hands the failure back as the outcome.
    pub fn update(&mut self, msg: Msg) -> (action: Action)
        ensures
            (final(self)@, action@) == spec_update(old(self)@, msg@),
    {
        self.error = None;
        match self.handle_message(msg) {
            Ok(action) => action,
            Err(error) => {
                let shown = error.duplicate();
                self.error = Some(error);
                self.task = false;
                Action::Finish(RotationOutcome::Failure(shown))
            },
        }
    }
}

} // verus!
