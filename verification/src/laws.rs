use vstd::prelude::*;
use crate::form::{
    spec_empty_or_long, spec_field_message, Field, FormContent, MIN_PASSWORD_LENGTH,
};
use crate::machine::{spec_handle, spec_update, Rotation};
use crate::protocol::{Event, Fault, Instruction, Phase};
use crate::slot::Pending;

verus! {

/// A form whose current password is present and acceptable, whose new
/// password has at least eight characters and whose confirmation repeats it
/// is valid for a self-service change.
pub proof fn law_well_formed_form_is_valid(form: FormContent)
    requires
        form.old_password.len() > 0,
        spec_empty_or_long(form.old_password),
        form.password.len() >= MIN_PASSWORD_LENGTH,
        form.confirm_password == form.password,
    ensures
        form.valid(false),
        form.findings(false).spec_is_clean(),
{
}

/// A new password that is too short makes the form invalid, whoever submits
/// it, and the new password's field carries a message.
pub proof fn law_short_password_is_named(form: FormContent, is_admin: bool)
    requires
        form.password.len() < MIN_PASSWORD_LENGTH,
    ensures
        !form.valid(is_admin),
        form.findings(is_admin).password_short,
        spec_field_message(form.findings(is_admin), Field::Password).len() > 0,
{
    reveal_strlit("Invalid password. Min length: 8");
}

/// A confirmation that differs from the new password makes the form
/// invalid, whoever submits it, and the confirmation's field carries a
/// message.
pub proof fn law_mismatch_is_named(form: FormContent, is_admin: bool)
    requires
        form.confirm_password != form.password,
    ensures
        !form.valid(is_admin),
        form.findings(is_admin).confirm_mismatch,
        spec_field_message(form.findings(is_admin), Field::ConfirmPassword).len() > 0,
{
    reveal_strlit("Passwords must match");
}

/// At rest, a self-service submission of a form with a current password of
/// at least eight characters, a new password of at least eight characters and
/// a matching confirmation is accepted: the error slot is empty, nothing else
/// changes but the phase, and the login is asked for with the current
/// password.
pub proof fn law_valid_submission_starts_login(s: Rotation)
    requires
        s.phase == Phase::Idle,
        !s.is_admin,
        s.form.old_password.len() >= MIN_PASSWORD_LENGTH,
        s.form.password.len() >= MIN_PASSWORD_LENGTH,
        s.form.confirm_password == s.form.password,
    ensures
        spec_update(s, Event::Submit) == (
            Rotation { error: None, phase: Phase::InitiatingLogin, ..s },
            Instruction::InitiateLogin { password: s.form.old_password },
        ),
{
}

/// Once the login was asked for, the report that it was started has exactly
/// the reported message sent under the user's name, keeps the reported
/// context as the pending login and puts the request in flight. No step of
/// the registration is taken.
pub proof fn law_started_login_is_sent(s: Rotation, context: Seq<u8>, message: Seq<u8>)
    requires
        s.wf(),
        s.phase == Phase::InitiatingLogin,
    ensures
        spec_update(s, Event::LoginInitiated(Some((context, message)))) == (
            Rotation {
                error: None,
                pending: Pending::Login(context),
                task: true,
                phase: Phase::AwaitingLoginResponse,
                ..s
            },
            Instruction::SendLoginStart { username: s.username, login_start_request: message },
        ),
{
}

/// At rest, a submission whose confirmation differs from the new password
/// fails with a validation error, whoever submits it and whatever the other
/// fields hold. The findings give the confirmation's field a message, nothing
/// is asked of the caller, and the slot is empty as it was.
pub proof fn law_mismatch_fails_submission(s: Rotation)
    requires
        s.wf(),
        s.phase == Phase::Idle,
        s.form.confirm_password != s.form.password,
    ensures
        ({
            let findings = s.form.findings(s.is_admin);
            &&& spec_handle(s, Event::Submit) == (s, Err::<Instruction, Fault>(Fault::Validation(findings)))
            &&& findings.confirm_mismatch
            &&& spec_field_message(findings, Field::ConfirmPassword).len() > 0
            &&& s.pending is Empty
        }),
{
    reveal_strlit("Passwords must match");
}

/// At rest, a submission whose new password has fewer than eight characters
/// ends the attempt, whoever submits it and whatever the other fields hold:
/// the error slot holds the validation error, nothing is in flight, nothing
/// is pending, and the findings give the new password's field a message.
pub proof fn law_short_password_fails_submission(s: Rotation)
    requires
        s.phase == Phase::Idle,
        s.form.password.len() < MIN_PASSWORD_LENGTH,
    ensures
        ({
            let findings = s.form.findings(s.is_admin);
            let (t, action) = spec_update(s, Event::Submit);
            &&& action == Instruction::Finish(Some(Fault::Validation(findings)))
            &&& t.error == Some(Fault::Validation(findings))
            &&& !t.task
            &&& t.pending is Empty
            &&& t.phase == Phase::Idle
            &&& findings.password_short
            &&& spec_field_message(findings, Field::Password).len() > 0
        }),
{
    reveal_strlit("Invalid password. Min length: 8");
}

/// While the answer to the upload is awaited, the backend's confirmation
/// ends the attempt in success: nothing is pending, nothing is in flight and
/// the error slot is empty.
pub proof fn law_stored_upload_is_success(s: Rotation)
    requires
        s.wf(),
        s.phase == Phase::AwaitingRegistrationFinishResponse,
    ensures
        ({
            let (t, action) = spec_update(s, Event::RegistrationFinishResponse(Ok(())));
            &&& action == Instruction::Finish(None)
            &&& t == Rotation { error: None, task: false, phase: Phase::Done, ..s }
            &&& t.pending is Empty
            &&& !t.task
            &&& t.error is None
        }),
{
}

/// Every event leaves a coherent state coherent.
pub proof fn law_update_keeps_coherence(s: Rotation, msg: Event)
    requires
        s.wf(),
    ensures
        spec_update(s, msg).0.wf(),
{
}

/// When an attempt ends, in success or in failure, no context is pending, no
/// request is in flight and no correlation token is held; and a context is
/// only ever pending while the answer to its request is outstanding.
pub proof fn law_nothing_pending_outside_round_trip(s: Rotation, msg: Event)
    requires
        s.wf(),
    ensures
        ({
            let (t, action) = spec_update(s, msg);
            &&& action is Finish ==> t.pending is Empty && !t.task && t.server_data is None
            &&& action is Finish ==> t.phase == Phase::Idle || t.phase == Phase::Done
            &&& t.error is Some ==> t.phase == Phase::Idle && action is Finish
            &&& !(t.pending is Empty) ==> t.task
        }),
{
}

/// A request is handed to the backend only while none is in flight, and is
/// in flight afterwards; nothing else puts one in flight.
pub proof fn law_one_request_in_flight(s: Rotation, msg: Event)
    requires
        s.wf(),
    ensures
        ({
            let (t, action) = spec_update(s, msg);
            &&& action.is_request() ==> !s.task && t.task
            &&& t.task && !action.is_request() ==> s.task && action is Nothing && t.phase
                == s.phase
        }),
{
}

/// An attempt visits the phases in their order: an event leaves the phase as
/// it is, ends the attempt, or leads to the next phase. The one exception is
/// a privileged submission, which goes from `Idle` to the start of the
/// registration. Each request belongs to the step into its awaiting phase,
/// and the login context is handed out for checking exactly on the step out
/// of the phase that awaits the login answer.
pub proof fn law_phases_in_order(s: Rotation, msg: Event)
    requires
        s.wf(),
    ensures
        ({
            let (t, action) = spec_update(s, msg);
            &&& (t.phase == s.phase || t.phase == Phase::Idle || t.phase.rank() == s.phase.rank()
                + 1 || (s.is_admin && s.phase == Phase::Idle && t.phase
                == Phase::InitiatingRegistration))
            &&& action is SendLoginStart <==> s.phase == Phase::InitiatingLogin && t.phase
                == Phase::AwaitingLoginResponse
            &&& action is FinishLogin <==> s.phase == Phase::AwaitingLoginResponse && t.phase
                == Phase::VerifyingLogin
            &&& action is SendRegistrationStart <==> s.phase == Phase::InitiatingRegistration
                && t.phase == Phase::AwaitingRegistrationStartResponse
            &&& action is SendRegistrationFinish <==> s.phase == Phase::SealingRegistration
                && t.phase == Phase::AwaitingRegistrationFinishResponse
        }),
{
}

/// A privileged change never takes a step of the login exchange.
pub proof fn law_privileged_skips_login(s: Rotation, msg: Event)
    requires
        s.wf(),
        s.is_admin,
    ensures
        !spec_update(s, msg).1.is_login_step(),
        !spec_update(s, msg).0.phase.in_login(),
{
}

/// The state after the events of `msgs`, taken in order.
pub open spec fn spec_run(s: Rotation, msgs: Seq<Event>) -> Rotation
    decreases msgs.len(),
{
    if msgs.len() == 0 {
        s
    } else {
        spec_update(spec_run(s, msgs.drop_last()), msgs.last()).0
    }
}

/// What the caller is asked to do on event `i` of `msgs`.
pub open spec fn spec_action_at(s: Rotation, msgs: Seq<Event>, i: int) -> Instruction
    recommends
        0 <= i < msgs.len(),
{
    spec_update(spec_run(s, msgs.take(i)), msgs[i]).1
}

/// After each of the events `j + 1` to `n` the attempt is still under way.
pub open spec fn spec_same_attempt(s: Rotation, msgs: Seq<Event>, j: int, n: int) -> bool {
    forall|k: int| j < k <= n ==> (#[trigger] spec_run(s, msgs.take(k))).phase != Phase::Idle
}

/// Among the first `n` events one had the login request sent, and the
/// attempt that it belongs to is still under way after event `n`.
pub open spec fn spec_login_sent_in_attempt(s: Rotation, msgs: Seq<Event>, n: int) -> bool {
    exists|j: int|
        0 <= j < n && (#[trigger] spec_action_at(s, msgs, j)) is SendLoginStart
            && spec_same_attempt(s, msgs, j, n)
}

proof fn lemma_run_step(s: Rotation, msgs: Seq<Event>, n: int)
    requires
        0 < n <= msgs.len(),
    ensures
        spec_run(s, msgs.take(n)) == spec_update(spec_run(s, msgs.take(n - 1)), msgs[n - 1]).0,
{
    assert(msgs.take(n).drop_last() =~= msgs.take(n - 1));
    assert(msgs.take(n).last() == msgs[n - 1]);
}

/// Every state that a sequence of events leads to from a coherent state is
/// coherent, and is a state of the same user with the same authority.
pub proof fn law_run_keeps_coherence(s: Rotation, msgs: Seq<Event>)
    requires
        s.wf(),
    ensures
        spec_run(s, msgs).wf(),
        spec_run(s, msgs).username == s.username,
        spec_run(s, msgs).is_admin == s.is_admin,
    decreases msgs.len(),
{
    if msgs.len() > 0 {
        law_run_keeps_coherence(s, msgs.drop_last());
        law_update_keeps_coherence(spec_run(s, msgs.drop_last()), msgs.last());
    }
}

/// Among the first `n` events one had the login request sent and a later
/// one brought its answer, which was handed out for checking; and the attempt
/// that both belong to is still under way after event `n`.
pub open spec fn spec_login_round_trip_in_attempt(s: Rotation, msgs: Seq<Event>, n: int) -> bool {
    exists|j: int, v: int|
        0 <= j < v < n && (#[trigger] spec_action_at(s, msgs, j)) is SendLoginStart
            && (#[trigger] spec_action_at(s, msgs, v)) is FinishLogin && spec_same_attempt(
            s,
            msgs,
            j,
            n,
        )
}

proof fn lemma_login_witness(s: Rotation, msgs: Seq<Event>, n: int)
    requires
        s.wf(),
        s.phase == Phase::Idle,
        !s.is_admin,
        0 <= n <= msgs.len(),
    ensures
        2 <= spec_run(s, msgs.take(n)).phase.rank() <= 7 ==> spec_login_sent_in_attempt(
            s,
            msgs,
            n,
        ),
        3 <= spec_run(s, msgs.take(n)).phase.rank() <= 7 ==> spec_login_round_trip_in_attempt(
            s,
            msgs,
            n,
        ),
    decreases n,
{
    if n > 0 {
        let u = spec_run(s, msgs.take(n - 1));
        let t = spec_run(s, msgs.take(n));
        lemma_login_witness(s, msgs, n - 1);
        lemma_run_step(s, msgs, n);
        law_run_keeps_coherence(s, msgs.take(n - 1));
        law_phases_in_order(u, msgs[n - 1]);
        if 2 <= t.phase.rank() <= 7 {
            if u.phase == Phase::InitiatingLogin {
                assert(spec_action_at(s, msgs, n - 1) is SendLoginStart);
                assert(spec_same_attempt(s, msgs, n - 1, n));
            } else {
                assert(2 <= u.phase.rank() <= 7);
                let j = choose|j: int|
                    0 <= j < n - 1 && (#[trigger] spec_action_at(s, msgs, j)) is SendLoginStart
                        && spec_same_attempt(s, msgs, j, n - 1);
                assert(spec_same_attempt(s, msgs, j, n));
                if 3 <= t.phase.rank() {
                    if u.phase == Phase::AwaitingLoginResponse {
                        assert(spec_action_at(s, msgs, n - 1) is FinishLogin);
                    } else {
                        let (j2, v2) = choose|j: int, v: int|
                            0 <= j < v < n - 1 && (#[trigger] spec_action_at(s, msgs, j))
                                is SendLoginStart && (#[trigger] spec_action_at(s, msgs, v))
                                is FinishLogin && spec_same_attempt(s, msgs, j, n - 1);
                        assert(spec_same_attempt(s, msgs, j2, n));
                    }
                }
            }
        }
    }
}

/// In a self-service change that starts from rest, the registration request
/// is sent only after the login round trip of the same attempt: the login
/// request was sent, and its answer came and was handed out for checking.
pub proof fn law_login_precedes_registration(s: Rotation, msgs: Seq<Event>, i: int)
    requires
        s.wf(),
        s.phase == Phase::Idle,
        !s.is_admin,
        0 <= i < msgs.len(),
        spec_action_at(s, msgs, i) is SendRegistrationStart,
    ensures
        spec_login_round_trip_in_attempt(s, msgs, i),
{
    law_run_keeps_coherence(s, msgs.take(i));
    law_phases_in_order(spec_run(s, msgs.take(i)), msgs[i]);
    lemma_login_witness(s, msgs, i);
}

/// In a self-service change the registration is started only on the report
/// that the login answer fits the current password.
pub proof fn law_registration_needs_verified_login(s: Rotation, msg: Event)
    requires
        s.wf(),
        !s.is_admin,
        spec_update(s, msg).1 is InitiateRegistration,
    ensures
        s.phase == Phase::VerifyingLogin,
        msg == Event::LoginFinished(true),
{
}

/// In a privileged change no event ever leads to a step of the login
/// exchange.
pub proof fn law_privileged_never_logs_in(s: Rotation, msgs: Seq<Event>, i: int)
    requires
        s.wf(),
        s.is_admin,
        0 <= i < msgs.len(),
    ensures
        !spec_action_at(s, msgs, i).is_login_step(),
{
    law_run_keeps_coherence(s, msgs.take(i));
    law_privileged_skips_login(spec_run(s, msgs.take(i)), msgs[i]);
}

/// Two components at rest for the same user and the same form answer the
/// same events with the same actions and end in the same state, whatever
/// error an earlier attempt left in either.
pub proof fn law_replay_gives_same_outcome(
    a: Rotation,
    b: Rotation,
    msgs: Seq<Event>,
    i: int,
)
    requires
        a.wf(),
        b.wf(),
        a.phase == Phase::Idle,
        b.phase == Phase::Idle,
        a.username == b.username,
        a.is_admin == b.is_admin,
        a.form == b.form,
        0 <= i < msgs.len(),
    ensures
        spec_action_at(a, msgs, i) == spec_action_at(b, msgs, i),
        spec_run(a, msgs.take(i + 1)) == spec_run(b, msgs.take(i + 1)),
    decreases i,
{
    lemma_run_step(a, msgs, i + 1);
    lemma_run_step(b, msgs, i + 1);
    if i > 0 {
        law_replay_gives_same_outcome(a, b, msgs, i - 1);
    } else {
        assert(msgs.take(0).len() == 0);
        assert(Rotation { error: None, ..a } == Rotation { error: None, ..b });
    }
}

} // verus!
