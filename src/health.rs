use vstd::prelude::*;
use vstd::string::StringExecFns;
use crate::credentials::token_view;

verus! {

/// The text of a connection failure, before the ledger name.
pub const CONNECT_FAILURE_HEAD: &'static str = "Unable to connect to ledger `";

/// The text of a connection failure, after the ledger name.
pub const CONNECT_FAILURE_TAIL: &'static str = "`.

Please check the following:

- That you have specified a ledger that exists and is active
- That the AWS region you are targeting is correct
- That your AWS credentials are setup
- That your AWS credentials grant access on this ledger

The following error chain may have more information:
";

/// The remediation message shown when no session can be started on `ledger`.
pub open spec fn connect_failure_message(ledger: Seq<char>) -> Seq<char> {
    CONNECT_FAILURE_HEAD@ + ledger + CONNECT_FAILURE_TAIL@
}

/// `text` holds `part` somewhere.
pub open spec fn contains(text: Seq<char>, part: Seq<char>) -> bool {
    exists|i: int|
        0 <= i && i + part.len() <= text.len() && #[trigger] text.subrange(i, i + part.len())
            == part
}

/// A misconfiguration that the user can correct, with a remediation message.
#[derive(Clone, Debug, PartialEq, Eq)]
pub struct UsageError {
    pub message: String,
}

/// Where a health-check stands.
#[derive(Clone, Copy, Debug, PartialEq, Eq, Structural)]
pub enum HealthCheckPhase {
    /// Nothing sent yet.
    Idle,
    /// The start-session request is out.
    AwaitingStart,
    /// The best-effort end-session request is out.
    AwaitingEnd,
    /// The check has succeeded or failed.
    Finished,
}

/// What the remote service answered, as the health-check sees it.
#[derive(Clone, Debug, PartialEq, Eq)]
pub enum HealthCheckEvent {
    /// The check is asked to run.
    Begin,
    /// A session was started; its token may be absent.
    StartSucceeded { session_token: Option<String> },
    /// No session could be started.
    StartFailed,
    /// The end-session request came back, well or not.
    EndCompleted { succeeded: bool },
}

/// What the caller is to do next.
#[derive(Clone, Debug, PartialEq, Eq)]
pub enum HealthCheckAction {
    /// Send a start-session request for the ledger.
    SendStartSession { ledger_name: String },
    /// Send an end-session request with the token that was handed out.
    SendEndSession { session_token: Option<String> },
    /// The check passed: hand back the client that was checked.
    ReturnClient,
    /// The check failed with this error.
    Fail(UsageError),
    /// The event does not apply in this phase: do nothing.
    Wait,
}

/// What one step of the health-check does, on `ledger`, in `phase`, given
/// `event`: `r` is the next phase and the action to take.
pub open spec fn step_post(
    ledger: Seq<char>,
    phase: HealthCheckPhase,
    event: HealthCheckEvent,
    r: (HealthCheckPhase, HealthCheckAction),
) -> bool {
    match (phase, event) {
        (HealthCheckPhase::Idle, HealthCheckEvent::Begin) => {
            &&& r.0 == HealthCheckPhase::AwaitingStart
            &&& (r.1 matches HealthCheckAction::SendStartSession { ledger_name }
                && ledger_name@ == ledger)
        },
        (HealthCheckPhase::AwaitingStart, HealthCheckEvent::StartSucceeded { session_token: t }) => {
            &&& r.0 == HealthCheckPhase::AwaitingEnd
            &&& (r.1 matches HealthCheckAction::SendEndSession { session_token }
                && token_view(session_token) == token_view(t))
        },
        (HealthCheckPhase::AwaitingStart, HealthCheckEvent::StartFailed) => {
            &&& r.0 == HealthCheckPhase::Finished
            &&& (r.1 matches HealthCheckAction::Fail(e)
                && e.message@ == connect_failure_message(ledger))
        },
        (HealthCheckPhase::AwaitingEnd, HealthCheckEvent::EndCompleted { .. }) => {
            &&& r.0 == HealthCheckPhase::Finished
            &&& r.1 is ReturnClient
        },
        _ => r.0 == phase && r.1 is Wait,
    }
}

/// The usage error for a ledger on which no session could be started.
pub fn connect_failure(ledger: &str) -> (r: UsageError)
    ensures
        r.message@ == connect_failure_message(ledger@),
{
    let mut message = CONNECT_FAILURE_HEAD.to_owned();
    message.append(ledger);
    message.append(CONNECT_FAILURE_TAIL);
    UsageError { message }
}

/// One step of the health-check protocol on `ledger`: start a session, then
/// end it as a courtesy. A failed start fails the check; how the end-session
/// request fared never does.
pub fn health_check_step(ledger: &str, phase: HealthCheckPhase, event: HealthCheckEvent) -> (r: (
    HealthCheckPhase,
    HealthCheckAction,
))
    ensures
        step_post(ledger@, phase, event, r),
{
    match (phase, event) {
        (HealthCheckPhase::Idle, HealthCheckEvent::Begin) => (
            HealthCheckPhase::AwaitingStart,
            HealthCheckAction::SendStartSession { ledger_name: ledger.to_owned() },
        ),
        (HealthCheckPhase::AwaitingStart, HealthCheckEvent::StartSucceeded { session_token }) => (
            HealthCheckPhase::AwaitingEnd,
            HealthCheckAction::SendEndSession { session_token },
        ),
        (HealthCheckPhase::AwaitingStart, HealthCheckEvent::StartFailed) => (
            HealthCheckPhase::Finished,
            HealthCheckAction::Fail(connect_failure(ledger)),
        ),
        (HealthCheckPhase::AwaitingEnd, HealthCheckEvent::EndCompleted { .. }) => (
            HealthCheckPhase::Finished,
            HealthCheckAction::ReturnClient,
        ),
        _ => (phase, HealthCheckAction::Wait),
    }
}

/// The message of a connection failure names the ledger.
pub proof fn lemma_connect_failure_names_ledger(ledger: Seq<char>)
    ensures
        contains(connect_failure_message(ledger), ledger),
{
    let m = connect_failure_message(ledger);
    let i = CONNECT_FAILURE_HEAD@.len() as int;
    assert(m.subrange(i, i + ledger.len()) =~= ledger);
}

/// A start-session request that fails ends the check with a usage error whose
/// message names the ledger.
pub proof fn lemma_failed_start_fails_naming_ledger(
    ledger: Seq<char>,
    first: (HealthCheckPhase, HealthCheckAction),
    second: (HealthCheckPhase, HealthCheckAction),
)
    requires
        step_post(ledger, HealthCheckPhase::Idle, HealthCheckEvent::Begin, first),
        step_post(ledger, first.0, HealthCheckEvent::StartFailed, second),
    ensures
        second.0 == HealthCheckPhase::Finished,
        second.1 matches HealthCheckAction::Fail(e) && contains(e.message@, ledger),
{
    lemma_connect_failure_names_ledger(ledger);
}

/// Once a session was started, the check succeeds and hands back the checked
/// client however the end-session request fared.
pub proof fn lemma_end_outcome_ignored(
    ledger: Seq<char>,
    session_token: Option<String>,
    end_succeeded: bool,
    first: (HealthCheckPhase, HealthCheckAction),
    second: (HealthCheckPhase, HealthCheckAction),
    third: (HealthCheckPhase, HealthCheckAction),
)
    requires
        step_post(ledger, HealthCheckPhase::Idle, HealthCheckEvent::Begin, first),
        step_post(ledger, first.0, HealthCheckEvent::StartSucceeded { session_token }, second),
        step_post(ledger, second.0, HealthCheckEvent::EndCompleted { succeeded: end_succeeded }, third),
    ensures
        second.1 matches HealthCheckAction::SendEndSession { session_token: t } && token_view(t)
            == token_view(session_token),
        third.0 == HealthCheckPhase::Finished,
        third.1 is ReturnClient,
{
}

} // verus!
