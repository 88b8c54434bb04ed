//! One sign-in cycle, as a state machine: probe, fetch the portal's form,
//! post the login, verify, and try again after a failed login.
//!
//! The machine performs nothing itself. `Session::step` takes what the
//! caller saw last (an answer to a request, or a timer that ran out) and
//! returns what to do next.

use vstd::prelude::*;
use vstd::arithmetic::power2::{lemma2_to64, lemma2_to64_rest, lemma_pow2_unfold, pow2};
use crate::error::{AppError, AppErrorView};
use crate::captive_portal::{
    connectivity, describe_status, extract_magic_value, form_token, is_redirection, is_success,
    login_form, login_request, probe_reading, read_probe, settle_probe, status_text,
    submission_accepted, success_status,
    ConnectivityResult, ConnectivityResultView, Credentials, CredentialsView, HttpReply,
    HttpReplyView, LoginRequest, LoginRequestView, ProbeFailure, ProbeFailureView, NO_CONTENT,
};

verus! {

/// How often a login is attempted in one cycle, at most.
pub const MAX_LOGIN_ATTEMPTS: u32 = 3;

/// The pause after the first failed login, in seconds. Each later pause is
/// twice the one before.
pub const INITIAL_RETRY_DELAY_SECS: u64 = 2;

/// The pause between a posted login and the probe that verifies it, in
/// seconds.
pub const VERIFY_SETTLE_SECS: u64 = 2;

/// The pause after failed attempt number `attempt`, counted from 1.
pub open spec fn backoff_secs(attempt: nat) -> nat {
    INITIAL_RETRY_DELAY_SECS as nat * pow2((attempt - 1) as nat)
}

/// The pause after failed attempt number `attempt`, counted from 1.
pub fn backoff_delay(attempt: u32) -> (secs: u64)
    requires
        1 <= attempt <= 63,
    ensures
        secs == backoff_secs(attempt as nat),
{
    let mut secs: u64 = INITIAL_RETRY_DELAY_SECS;
    let mut done: u32 = 1;
    proof {
        lemma2_to64();
    }
    while done < attempt
        invariant
            1 <= done <= attempt <= 63,
            secs == backoff_secs(done as nat),
        decreases attempt - done,
    {
        proof {
            lemma_pow2_unfold(done as nat);
            lemma_pow2_bound(done as nat);
        }
        secs = secs * 2;
        done = done + 1;
    }
    secs
}

/// A power of two below the 63rd is at most the 62nd.
proof fn lemma_pow2_bound(e: nat)
    requires
        e < 63,
    ensures
        pow2(e) <= 0x4000_0000_0000_0000,
    decreases 62 - e,
{
    if e == 62 {
        lemma2_to64_rest();
    } else {
        lemma_pow2_bound(e + 1);
        lemma_pow2_unfold(e + 1);
    }
}

/// How a cycle ended well.
#[derive(Clone, Copy, Debug, PartialEq, Eq, Structural)]
pub enum Success {
    /// The first probe already showed that no portal stands in the way.
    NoPortal,
    /// A login was posted and taken. `verified` tells whether the probe
    /// after it confirmed that the internet is reachable; where that probe
    /// did not get through, the login is taken to have worked, unconfirmed.
    LoggedIn { verified: bool },
}

/// Why a cycle failed.
#[derive(Debug, PartialEq, Eq)]
pub enum Failure {
    /// The connectivity probe gave no reading.
    Probe { source: ProbeFailure },
    /// The portal's page could not be fetched.
    PortalUnreachable { cause: String },
    /// The portal's page held no one-time value.
    TokenMissing,
    /// The login could not be posted.
    SubmitFailed { cause: String },
    /// The portal refused the posted login.
    Rejected { status: u16, body: String },
    /// The portal took the login, and the probe after it still showed no
    /// internet.
    VerificationFailed,
}

/// A `Failure` as contracts see it.
pub enum FailureView {
    Probe { source: ProbeFailureView },
    PortalUnreachable { cause: Seq<char> },
    TokenMissing,
    SubmitFailed { cause: Seq<char> },
    Rejected { status: u16, body: Seq<char> },
    VerificationFailed,
}

impl View for Failure {
    type V = FailureView;

    open spec fn view(&self) -> FailureView {
        match self {
            Failure::Probe { source } => FailureView::Probe { source: source@ },
            Failure::PortalUnreachable { cause } => FailureView::PortalUnreachable {
                cause: cause@,
            },
            Failure::TokenMissing => FailureView::TokenMissing,
            Failure::SubmitFailed { cause } => FailureView::SubmitFailed { cause: cause@ },
            Failure::Rejected { status, body } => FailureView::Rejected {
                status: *status,
                body: body@,
            },
            Failure::VerificationFailed => FailureView::VerificationFailed,
        }
    }
}

/// The error for a login that the portal refused with a status that is
/// written `status_text`.
pub open spec fn rejection_error(status_text: Seq<char>) -> AppErrorView {
    AppErrorView::LoginFailed("Login failed with status code: "@ + status_text)
}

/// The error for a login that the portal refused: `status_text` is the
/// status as it is written.
pub fn rejected_login_error(status_text: &str) -> (e: AppError)
    ensures
        e@ == rejection_error(status_text@),
{
    AppError::LoginFailed(String::from_str("Login failed with status code: ").concat(status_text))
}

/// The error that stands for a failed cycle: a network error where a
/// request did not get through or the probe was answered with an
/// unexpected status, a failed login otherwise.
pub open spec fn failure_error(failure: FailureView) -> AppErrorView {
    match failure {
        FailureView::Probe { source: ProbeFailureView::Status { status, cause } } => {
            AppErrorView::Network(cause)
        },
        FailureView::Probe { source: ProbeFailureView::Transport { cause } } => {
            AppErrorView::Network(cause)
        },
        FailureView::PortalUnreachable { cause } => AppErrorView::Network(cause),
        FailureView::TokenMissing => AppErrorView::LoginFailed("token extraction failed"@),
        FailureView::SubmitFailed { cause } => AppErrorView::Network(cause),
        FailureView::Rejected { status, body } => rejection_error(status_text(status)),
        FailureView::VerificationFailed => AppErrorView::LoginFailed("verification failed"@),
    }
}

impl Failure {
    /// The error that stands for this failure.
    pub fn to_error(&self) -> (e: AppError)
        ensures
            e@ == failure_error(self@),
    {
        match self {
            Failure::Probe { source: ProbeFailure::Status { status, cause } } => {
                AppError::Network(cause.clone())
            },
            Failure::Probe { source: ProbeFailure::Transport { cause } } => AppError::Network(
                cause.clone(),
            ),
            Failure::PortalUnreachable { cause } => AppError::Network(cause.clone()),
            Failure::TokenMissing => AppError::LoginFailed("token extraction failed".to_owned()),
            Failure::SubmitFailed { cause } => AppError::Network(cause.clone()),
            Failure::Rejected { status, body } => {
                let status_text: String = describe_status(*status);
                rejected_login_error(status_text.as_str())
            },
            Failure::VerificationFailed => AppError::LoginFailed("verification failed".to_owned()),
        }
    }
}

impl Success {
    /// Whether the internet was seen to be reachable: by the first probe,
    /// or by the probe that verified a login.
    pub open spec fn is_confirmed(self) -> bool {
        match self {
            Success::NoPortal => true,
            Success::LoggedIn { verified } => verified,
        }
    }

    /// Tells whether the internet was seen to be reachable.
    pub fn confirmed(&self) -> (b: bool)
        ensures
            b == self.is_confirmed(),
    {
        match self {
            Success::NoPortal => true,
            Success::LoggedIn { verified } => *verified,
        }
    }
}

/// Where a cycle stands.
#[derive(Debug, PartialEq, Eq)]
pub enum Phase {
    /// Nothing has been asked for yet.
    Idle,
    /// A connectivity probe is under way. `indistinct_seen` tells whether
    /// the probe before it in this attempt was indistinct.
    Probing { indistinct_seen: bool },
    /// The portal's page is being fetched.
    TokenFetch { portal_url: String },
    /// The login has been posted.
    Submitting,
    /// The portal took the login; the pause before verifying runs.
    Settling,
    /// The probe that verifies the login is under way.
    Verifying,
    /// A login failed for `reason`; the session with the portal is being
    /// ended.
    LoggingOut { reason: Failure },
    /// The pause after a failed login runs.
    BackingOff { reason: Failure },
    /// The cycle ended well.
    Succeeded { how: Success },
    /// The cycle failed.
    Failed { reason: Failure },
}

/// A `Phase` as contracts see it.
pub enum PhaseView {
    Idle,
    Probing { indistinct_seen: bool },
    TokenFetch { portal_url: Seq<char> },
    Submitting,
    Settling,
    Verifying,
    LoggingOut { reason: FailureView },
    BackingOff { reason: FailureView },
    Succeeded { how: Success },
    Failed { reason: FailureView },
}

impl View for Phase {
    type V = PhaseView;

    open spec fn view(&self) -> PhaseView {
        match self {
            Phase::Idle => PhaseView::Idle,
            Phase::Probing { indistinct_seen } => PhaseView::Probing {
                indistinct_seen: *indistinct_seen,
            },
            Phase::TokenFetch { portal_url } => PhaseView::TokenFetch { portal_url: portal_url@ },
            Phase::Submitting => PhaseView::Submitting,
            Phase::Settling => PhaseView::Settling,
            Phase::Verifying => PhaseView::Verifying,
            Phase::LoggingOut { reason } => PhaseView::LoggingOut { reason: reason@ },
            Phase::BackingOff { reason } => PhaseView::BackingOff { reason: reason@ },
            Phase::Succeeded { how } => PhaseView::Succeeded { how: *how },
            Phase::Failed { reason } => PhaseView::Failed { reason: reason@ },
        }
    }
}

/// What the caller saw since the last step.
#[derive(Debug, PartialEq, Eq)]
pub enum Event {
    /// A check is due.
    Trigger,
    /// The request asked for last has ended.
    Reply { reply: HttpReply },
    /// The pause asked for last is over.
    TimerElapsed,
}

/// An `Event` as contracts see it.
pub enum EventView {
    Trigger,
    Reply { reply: HttpReplyView },
    TimerElapsed,
}

impl View for Event {
    type V = EventView;

    open spec fn view(&self) -> EventView {
        match self {
            Event::Trigger => EventView::Trigger,
            Event::Reply { reply } => EventView::Reply { reply: reply@ },
            Event::TimerElapsed => EventView::TimerElapsed,
        }
    }
}

/// What the caller is to do next.
#[derive(PartialEq, Eq)]
pub enum Action {
    /// Send a connectivity probe and report its answer.
    Probe,
    /// Fetch the page at `url` and report the answer.
    FetchPage { url: String },
    /// Post the login form and report the answer.
    Submit { request: LoginRequest },
    /// Wait `secs` seconds for the login to take effect.
    Settle { secs: u64 },
    /// End the session with the portal and report the answer, whatever it
    /// is.
    Logout,
    /// Wait `secs` seconds before the next attempt.
    Backoff { secs: u64 },
    /// The cycle is over.
    Finish,
    /// The event does not belong to this point of the cycle: do nothing.
    Ignore,
}

/// An `Action` as contracts see it.
pub enum ActionView {
    Probe,
    FetchPage { url: Seq<char> },
    Submit { request: LoginRequestView },
    Settle { secs: nat },
    Logout,
    Backoff { secs: nat },
    Finish,
    Ignore,
}

impl View for Action {
    type V = ActionView;

    open spec fn view(&self) -> ActionView {
        match self {
            Action::Probe => ActionView::Probe,
            Action::FetchPage { url } => ActionView::FetchPage { url: url@ },
            Action::Submit { request } => ActionView::Submit { request: request@ },
            Action::Settle { secs } => ActionView::Settle { secs: *secs as nat },
            Action::Logout => ActionView::Logout,
            Action::Backoff { secs } => ActionView::Backoff { secs: *secs as nat },
            Action::Finish => ActionView::Finish,
            Action::Ignore => ActionView::Ignore,
        }
    }
}

/// A cycle, as contracts see it.
pub struct SessionView {
    pub phase: PhaseView,
    /// The number of the attempt under way, counted from 1; 0 before the
    /// cycle starts.
    pub attempt: nat,
    /// The portal address that the last probe of this cycle detected.
    pub detected: Option<Seq<char>>,
}

impl SessionView {
    /// The cycle before anything was asked for.
    pub open spec fn initial() -> SessionView {
        SessionView { phase: PhaseView::Idle, attempt: 0, detected: None }
    }

    /// The attempt number fits the phase: none before the start, and from
    /// one to the maximum afterwards.
    pub open spec fn wf(self) -> bool {
        match self.phase {
            PhaseView::Idle => self.attempt == 0,
            _ => 1 <= self.attempt <= MAX_LOGIN_ATTEMPTS,
        }
    }

    /// The cycle is over.
    pub open spec fn finished(self) -> bool {
        self.phase is Succeeded || self.phase is Failed
    }

    /// The cycle ended with the internet seen to be reachable.
    pub open spec fn confirmed(self) -> bool {
        self.phase matches PhaseView::Succeeded { how } && how.is_confirmed()
    }

    /// What a finished cycle comes to: whether a login took place, or the
    /// error that stands for the failure. `None` while the cycle runs.
    pub open spec fn result(self) -> Option<core::result::Result<bool, AppErrorView>> {
        match self.phase {
            PhaseView::Succeeded { how } => Some(Ok(how is LoggedIn)),
            PhaseView::Failed { reason } => Some(Err(failure_error(reason))),
            _ => None,
        }
    }

    pub open spec fn with_phase(self, phase: PhaseView) -> SessionView {
        SessionView { phase, ..self }
    }
}

/// A cycle that ends in `phase`.
pub open spec fn finish(s: SessionView, phase: PhaseView) -> (SessionView, ActionView) {
    (s.with_phase(phase), ActionView::Finish)
}

/// A failed login: the session with the portal is ended first, whichever
/// attempt it was.
pub open spec fn login_failed(s: SessionView, reason: FailureView) -> (SessionView, ActionView) {
    (s.with_phase(PhaseView::LoggingOut { reason }), ActionView::Logout)
}

/// The step at the end of the pause after a failed login: the next
/// attempt while attempts are left, otherwise the end of the cycle, which
/// fails for the reason of the last attempt.
pub open spec fn after_backoff(s: SessionView, reason: FailureView) -> (SessionView, ActionView) {
    if s.attempt < MAX_LOGIN_ATTEMPTS {
        (
            SessionView {
                phase: PhaseView::Probing { indistinct_seen: false },
                attempt: s.attempt + 1,
                detected: s.detected,
            },
            ActionView::Probe,
        )
    } else {
        finish(s, PhaseView::Failed { reason })
    }
}

/// The step on an answer to a connectivity probe at the start of an
/// attempt.
pub open spec fn on_probe(s: SessionView, indistinct_seen: bool, reply: HttpReplyView) -> (
    SessionView,
    ActionView,
) {
    match connectivity(indistinct_seen, probe_reading(reply)) {
        None => (s.with_phase(PhaseView::Probing { indistinct_seen: true }), ActionView::Probe),
        Some(ConnectivityResultView::Clear) => finish(
            s,
            PhaseView::Succeeded { how: Success::NoPortal },
        ),
        Some(ConnectivityResultView::PortalDetected { redirect_url }) => (
            SessionView {
                phase: PhaseView::TokenFetch { portal_url: redirect_url },
                attempt: s.attempt,
                detected: Some(redirect_url),
            },
            ActionView::FetchPage { url: redirect_url },
        ),
        Some(ConnectivityResultView::ProbeFailed { cause }) => finish(
            s,
            PhaseView::Failed { reason: FailureView::Probe { source: cause } },
        ),
    }
}

/// The one-time value that an answer to the request for the portal's page
/// gives: the value in the body of a success, nothing otherwise.
pub open spec fn page_token(reply: HttpReplyView) -> Option<Seq<char>> {
    match reply {
        HttpReplyView::Response { status, body, .. } => if success_status(status) {
            form_token(body)
        } else {
            None
        },
        HttpReplyView::TransportError { cause } => None,
    }
}

/// The step on an answer to the request for the portal's page.
pub open spec fn on_portal_page(
    s: SessionView,
    portal_url: Seq<char>,
    reply: HttpReplyView,
    credentials: CredentialsView,
) -> (SessionView, ActionView) {
    match reply {
        HttpReplyView::TransportError { cause } => finish(
            s,
            PhaseView::Failed { reason: FailureView::PortalUnreachable { cause } },
        ),
        HttpReplyView::Response { status, body, .. } => match page_token(reply) {
            Some(magic) => (
                s.with_phase(PhaseView::Submitting),
                ActionView::Submit {
                    request: login_form(
                        portal_url,
                        credentials.username,
                        credentials.password,
                        magic,
                    ),
                },
            ),
            None => finish(s, PhaseView::Failed { reason: FailureView::TokenMissing }),
        },
    }
}

/// The step on an answer to the posted login.
pub open spec fn on_submission(s: SessionView, reply: HttpReplyView) -> (SessionView, ActionView) {
    match reply {
        HttpReplyView::TransportError { cause } => login_failed(
            s,
            FailureView::SubmitFailed { cause },
        ),
        HttpReplyView::Response { status, body, .. } => if submission_accepted(status) {
            (
                s.with_phase(PhaseView::Settling),
                ActionView::Settle { secs: VERIFY_SETTLE_SECS as nat },
            )
        } else {
            login_failed(s, FailureView::Rejected { status, body })
        },
    }
}

/// The step on an answer to the probe that verifies a login.
pub open spec fn on_verification(s: SessionView, reply: HttpReplyView) -> (
    SessionView,
    ActionView,
) {
    match reply {
        HttpReplyView::TransportError { cause } => finish(
            s,
            PhaseView::Succeeded { how: Success::LoggedIn { verified: false } },
        ),
        HttpReplyView::Response { status, body, .. } => if status == NO_CONTENT {
            finish(s, PhaseView::Succeeded { how: Success::LoggedIn { verified: true } })
        } else {
            login_failed(s, FailureView::VerificationFailed)
        },
    }
}

/// The cycle after `event`, and what the caller is to do next.
pub open spec fn step(s: SessionView, event: EventView, credentials: CredentialsView) -> (
    SessionView,
    ActionView,
) {
    match (s.phase, event) {
        (PhaseView::Idle, EventView::Trigger) => (
            SessionView {
                phase: PhaseView::Probing { indistinct_seen: false },
                attempt: 1,
                detected: None,
            },
            ActionView::Probe,
        ),
        (PhaseView::Probing { indistinct_seen }, EventView::Reply { reply }) => on_probe(
            s,
            indistinct_seen,
            reply,
        ),
        (PhaseView::TokenFetch { portal_url }, EventView::Reply { reply }) => on_portal_page(
            s,
            portal_url,
            reply,
            credentials,
        ),
        (PhaseView::Submitting, EventView::Reply { reply }) => on_submission(s, reply),
        (PhaseView::Settling, EventView::TimerElapsed) => (
            s.with_phase(PhaseView::Verifying),
            ActionView::Probe,
        ),
        (PhaseView::Verifying, EventView::Reply { reply }) => on_verification(s, reply),
        (PhaseView::LoggingOut { reason }, EventView::Reply { reply }) => (
            s.with_phase(PhaseView::BackingOff { reason }),
            ActionView::Backoff { secs: backoff_secs(s.attempt) },
        ),
        (PhaseView::BackingOff { reason }, EventView::TimerElapsed) => after_backoff(s, reason),
        _ => (s, ActionView::Ignore),
    }
}

/// A step leaves the attempt number fitting the phase.
pub proof fn step_keeps_well_formed(s: SessionView, event: EventView, credentials: CredentialsView)
    requires
        s.wf(),
    ensures
        step(s, event, credentials).0.wf(),
{
}

/// A step that ends in a login can only be the step on the answer to the
/// verifying probe: the login counts as verified exactly where that answer
/// is "no content", and as unverified exactly where the probe did not get
/// through.
pub proof fn login_success_is_confirmed(
    s: SessionView,
    event: EventView,
    credentials: CredentialsView,
)
    requires
        !s.finished(),
    ensures
        step(s, event, credentials).0.phase matches PhaseView::Succeeded {
            how: Success::LoggedIn { verified },
        } ==> {
            &&& s.phase is Verifying
            &&& event matches EventView::Reply { reply }
            &&& verified <==> (reply matches HttpReplyView::Response { status, .. } && status
                == NO_CONTENT)
            &&& !verified <==> reply is TransportError
        },
{
}

/// A login is posted only on the answer that brought the portal's page,
/// and with the one-time value of that very page, which is not empty: no
/// value is carried over from an earlier attempt.
pub proof fn login_uses_fresh_token(s: SessionView, event: EventView, credentials: CredentialsView)
    ensures
        step(s, event, credentials).1 matches ActionView::Submit { request } ==> {
            &&& s.phase matches PhaseView::TokenFetch { portal_url }
            &&& event matches EventView::Reply { reply }
            &&& page_token(reply) == Some(request.magic)
            &&& request.magic.len() > 0
            &&& request == login_form(
                portal_url,
                credentials.username,
                credentials.password,
                request.magic,
            )
        },
{
}

/// Ending the session with the portal cannot fail: whatever the answer,
/// and also where the request did not get through, the cycle goes on to
/// the pause.
pub proof fn logout_answer_is_not_looked_at(
    s: SessionView,
    first: HttpReplyView,
    second: HttpReplyView,
    credentials: CredentialsView,
)
    requires
        s.phase is LoggingOut,
    ensures
        step(s, EventView::Reply { reply: first }, credentials) == step(
            s,
            EventView::Reply { reply: second },
            credentials,
        ),
        step(s, EventView::Reply { reply: first }, credentials).1 is Backoff,
{
}

/// A finished cycle takes no further step.
pub proof fn finished_cycle_stays(s: SessionView, event: EventView, credentials: CredentialsView)
    requires
        s.finished(),
    ensures
        step(s, event, credentials) == (s, ActionView::Ignore),
{
}

/// The cycle after a run of events, and what the caller was asked to do on
/// the way, in order. An event that is ignored leaves no trace.
pub open spec fn run(s: SessionView, events: Seq<EventView>, credentials: CredentialsView) -> (
    SessionView,
    Seq<ActionView>,
)
    decreases events.len(),
{
    if events.len() == 0 {
        (s, Seq::empty())
    } else {
        let (before, actions) = run(s, events.drop_last(), credentials);
        let (after, action) = step(before, events.last(), credentials);
        (
            after,
            if action is Ignore {
                actions
            } else {
                actions.push(action)
            },
        )
    }
}

/// How many logins `actions` posts.
pub open spec fn submissions(actions: Seq<ActionView>) -> nat
    decreases actions.len(),
{
    if actions.len() == 0 {
        0
    } else if actions.last() is Submit {
        submissions(actions.drop_last()) + 1
    } else {
        submissions(actions.drop_last())
    }
}

/// An action that belongs to attempting a login anew: posting the form,
/// ending the session, pausing before the next attempt.
pub open spec fn is_retry_action(action: ActionView) -> bool {
    action is Submit || action is Logout || action is Backoff
}

/// The actions of `actions` that belong to attempting a login anew, in
/// order.
pub open spec fn retry_script(actions: Seq<ActionView>) -> Seq<ActionView>
    decreases actions.len(),
{
    if actions.len() == 0 {
        Seq::empty()
    } else if is_retry_action(actions.last()) {
        retry_script(actions.drop_last()).push(actions.last())
    } else {
        retry_script(actions.drop_last())
    }
}

/// `script` goes: post, end the session, pause, post, end the session,
/// pause, and so on, where the pause after the n-th post is
/// `backoff_secs(n)`.
pub open spec fn in_retry_order(script: Seq<ActionView>) -> bool {
    forall|i: int|
        0 <= i < script.len() ==> if i % 3 == 0 {
            #[trigger] script[i] is Submit
        } else if i % 3 == 1 {
            script[i] is Logout
        } else {
            script[i] == (ActionView::Backoff { secs: backoff_secs((i / 3 + 1) as nat) })
        }
}

/// How the phase of a cycle goes with the number of logins posted and with
/// the length of the retry script so far.
spec fn in_step(s: SessionView, posted: nat, script_len: nat) -> bool {
    match s.phase {
        PhaseView::Idle => posted == 0 && script_len == 0,
        PhaseView::Probing { .. } | PhaseView::TokenFetch { .. } => posted == s.attempt - 1
            && script_len == 3 * (s.attempt - 1),
        PhaseView::Submitting | PhaseView::Settling | PhaseView::Verifying => posted == s.attempt
            && script_len == 3 * (s.attempt - 1) + 1,
        PhaseView::LoggingOut { .. } => posted == s.attempt && script_len == 3 * (s.attempt - 1)
            + 2,
        PhaseView::BackingOff { .. } => posted == s.attempt && script_len == 3 * s.attempt,
        PhaseView::Succeeded { .. } | PhaseView::Failed { .. } => (posted == s.attempt - 1
            && script_len == 3 * (s.attempt - 1)) || (posted == s.attempt && (script_len == 3 * (
            s.attempt - 1) + 1 || script_len == 3 * s.attempt)),
    }
}

proof fn run_stays_in_step(events: Seq<EventView>, credentials: CredentialsView)
    ensures
        ({
            let (s, actions) = run(SessionView::initial(), events, credentials);
            &&& s.wf()
            &&& in_step(s, submissions(actions), retry_script(actions).len())
            &&& in_retry_order(retry_script(actions))
        }),
    decreases events.len(),
{
    if events.len() > 0 {
        run_stays_in_step(events.drop_last(), credentials);
        let (before, done) = run(SessionView::initial(), events.drop_last(), credentials);
        let (after, action) = step(before, events.last(), credentials);
        step_keeps_well_formed(before, events.last(), credentials);
        if !(action is Ignore) {
            let actions = done.push(action);
            assert(actions.drop_last() =~= done);
            assert(actions.last() == action);
            if is_retry_action(action) {
                let script = retry_script(actions);
                assert(script == retry_script(done).push(action));
                assert forall|i: int| 0 <= i < script.len() implies if i % 3 == 0 {
                    #[trigger] script[i] is Submit
                } else if i % 3 == 1 {
                    script[i] is Logout
                } else {
                    script[i] == (ActionView::Backoff { secs: backoff_secs((i / 3 + 1) as nat) })
                } by {
                    if i < script.len() - 1 {
                        assert(script[i] == retry_script(done)[i]);
                    }
                }
            }
        }
    }
}

/// Whatever the caller reports, and in whatever order, a cycle posts a
/// login at most `MAX_LOGIN_ATTEMPTS` times.
pub proof fn login_attempts_are_bounded(events: Seq<EventView>, credentials: CredentialsView)
    ensures
        submissions(run(SessionView::initial(), events, credentials).1) <= MAX_LOGIN_ATTEMPTS,
{
    run_stays_in_step(events, credentials);
}

/// Whatever the caller reports, after each posted login that fails the
/// cycle first ends the session with the portal and then pauses, each
/// pause twice as long as the one before, and only then posts the next
/// login.
pub proof fn retries_end_session_then_pause(events: Seq<EventView>, credentials: CredentialsView)
    ensures
        in_retry_order(retry_script(run(SessionView::initial(), events, credentials).1)),
        retry_script(run(SessionView::initial(), events, credentials).1).len() <= 3
            * MAX_LOGIN_ATTEMPTS,
{
    run_stays_in_step(events, credentials);
}

/// One sign-in cycle.
#[derive(Debug, PartialEq, Eq)]
pub struct Session {
    phase: Phase,
    attempt: u32,
    detected: Option<String>,
}

impl View for Session {
    type V = SessionView;

    closed spec fn view(&self) -> SessionView {
        SessionView {
            phase: self.phase@,
            attempt: self.attempt as nat,
            detected: match self.detected {
                Some(url) => Some(url@),
                None => None,
            },
        }
    }
}

impl Session {
    #[verifier::type_invariant]
    spec fn well_formed(&self) -> bool {
        self@.wf()
    }

    /// A cycle before anything was asked for.
    pub fn new() -> (s: Session)
        ensures
            s@ == SessionView::initial(),
    {
        Session { phase: Phase::Idle, attempt: 0, detected: None }
    }

    /// Where the cycle stands.
    pub fn phase(&self) -> (phase: &Phase)
        ensures
            phase@ == self@.phase,
            self@.wf(),
    {
        proof {
            use_type_invariant(self);
        }
        &self.phase
    }

    /// The number of the attempt under way, counted from 1; 0 before the
    /// cycle starts.
    pub fn attempt(&self) -> (attempt: u32)
        ensures
            attempt == self@.attempt,
            attempt <= MAX_LOGIN_ATTEMPTS,
    {
        proof {
            use_type_invariant(self);
        }
        self.attempt
    }

    /// The portal address that the last probe of this cycle detected.
    pub fn detected_portal(&self) -> (url: Option<&str>)
        ensures
            match url {
                Some(url) => self@.detected == Some(url@),
                None => self@.detected is None,
            },
    {
        match &self.detected {
            Some(url) => Some(url.as_str()),
            None => None,
        }
    }

    /// Tells whether the cycle is over.
    pub fn is_finished(&self) -> (b: bool)
        ensures
            b == self@.finished(),
    {
        match &self.phase {
            Phase::Succeeded { .. } => true,
            Phase::Failed { .. } => true,
            _ => false,
        }
    }

    /// Tells whether the cycle ended with the internet seen to be
    /// reachable. This is what the polling interval goes by.
    pub fn confirmed(&self) -> (b: bool)
        ensures
            b == self@.confirmed(),
    {
        match &self.phase {
            Phase::Succeeded { how } => how.confirmed(),
            _ => false,
        }
    }

    /// What a finished cycle comes to: `Ok(true)` after a login,
    /// `Ok(false)` where no portal was met, the error otherwise. `None`
    /// while the cycle runs.
    pub fn result(&self) -> (r: Option<crate::error::Result<bool>>)
        ensures
            match r {
                Some(Ok(logged_in)) => self@.result() == Some(
                    Ok::<bool, AppErrorView>(logged_in),
                ),
                Some(Err(e)) => self@.result() == Some(Err::<bool, AppErrorView>(e@)),
                None => self@.result() is None,
            },
    {
        match &self.phase {
            Phase::Succeeded { how } => Some(
                Ok(
                    match how {
                        Success::NoPortal => false,
                        Success::LoggedIn { .. } => true,
                    },
                ),
            ),
            Phase::Failed { reason } => Some(Err(reason.to_error())),
            _ => None,
        }
    }

    /// Takes what the caller saw last and returns the cycle after it,
    /// together with what the caller is to do next. The credentials are
    /// used for the login form only and are not kept.
    pub fn step(self, event: Event, credentials: &Credentials) -> (next: (Session, Action))
        ensures
            (next.0@, next.1@) == step(self@, event@, credentials@),
            next.0@.wf(),
    {
        proof {
            use_type_invariant(&self);
            step_keeps_well_formed(self@, event@, credentials@);
        }
        let Session { phase, attempt, detected } = self;
        match (phase, event) {
            (Phase::Idle, Event::Trigger) => (
                Session {
                    phase: Phase::Probing { indistinct_seen: false },
                    attempt: 1,
                    detected: None,
                },
                Action::Probe,
            ),
            (Phase::Probing { indistinct_seen }, Event::Reply { reply }) => {
                match settle_probe(indistinct_seen, read_probe(&reply)) {
                    None => (
                        Session {
                            phase: Phase::Probing { indistinct_seen: true },
                            attempt,
                            detected,
                        },
                        Action::Probe,
                    ),
                    Some(ConnectivityResult::Clear) => (
                        Session {
                            phase: Phase::Succeeded { how: Success::NoPortal },
                            attempt,
                            detected,
                        },
                        Action::Finish,
                    ),
                    Some(ConnectivityResult::PortalDetected { redirect_url }) => {
                        let url: String = redirect_url.clone();
                        let seen: String = redirect_url.clone();
                        (
                            Session {
                                phase: Phase::TokenFetch { portal_url: redirect_url },
                                attempt,
                                detected: Some(seen),
                            },
                            Action::FetchPage { url },
                        )
                    },
                    Some(ConnectivityResult::ProbeFailed { cause }) => (
                        Session {
                            phase: Phase::Failed { reason: Failure::Probe { source: cause } },
                            attempt,
                            detected,
                        },
                        Action::Finish,
                    ),
                }
            },
            (Phase::TokenFetch { portal_url }, Event::Reply { reply }) => {
                match reply {
                    HttpReply::TransportError { cause } => (
                        Session {
                            phase: Phase::Failed { reason: Failure::PortalUnreachable { cause } },
                            attempt,
                            detected,
                        },
                        Action::Finish,
                    ),
                    HttpReply::Response { status, body, .. } => {
                        let token: Option<String> = if is_success(status) {
                            extract_magic_value(body.as_str())
                        } else {
                            None
                        };
                        match token {
                            Some(magic) => {
                                let request: LoginRequest = login_request(
                                    portal_url.as_str(),
                                    credentials.username.as_str(),
                                    credentials.password.as_str(),
                                    magic.as_str(),
                                );
                                (
                                    Session { phase: Phase::Submitting, attempt, detected },
                                    Action::Submit { request },
                                )
                            },
                            None => (
                                Session {
                                    phase: Phase::Failed { reason: Failure::TokenMissing },
                                    attempt,
                                    detected,
                                },
                                Action::Finish,
                            ),
                        }
                    },
                }
            },
            (Phase::Submitting, Event::Reply { reply }) => {
                match reply {
                    HttpReply::TransportError { cause } => (
                        Session {
                            phase: Phase::LoggingOut { reason: Failure::SubmitFailed { cause } },
                            attempt,
                            detected,
                        },
                        Action::Logout,
                    ),
                    HttpReply::Response { status, body, .. } => {
                        if is_success(status) || is_redirection(status) {
                            (
                                Session { phase: Phase::Settling, attempt, detected },
                                Action::Settle { secs: VERIFY_SETTLE_SECS },
                            )
                        } else {
                            (
                                Session {
                                    phase: Phase::LoggingOut {
                                        reason: Failure::Rejected { status, body },
                                    },
                                    attempt,
                                    detected,
                                },
                                Action::Logout,
                            )
                        }
                    },
                }
            },
            (Phase::Settling, Event::TimerElapsed) => (
                Session { phase: Phase::Verifying, attempt, detected },
                Action::Probe,
            ),
            (Phase::Verifying, Event::Reply { reply }) => {
                match reply {
                    HttpReply::TransportError { cause } => (
                        Session {
                            phase: Phase::Succeeded { how: Success::LoggedIn { verified: false } },
                            attempt,
                            detected,
                        },
                        Action::Finish,
                    ),
                    HttpReply::Response { status, body, .. } => {
                        if status == NO_CONTENT {
                            (
                                Session {
                                    phase: Phase::Succeeded {
                                        how: Success::LoggedIn { verified: true },
                                    },
                                    attempt,
                                    detected,
                                },
                                Action::Finish,
                            )
                        } else {
                            (
                                Session {
                                    phase: Phase::LoggingOut {
                                        reason: Failure::VerificationFailed,
                                    },
                                    attempt,
                                    detected,
                                },
                                Action::Logout,
                            )
                        }
                    },
                }
            },
            (Phase::LoggingOut { reason }, Event::Reply { reply }) => {
                let secs: u64 = backoff_delay(attempt);
                (
                    Session { phase: Phase::BackingOff { reason }, attempt, detected },
                    Action::Backoff { secs },
                )
            },
            (Phase::BackingOff { reason }, Event::TimerElapsed) => {
                if attempt < MAX_LOGIN_ATTEMPTS {
                    (
                        Session {
                            phase: Phase::Probing { indistinct_seen: false },
                            attempt: attempt + 1,
                            detected,
                        },
                        Action::Probe,
                    )
                } else {
                    (Session { phase: Phase::Failed { reason }, attempt, detected }, Action::Finish)
                }
            },
            (phase, _) => (Session { phase, attempt, detected }, Action::Ignore),
        }
    }
}

} // verus!
