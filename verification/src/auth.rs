//! The login attempt, step by step.
//!
//! The attempt is a state machine. It says what to do next; the caller does
//! it (binds a port, opens the browser, waits, posts the exchange) and
//! reports how it went.

use crate::decimal::{decimal, format_u64};
use crate::error::{EngineError, ErrorKind};
use crate::types::AuthResult;
use vstd::prelude::*;
use vstd::string::StringExecFns;

verus! {

/// How many ports are tried.
pub const CANDIDATE_PORT_COUNT: usize = 7;

/// The first port that is tried; the others follow it one by one.
pub const FIRST_CANDIDATE_PORT: u16 = 8234;

/// What the message starts with when no port could be bound.
pub const ALL_PORTS_FAILED_PREFIX: &'static str = "Failed to start OAuth server on any port: ";

/// What stands in front of a port in that message.
pub const PORT_LABEL: &'static str = "port ";

/// What stands between a port and the cause of its failure.
pub const CAUSE_SEPARATOR: &'static str = ": ";

/// What stands between two ports' failures.
pub const FAILURE_SEPARATOR: &'static str = "; ";

/// The message of the failure when a report does not fit the step that was
/// asked for.
pub const UNEXPECTED_EVENT_MESSAGE: &'static str = "Unexpected event for this step of the login";

/// The ports that are tried, in order.
pub open spec fn candidate_ports() -> Seq<u16> {
    seq![8234u16, 8235u16, 8236u16, 8237u16, 8238u16, 8239u16, 8240u16]
}

/// A port that could not be bound, and why.
#[derive(Debug, PartialEq, Eq)]
pub struct BindFailure {
    pub port: u16,
    pub cause: String,
}

/// One failure as it stands in the message.
pub open spec fn failure_entry(failure: BindFailure) -> Seq<char> {
    PORT_LABEL@ + decimal(failure.port as nat) + CAUSE_SEPARATOR@ + failure.cause@
}

/// The failures as they stand in the message: each port with its cause, in
/// the order in which they were tried.
pub open spec fn failures_text(failures: Seq<BindFailure>) -> Seq<char>
    decreases failures.len(),
{
    if failures.len() == 0 {
        Seq::empty()
    } else if failures.len() == 1 {
        failure_entry(failures[0])
    } else {
        failures_text(failures.drop_last()) + FAILURE_SEPARATOR@ + failure_entry(failures.last())
    }
}

/// The message when no port could be bound.
pub open spec fn all_ports_failed_message(failures: Seq<BindFailure>) -> Seq<char> {
    ALL_PORTS_FAILED_PREFIX@ + failures_text(failures)
}

/// Where a login attempt stands.
#[derive(Clone, Copy, Debug, PartialEq, Eq, Structural)]
pub enum AuthStage {
    /// A port is being bound.
    Binding,
    /// The authorization address is being opened.
    OpeningUrl,
    /// The redirect is awaited.
    AwaitingCode,
    /// The code is being exchanged.
    Exchanging,
    /// The attempt is over.
    Finished,
}

/// What the caller is to do next.
#[derive(Debug, PartialEq, Eq)]
pub enum AuthStep {
    /// Bind the listener to this port on the loopback address.
    Bind(u16),
    /// Open this address with the host's URL opener.
    OpenUrl(String),
    /// Wait for the listener's outcome.
    AwaitCode,
    /// Exchange this code for tokens.
    Exchange(String),
    /// Report this result; on success, start polling.
    Finish(Result<AuthResult, EngineError>),
}

/// What the caller reports.
#[derive(Debug, PartialEq, Eq)]
pub enum AuthEvent {
    /// The port was bound.
    Bound,
    /// The port could not be bound.
    BindFailed(String),
    /// The address was opened.
    UrlOpened,
    /// The address could not be opened.
    UrlFailed(String),
    /// The listener delivered a code.
    CodeReceived(String),
    /// The wait ended without a code.
    WaitFailed(EngineError),
    /// The exchange succeeded.
    Exchanged,
    /// The exchange failed.
    ExchangeFailed(EngineError),
}

/// One login attempt.
#[derive(Debug)]
pub struct AuthAttempt {
    pub stage: AuthStage,
    pub auth_url: String,
    pub failures: Vec<BindFailure>,
}

/// The port that is tried after `tried` failures.
pub fn candidate_port(tried: usize) -> (port: Option<u16>)
    ensures
        port == (if tried < CANDIDATE_PORT_COUNT {
            Some(candidate_ports()[tried as int])
        } else {
            None::<u16>
        }),
{
    if tried < CANDIDATE_PORT_COUNT {
        Some(FIRST_CANDIDATE_PORT + tried as u16)
    } else {
        None
    }
}

/// The message when no port could be bound: it names every port that was
/// tried and why it failed.
pub fn describe_failures(failures: &Vec<BindFailure>) -> (message: String)
    ensures
        message@ == all_ports_failed_message(failures@),
{
    let mut text = String::new();
    let mut i: usize = 0;
    assert(failures@.take(0) =~= Seq::<BindFailure>::empty());
    while i < failures.len()
        invariant
            i <= failures.len(),
            text@ == failures_text(failures@.take(i as int)),
        decreases failures.len() - i,
    {
        let ghost before = failures@.take(i as int);
        let ghost after = failures@.take(i + 1);
        assert(after.drop_last() =~= before);
        assert(after.last() == failures@[i as int]);
        if i > 0 {
            text.append(FAILURE_SEPARATOR);
        }
        text.append(PORT_LABEL);
        text.append(format_u64(failures[i].port as u64).as_str());
        text.append(CAUSE_SEPARATOR);
        text.append(failures[i].cause.as_str());
        assert(text@ =~= failures_text(after)) by {
            if i == 0 {
                assert(after[0] == failures@[0]);
                assert(Seq::<char>::empty() + PORT_LABEL@ =~= PORT_LABEL@);
            }
        }
        i += 1;
    }
    assert(failures@.take(failures.len() as int) =~= failures@);
    let mut message = ALL_PORTS_FAILED_PREFIX.to_owned();
    message.append(text.as_str());
    message
}

impl AuthAttempt {
    /// The invariant of an attempt: while it binds, fewer failures than
    /// ports.
    pub open spec fn wf(&self) -> bool {
        self.stage == AuthStage::Binding ==> self.failures@.len() < CANDIDATE_PORT_COUNT
    }

    /// Begins an attempt for this authorization address. The first step is
    /// to bind the first port.
    pub fn begin(auth_url: String) -> (started: (Self, AuthStep))
        ensures
            started.0.wf(),
            started.0.stage == AuthStage::Binding,
            started.0.auth_url == auth_url,
            started.0.failures@.len() == 0,
            started.1 == AuthStep::Bind(FIRST_CANDIDATE_PORT),
    {
        (
            AuthAttempt { stage: AuthStage::Binding, auth_url, failures: Vec::new() },
            AuthStep::Bind(FIRST_CANDIDATE_PORT),
        )
    }

    /// Takes the caller's report and says what to do next.
    ///
    /// The ports are tried in order and the first that binds is used; when
    /// all have failed the attempt ends with a failure that names each port
    /// and its cause. Then the address is opened, the code awaited and
    /// exchanged. A failure at any step ends the attempt with that failure.
    /// A report that does not fit the step ends it too.
    pub fn advance(&mut self, event: AuthEvent) -> (step: AuthStep)
        requires
            old(self).wf(),
        ensures
            final(self).wf(),
            final(self).auth_url == old(self).auth_url,
            match (old(self).stage, event) {
                (AuthStage::Binding, AuthEvent::Bound) => {
                    &&& final(self).stage == AuthStage::OpeningUrl
                    &&& final(self).failures == old(self).failures
                    &&& step == AuthStep::OpenUrl(old(self).auth_url)
                },
                (AuthStage::Binding, AuthEvent::BindFailed(cause)) => {
                    let tried = old(self).failures@.len() as int;
                    let port = candidate_ports()[tried];
                    &&& final(self).failures@ == old(self).failures@.push(
                        BindFailure { port, cause },
                    )
                    &&& if tried + 1 < CANDIDATE_PORT_COUNT {
                        &&& final(self).stage == AuthStage::Binding
                        &&& step == AuthStep::Bind(candidate_ports()[tried + 1])
                    } else {
                        &&& final(self).stage == AuthStage::Finished
                        &&& step is Finish
                        &&& step->Finish_0 is Err
                        &&& step->Finish_0->Err_0.carries(
                            ErrorKind::Transport,
                            all_ports_failed_message(final(self).failures@),
                        )
                    }
                },
                (AuthStage::OpeningUrl, AuthEvent::UrlOpened) => {
                    &&& final(self).stage == AuthStage::AwaitingCode
                    &&& final(self).failures == old(self).failures
                    &&& step == AuthStep::AwaitCode
                },
                (AuthStage::OpeningUrl, AuthEvent::UrlFailed(cause)) => {
                    &&& final(self).stage == AuthStage::Finished
                    &&& final(self).failures == old(self).failures
                    &&& step is Finish
                    &&& step->Finish_0 is Err
                    &&& step->Finish_0->Err_0.carries(ErrorKind::Transport, cause@)
                },
                (AuthStage::AwaitingCode, AuthEvent::CodeReceived(code)) => {
                    &&& final(self).stage == AuthStage::Exchanging
                    &&& final(self).failures == old(self).failures
                    &&& step == AuthStep::Exchange(code)
                },
                (AuthStage::AwaitingCode, AuthEvent::WaitFailed(e)) => {
                    &&& final(self).stage == AuthStage::Finished
                    &&& final(self).failures == old(self).failures
                    &&& step == AuthStep::Finish(Err(e))
                },
                (AuthStage::Exchanging, AuthEvent::Exchanged) => {
                    &&& final(self).stage == AuthStage::Finished
                    &&& final(self).failures == old(self).failures
                    &&& step == AuthStep::Finish(Ok(AuthResult { success: true, error: None }))
                },
                (AuthStage::Exchanging, AuthEvent::ExchangeFailed(e)) => {
                    &&& final(self).stage == AuthStage::Finished
                    &&& final(self).failures == old(self).failures
                    &&& step == AuthStep::Finish(Err(e))
                },
                _ => {
                    &&& final(self).stage == AuthStage::Finished
                    &&& final(self).failures == old(self).failures
                    &&& step is Finish
                    &&& step->Finish_0 is Err
                    &&& step->Finish_0->Err_0.carries(ErrorKind::State, UNEXPECTED_EVENT_MESSAGE@)
                },
            },
    {
        match (self.stage, event) {
            (AuthStage::Binding, AuthEvent::Bound) => {
                self.stage = AuthStage::OpeningUrl;
                AuthStep::OpenUrl(self.auth_url.clone())
            },
            (AuthStage::Binding, AuthEvent::BindFailed(cause)) => {
                let tried = self.failures.len();
                let port = FIRST_CANDIDATE_PORT + tried as u16;
                self.failures.push(BindFailure { port, cause });
                match candidate_port(tried + 1) {
                    Some(next) => AuthStep::Bind(next),
                    None => {
                        self.stage = AuthStage::Finished;
                        AuthStep::Finish(
                            Err(
                                EngineError {
                                    kind: ErrorKind::Transport,
                                    message: describe_failures(&self.failures),
                                },
                            ),
                        )
                    },
                }
            },
            (AuthStage::OpeningUrl, AuthEvent::UrlOpened) => {
                self.stage = AuthStage::AwaitingCode;
                AuthStep::AwaitCode
            },
            (AuthStage::OpeningUrl, AuthEvent::UrlFailed(cause)) => {
                self.stage = AuthStage::Finished;
                AuthStep::Finish(Err(EngineError { kind: ErrorKind::Transport, message: cause }))
            },
            (AuthStage::AwaitingCode, AuthEvent::CodeReceived(code)) => {
                self.stage = AuthStage::Exchanging;
                AuthStep::Exchange(code)
            },
            (AuthStage::AwaitingCode, AuthEvent::WaitFailed(e)) => {
                self.stage = AuthStage::Finished;
                AuthStep::Finish(Err(e))
            },
            (AuthStage::Exchanging, AuthEvent::Exchanged) => {
                self.stage = AuthStage::Finished;
                AuthStep::Finish(Ok(AuthResult { success: true, error: None }))
            },
            (AuthStage::Exchanging, AuthEvent::ExchangeFailed(e)) => {
                self.stage = AuthStage::Finished;
                AuthStep::Finish(Err(e))
            },
            _ => {
                self.stage = AuthStage::Finished;
                AuthStep::Finish(
                    Err(EngineError::new(ErrorKind::State, UNEXPECTED_EVENT_MESSAGE)),
                )
            },
        }
    }
}

/// The message of the failure when a login is asked for while one is under
/// way.
pub const LOGIN_IN_PROGRESS_MESSAGE: &'static str = "A login attempt is already in progress";

/// Lets one login attempt through at a time. An attempt that comes while
/// another is under way is turned away; the one under way goes on.
#[derive(Debug)]
pub struct LoginGate {
    pub active: bool,
}

impl LoginGate {
    /// A gate with no attempt under way.
    pub fn new() -> (gate: Self)
        ensures
            !gate.active,
    {
        LoginGate { active: false }
    }

    /// Asks to begin an attempt. It may begin when none is under way.
    pub fn try_begin(&mut self) -> (begun: Result<(), EngineError>)
        ensures
            final(self).active,
            match begun {
                Ok(_) => !old(self).active,
                Err(e) => old(self).active && e.carries(
                    ErrorKind::State,
                    LOGIN_IN_PROGRESS_MESSAGE@,
                ),
            },
    {
        if self.active {
            return Err(EngineError::new(ErrorKind::State, LOGIN_IN_PROGRESS_MESSAGE));
        }
        self.active = true;
        Ok(())
    }

    /// Marks the attempt under way as over.
    pub fn finish(&mut self)
        ensures
            !final(self).active,
    {
        self.active = false;
    }
}

} // verus!
