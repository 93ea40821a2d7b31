//! The token pipeline: spawn the automation server, open a session, run the
//! login script, read the token, tear everything down, and retry the whole
//! attempt on an element-wait timeout.
//!
//! [`Pipeline`] is a state machine. [`Pipeline::action`] names what the caller
//! must perform next; the caller performs it and reports the result with
//! [`Pipeline::on_event`]. The machine decides everything else: the order of
//! the login commands, when to retry a connection, when to close the session
//! and kill the server, and which failures end the run.

use vstd::prelude::*;
use crate::command::CommandLine;
use crate::error::{classify, classify_spec, AttemptResult, TokenError};
use crate::login::{login_script, login_step, Step, LOGIN_STEPS};

verus! {

/// Attempts allowed by default before timeouts become fatal.
pub const DEFAULT_MAX_ATTEMPTS: u32 = 20;

/// Connection tries allowed by default within one attempt (ten seconds of backoff).
pub const DEFAULT_MAX_CONNECTS: u32 = 40;

/// The account identifier and the secret that the login types.
#[derive(Debug, Clone)]
pub struct Credentials {
    pub account: String,
    pub secret: String,
}

/// Everything one run of the pipeline needs.
#[derive(Debug, Clone)]
pub struct PipelineConfig {
    /// The automation server to spawn for each attempt.
    pub command: CommandLine,
    /// Where the spawned server listens.
    pub endpoint: String,
    pub credentials: Credentials,
    /// Run the browser without a window.
    pub headless: bool,
    /// Leave the browser session open at teardown instead of closing it.
    pub keepalive: bool,
    /// Attempts allowed before timeouts become fatal.
    pub max_attempts: u32,
    /// Connection tries allowed within one attempt.
    pub max_connects: u32,
}

impl PipelineConfig {
    pub open spec fn valid(&self) -> bool {
        self.max_attempts >= 1 && self.max_connects >= 1
    }
}

/// Where an attempt stands.
#[derive(PartialEq, Eq, Structural, Clone, Copy, Debug)]
pub enum Phase {
    Spawning,
    WarmingUp,
    CheckingAlive,
    Connecting,
    BackingOff,
    /// Running the given step of the login script.
    Login(usize),
    Closing,
    Killing,
    Finished,
}

/// What the caller must do next.
#[derive(PartialEq, Eq, Structural, Clone, Copy, Debug)]
pub enum Action {
    /// Start the configured server command, with captured standard streams.
    Spawn,
    /// Wait for the server to start listening.
    WarmUp,
    /// Check that the server process has not exited.
    CheckAlive,
    /// Open a browser session with the configured capabilities.
    Connect,
    /// Wait before the next connection try.
    Backoff,
    /// Perform a command of the login script.
    Login(Step),
    /// Schedule the session's close without waiting for it.
    CloseSession,
    /// Kill the server process.
    KillServer,
    /// Nothing is left to do: the result is ready.
    Finish,
}

/// What came of the latest action. Anything but a failure completes it; only
/// the cookie read needs the cookie's value.
#[derive(Debug, Clone)]
pub enum Outcome {
    /// The action completed.
    Done,
    /// The cookie was read; its value.
    Cookie(String),
    /// The action failed.
    Failed(TokenError),
}

/// The state of one run of the pipeline.
#[derive(Debug)]
pub struct Pipeline {
    pub config: PipelineConfig,
    pub phase: Phase,
    /// Attempts started so far, the current one included.
    pub attempt: u32,
    /// Connection tries of the current attempt that failed.
    pub connect_tries: u32,
    /// The attempt's outcome, once known: kept through teardown, then the run's result.
    pub outcome: Option<Result<String, TokenError>>,
}

/// The action that a phase calls for.
pub open spec fn action_of(p: Phase) -> Action {
    match p {
        Phase::Spawning => Action::Spawn,
        Phase::WarmingUp => Action::WarmUp,
        Phase::CheckingAlive => Action::CheckAlive,
        Phase::Connecting => Action::Connect,
        Phase::BackingOff => Action::Backoff,
        Phase::Login(i) => Action::Login(login_script()[i as int]),
        Phase::Closing => Action::CloseSession,
        Phase::Killing => Action::KillServer,
        Phase::Finished => Action::Finish,
    }
}

/// Whether a server process is running (spawned and not yet killed) in this phase.
pub open spec fn server_live(p: Phase) -> bool {
    !(p is Spawning || p is Finished)
}

/// Whether a browser session is open in this phase.
pub open spec fn session_open(p: Phase) -> bool {
    p is Login || p is Closing
}

/// Whether the attempt is still at work, before its teardown.
pub open spec fn working(p: Phase) -> bool {
    !(p is Closing || p is Killing || p is Finished)
}

impl Pipeline {
    pub open spec fn wf(&self) -> bool {
        &&& self.config.valid()
        &&& 1 <= self.attempt <= self.config.max_attempts
        &&& self.connect_tries < self.config.max_connects
        &&& (self.phase matches Phase::Login(i) ==> i < LOGIN_STEPS)
        &&& (self.outcome is Some <==> !working(self.phase))
        &&& (self.outcome matches Some(Ok(t)) ==> t@.len() > 0)
        &&& (self.phase is Finished ==> !(self.outcome matches Some(Err(TokenError::WaitTimeout))))
        &&& (self.phase is Closing ==> !self.config.keepalive)
    }

    /// A fresh attempt, with the attempt counter set to `attempt`.
    pub open spec fn fresh(self, attempt: u32) -> Pipeline {
        Pipeline {
            config: self.config,
            phase: Phase::Spawning,
            attempt,
            connect_tries: 0,
            outcome: None,
        }
    }

    pub open spec fn with_phase(self, phase: Phase) -> Pipeline {
        Pipeline {
            config: self.config,
            phase,
            attempt: self.attempt,
            connect_tries: self.connect_tries,
            outcome: self.outcome,
        }
    }

    /// Ends the attempt with `out`: close the session if one is open and
    /// keepalive is off, then kill the server.
    pub open spec fn teardown(self, out: Result<String, TokenError>) -> Pipeline {
        Pipeline {
            config: self.config,
            phase: if session_open(self.phase) && !self.config.keepalive {
                Phase::Closing
            } else {
                Phase::Killing
            },
            attempt: self.attempt,
            connect_tries: self.connect_tries,
            outcome: Some(out),
        }
    }

    /// Decides on an attempt that has released its resources: a token ends the
    /// run; a timeout starts a fresh attempt while attempts remain; any other
    /// error ends the run.
    pub open spec fn resolve(self, out: Result<String, TokenError>) -> Pipeline {
        match classify_spec(out) {
            AttemptResult::Success(t) => Pipeline {
                config: self.config,
                phase: Phase::Finished,
                attempt: self.attempt,
                connect_tries: self.connect_tries,
                outcome: Some(Ok(t)),
            },
            AttemptResult::TimeoutFailure(_) => if self.attempt < self.config.max_attempts {
                self.fresh((self.attempt + 1) as u32)
            } else {
                Pipeline {
                    config: self.config,
                    phase: Phase::Finished,
                    attempt: self.attempt,
                    connect_tries: self.connect_tries,
                    outcome: Some(Err(TokenError::RetriesExhausted(self.attempt))),
                }
            },
            AttemptResult::FatalFailure(e) => Pipeline {
                config: self.config,
                phase: Phase::Finished,
                attempt: self.attempt,
                connect_tries: self.connect_tries,
                outcome: Some(Err(e)),
            },
        }
    }

    /// The state after the current action came to `ev`.
    pub open spec fn step_spec(self, ev: Outcome) -> Pipeline {
        match self.phase {
            Phase::Finished => self,
            Phase::Closing => self.with_phase(Phase::Killing),
            Phase::Killing => match self.outcome {
                Some(out) => self.resolve(out),
                None => self,
            },
            Phase::Spawning => match ev {
                Outcome::Failed(e) => self.resolve(Err(e)),
                _ => self.with_phase(Phase::WarmingUp),
            },
            Phase::WarmingUp => match ev {
                Outcome::Failed(e) => self.teardown(Err(e)),
                _ => self.with_phase(Phase::CheckingAlive),
            },
            Phase::CheckingAlive => match ev {
                Outcome::Failed(e) => self.teardown(Err(e)),
                _ => self.with_phase(Phase::Connecting),
            },
            Phase::BackingOff => match ev {
                Outcome::Failed(e) => self.teardown(Err(e)),
                _ => self.with_phase(Phase::Connecting),
            },
            Phase::Connecting => match ev {
                Outcome::Failed(_) => if self.connect_tries + 1 < self.config.max_connects {
                    Pipeline {
                        config: self.config,
                        phase: Phase::BackingOff,
                        attempt: self.attempt,
                        connect_tries: (self.connect_tries + 1) as u32,
                        outcome: None,
                    }
                } else {
                    self.teardown(Err(TokenError::Connect((self.connect_tries + 1) as u32)))
                },
                _ => self.with_phase(Phase::Login(0)),
            },
            Phase::Login(i) => match ev {
                Outcome::Failed(e) => self.teardown(Err(e)),
                Outcome::Cookie(v) => if i + 1 < LOGIN_STEPS {
                    self.with_phase(Phase::Login((i + 1) as usize))
                } else if v@.len() > 0 {
                    self.teardown(Ok(v))
                } else {
                    self.teardown(Err(TokenError::CookieMissing))
                },
                Outcome::Done => if i + 1 < LOGIN_STEPS {
                    self.with_phase(Phase::Login((i + 1) as usize))
                } else {
                    self.teardown(Err(TokenError::CookieMissing))
                },
            },
        }
    }

    /// A run that has not started yet.
    pub fn new(config: PipelineConfig) -> (r: Pipeline)
        requires
            config.valid(),
        ensures
            r.wf(),
            r.config == config,
            r.phase == Phase::Spawning,
            r.attempt == 1,
            r.outcome is None,
    {
        Pipeline { config, phase: Phase::Spawning, attempt: 1, connect_tries: 0, outcome: None }
    }

    /// What the caller must perform next.
    pub fn action(&self) -> (r: Action)
        requires
            self.wf(),
        ensures
            r == action_of(self.phase),
    {
        match self.phase {
            Phase::Spawning => Action::Spawn,
            Phase::WarmingUp => Action::WarmUp,
            Phase::CheckingAlive => Action::CheckAlive,
            Phase::Connecting => Action::Connect,
            Phase::BackingOff => Action::Backoff,
            Phase::Login(i) => Action::Login(login_step(i)),
            Phase::Closing => Action::CloseSession,
            Phase::Killing => Action::KillServer,
            Phase::Finished => Action::Finish,
        }
    }

    /// Whether the run is over.
    pub fn is_finished(&self) -> (r: bool)
        ensures
            r == (self.phase is Finished),
    {
        matches!(self.phase, Phase::Finished)
    }

    /// The run's result, once it is over.
    pub fn result(&self) -> (r: Option<&Result<String, TokenError>>)
        ensures
            r is Some <==> self.phase is Finished && self.outcome is Some,
            r matches Some(x) ==> self.outcome == Some(*x),
    {
        match self.phase {
            Phase::Finished => self.outcome.as_ref(),
            _ => None,
        }
    }

    fn set_teardown(&mut self, out: Result<String, TokenError>)
        requires
            old(self).wf(),
            working(old(self).phase),
            !(old(self).phase is Spawning),
            out matches Ok(t) ==> t@.len() > 0,
        ensures
            *final(self) == old(self).teardown(out),
    {
        let closes = match self.phase {
            Phase::Login(_) => !self.config.keepalive,
            _ => false,
        };
        self.phase = if closes { Phase::Closing } else { Phase::Killing };
        self.outcome = Some(out);
    }

    fn set_resolved(&mut self, out: Result<String, TokenError>)
        requires
            old(self).config.valid(),
            1 <= old(self).attempt <= old(self).config.max_attempts,
            out matches Ok(t) ==> t@.len() > 0,
        ensures
            *final(self) == old(self).resolve(out),
    {
        match classify(out) {
            AttemptResult::Success(t) => {
                self.phase = Phase::Finished;
                self.outcome = Some(Ok(t));
            },
            AttemptResult::TimeoutFailure(_) => {
                if self.attempt < self.config.max_attempts {
                    self.phase = Phase::Spawning;
                    self.attempt = self.attempt + 1;
                    self.connect_tries = 0;
                    self.outcome = None;
                } else {
                    self.phase = Phase::Finished;
                    self.outcome = Some(Err(TokenError::RetriesExhausted(self.attempt)));
                }
            },
            AttemptResult::FatalFailure(e) => {
                self.phase = Phase::Finished;
                self.outcome = Some(Err(e));
            },
        }
    }

    /// Advances the run on the outcome of the action that [`Pipeline::action`] named.
    pub fn on_event(&mut self, ev: Outcome)
        requires
            old(self).wf(),
        ensures
            *final(self) == old(self).step_spec(ev),
            final(self).wf(),
    {
        match self.phase {
            Phase::Finished => {},
            Phase::Closing => {
                self.phase = Phase::Killing;
            },
            Phase::Killing => {
                match self.outcome.take() {
                    Some(out) => self.set_resolved(out),
                    None => {},
                }
            },
            Phase::Spawning => match ev {
                Outcome::Failed(e) => self.set_resolved(Err(e)),
                _ => {
                    self.phase = Phase::WarmingUp;
                },
            },
            Phase::WarmingUp => match ev {
                Outcome::Failed(e) => self.set_teardown(Err(e)),
                _ => {
                    self.phase = Phase::CheckingAlive;
                },
            },
            Phase::CheckingAlive => match ev {
                Outcome::Failed(e) => self.set_teardown(Err(e)),
                _ => {
                    self.phase = Phase::Connecting;
                },
            },
            Phase::BackingOff => match ev {
                Outcome::Failed(e) => self.set_teardown(Err(e)),
                _ => {
                    self.phase = Phase::Connecting;
                },
            },
            Phase::Connecting => match ev {
                Outcome::Failed(_) => {
                    if self.connect_tries + 1 < self.config.max_connects {
                        self.phase = Phase::BackingOff;
                        self.connect_tries = self.connect_tries + 1;
                    } else {
                        let tries = self.connect_tries + 1;
                        self.set_teardown(Err(TokenError::Connect(tries)));
                    }
                },
                _ => {
                    self.phase = Phase::Login(0);
                },
            },
            Phase::Login(i) => match ev {
                Outcome::Failed(e) => self.set_teardown(Err(e)),
                Outcome::Cookie(v) => {
                    if i + 1 < LOGIN_STEPS {
                        self.phase = Phase::Login(i + 1);
                    } else if !v.as_str().is_empty() {
                        self.set_teardown(Ok(v));
                    } else {
                        self.set_teardown(Err(TokenError::CookieMissing));
                    }
                },
                Outcome::Done => {
                    if i + 1 < LOGIN_STEPS {
                        self.phase = Phase::Login(i + 1);
                    } else {
                        self.set_teardown(Err(TokenError::CookieMissing));
                    }
                },
            },
        }
    }
}

} // verus!
