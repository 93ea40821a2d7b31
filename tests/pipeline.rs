use tokextract::command::CommandLine;
use tokextract::error::TokenError;
use tokextract::login::{Field, Step, Target};
use tokextract::pipeline::{Action, Credentials, Outcome, Pipeline, PipelineConfig};
use tokextract::session::{capabilities, SERVER_URL};

fn config(exec: &str, keepalive: bool, max_attempts: u32) -> PipelineConfig {
    PipelineConfig {
        command: CommandLine::parse(exec).expect("command has a program"),
        endpoint: SERVER_URL.to_string(),
        credentials: Credentials {
            account: "user@example.com".to_string(),
            secret: "secret".to_string(),
        },
        headless: false,
        keepalive,
        max_attempts,
        max_connects: 3,
    }
}

/// Runs the pipeline against a stub that answers each action; returns the
/// actions asked for, in order, with the attempt each belonged to.
fn drive(
    p: &mut Pipeline,
    mut stub: impl FnMut(Action, u32) -> Outcome,
) -> Vec<(Action, u32)> {
    let mut trace = Vec::new();
    for _ in 0..10_000 {
        let action = p.action();
        trace.push((action, p.attempt));
        if action == Action::Finish {
            return trace;
        }
        let ev = stub(action, p.attempt);
        p.on_event(ev);
    }
    panic!("pipeline did not finish");
}

fn count(trace: &[(Action, u32)], a: Action) -> usize {
    trace.iter().filter(|(x, _)| *x == a).count()
}

fn happy(token: &'static str) -> impl FnMut(Action, u32) -> Outcome {
    move |a, _| match a {
        Action::Login(Step::ReadCookie) => Outcome::Cookie(token.to_string()),
        _ => Outcome::Done,
    }
}

#[test]
fn fake_driver_run_returns_the_cookie_and_kills_the_server() {
    let cfg = config("fake-driver --port 4444", false, 5);
    assert_eq!(cfg.command.program, "fake-driver");
    assert_eq!(cfg.command.args, vec!["--port".to_string(), "4444".to_string()]);
    assert!(capabilities(cfg.headless).is_empty());
    let mut p = Pipeline::new(cfg);
    let trace = drive(&mut p, happy("stub-cookie-value"));
    match p.result() {
        Some(Ok(t)) => assert_eq!(t, "stub-cookie-value"),
        other => panic!("unexpected result {other:?}"),
    }
    let actions: Vec<Action> = trace.iter().map(|(a, _)| *a).collect();
    let n = actions.len();
    assert_eq!(actions[n - 1], Action::Finish);
    assert_eq!(actions[n - 2], Action::KillServer);
    assert_eq!(actions[n - 3], Action::CloseSession);
    assert_eq!(count(&trace, Action::Spawn), 1);
    assert_eq!(count(&trace, Action::KillServer), 1);
    assert_eq!(count(&trace, Action::CloseSession), 1);
    assert_eq!(
        &actions[..5],
        &[Action::Spawn, Action::WarmUp, Action::CheckAlive, Action::Connect, Action::Login(Step::OpenSite)]
    );
    assert!(actions.contains(&Action::Login(Step::TypeText(Field::Account))));
    assert!(actions.contains(&Action::Login(Step::TypeText(Field::Secret))));
}

#[test]
fn timeouts_on_the_password_button_retry_with_fresh_servers() {
    let n: u32 = 4;
    let mut p = Pipeline::new(config("fake-driver --port 4444", false, 10));
    let trace = drive(&mut p, |a, attempt| match a {
        Action::Login(Step::WaitFor(Target::UsePasswordButton)) if attempt < n => {
            Outcome::Failed(TokenError::WaitTimeout)
        }
        Action::Login(Step::ReadCookie) => Outcome::Cookie("tok".to_string()),
        _ => Outcome::Done,
    });
    assert_eq!(count(&trace, Action::Spawn), n as usize);
    assert_eq!(count(&trace, Action::KillServer), n as usize);
    assert_eq!(p.attempt, n);
    for k in 1..=n {
        let spawns = trace.iter().filter(|(a, at)| *a == Action::Spawn && *at == k).count();
        assert_eq!(spawns, 1);
    }
    assert!(matches!(p.result(), Some(Ok(t)) if t == "tok"));
    let cookie_reads = trace.iter().filter(|(a, _)| *a == Action::Login(Step::ReadCookie)).count();
    assert_eq!(cookie_reads, 1);
}

#[test]
fn missing_cookie_is_fatal_without_retry() {
    let mut p = Pipeline::new(config("fake-driver", false, 5));
    let trace = drive(&mut p, |a, _| match a {
        Action::Login(Step::ReadCookie) => Outcome::Failed(TokenError::CookieMissing),
        _ => Outcome::Done,
    });
    assert!(matches!(p.result(), Some(Err(TokenError::CookieMissing))));
    assert_eq!(count(&trace, Action::Spawn), 1);
    assert_eq!(count(&trace, Action::KillServer), 1);
}

#[test]
fn empty_cookie_is_an_extraction_error() {
    let mut p = Pipeline::new(config("fake-driver", true, 5));
    let trace = drive(&mut p, happy(""));
    assert!(matches!(p.result(), Some(Err(TokenError::CookieMissing))));
    assert_eq!(count(&trace, Action::Spawn), 1);
}

#[test]
fn one_timeout_then_a_clean_attempt_succeeds() {
    let mut p = Pipeline::new(config("fake-driver", false, 2));
    let trace = drive(&mut p, |a, attempt| match a {
        Action::Login(Step::WaitFor(Target::HomeMarker)) if attempt == 1 => {
            Outcome::Failed(TokenError::WaitTimeout)
        }
        Action::Login(Step::ReadCookie) => Outcome::Cookie("second".to_string()),
        _ => Outcome::Done,
    });
    assert!(matches!(p.result(), Some(Ok(t)) if t == "second"));
    assert_eq!(count(&trace, Action::Spawn), 2);
    assert_eq!(count(&trace, Action::CloseSession), 2);
    assert_eq!(count(&trace, Action::KillServer), 2);
}

#[test]
fn command_error_aborts_after_one_attempt() {
    let mut p = Pipeline::new(config("fake-driver", false, 5));
    let trace = drive(&mut p, |a, _| match a {
        Action::Login(Step::Click) => Outcome::Failed(TokenError::Command("click failed".to_string())),
        _ => Outcome::Done,
    });
    assert!(matches!(p.result(), Some(Err(TokenError::Command(m))) if m == "click failed"));
    assert_eq!(count(&trace, Action::Spawn), 1);
    assert_eq!(count(&trace, Action::CloseSession), 1);
    assert_eq!(count(&trace, Action::KillServer), 1);
}

#[test]
fn keepalive_never_closes_the_session() {
    let mut p = Pipeline::new(config("fake-driver", true, 3));
    let trace = drive(&mut p, |a, attempt| match a {
        Action::Login(Step::WaitFor(Target::EmailField)) if attempt == 1 => {
            Outcome::Failed(TokenError::WaitTimeout)
        }
        Action::Login(Step::ReadCookie) => Outcome::Cookie("kept".to_string()),
        _ => Outcome::Done,
    });
    assert!(matches!(p.result(), Some(Ok(t)) if t == "kept"));
    assert_eq!(count(&trace, Action::CloseSession), 0);
    assert_eq!(count(&trace, Action::KillServer), 2);
}

#[test]
fn dead_server_is_fatal_and_still_killed() {
    let mut p = Pipeline::new(config("fake-driver", false, 3));
    let trace = drive(&mut p, |a, _| match a {
        Action::CheckAlive => Outcome::Failed(TokenError::ServerDied("exit status: 1".to_string())),
        _ => Outcome::Done,
    });
    assert!(matches!(p.result(), Some(Err(TokenError::ServerDied(_)))));
    assert_eq!(count(&trace, Action::KillServer), 1);
    assert_eq!(count(&trace, Action::CloseSession), 0);
    assert_eq!(count(&trace, Action::Connect), 0);
}

#[test]
fn spawn_failure_is_fatal_and_kills_nothing() {
    let mut p = Pipeline::new(config("fake-driver", false, 3));
    let trace = drive(&mut p, |a, _| match a {
        Action::Spawn => Outcome::Failed(TokenError::Spawn("not found".to_string())),
        _ => Outcome::Done,
    });
    assert!(matches!(p.result(), Some(Err(TokenError::Spawn(_)))));
    assert_eq!(count(&trace, Action::KillServer), 0);
    assert_eq!(trace.len(), 2);
}

#[test]
fn retries_are_bounded() {
    let mut p = Pipeline::new(config("fake-driver", false, 3));
    let trace = drive(&mut p, |a, _| match a {
        Action::Login(Step::WaitFor(_)) => Outcome::Failed(TokenError::WaitTimeout),
        _ => Outcome::Done,
    });
    assert!(matches!(p.result(), Some(Err(TokenError::RetriesExhausted(3)))));
    assert_eq!(count(&trace, Action::Spawn), 3);
    assert_eq!(count(&trace, Action::KillServer), 3);
}

#[test]
fn connection_is_retried_after_a_backoff() {
    let mut p = Pipeline::new(config("fake-driver", false, 3));
    let mut failures = 2;
    let trace = drive(&mut p, |a, _| match a {
        Action::Connect if failures > 0 => {
            failures -= 1;
            Outcome::Failed(TokenError::Command("connection refused".to_string()))
        }
        Action::Login(Step::ReadCookie) => Outcome::Cookie("t".to_string()),
        _ => Outcome::Done,
    });
    assert!(matches!(p.result(), Some(Ok(_))));
    assert_eq!(count(&trace, Action::Connect), 3);
    assert_eq!(count(&trace, Action::Backoff), 2);
    assert_eq!(count(&trace, Action::Spawn), 1);
}

#[test]
fn connection_gives_up_after_its_bound() {
    let mut p = Pipeline::new(config("fake-driver", false, 3));
    let trace = drive(&mut p, |a, _| match a {
        Action::Connect => Outcome::Failed(TokenError::Command("connection refused".to_string())),
        _ => Outcome::Done,
    });
    assert!(matches!(p.result(), Some(Err(TokenError::Connect(3)))));
    assert_eq!(count(&trace, Action::Spawn), 1);
    assert_eq!(count(&trace, Action::KillServer), 1);
    assert_eq!(count(&trace, Action::CloseSession), 0);
}
