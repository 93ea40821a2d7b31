use tokextract::command::{split_words, CommandLine};
use tokextract::config::parse_flag;
use tokextract::error::{classify, AttemptResult, TokenError};
use tokextract::login::{locator, login_step, Field, Locator, Step, Target, LOGIN_STEPS};
use tokextract::session::{capabilities, special_key_events, Key, KeyEvent, KEY_PAUSE_MS};

#[test]
fn special_key_is_down_pause_up() {
    assert_eq!(
        special_key_events(Key::Enter),
        vec![KeyEvent::Down(Key::Enter), KeyEvent::Pause(50), KeyEvent::Up(Key::Enter)]
    );
    assert_eq!(KEY_PAUSE_MS, 50);
}

#[test]
fn headless_capabilities_cover_three_vendors() {
    let caps = capabilities(true);
    let keys: Vec<&str> = caps.iter().map(|o| o.key.as_str()).collect();
    assert_eq!(keys, vec!["goog:chromeOptions", "moz:firefoxOptions", "ms:edgeOptions"]);
    assert_eq!(caps[0].args, vec!["headless".to_string(), "disable-gpu".to_string()]);
    assert_eq!(caps[1].args, vec!["-headless".to_string()]);
    assert_eq!(caps[2].args, vec!["--headless".to_string()]);
    assert!(capabilities(false).is_empty());
}

#[test]
fn command_line_splits_on_any_whitespace() {
    let c = CommandLine::parse("  geckodriver \t--port  4444\n").unwrap();
    assert_eq!(c.program, "geckodriver");
    assert_eq!(c.args, vec!["--port".to_string(), "4444".to_string()]);
    let c = CommandLine::parse("chromedriver").unwrap();
    assert!(c.args.is_empty());
    assert_eq!(split_words("a\u{a0}b"), vec!["a".to_string(), "b".to_string()]);
    assert!(split_words("").is_empty());
}

#[test]
fn empty_command_is_refused() {
    assert!(matches!(CommandLine::parse(""), Err(TokenError::Spawn(_))));
    assert!(matches!(CommandLine::parse(" \t\n"), Err(TokenError::Spawn(_))));
}

#[test]
fn flags_are_true_or_false_only() {
    assert!(matches!(parse_flag("WEBDRIVER_HEADLESS", "true"), Ok(true)));
    assert!(matches!(parse_flag("WEBDRIVER_HEADLESS", "false"), Ok(false)));
    match parse_flag("WEBDRIVER_KEEPALIVE", "yes") {
        Err(TokenError::EnvMalformed(n, v)) => {
            assert_eq!(n, "WEBDRIVER_KEEPALIVE");
            assert_eq!(v, "yes");
        }
        other => panic!("unexpected {other:?}"),
    }
    assert!(parse_flag("X", "True").is_err());
}

#[test]
fn only_wait_timeouts_are_retryable() {
    assert!(TokenError::WaitTimeout.is_timeout());
    assert!(!TokenError::CookieMissing.is_timeout());
    assert!(!TokenError::Command("x".to_string()).is_timeout());
    assert!(matches!(classify(Ok("t".to_string())), AttemptResult::Success(t) if t == "t"));
    assert!(matches!(classify(Err(TokenError::WaitTimeout)), AttemptResult::TimeoutFailure(_)));
    assert!(matches!(classify(Err(TokenError::Connect(2))), AttemptResult::FatalFailure(_)));
}

#[test]
fn login_script_order() {
    let steps: Vec<Step> = (0..LOGIN_STEPS).map(login_step).collect();
    assert_eq!(steps.len(), 16);
    assert_eq!(steps[0], Step::OpenSite);
    assert_eq!(steps[1], Step::WaitFor(Target::EmailField));
    assert_eq!(steps[4], Step::TypeText(Field::Account));
    assert_eq!(steps[5], Step::PressKey(Key::Enter));
    assert_eq!(steps[6], Step::WaitFor(Target::UsePasswordButton));
    assert_eq!(steps[9], Step::WaitFor(Target::PasswordField));
    assert_eq!(steps[12], Step::TypeText(Field::Secret));
    assert_eq!(steps[14], Step::WaitFor(Target::HomeMarker));
    assert_eq!(steps[15], Step::ReadCookie);
}

#[test]
fn locators_of_the_login_page() {
    assert!(matches!(locator(Target::EmailField), Locator::Css(s) if s == r#"input[name="email"]"#));
    assert!(matches!(
        locator(Target::UsePasswordButton),
        Locator::Css(s) if s == r#"button[data-testid="use_password_to_log_in"]"#
    ));
    assert!(matches!(locator(Target::PasswordField), Locator::Css(s) if s == r#"input[name="password"]"#));
    assert!(matches!(locator(Target::HomeMarker), Locator::Id(s) if s == "homeHead"));
}
