//! The scripted login: a fixed sequence of browser commands.

use vstd::prelude::*;
use crate::session::Key;

verus! {

/// The site whose login the script drives.
pub const SITE_URL: &'static str = "https://britishcouncil.gelielts.com";

/// The cookie that holds the API token once the login is complete.
pub const TOKEN_COOKIE: &'static str = "IELTS_API_TOKEN";

/// Number of steps of the login script.
pub const LOGIN_STEPS: usize = 16;

/// The elements that the script waits for.
#[derive(PartialEq, Eq, Structural, Clone, Copy, Debug)]
pub enum Target {
    EmailField,
    UsePasswordButton,
    PasswordField,
    HomeMarker,
}

/// Which credential a text entry types.
#[derive(PartialEq, Eq, Structural, Clone, Copy, Debug)]
pub enum Field {
    Account,
    Secret,
}

/// One command of the login script. The element commands act on the element
/// found by the latest wait.
#[derive(PartialEq, Eq, Structural, Clone, Copy, Debug)]
pub enum Step {
    OpenSite,
    WaitFor(Target),
    ScrollIntoView,
    Click,
    TypeText(Field),
    PressKey(Key),
    ReadCookie,
}

/// A way to find an element in the page.
#[derive(Debug, Clone)]
pub enum Locator {
    Css(String),
    Id(String),
}

/// The login script, in its strict order: open the site; fill and submit the
/// account; ask for the password form; fill and submit the secret; wait for
/// the home page marker; read the token cookie.
pub open spec fn login_script() -> Seq<Step> {
    seq![
        Step::OpenSite,
        Step::WaitFor(Target::EmailField),
        Step::ScrollIntoView,
        Step::Click,
        Step::TypeText(Field::Account),
        Step::PressKey(Key::Enter),
        Step::WaitFor(Target::UsePasswordButton),
        Step::ScrollIntoView,
        Step::Click,
        Step::WaitFor(Target::PasswordField),
        Step::ScrollIntoView,
        Step::Click,
        Step::TypeText(Field::Secret),
        Step::PressKey(Key::Enter),
        Step::WaitFor(Target::HomeMarker),
        Step::ReadCookie,
    ]
}

/// The `i`-th command of the login script.
pub fn login_step(i: usize) -> (r: Step)
    requires
        i < LOGIN_STEPS,
    ensures
        login_script().len() == LOGIN_STEPS,
        r == login_script()[i as int],
{
    match i {
        0 => Step::OpenSite,
        1 => Step::WaitFor(Target::EmailField),
        2 => Step::ScrollIntoView,
        3 => Step::Click,
        4 => Step::TypeText(Field::Account),
        5 => Step::PressKey(Key::Enter),
        6 => Step::WaitFor(Target::UsePasswordButton),
        7 => Step::ScrollIntoView,
        8 => Step::Click,
        9 => Step::WaitFor(Target::PasswordField),
        10 => Step::ScrollIntoView,
        11 => Step::Click,
        12 => Step::TypeText(Field::Secret),
        13 => Step::PressKey(Key::Enter),
        14 => Step::WaitFor(Target::HomeMarker),
        _ => Step::ReadCookie,
    }
}

/// Whether a locator is the CSS selector `css`.
pub open spec fn is_css(l: Locator, css: Seq<char>) -> bool {
    l matches Locator::Css(s) && s@ == css
}

/// How each waited-for element is found.
pub fn locator(t: Target) -> (r: Locator)
    ensures
        t == Target::EmailField ==> is_css(r, "input[name=\"email\"]"@),
        t == Target::UsePasswordButton ==> is_css(
            r,
            "button[data-testid=\"use_password_to_log_in\"]"@,
        ),
        t == Target::PasswordField ==> is_css(r, "input[name=\"password\"]"@),
        t == Target::HomeMarker ==> (r matches Locator::Id(s) && s@ == "homeHead"@),
{
    match t {
        Target::EmailField => Locator::Css(String::from_str("input[name=\"email\"]")),
        Target::UsePasswordButton => Locator::Css(
            String::from_str("button[data-testid=\"use_password_to_log_in\"]"),
        ),
        Target::PasswordField => Locator::Css(String::from_str("input[name=\"password\"]")),
        Target::HomeMarker => Locator::Id(String::from_str("homeHead")),
    }
}

} // verus!
