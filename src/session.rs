//! What a remote browser session is opened with, and the key-press protocol it speaks.

use vstd::prelude::*;
use crate::command::views;

verus! {

/// The automation server's endpoint.
pub const SERVER_URL: &'static str = "http://localhost:4444";

/// Milliseconds to wait after spawning the server before the first connection.
pub const WARM_UP_MS: u64 = 1000;

/// Milliseconds to wait between two connection tries.
pub const RETRY_DELAY_MS: u64 = 250;

/// Milliseconds between the press and the release of a special key.
pub const KEY_PAUSE_MS: u64 = 50;

/// A key without a text form.
#[derive(PartialEq, Eq, Structural, Clone, Copy, Debug)]
pub enum Key {
    Enter,
}

/// One event of a key action sequence.
#[derive(PartialEq, Eq, Structural, Clone, Copy, Debug)]
pub enum KeyEvent {
    Down(Key),
    Pause(u64),
    Up(Key),
}

/// Presses and releases `key` as three discrete events: down, a fixed pause, up.
pub fn special_key_events(key: Key) -> (r: Vec<KeyEvent>)
    ensures
        r@ == seq![KeyEvent::Down(key), KeyEvent::Pause(KEY_PAUSE_MS), KeyEvent::Up(key)],
{
    let mut r: Vec<KeyEvent> = Vec::new();
    r.push(KeyEvent::Down(key));
    r.push(KeyEvent::Pause(KEY_PAUSE_MS));
    r.push(KeyEvent::Up(key));
    assert(r@ =~= seq![KeyEvent::Down(key), KeyEvent::Pause(KEY_PAUSE_MS), KeyEvent::Up(key)]);
    r
}

/// Vendor-specific browser options: the capability key and the browser's arguments.
#[derive(Debug, Clone)]
pub struct BrowserOptions {
    pub key: String,
    pub args: Vec<String>,
}

pub open spec fn options_view(o: BrowserOptions) -> (Seq<char>, Seq<Seq<char>>) {
    (o.key@, views(o.args@))
}

/// The capability entries of a new session: none for a visible browser; for a
/// headless one, the headless options of all three major vendors at once, since
/// the browser behind the server is not known in advance.
pub open spec fn capabilities_spec(headless: bool) -> Seq<(Seq<char>, Seq<Seq<char>>)> {
    if headless {
        seq![
            ("goog:chromeOptions"@, seq!["headless"@, "disable-gpu"@]),
            ("moz:firefoxOptions"@, seq!["-headless"@]),
            ("ms:edgeOptions"@, seq!["--headless"@]),
        ]
    } else {
        Seq::empty()
    }
}

fn browser_options(key: &str, args: Vec<String>) -> (r: BrowserOptions)
    ensures
        r.key@ == key@,
        r.args == args,
{
    BrowserOptions { key: String::from_str(key), args }
}

/// The capability entries of a new session (see [`capabilities_spec`]).
pub fn capabilities(headless: bool) -> (r: Vec<BrowserOptions>)
    ensures
        r@.map_values(|o: BrowserOptions| options_view(o)) == capabilities_spec(headless),
{
    let mut r: Vec<BrowserOptions> = Vec::new();
    if headless {
        let mut chrome: Vec<String> = Vec::new();
        chrome.push(String::from_str("headless"));
        chrome.push(String::from_str("disable-gpu"));
        let mut firefox: Vec<String> = Vec::new();
        firefox.push(String::from_str("-headless"));
        let mut edge: Vec<String> = Vec::new();
        edge.push(String::from_str("--headless"));
        assert(views(chrome@) =~= seq!["headless"@, "disable-gpu"@]);
        assert(views(firefox@) =~= seq!["-headless"@]);
        assert(views(edge@) =~= seq!["--headless"@]);
        r.push(browser_options("goog:chromeOptions", chrome));
        r.push(browser_options("moz:firefoxOptions", firefox));
        r.push(browser_options("ms:edgeOptions", edge));
    }
    assert(r@.map_values(|o: BrowserOptions| options_view(o)) =~= capabilities_spec(headless));
    r
}

} // verus!
