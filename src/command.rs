//! Splitting the automation server's command line into a program and its arguments.

use vstd::prelude::*;
use crate::error::TokenError;

verus! {

/// Whether a character has the Unicode `White_Space` property.
pub uninterp spec fn white_space(c: char) -> bool;

/// Relies on `char::is_whitespace`: true exactly for characters with the
/// Unicode `White_Space` property, among them the space and the line feed.
#[verifier::external_body]
fn is_whitespace(c: char) -> (r: bool)
    ensures
        r == white_space(c),
        c == ' ' || c == '\n' || c == '\t' ==> r,
{
    c.is_whitespace()
}

/// The maximal runs of non-whitespace characters of `s`, in order.
pub open spec fn words(s: Seq<char>) -> Seq<Seq<char>>
    decreases s.len(),
{
    if s.len() == 0 {
        Seq::empty()
    } else {
        let c = s.last();
        let rest = words(s.drop_last());
        if white_space(c) {
            rest
        } else if s.len() >= 2 && !white_space(s[s.len() - 2]) {
            rest.drop_last().push(rest.last().push(c))
        } else {
            rest.push(seq![c])
        }
    }
}

/// A program to run, with its arguments.
#[derive(Debug, Clone)]
pub struct CommandLine {
    pub program: String,
    pub args: Vec<String>,
}

pub open spec fn views(v: Seq<String>) -> Seq<Seq<char>> {
    v.map_values(|s: String| s@)
}

/// Splits `s` at whitespace into its words.
pub fn split_words(s: &str) -> (r: Vec<String>)
    ensures
        views(r@) == words(s@),
{
    let n = s.unicode_len();
    let mut out: Vec<String> = Vec::new();
    let mut in_word = false;
    let mut start: usize = 0;
    let mut i: usize = 0;
    while i < n
        invariant
            n == s@.len(),
            i <= n,
            start <= i,
            !in_word ==> views(out@) == words(s@.take(i as int)),
            in_word ==> start < i && views(out@).push(s@.subrange(start as int, i as int))
                == words(s@.take(i as int)),
            in_word ==> !white_space(s@[i - 1]),
            in_word && start > 0 ==> white_space(s@[start - 1]),
            !in_word && i > 0 ==> white_space(s@[i - 1]),
        decreases n - i,
    {
        let c = s.get_char(i);
        let ghost prefix = s@.take(i as int + 1);
        assert(prefix.drop_last() == s@.take(i as int));
        assert(prefix.last() == c);
        if is_whitespace(c) {
            if in_word {
                let ghost before = out@;
                let w = String::from_str(s.substring_char(start, i));
                out.push(w);
                assert(views(out@) =~= views(before).push(s@.subrange(start as int, i as int)));
            }
            in_word = false;
        } else {
            if !in_word {
                start = i;
                in_word = true;
                assert(s@.subrange(start as int, i as int + 1) =~= seq![c]);
            } else {
                let ghost rest = views(out@).push(s@.subrange(start as int, i as int));
                assert(rest.drop_last() =~= views(out@));
                assert(s@.subrange(start as int, i as int + 1) =~= s@.subrange(start as int, i as int).push(c));
            }
        }
        i = i + 1;
    }
    if in_word {
        let ghost before = out@;
        let w = String::from_str(s.substring_char(start, n));
        out.push(w);
        assert(views(out@) =~= views(before).push(s@.subrange(start as int, n as int)));
    }
    assert(s@.take(n as int) =~= s@);
    out
}

impl CommandLine {
    /// Splits a command line at whitespace: the first word is the program, the
    /// others its arguments. A line with no word is refused.
    pub fn parse(exec: &str) -> (r: Result<CommandLine, TokenError>)
        ensures
            r is Err <==> words(exec@).len() == 0,
            r is Err ==> r->Err_0 is Spawn,
            r matches Ok(c) ==> c.program@ == words(exec@)[0] && views(c.args@)
                == words(exec@).drop_first(),
    {
        let mut all = split_words(exec);
        if all.len() == 0 {
            return Err(TokenError::Spawn(String::from_str("empty command")));
        }
        let ghost before = all@;
        let program = all.remove(0);
        assert(views(all@) =~= views(before).drop_first());
        Ok(CommandLine { program, args: all })
    }
}

} // verus!
