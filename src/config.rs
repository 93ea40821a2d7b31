//! Reading the pipeline's settings from their text form.

use vstd::prelude::*;
use crate::error::TokenError;

verus! {

/// Relies on `bool`'s `FromStr`: it accepts exactly `"true"` and `"false"`.
#[verifier::external_body]
fn parse_bool(s: &str) -> (r: Option<bool>)
    ensures
        r == (if s@ == "true"@ {
            Some(true)
        } else if s@ == "false"@ {
            Some(false)
        } else {
            None
        }),
{
    s.parse::<bool>().ok()
}

/// Reads the flag `name` from its text `value`: `"true"` or `"false"`, and
/// nothing else.
pub fn parse_flag(name: &str, value: &str) -> (r: Result<bool, TokenError>)
    ensures
        value@ == "true"@ ==> r == Ok::<bool, TokenError>(true),
        value@ == "false"@ ==> r == Ok::<bool, TokenError>(false),
        value@ != "true"@ && value@ != "false"@ ==> (r matches Err(TokenError::EnvMalformed(n, v))
            && n@ == name@ && v@ == value@),
{
    proof {
        reveal_strlit("true");
        reveal_strlit("false");
        assert("true"@[0] != "false"@[0]);
    }
    match parse_bool(value) {
        Some(b) => Ok(b),
        None => Err(TokenError::EnvMalformed(String::from_str(name), String::from_str(value))),
    }
}

} // verus!
