//! Where the login challenge and the one-time code come from.

use vstd::prelude::*;
use crate::ids::{hyphenated, id_text};

verus! {

/// Why the login material could not be gathered.
#[derive(Debug, Clone, Copy, PartialEq, Eq, Structural)]
pub enum AuthError {
    /// No challenge was given, and no phone number to request one for.
    PhoneRequired,
    /// No code was given, and none is to be read from standard input.
    CodeRequired,
}

impl AuthError {
    /// The message shown to the user.
    pub fn message(&self) -> (text: String)
        ensures
            *self == AuthError::PhoneRequired ==> text@ == "phone is required without challenge"@,
            *self == AuthError::CodeRequired ==> text@ == "code is required"@,
    {
        match self {
            AuthError::PhoneRequired => String::from_str("phone is required without challenge"),
            AuthError::CodeRequired => String::from_str("code is required"),
        }
    }
}

/// How the login challenge is obtained.
#[derive(Debug)]
pub enum ChallengeSource {
    /// A challenge issued earlier, reused in its text form.
    Known(String),
    /// A fresh challenge, to be requested for this phone number.
    RequestFor(String),
}

/// The login challenge: an earlier challenge's id where one is given (so a
/// code already sent is not sent again), else a request for the phone.
pub fn challenge_source(challenge: Option<u128>, phone: Option<String>) -> (r: Result<
    ChallengeSource,
    AuthError,
>)
    ensures
        challenge matches Some(id) ==> (r matches Ok(ChallengeSource::Known(t)) && t@
            == hyphenated(id)),
        challenge is None && phone is Some ==> (r matches Ok(ChallengeSource::RequestFor(p)) && p@
            == phone.unwrap()@),
        challenge is None && phone is None ==> r == Err::<ChallengeSource, AuthError>(
            AuthError::PhoneRequired,
        ),
{
    match challenge {
        Some(id) => Ok(ChallengeSource::Known(id_text(id))),
        None => match phone {
            Some(p) => Ok(ChallengeSource::RequestFor(p)),
            None => Err(AuthError::PhoneRequired),
        },
    }
}

/// How the one-time code is obtained.
#[derive(Debug)]
pub enum CodeSource {
    /// Read from standard input, then checked with `read_code`.
    Stdin,
    /// Given on the command line.
    Given(String),
}

/// The one-time code: from standard input when asked for, else the code
/// given on the command line, which is then required.
pub fn code_source(code: Option<String>, code_stdin: bool) -> (r: Result<CodeSource, AuthError>)
    ensures
        code_stdin ==> r matches Ok(CodeSource::Stdin),
        !code_stdin && code is Some ==> (r matches Ok(CodeSource::Given(c)) && c@
            == code.unwrap()@),
        !code_stdin && code is None ==> r == Err::<CodeSource, AuthError>(AuthError::CodeRequired),
{
    if code_stdin {
        Ok(CodeSource::Stdin)
    } else {
        match code {
            Some(c) => Ok(CodeSource::Given(c)),
            None => Err(AuthError::CodeRequired),
        }
    }
}

} // verus!
