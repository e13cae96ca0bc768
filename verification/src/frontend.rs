//! The frontend side: the interface of frontends and the command-line
//! frontend's turning of user input into backend commands.

use vstd::prelude::*;
use crate::ports::{Backend, BackendCommand};

verus! {

/// Declares `url::ParseError` to Verus as an opaque type.
#[verifier::external_type_specification]
#[verifier::external_body]
pub struct ExUrlParseError(url::ParseError);

/// The normalised text of the URL that `url::Url::parse` makes of `text`, or
/// `None` where it rejects `text`.
pub uninterp spec fn parsed_url(text: Seq<char>) -> Option<Seq<char>>;

/// Calls `url::Url::parse` and turns an accepted URL into its serialisation
/// (`From<Url> for String`). The contract only ties the outcome to the name
/// `parsed_url`; what the URL standard accepts and how it normalises is not
/// stated.
#[verifier::external_body]
fn parse_url(text: &str) -> (r: Result<String, url::ParseError>)
    ensures
        match r {
            Ok(u) => parsed_url(text@) == Some(u@),
            Err(_) => parsed_url(text@) is None,
        },
{
    match url::Url::parse(text) {
        Ok(u) => Ok(String::from(u)),
        Err(e) => Err(e),
    }
}

/// The messages that `url::ParseError` displays, one per kind of error.
pub open spec fn is_url_error_message(t: Seq<char>) -> bool {
    ||| t == "empty host"@
    ||| t == "invalid international domain name"@
    ||| t == "invalid port number"@
    ||| t == "invalid IPv4 address"@
    ||| t == "invalid IPv6 address"@
    ||| t == "invalid domain character"@
    ||| t == "relative URL without a base"@
    ||| t == "relative URL with a cannot-be-a-base base"@
    ||| t == "a cannot-be-a-base URL doesn\u{2019}t have a host to set"@
    ||| t == "URLs more than 4 GB are not supported"@
}

/// Calls `Display` on `url::ParseError` (through `to_string`), which writes
/// the fixed message of the error's kind. Which kind `Url::parse` reports
/// for which text is not stated.
#[verifier::external_body]
fn parse_error_text(e: &url::ParseError) -> (t: String)
    ensures
        is_url_error_message(t@),
{
    e.to_string()
}

/// A frontend drives a backend until the user is done.
pub trait Frontend {
    fn run<B: Backend>(&self, backend: B);
}

/// The command-line frontend: a prompt with the commands `play URL`, `stop`
/// and `exit`.
pub struct EasyReplFrontend {}

impl EasyReplFrontend {
    pub fn new() -> (f: Self) {
        EasyReplFrontend {}
    }
}

/// Input that is not a URL.
#[derive(Debug)]
pub struct InvalidUrl {
    /// The text the user gave.
    pub input: String,
    /// Why it was rejected.
    pub reason: String,
}

/// The command for `play URL`, given how the URL parser judged `input`: the
/// normalised URL to play, or the reason for rejecting `input`.
pub fn play_command_from(input: &str, parsed: Result<String, String>) -> (r: Result<BackendCommand, InvalidUrl>)
    ensures
        match parsed {
            Ok(url) => r matches Ok(BackendCommand::PlayUrl(u)) && u@ == url@,
            Err(reason) => r matches Err(e) && e.input@ == input@ && e.reason@ == reason@,
        },
{
    broadcast use vstd::string::group_string_axioms;
    match parsed {
        Ok(url) => Ok(BackendCommand::PlayUrl(url)),
        Err(reason) => Err(InvalidUrl { input: input.to_string(), reason }),
    }
}

/// The command for `play URL`: the URL to play when the URL parser accepts
/// `input`, else the input and the parser's reason.
pub fn play_command(input: &str) -> (r: Result<BackendCommand, InvalidUrl>)
    ensures
        r is Ok <==> parsed_url(input@) is Some,
        match r {
            Ok(cmd) => cmd matches BackendCommand::PlayUrl(u) && Some(u@) == parsed_url(input@),
            Err(e) => e.input@ == input@ && is_url_error_message(e.reason@),
        },
{
    let parsed = match parse_url(input) {
        Ok(url) => Ok(url),
        Err(e) => Err(parse_error_text(&e)),
    };
    play_command_from(input, parsed)
}

} // verus!
