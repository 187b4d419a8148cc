//! The host of a destination URI.

use http::uri::InvalidUri;
use http::Uri;
use vstd::prelude::*;

verus! {

/// The error with which `http` refuses a text that is no URI.
#[verifier::external_type_specification]
#[verifier::external_body]
pub struct ExInvalidUri(http::uri::InvalidUri);

/// Why a destination URI names no host.
#[derive(Clone, Copy, Debug, PartialEq, Eq)]
pub enum HostError {
    /// The text is not a URI.
    InvalidUri,
    /// The URI has no authority, and so no host.
    MissingHostname,
}

/// What `http` makes of a destination text: `None` where `Uri::from_str`
/// refuses the text, `Some(None)` where it accepts the text and `Uri::host`
/// finds no host in it, `Some(Some(h))` where `Uri::host` gives the host `h`.
pub uninterp spec fn uri_host(text: Seq<char>) -> Option<Option<Seq<char>>>;

/// Parses `text` with `http`'s `Uri::from_str` and reads the host of the
/// parsed URI with `Uri::host`.
///
/// Trusted: the result is what `uri_host` names, the parser's error where it
/// refuses the text. Neither function panics: the parser answers every text
/// with a `Result`, and `host` only reads what the parser has validated.
#[verifier::external_body]
fn parse_host(text: &str) -> (parsed: Result<Option<String>, InvalidUri>)
    ensures
        match parsed {
            Ok(Some(host)) => uri_host(text@) == Some(Some(host@)),
            Ok(None) => uri_host(text@) == Some(None::<Seq<char>>),
            Err(_) => uri_host(text@) is None,
        },
{
    let uri: Uri = text.parse()?;
    Ok(uri.host().map(str::to_owned))
}

/// The host that a parsed destination names, or why it names none.
pub fn require_host(parsed: Result<Option<String>, InvalidUri>) -> (host: Result<
    String,
    HostError,
>)
    ensures
        match parsed {
            Ok(Some(name)) => host == Ok::<String, HostError>(name),
            Ok(None) => host == Err::<String, HostError>(HostError::MissingHostname),
            Err(_) => host == Err::<String, HostError>(HostError::InvalidUri),
        },
{
    match parsed {
        Ok(Some(name)) => Ok(name),
        Ok(None) => Err(HostError::MissingHostname),
        Err(_) => Err(HostError::InvalidUri),
    }
}

/// The host named by the destination URI `uri`.
///
/// The host comes back as `http` reads it from the URI, not yet cleaned for
/// a lookup.
pub fn destination_host(uri: &str) -> (host: Result<String, HostError>)
    ensures
        match uri_host(uri@) {
            Some(Some(name)) => host matches Ok(text) && text@ == name,
            Some(None) => host == Err::<String, HostError>(HostError::MissingHostname),
            None => host == Err::<String, HostError>(HostError::InvalidUri),
        },
{
    require_host(parse_host(uri))
}

} // verus!
