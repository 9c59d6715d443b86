//! The address the client connects to.
use vstd::prelude::*;

use crate::errors::{is_client_error, ACIClientError, ACIError};
use crate::ids::{server_url_text, spec_server_url};

verus! {

#[verifier::external_type_specification]
#[verifier::external_body]
pub struct ExUrl(url::Url);

/// What `url::Url::parse` gives for the text `s`: the parsed URL, or the
/// displayed text of its error.
pub uninterp spec fn url_parse(s: Seq<char>) -> Result<url::Url, Seq<char>>;

/// Parses `s` with `url::Url::parse`.
///
/// Trusted: the outcome is a function of `s` alone, named `url_parse`: the
/// parsed URL where the parser accepts the text, otherwise the displayed text
/// of the parser's error.
#[verifier::external_body]
fn parse_url(s: &str) -> (r: Result<url::Url, String>)
    ensures
        match r {
            Ok(u) => url_parse(s@) == Ok::<url::Url, Seq<char>>(u),
            Err(t) => url_parse(s@) == Err::<url::Url, Seq<char>>(t@),
        },
{
    match url::Url::parse(s) {
        Ok(u) => Ok(u),
        Err(e) => Err(e.to_string()),
    }
}

/// The text "Cannot create url for `".
pub open spec fn bad_url_prefix() -> Seq<char> {
    "Cannot create url for `"@
}

/// The error for an address `url_text` that the URL parser refused with
/// `reason`.
pub fn url_error(url_text: &str, reason: &str) -> (r: ACIError)
    ensures
        is_client_error(r, bad_url_prefix() + url_text@ + ("` "@ + reason@)),
{
    let mut text = "Cannot create url for `".to_owned();
    text.append(url_text);
    text.append("` ");
    text.append(reason);
    assert(text@ =~= bad_url_prefix() + url_text@ + ("` "@ + reason@));
    ACIError::ClientError(ACIClientError::new(text))
}

/// The websocket address of the server at `ip` and `port`, parsed as a URL,
/// or the client error for an address that does not parse.
pub fn server_url(ip: &str, port: usize) -> (r: Result<url::Url, ACIError>)
    ensures
        match url_parse(spec_server_url(ip@, port as nat)) {
            Ok(u) => r == Ok::<url::Url, ACIError>(u),
            Err(reason) => r matches Err(e) && is_client_error(
                e,
                bad_url_prefix() + spec_server_url(ip@, port as nat) + ("` "@ + reason),
            ),
        },
{
    let text = server_url_text(ip, port);
    match parse_url(text.as_str()) {
        Ok(u) => Ok(u),
        Err(reason) => Err(url_error(text.as_str(), reason.as_str())),
    }
}

} // verus!
