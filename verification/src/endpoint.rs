//! Where the service is reached: the control origin, the stream origin, and
//! the form that `url` gives to the stream's address.

use vstd::prelude::*;

verus! {

/// `url::ParseError`, why a text is no URL. The library only tells it from
/// success.
#[verifier::external_type_specification]
#[verifier::external_body]
pub struct ExUrlParseError(url::ParseError);

/// The origin of the control channel.
pub const SERVER_URL: &'static str = "http://localhost:3000";

/// The origin of the stream channel.
pub const WS_URL: &'static str = "ws://localhost:3000";

/// The address as `url` writes it once it has parsed it; `None` where
/// `url::Url::parse` does not take the text for an absolute URL.
pub uninterp spec fn parsed_url(text: Seq<char>) -> Option<Seq<char>>;

/// Calls `url::Url::parse` and turns the `Url` into the `String` that it
/// holds, through `url`'s `From<Url> for String`. Claimed: whether the text
/// parses, and how the URL is then written, depends on the text alone;
/// [`parsed_url`] is the name of that dependence.
#[verifier::external_body]
pub(crate) fn parse_url(text: &str) -> (parsed: Result<String, url::ParseError>)
    ensures
        match parsed {
            Ok(address) => parsed_url(text@) == Some(address@),
            Err(_) => parsed_url(text@) is None,
        },
{
    match url::Url::parse(text) {
        Ok(url) => Ok(url.into()),
        Err(e) => Err(e),
    }
}

/// The address in the form in which the stream is opened with it, or `None`
/// for a text that is no absolute URL.
pub fn checked_address(text: &str) -> (address: Option<String>)
    ensures
        match address {
            Some(a) => parsed_url(text@) == Some(a@),
            None => parsed_url(text@) is None,
        },
{
    match parse_url(text) {
        Ok(address) => Some(address),
        Err(_) => None,
    }
}

} // verus!
