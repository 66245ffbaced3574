//! Checking that a request target is a URL this client may talk to.
//!
//! Reading the target is left to `hyper`; what is decided here is what its
//! reading means: only an absolute URL with the scheme `http` is accepted.

use crate::error::{SubmitError, SubmitErrorView};
use vstd::prelude::*;

verus! {

/// What `hyper` makes of `text` as a URI: the scheme it finds, `None` where
/// the URI has none, or the parser's complaint where `text` is no URI.
pub uninterp spec fn uri_scheme(text: Seq<char>) -> Result<Option<Seq<char>>, Seq<char>>;

/// The only scheme that is accepted.
pub open spec fn http() -> Seq<char> {
    "http"@
}

/// What a reading of a target holds.
pub open spec fn reading_view(reading: Result<Option<String>, String>) -> Result<
    Option<Seq<char>>,
    Seq<char>,
> {
    match reading {
        Ok(Some(scheme)) => Ok(Some(scheme@)),
        Ok(None) => Ok(None),
        Err(reason) => Err(reason@),
    }
}

/// What a verdict holds.
pub open spec fn verdict_view(verdict: Result<(), SubmitError>) -> Result<(), SubmitErrorView> {
    match verdict {
        Ok(()) => Ok(()),
        Err(error) => Err(error@),
    }
}

/// The verdict on a target, given its reading: accepted exactly when it has
/// the scheme `http`. `url` is the URL as the caller gave it, which every
/// refusal quotes.
pub open spec fn scheme_verdict(
    reading: Result<Option<Seq<char>>, Seq<char>>,
    url: Seq<char>,
) -> Result<(), SubmitErrorView> {
    match reading {
        Err(reason) => Err(SubmitErrorView::InvalidUrl { reason, url }),
        Ok(None) => Err(SubmitErrorView::MissingScheme { url }),
        Ok(Some(scheme)) => if scheme == http() {
            Ok(())
        } else {
            Err(SubmitErrorView::UnsupportedScheme { scheme, url })
        },
    }
}

/// Reads `text` as a URI with `<hyper::Uri as FromStr>::from_str` and reports
/// its scheme as `hyper::Uri::scheme` gives it, or, where the text is
/// refused, the message that `hyper::error::UriError` displays.
///
/// Trusted: that the outcome depends on `text` alone. Nothing is claimed
/// about which texts are URIs or what their schemes are.
#[verifier::external_body]
fn read_scheme(text: &str) -> (reading: Result<Option<String>, String>)
    ensures
        reading_view(reading) == uri_scheme(text@),
{
    match text.parse::<hyper::Uri>() {
        Ok(uri) => Ok(uri.scheme().map(String::from)),
        Err(error) => Err(error.to_string()),
    }
}

/// Decides on a target whose reading is already known.
pub fn check_scheme(reading: Result<Option<String>, String>, url: &str) -> (verdict: Result<
    (),
    SubmitError,
>)
    ensures
        verdict_view(verdict) == scheme_verdict(reading_view(reading), url@),
{
    match reading {
        Err(reason) => Err(SubmitError::InvalidUrl { reason, url: String::from_str(url) }),
        Ok(None) => Err(SubmitError::MissingScheme { url: String::from_str(url) }),
        Ok(Some(scheme)) => {
            let accepted = String::from_str("http");
            if scheme == accepted {
                Ok(())
            } else {
                Err(SubmitError::UnsupportedScheme { scheme, url: String::from_str(url) })
            }
        },
    }
}

/// Decides whether `target` may be requested. `url` is the URL that the
/// caller gave and from which `target` was made; a refusal quotes it.
pub fn validate_url(target: &str, url: &str) -> (verdict: Result<(), SubmitError>)
    ensures
        verdict_view(verdict) == scheme_verdict(uri_scheme(target@), url@),
{
    check_scheme(read_scheme(target), url)
}

} // verus!
