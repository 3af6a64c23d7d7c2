//! Input validation: a download request's source URL must be well formed and
//! its host must sit on the allowlist of known platform hostnames. Any other
//! input is rejected before any external process is considered.

use vstd::prelude::*;
use crate::strutil::str_eq;

verus! {

/// Whether `s` parses as a well-formed URL, as `url::Url::parse` decides it;
/// a function of the characters alone.
pub uninterp spec fn url_well_formed(s: Seq<char>) -> bool;

/// The host of the URL `s` when it is well formed and has one, as
/// `url::Url::host_str` reports it; a function of the characters alone.
pub uninterp spec fn host_of(s: Seq<char>) -> Option<Seq<char>>;

/// Relies on url::Url::parse (whether `url` is a well-formed URL) and
/// url::Url::host_str (the URL's host, absent for host-less URLs). Both are
/// deterministic in the input string.
#[verifier::external_body]
fn parse_url_host(url: &str) -> (r: Result<Option<String>, ()>)
    ensures
        r is Ok <==> url_well_formed(url@),
        r is Ok ==> ((r->Ok_0 is Some) <==> (host_of(url@) is Some)),
        (r is Ok && r->Ok_0 is Some) ==> r->Ok_0->Some_0@ == host_of(url@)->Some_0,
{
    match url::Url::parse(url) {
        Ok(parsed) => Ok(parsed.host_str().map(|h| h.to_string())),
        Err(_) => Err(()),
    }
}

/// The allowlist: the platform's apex domain, its mobile subdomain, its
/// short-link domain, and its privacy-enhanced variant, each also with a
/// `www.` prefix where one is served.
pub open spec fn host_allowed_spec(host: Seq<char>) -> bool {
    host == "youtube.com"@ || host == "www.youtube.com"@ || host == "m.youtube.com"@ || host
        == "youtu.be"@ || host == "www.youtu.be"@ || host == "youtube-nocookie.com"@ || host
        == "www.youtube-nocookie.com"@
}

/// Whether `host` is one of the allowed platform hostnames.
pub fn host_allowed(host: &str) -> (r: bool)
    ensures
        r == host_allowed_spec(host@),
{
    str_eq(host, "youtube.com") || str_eq(host, "www.youtube.com") || str_eq(
        host,
        "m.youtube.com",
    ) || str_eq(host, "youtu.be") || str_eq(host, "www.youtu.be") || str_eq(
        host,
        "youtube-nocookie.com",
    ) || str_eq(host, "www.youtube-nocookie.com")
}

/// Why a source URL was rejected.
#[derive(Clone, Copy, Debug, PartialEq, Eq, Structural)]
pub enum UrlError {
    /// The string does not parse as a URL at all.
    InvalidFormat,
    /// The URL parses but has no host.
    NoHost,
    /// The host is not on the platform allowlist.
    HostNotAllowed,
}

/// A source URL passes validation exactly when it is well formed and its
/// host is on the allowlist.
pub open spec fn url_accepted(url: Seq<char>) -> bool {
    url_well_formed(url) && host_of(url) is Some && host_allowed_spec(host_of(url)->Some_0)
}

/// Validate a source URL: well-formed, has a host, and the host is on the
/// allowlist. Returns the precise reason on rejection.
pub fn validate_youtube_url(url: &str) -> (r: Result<(), UrlError>)
    ensures
        r is Ok <==> url_accepted(url@),
        r == Result::<(), UrlError>::Err(UrlError::InvalidFormat) <==> !url_well_formed(url@),
        r == Result::<(), UrlError>::Err(UrlError::NoHost) <==> (url_well_formed(url@) && host_of(
            url@,
        ) is None),
        r == Result::<(), UrlError>::Err(UrlError::HostNotAllowed) <==> (url_well_formed(url@)
            && host_of(url@) is Some && !host_allowed_spec(host_of(url@)->Some_0)),
{
    match parse_url_host(url) {
        Result::Err(_) => Result::Err(UrlError::InvalidFormat),
        Result::Ok(Option::None) => Result::Err(UrlError::NoHost),
        Result::Ok(Option::Some(host)) => {
            if host_allowed(host.as_str()) {
                Result::Ok(())
            } else {
                Result::Err(UrlError::HostNotAllowed)
            }
        },
    }
}

} // verus!
