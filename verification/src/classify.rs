//! Failure classifier: decides from the downloader's stderr text whether a
//! failure looks like an anti-bot / anti-automation block, as opposed to any
//! other error. Purely heuristic substring matching against known phrasing.

use vstd::prelude::*;
use crate::strutil::{contains_seq, contains_str};

verus! {

/// The lowercase form of `s`, as `str::to_lowercase` computes it; a function
/// of the characters alone.
pub uninterp spec fn lower_of(s: Seq<char>) -> Seq<char>;

/// Relies on str::to_lowercase: the result depends on the characters alone,
/// and an empty string stays empty.
#[verifier::external_body]
fn to_lower(s: &str) -> (r: String)
    ensures
        r@ == lower_of(s@),
        s@.len() == 0 ==> r@.len() == 0,
{
    s.to_lowercase()
}

/// `stderr` text that indicates an anti-bot block: a sign-in prompt, any
/// (case-insensitive) mention of a bot, or the community-protection message.
pub open spec fn is_bot_detection_spec(stderr: Seq<char>) -> bool {
    contains_seq(stderr, "Sign in to confirm"@) || contains_seq(lower_of(stderr), "bot"@)
        || contains_seq(stderr, "This helps protect our community"@)
}

/// Whether the downloader's stderr indicates that the platform blocked the
/// request as automated traffic, rather than failing for some other reason.
pub fn is_bot_detection_error(stderr: &str) -> (r: bool)
    ensures
        r == is_bot_detection_spec(stderr@),
{
    if contains_str(stderr, "Sign in to confirm") {
        return true;
    }
    let lowered = to_lower(stderr);
    if contains_str(lowered.as_str(), "bot") {
        return true;
    }
    contains_str(stderr, "This helps protect our community")
}

} // verus!
