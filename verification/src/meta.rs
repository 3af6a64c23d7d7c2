//! Metadata handling: the downloader's metadata phase emits one structured
//! record on stdout; this module extracts the fields the orchestrator reads
//! (title, uploader, channel, duration, thumbnail) and applies the
//! defaulting rules — uploader preferred over channel, "Unknown" when both
//! are absent, zero duration and empty thumbnail when absent.

use vstd::prelude::*;
use vstd::string::StringExecFns;

verus! {

/// The five optional fields read from the downloader's metadata record. The
/// duration is carried as the textual rendering of the record's number.
pub struct MetaFields {
    pub title: Option<String>,
    pub uploader: Option<String>,
    pub channel: Option<String>,
    pub duration: Option<String>,
    pub thumbnail: Option<String>,
}

/// The fields of the metadata record held in `stdout`, when it parses as a
/// JSON object: title, uploader, channel, duration (as text), thumbnail. A
/// function of the bytes alone, as `serde_json` parses them.
pub uninterp spec fn meta_of(stdout: Seq<u8>) -> Option<
    (Option<Seq<char>>, Option<Seq<char>>, Option<Seq<char>>, Option<Seq<char>>, Option<
        Seq<char>,
    >),
>;

/// Relies on serde_json::from_slice and serde_json::Value's accessors
/// (is_object, get, as_str, is_number) together with serde_json::Value's
/// text rendering for the duration number: all are functions of the input
/// bytes alone. A record that is not a JSON object comes back as None
/// overall; an absent or ill-typed field comes back as None.
#[verifier::external_body]
pub(crate) fn parse_metadata(stdout: &[u8]) -> (r: Option<MetaFields>)
    ensures
        r is Some <==> meta_of(stdout@) is Some,
        r is Some ==> r->Some_0.title.deep_view() == meta_of(stdout@)->Some_0.0,
        r is Some ==> r->Some_0.uploader.deep_view() == meta_of(stdout@)->Some_0.1,
        r is Some ==> r->Some_0.channel.deep_view() == meta_of(stdout@)->Some_0.2,
        r is Some ==> r->Some_0.duration.deep_view() == meta_of(stdout@)->Some_0.3,
        r is Some ==> r->Some_0.thumbnail.deep_view() == meta_of(stdout@)->Some_0.4,
{
    let value: serde_json::Value = serde_json::from_slice(stdout).ok()?;
    if !value.is_object() {
        return None;
    }
    Some(MetaFields {
        title: value.get("title").and_then(|x| x.as_str()).map(|s| s.to_string()),
        uploader: value.get("uploader").and_then(|x| x.as_str()).map(|s| s.to_string()),
        channel: value.get("channel").and_then(|x| x.as_str()).map(|s| s.to_string()),
        duration: value.get("duration").filter(|x| x.is_number()).map(|x| x.to_string()),
        thumbnail: value.get("thumbnail").and_then(|x| x.as_str()).map(|s| s.to_string()),
    })
}

/// The title shown to the caller: the record's title, else "Unknown".
pub open spec fn resolved_title(title: Option<Seq<char>>) -> Seq<char> {
    match title {
        Option::Some(t) => t,
        Option::None => "Unknown"@,
    }
}

/// The artist shown to the caller: uploader preferred, channel as fallback,
/// else "Unknown".
pub open spec fn resolved_artist(
    uploader: Option<Seq<char>>,
    channel: Option<Seq<char>>,
) -> Seq<char> {
    match uploader {
        Option::Some(u) => u,
        Option::None => match channel {
            Option::Some(c) => c,
            Option::None => "Unknown"@,
        },
    }
}

/// The duration text: the record's, else zero.
pub open spec fn resolved_duration(duration: Option<Seq<char>>) -> Seq<char> {
    match duration {
        Option::Some(d) => d,
        Option::None => "0"@,
    }
}

/// The thumbnail URL: the record's, else the empty string.
pub open spec fn resolved_thumbnail(thumbnail: Option<Seq<char>>) -> Seq<char> {
    match thumbnail {
        Option::Some(t) => t,
        Option::None => Seq::empty(),
    }
}

/// Metadata after defaulting, as the final result carries it.
pub struct ResolvedMeta {
    pub title: String,
    pub artist: String,
    pub duration: String,
    pub thumbnail: String,
}

/// Apply the defaulting rules to the parsed fields.
pub fn resolve_metadata(m: MetaFields) -> (r: ResolvedMeta)
    ensures
        r.title@ == resolved_title(m.title.deep_view()),
        r.artist@ == resolved_artist(m.uploader.deep_view(), m.channel.deep_view()),
        r.duration@ == resolved_duration(m.duration.deep_view()),
        r.thumbnail@ == resolved_thumbnail(m.thumbnail.deep_view()),
{
    let title = match m.title {
        Option::Some(t) => t,
        Option::None => String::from_str("Unknown"),
    };
    let artist = match m.uploader {
        Option::Some(u) => u,
        Option::None => match m.channel {
            Option::Some(c) => c,
            Option::None => String::from_str("Unknown"),
        },
    };
    let duration = match m.duration {
        Option::Some(d) => d,
        Option::None => String::from_str("0"),
    };
    let thumbnail = match m.thumbnail {
        Option::Some(t) => t,
        Option::None => String::new(),
    };
    ResolvedMeta { title, artist, duration, thumbnail }
}

} // verus!
