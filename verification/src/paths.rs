//! Cache/storage gateway logic: deterministic mapping from an identifier to
//! its file path under the audio cache directory, recognition of cached
//! audio artifacts by their fixed extension, and the selection rule of the
//! bulk-cleanup sweep. The directory probing, file reads and deletions
//! themselves are I/O and live with the caller; this module fixes exactly
//! which paths and which files they concern.

use vstd::prelude::*;
use vstd::string::StringExecFns;
use crate::strutil::{ends_with_seq, ends_with_str};

verus! {

/// The audio cache directory under a platform cache root: a fixed
/// application subdirectory (path separator written explicitly).
pub open spec fn audio_dir_spec(cache_root: Seq<char>) -> Seq<char> {
    cache_root + "/autostepper/audio"@
}

/// Join the platform cache root with the fixed application subdirectory.
pub fn audio_dir_path(cache_root: &str) -> (r: String)
    ensures
        r@ == audio_dir_spec(cache_root@),
{
    String::from_str(cache_root).concat("/autostepper/audio")
}

/// The file name of a cached audio artifact: the identifier with the fixed
/// output extension.
pub open spec fn audio_file_name_spec(song_id: Seq<char>) -> Seq<char> {
    song_id + ".mp3"@
}

/// The identifier's file name in the cache.
pub fn audio_file_name(song_id: &str) -> (r: String)
    ensures
        r@ == audio_file_name_spec(song_id@),
{
    String::from_str(song_id).concat(".mp3")
}

/// The full path of the identifier's artifact under `audio_dir`.
pub open spec fn audio_file_path_spec(audio_dir: Seq<char>, song_id: Seq<char>) -> Seq<char> {
    audio_dir + "/"@ + song_id + ".mp3"@
}

/// Resolve an identifier to its deterministic path under `audio_dir`.
pub fn get_audio_path(audio_dir: &str, song_id: &str) -> (r: String)
    ensures
        r@ == audio_file_path_spec(audio_dir@, song_id@),
{
    String::from_str(audio_dir).concat("/").concat(song_id).concat(".mp3")
}

/// The locator string handed back to the caller for retrieving the audio.
pub open spec fn download_url_spec(song_id: Seq<char>) -> Seq<char> {
    "autostepper://audio/"@ + song_id
}

/// Build the locator string that references `song_id`.
pub fn download_url_for(song_id: &str) -> (r: String)
    ensures
        r@ == download_url_spec(song_id@),
{
    String::from_str("autostepper://audio/").concat(song_id)
}

/// Distinct identifiers resolve to distinct paths under one cache
/// directory: each identifier corresponds to exactly one artifact, so a
/// fresh identifier never collides with a prior or future one.
pub proof fn lemma_audio_path_injective(dir: Seq<char>, id1: Seq<char>, id2: Seq<char>)
    requires
        audio_file_path_spec(dir, id1) == audio_file_path_spec(dir, id2),
    ensures
        id1 == id2,
{
    reveal_strlit("/");
    reveal_strlit(".mp3");
    let p1 = audio_file_path_spec(dir, id1);
    let p2 = audio_file_path_spec(dir, id2);
    assert(p1.len() == dir.len() + 1 + id1.len() + 4);
    assert(p2.len() == dir.len() + 1 + id2.len() + 4);
    assert(id1.len() == id2.len());
    assert(id1 =~= id2) by {
        assert(forall|i: int|
            0 <= i < id1.len() ==> #[trigger] id1[i] == p1[dir.len() + 1 + i] && id2[i]
                == p2[dir.len() + 1 + i]);
    }
}

/// A file name that the cleanup sweep treats as a cached audio artifact:
/// it carries the fixed audio extension with a non-empty stem before it.
pub open spec fn is_audio_artifact_spec(name: Seq<char>) -> bool {
    name.len() >= 5 && ends_with_seq(name, ".mp3"@)
}

/// Whether `name` is a cached audio artifact's file name.
pub fn is_audio_artifact(name: &str) -> (r: bool)
    ensures
        r == is_audio_artifact_spec(name@),
{
    let len = name.unicode_len();
    if len < 5 {
        return false;
    }
    ends_with_str(name, ".mp3")
}

/// The names the cleanup sweep selects for removal from a directory listing.
pub open spec fn cleanup_selection_spec(names: Seq<Seq<char>>) -> Seq<Seq<char>> {
    names.filter(|n: Seq<char>| is_audio_artifact_spec(n))
}

/// Select from a directory listing the file names the cleanup sweep removes:
/// exactly the audio artifacts, in listing order.
pub fn cleanup_selection(names: &Vec<String>) -> (r: Vec<String>)
    ensures
        r.deep_view() == cleanup_selection_spec(names.deep_view()),
{
    let mut r: Vec<String> = Vec::new();
    let mut k: usize = 0;
    assert(names.deep_view().subrange(0, 0) =~= Seq::<Seq<char>>::empty());
    assert(r.deep_view() =~= Seq::<Seq<char>>::empty());
    while k < names.len()
        invariant
            0 <= k <= names.len(),
            r.deep_view() == cleanup_selection_spec(names.deep_view().subrange(0, k as int)),
        decreases names.len() - k,
    {
        proof {
            assert(names.deep_view().subrange(0, k + 1) =~= names.deep_view().subrange(
                0,
                k as int,
            ).push(names.deep_view()[k as int]));
            lemma_filter_push(
                names.deep_view().subrange(0, k as int),
                names.deep_view()[k as int],
            );
        }
        if is_audio_artifact(names[k].as_str()) {
            let picked = names[k].clone();
            r.push(picked);
            assert(r.deep_view() =~= cleanup_selection_spec(
                names.deep_view().subrange(0, k as int),
            ).push(names.deep_view()[k as int]));
        }
        k += 1;
    }
    assert(names.deep_view().subrange(0, names.deep_view().len() as int) =~= names.deep_view());
    r
}

/// Filtering a sequence extended by one element keeps the old selection and
/// appends the new element exactly when it satisfies the predicate.
proof fn lemma_filter_push(names: Seq<Seq<char>>, last: Seq<char>)
    ensures
        is_audio_artifact_spec(last) ==> cleanup_selection_spec(names.push(last))
            == cleanup_selection_spec(names).push(last),
        !is_audio_artifact_spec(last) ==> cleanup_selection_spec(names.push(last))
            == cleanup_selection_spec(names),
{
    reveal(Seq::filter);
    assert(names.push(last).drop_last() =~= names);
    assert(names.push(last).last() == last);
}

/// Cleanup is idempotent: one sweep removes exactly the audio artifacts of
/// the listing, and a second sweep over what remains selects nothing. The
/// first sweep's selection count and the remainder's count partition the
/// listing.
pub proof fn lemma_cleanup_idempotent(names: Seq<Seq<char>>)
    ensures
        cleanup_selection_spec(names.filter(|n: Seq<char>| !is_audio_artifact_spec(n))).len()
            == 0,
        cleanup_selection_spec(names).len() + names.filter(
            |n: Seq<char>| !is_audio_artifact_spec(n),
        ).len() == names.len(),
    decreases names.len(),
{
    reveal(Seq::filter);
    if names.len() == 0 {
        assert(names =~= Seq::<Seq<char>>::empty());
    } else {
        let prefix = names.drop_last();
        lemma_cleanup_idempotent(prefix);
        lemma_filter_push(prefix, names.last());
        assert(prefix.push(names.last()) =~= names);
        if !is_audio_artifact_spec(names.last()) {
            assert(prefix.filter(|n: Seq<char>| !is_audio_artifact_spec(n)).push(names.last())
                =~= names.filter(|n: Seq<char>| !is_audio_artifact_spec(n)));
            lemma_filter_push_not(
                prefix.filter(|n: Seq<char>| !is_audio_artifact_spec(n)),
                names.last(),
            );
        }
    }
}

/// Appending a non-artifact to a listing adds nothing to its selection.
proof fn lemma_filter_push_not(names: Seq<Seq<char>>, last: Seq<char>)
    requires
        !is_audio_artifact_spec(last),
    ensures
        cleanup_selection_spec(names.push(last)) == cleanup_selection_spec(names),
{
    lemma_filter_push(names, last);
}

} // verus!
