//! Argument builder: constructs the downloader's command-line argument list
//! for a logical operation, optionally extended with script-runtime
//! integration flags and a browser-cookie designator. Pure: the base
//! arguments are never mutated, and appended flags come in a fixed order.

use vstd::prelude::*;
use vstd::string::StringExecFns;

verus! {

/// View of an optional borrowed string.
pub open spec fn opt_str_view(o: Option<&str>) -> Option<Seq<char>> {
    match o {
        Option::Some(s) => Option::Some(s@),
        Option::None => Option::None,
    }
}

/// The flags appended when a script-runtime path is supplied: they hand the
/// runtime to the downloader for solving embedded script challenges.
pub open spec fn runtime_flags_spec(deno: Option<Seq<char>>) -> Seq<Seq<char>> {
    match deno {
        Option::Some(d) => seq![
            "--js-runtimes"@,
            "deno:"@ + d,
            "--remote-components"@,
            "ejs:github"@,
        ],
        Option::None => Seq::empty(),
    }
}

/// The flags appended when a cookie-browser designator is supplied.
pub open spec fn cookie_flags_spec(browser: Option<Seq<char>>) -> Seq<Seq<char>> {
    match browser {
        Option::Some(b) => seq!["--cookies-from-browser"@, b],
        Option::None => Seq::empty(),
    }
}

/// The full argument list: the base arguments, then the script-runtime
/// flags, then the cookie flags, in that order.
pub open spec fn built_args_spec(
    base: Seq<Seq<char>>,
    deno: Option<Seq<char>>,
    browser: Option<Seq<char>>,
) -> Seq<Seq<char>> {
    base + runtime_flags_spec(deno) + cookie_flags_spec(browser)
}

/// Build the downloader invocation: start from the caller's base arguments
/// and append script-runtime flags and/or a cookie-browser flag pair, each
/// only when supplied. `build_ytdlp_args(base, None, None)` is exactly
/// `base`.
pub fn build_ytdlp_args(
    base_args: &Vec<String>,
    deno_path: Option<&str>,
    cookies_browser: Option<&str>,
) -> (args: Vec<String>)
    ensures
        args.deep_view() == built_args_spec(
            base_args.deep_view(),
            opt_str_view(deno_path),
            opt_str_view(cookies_browser),
        ),
{
    let mut args: Vec<String> = Vec::new();
    let mut k: usize = 0;
    while k < base_args.len()
        invariant
            0 <= k <= base_args.len(),
            args@.len() == k,
            forall|i: int| 0 <= i < k ==> #[trigger] args@[i]@ == base_args@[i]@,
        decreases base_args.len() - k,
    {
        args.push(base_args[k].clone());
        k += 1;
    }
    assert(args.deep_view() =~~= base_args.deep_view());

    if let Some(deno) = deno_path {
        args.push(String::from_str("--js-runtimes"));
        args.push(String::from_str("deno:").concat(deno));
        args.push(String::from_str("--remote-components"));
        args.push(String::from_str("ejs:github"));
    }

    if let Some(browser) = cookies_browser {
        args.push(String::from_str("--cookies-from-browser"));
        args.push(String::from_str(browser));
    }

    assert(args.deep_view() =~~= built_args_spec(
        base_args.deep_view(),
        opt_str_view(deno_path),
        opt_str_view(cookies_browser),
    ));
    args
}

/// Base arguments of the metadata phase: a read-only structured dump of the
/// item's description, no download.
pub open spec fn metadata_base_args_spec(url: Seq<char>) -> Seq<Seq<char>> {
    seq!["--dump-json"@, "--no-download"@, url]
}

/// Build the metadata-phase base arguments for `url`.
pub fn metadata_base_args(url: &str) -> (args: Vec<String>)
    ensures
        args.deep_view() == metadata_base_args_spec(url@),
{
    let mut args: Vec<String> = Vec::new();
    args.push(String::from_str("--dump-json"));
    args.push(String::from_str("--no-download"));
    args.push(String::from_str(url));
    assert(args.deep_view() =~~= metadata_base_args_spec(url@));
    args
}

/// Base arguments of the audio phase: extract best-quality audio into the
/// fixed output container, single item only, with a file-size ceiling,
/// written to `output_path`.
pub open spec fn download_base_args_spec(output_path: Seq<char>, url: Seq<char>) -> Seq<
    Seq<char>,
> {
    seq![
        "-x"@,
        "--audio-format"@,
        "mp3"@,
        "--audio-quality"@,
        "0"@,
        "--no-playlist"@,
        "--max-filesize"@,
        "50m"@,
        "-o"@,
        output_path,
        url,
    ]
}

/// Build the audio-phase base arguments for `url`, writing to `output_path`.
pub fn download_base_args(output_path: &str, url: &str) -> (args: Vec<String>)
    ensures
        args.deep_view() == download_base_args_spec(output_path@, url@),
{
    let mut args: Vec<String> = Vec::new();
    args.push(String::from_str("-x"));
    args.push(String::from_str("--audio-format"));
    args.push(String::from_str("mp3"));
    args.push(String::from_str("--audio-quality"));
    args.push(String::from_str("0"));
    args.push(String::from_str("--no-playlist"));
    args.push(String::from_str("--max-filesize"));
    args.push(String::from_str("50m"));
    args.push(String::from_str("-o"));
    args.push(String::from_str(output_path));
    args.push(String::from_str(url));
    assert(args.deep_view() =~~= download_base_args_spec(output_path@, url@));
    args
}

/// Appending no optional flags leaves the base arguments exactly unchanged.
pub proof fn lemma_build_identity(base: Seq<Seq<char>>)
    ensures
        built_args_spec(base, Option::None, Option::None) == base,
{
    assert(built_args_spec(base, Option::None, Option::None) =~~= base);
}

/// With both options supplied, the result is the base arguments followed by
/// the script-runtime flag group and then the cookie flag pair: the base is
/// a prefix, and both appended groups stand after it in that relative order.
pub proof fn lemma_build_appends(base: Seq<Seq<char>>, deno: Seq<char>, browser: Seq<char>)
    ensures
        built_args_spec(base, Option::Some(deno), Option::Some(browser)) == base + seq![
            "--js-runtimes"@,
            "deno:"@ + deno,
            "--remote-components"@,
            "ejs:github"@,
            "--cookies-from-browser"@,
            browser,
        ],
        built_args_spec(base, Option::Some(deno), Option::Some(browser)).subrange(
            0,
            base.len() as int,
        ) == base,
{
    assert(built_args_spec(base, Option::Some(deno), Option::Some(browser)) =~~= base + seq![
        "--js-runtimes"@,
        "deno:"@ + deno,
        "--remote-components"@,
        "ejs:github"@,
        "--cookies-from-browser"@,
        browser,
    ]);
    assert(built_args_spec(base, Option::Some(deno), Option::Some(browser)).subrange(
        0,
        base.len() as int,
    ) =~~= base);
}

} // verus!
