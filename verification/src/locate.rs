//! Tool locator logic. Probing the filesystem and running trial
//! invocations is I/O and stays with the caller; this module fixes the
//! candidate lists and their preference order, and selects from the
//! caller's probe results exactly as the locator's rule says: the first
//! candidate that probed successfully.

use vstd::prelude::*;
use vstd::string::StringExecFns;

verus! {

/// The first candidate whose probe succeeded, in list order.
pub open spec fn first_hit(cands: Seq<Seq<char>>, probes: Seq<bool>) -> Option<Seq<char>>
    decreases cands.len(),
{
    if cands.len() == 0 || probes.len() == 0 {
        Option::None
    } else if probes[0] {
        Option::Some(cands[0])
    } else {
        first_hit(cands.skip(1), probes.skip(1))
    }
}

/// Select the first candidate whose probe came back true.
pub fn select_first_hit(cands: &Vec<String>, probes: &Vec<bool>) -> (r: Option<String>)
    requires
        cands@.len() == probes@.len(),
    ensures
        r.deep_view() == first_hit(cands.deep_view(), probes@),
{
    let mut k: usize = 0;
    assert(cands.deep_view().skip(0) =~= cands.deep_view());
    assert(probes@.skip(0) =~= probes@);
    while k < cands.len()
        invariant
            cands@.len() == probes@.len(),
            0 <= k <= cands@.len(),
            first_hit(cands.deep_view(), probes@) == first_hit(
                cands.deep_view().skip(k as int),
                probes@.skip(k as int),
            ),
        decreases cands@.len() - k,
    {
        if probes[k] {
            assert(cands.deep_view().skip(k as int)[0] == cands.deep_view()[k as int]);
            let hit = cands[k].clone();
            assert(hit@ == cands.deep_view()[k as int]);
            return Option::Some(hit);
        }
        proof {
            assert(cands.deep_view().skip(k as int).skip(1) =~= cands.deep_view().skip(k + 1));
            assert(probes@.skip(k as int).skip(1) =~= probes@.skip(k + 1));
        }
        k += 1;
    }
    assert(cands.deep_view().skip(cands@.len() as int).len() == 0);
    Option::None
}

/// The ordered candidate locations of the downloader tool: the bare command
/// name, then well-known install locations.
pub open spec fn ytdlp_candidates_spec() -> Seq<Seq<char>> {
    seq!["yt-dlp"@, "/usr/local/bin/yt-dlp"@, "/opt/homebrew/bin/yt-dlp"@, "/usr/bin/yt-dlp"@]
}

/// Build the downloader's candidate list, in preference order. The caller
/// probes each with a trivial version invocation.
pub fn ytdlp_candidates() -> (r: Vec<String>)
    ensures
        r.deep_view() == ytdlp_candidates_spec(),
{
    let mut r: Vec<String> = Vec::new();
    r.push(String::from_str("yt-dlp"));
    r.push(String::from_str("/usr/local/bin/yt-dlp"));
    r.push(String::from_str("/opt/homebrew/bin/yt-dlp"));
    r.push(String::from_str("/usr/bin/yt-dlp"));
    assert(r.deep_view() =~= ytdlp_candidates_spec());
    r
}

/// The first downloader candidate whose trial invocation succeeded, if any.
/// `probes` holds one result per candidate, in the candidates' order.
pub fn find_ytdlp(probes: &Vec<bool>) -> (r: Option<String>)
    requires
        probes@.len() == 4,
    ensures
        r.deep_view() == first_hit(ytdlp_candidates_spec(), probes@),
{
    let cands = ytdlp_candidates();
    select_first_hit(&cands, probes)
}

/// The ordered candidate locations of the script-runtime helper:
/// user-home-relative install paths and system locations. Without a home
/// directory the home-relative entries cannot be formed, and only the
/// system locations remain.
pub open spec fn deno_candidates_spec(home: Option<Seq<char>>) -> Seq<Seq<char>> {
    match home {
        Option::Some(h) => seq![
            h + "/.deno/bin/deno"@,
            "/usr/local/bin/deno"@,
            "/opt/homebrew/bin/deno"@,
            "/usr/bin/deno"@,
            h + "/.local/bin/deno"@,
        ],
        Option::None => seq![
            "/usr/local/bin/deno"@,
            "/opt/homebrew/bin/deno"@,
            "/usr/bin/deno"@,
        ],
    }
}

/// Build the script-runtime helper's candidate list. The caller probes each
/// for existence as a file.
pub fn deno_candidates(home: Option<&str>) -> (r: Vec<String>)
    ensures
        r.deep_view() == deno_candidates_spec(home.deep_view()),
{
    let mut r: Vec<String> = Vec::new();
    match home {
        Option::Some(h) => {
            r.push(String::from_str(h).concat("/.deno/bin/deno"));
            r.push(String::from_str("/usr/local/bin/deno"));
            r.push(String::from_str("/opt/homebrew/bin/deno"));
            r.push(String::from_str("/usr/bin/deno"));
            r.push(String::from_str(h).concat("/.local/bin/deno"));
            assert(r.deep_view() =~= deno_candidates_spec(home.deep_view()));
        },
        Option::None => {
            r.push(String::from_str("/usr/local/bin/deno"));
            r.push(String::from_str("/opt/homebrew/bin/deno"));
            r.push(String::from_str("/usr/bin/deno"));
            assert(r.deep_view() =~= deno_candidates_spec(home.deep_view()));
        },
    }
    r
}

/// The locator's rule for the script-runtime helper: the first existing
/// candidate, else whatever the system package-manager path search found.
pub open spec fn deno_choice_spec(
    home: Option<Seq<char>>,
    exists: Seq<bool>,
    which_result: Option<Seq<char>>,
) -> Option<Seq<char>> {
    match first_hit(deno_candidates_spec(home), exists) {
        Option::Some(p) => Option::Some(p),
        Option::None => which_result,
    }
}

/// Select the script-runtime helper from the caller's probe results:
/// `exists` holds one existence result per candidate of
/// `deno_candidates(home)`, and `which_result` is the caller's
/// path-search fallback, which applies with or without a home directory.
pub fn find_deno(home: Option<&str>, exists: &Vec<bool>, which_result: Option<String>) -> (r:
    Option<String>)
    requires
        exists@.len() == deno_candidates_spec(home.deep_view()).len(),
    ensures
        r.deep_view() == deno_choice_spec(home.deep_view(), exists@, which_result.deep_view()),
{
    let cands = deno_candidates(home);
    match select_first_hit(&cands, exists) {
        Option::Some(p) => Option::Some(p),
        Option::None => which_result,
    }
}

/// One browser cookie-store probe: the browser designator the downloader
/// accepts, the store's path relative to the user's home directory, and
/// whether the probe checks for a directory (the browser whose store is a
/// directory of profiles) rather than a file.
pub struct CookieProbe {
    pub browser: String,
    pub rel_path: String,
    pub dir_check: bool,
}

/// The fixed probe table, in browser preference order; each entry is
/// (designator, home-relative path, directory-check).
pub open spec fn cookie_probe_table() -> Seq<(Seq<char>, Seq<char>, bool)> {
    seq![
        ("chrome"@, ".config/google-chrome/Default/Cookies"@, false),
        ("chrome"@, ".config/google-chrome/Default/Network/Cookies"@, false),
        ("chrome"@, "Library/Application Support/Google/Chrome/Default/Cookies"@, false),
        (
            "chrome"@,
            "AppData/Local/Google/Chrome/User Data/Default/Network/Cookies"@,
            false,
        ),
        ("chromium"@, ".config/chromium/Default/Cookies"@, false),
        ("chromium"@, ".config/chromium/Default/Network/Cookies"@, false),
        ("chromium"@, "Library/Application Support/Chromium/Default/Cookies"@, false),
        ("firefox"@, ".mozilla/firefox"@, true),
        ("firefox"@, "Library/Application Support/Firefox/Profiles"@, true),
        ("firefox"@, "AppData/Roaming/Mozilla/Firefox/Profiles"@, true),
        ("brave"@, ".config/BraveSoftware/Brave-Browser/Default/Cookies"@, false),
        (
            "brave"@,
            "Library/Application Support/BraveSoftware/Brave-Browser/Default/Cookies"@,
            false,
        ),
        (
            "brave"@,
            "AppData/Local/BraveSoftware/Brave-Browser/User Data/Default/Network/Cookies"@,
            false,
        ),
        ("edge"@, ".config/microsoft-edge/Default/Cookies"@, false),
        ("edge"@, "Library/Application Support/Microsoft Edge/Default/Cookies"@, false),
        (
            "edge"@,
            "AppData/Local/Microsoft/Edge/User Data/Default/Network/Cookies"@,
            false,
        ),
    ]
}

/// The browser designators of the probe table, entry for entry.
pub open spec fn cookie_browser_names() -> Seq<Seq<char>> {
    Seq::new(cookie_probe_table().len(), |i: int| cookie_probe_table()[i].0)
}

/// Build the cookie-store probe list. The caller checks each entry's path
/// under the user's home directory — as a directory where `dir_check` says
/// so, as an existing path otherwise.
pub fn cookie_probe_candidates() -> (r: Vec<CookieProbe>)
    ensures
        r@.len() == cookie_probe_table().len(),
        forall|i: int|
            0 <= i < r@.len() ==> ((#[trigger] r@[i]).browser@, r@[i].rel_path@, r@[i].dir_check)
                == cookie_probe_table()[i],
{
    let mut r: Vec<CookieProbe> = Vec::new();
    r.push(
        CookieProbe {
            browser: String::from_str("chrome"),
            rel_path: String::from_str(".config/google-chrome/Default/Cookies"),
            dir_check: false,
        },
    );
    r.push(
        CookieProbe {
            browser: String::from_str("chrome"),
            rel_path: String::from_str(".config/google-chrome/Default/Network/Cookies"),
            dir_check: false,
        },
    );
    r.push(
        CookieProbe {
            browser: String::from_str("chrome"),
            rel_path: String::from_str(
                "Library/Application Support/Google/Chrome/Default/Cookies",
            ),
            dir_check: false,
        },
    );
    r.push(
        CookieProbe {
            browser: String::from_str("chrome"),
            rel_path: String::from_str(
                "AppData/Local/Google/Chrome/User Data/Default/Network/Cookies",
            ),
            dir_check: false,
        },
    );
    r.push(
        CookieProbe {
            browser: String::from_str("chromium"),
            rel_path: String::from_str(".config/chromium/Default/Cookies"),
            dir_check: false,
        },
    );
    r.push(
        CookieProbe {
            browser: String::from_str("chromium"),
            rel_path: String::from_str(".config/chromium/Default/Network/Cookies"),
            dir_check: false,
        },
    );
    r.push(
        CookieProbe {
            browser: String::from_str("chromium"),
            rel_path: String::from_str(
                "Library/Application Support/Chromium/Default/Cookies",
            ),
            dir_check: false,
        },
    );
    r.push(
        CookieProbe {
            browser: String::from_str("firefox"),
            rel_path: String::from_str(".mozilla/firefox"),
            dir_check: true,
        },
    );
    r.push(
        CookieProbe {
            browser: String::from_str("firefox"),
            rel_path: String::from_str("Library/Application Support/Firefox/Profiles"),
            dir_check: true,
        },
    );
    r.push(
        CookieProbe {
            browser: String::from_str("firefox"),
            rel_path: String::from_str("AppData/Roaming/Mozilla/Firefox/Profiles"),
            dir_check: true,
        },
    );
    r.push(
        CookieProbe {
            browser: String::from_str("brave"),
            rel_path: String::from_str(".config/BraveSoftware/Brave-Browser/Default/Cookies"),
            dir_check: false,
        },
    );
    r.push(
        CookieProbe {
            browser: String::from_str("brave"),
            rel_path: String::from_str(
                "Library/Application Support/BraveSoftware/Brave-Browser/Default/Cookies",
            ),
            dir_check: false,
        },
    );
    r.push(
        CookieProbe {
            browser: String::from_str("brave"),
            rel_path: String::from_str(
                "AppData/Local/BraveSoftware/Brave-Browser/User Data/Default/Network/Cookies",
            ),
            dir_check: false,
        },
    );
    r.push(
        CookieProbe {
            browser: String::from_str("edge"),
            rel_path: String::from_str(".config/microsoft-edge/Default/Cookies"),
            dir_check: false,
        },
    );
    r.push(
        CookieProbe {
            browser: String::from_str("edge"),
            rel_path: String::from_str(
                "Library/Application Support/Microsoft Edge/Default/Cookies",
            ),
            dir_check: false,
        },
    );
    r.push(
        CookieProbe {
            browser: String::from_str("edge"),
            rel_path: String::from_str(
                "AppData/Local/Microsoft/Edge/User Data/Default/Network/Cookies",
            ),
            dir_check: false,
        },
    );
    r
}

/// The locator's rule for the cookie browser: nothing without a home
/// directory; else the designator of the first probe-table entry whose
/// store was found.
pub open spec fn browser_choice_spec(home_present: bool, probes: Seq<bool>) -> Option<
    Seq<char>,
> {
    if home_present {
        first_hit(cookie_browser_names(), probes)
    } else {
        Option::None
    }
}

/// Select the cookie-browser designator from the caller's probe results:
/// one result per entry of `cookie_probe_candidates()`, in table order.
pub fn find_browser_for_cookies(home_present: bool, probes: &Vec<bool>) -> (r: Option<String>)
    requires
        probes@.len() == 16,
    ensures
        r.deep_view() == browser_choice_spec(home_present, probes@),
{
    if !home_present {
        return Option::None;
    }
    let table = cookie_probe_candidates();
    let mut names: Vec<String> = Vec::new();
    let mut k: usize = 0;
    while k < table.len()
        invariant
            table@.len() == cookie_probe_table().len(),
            forall|i: int|
                0 <= i < table@.len() ==> ((#[trigger] table@[i]).browser@, table@[i].rel_path@,
                table@[i].dir_check) == cookie_probe_table()[i],
            0 <= k <= table@.len(),
            names@.len() == k,
            forall|i: int| 0 <= i < k ==> (#[trigger] names@[i])@ == cookie_browser_names()[i],
        decreases table@.len() - k,
    {
        names.push(table[k].browser.clone());
        k += 1;
    }
    assert(names.deep_view() =~= cookie_browser_names());
    select_first_hit(&names, probes)
}

/// The dependency-presence snapshot handed to the caller: presence and path
/// of the downloader and the script runtime, presence of the transcoder,
/// and the detected cookie browser. Recomputed on each check, never
/// persisted; absence is reported, never an error.
pub struct DependencyReport {
    pub ytdlp: Option<String>,
    pub deno: Option<String>,
    pub ffmpeg: bool,
    pub cookies_browser: Option<String>,
}

/// Assemble the dependency report from the caller's probe results.
pub fn check_dependencies(
    ytdlp: Option<String>,
    deno: Option<String>,
    ffmpeg: bool,
    cookies_browser: Option<String>,
) -> (r: DependencyReport)
    ensures
        r.ytdlp == ytdlp,
        r.deno == deno,
        r.ffmpeg == ffmpeg,
        r.cookies_browser == cookies_browser,
{
    DependencyReport { ytdlp, deno, ffmpeg, cookies_browser }
}

} // verus!
