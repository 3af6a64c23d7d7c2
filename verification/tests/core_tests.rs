use autostepper::args::build_ytdlp_args;
use autostepper::classify::is_bot_detection_error;
use autostepper::locate::{
    check_dependencies, cookie_probe_candidates, deno_candidates, find_browser_for_cookies,
    find_deno, find_ytdlp, select_first_hit, ytdlp_candidates,
};
use autostepper::paths::{
    audio_dir_path, audio_file_name, cleanup_selection, download_url_for, get_audio_path,
    is_audio_artifact,
};
use autostepper::strutil::{contains_str, ends_with_str, str_eq};
use autostepper::urlcheck::{host_allowed, validate_youtube_url, UrlError};

fn strings(items: &[&str]) -> Vec<String> {
    items.iter().map(|s| s.to_string()).collect()
}

#[test]
fn build_with_no_options_is_identity() {
    let base = strings(&["--dump-json", "--no-download", "https://youtube.com/watch?v=x"]);
    let built = build_ytdlp_args(&base, None, None);
    assert_eq!(built, base);
}

#[test]
fn build_appends_runtime_then_cookie_flags() {
    let base = strings(&["-x", "--audio-format", "mp3"]);
    let built = build_ytdlp_args(&base, Some("/home/u/.deno/bin/deno"), Some("chrome"));
    let expected = strings(&[
        "-x",
        "--audio-format",
        "mp3",
        "--js-runtimes",
        "deno:/home/u/.deno/bin/deno",
        "--remote-components",
        "ejs:github",
        "--cookies-from-browser",
        "chrome",
    ]);
    assert_eq!(built, expected);
}

#[test]
fn build_with_only_cookies_appends_cookie_pair() {
    let base = strings(&["--dump-json"]);
    let built = build_ytdlp_args(&base, None, Some("firefox"));
    assert_eq!(built, strings(&["--dump-json", "--cookies-from-browser", "firefox"]));
}

#[test]
fn build_with_empty_base() {
    let base: Vec<String> = Vec::new();
    let built = build_ytdlp_args(&base, None, None);
    assert!(built.is_empty());
}

#[test]
fn bot_detection_sign_in_phrase() {
    assert!(is_bot_detection_error("ERROR: Sign in to confirm you're not a robot"));
}

#[test]
fn bot_detection_case_insensitive_bot() {
    assert!(is_bot_detection_error("ERROR: Detected as a BoT by the server"));
}

#[test]
fn bot_detection_community_phrase() {
    assert!(is_bot_detection_error("This helps protect our community. Please try again."));
}

#[test]
fn bot_detection_plain_error_is_not_blocked() {
    assert!(!is_bot_detection_error("ERROR: network unreachable"));
    assert!(!is_bot_detection_error(""));
}

#[test]
fn contains_and_suffix_and_equality() {
    assert!(contains_str("hello world", "lo wo"));
    assert!(contains_str("abc", ""));
    assert!(!contains_str("abc", "abcd"));
    assert!(ends_with_str("track.mp3", ".mp3"));
    assert!(!ends_with_str("track.mp4", ".mp3"));
    assert!(str_eq("same", "same"));
    assert!(!str_eq("same", "sama"));
}

#[test]
fn allowed_hosts_accepted() {
    for url in [
        "https://youtube.com/watch?v=abc",
        "https://www.youtube.com/watch?v=abc",
        "https://m.youtube.com/watch?v=abc",
        "https://youtu.be/abc",
        "https://www.youtu.be/abc",
        "https://youtube-nocookie.com/embed/abc",
        "https://www.youtube-nocookie.com/embed/abc",
    ] {
        assert_eq!(validate_youtube_url(url), Ok(()), "{url}");
    }
}

#[test]
fn disallowed_host_rejected() {
    assert_eq!(
        validate_youtube_url("https://vimeo.com/123"),
        Err(UrlError::HostNotAllowed)
    );
    assert_eq!(
        validate_youtube_url("https://youtube.com.evil.example/watch"),
        Err(UrlError::HostNotAllowed)
    );
}

#[test]
fn malformed_url_rejected() {
    assert_eq!(validate_youtube_url("not a url"), Err(UrlError::InvalidFormat));
}

#[test]
fn host_is_normalized_by_parsing() {
    assert_eq!(validate_youtube_url("https://WWW.YOUTUBE.COM/watch?v=x"), Ok(()));
    assert_eq!(validate_youtube_url("https://user@youtube.com:443/watch?v=x"), Ok(()));
}

#[test]
fn hostless_url_rejected() {
    assert_eq!(validate_youtube_url("file:///tmp/x"), Err(UrlError::NoHost));
}

#[test]
fn host_allowed_checks_exact_names() {
    assert!(host_allowed("youtube.com"));
    assert!(!host_allowed("youtube.com.evil.example"));
    assert!(!host_allowed("vimeo.com"));
}

#[test]
fn cache_paths_are_deterministic_joins() {
    assert_eq!(audio_dir_path("/home/u/.cache"), "/home/u/.cache/autostepper/audio");
    assert_eq!(audio_file_name("id42"), "id42.mp3");
    assert_eq!(get_audio_path("/cache/audio", "id42"), "/cache/audio/id42.mp3");
    assert_eq!(get_audio_path("/cache/audio", "id42"), get_audio_path("/cache/audio", "id42"));
    assert_eq!(download_url_for("id42"), "autostepper://audio/id42");
}

#[test]
fn audio_artifact_names() {
    assert!(is_audio_artifact("song.mp3"));
    assert!(is_audio_artifact("a.b.mp3"));
    assert!(!is_audio_artifact(".mp3"));
    assert!(!is_audio_artifact("song.mp4"));
    assert!(!is_audio_artifact("mp3"));
}

#[test]
fn cleanup_selects_only_audio_artifacts() {
    let listing = strings(&["a.mp3", "notes.txt", "b.mp3", ".mp3", "c.ogg"]);
    let selected = cleanup_selection(&listing);
    assert_eq!(selected, strings(&["a.mp3", "b.mp3"]));
}

#[test]
fn cleanup_twice_removes_nothing_the_second_time() {
    let listing = strings(&["a.mp3", "notes.txt", "b.mp3"]);
    let first = cleanup_selection(&listing);
    assert_eq!(first.len(), 2);
    let remaining: Vec<String> =
        listing.iter().filter(|n| !first.contains(n)).cloned().collect();
    let second = cleanup_selection(&remaining);
    assert_eq!(second.len(), 0);
}

#[test]
fn ytdlp_first_hit_in_preference_order() {
    assert_eq!(
        find_ytdlp(&vec![false, true, true, false]),
        Some("/usr/local/bin/yt-dlp".to_string())
    );
    assert_eq!(find_ytdlp(&vec![true, false, false, false]), Some("yt-dlp".to_string()));
    assert_eq!(find_ytdlp(&vec![false, false, false, false]), None);
    assert_eq!(ytdlp_candidates().len(), 4);
}

#[test]
fn deno_selection_rules() {
    let cands = deno_candidates(Some("/home/u"));
    assert_eq!(cands.len(), 5);
    assert_eq!(cands[0], "/home/u/.deno/bin/deno");
    assert_eq!(cands[4], "/home/u/.local/bin/deno");
    assert_eq!(
        find_deno(Some("/home/u"), &vec![false, false, true, false, false], None),
        Some("/opt/homebrew/bin/deno".to_string())
    );
    assert_eq!(
        find_deno(
            Some("/home/u"),
            &vec![false, false, false, false, false],
            Some("/nix/bin/deno".to_string())
        ),
        Some("/nix/bin/deno".to_string())
    );
}

#[test]
fn deno_selection_without_home_still_probes_and_falls_back_to_path_search() {
    let cands = deno_candidates(None);
    assert_eq!(
        cands,
        strings(&["/usr/local/bin/deno", "/opt/homebrew/bin/deno", "/usr/bin/deno"])
    );
    assert_eq!(
        find_deno(None, &vec![false, true, false], None),
        Some("/opt/homebrew/bin/deno".to_string())
    );
    assert_eq!(
        find_deno(None, &vec![false, false, false], Some("/x/deno".to_string())),
        Some("/x/deno".to_string())
    );
    assert_eq!(find_deno(None, &vec![false, false, false], None), None);
}

#[test]
fn browser_detection_prefers_table_order() {
    let table = cookie_probe_candidates();
    assert_eq!(table.len(), 16);
    assert_eq!(table[0].browser, "chrome");
    assert_eq!(table[0].rel_path, ".config/google-chrome/Default/Cookies");
    assert!(!table[0].dir_check);
    assert_eq!(table[7].browser, "firefox");
    assert_eq!(table[7].rel_path, ".mozilla/firefox");
    assert!(table[7].dir_check);
    assert_eq!(table[15].browser, "edge");

    let mut probes = vec![false; 16];
    probes[7] = true;
    probes[13] = true;
    assert_eq!(find_browser_for_cookies(true, &probes), Some("firefox".to_string()));
    assert_eq!(find_browser_for_cookies(false, &probes), None);
    assert_eq!(find_browser_for_cookies(true, &vec![false; 16]), None);
}

#[test]
fn select_first_hit_picks_earliest() {
    let cands = strings(&["a", "b", "c"]);
    assert_eq!(select_first_hit(&cands, &vec![false, true, true]), Some("b".to_string()));
    assert_eq!(select_first_hit(&cands, &vec![false, false, false]), None);
}

#[test]
fn dependency_report_passthrough() {
    let r = check_dependencies(
        Some("yt-dlp".to_string()),
        None,
        true,
        Some("chrome".to_string()),
    );
    assert_eq!(r.ytdlp, Some("yt-dlp".to_string()));
    assert_eq!(r.deno, None);
    assert!(r.ffmpeg);
    assert_eq!(r.cookies_browser, Some("chrome".to_string()));
}
