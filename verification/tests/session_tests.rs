use autostepper::encode::{encode_audio_base64, fresh_song_id};
use autostepper::errors::DownloadError;
use autostepper::meta::{resolve_metadata, MetaFields};
use autostepper::session::{DownloadSession, Phase, RunOutcome};

const CACHE: &str = "/tmp/cache/autostepper/audio";

fn start(
    url: &str,
    deno: Option<&str>,
    cookies: Option<&str>,
    song_id: &str,
) -> Result<DownloadSession, DownloadError> {
    DownloadSession::new(
        url.to_string(),
        Some("yt-dlp".to_string()),
        deno.map(|s| s.to_string()),
        cookies.map(|s| s.to_string()),
        song_id.to_string(),
        CACHE,
    )
}

fn failure(stderr: &str) -> RunOutcome {
    RunOutcome { success: false, stdout: Vec::new(), stderr: stderr.to_string() }
}

fn success(stdout: &[u8]) -> RunOutcome {
    RunOutcome { success: true, stdout: stdout.to_vec(), stderr: String::new() }
}

fn error_message(session: &DownloadSession) -> String {
    match &session.phase {
        Phase::Failed { error } => error.message(),
        other => panic!("expected a failed session, found {:?}", std::mem::discriminant(other)),
    }
}

#[test]
fn disallowed_host_rejected_without_any_invocation() {
    let r = start("https://vimeo.com/123", None, None, "id1");
    match r {
        Err(e) => assert_eq!(e.message(), "Not a valid YouTube URL"),
        Ok(_) => panic!("a disallowed host must be rejected"),
    }
}

#[test]
fn malformed_url_rejected_without_any_invocation() {
    let r = start("::::", None, None, "id1");
    match r {
        Err(e) => assert_eq!(e.message(), "Invalid URL format"),
        Ok(_) => panic!("a malformed URL must be rejected"),
    }
}

#[test]
fn missing_tool_reported_with_install_hint() {
    let r = DownloadSession::new(
        "https://www.youtube.com/watch?v=abc123".to_string(),
        None,
        None,
        None,
        "id1".to_string(),
        CACHE,
    );
    match r {
        Err(e) => {
            assert_eq!(e.message(), "yt-dlp not found. Install with: pip install -U yt-dlp")
        },
        Ok(_) => panic!("a missing downloader must be a hard failure"),
    }
}

#[test]
fn bot_failure_with_cookies_escalates_exactly_once() {
    let mut s = start(
        "https://www.youtube.com/watch?v=abc123",
        Some("/usr/bin/deno"),
        Some("chrome"),
        "id1",
    )
    .unwrap();
    let mut invocations = 0;

    let first = s.next_command().expect("primary command pending");
    invocations += 1;
    assert!(!first.contains(&"--cookies-from-browser".to_string()));
    s.on_result(failure("ERROR: Sign in to confirm you're not a bot"));

    let second = s.next_command().expect("retry command pending");
    invocations += 1;
    let expected: Vec<String> = [
        "--dump-json",
        "--no-download",
        "https://www.youtube.com/watch?v=abc123",
        "--js-runtimes",
        "deno:/usr/bin/deno",
        "--remote-components",
        "ejs:github",
        "--cookies-from-browser",
        "chrome",
    ]
    .iter()
    .map(|s| s.to_string())
    .collect();
    assert_eq!(second, expected);
    assert_eq!(&second[..first.len()], &first[..]);

    s.on_result(failure("ERROR: Sign in to confirm you're not a bot"));
    assert!(s.next_command().is_none());
    assert_eq!(invocations, 2);
    assert_eq!(
        error_message(&s),
        "YouTube bot detection triggered. Browser cookies didn't help. Try logging into YouTube in your browser and try again."
    );
}

#[test]
fn bot_failure_without_cookies_fails_with_hint_after_one_invocation() {
    let mut s = start("https://www.youtube.com/watch?v=abc123", None, None, "id1").unwrap();
    let mut invocations = 0;

    let _first = s.next_command().expect("primary command pending");
    invocations += 1;
    s.on_result(failure("Sign in to confirm you're not a bot"));

    assert!(s.next_command().is_none());
    assert_eq!(invocations, 1);
    assert_eq!(
        error_message(&s),
        "YouTube bot detection triggered. Install Deno (https://deno.land) or log into YouTube in Chrome/Firefox."
    );
}

#[test]
fn non_bot_failure_never_escalates_even_with_cookies() {
    let mut s =
        start("https://www.youtube.com/watch?v=abc123", None, Some("firefox"), "id1").unwrap();
    let mut invocations = 0;

    let _first = s.next_command().expect("primary command pending");
    invocations += 1;
    s.on_result(failure("ERROR: network unreachable"));

    assert!(s.next_command().is_none());
    assert_eq!(invocations, 1);
    assert_eq!(error_message(&s), "yt-dlp error: ERROR: network unreachable");
}

#[test]
fn audio_phase_failure_surfaces_download_error() {
    let mut s = start("https://youtu.be/abc", None, None, "id1").unwrap();
    s.next_command().unwrap();
    s.on_result(success(br#"{"title":"T"}"#));
    let audio_cmd = s.next_command().expect("audio command pending");
    assert!(audio_cmd.contains(&"-x".to_string()));
    s.on_result(failure("disk full"));
    assert!(s.next_command().is_none());
    assert_eq!(error_message(&s), "Download failed: disk full");
}

#[test]
fn audio_phase_bot_failure_escalates_with_cookies() {
    let mut s = start("https://youtu.be/abc", None, Some("edge"), "id1").unwrap();
    s.next_command().unwrap();
    s.on_result(success(br#"{"title":"T"}"#));
    let primary = s.next_command().expect("audio primary pending");
    assert!(!primary.contains(&"--cookies-from-browser".to_string()));
    s.on_result(failure("Sign in to confirm you're not a bot"));
    let retry = s.next_command().expect("audio retry pending");
    assert_eq!(&retry[..primary.len()], &primary[..]);
    assert_eq!(&retry[primary.len()..], &["--cookies-from-browser".to_string(), "edge".to_string()]);
    s.on_result(success(b""));
    s.on_file_size(Some(7));
    assert!(matches!(s.phase, Phase::Done { .. }));
}

#[test]
fn audio_phase_bot_failure_without_cookies_reports_install_hint() {
    let mut s = start("https://youtu.be/abc", None, None, "id1").unwrap();
    s.next_command().unwrap();
    s.on_result(success(br#"{"title":"T"}"#));
    s.next_command().unwrap();
    s.on_result(failure("Sign in to confirm you're not a bot"));
    assert!(s.next_command().is_none());
    assert_eq!(
        error_message(&s),
        "YouTube bot detection triggered. Install Deno (https://deno.land) or log into YouTube in Chrome/Firefox."
    );
}

#[test]
fn audio_phase_bot_failure_after_retry_reports_cookie_hint() {
    let mut s = start("https://youtu.be/abc", None, Some("chrome"), "id1").unwrap();
    s.next_command().unwrap();
    s.on_result(success(br#"{"title":"T"}"#));
    s.next_command().unwrap();
    s.on_result(failure("Sign in to confirm you're not a bot"));
    s.next_command().expect("audio retry pending");
    s.on_result(failure("Sign in to confirm you're not a bot"));
    assert!(s.next_command().is_none());
    assert_eq!(
        error_message(&s),
        "YouTube bot detection triggered. Browser cookies didn't help. Try logging into YouTube in your browser and try again."
    );
}

#[test]
fn end_to_end_success_scenario() {
    let mut s = start(
        "https://www.youtube.com/watch?v=abc123",
        None,
        None,
        "song1",
    )
    .unwrap();

    let meta_cmd = s.next_command().expect("metadata command pending");
    assert_eq!(
        meta_cmd,
        vec![
            "--dump-json".to_string(),
            "--no-download".to_string(),
            "https://www.youtube.com/watch?v=abc123".to_string(),
        ]
    );
    s.on_result(success(
        br#"{"title":"Song","uploader":"Artist","duration":180.5,"thumbnail":"http://x/y.jpg"}"#,
    ));

    let audio_cmd = s.next_command().expect("audio command pending");
    let expected_path = format!("{CACHE}/song1.mp3");
    assert_eq!(
        audio_cmd,
        vec![
            "-x".to_string(),
            "--audio-format".to_string(),
            "mp3".to_string(),
            "--audio-quality".to_string(),
            "0".to_string(),
            "--no-playlist".to_string(),
            "--max-filesize".to_string(),
            "50m".to_string(),
            "-o".to_string(),
            expected_path,
            "https://www.youtube.com/watch?v=abc123".to_string(),
        ]
    );
    s.on_result(success(b""));

    assert!(s.next_command().is_none());
    s.on_file_size(Some(2_500_000));

    match &s.phase {
        Phase::Done { response } => {
            assert_eq!(response.id, "song1");
            assert_eq!(response.title, "Song");
            assert_eq!(response.artist, "Artist");
            assert_eq!(response.duration, "180.5");
            assert_eq!(response.duration.parse::<f64>().unwrap(), 180.5);
            assert_eq!(response.thumbnail, "http://x/y.jpg");
            assert_eq!(response.download_url, "autostepper://audio/song1");
            assert_eq!(response.file_size, 2_500_000);
        },
        _ => panic!("expected a completed session"),
    }
}

#[test]
fn metadata_defaults_apply() {
    let mut s = start("https://youtu.be/abc", None, None, "id1").unwrap();
    s.next_command().unwrap();
    s.on_result(success(br#"{"channel":"Chan"}"#));
    s.next_command().unwrap();
    s.on_result(success(b""));
    s.on_file_size(Some(1));
    match &s.phase {
        Phase::Done { response } => {
            assert_eq!(response.title, "Unknown");
            assert_eq!(response.artist, "Chan");
            assert_eq!(response.duration, "0");
            assert_eq!(response.thumbnail, "");
        },
        _ => panic!("expected a completed session"),
    }
}

#[test]
fn unparsable_metadata_fails_the_request() {
    let mut s = start("https://youtu.be/abc", None, None, "id1").unwrap();
    s.next_command().unwrap();
    s.on_result(success(b"not json at all"));
    assert!(s.next_command().is_none());
    assert_eq!(error_message(&s), "Failed to parse metadata");
}

#[test]
fn non_object_metadata_fails_the_request() {
    for stdout in [&br#""just a string""#[..], &br#"[1,2,3]"#[..], &b"42"[..]] {
        let mut s = start("https://youtu.be/abc", None, None, "id1").unwrap();
        s.next_command().unwrap();
        s.on_result(success(stdout));
        assert_eq!(error_message(&s), "Failed to parse metadata");
    }
}

#[test]
fn missing_artifact_after_success_is_reported() {
    let mut s = start("https://youtu.be/abc", None, None, "id1").unwrap();
    s.next_command().unwrap();
    s.on_result(success(br#"{"title":"T"}"#));
    s.next_command().unwrap();
    s.on_result(success(b""));
    s.on_file_size(None);
    assert_eq!(error_message(&s), "Downloaded file not found");
}

#[test]
fn bot_retry_success_continues_to_audio_phase() {
    let mut s =
        start("https://youtu.be/abc", Some("/usr/bin/deno"), Some("brave"), "id1").unwrap();
    s.next_command().unwrap();
    s.on_result(failure("This helps protect our community"));
    let retry = s.next_command().expect("retry pending");
    assert!(retry.contains(&"brave".to_string()));
    s.on_result(success(br#"{"title":"T","uploader":"U"}"#));
    let audio = s.next_command().expect("audio primary pending");
    assert!(!audio.contains(&"--cookies-from-browser".to_string()));
}

#[test]
fn resolve_metadata_prefers_uploader_over_channel() {
    let m = MetaFields {
        title: Some("T".to_string()),
        uploader: Some("U".to_string()),
        channel: Some("C".to_string()),
        duration: Some("12".to_string()),
        thumbnail: None,
    };
    let r = resolve_metadata(m);
    assert_eq!(r.artist, "U");
    assert_eq!(r.title, "T");
    assert_eq!(r.duration, "12");
    assert_eq!(r.thumbnail, "");
}

#[test]
fn base64_encoding_matches_standard_alphabet() {
    assert_eq!(encode_audio_base64(&b"hello".to_vec()), "aGVsbG8=");
    assert_eq!(encode_audio_base64(&Vec::new()), "");
    assert_eq!(encode_audio_base64(&vec![0xfbu8, 0xff]), "+/8=");
}

#[test]
fn fresh_song_ids_are_hyphenated_and_distinct() {
    let a = fresh_song_id();
    let b = fresh_song_id();
    assert_eq!(a.len(), 36);
    assert_eq!(b.len(), 36);
    assert_ne!(a, b);
    assert_eq!(a.chars().filter(|c| *c == '-').count(), 4);
}
