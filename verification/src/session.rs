//! Download orchestrator: one state machine per request. A request moves
//! through two phases (metadata, then audio extraction); each phase runs a
//! primary downloader invocation and, when that fails with an anti-bot
//! block and a cookie browser is available, exactly one cookie-escalated
//! retry. The caller owns the actual process launches: it asks the session
//! for the pending command, runs it, and feeds the outcome back in.

use vstd::prelude::*;
use crate::args::{
    build_ytdlp_args,
    built_args_spec,
    download_base_args,
    download_base_args_spec,
    metadata_base_args,
    metadata_base_args_spec,
};
use crate::classify::{is_bot_detection_error, is_bot_detection_spec};
use crate::errors::{DownloadError, ErrorModel};
use crate::meta::{
    meta_of,
    parse_metadata,
    resolve_metadata,
    resolved_artist,
    resolved_duration,
    resolved_thumbnail,
    resolved_title,
    ResolvedMeta,
};
use crate::paths::{audio_file_path_spec, download_url_for, download_url_spec, get_audio_path};
use crate::urlcheck::{
    host_allowed_spec,
    host_of,
    url_accepted,
    url_well_formed,
    validate_youtube_url,
    UrlError,
};

verus! {

/// What one external downloader invocation produced.
pub struct RunOutcome {
    pub success: bool,
    pub stdout: Vec<u8>,
    pub stderr: String,
}

/// The caller-facing result of a completed download. The duration is the
/// metadata record's number of seconds, carried as its textual rendering.
pub struct DownloadResponse {
    pub id: String,
    pub title: String,
    pub artist: String,
    pub duration: String,
    pub thumbnail: String,
    pub download_url: String,
    pub file_size: u64,
}

/// Ghost mirror of the defaulted metadata.
pub ghost struct MetaModel {
    pub title: Seq<char>,
    pub artist: Seq<char>,
    pub duration: Seq<char>,
    pub thumbnail: Seq<char>,
}

impl ResolvedMeta {
    /// The mathematical value of this metadata.
    pub open spec fn model(self) -> MetaModel {
        MetaModel {
            title: self.title@,
            artist: self.artist@,
            duration: self.duration@,
            thumbnail: self.thumbnail@,
        }
    }
}

/// Ghost mirror of `DownloadResponse`.
pub ghost struct ResponseModel {
    pub id: Seq<char>,
    pub title: Seq<char>,
    pub artist: Seq<char>,
    pub duration: Seq<char>,
    pub thumbnail: Seq<char>,
    pub download_url: Seq<char>,
    pub file_size: u64,
}

impl DownloadResponse {
    /// The mathematical value of this response.
    pub open spec fn model(self) -> ResponseModel {
        ResponseModel {
            id: self.id@,
            title: self.title@,
            artist: self.artist@,
            duration: self.duration@,
            thumbnail: self.thumbnail@,
            download_url: self.download_url@,
            file_size: self.file_size,
        }
    }
}

/// Where a request stands.
pub enum Phase {
    /// Metadata phase, primary attempt pending.
    MetaPrimary,
    /// Metadata phase, cookie-escalated retry pending.
    MetaRetry,
    /// Audio phase, primary attempt pending.
    AudioPrimary { meta: ResolvedMeta },
    /// Audio phase, cookie-escalated retry pending.
    AudioRetry { meta: ResolvedMeta },
    /// Audio extraction succeeded; the artifact's size is to be read from
    /// the filesystem, not trusted from tool output.
    AwaitFileSize { meta: ResolvedMeta },
    /// The request completed with a full result.
    Done { response: DownloadResponse },
    /// The request failed; terminal.
    Failed { error: DownloadError },
}

/// Ghost mirror of `Phase`.
pub ghost enum PhaseModel {
    MetaPrimary,
    MetaRetry,
    AudioPrimary { meta: MetaModel },
    AudioRetry { meta: MetaModel },
    AwaitFileSize { meta: MetaModel },
    Done { response: ResponseModel },
    Failed { error: ErrorModel },
}

impl Phase {
    /// The mathematical value of this phase.
    pub open spec fn model(self) -> PhaseModel {
        match self {
            Phase::MetaPrimary => PhaseModel::MetaPrimary,
            Phase::MetaRetry => PhaseModel::MetaRetry,
            Phase::AudioPrimary { meta } => PhaseModel::AudioPrimary { meta: meta.model() },
            Phase::AudioRetry { meta } => PhaseModel::AudioRetry { meta: meta.model() },
            Phase::AwaitFileSize { meta } => PhaseModel::AwaitFileSize { meta: meta.model() },
            Phase::Done { response } => PhaseModel::Done { response: response.model() },
            Phase::Failed { error } => PhaseModel::Failed { error: error.model() },
        }
    }
}

/// One download request's state: the validated source URL, the tools
/// detected for it, the fresh identifier, the artifact's output path, and
/// the phase it stands in.
pub struct DownloadSession {
    pub url: String,
    pub ytdlp: String,
    pub deno: Option<String>,
    pub cookies_browser: Option<String>,
    pub song_id: String,
    pub output_path: String,
    pub phase: Phase,
}

/// Ghost mirror of `DownloadSession`.
pub ghost struct SessionModel {
    pub url: Seq<char>,
    pub ytdlp: Seq<char>,
    pub deno: Option<Seq<char>>,
    pub cookies_browser: Option<Seq<char>>,
    pub song_id: Seq<char>,
    pub output_path: Seq<char>,
    pub phase: PhaseModel,
}

/// The arguments of the command pending in `m`, when one is: metadata or
/// audio base arguments, always with the script-runtime flags when a runtime
/// was detected, and with the cookie flags exactly in the retry states.
pub open spec fn command_args_model(m: SessionModel) -> Option<Seq<Seq<char>>> {
    match m.phase {
        PhaseModel::MetaPrimary => Option::Some(
            built_args_spec(metadata_base_args_spec(m.url), m.deno, Option::None),
        ),
        PhaseModel::MetaRetry => Option::Some(
            built_args_spec(metadata_base_args_spec(m.url), m.deno, m.cookies_browser),
        ),
        PhaseModel::AudioPrimary { .. } => Option::Some(
            built_args_spec(download_base_args_spec(m.output_path, m.url), m.deno, Option::None),
        ),
        PhaseModel::AudioRetry { .. } => Option::Some(
            built_args_spec(download_base_args_spec(m.output_path, m.url), m.deno, m.cookies_browser),
        ),
        PhaseModel::AwaitFileSize { .. } => Option::None,
        PhaseModel::Done { .. } => Option::None,
        PhaseModel::Failed { .. } => Option::None,
    }
}

/// The defaulted metadata of a parsed record.
pub open spec fn resolved_model_of(
    f: (Option<Seq<char>>, Option<Seq<char>>, Option<Seq<char>>, Option<Seq<char>>, Option<
        Seq<char>,
    >),
) -> MetaModel {
    MetaModel {
        title: resolved_title(f.0),
        artist: resolved_artist(f.1, f.2),
        duration: resolved_duration(f.3),
        thumbnail: resolved_thumbnail(f.4),
    }
}

/// The phase after a successful metadata invocation: on to the audio phase
/// when the record parses, a parse failure otherwise.
pub open spec fn meta_success_phase(stdout: Seq<u8>) -> PhaseModel {
    match meta_of(stdout) {
        Option::Some(f) => PhaseModel::AudioPrimary { meta: resolved_model_of(f) },
        Option::None => PhaseModel::Failed { error: ErrorModel::MetadataParse },
    }
}

/// The transition on one invocation outcome. Both phases share the one
/// retry rule: a failure escalates to the cookie retry exactly when its
/// stderr shows an anti-bot block, a cookie browser is present, and the
/// failed attempt was the primary one; every other failure is terminal. In
/// either phase a terminal bot-blocked failure carries the remediation
/// hint (distinguishing no fallback from a fallback already tried), and
/// any other failure surfaces the tool's own error text.
pub open spec fn step_model(
    m: SessionModel,
    success: bool,
    stdout: Seq<u8>,
    stderr: Seq<char>,
) -> SessionModel {
    let next_phase = match m.phase {
        PhaseModel::MetaPrimary => if success {
            meta_success_phase(stdout)
        } else if is_bot_detection_spec(stderr) && m.cookies_browser is Some {
            PhaseModel::MetaRetry
        } else if is_bot_detection_spec(stderr) {
            PhaseModel::Failed { error: ErrorModel::BotDetected { cookies_tried: false } }
        } else {
            PhaseModel::Failed { error: ErrorModel::MetadataToolError { stderr } }
        },
        PhaseModel::MetaRetry => if success {
            meta_success_phase(stdout)
        } else if is_bot_detection_spec(stderr) {
            PhaseModel::Failed { error: ErrorModel::BotDetected { cookies_tried: true } }
        } else {
            PhaseModel::Failed { error: ErrorModel::MetadataToolError { stderr } }
        },
        PhaseModel::AudioPrimary { meta } => if success {
            PhaseModel::AwaitFileSize { meta }
        } else if is_bot_detection_spec(stderr) && m.cookies_browser is Some {
            PhaseModel::AudioRetry { meta }
        } else if is_bot_detection_spec(stderr) {
            PhaseModel::Failed { error: ErrorModel::BotDetected { cookies_tried: false } }
        } else {
            PhaseModel::Failed { error: ErrorModel::DownloadFailed { stderr } }
        },
        PhaseModel::AudioRetry { meta } => if success {
            PhaseModel::AwaitFileSize { meta }
        } else if is_bot_detection_spec(stderr) {
            PhaseModel::Failed { error: ErrorModel::BotDetected { cookies_tried: true } }
        } else {
            PhaseModel::Failed { error: ErrorModel::DownloadFailed { stderr } }
        },
        PhaseModel::AwaitFileSize { meta } => PhaseModel::AwaitFileSize { meta },
        PhaseModel::Done { response } => PhaseModel::Done { response },
        PhaseModel::Failed { error } => PhaseModel::Failed { error },
    };
    SessionModel { phase: next_phase, ..m }
}

/// The transition when the artifact's size has been read from the
/// filesystem (absent: the artifact is missing after a reported success).
pub open spec fn finish_model(m: SessionModel, size: Option<u64>) -> SessionModel {
    let next_phase = match m.phase {
        PhaseModel::AwaitFileSize { meta } => match size {
            Option::Some(n) => PhaseModel::Done {
                response: ResponseModel {
                    id: m.song_id,
                    title: meta.title,
                    artist: meta.artist,
                    duration: meta.duration,
                    thumbnail: meta.thumbnail,
                    download_url: download_url_spec(m.song_id),
                    file_size: n,
                },
            },
            Option::None => PhaseModel::Failed { error: ErrorModel::ArtifactMissing },
        },
        other => other,
    };
    SessionModel { phase: next_phase, ..m }
}

impl DownloadSession {
    /// The mathematical value of this session.
    pub open spec fn model(self) -> SessionModel {
        SessionModel {
            url: self.url@,
            ytdlp: self.ytdlp@,
            deno: self.deno.deep_view(),
            cookies_browser: self.cookies_browser.deep_view(),
            song_id: self.song_id@,
            output_path: self.output_path@,
            phase: self.phase.model(),
        }
    }

    /// A retry state exists only when a cookie browser was detected.
    pub open spec fn wf(self) -> bool {
        (self.phase is MetaRetry || self.phase is AudioRetry)
            ==> self.cookies_browser is Some
    }

    /// Start a request: validate the source URL (before anything else), and
    /// require the downloader tool. `song_id` is the fresh identifier; the
    /// artifact's output path is derived from it under `audio_dir`. On
    /// success the session stands at the metadata phase's primary attempt.
    pub fn new(
        url: String,
        ytdlp: Option<String>,
        deno: Option<String>,
        cookies_browser: Option<String>,
        song_id: String,
        audio_dir: &str,
    ) -> (r: Result<DownloadSession, DownloadError>)
        ensures
            r is Ok <==> (url_accepted(url@) && ytdlp is Some),
            !url_well_formed(url@) ==> (r matches Result::Err(e) && e.model()
                == ErrorModel::InvalidUrlFormat),
            (url_well_formed(url@) && host_of(url@) is None) ==> (r matches Result::Err(e)
                && e.model() == ErrorModel::NoHost),
            (url_well_formed(url@) && host_of(url@) is Some && !host_allowed_spec(
                host_of(url@)->Some_0,
            )) ==> (r matches Result::Err(e) && e.model() == ErrorModel::HostNotAllowed),
            (url_accepted(url@) && ytdlp is None) ==> (r matches Result::Err(e) && e.model()
                == ErrorModel::ToolMissing),
            r matches Result::Ok(s) ==> s.model() == (SessionModel {
                url: url@,
                ytdlp: ytdlp.deep_view()->Some_0,
                deno: deno.deep_view(),
                cookies_browser: cookies_browser.deep_view(),
                song_id: song_id@,
                output_path: audio_file_path_spec(audio_dir@, song_id@),
                phase: PhaseModel::MetaPrimary,
            }),
            r matches Result::Ok(s) ==> s.wf(),
    {
        match validate_youtube_url(url.as_str()) {
            Result::Err(UrlError::InvalidFormat) => {
                return Result::Err(DownloadError::InvalidUrlFormat);
            },
            Result::Err(UrlError::NoHost) => {
                return Result::Err(DownloadError::NoHost);
            },
            Result::Err(UrlError::HostNotAllowed) => {
                return Result::Err(DownloadError::HostNotAllowed);
            },
            Result::Ok(()) => {},
        }
        let ytdlp = match ytdlp {
            Option::Some(y) => y,
            Option::None => {
                return Result::Err(DownloadError::ToolMissing);
            },
        };
        let output_path = get_audio_path(audio_dir, song_id.as_str());
        Result::Ok(
            DownloadSession {
                url,
                ytdlp,
                deno,
                cookies_browser,
                song_id,
                output_path,
                phase: Phase::MetaPrimary,
            },
        )
    }

    /// The argument list of the downloader invocation the session is
    /// waiting on, or nothing in a terminal or size-reading state. The
    /// program to invoke is `self.ytdlp`.
    pub fn next_command(&self) -> (c: Option<Vec<String>>)
        ensures
            c is Some <==> command_args_model(self.model()) is Some,
            c matches Option::Some(args) ==> args.deep_view() == command_args_model(
                self.model(),
            )->Some_0,
    {
        let deno_ref: Option<&str> = match &self.deno {
            Option::Some(d) => Option::Some(d.as_str()),
            Option::None => Option::None,
        };
        let cookie_ref: Option<&str> = match &self.cookies_browser {
            Option::Some(b) => Option::Some(b.as_str()),
            Option::None => Option::None,
        };
        match &self.phase {
            Phase::MetaPrimary => {
                let base = metadata_base_args(self.url.as_str());
                Option::Some(build_ytdlp_args(&base, deno_ref, Option::None))
            },
            Phase::MetaRetry => {
                let base = metadata_base_args(self.url.as_str());
                Option::Some(build_ytdlp_args(&base, deno_ref, cookie_ref))
            },
            Phase::AudioPrimary { .. } => {
                let base = download_base_args(self.output_path.as_str(), self.url.as_str());
                Option::Some(build_ytdlp_args(&base, deno_ref, Option::None))
            },
            Phase::AudioRetry { .. } => {
                let base = download_base_args(self.output_path.as_str(), self.url.as_str());
                Option::Some(build_ytdlp_args(&base, deno_ref, cookie_ref))
            },
            Phase::AwaitFileSize { .. } => Option::None,
            Phase::Done { .. } => Option::None,
            Phase::Failed { .. } => Option::None,
        }
    }

    /// Feed back the outcome of the pending invocation; the session moves
    /// as `step_model` says.
    pub fn on_result(&mut self, outcome: RunOutcome)
        requires
            old(self).wf(),
            command_args_model(old(self).model()) is Some,
        ensures
            final(self).model() == step_model(
                old(self).model(),
                outcome.success,
                outcome.stdout@,
                outcome.stderr@,
            ),
            final(self).wf(),
    {
        let mut prev = Phase::MetaPrimary;
        core::mem::swap(&mut prev, &mut self.phase);
        match prev {
            Phase::MetaPrimary => {
                if outcome.success {
                    self.phase = Self::meta_success_step(&outcome.stdout);
                } else if is_bot_detection_error(outcome.stderr.as_str())
                    && self.cookies_browser.is_some() {
                    self.phase = Phase::MetaRetry;
                } else if is_bot_detection_error(outcome.stderr.as_str()) {
                    self.phase = Phase::Failed {
                        error: DownloadError::BotDetected { cookies_tried: false },
                    };
                } else {
                    self.phase = Phase::Failed {
                        error: DownloadError::MetadataToolError { stderr: outcome.stderr },
                    };
                }
            },
            Phase::MetaRetry => {
                if outcome.success {
                    self.phase = Self::meta_success_step(&outcome.stdout);
                } else if is_bot_detection_error(outcome.stderr.as_str()) {
                    self.phase = Phase::Failed {
                        error: DownloadError::BotDetected { cookies_tried: true },
                    };
                } else {
                    self.phase = Phase::Failed {
                        error: DownloadError::MetadataToolError { stderr: outcome.stderr },
                    };
                }
            },
            Phase::AudioPrimary { meta } => {
                if outcome.success {
                    self.phase = Phase::AwaitFileSize { meta };
                } else if is_bot_detection_error(outcome.stderr.as_str())
                    && self.cookies_browser.is_some() {
                    self.phase = Phase::AudioRetry { meta };
                } else if is_bot_detection_error(outcome.stderr.as_str()) {
                    self.phase = Phase::Failed {
                        error: DownloadError::BotDetected { cookies_tried: false },
                    };
                } else {
                    self.phase = Phase::Failed {
                        error: DownloadError::DownloadFailed { stderr: outcome.stderr },
                    };
                }
            },
            Phase::AudioRetry { meta } => {
                if outcome.success {
                    self.phase = Phase::AwaitFileSize { meta };
                } else if is_bot_detection_error(outcome.stderr.as_str()) {
                    self.phase = Phase::Failed {
                        error: DownloadError::BotDetected { cookies_tried: true },
                    };
                } else {
                    self.phase = Phase::Failed {
                        error: DownloadError::DownloadFailed { stderr: outcome.stderr },
                    };
                }
            },
            other => {
                proof {
                    assert(false);
                }
                self.phase = other;
            },
        }
    }

    /// The phase after a successful metadata invocation.
    fn meta_success_step(stdout: &Vec<u8>) -> (p: Phase)
        ensures
            p.model() == meta_success_phase(stdout@),
    {
        match parse_metadata(stdout.as_slice()) {
            Option::Some(fields) => {
                let meta = resolve_metadata(fields);
                Phase::AudioPrimary { meta }
            },
            Option::None => Phase::Failed { error: DownloadError::MetadataParse },
        }
    }

    /// Feed back the artifact's size as read from the filesystem after the
    /// audio phase succeeded (or its absence); the session moves as
    /// `finish_model` says.
    pub fn on_file_size(&mut self, size: Option<u64>)
        requires
            old(self).phase is AwaitFileSize,
        ensures
            final(self).model() == finish_model(old(self).model(), size),
            final(self).wf(),
    {
        let mut prev = Phase::MetaPrimary;
        core::mem::swap(&mut prev, &mut self.phase);
        match prev {
            Phase::AwaitFileSize { meta } => {
                match size {
                    Option::Some(n) => {
                        let download_url = download_url_for(self.song_id.as_str());
                        let id = self.song_id.clone();
                        self.phase = Phase::Done {
                            response: DownloadResponse {
                                id,
                                title: meta.title,
                                artist: meta.artist,
                                duration: meta.duration,
                                thumbnail: meta.thumbnail,
                                download_url,
                                file_size: n,
                            },
                        };
                    },
                    Option::None => {
                        self.phase = Phase::Failed { error: DownloadError::ArtifactMissing };
                    },
                }
            },
            other => {
                proof {
                    assert(false);
                }
                self.phase = other;
            },
        }
    }
}

} // verus!
