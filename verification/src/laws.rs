//! The orchestrator's retry laws, proved over the session transition: a
//! bot-blocked primary failure escalates exactly once and only with a
//! cookie browser present; any other failure is terminal with the tool's
//! own error text; a retry state never repeats an attempt.

use vstd::prelude::*;
use crate::args::cookie_flags_spec;
use crate::classify::is_bot_detection_spec;
use crate::errors::ErrorModel;
use crate::session::{command_args_model, step_model, PhaseModel, SessionModel};

verus! {

/// Escalation law, metadata phase: when the primary attempt fails with an
/// anti-bot block, the session escalates exactly when a cookie browser is
/// present — and the retry's command is the primary command with the cookie
/// flag pair appended after it. With no cookie browser the session fails at
/// once with the no-fallback hint and issues no further command, so the
/// phase sees exactly one invocation.
pub proof fn lemma_escalation_metadata(m: SessionModel, stdout: Seq<u8>, stderr: Seq<char>)
    requires
        m.phase is MetaPrimary,
        is_bot_detection_spec(stderr),
    ensures
        m.cookies_browser is Some ==> step_model(m, false, stdout, stderr).phase
            is MetaRetry,
        m.cookies_browser is Some ==> command_args_model(step_model(m, false, stdout, stderr))
            == Option::Some(
            command_args_model(m)->Some_0 + cookie_flags_spec(m.cookies_browser),
        ),
        m.cookies_browser is None ==> step_model(m, false, stdout, stderr).phase == (
        PhaseModel::Failed { error: ErrorModel::BotDetected { cookies_tried: false } }),
        m.cookies_browser is None ==> command_args_model(step_model(m, false, stdout, stderr))
            is None,
{
    if m.cookies_browser is Some {
        assert(command_args_model(step_model(m, false, stdout, stderr))->Some_0
            =~= command_args_model(m)->Some_0 + cookie_flags_spec(m.cookies_browser));
    }
}

/// Escalation law, audio phase: the same rule as the metadata phase — a
/// bot-blocked primary failure escalates exactly when a cookie browser is
/// present, and fails at once with the no-fallback hint when none is.
pub proof fn lemma_escalation_audio(m: SessionModel, stdout: Seq<u8>, stderr: Seq<char>)
    requires
        m.phase is AudioPrimary,
        is_bot_detection_spec(stderr),
    ensures
        m.cookies_browser is Some ==> step_model(m, false, stdout, stderr).phase
            is AudioRetry,
        m.cookies_browser is Some ==> command_args_model(step_model(m, false, stdout, stderr))
            == Option::Some(
            command_args_model(m)->Some_0 + cookie_flags_spec(m.cookies_browser),
        ),
        m.cookies_browser is None ==> step_model(m, false, stdout, stderr).phase == (
        PhaseModel::Failed { error: ErrorModel::BotDetected { cookies_tried: false } }),
        m.cookies_browser is None ==> command_args_model(step_model(m, false, stdout, stderr))
            is None,
{
    if m.cookies_browser is Some {
        assert(command_args_model(step_model(m, false, stdout, stderr))->Some_0
            =~= command_args_model(m)->Some_0 + cookie_flags_spec(m.cookies_browser));
    }
}

/// Non-escalation law: a primary failure whose stderr shows no anti-bot
/// block is terminal — whatever the cookie-browser availability — and the
/// tool's raw error text is surfaced; no further command is issued, so the
/// phase sees exactly one invocation.
pub proof fn lemma_no_escalation(m: SessionModel, stdout: Seq<u8>, stderr: Seq<char>)
    requires
        m.phase is MetaPrimary || m.phase is AudioPrimary,
        !is_bot_detection_spec(stderr),
    ensures
        m.phase is MetaPrimary ==> step_model(m, false, stdout, stderr).phase == (
        PhaseModel::Failed { error: ErrorModel::MetadataToolError { stderr } }),
        m.phase is AudioPrimary ==> step_model(m, false, stdout, stderr).phase == (
        PhaseModel::Failed { error: ErrorModel::DownloadFailed { stderr } }),
        command_args_model(step_model(m, false, stdout, stderr)) is None,
{
}

/// How far along its life a phase stands: the two metadata attempts, the
/// two audio attempts, the size read, then the terminal states.
pub open spec fn phase_rank(p: PhaseModel) -> int {
    match p {
        PhaseModel::MetaPrimary => 0,
        PhaseModel::MetaRetry => 1,
        PhaseModel::AudioPrimary { .. } => 2,
        PhaseModel::AudioRetry { .. } => 3,
        PhaseModel::AwaitFileSize { .. } => 4,
        PhaseModel::Done { .. } => 5,
        PhaseModel::Failed { .. } => 5,
    }
}

/// Progress law: every transition out of a command-issuing state strictly
/// advances the session, so a request reaches a terminal state after at
/// most four downloader invocations — primary and one retry per phase.
pub proof fn lemma_progress(m: SessionModel, success: bool, stdout: Seq<u8>, stderr: Seq<char>)
    requires
        command_args_model(m) is Some,
    ensures
        phase_rank(step_model(m, success, stdout, stderr).phase) > phase_rank(m.phase),
{
}

/// Single-escalation law: from a retry state, the next transition never
/// stands at an attempt of the same phase again — a metadata retry moves on
/// to the audio phase or fails, an audio retry completes or fails. At most
/// two invocations can therefore occur in any one phase.
pub proof fn lemma_single_escalation(
    m: SessionModel,
    success: bool,
    stdout: Seq<u8>,
    stderr: Seq<char>,
)
    requires
        m.phase is MetaRetry || m.phase is AudioRetry,
    ensures
        !(step_model(m, success, stdout, stderr).phase is MetaPrimary),
        !(step_model(m, success, stdout, stderr).phase is MetaRetry),
        !(step_model(m, success, stdout, stderr).phase is AudioRetry),
        m.phase is AudioRetry ==> !(step_model(m, success, stdout, stderr).phase
            is AudioPrimary),
{
}

} // verus!
