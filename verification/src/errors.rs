//! The request-level error taxonomy: input validation, missing tool,
//! anti-bot block (with a remediation hint that distinguishes "no fallback
//! available" from "fallback already tried"), verbatim tool errors, a
//! metadata parse failure, and the artifact missing after a reported
//! success. Every error is terminal for its request.

use vstd::prelude::*;
use vstd::string::StringExecFns;

verus! {

/// Why a download request failed.
#[derive(Debug)]
pub enum DownloadError {
    /// The source string does not parse as a URL.
    InvalidUrlFormat,
    /// The URL has no host.
    NoHost,
    /// The host is not on the platform allowlist.
    HostNotAllowed,
    /// The downloader tool was not found.
    ToolMissing,
    /// The platform blocked the request as automated traffic;
    /// `cookies_tried` tells whether the cookie escalation already ran.
    BotDetected { cookies_tried: bool },
    /// The metadata phase failed for a reason other than an anti-bot block;
    /// the tool's own error text is carried verbatim.
    MetadataToolError { stderr: String },
    /// The metadata phase succeeded but its output did not parse.
    MetadataParse,
    /// The audio phase failed for a reason other than an anti-bot block;
    /// the tool's own error text is carried verbatim.
    DownloadFailed { stderr: String },
    /// The audio phase reported success but the artifact is not on disk.
    ArtifactMissing,
}

/// Ghost mirror of `DownloadError`, over character sequences.
pub ghost enum ErrorModel {
    InvalidUrlFormat,
    NoHost,
    HostNotAllowed,
    ToolMissing,
    BotDetected { cookies_tried: bool },
    MetadataToolError { stderr: Seq<char> },
    MetadataParse,
    DownloadFailed { stderr: Seq<char> },
    ArtifactMissing,
}

impl DownloadError {
    /// The mathematical value of this error.
    pub open spec fn model(self) -> ErrorModel {
        match self {
            DownloadError::InvalidUrlFormat => ErrorModel::InvalidUrlFormat,
            DownloadError::NoHost => ErrorModel::NoHost,
            DownloadError::HostNotAllowed => ErrorModel::HostNotAllowed,
            DownloadError::ToolMissing => ErrorModel::ToolMissing,
            DownloadError::BotDetected { cookies_tried } => ErrorModel::BotDetected {
                cookies_tried,
            },
            DownloadError::MetadataToolError { stderr } => ErrorModel::MetadataToolError {
                stderr: stderr@,
            },
            DownloadError::MetadataParse => ErrorModel::MetadataParse,
            DownloadError::DownloadFailed { stderr } => ErrorModel::DownloadFailed {
                stderr: stderr@,
            },
            DownloadError::ArtifactMissing => ErrorModel::ArtifactMissing,
        }
    }

    /// The caller-facing message of `e`.
    pub open spec fn message_spec(e: ErrorModel) -> Seq<char> {
        match e {
            ErrorModel::InvalidUrlFormat => "Invalid URL format"@,
            ErrorModel::NoHost => "No host in URL"@,
            ErrorModel::HostNotAllowed => "Not a valid YouTube URL"@,
            ErrorModel::ToolMissing => "yt-dlp not found. Install with: pip install -U yt-dlp"@,
            ErrorModel::BotDetected { cookies_tried } => if cookies_tried {
                "YouTube bot detection triggered. Browser cookies didn't help. Try logging into YouTube in your browser and try again."@
            } else {
                "YouTube bot detection triggered. Install Deno (https://deno.land) or log into YouTube in Chrome/Firefox."@
            },
            ErrorModel::MetadataToolError { stderr } => "yt-dlp error: "@ + stderr,
            ErrorModel::MetadataParse => "Failed to parse metadata"@,
            ErrorModel::DownloadFailed { stderr } => "Download failed: "@ + stderr,
            ErrorModel::ArtifactMissing => "Downloaded file not found"@,
        }
    }

    /// Render the caller-facing message.
    pub fn message(&self) -> (r: String)
        ensures
            r@ == DownloadError::message_spec(self.model()),
    {
        match self {
            DownloadError::InvalidUrlFormat => String::from_str("Invalid URL format"),
            DownloadError::NoHost => String::from_str("No host in URL"),
            DownloadError::HostNotAllowed => String::from_str("Not a valid YouTube URL"),
            DownloadError::ToolMissing => String::from_str(
                "yt-dlp not found. Install with: pip install -U yt-dlp",
            ),
            DownloadError::BotDetected { cookies_tried } => if *cookies_tried {
                String::from_str(
                    "YouTube bot detection triggered. Browser cookies didn't help. Try logging into YouTube in your browser and try again.",
                )
            } else {
                String::from_str(
                    "YouTube bot detection triggered. Install Deno (https://deno.land) or log into YouTube in Chrome/Firefox.",
                )
            },
            DownloadError::MetadataToolError { stderr } => String::from_str(
                "yt-dlp error: ",
            ).concat(stderr.as_str()),
            DownloadError::MetadataParse => String::from_str("Failed to parse metadata"),
            DownloadError::DownloadFailed { stderr } => String::from_str(
                "Download failed: ",
            ).concat(stderr.as_str()),
            DownloadError::ArtifactMissing => String::from_str("Downloaded file not found"),
        }
    }
}

} // verus!
