//! The error type of the streaming node.

use vstd::prelude::*;

verus! {

/// `std::io::Error`, carried by `StreamError::Io`.
#[verifier::external_type_specification]
#[verifier::external_body]
pub struct ExIoError(std::io::Error);

/// Everything that can stop a stream from starting or running.
#[derive(Debug)]
pub enum StreamError {
    Io(std::io::Error),
    InvalidUrl(String),
    RootPathNotSet,
    ProcessError(String),
    YtDlpDownloadError(String),
    FfmpegDownloadError(String),
    InvalidPlayer,
}

/// Renders an I/O error with its `Display` impl (std's `format!`). What the
/// text says depends on the operating system's error messages, so nothing
/// is stated of it.
#[verifier::external_body]
fn io_error_text(e: &std::io::Error) -> String {
    format!("{}", e)
}

fn owned_text(s: &str) -> (r: String)
    ensures
        r@ == s@,
{
    s.to_owned()
}

impl StreamError {
    /// The text of the error.
    pub fn message(&self) -> (m: String)
        ensures
            match self {
                StreamError::Io(_) => exists|t: Seq<char>| m@ == "IO error: "@ + t,
                StreamError::InvalidUrl(u) => m@ == "Invalid URL: "@ + u@,
                StreamError::RootPathNotSet => m@ == "Root path not set"@,
                StreamError::ProcessError(p) => m@ == "Process error: "@ + p@,
                StreamError::YtDlpDownloadError(_) => m@ == "Failed to download yt-dlp"@,
                StreamError::FfmpegDownloadError(_) => m@ == "Failed to download ffmpeg"@,
                StreamError::InvalidPlayer => m@ == "Invalid player"@,
            },
    {
        match self {
            StreamError::Io(e) => {
                let t = io_error_text(e);
                let mut m = owned_text("IO error: ");
                m.append(t.as_str());
                m
            },
            StreamError::InvalidUrl(u) => {
                let mut m = owned_text("Invalid URL: ");
                m.append(u.as_str());
                m
            },
            StreamError::RootPathNotSet => owned_text("Root path not set"),
            StreamError::ProcessError(p) => {
                let mut m = owned_text("Process error: ");
                m.append(p.as_str());
                m
            },
            StreamError::YtDlpDownloadError(_) => owned_text("Failed to download yt-dlp"),
            StreamError::FfmpegDownloadError(_) => owned_text("Failed to download ffmpeg"),
            StreamError::InvalidPlayer => owned_text("Invalid player"),
        }
    }
}

} // verus!
