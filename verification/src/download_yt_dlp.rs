//! Installing the downloader: whether it is already installed, and the
//! update-or-download procedure with its bounded retries.

use vstd::prelude::*;

use crate::text::{append_decimal, chars_eq_ignore_ascii_case, chars_of, decimal, eq_ignore_ascii_case};

verus! {

/// Download attempts before giving up.
pub const MAX_RETRIES: u8 = 3;

/// Wait between two download attempts, in seconds.
pub const RETRY_DELAY_SECS: u64 = 5;

/// File name of the downloader executable in the install directory.
pub const YT_DLP_EXECUTABLE: &'static str = "yt-dlp.exe";

/// The downloader is installed when its executable is among the names in
/// the install directory. File names on the target system are looked up
/// without regard to case, so names are compared ignoring ASCII case.
pub fn is_yt_dlp_installed(dir_entries: &Vec<String>) -> (r: bool)
    ensures
        r == exists|i: int|
            0 <= i < dir_entries@.len() && eq_ignore_ascii_case(#[trigger] dir_entries@[i]@, YT_DLP_EXECUTABLE@),
{
    let target = chars_of(YT_DLP_EXECUTABLE);
    let n = dir_entries.len();
    for i in 0..n
        invariant
            n == dir_entries@.len(),
            target@ == YT_DLP_EXECUTABLE@,
            forall|k: int| 0 <= k < i ==> !eq_ignore_ascii_case(#[trigger] dir_entries@[k]@, YT_DLP_EXECUTABLE@),
    {
        let name = chars_of(dir_entries[i].as_str());
        if chars_eq_ignore_ascii_case(&name, &target) {
            return true;
        }
    }
    false
}

/// Why installing the downloader failed.
pub enum YtDlpError {
    /// The self-update ran and reported failure; its error output.
    UpdateFailed(String),
    /// Every download attempt failed; the number of attempts and the last error.
    DownloadFailed { attempts: u8, last_error: String },
    /// A step failed with this I/O error message.
    Io(String),
}

impl YtDlpError {
    /// The text of the error.
    pub fn message(&self) -> (m: String)
        ensures
            match self {
                YtDlpError::UpdateFailed(stderr) => m@ == "Failed to update yt-dlp: "@ + stderr@,
                YtDlpError::DownloadFailed { attempts, last_error } => m@ == "Failed to download yt-dlp after "@
                    + decimal(*attempts as nat) + " attempts: "@ + last_error@,
                YtDlpError::Io(e) => m@ == e@,
            },
    {
        match self {
            YtDlpError::UpdateFailed(stderr) => {
                let mut m = "Failed to update yt-dlp: ".to_owned();
                m.append(stderr.as_str());
                m
            },
            YtDlpError::DownloadFailed { attempts, last_error } => {
                let mut m = "Failed to download yt-dlp after ".to_owned();
                append_decimal(&mut m, *attempts as u64);
                m.append(" attempts: ");
                m.append(last_error.as_str());
                m
            },
            YtDlpError::Io(e) => e.clone(),
        }
    }
}

/// The steps of installing the downloader. Each step but `Finished` is
/// carried out by the caller, which reports its outcome.
pub enum YtDlpStep {
    /// Run the installed downloader's self-update.
    Update,
    /// Request the executable; `retries` attempts have failed so far.
    Download { retries: u8 },
    /// Sleep `secs` seconds, then request again.
    Wait { secs: u64, retries: u8 },
    /// Write the downloaded executable into the install directory.
    WriteFile,
    /// The run is over.
    Finished(Result<(), YtDlpError>),
}

/// What a step reported.
pub enum YtDlpOutcome {
    /// The step succeeded.
    Succeeded,
    /// The update reported failure (with its error output), or the request
    /// failed (with its error).
    Refused(String),
    /// The step hit an I/O error.
    Error(String),
}

/// The first step: update when installed, else download.
pub open spec fn yt_dlp_first_step(installed: bool) -> YtDlpStep {
    if installed {
        YtDlpStep::Update
    } else {
        YtDlpStep::Download { retries: 0 }
    }
}

/// The step that follows `step` when it had outcome `outcome`.
pub open spec fn yt_dlp_step_after(step: YtDlpStep, outcome: YtDlpOutcome) -> YtDlpStep {
    match step {
        YtDlpStep::Finished(r) => YtDlpStep::Finished(r),
        YtDlpStep::Wait { secs, retries } => YtDlpStep::Download { retries },
        YtDlpStep::Update => match outcome {
            YtDlpOutcome::Succeeded => YtDlpStep::Finished(Ok(())),
            YtDlpOutcome::Refused(stderr) => YtDlpStep::Finished(Err(YtDlpError::UpdateFailed(stderr))),
            YtDlpOutcome::Error(e) => YtDlpStep::Finished(Err(YtDlpError::Io(e))),
        },
        YtDlpStep::Download { retries } => match outcome {
            YtDlpOutcome::Succeeded => YtDlpStep::WriteFile,
            YtDlpOutcome::Refused(e) => {
                let attempts = if retries < 255 {
                    (retries + 1) as u8
                } else {
                    255u8
                };
                if attempts < MAX_RETRIES {
                    YtDlpStep::Wait { secs: RETRY_DELAY_SECS, retries: attempts }
                } else {
                    YtDlpStep::Finished(Err(YtDlpError::DownloadFailed { attempts, last_error: e }))
                }
            },
            YtDlpOutcome::Error(e) => YtDlpStep::Finished(Err(YtDlpError::Io(e))),
        },
        YtDlpStep::WriteFile => match outcome {
            YtDlpOutcome::Succeeded => YtDlpStep::Finished(Ok(())),
            YtDlpOutcome::Refused(e) => YtDlpStep::Finished(Err(YtDlpError::Io(e))),
            YtDlpOutcome::Error(e) => YtDlpStep::Finished(Err(YtDlpError::Io(e))),
        },
    }
}

/// The first step of an install run.
pub fn first_yt_dlp_step(installed: bool) -> (s: YtDlpStep)
    ensures
        s == yt_dlp_first_step(installed),
{
    if installed {
        YtDlpStep::Update
    } else {
        YtDlpStep::Download { retries: 0 }
    }
}

/// Carries out the transition: the step after `step` with outcome `outcome`.
pub fn next_yt_dlp_step(step: YtDlpStep, outcome: YtDlpOutcome) -> (n: YtDlpStep)
    ensures
        n == yt_dlp_step_after(step, outcome),
{
    match step {
        YtDlpStep::Finished(r) => YtDlpStep::Finished(r),
        YtDlpStep::Wait { secs, retries } => YtDlpStep::Download { retries },
        YtDlpStep::Update => match outcome {
            YtDlpOutcome::Succeeded => YtDlpStep::Finished(Ok(())),
            YtDlpOutcome::Refused(stderr) => YtDlpStep::Finished(Err(YtDlpError::UpdateFailed(stderr))),
            YtDlpOutcome::Error(e) => YtDlpStep::Finished(Err(YtDlpError::Io(e))),
        },
        YtDlpStep::Download { retries } => match outcome {
            YtDlpOutcome::Succeeded => YtDlpStep::WriteFile,
            YtDlpOutcome::Refused(e) => {
                let attempts: u8 = if retries < 255 {
                    retries + 1
                } else {
                    255
                };
                if attempts < MAX_RETRIES {
                    YtDlpStep::Wait { secs: RETRY_DELAY_SECS, retries: attempts }
                } else {
                    YtDlpStep::Finished(Err(YtDlpError::DownloadFailed { attempts, last_error: e }))
                }
            },
            YtDlpOutcome::Error(e) => YtDlpStep::Finished(Err(YtDlpError::Io(e))),
        },
        YtDlpStep::WriteFile => match outcome {
            YtDlpOutcome::Succeeded => YtDlpStep::Finished(Ok(())),
            YtDlpOutcome::Refused(e) => YtDlpStep::Finished(Err(YtDlpError::Io(e))),
            YtDlpOutcome::Error(e) => YtDlpStep::Finished(Err(YtDlpError::Io(e))),
        },
    }
}

/// The step reached from the first step after the given outcomes.
pub open spec fn yt_dlp_run(installed: bool, outcomes: Seq<YtDlpOutcome>) -> YtDlpStep
    decreases outcomes.len(),
{
    if outcomes.len() == 0 {
        yt_dlp_first_step(installed)
    } else {
        yt_dlp_step_after(yt_dlp_run(installed, outcomes.drop_last()), outcomes.last())
    }
}

/// No run makes more than `MAX_RETRIES` download attempts, every wait lasts
/// `RETRY_DELAY_SECS` and comes after a failed attempt, and a run that gives
/// up on downloading reports exactly `MAX_RETRIES` attempts.
pub proof fn lemma_bounded_retries(installed: bool, outcomes: Seq<YtDlpOutcome>)
    ensures
        yt_dlp_run(installed, outcomes) matches YtDlpStep::Download { retries } ==> retries < MAX_RETRIES,
        yt_dlp_run(installed, outcomes) matches YtDlpStep::Wait { secs, retries } ==> secs == RETRY_DELAY_SECS
            && 1 <= retries < MAX_RETRIES,
        yt_dlp_run(installed, outcomes) matches YtDlpStep::Finished(Err(YtDlpError::DownloadFailed { attempts, .. }))
            ==> attempts == MAX_RETRIES,
    decreases outcomes.len(),
{
    if outcomes.len() > 0 {
        lemma_bounded_retries(installed, outcomes.drop_last());
    }
}

/// The most steps still to come after reaching `step` in a run.
pub open spec fn steps_left(step: YtDlpStep) -> int {
    match step {
        YtDlpStep::Finished(_) => 0,
        YtDlpStep::Update => 1,
        YtDlpStep::WriteFile => 1,
        YtDlpStep::Download { retries } => 2 * (MAX_RETRIES - retries),
        YtDlpStep::Wait { retries, .. } => 2 * (MAX_RETRIES - retries) + 1,
    }
}

proof fn lemma_steps_left_shrink(installed: bool, outcomes: Seq<YtDlpOutcome>)
    ensures
        yt_dlp_run(installed, outcomes) is Finished || steps_left(yt_dlp_run(installed, outcomes)) + outcomes.len()
            <= steps_left(yt_dlp_first_step(installed)),
        !(yt_dlp_run(installed, outcomes) is Finished) ==> steps_left(yt_dlp_run(installed, outcomes)) >= 1,
        steps_left(yt_dlp_first_step(installed)) <= 2 * MAX_RETRIES,
    decreases outcomes.len(),
{
    lemma_bounded_retries(installed, outcomes);
    if outcomes.len() > 0 {
        lemma_steps_left_shrink(installed, outcomes.drop_last());
        lemma_bounded_retries(installed, outcomes.drop_last());
    }
}

/// Every install run ends: after `2 * MAX_RETRIES` reported outcomes it has
/// finished, whatever they were. A run that writes the downloaded file
/// successfully ends installed.
pub proof fn lemma_every_run_finishes(installed: bool, outcomes: Seq<YtDlpOutcome>)
    ensures
        outcomes.len() >= 2 * MAX_RETRIES ==> yt_dlp_run(installed, outcomes) is Finished,
        yt_dlp_run(installed, outcomes) is WriteFile ==> yt_dlp_run(installed, outcomes.push(YtDlpOutcome::Succeeded))
            == YtDlpStep::Finished(Ok(())),
{
    lemma_steps_left_shrink(installed, outcomes);
    assert(outcomes.push(YtDlpOutcome::Succeeded).drop_last() =~= outcomes);
}

} // verus!
