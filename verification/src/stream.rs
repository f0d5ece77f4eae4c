//! Decisions of the streaming node itself: which addresses are accepted for
//! playback, and what the processing loop does on each turn.

use vstd::prelude::*;

use crate::stream_errors::StreamError;

verus! {

/// What `url::Url::parse` makes of `input`: its serialization and its scheme
/// when it parses, `None` when it does not.
pub uninterp spec fn url_parse(input: Seq<char>) -> Option<(Seq<char>, Seq<char>)>;

/// Calls `url::Url::parse` and reads the parsed URL's `as_str()` (its
/// serialization, which is also what `to_string()` gives) and `scheme()`.
/// Trusted: the result is the value named `url_parse` of the input;
/// nothing about URL syntax is claimed.
#[verifier::external_body]
fn parse_url(input: &str) -> (r: Option<(String, String)>)
    ensures
        match r {
            Some((serialization, scheme)) => url_parse(input@) == Some((serialization@, scheme@)),
            None => url_parse(input@) is None,
        },
{
    match url::Url::parse(input) {
        Ok(u) => Some((u.as_str().to_string(), u.scheme().to_string())),
        Err(_) => None,
    }
}

/// The verdict on an address: `Ok` with the address to play, or `Err` with
/// the text of the `InvalidUrl` error.
pub open spec fn url_verdict(input: Seq<char>, parsed: Option<(Seq<char>, Seq<char>)>) -> Result<Seq<char>, Seq<char>> {
    match parsed {
        None => Err(input),
        Some((serialization, scheme)) => if scheme == "http"@ || scheme == "https"@ {
            Ok(serialization)
        } else {
            Err("Invalid URL scheme"@)
        },
    }
}

/// The verdict carried by a result.
pub open spec fn verdict_of(r: Result<String, StreamError>) -> Result<Seq<char>, Seq<char>> {
    match r {
        Ok(s) => Ok(s@),
        Err(StreamError::InvalidUrl(m)) => Err(m@),
        Err(_) => Err(seq![]),
    }
}

/// Judges an address given what the URL parser made of it: an address that
/// does not parse is refused with its own text, one whose scheme is neither
/// `http` nor `https` is refused as an invalid scheme, and any other is
/// played as the parser serializes it.
pub fn check_parsed_url(input: &str, parsed: Option<(String, String)>) -> (r: Result<String, StreamError>)
    ensures
        r is Ok || r is Err && r->Err_0 is InvalidUrl,
        verdict_of(r) == url_verdict(
            input@,
            match parsed {
                Some((s, c)) => Some((s@, c@)),
                None => None,
            },
        ),
{
    match parsed {
        None => Err(StreamError::InvalidUrl(input.to_owned())),
        Some((serialization, scheme)) => {
            let http = "http".to_owned();
            let https = "https".to_owned();
            if scheme == http || scheme == https {
                Ok(serialization)
            } else {
                Err(StreamError::InvalidUrl("Invalid URL scheme".to_owned()))
            }
        },
    }
}

/// Parses `url` and judges it as `check_parsed_url` does.
pub fn validate_url(url: &str) -> (r: Result<String, StreamError>)
    ensures
        r is Ok || r is Err && r->Err_0 is InvalidUrl,
        verdict_of(r) == url_verdict(url@, url_parse(url@)),
{
    let parsed = parse_url(url);
    check_parsed_url(url, parsed)
}

/// How a play request ended when it did not fail.
pub enum PlayOutcome {
    /// The helper programs are still being installed; nothing was started.
    Waiting,
    /// The decoder and the downloader run for this address.
    Playing(String),
}

/// The steps of a play request. Each step but `Finished` is carried out by
/// the caller, which reports its outcome: `Err` when it failed, else
/// `Ok(answer)`, where the answer matters for the two questions.
pub enum PlayStep {
    /// Stop the current stream: processes, player and buffer.
    Cleanup { url: String },
    /// Is there a process manager? If so, ask it for the address's metadata.
    RequestMetadata { url: String },
    /// Are the helper programs installed?
    CheckInitialized { url: String },
    /// Start the decoder.
    StartDecoder { url: String },
    /// Start the downloader, feeding the decoder.
    StartDownloader { url: String },
    /// The request is over.
    Finished(Result<PlayOutcome, StreamError>),
}

/// The step that follows `step` when it had outcome `outcome`.
pub open spec fn play_step_after(step: PlayStep, outcome: Result<bool, StreamError>) -> PlayStep {
    match step {
        PlayStep::Finished(r) => PlayStep::Finished(r),
        _ => match outcome {
            Err(e) => PlayStep::Finished(Err(e)),
            Ok(answer) => match step {
                PlayStep::Cleanup { url } => PlayStep::RequestMetadata { url },
                PlayStep::RequestMetadata { url } => if answer {
                    PlayStep::CheckInitialized { url }
                } else {
                    PlayStep::Finished(Err(StreamError::RootPathNotSet))
                },
                PlayStep::CheckInitialized { url } => if answer {
                    PlayStep::StartDecoder { url }
                } else {
                    PlayStep::Finished(Ok(PlayOutcome::Waiting))
                },
                PlayStep::StartDecoder { url } => PlayStep::StartDownloader { url },
                PlayStep::StartDownloader { url } => PlayStep::Finished(Ok(PlayOutcome::Playing(url))),
                _ => step,
            },
        },
    }
}

/// Starts a request to play `url`. The address is judged first: an
/// accepted one leads to stopping the current stream, a refused one ends
/// the request at once with its `InvalidUrl` error, before anything is
/// stopped.
pub fn first_play_step(url: &str) -> (s: PlayStep)
    ensures
        match url_verdict(url@, url_parse(url@)) {
            Ok(u) => s matches PlayStep::Cleanup { url: v } && v@ == u,
            Err(m) => s matches PlayStep::Finished(Err(StreamError::InvalidUrl(t))) && t@ == m,
        },
{
    match validate_url(url) {
        Ok(u) => PlayStep::Cleanup { url: u },
        Err(e) => PlayStep::Finished(Err(e)),
    }
}

/// Carries out the transition: the step after `step` with outcome `outcome`.
pub fn next_play_step(step: PlayStep, outcome: Result<bool, StreamError>) -> (n: PlayStep)
    ensures
        n == play_step_after(step, outcome),
{
    match step {
        PlayStep::Finished(r) => PlayStep::Finished(r),
        _ => match outcome {
            Err(e) => PlayStep::Finished(Err(e)),
            Ok(answer) => match step {
                PlayStep::Cleanup { url } => PlayStep::RequestMetadata { url },
                PlayStep::RequestMetadata { url } => if answer {
                    PlayStep::CheckInitialized { url }
                } else {
                    PlayStep::Finished(Err(StreamError::RootPathNotSet))
                },
                PlayStep::CheckInitialized { url } => if answer {
                    PlayStep::StartDecoder { url }
                } else {
                    PlayStep::Finished(Ok(PlayOutcome::Waiting))
                },
                PlayStep::StartDecoder { url } => PlayStep::StartDownloader { url },
                PlayStep::StartDownloader { url } => PlayStep::Finished(Ok(PlayOutcome::Playing(url))),
                other => other,
            },
        },
    }
}

/// The step reached from `first` after the given outcomes.
pub open spec fn play_run(first: PlayStep, outcomes: Seq<Result<bool, StreamError>>) -> PlayStep
    decreases outcomes.len(),
{
    if outcomes.len() == 0 {
        first
    } else {
        play_step_after(play_run(first, outcomes.drop_last()), outcomes.last())
    }
}

/// Steps reached only after the helper programs were found installed.
pub open spec fn after_initialized(step: PlayStep) -> bool {
    step is StartDecoder || step is StartDownloader || step matches PlayStep::Finished(Ok(PlayOutcome::Playing(_)))
}

/// A request plays only what was accepted, and only after the helper
/// programs were found installed: every run from an accepted address that
/// ends playing plays that address and answered the installation question
/// with yes on the way.
pub proof fn lemma_plays_only_when_initialized(url: String, outcomes: Seq<Result<bool, StreamError>>)
    requires
        play_run(PlayStep::Cleanup { url }, outcomes) matches PlayStep::Finished(Ok(PlayOutcome::Playing(_))),
    ensures
        play_run(PlayStep::Cleanup { url }, outcomes) matches PlayStep::Finished(Ok(PlayOutcome::Playing(u)))
            && u == url,
        exists|i: int|
            0 <= i < outcomes.len() && play_run(PlayStep::Cleanup { url }, #[trigger] outcomes.take(i)) is CheckInitialized
                && outcomes[i] matches Ok(true),
{
    lemma_url_kept(url, outcomes);
    lemma_initialized_witness(url, outcomes);
}

/// A request that ends playing started both helper programs: the decoder
/// was started successfully, and after it the downloader was started
/// successfully.
pub proof fn lemma_plays_only_after_starting_both(url: String, outcomes: Seq<Result<bool, StreamError>>)
    requires
        play_run(PlayStep::Cleanup { url }, outcomes) matches PlayStep::Finished(Ok(PlayOutcome::Playing(_))),
    ensures
        exists|i: int, j: int|
            0 <= i < j < outcomes.len() && play_run(PlayStep::Cleanup { url }, #[trigger] outcomes.take(i)) is StartDecoder
                && outcomes[i] is Ok && play_run(PlayStep::Cleanup { url }, #[trigger] outcomes.take(j)) is StartDownloader
                && outcomes[j] is Ok,
    decreases outcomes.len(),
{
    let first = PlayStep::Cleanup { url };
    let prefix = outcomes.drop_last();
    let n = outcomes.len() - 1;
    assert(outcomes.take(n) =~= prefix);
    if play_run(first, prefix) matches PlayStep::Finished(Ok(PlayOutcome::Playing(_))) {
        lemma_plays_only_after_starting_both(url, prefix);
        let (i, j) = choose|i: int, j: int|
            0 <= i < j < prefix.len() && play_run(first, #[trigger] prefix.take(i)) is StartDecoder
                && prefix[i] is Ok && play_run(first, #[trigger] prefix.take(j)) is StartDownloader && prefix[j] is Ok;
        assert(prefix.take(i) =~= outcomes.take(i));
        assert(prefix.take(j) =~= outcomes.take(j));
    } else {
        assert(play_run(first, outcomes.take(n)) is StartDownloader && outcomes[n] is Ok);
        assert(n > 0);
        let m = n - 1;
        assert(prefix.take(m) =~= prefix.drop_last());
        assert(outcomes.take(m) =~= prefix.take(m));
        assert(play_run(first, outcomes.take(m)) is StartDecoder && outcomes[m] is Ok);
    }
}

/// The address carried by a step, if it carries one.
pub open spec fn step_url(step: PlayStep) -> Option<String> {
    match step {
        PlayStep::Cleanup { url } => Some(url),
        PlayStep::RequestMetadata { url } => Some(url),
        PlayStep::CheckInitialized { url } => Some(url),
        PlayStep::StartDecoder { url } => Some(url),
        PlayStep::StartDownloader { url } => Some(url),
        PlayStep::Finished(Ok(PlayOutcome::Playing(url))) => Some(url),
        _ => None,
    }
}

proof fn lemma_url_kept(url: String, outcomes: Seq<Result<bool, StreamError>>)
    ensures
        step_url(play_run(PlayStep::Cleanup { url }, outcomes)) is Some ==> step_url(
            play_run(PlayStep::Cleanup { url }, outcomes),
        ) == Some(url),
    decreases outcomes.len(),
{
    if outcomes.len() > 0 {
        lemma_url_kept(url, outcomes.drop_last());
    }
}

proof fn lemma_initialized_witness(url: String, outcomes: Seq<Result<bool, StreamError>>)
    requires
        after_initialized(play_run(PlayStep::Cleanup { url }, outcomes)),
    ensures
        exists|i: int|
            0 <= i < outcomes.len() && play_run(PlayStep::Cleanup { url }, #[trigger] outcomes.take(i)) is CheckInitialized
                && outcomes[i] matches Ok(true),
    decreases outcomes.len(),
{
    let first = PlayStep::Cleanup { url };
    let prefix = outcomes.drop_last();
    let n = outcomes.len() - 1;
    assert(outcomes.take(n) =~= prefix);
    if after_initialized(play_run(first, prefix)) {
        lemma_initialized_witness(url, prefix);
        let i = choose|i: int|
            0 <= i < prefix.len() && play_run(first, #[trigger] prefix.take(i)) is CheckInitialized
                && prefix[i] matches Ok(true);
        assert(prefix.take(i) =~= outcomes.take(i));
    } else {
        assert(play_run(first, outcomes.take(n)) is CheckInitialized && outcomes[n] matches Ok(true));
    }
}

/// What the processing loop does on one turn.
#[derive(PartialEq, Eq, Structural)]
pub enum TickAction {
    /// Sleep `millis` milliseconds and start the next turn.
    Sleep { millis: u64 },
    /// Leave the loop.
    Stop,
    /// Move received samples into the buffer, start the player if the buffer
    /// is full enough, run a processing cycle, then sleep `millis` milliseconds.
    Process { millis: u64 },
}

/// Decides one turn of the processing loop: a paused stream waits, a stop
/// request ends the loop, a player that is no longer usable ends it too,
/// and samples are processed only when a receiver, a playback and a player
/// are all present.
pub fn processing_tick(is_paused: bool, should_stop: bool, has_receiver: bool, has_output: bool, player_safe: bool)
    -> (a: TickAction)
    ensures
        a == if is_paused {
            TickAction::Sleep { millis: 10 }
        } else if should_stop {
            TickAction::Stop
        } else if !(has_receiver && has_output) {
            TickAction::Sleep { millis: 1 }
        } else if !player_safe {
            TickAction::Stop
        } else {
            TickAction::Process { millis: 1 }
        },
{
    if is_paused {
        TickAction::Sleep { millis: 10 }
    } else if should_stop {
        TickAction::Stop
    } else if !(has_receiver && has_output) {
        TickAction::Sleep { millis: 1 }
    } else if !player_safe {
        TickAction::Stop
    } else {
        TickAction::Process { millis: 1 }
    }
}

} // verus!
