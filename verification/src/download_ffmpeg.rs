//! Installing the decoder: the validity of an existing installation, which
//! archive entries are extracted, and the order of the install steps with
//! what each outcome leads to.

use vstd::prelude::*;

use crate::text::{chars_end_with, chars_of, ends_with};

verus! {

/// Version written to the metadata file of a complete installation.
pub const FFMPEG_METADATA_VERSION: &'static str = "1.0.0";

/// Name of the metadata file in the install directory.
pub const METADATA_FILENAME: &'static str = "metadata_ffmpeg.json";

/// Where the decoder archive is downloaded from; its checksum is at this
/// address with `.sha256` appended.
pub const FFMPEG_URL: &'static str = "https://www.gyan.dev/ffmpeg/builds/ffmpeg-release-essentials.7z";

/// Contents of the metadata file.
pub struct FFmpegMetadata {
    pub version: String,
}

/// An installation is valid when its metadata could be read and records the
/// current version.
pub open spec fn installation_is_valid(metadata: Option<FFmpegMetadata>) -> bool {
    metadata matches Some(m) && m.version@ == FFMPEG_METADATA_VERSION@
}

/// The metadata written after a complete installation; reading it back
/// makes the installation valid.
pub fn current_metadata() -> (m: FFmpegMetadata)
    ensures
        m.version@ == FFMPEG_METADATA_VERSION@,
        installation_is_valid(Some(m)),
{
    FFmpegMetadata { version: FFMPEG_METADATA_VERSION.to_owned() }
}

/// Whether the metadata read from the install directory (`None` when it
/// could not be read or parsed) marks a valid installation.
pub fn is_valid_installation(metadata: &Option<FFmpegMetadata>) -> (r: bool)
    ensures
        r == installation_is_valid(*metadata),
{
    match metadata {
        Some(m) => m.version == FFMPEG_METADATA_VERSION.to_owned(),
        None => false,
    }
}

/// The executables taken from the archive, in this order.
pub fn ffmpeg_executables() -> (v: Vec<String>)
    ensures
        v@.len() == 2,
        v@[0]@ == "ffmpeg.exe"@,
        v@[1]@ == "ffprobe.exe"@,
{
    let mut v: Vec<String> = Vec::new();
    v.push("ffmpeg.exe".to_owned());
    v.push("ffprobe.exe".to_owned());
    v
}

/// The executable an archive entry is extracted as: the first name in
/// `executables` that the entry's path ends with, if any.
pub fn match_executable(entry_path: &str, executables: &Vec<String>) -> (r: Option<usize>)
    ensures
        match r {
            Some(i) => i < executables@.len() && ends_with(entry_path@, executables@[i as int]@)
                && forall|k: int| 0 <= k < i ==> !ends_with(entry_path@, #[trigger] executables@[k]@),
            None => forall|k: int|
                0 <= k < executables@.len() ==> !ends_with(entry_path@, #[trigger] executables@[k]@),
        },
{
    let path = chars_of(entry_path);
    let n = executables.len();
    for i in 0..n
        invariant
            n == executables@.len(),
            path@ == entry_path@,
            forall|k: int| 0 <= k < i ==> !ends_with(entry_path@, #[trigger] executables@[k]@),
    {
        let name = chars_of(executables[i].as_str());
        if chars_end_with(&path, &name) {
            return Some(i);
        }
    }
    None
}

/// An entry as the archive decoder hands it over: its path in the archive,
/// the bytes read from it and, when reading failed part way, the error text.
pub type DecodedEntry = (Seq<char>, Seq<u8>, Option<Seq<char>>);

/// The texts of a list of names.
pub open spec fn names_view(names: Seq<String>) -> Seq<Seq<char>> {
    names.map_values(|s: String| s@)
}

/// The text of an optional message.
pub open spec fn text_view(t: Option<String>) -> Option<Seq<char>> {
    match t {
        Some(s) => Some(s@),
        None => None,
    }
}

/// A decoded entry by its views.
pub open spec fn entry_view(e: (String, Vec<u8>, Option<String>)) -> DecodedEntry {
    (e.0@, e.1@, text_view(e.2))
}

/// What the decoder handed over, by views.
pub open spec fn decoded_view(r: Result<Vec<(String, Vec<u8>, Option<String>)>, String>) -> Result<Seq<DecodedEntry>, Seq<char>> {
    match r {
        Ok(v) => Ok(v@.map_values(|e: (String, Vec<u8>, Option<String>)| entry_view(e))),
        Err(e) => Err(e@),
    }
}

/// `executables[i]` is the first of the names that `path` ends with: the
/// name the entry at `path` is extracted as.
pub open spec fn is_first_match(path: Seq<char>, executables: Seq<Seq<char>>, i: int) -> bool {
    &&& 0 <= i < executables.len()
    &&& ends_with(path, executables[i])
    &&& forall|k: int| 0 <= k < i ==> !ends_with(path, #[trigger] executables[k])
}

/// An entry path has at most one first matching name.
pub proof fn lemma_first_match_unique(path: Seq<char>, executables: Seq<Seq<char>>, i: int, j: int)
    requires
        is_first_match(path, executables, i),
        is_first_match(path, executables, j),
    ensures
        i == j,
{
    if i < j {
        assert(!ends_with(path, executables[i]));
    } else if j < i {
        assert(!ends_with(path, executables[j]));
    }
}

/// What is extracted as `executables[i]`: the bytes of the last entry
/// extracted as that name, if any.
pub open spec fn extracted_file(entries: Seq<DecodedEntry>, executables: Seq<Seq<char>>, i: int) -> Option<Seq<u8>>
    decreases entries.len(),
{
    if entries.len() == 0 {
        None
    } else if is_first_match(entries.last().0, executables, i) {
        Some(entries.last().1)
    } else {
        extracted_file(entries.drop_last(), executables, i)
    }
}

/// One line of the extraction report: the index of the name an entry is
/// extracted as, the entry's path, and the error that cut its reading
/// short, if any.
pub type ReportLine = (int, Seq<char>, Option<Seq<char>>);

/// The extraction report: a line for each entry that is extracted, in
/// archive order. A failed read is reported and extraction goes on.
pub open spec fn extraction_report(entries: Seq<DecodedEntry>, executables: Seq<Seq<char>>) -> Seq<ReportLine>
    decreases entries.len(),
{
    if entries.len() == 0 {
        Seq::empty()
    } else {
        let earlier = extraction_report(entries.drop_last(), executables);
        let e = entries.last();
        if exists|i: int| is_first_match(e.0, executables, i) {
            earlier.push((choose|i: int| is_first_match(e.0, executables, i), e.0, e.2))
        } else {
            earlier
        }
    }
}

/// The executables taken out of an archive.
pub struct Extraction {
    /// One slot per executable name: what is written as that executable.
    pub files: Vec<Option<Vec<u8>>>,
    /// For each extracted entry, in archive order: the index of its name,
    /// its path, and the text of the error that cut its reading short.
    pub report: Vec<(usize, String, Option<String>)>,
}

/// The view of an optional file.
pub open spec fn file_view(f: Option<Vec<u8>>) -> Option<Seq<u8>> {
    match f {
        Some(b) => Some(b@),
        None => None,
    }
}

/// The view of a report line.
pub open spec fn report_line_view(l: (usize, String, Option<String>)) -> ReportLine {
    (l.0 as int, l.1@, text_view(l.2))
}

/// `x` holds what is extracted from `entries`.
pub open spec fn extraction_matches(x: Extraction, entries: Seq<DecodedEntry>, executables: Seq<Seq<char>>) -> bool {
    &&& x.files@.len() == executables.len()
    &&& forall|i: int| 0 <= i < executables.len() ==> file_view(#[trigger] x.files@[i]) == extracted_file(entries, executables, i)
    &&& x.report@.map_values(|l: (usize, String, Option<String>)| report_line_view(l)) == extraction_report(entries, executables)
}

/// Sorts decoded entries into one slot per executable, in archive order,
/// each entry into the slot of the first name its path ends with; a later
/// entry replaces an earlier one. An entry whose reading failed keeps the
/// bytes read before the failure and is reported; extraction goes on.
fn sort_entries(entries: Vec<(String, Vec<u8>, Option<String>)>, executables: &Vec<String>) -> (x: Extraction)
    ensures
        extraction_matches(
            x,
            entries@.map_values(|e: (String, Vec<u8>, Option<String>)| entry_view(e)),
            names_view(executables@),
        ),
{
    let ghost all = entries@.map_values(|e: (String, Vec<u8>, Option<String>)| entry_view(e));
    let ghost exes = names_view(executables@);
    let n = executables.len();
    let mut files: Vec<Option<Vec<u8>>> = Vec::new();
    for k in 0..n
        invariant
            files@.len() == k,
            forall|i: int| 0 <= i < k ==> #[trigger] files@[i] is None,
    {
        files.push(None);
    }
    let mut report: Vec<(usize, String, Option<String>)> = Vec::new();
    let mut rest = entries;
    let ghost mut done: int = 0;
    proof {
        assert(all.take(0) =~= Seq::<DecodedEntry>::empty());
        assert(report@.map_values(|l: (usize, String, Option<String>)| report_line_view(l)) =~= Seq::<ReportLine>::empty());
    }
    while rest.len() > 0
        invariant
            n == executables@.len(),
            exes == names_view(executables@),
            exes.len() == n,
            0 <= done <= all.len(),
            rest@.len() == all.len() - done,
            forall|j: int| 0 <= j < rest@.len() ==> entry_view(#[trigger] rest@[j]) == all[done + j],
            files@.len() == n,
            forall|i: int| 0 <= i < n ==> file_view(#[trigger] files@[i]) == extracted_file(all.take(done), exes, i),
            report@.map_values(|l: (usize, String, Option<String>)| report_line_view(l)) == extraction_report(all.take(done), exes),
        decreases rest@.len(),
    {
        let ghost before = all.take(done);
        let ghost now = all.take(done + 1);
        let ghost old_report = report@;
        assert(entry_view(rest@[0]) == all[done]);
        let (path, bytes, error) = rest.remove(0);
        let ghost e = all[done];
        proof {
            assert(now.drop_last() =~= before);
            assert(now.last() == e);
            assert forall|k: int| 0 <= k < n implies exes[k] == #[trigger] executables@[k]@ by {}
        }
        let m = match_executable(path.as_str(), executables);
        match m {
            Some(i) => {
                proof {
                    assert(is_first_match(e.0, exes, i as int));
                    assert forall|j: int| 0 <= j < n && j != i implies !is_first_match(e.0, exes, j) by {
                        if is_first_match(e.0, exes, j) {
                            lemma_first_match_unique(e.0, exes, i as int, j);
                        }
                    }
                    let c = choose|j: int| is_first_match(e.0, exes, j);
                    lemma_first_match_unique(e.0, exes, i as int, c);
                }
                files.set(i, Some(bytes));
                report.push((i, path, error));
                proof {
                    assert(report@.map_values(|l: (usize, String, Option<String>)| report_line_view(l)) =~= old_report.map_values(
                        |l: (usize, String, Option<String>)| report_line_view(l),
                    ).push((i as int, e.0, e.2)));
                }
            },
            None => {
                proof {
                    assert forall|j: int| 0 <= j < n implies !is_first_match(e.0, exes, j) by {}
                    assert(!exists|j: int| is_first_match(e.0, exes, j));
                }
            },
        }
        proof {
            done = done + 1;
        }
    }
    proof {
        assert(all.take(done) =~= all);
    }
    Extraction { files, report }
}

/// Takes the executables named in `executables` out of what the 7z decoder
/// handed over (the entries whose paths end with one of the names, in
/// archive order, or the decoder's error text): for each name, the contents
/// of the last entry whose path ends with it and with no name before it,
/// and a report line for each such entry. The decoder's error is passed on
/// as it is.
pub fn extract_executables(decoded: Result<Vec<(String, Vec<u8>, Option<String>)>, String>, executables: &Vec<String>) -> (r:
    Result<Extraction, String>)
    ensures
        match decoded_view(decoded) {
            Ok(entries) => r matches Ok(x) && extraction_matches(x, entries, names_view(executables@)),
            Err(e) => r matches Err(m) && m@ == e,
        },
{
    match decoded {
        Ok(entries) => Ok(sort_entries(entries, executables)),
        Err(e) => Err(e),
    }
}

/// How a successful install run ended.
#[derive(PartialEq, Eq, Structural)]
pub enum FfmpegInstalled {
    /// Both executables were already in place; nothing was downloaded.
    AlreadyExtracted,
    /// The archive was downloaded, verified and extracted.
    Installed,
}

/// Why an install run failed.
pub enum FfmpegError {
    /// A step failed with this message.
    Step(String),
    /// The archive did not match its checksum; the message says how.
    Checksum(String),
    /// Extraction did not produce both executables.
    MissingExecutables,
}

impl FfmpegError {
    /// The text of the error.
    pub fn message(&self) -> (m: String)
        ensures
            match self {
                FfmpegError::Step(e) => m@ == e@,
                FfmpegError::Checksum(e) => m@ == "Failed to verify checksum: "@ + e@,
                FfmpegError::MissingExecutables => m@ == "Not all expected executables found after extraction"@,
            },
    {
        match self {
            FfmpegError::Step(e) => e.clone(),
            FfmpegError::Checksum(e) => {
                let mut m = "Failed to verify checksum: ".to_owned();
                m.append(e.as_str());
                m
            },
            FfmpegError::MissingExecutables => "Not all expected executables found after extraction".to_owned(),
        }
    }
}

/// The install steps. Each step but `Finished` is carried out by the caller,
/// which reports its outcome: `Err(message)` when it failed, else
/// `Ok(answer)`, where the answer matters for the three checks.
pub enum FfmpegStep {
    /// Is the recorded installation valid?
    CheckInstallation,
    /// Remove executables left by an invalid installation.
    RemoveExecutables,
    /// Create a fresh temporary directory in the install directory.
    CreateTempDir,
    /// Build the HTTP client.
    BuildClient,
    /// Are both executables already in the install directory?
    CheckExtracted,
    /// Create the install directory.
    CreateOutputDir,
    /// Download the archive into the temporary directory.
    DownloadArchive,
    /// Fetch the published checksum of the archive.
    FetchChecksum,
    /// Check the archive against the fetched checksum.
    VerifyChecksum,
    /// Extract the executables into the temporary directory.
    Extract,
    /// Are both executables in the temporary directory?
    CheckExtraction,
    /// Move executable number `i` into the install directory.
    MoveExecutable(usize),
    /// Remove the downloaded archive.
    RemoveArchive,
    /// Delete the temporary directory.
    CloseTempDir,
    /// Write the metadata file.
    WriteMetadata,
    /// Remove the downloaded archive, then fail with the given error.
    DiscardArchive(FfmpegError),
    /// The run is over.
    Finished(Result<FfmpegInstalled, FfmpegError>),
}

/// The step that follows `step` when it had outcome `outcome`.
pub open spec fn ffmpeg_step_after(step: FfmpegStep, outcome: Result<bool, String>) -> FfmpegStep {
    match step {
        FfmpegStep::Finished(r) => FfmpegStep::Finished(r),
        FfmpegStep::VerifyChecksum => match outcome {
            Err(e) => FfmpegStep::DiscardArchive(FfmpegError::Checksum(e)),
            Ok(_) => FfmpegStep::Extract,
        },
        _ => match outcome {
            Err(e) => FfmpegStep::Finished(Err(FfmpegError::Step(e))),
            Ok(answer) => match step {
                FfmpegStep::CheckInstallation => if answer {
                    FfmpegStep::CreateTempDir
                } else {
                    FfmpegStep::RemoveExecutables
                },
                FfmpegStep::RemoveExecutables => FfmpegStep::CreateTempDir,
                FfmpegStep::CreateTempDir => FfmpegStep::BuildClient,
                FfmpegStep::BuildClient => FfmpegStep::CheckExtracted,
                FfmpegStep::CheckExtracted => if answer {
                    FfmpegStep::Finished(Ok(FfmpegInstalled::AlreadyExtracted))
                } else {
                    FfmpegStep::CreateOutputDir
                },
                FfmpegStep::CreateOutputDir => FfmpegStep::DownloadArchive,
                FfmpegStep::DownloadArchive => FfmpegStep::FetchChecksum,
                FfmpegStep::FetchChecksum => FfmpegStep::VerifyChecksum,
                FfmpegStep::Extract => FfmpegStep::CheckExtraction,
                FfmpegStep::CheckExtraction => if answer {
                    FfmpegStep::MoveExecutable(0)
                } else {
                    FfmpegStep::DiscardArchive(FfmpegError::MissingExecutables)
                },
                FfmpegStep::MoveExecutable(i) => if i + 1 < 2 {
                    FfmpegStep::MoveExecutable((i + 1) as usize)
                } else {
                    FfmpegStep::RemoveArchive
                },
                FfmpegStep::RemoveArchive => FfmpegStep::CloseTempDir,
                FfmpegStep::CloseTempDir => FfmpegStep::WriteMetadata,
                FfmpegStep::WriteMetadata => FfmpegStep::Finished(Ok(FfmpegInstalled::Installed)),
                FfmpegStep::DiscardArchive(err) => FfmpegStep::Finished(Err(err)),
                _ => step,
            },
        },
    }
}


/// The step reached from the first step, `CheckInstallation`, after the
/// given outcomes.
pub open spec fn ffmpeg_run(outcomes: Seq<Result<bool, String>>) -> FfmpegStep
    decreases outcomes.len(),
{
    if outcomes.len() == 0 {
        FfmpegStep::CheckInstallation
    } else {
        ffmpeg_step_after(ffmpeg_run(outcomes.drop_last()), outcomes.last())
    }
}

/// Steps that come only after the checksum was verified.
pub open spec fn after_verification(step: FfmpegStep) -> bool {
    match step {
        FfmpegStep::Extract | FfmpegStep::CheckExtraction | FfmpegStep::MoveExecutable(_)
        | FfmpegStep::RemoveArchive | FfmpegStep::CloseTempDir | FfmpegStep::WriteMetadata => true,
        FfmpegStep::Finished(Ok(FfmpegInstalled::Installed)) => true,
        _ => false,
    }
}

/// Steps that come only after both executables were found extracted.
pub open spec fn after_extraction_check(step: FfmpegStep) -> bool {
    match step {
        FfmpegStep::MoveExecutable(_) | FfmpegStep::RemoveArchive | FfmpegStep::CloseTempDir
        | FfmpegStep::WriteMetadata => true,
        FfmpegStep::Finished(Ok(FfmpegInstalled::Installed)) => true,
        _ => false,
    }
}

/// Steps from which the run can only fail.
pub open spec fn doomed(step: FfmpegStep) -> bool {
    step is DiscardArchive || step matches FfmpegStep::Finished(Err(_))
}

/// A finished run stays finished, whatever is reported.
pub proof fn lemma_finished_is_final(r: Result<FfmpegInstalled, FfmpegError>, outcome: Result<bool, String>)
    ensures
        ffmpeg_step_after(FfmpegStep::Finished(r), outcome) == FfmpegStep::Finished(r),
{
}

/// A step that fails ends the run with that step's message, except the
/// checksum verification, whose failure first discards the archive.
pub proof fn lemma_failed_step_ends_run(step: FfmpegStep, e: String)
    requires
        !(step is Finished),
        !(step is VerifyChecksum),
    ensures
        ffmpeg_step_after(step, Err(e)) == FfmpegStep::Finished(Err(FfmpegError::Step(e))),
{
}

/// Once a step other than the checksum verification has failed, the run is
/// over with that step's message, whatever is reported afterwards.
pub proof fn lemma_failure_is_final(outcomes: Seq<Result<bool, String>>, i: int, e: String)
    requires
        0 <= i < outcomes.len(),
        !(ffmpeg_run(outcomes.take(i)) is Finished),
        !(ffmpeg_run(outcomes.take(i)) is VerifyChecksum),
        outcomes[i] == Err::<bool, String>(e),
    ensures
        ffmpeg_run(outcomes) == FfmpegStep::Finished(Err(FfmpegError::Step(e))),
    decreases outcomes.len(),
{
    let n = outcomes.len() - 1;
    let prefix = outcomes.drop_last();
    if i == n {
        assert(outcomes.take(i) =~= prefix);
    } else {
        assert(prefix.take(i) =~= outcomes.take(i));
        lemma_failure_is_final(prefix, i, e);
    }
}

/// A run reports the executables already extracted only when its check for
/// them answered yes.
pub proof fn lemma_already_extracted_was_checked(outcomes: Seq<Result<bool, String>>)
    requires
        ffmpeg_run(outcomes) == FfmpegStep::Finished(Ok(FfmpegInstalled::AlreadyExtracted)),
    ensures
        exists|i: int|
            0 <= i < outcomes.len() && ffmpeg_run(#[trigger] outcomes.take(i)) is CheckExtracted
                && outcomes[i] == Ok::<bool, String>(true),
    decreases outcomes.len(),
{
    let n = outcomes.len() - 1;
    let prefix = outcomes.drop_last();
    assert(outcomes.take(n) =~= prefix);
    if ffmpeg_run(prefix) == FfmpegStep::Finished(Ok(FfmpegInstalled::AlreadyExtracted)) {
        lemma_already_extracted_was_checked(prefix);
        let i = choose|i: int|
            0 <= i < prefix.len() && ffmpeg_run(#[trigger] prefix.take(i)) is CheckExtracted
                && prefix[i] == Ok::<bool, String>(true);
        assert(prefix.take(i) =~= outcomes.take(i));
    } else {
        assert(ffmpeg_run(outcomes.take(n)) is CheckExtracted && outcomes[n] == Ok::<bool, String>(true));
    }
}

/// Every run that ends installed passed a successful checksum verification
/// of the archive and then found both executables extracted.
pub proof fn lemma_install_requires_checks(outcomes: Seq<Result<bool, String>>)
    requires
        ffmpeg_run(outcomes) == FfmpegStep::Finished(Ok(FfmpegInstalled::Installed)),
    ensures
        exists|i: int|
            0 <= i < outcomes.len() && ffmpeg_run(#[trigger] outcomes.take(i)) is VerifyChecksum
                && outcomes[i] is Ok,
        exists|j: int|
            0 <= j < outcomes.len() && ffmpeg_run(#[trigger] outcomes.take(j)) is CheckExtraction
                && outcomes[j] == Ok::<bool, String>(true),
{
    lemma_verification_witness(outcomes);
    lemma_extraction_witness(outcomes);
}

proof fn lemma_verification_witness(outcomes: Seq<Result<bool, String>>)
    requires
        after_verification(ffmpeg_run(outcomes)),
    ensures
        exists|i: int|
            0 <= i < outcomes.len() && ffmpeg_run(#[trigger] outcomes.take(i)) is VerifyChecksum
                && outcomes[i] is Ok,
    decreases outcomes.len(),
{
    let prefix = outcomes.drop_last();
    let n = outcomes.len() - 1;
    assert(outcomes.take(n) =~= prefix);
    if after_verification(ffmpeg_run(prefix)) {
        lemma_verification_witness(prefix);
        let i = choose|i: int|
            0 <= i < prefix.len() && ffmpeg_run(#[trigger] prefix.take(i)) is VerifyChecksum && prefix[i] is Ok;
        assert(prefix.take(i) =~= outcomes.take(i));
    } else {
        assert(ffmpeg_run(outcomes.take(n)) is VerifyChecksum && outcomes[n] is Ok);
    }
}

proof fn lemma_extraction_witness(outcomes: Seq<Result<bool, String>>)
    requires
        after_extraction_check(ffmpeg_run(outcomes)),
    ensures
        exists|j: int|
            0 <= j < outcomes.len() && ffmpeg_run(#[trigger] outcomes.take(j)) is CheckExtraction
                && outcomes[j] == Ok::<bool, String>(true),
    decreases outcomes.len(),
{
    let prefix = outcomes.drop_last();
    let n = outcomes.len() - 1;
    assert(outcomes.take(n) =~= prefix);
    if after_extraction_check(ffmpeg_run(prefix)) {
        lemma_extraction_witness(prefix);
        let j = choose|j: int|
            0 <= j < prefix.len() && ffmpeg_run(#[trigger] prefix.take(j)) is CheckExtraction && prefix[j]
                == Ok::<bool, String>(true);
        assert(prefix.take(j) =~= outcomes.take(j));
    } else {
        assert(ffmpeg_run(outcomes.take(n)) is CheckExtraction && outcomes[n] == Ok::<bool, String>(true));
    }
}

/// A run whose checksum verification failed never succeeds, whatever is
/// reported after it.
pub proof fn lemma_failed_checksum_never_succeeds(outcomes: Seq<Result<bool, String>>, i: int)
    requires
        0 <= i < outcomes.len(),
        ffmpeg_run(outcomes.take(i)) is VerifyChecksum,
        outcomes[i] is Err,
    ensures
        !(ffmpeg_run(outcomes) matches FfmpegStep::Finished(Ok(_))),
{
    lemma_doomed_stays(outcomes, i + 1);
}

proof fn lemma_doomed_stays(outcomes: Seq<Result<bool, String>>, k: int)
    requires
        0 < k <= outcomes.len(),
        ffmpeg_run(outcomes.take(k - 1)) is VerifyChecksum,
        outcomes[k - 1] is Err,
    ensures
        doomed(ffmpeg_run(outcomes)),
    decreases outcomes.len(),
{
    if outcomes.len() == k {
        assert(outcomes.take(k - 1) =~= outcomes.drop_last());
    } else {
        let prefix = outcomes.drop_last();
        assert(prefix.take(k - 1) =~= outcomes.take(k - 1));
        lemma_doomed_stays(prefix, k);
    }
}

/// Carries out the transition: the step after `step` with outcome `outcome`.
pub fn next_ffmpeg_step(step: FfmpegStep, outcome: Result<bool, String>) -> (n: FfmpegStep)
    ensures
        n == ffmpeg_step_after(step, outcome),
{
    match step {
        FfmpegStep::Finished(r) => FfmpegStep::Finished(r),
        FfmpegStep::VerifyChecksum => match outcome {
            Err(e) => FfmpegStep::DiscardArchive(FfmpegError::Checksum(e)),
            Ok(_) => FfmpegStep::Extract,
        },
        _ => match outcome {
            Err(e) => FfmpegStep::Finished(Err(FfmpegError::Step(e))),
            Ok(answer) => match step {
                FfmpegStep::CheckInstallation => if answer {
                    FfmpegStep::CreateTempDir
                } else {
                    FfmpegStep::RemoveExecutables
                },
                FfmpegStep::RemoveExecutables => FfmpegStep::CreateTempDir,
                FfmpegStep::CreateTempDir => FfmpegStep::BuildClient,
                FfmpegStep::BuildClient => FfmpegStep::CheckExtracted,
                FfmpegStep::CheckExtracted => if answer {
                    FfmpegStep::Finished(Ok(FfmpegInstalled::AlreadyExtracted))
                } else {
                    FfmpegStep::CreateOutputDir
                },
                FfmpegStep::CreateOutputDir => FfmpegStep::DownloadArchive,
                FfmpegStep::DownloadArchive => FfmpegStep::FetchChecksum,
                FfmpegStep::FetchChecksum => FfmpegStep::VerifyChecksum,
                FfmpegStep::Extract => FfmpegStep::CheckExtraction,
                FfmpegStep::CheckExtraction => if answer {
                    FfmpegStep::MoveExecutable(0)
                } else {
                    FfmpegStep::DiscardArchive(FfmpegError::MissingExecutables)
                },
                FfmpegStep::MoveExecutable(i) => if i < 1 {
                    FfmpegStep::MoveExecutable(i + 1)
                } else {
                    FfmpegStep::RemoveArchive
                },
                FfmpegStep::RemoveArchive => FfmpegStep::CloseTempDir,
                FfmpegStep::CloseTempDir => FfmpegStep::WriteMetadata,
                FfmpegStep::WriteMetadata => FfmpegStep::Finished(Ok(FfmpegInstalled::Installed)),
                FfmpegStep::DiscardArchive(err) => FfmpegStep::Finished(Err(err)),
                other => other,
            },
        },
    }
}

} // verus!
