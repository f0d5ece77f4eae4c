use ytstream::download_ffmpeg::{
    current_metadata, extract_executables, ffmpeg_executables, is_valid_installation, match_executable,
    next_ffmpeg_step, FFmpegMetadata, FfmpegError, FfmpegInstalled, FfmpegStep,
};
use ytstream::download_yt_dlp::{
    first_yt_dlp_step, is_yt_dlp_installed, next_yt_dlp_step, YtDlpError, YtDlpOutcome, YtDlpStep,
};

fn run_ffmpeg(outcomes: Vec<Result<bool, String>>) -> FfmpegStep {
    let mut step = FfmpegStep::CheckInstallation;
    for o in outcomes {
        step = next_ffmpeg_step(step, o);
    }
    step
}

#[test]
fn installation_validity() {
    assert!(is_valid_installation(&Some(current_metadata())));
    assert!(!is_valid_installation(&Some(FFmpegMetadata { version: "0.9.0".to_string() })));
    assert!(!is_valid_installation(&None));
    assert_eq!(current_metadata().version, "1.0.0");
}

#[test]
fn archive_entries_match_by_suffix() {
    let exes = ffmpeg_executables();
    assert_eq!(exes, vec!["ffmpeg.exe", "ffprobe.exe"]);
    assert_eq!(match_executable("ffmpeg-7.0-essentials/bin/ffmpeg.exe", &exes), Some(0));
    assert_eq!(match_executable("ffmpeg-7.0-essentials/bin/ffprobe.exe", &exes), Some(1));
    assert_eq!(match_executable("ffmpeg-7.0-essentials/bin/ffplay.exe", &exes), None);
    assert_eq!(match_executable("doc/ffmpeg.exe.txt", &exes), None);
}

#[test]
fn full_install_run() {
    let ok = Ok(true);
    let step = run_ffmpeg(vec![
        Ok(false),
        ok.clone(),
        ok.clone(),
        ok.clone(),
        Ok(false),
        ok.clone(),
        ok.clone(),
        ok.clone(),
        ok.clone(),
        ok.clone(),
        Ok(true),
        ok.clone(),
        ok.clone(),
        ok.clone(),
        ok.clone(),
    ]);
    assert!(matches!(step, FfmpegStep::WriteMetadata));
    let step = next_ffmpeg_step(step, Ok(true));
    assert!(matches!(step, FfmpegStep::Finished(Ok(FfmpegInstalled::Installed))));
}

#[test]
fn already_extracted_stops_early() {
    let step = run_ffmpeg(vec![Ok(true), Ok(true), Ok(true), Ok(true)]);
    assert!(matches!(step, FfmpegStep::Finished(Ok(FfmpegInstalled::AlreadyExtracted))));
}

#[test]
fn failed_checksum_discards_archive_and_fails() {
    let step = run_ffmpeg(vec![Ok(true), Ok(true), Ok(true), Ok(false), Ok(true), Ok(true), Ok(true)]);
    assert!(matches!(step, FfmpegStep::VerifyChecksum));
    let step = next_ffmpeg_step(step, Err("Checksum mismatch! Expected: a, Calculated: b".to_string()));
    assert!(matches!(step, FfmpegStep::DiscardArchive(FfmpegError::Checksum(_))));
    let step = next_ffmpeg_step(step, Ok(true));
    match step {
        FfmpegStep::Finished(Err(e)) => assert_eq!(
            e.message(),
            "Failed to verify checksum: Checksum mismatch! Expected: a, Calculated: b"
        ),
        _ => panic!("expected failure"),
    }
}

#[test]
fn missing_executables_fail_after_cleanup() {
    let step = run_ffmpeg(vec![Ok(true), Ok(true), Ok(true), Ok(false), Ok(true), Ok(true), Ok(true), Ok(true), Ok(true)]);
    assert!(matches!(step, FfmpegStep::CheckExtraction));
    let step = next_ffmpeg_step(step, Ok(false));
    assert!(matches!(step, FfmpegStep::DiscardArchive(FfmpegError::MissingExecutables)));
    match next_ffmpeg_step(step, Ok(true)) {
        FfmpegStep::Finished(Err(e)) => assert_eq!(e.message(), "Not all expected executables found after extraction"),
        _ => panic!("expected failure"),
    }
}

#[test]
fn failed_step_ends_the_run_with_its_error() {
    let step = run_ffmpeg(vec![Ok(true), Err("Failed to create temporary directory in output directory".to_string())]);
    match step {
        FfmpegStep::Finished(Err(FfmpegError::Step(m))) => {
            assert_eq!(m, "Failed to create temporary directory in output directory")
        }
        _ => panic!("expected failure"),
    }
    let again = next_ffmpeg_step(FfmpegStep::Finished(Ok(FfmpegInstalled::Installed)), Err("x".to_string()));
    assert!(matches!(again, FfmpegStep::Finished(Ok(FfmpegInstalled::Installed))));
}

#[test]
fn cleanup_failure_replaces_the_pending_error() {
    let step = next_ffmpeg_step(FfmpegStep::DiscardArchive(FfmpegError::MissingExecutables), Err("rm".to_string()));
    assert!(matches!(step, FfmpegStep::Finished(Err(FfmpegError::Step(m))) if m == "rm"));
}

#[test]
fn downloader_installed_check() {
    assert!(is_yt_dlp_installed(&vec!["a".to_string(), "yt-dlp.exe".to_string()]));
    assert!(!is_yt_dlp_installed(&vec!["yt-dlp".to_string()]));
    assert!(!is_yt_dlp_installed(&vec![]));
}

#[test]
fn installed_downloader_is_updated() {
    let step = first_yt_dlp_step(true);
    assert!(matches!(step, YtDlpStep::Update));
    assert!(matches!(next_yt_dlp_step(step, YtDlpOutcome::Succeeded), YtDlpStep::Finished(Ok(()))));
    match next_yt_dlp_step(YtDlpStep::Update, YtDlpOutcome::Refused("no network".to_string())) {
        YtDlpStep::Finished(Err(e)) => assert_eq!(e.message(), "Failed to update yt-dlp: no network"),
        _ => panic!("expected failure"),
    }
}

#[test]
fn download_gives_up_after_three_attempts() {
    let mut step = first_yt_dlp_step(false);
    let mut waits = 0;
    let mut attempts = 0;
    loop {
        match step {
            YtDlpStep::Download { .. } => {
                attempts += 1;
                step = next_yt_dlp_step(step, YtDlpOutcome::Refused(format!("err{}", attempts)));
            }
            YtDlpStep::Wait { secs, .. } => {
                assert_eq!(secs, 5);
                waits += 1;
                step = next_yt_dlp_step(step, YtDlpOutcome::Succeeded);
            }
            YtDlpStep::Finished(Err(e)) => {
                assert!(matches!(e, YtDlpError::DownloadFailed { attempts: 3, .. }));
                assert_eq!(e.message(), "Failed to download yt-dlp after 3 attempts: err3");
                break;
            }
            _ => panic!("unexpected step"),
        }
    }
    assert_eq!(attempts, 3);
    assert_eq!(waits, 2);
}

#[test]
fn download_success_after_retry_writes_file() {
    let step = next_yt_dlp_step(first_yt_dlp_step(false), YtDlpOutcome::Refused("e".to_string()));
    let step = next_yt_dlp_step(step, YtDlpOutcome::Succeeded);
    assert!(matches!(step, YtDlpStep::Download { retries: 1 }));
    let step = next_yt_dlp_step(step, YtDlpOutcome::Succeeded);
    assert!(matches!(step, YtDlpStep::WriteFile));
    let step = next_yt_dlp_step(step, YtDlpOutcome::Error("disk full".to_string()));
    match step {
        YtDlpStep::Finished(Err(YtDlpError::Io(m))) => assert_eq!(m, "disk full"),
        _ => panic!("expected io failure"),
    }
}

#[test]
fn downloader_installed_check_ignores_case() {
    assert!(is_yt_dlp_installed(&vec!["YT-DLP.EXE".to_string()]));
    assert!(is_yt_dlp_installed(&vec!["Yt-Dlp.exe".to_string()]));
    assert!(!is_yt_dlp_installed(&vec!["yt-dlp.exe.part".to_string()]));
}

fn seven_zip(entries: &[(&str, &[u8])]) -> Vec<u8> {
    let mut writer = sevenz_rust::SevenZWriter::new(std::io::Cursor::new(Vec::new())).unwrap();
    for (name, data) in entries {
        let mut entry = sevenz_rust::SevenZArchiveEntry::new();
        entry.name = name.to_string();
        entry.has_stream = true;
        writer.push_archive_entry(entry, Some(*data)).unwrap();
    }
    writer.finish().unwrap().into_inner()
}

fn decode(archive: &[u8], executables: &Vec<String>) -> Result<Vec<(String, Vec<u8>, Option<String>)>, String> {
    let mut found = Vec::new();
    let mut reader = sevenz_rust::SevenZReader::new(
        std::io::Cursor::new(archive),
        archive.len() as u64,
        sevenz_rust::Password::empty(),
    )
    .map_err(|e| e.to_string())?;
    reader
        .for_each_entries(|entry, data| {
            if match_executable(entry.name(), executables).is_some() {
                let mut bytes = Vec::new();
                let error = std::io::Read::read_to_end(data, &mut bytes).err().map(|e| e.to_string());
                found.push((entry.name().to_string(), bytes, error));
            }
            Ok(true)
        })
        .map_err(|e| e.to_string())?;
    Ok(found)
}

#[test]
fn executables_are_extracted_from_an_archive() {
    let archive = seven_zip(&[
        ("ffmpeg-7.0-essentials/bin/ffmpeg.exe", &b"first ffmpeg"[..]),
        ("ffmpeg-7.0-essentials/doc/readme.txt", &b"docs"[..]),
        ("ffmpeg-7.0-essentials/bin/ffprobe.exe", &b"probe"[..]),
        ("extra/ffmpeg.exe", &b"last ffmpeg"[..]),
    ]);
    let exes = ffmpeg_executables();
    let x = extract_executables(decode(&archive, &exes), &exes).unwrap();
    assert_eq!(x.files, vec![Some(b"last ffmpeg".to_vec()), Some(b"probe".to_vec())]);
    assert_eq!(
        x.report,
        vec![
            (0, "ffmpeg-7.0-essentials/bin/ffmpeg.exe".to_string(), None),
            (1, "ffmpeg-7.0-essentials/bin/ffprobe.exe".to_string(), None),
            (0, "extra/ffmpeg.exe".to_string(), None),
        ]
    );
}

#[test]
fn archive_without_the_executables_extracts_nothing() {
    let archive = seven_zip(&[("docs/readme.txt", &b"docs"[..])]);
    let exes = ffmpeg_executables();
    let x = extract_executables(decode(&archive, &exes), &exes).unwrap();
    assert_eq!(x.files, vec![None, None]);
    assert!(x.report.is_empty());
}

#[test]
fn undecodable_archive_is_an_error() {
    let exes = ffmpeg_executables();
    let decoded = decode(b"not an archive", &exes);
    assert!(decoded.is_err());
    assert_eq!(extract_executables(decoded.clone(), &exes).err(), decoded.err());
}

#[test]
fn failed_read_keeps_partial_bytes_and_is_reported() {
    let decoded = Ok(vec![
        ("bin/ffprobe.exe".to_string(), b"pro".to_vec(), Some("checksum mismatch".to_string())),
        ("bin/ffmpeg.exe".to_string(), b"mpeg".to_vec(), None),
    ]);
    let x = extract_executables(decoded, &ffmpeg_executables()).unwrap();
    assert_eq!(x.files, vec![Some(b"mpeg".to_vec()), Some(b"pro".to_vec())]);
    assert_eq!(x.report[0], (1, "bin/ffprobe.exe".to_string(), Some("checksum mismatch".to_string())));
    assert_eq!(x.report[1], (0, "bin/ffmpeg.exe".to_string(), None));
    let failed = extract_executables(Err("BadSignature".to_string()), &ffmpeg_executables());
    assert_eq!(failed.err(), Some("BadSignature".to_string()));
}
