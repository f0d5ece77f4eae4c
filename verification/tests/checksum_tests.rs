use ytstream::checksum::{get_checksum_multiple, to_hex_lower, verify_checksum, verify_digest, ChecksumError};

const ABC_SHA256: &str = "ba7816bf8f01cfea414140de5dae2223b00361a396177a9cb410ff61f20015ad";
const EMPTY_SHA256: &str = "e3b0c44298fc1c149afbf4c8996fb92427ae41e4649b934ca495991b7852b855";

#[test]
fn hex_is_lower_case_two_digits_per_byte() {
    assert_eq!(to_hex_lower(&[0x00, 0xab, 0x10, 0xff]), "00ab10ff");
    assert_eq!(to_hex_lower(&[]), "");
}

#[test]
fn checksum_of_known_data_matches() {
    assert!(verify_checksum(b"abc", ABC_SHA256).is_ok());
    assert!(verify_checksum(b"", EMPTY_SHA256).is_ok());
}

#[test]
fn checksum_mismatch_reports_both_values() {
    match verify_checksum(b"abc", "deadbeef") {
        Err(ChecksumError::Mismatch { expected, calculated }) => {
            assert_eq!(expected, "deadbeef");
            assert_eq!(calculated, ABC_SHA256);
        }
        _ => panic!("expected a mismatch"),
    }
}

#[test]
fn checksum_comparison_is_exact() {
    let upper = ABC_SHA256.to_uppercase();
    assert!(verify_checksum(b"abc", &upper).is_err());
    let with_newline = format!("{}\n", ABC_SHA256);
    assert!(verify_checksum(b"abc", &with_newline).is_err());
}

#[test]
fn digest_is_compared_as_hex() {
    assert!(verify_digest(&[0x01, 0x02], "0102").is_ok());
    assert!(verify_digest(&[0x01, 0x02], "0103").is_err());
}

#[test]
fn mismatch_message() {
    let e = ChecksumError::Mismatch { expected: "a".to_string(), calculated: "b".to_string() };
    assert_eq!(e.message(), "Checksum mismatch! Expected: a, Calculated: b");
    assert_eq!(ChecksumError::InvalidFormat.message(), "Invalid checksum format");
}

#[test]
fn listing_lookup_takes_first_field_of_first_matching_line() {
    let listing = "1111 other.zip\n2222  yt-dlp.exe\n3333 yt-dlp.exe\n";
    assert_eq!(get_checksum_multiple(listing, "yt-dlp.exe").unwrap(), "2222");
}

#[test]
fn listing_lookup_handles_crlf_and_missing_final_newline() {
    let listing = "aaaa x.exe\r\nbbbb y.exe";
    assert_eq!(get_checksum_multiple(listing, "x.exe").unwrap(), "aaaa");
    assert_eq!(get_checksum_multiple(listing, "y.exe").unwrap(), "bbbb");
}

#[test]
fn listing_line_without_space_is_taken_whole() {
    assert_eq!(get_checksum_multiple("abcdef.exe", "def.exe").unwrap(), "abcdef.exe");
}

#[test]
fn listing_without_entry_is_invalid_format() {
    assert!(matches!(get_checksum_multiple("aaaa x.exe\n", "y.exe"), Err(ChecksumError::InvalidFormat)));
    assert!(matches!(get_checksum_multiple("", ""), Err(ChecksumError::InvalidFormat)));
}

#[test]
fn bare_carriage_return_at_end_is_kept() {
    // The last line has no line feed, so its carriage return stays part of it.
    assert!(get_checksum_multiple("aaaa x.exe\r", "x.exe").is_err());
    assert_eq!(get_checksum_multiple("aaaa x.exe\r\n", "x.exe").unwrap(), "aaaa");
}

#[test]
fn empty_name_matches_first_line() {
    assert_eq!(get_checksum_multiple("first line\nsecond", "").unwrap(), "first");
}

fn reference_lookup(listing: &str, name: &str) -> Option<String> {
    listing
        .lines()
        .find(|line| line.ends_with(name))
        .map(|line| line.split(' ').next().unwrap().to_string())
}

#[test]
fn listing_lookup_agrees_with_std_lines() {
    let listings = [
        "",
        "\n",
        "a b\n\nc d",
        "x y.exe\r\n\r\nz y.exe\n",
        "x y.exe\r",
        "\r\n\r\n",
        "hash1 ffmpeg.7z\nhash2 ffmpeg.7z.sha256\n",
        "no-space-line.exe\n trailing.exe",
    ];
    let names = ["", "y.exe", "ffmpeg.7z", "d", "\r", ".exe", "trailing.exe"];
    for listing in listings {
        for name in names {
            let ours = get_checksum_multiple(listing, name).ok();
            assert_eq!(ours, reference_lookup(listing, name), "listing {:?} name {:?}", listing, name);
        }
    }
}
