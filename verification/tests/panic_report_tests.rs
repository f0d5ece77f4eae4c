use ytstream::panic_report::{panic_location, panic_message};

#[test]
fn panic_location_names_file_and_line() {
    assert_eq!(panic_location(Some(("src/lib.rs", 42))), "file 'src/lib.rs' at line 42");
    assert_eq!(panic_location(Some(("a.rs", 0))), "file 'a.rs' at line 0");
    assert_eq!(panic_location(None), "unknown location");
}

#[test]
fn panic_message_quotes_the_payload() {
    assert_eq!(
        panic_message("file 'src/lib.rs' at line 7", Some("boom")),
        "[RUST] file 'src/lib.rs' at line 7: panic occurred: \"boom\""
    );
    assert_eq!(
        panic_message("unknown location", Some("say \"hi\"\n")),
        "[RUST] unknown location: panic occurred: \"say \\\"hi\\\"\\n\""
    );
}

#[test]
fn panic_without_text_payload_is_unknown() {
    assert_eq!(panic_message("unknown location", None), "[RUST] unknown location: unknown panic occurred");
}
