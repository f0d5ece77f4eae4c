//! The text with which a panic is reported to the engine.

use vstd::prelude::*;

use crate::text::{append_decimal, decimal};

verus! {

/// The `{:?}` rendering of a string: the string in double quotes with its
/// special characters escaped, as `<str as Debug>::fmt` writes it.
pub uninterp spec fn debug_quoted(s: Seq<char>) -> Seq<char>;

/// Formats `s` with `{:?}` (`<str as Debug>::fmt`). Trusted: the result is
/// the rendering named `debug_quoted` of `s`; which characters are escaped,
/// and how, is left to std and not stated.
#[verifier::external_body]
fn debug_quote(s: &str) -> (r: String)
    ensures
        r@ == debug_quoted(s@),
{
    format!("{:?}", s)
}

/// Where a panic happened: `file '<file>' at line <line>`, or
/// `unknown location` when the panic carries no location.
pub fn panic_location(location: Option<(&str, u32)>) -> (s: String)
    ensures
        match location {
            Some((file, line)) => s@ == "file '"@ + file@ + "' at line "@ + decimal(line as nat),
            None => s@ == "unknown location"@,
        },
{
    match location {
        Some((file, line)) => {
            let mut s = "file '".to_owned();
            s.append(file);
            s.append("' at line ");
            append_decimal(&mut s, line as u64);
            s
        },
        None => "unknown location".to_owned(),
    }
}

/// The report of a panic at `location` (as `panic_location` writes it):
/// with a text payload, the payload in `{:?}` form; without one, that the
/// panic is unknown.
pub fn panic_message(location: &str, payload: Option<&str>) -> (m: String)
    ensures
        match payload {
            Some(p) => m@ == "[RUST] "@ + location@ + ": panic occurred: "@ + debug_quoted(p@),
            None => m@ == "[RUST] "@ + location@ + ": unknown panic occurred"@,
        },
{
    let mut m = "[RUST] ".to_owned();
    m.append(location);
    match payload {
        Some(p) => {
            m.append(": panic occurred: ");
            let quoted = debug_quote(p);
            m.append(quoted.as_str());
        },
        None => {
            m.append(": unknown panic occurred");
        },
    }
    m
}

} // verus!
