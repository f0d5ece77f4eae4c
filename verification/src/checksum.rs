//! SHA-256 checksums of downloaded archives and the lookup of a binary's
//! checksum in a published checksum listing.

use sha2::Digest;
use vstd::prelude::*;

use crate::text::{
    chars_end_with, chars_of, ends_with, first_field, first_field_of, is_prefix, lemma_scan_prefix_of_lines,
    lines, push_char, scan_lines, strip_cr, string_from_chars,
};

verus! {

/// The SHA-256 digest of `data`, as the `sha2` crate computes it.
pub uninterp spec fn sha256(data: Seq<u8>) -> Seq<u8>;

/// Calls `sha2::Sha256::digest`. Trusted: the result is the digest named
/// `sha256` of the input bytes, and it is 32 bytes long (the `U32` output
/// size of `Sha256`); nothing else about the hash function is claimed.
#[verifier::external_body]
fn sha256_digest(data: &[u8]) -> (digest: Vec<u8>)
    ensures
        digest@ == sha256(data@),
        digest@.len() == 32,
{
    sha2::Sha256::digest(data).to_vec()
}

/// The lower-case hexadecimal digit for `d`, which is below sixteen.
pub open spec fn hex_digit(d: nat) -> char {
    if d < 10 {
        (48 + d) as char
    } else {
        (87 + d) as char
    }
}

/// Two lower-case hexadecimal digits per byte, high nibble first: the
/// `{:x}` rendering of a digest.
pub open spec fn hex_lower(bytes: Seq<u8>) -> Seq<char>
    decreases bytes.len(),
{
    if bytes.len() == 0 {
        seq![]
    } else {
        hex_lower(bytes.drop_last()) + seq![
            hex_digit(bytes.last() as nat / 16),
            hex_digit(bytes.last() as nat % 16),
        ]
    }
}

fn hex_digit_char(d: u8) -> (c: char)
    requires
        d < 16,
    ensures
        c == hex_digit(d as nat),
{
    if d < 10 {
        let b: u8 = d + 48;
        b as char
    } else {
        let b: u8 = d + 87;
        b as char
    }
}

/// Renders `bytes` as lower-case hexadecimal.
pub fn to_hex_lower(bytes: &[u8]) -> (s: String)
    ensures
        s@ == hex_lower(bytes@),
{
    let mut s = String::new();
    let n = bytes.len();
    for i in 0..n
        invariant
            n == bytes@.len(),
            s@ == hex_lower(bytes@.take(i as int)),
    {
        let b = bytes[i];
        push_char(&mut s, hex_digit_char(b / 16));
        push_char(&mut s, hex_digit_char(b % 16));
        assert(bytes@.take(i + 1).drop_last() =~= bytes@.take(i as int));
    }
    assert(bytes@.take(n as int) =~= bytes@);
    s
}

/// Why a checksum was refused.
#[derive(Debug)]
pub enum ChecksumError {
    /// The computed checksum differs from the expected one.
    Mismatch { expected: String, calculated: String },
    /// The checksum listing has no line for the binary.
    InvalidFormat,
}

impl ChecksumError {
    /// The text of the error.
    pub fn message(&self) -> (m: String)
        ensures
            match self {
                ChecksumError::Mismatch { expected, calculated } => m@ == "Checksum mismatch! Expected: "@
                    + expected@ + ", Calculated: "@ + calculated@,
                ChecksumError::InvalidFormat => m@ == "Invalid checksum format"@,
            },
    {
        match self {
            ChecksumError::Mismatch { expected, calculated } => {
                let mut m = "Checksum mismatch! Expected: ".to_owned();
                m.append(expected.as_str());
                m.append(", Calculated: ");
                m.append(calculated.as_str());
                m
            },
            ChecksumError::InvalidFormat => "Invalid checksum format".to_owned(),
        }
    }
}

/// Compares a digest with the expected checksum text.
pub fn verify_digest(digest: &[u8], expected_checksum: &str) -> (r: Result<(), ChecksumError>)
    ensures
        r is Ok <==> hex_lower(digest@) == expected_checksum@,
        r matches Err(e) ==> (e matches ChecksumError::Mismatch { expected, calculated }
            && expected@ == expected_checksum@ && calculated@ == hex_lower(digest@)),
{
    let calculated = to_hex_lower(digest);
    let expected = expected_checksum.to_owned();
    if calculated == expected {
        Ok(())
    } else {
        Err(ChecksumError::Mismatch { expected, calculated })
    }
}

/// Checks that the SHA-256 digest of `data`, in lower-case hexadecimal, is
/// exactly `expected_checksum`.
pub fn verify_checksum(data: &[u8], expected_checksum: &str) -> (r: Result<(), ChecksumError>)
    ensures
        r is Ok <==> hex_lower(sha256(data@)) == expected_checksum@,
        r matches Err(e) ==> (e matches ChecksumError::Mismatch { expected, calculated }
            && expected@ == expected_checksum@ && calculated@ == hex_lower(sha256(data@))),
{
    let digest = sha256_digest(data);
    verify_digest(digest.as_slice(), expected_checksum)
}


/// The first field of the first line in `ls` that ends with `name`; `None`
/// when no line does.
pub open spec fn first_entry(ls: Seq<Seq<char>>, name: Seq<char>) -> Option<Seq<char>>
    decreases ls.len(),
{
    if ls.len() == 0 {
        None
    } else if ends_with(ls[0], name) {
        Some(first_field(ls[0]))
    } else {
        first_entry(ls.drop_first(), name)
    }
}

/// Lines that do not end with `name` can be skipped when looking for the
/// first one that does.
proof fn lemma_first_entry_skip(ls: Seq<Seq<char>>, name: Seq<char>, p: int)
    requires
        0 <= p <= ls.len(),
        forall|k: int| 0 <= k < p ==> !ends_with(#[trigger] ls[k], name),
    ensures
        first_entry(ls, name) == first_entry(ls.skip(p), name),
    decreases p,
{
    if p > 0 {
        assert forall|k: int| 0 <= k < p - 1 implies !ends_with(#[trigger] ls.drop_first()[k], name) by {
            assert(ls.drop_first()[k] == ls[k + 1]);
        }
        lemma_first_entry_skip(ls.drop_first(), name, p - 1);
        assert(ls.drop_first().skip(p - 1) =~= ls.skip(p));
    } else {
        assert(ls.skip(0) =~= ls);
    }
}

/// Finds the checksum of `binary_name` in a checksum listing: the text
/// before the first space of the first line that ends with `binary_name`.
pub fn get_checksum_multiple(listing: &str, binary_name: &str) -> (r: Result<String, ChecksumError>)
    ensures
        match r {
            Ok(c) => first_entry(lines(listing@), binary_name@) == Some(c@),
            Err(e) => first_entry(lines(listing@), binary_name@) is None && e is InvalidFormat,
        },
{
    let text = chars_of(listing);
    let name = chars_of(binary_name);
    let mut cur: Vec<char> = Vec::new();
    let ghost mut done: Seq<Seq<char>> = seq![];
    let n = text.len();
    assert(text@.take(0) =~= Seq::<char>::empty());
    for i in 0..n
        invariant
            n == text@.len(),
            text@ == listing@,
            name@ == binary_name@,
            scan_lines(text@.take(i as int)) == (done, cur@),
            forall|k: int| 0 <= k < done.len() ==> !ends_with(#[trigger] done[k], name@),
    {
        let ghost before = done;
        assert(text@.take(i + 1).drop_last() =~= text@.take(i as int));
        assert(text@.take(i + 1).last() == text@[i as int]);
        if text[i] == '\n' {
            if cur.len() > 0 && cur[cur.len() - 1] == '\r' {
                cur.pop();
            }
            proof {
                done = done.push(cur@);
            }
            assert(scan_lines(text@.take(i + 1)).0 == done);
            if chars_end_with(&cur, &name) {
                proof {
                    let ls = lines(listing@);
                    lemma_scan_prefix_of_lines(text@, i + 1);
                    assert(is_prefix(done, ls));
                    let p = before.len() as int;
                    assert forall|k: int| 0 <= k < p implies !ends_with(#[trigger] ls[k], name@) by {
                        assert(ls[k] == done[k]);
                        assert(done[k] == before[k]);
                    }
                    lemma_first_entry_skip(ls, name@, p);
                    assert(ls.skip(p)[0] == ls[p]);
                    assert(ls[p] == done[p]);
                }
                let field = first_field_of(&cur);
                return Ok(string_from_chars(&field));
            }
            cur = Vec::new();
            assert forall|k: int| 0 <= k < done.len() implies !ends_with(#[trigger] done[k], name@) by {
                if k < before.len() {
                    assert(done[k] == before[k]);
                }
            }
        } else {
            cur.push(text[i]);
        }
    }
    proof {
        assert(text@.take(n as int) =~= text@);
    }
    if cur.len() > 0 && chars_end_with(&cur, &name) {
        proof {
            let ls = lines(listing@);
            assert(ls == done.push(cur@));
            assert forall|k: int| 0 <= k < done.len() implies !ends_with(#[trigger] ls[k], name@) by {
                assert(ls[k] == done[k]);
            }
            lemma_first_entry_skip(ls, name@, done.len() as int);
            assert(ls.skip(done.len() as int)[0] == cur@);
        }
        let field = first_field_of(&cur);
        return Ok(string_from_chars(&field));
    }
    proof {
        let ls = lines(listing@);
        assert forall|k: int| 0 <= k < done.len() implies !ends_with(#[trigger] ls[k], name@) by {
            if cur@.len() == 0 {
                assert(ls == done);
            } else {
                assert(ls[k] == done.push(cur@)[k]);
            }
        }
        lemma_first_entry_skip(ls, name@, done.len() as int);
        if cur@.len() == 0 {
            assert(ls.skip(done.len() as int) =~= Seq::<Seq<char>>::empty());
        } else {
            let rest = ls.skip(done.len() as int);
            assert(rest.len() == 1 && rest[0] == cur@);
            assert(!ends_with(cur@, name@));
            assert(rest.drop_first() =~= Seq::<Seq<char>>::empty());
            assert(first_entry(rest.drop_first(), name@) is None);
            assert(first_entry(rest, name@) is None);
        }
        assert(first_entry(ls, name@) is None);
    }
    Err(ChecksumError::InvalidFormat)
}

} // verus!
