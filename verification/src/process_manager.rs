//! Decisions of the helper-process pipeline: the command lines of the
//! decoder and the downloader, the decoding of raw sample bytes, the
//! inactivity timeout and the handling of each read from the decoder.

use vstd::prelude::*;

use crate::text::{append_decimal, decimal};
use crate::{CHANNELS, SAMPLE_RATE};

verus! {

/// Inactivity after which the decoder is considered stalled, in nanoseconds.
pub const TIMEOUT_NANOS: u64 = 20_000_000_000;

/// Metadata of a video as the downloader reports it.
pub struct YtDlpMetadata {
    pub title: String,
    pub uploader: Option<String>,
    pub duration: Option<u64>,
    pub webpage_url: Option<String>,
    pub thumbnail: Option<String>,
}

/// The character sequences of a list of strings.
pub open spec fn views(v: Seq<String>) -> Seq<Seq<char>> {
    v.map_values(|s: String| s@)
}

fn owned(s: &str) -> (r: String)
    ensures
        r@ == s@,
{
    s.to_owned()
}

fn decimal_string(n: u64) -> (r: String)
    ensures
        r@ == decimal(n as nat),
{
    let mut r = String::new();
    append_decimal(&mut r, n);
    r
}

/// Arguments of the decoder: raw input on stdin, 32-bit little-endian float
/// PCM at `SAMPLE_RATE` with `CHANNELS` channels on stdout.
pub fn ffmpeg_args() -> (args: Vec<String>)
    ensures
        views(args@) == seq![
            "-i"@,
            "pipe:0"@,
            "-f"@,
            "f32le"@,
            "-acodec"@,
            "pcm_f32le"@,
            "-ar"@,
            decimal(SAMPLE_RATE as nat),
            "-ac"@,
            decimal(CHANNELS as nat),
            "pipe:1"@,
        ],
{
    let mut args: Vec<String> = Vec::new();
    args.push(owned("-i"));
    args.push(owned("pipe:0"));
    args.push(owned("-f"));
    args.push(owned("f32le"));
    args.push(owned("-acodec"));
    args.push(owned("pcm_f32le"));
    args.push(owned("-ar"));
    args.push(decimal_string(SAMPLE_RATE as u64));
    args.push(owned("-ac"));
    args.push(decimal_string(CHANNELS as u64));
    args.push(owned("pipe:1"));
    assert(views(args@) =~= seq![
        "-i"@,
        "pipe:0"@,
        "-f"@,
        "f32le"@,
        "-acodec"@,
        "pcm_f32le"@,
        "-ar"@,
        decimal(SAMPLE_RATE as nat),
        "-ac"@,
        decimal(CHANNELS as nat),
        "pipe:1"@,
    ]);
    args
}

/// Arguments of the downloader that streams the best audio of `url` to
/// stdout at a limited rate.
pub fn ytdlp_stream_args(url: &str) -> (args: Vec<String>)
    ensures
        views(args@) == seq!["-f"@, "bestaudio/best"@, "-o"@, "-"@, "--limit-rate"@, "300K"@, url@],
{
    let mut args: Vec<String> = Vec::new();
    args.push(owned("-f"));
    args.push(owned("bestaudio/best"));
    args.push(owned("-o"));
    args.push(owned("-"));
    args.push(owned("--limit-rate"));
    args.push(owned("300K"));
    args.push(owned(url));
    assert(views(args@) =~= seq!["-f"@, "bestaudio/best"@, "-o"@, "-"@, "--limit-rate"@, "300K"@, url@]);
    args
}

/// Arguments of the downloader that prints the metadata of the first item
/// of `url` as JSON.
pub fn ytdlp_metadata_args(url: &str) -> (args: Vec<String>)
    ensures
        views(args@) == seq![
            "--dump-json"@,
            "--ignore-errors"@,
            "--quiet"@,
            "--playlist-items"@,
            "1"@,
            url@,
        ],
{
    let mut args: Vec<String> = Vec::new();
    args.push(owned("--dump-json"));
    args.push(owned("--ignore-errors"));
    args.push(owned("--quiet"));
    args.push(owned("--playlist-items"));
    args.push(owned("1"));
    args.push(owned(url));
    assert(views(args@) =~= seq![
        "--dump-json"@,
        "--ignore-errors"@,
        "--quiet"@,
        "--playlist-items"@,
        "1"@,
        url@,
    ]);
    args
}

/// The concatenation of `parts`.
pub open spec fn concat(parts: Seq<Seq<char>>) -> Seq<char>
    decreases parts.len(),
{
    if parts.len() == 0 {
        seq![]
    } else {
        concat(parts.drop_last()) + parts.last()
    }
}

/// The downloader's output read line by line, joined without separators:
/// the JSON text handed to the metadata parser.
pub fn join_output_lines(lines: &Vec<String>) -> (text: String)
    ensures
        text@ == concat(views(lines@)),
{
    let mut text = String::new();
    let n = lines.len();
    for i in 0..n
        invariant
            n == lines@.len(),
            text@ == concat(views(lines@.take(i as int))),
    {
        text.append(lines[i].as_str());
        assert(views(lines@.take(i + 1)).drop_last() =~= views(lines@.take(i as int)));
        assert(views(lines@.take(i + 1)).last() == lines@[i as int]@);
    }
    assert(lines@.take(n as int) =~= lines@);
    text
}

/// The little-endian unsigned value of four bytes.
pub open spec fn le_u32(b0: u8, b1: u8, b2: u8, b3: u8) -> int {
    b0 + 256 * b1 + 65536 * b2 + 16777216 * b3
}

/// The 32-bit samples in the first `n` bytes of `bytes`, four little-endian
/// bytes each; a trailing partial sample is dropped.
pub open spec fn decode_samples(bytes: Seq<u8>, n: int) -> Seq<u32> {
    Seq::new(
        (n / 4) as nat,
        |i: int| le_u32(bytes[4 * i], bytes[4 * i + 1], bytes[4 * i + 2], bytes[4 * i + 3]) as u32,
    )
}

/// Decodes the first `n` bytes read from the decoder into sample bit
/// patterns (the decoder writes 32-bit little-endian floats).
pub fn bytes_to_samples(bytes: &[u8], n: usize) -> (samples: Vec<u32>)
    requires
        n <= bytes@.len(),
    ensures
        samples@ == decode_samples(bytes@, n as int),
{
    let count = n / 4;
    let mut samples: Vec<u32> = Vec::new();
    for i in 0..count
        invariant
            count == n / 4,
            n <= bytes@.len(),
            samples@.len() == i,
            forall|j: int| 0 <= j < i ==> #[trigger] samples@[j] == decode_samples(bytes@, n as int)[j],
    {
        let k = 4 * i;
        let v: u32 = bytes[k] as u32 + 256 * (bytes[k + 1] as u32) + 65536 * (bytes[k + 2] as u32)
            + 16777216 * (bytes[k + 3] as u32);
        samples.push(v);
    }
    assert(samples@ =~= decode_samples(bytes@, n as int));
    samples
}

/// The decoder has produced nothing for longer than the timeout: more than
/// `TIMEOUT_NANOS` separate the last output from now (a clock reading
/// earlier than the last output counts as no time passed).
pub fn is_timed_out(last_received_nanos: u64, now_nanos: u64) -> (r: bool)
    ensures
        r == (now_nanos > last_received_nanos && now_nanos - last_received_nanos > TIMEOUT_NANOS),
{
    now_nanos > last_received_nanos && now_nanos - last_received_nanos > TIMEOUT_NANOS
}

/// What one read from the decoder's stdout returned.
pub enum ReadOutcome {
    /// `n` bytes were read; zero means the stream ended.
    Data(usize),
    /// No data is available yet.
    WouldBlock,
    /// Any other read error.
    Failed,
}

/// What the reader does next.
#[derive(PartialEq, Eq, Structural)]
pub enum ReadAction {
    /// Decode the bytes read and forward the samples.
    Forward,
    /// Sleep `millis` milliseconds, then read again.
    Wait { millis: u64 },
    /// Stop reading.
    Stop,
}

/// Decides how the reader reacts to one read from the decoder.
pub fn on_decoder_read(outcome: &ReadOutcome) -> (a: ReadAction)
    ensures
        a == match outcome {
            ReadOutcome::Data(n) => if *n == 0 { ReadAction::Stop } else { ReadAction::Forward },
            ReadOutcome::WouldBlock => ReadAction::Wait { millis: 10 },
            ReadOutcome::Failed => ReadAction::Stop,
        },
{
    match outcome {
        ReadOutcome::Data(n) => if *n == 0 {
            ReadAction::Stop
        } else {
            ReadAction::Forward
        },
        ReadOutcome::WouldBlock => ReadAction::Wait { millis: 10 },
        ReadOutcome::Failed => ReadAction::Stop,
    }
}

} // verus!
