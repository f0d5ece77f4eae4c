//! The sample buffer between the decoder and the audio playback, and the
//! rule for how many stereo frames are handed to the playback per cycle.
//!
//! Samples are 32-bit floats; the buffer holds their bit patterns
//! (`f32::to_bits`), so that every sample is handed on unchanged.

use std::collections::VecDeque;
use vstd::prelude::*;

verus! {

/// Minimum time between two processing cycles, in microseconds.
pub const PROCESS_INTERVAL_MICROS: u64 = 5000;

/// Buffers decoded samples and hands them to the playback in stereo frames.
pub struct AudioProcessor {
    buffer: VecDeque<u32>,
    buffer_size: i32,
    samples_processed: usize,
    last_process_time: u64,
    process_interval: u64,
    buffer_threshold: usize,
}

/// Time from `last` to `now`, zero when `now` is earlier.
pub open spec fn elapsed(now: u64, last: u64) -> int {
    if now >= last {
        now - last
    } else {
        0
    }
}

/// The number of samples one cycle takes: at most `buffer_size` and at most
/// two per available frame, but never more than the even part of what is
/// buffered. A negative limit counts as a huge unsigned number, so it takes
/// the whole even part.
pub open spec fn samples_to_process(buffer_size: i32, frames_available: i32, buffered: nat) -> int {
    let doubled = 2 * frames_available;
    let max_samples = if buffer_size < doubled {
        buffer_size as int
    } else {
        doubled
    };
    let even = buffered - buffered % 2;
    if max_samples < 0 || max_samples >= even {
        even
    } else {
        max_samples
    }
}

/// Stereo frames taken for `samples` samples (one per started pair).
pub open spec fn frame_count(samples: int) -> int {
    (samples + 1) / 2
}

/// The first `k` stereo frames of `samples`: frame `j` is
/// `(samples[2j], samples[2j + 1])`.
pub open spec fn pair_up(samples: Seq<u32>, k: int) -> Seq<(u32, u32)> {
    Seq::new(k as nat, |j: int| (samples[2 * j], samples[2 * j + 1]))
}

/// The samples of `frames`, left before right, frame after frame.
pub open spec fn flatten(frames: Seq<(u32, u32)>) -> Seq<u32>
    decreases frames.len(),
{
    if frames.len() == 0 {
        seq![]
    } else {
        flatten(frames.drop_last()) + seq![frames.last().0, frames.last().1]
    }
}

/// No sample is lost, duplicated or reordered on its way to the playback:
/// the frames a cycle takes, followed by what stays buffered, are exactly
/// the samples that were buffered.
pub proof fn lemma_frames_preserve_samples(samples: Seq<u32>, k: int)
    requires
        0 <= k,
        2 * k <= samples.len(),
    ensures
        flatten(pair_up(samples, k)) + samples.skip(2 * k) == samples,
        flatten(pair_up(samples, k)) == samples.take(2 * k),
    decreases k,
{
    if k > 0 {
        lemma_frames_preserve_samples(samples, k - 1);
        assert(pair_up(samples, k).drop_last() =~= pair_up(samples, k - 1));
        assert(samples.take(2 * k) =~= samples.take(2 * (k - 1)) + seq![samples[2 * k - 2], samples[2 * k - 1]]);
    } else {
        assert(pair_up(samples, 0) =~= Seq::<(u32, u32)>::empty());
        assert(samples.take(0) =~= Seq::<u32>::empty());
    }
    assert(samples.take(2 * k) + samples.skip(2 * k) =~= samples);
}

/// A cycle never takes more than it may: never past the even part of the
/// buffer, never more frames than the playback has room for, and never more
/// samples than `buffer_size`, as long as neither limit is negative (a
/// negative limit reads as unbounded).
pub proof fn lemma_cycle_bounds(buffer_size: i32, frames_available: i32, buffered: nat)
    ensures
        0 <= samples_to_process(buffer_size, frames_available, buffered),
        2 * frame_count(samples_to_process(buffer_size, frames_available, buffered)) <= buffered,
        frames_available > 0 && buffer_size >= 0 ==> frame_count(samples_to_process(buffer_size, frames_available, buffered))
            <= frames_available,
        buffer_size >= 0 && frames_available >= 0 ==> samples_to_process(buffer_size, frames_available, buffered)
            <= buffer_size,
{
}

/// What a cycle leaves buffered is a suffix of what was buffered, with the
/// same parity, and the frames handed over plus half the buffered samples
/// stay the same; the count of frames handed over never decreases. When
/// the size limit is not negative and the free frames are between zero and
/// half the largest `i32`, doubling the free frames does not overflow.
pub proof fn lemma_cycle_conserves(buffer: Seq<u32>, processed: int, buffer_size: i32, frames_available: i32)
    ensures
        ({
            let k = frame_count(samples_to_process(buffer_size, frames_available, buffer.len()));
            let rest = buffer.skip(2 * k);
            &&& 0 <= k
            &&& rest == buffer.subrange(buffer.len() - rest.len(), buffer.len() as int)
            &&& rest.len() % 2 == buffer.len() % 2
            &&& processed + k + rest.len() / 2 == processed + buffer.len() / 2
            &&& processed <= processed + k
        }),
        buffer_size >= 0 && 0 <= frames_available <= i32::MAX / 2 ==> i32::MIN <= 2 * frames_available <= i32::MAX,
{
    lemma_cycle_bounds(buffer_size, frames_available, buffer.len());
    let k = frame_count(samples_to_process(buffer_size, frames_available, buffer.len()));
    assert(buffer.skip(2 * k) =~= buffer.subrange(2 * k, buffer.len() as int));
}

/// A cycle takes the least of its limits: it takes no more than the size
/// limit, two samples per free frame and the even part of the buffer, and
/// exactly one of them; so when the size limit and the buffer both leave
/// room for every free frame, exactly `frames_available` stereo frames are
/// handed over.
pub proof fn lemma_cycle_takes_least_limit(buffer_size: i32, frames_available: i32, buffered: nat)
    requires
        buffer_size >= 0,
        frames_available >= 0,
    ensures
        ({
            let s = samples_to_process(buffer_size, frames_available, buffered);
            let even = buffered - buffered % 2;
            &&& s <= buffer_size
            &&& s <= 2 * frames_available
            &&& s <= even
            &&& (s == buffer_size || s == 2 * frames_available || s == even)
        }),
        2 * frames_available <= buffer_size && 2 * frames_available <= buffered ==> frame_count(
            samples_to_process(buffer_size, frames_available, buffered),
        ) == frames_available,
{
}

impl AudioProcessor {
    /// Buffered samples (bit patterns), oldest first, interleaved left/right.
    pub closed spec fn spec_buffer(&self) -> Seq<u32> {
        self.buffer@
    }

    /// Number of stereo frames handed to the playback so far.
    pub closed spec fn spec_samples_processed(&self) -> usize {
        self.samples_processed
    }

    /// Buffered samples needed before playback starts.
    pub closed spec fn spec_buffer_threshold(&self) -> usize {
        self.buffer_threshold
    }

    pub closed spec fn spec_buffer_size(&self) -> i32 {
        self.buffer_size
    }

    pub closed spec fn spec_last_process_time(&self) -> u64 {
        self.last_process_time
    }

    pub closed spec fn spec_process_interval(&self) -> u64 {
        self.process_interval
    }

    /// A cycle at `now` passes the interval check and finds the player
    /// playing, samples buffered and frames available: the point where a
    /// cycle computes twice the available frames.
    pub open spec fn cycle_reaches_count(&self, now: u64, is_playing: bool, frames_available: i32) -> bool {
        &&& elapsed(now, self.spec_last_process_time()) >= self.spec_process_interval()
        &&& is_playing
        &&& self.spec_buffer().len() > 0
        &&& frames_available != 0
    }

    /// An empty processor created at time `now_micros`.
    pub fn new(buffer_size: i32, buffer_threshold: usize, now_micros: u64) -> (p: Self)
        ensures
            p.spec_buffer() == Seq::<u32>::empty(),
            p.spec_buffer_size() == buffer_size,
            p.spec_samples_processed() == 0,
            p.spec_last_process_time() == now_micros,
            p.spec_process_interval() == PROCESS_INTERVAL_MICROS,
            p.spec_buffer_threshold() == buffer_threshold,
    {
        AudioProcessor {
            buffer: VecDeque::new(),
            buffer_size,
            samples_processed: 0,
            buffer_threshold,
            last_process_time: now_micros,
            process_interval: PROCESS_INTERVAL_MICROS,
        }
    }

    /// Drops every buffered sample and restarts the frame count.
    pub fn clear_buffer(&mut self)
        ensures
            final(self).spec_buffer() == Seq::<u32>::empty(),
            final(self).spec_samples_processed() == 0,
            final(self).spec_buffer_threshold() == old(self).spec_buffer_threshold(),
            final(self).spec_buffer_size() == old(self).spec_buffer_size(),
            final(self).spec_last_process_time() == old(self).spec_last_process_time(),
            final(self).spec_process_interval() == old(self).spec_process_interval(),
    {
        self.buffer.clear();
        self.samples_processed = 0;
    }

    /// Appends decoded samples at the back of the buffer.
    pub fn extend_buffer(&mut self, samples: &Vec<u32>)
        ensures
            final(self).spec_buffer() == old(self).spec_buffer() + samples@,
            final(self).spec_samples_processed() == old(self).spec_samples_processed(),
            final(self).spec_buffer_threshold() == old(self).spec_buffer_threshold(),
            final(self).spec_buffer_size() == old(self).spec_buffer_size(),
            final(self).spec_last_process_time() == old(self).spec_last_process_time(),
            final(self).spec_process_interval() == old(self).spec_process_interval(),
    {
        let n = samples.len();
        let ghost start = self.buffer@;
        for i in 0..n
            invariant
                n == samples@.len(),
                self.buffer@ == start + samples@.take(i as int),
                self.samples_processed == old(self).samples_processed,
                self.buffer_threshold == old(self).buffer_threshold,
                self.buffer_size == old(self).buffer_size,
                self.last_process_time == old(self).last_process_time,
                self.process_interval == old(self).process_interval,
        {
            self.buffer.push_back(samples[i]);
            assert(samples@.take(i + 1) =~= samples@.take(i as int).push(samples@[i as int]));
            assert(start + samples@.take(i + 1) =~= (start + samples@.take(i as int)).push(samples@[i as int]));
        }
        assert(samples@.take(n as int) =~= samples@);
    }

    /// The number of buffered samples.
    pub fn buffer_len(&self) -> (n: usize)
        ensures
            n == self.spec_buffer().len(),
    {
        self.buffer.len()
    }

    /// The number of stereo frames handed to the playback so far.
    pub fn samples_processed(&self) -> (n: usize)
        ensures
            n == self.spec_samples_processed(),
    {
        self.samples_processed
    }

    /// Playback should start: the player is stopped and at least
    /// `buffer_threshold` samples are buffered.
    pub fn ready_to_play(&self, is_playing: bool) -> (r: bool)
        ensures
            r == (!is_playing && self.spec_buffer().len() >= self.spec_buffer_threshold()),
    {
        !is_playing && self.buffer.len() >= self.buffer_threshold
    }

    /// Whether a processing cycle at time `now_micros` goes past the interval
    /// check: at least `process_interval` microseconds have passed since the
    /// last cycle that did.
    pub fn interval_elapsed(&self, now_micros: u64) -> (r: bool)
        ensures
            r == (elapsed(now_micros, self.spec_last_process_time()) >= self.spec_process_interval()),
    {
        let elapsed_micros = if now_micros >= self.last_process_time {
            now_micros - self.last_process_time
        } else {
            0
        };
        elapsed_micros >= self.process_interval
    }

    /// One processing cycle at time `now_micros`. Returns the stereo frames
    /// to hand to the playback, or `None` when nothing is handed over.
    pub fn process_samples(&mut self, now_micros: u64, is_playing: bool, frames_available: i32) -> (r:
        Option<Vec<(u32, u32)>>)
        requires
            old(self).cycle_reaches_count(now_micros, is_playing, frames_available) ==> {
                &&& i32::MIN <= 2 * frames_available <= i32::MAX
                &&& old(self).spec_samples_processed() + frame_count(
                    samples_to_process(old(self).spec_buffer_size(), frames_available, old(self).spec_buffer().len()),
                ) <= usize::MAX
            },
        ensures
            final(self).spec_buffer_size() == old(self).spec_buffer_size(),
            final(self).spec_process_interval() == old(self).spec_process_interval(),
            final(self).spec_buffer_threshold() == old(self).spec_buffer_threshold(),
            final(self).spec_last_process_time() == if elapsed(now_micros, old(self).spec_last_process_time())
                < old(self).spec_process_interval() {
                old(self).spec_last_process_time()
            } else {
                now_micros
            },
            ({
                let s = samples_to_process(old(self).spec_buffer_size(), frames_available, old(self).spec_buffer().len());
                let k = frame_count(s);
                if !old(self).cycle_reaches_count(now_micros, is_playing, frames_available) || s == 0 {
                    &&& r is None
                    &&& final(self).spec_buffer() == old(self).spec_buffer()
                    &&& final(self).spec_samples_processed() == old(self).spec_samples_processed()
                } else {
                    &&& r matches Some(frames)
                    &&& frames@ == pair_up(old(self).spec_buffer(), k)
                    &&& final(self).spec_buffer() == old(self).spec_buffer().skip(2 * k)
                    &&& final(self).spec_samples_processed() == old(self).spec_samples_processed() + k
                }
            }),
    {
        let elapsed_micros = if now_micros >= self.last_process_time {
            now_micros - self.last_process_time
        } else {
            0
        };
        if elapsed_micros < self.process_interval {
            return None;
        }
        self.last_process_time = now_micros;
        if !is_playing || self.buffer.len() == 0 {
            return None;
        }
        if frames_available == 0 {
            return None;
        }
        let doubled = frames_available * 2;
        let max_samples = if self.buffer_size < doubled {
            self.buffer_size
        } else {
            doubled
        };
        let len = self.buffer.len();
        let even = len - len % 2;
        let to_process: usize = if max_samples < 0 {
            even
        } else if (max_samples as usize) < even {
            max_samples as usize
        } else {
            even
        };
        if to_process == 0 {
            return None;
        }
        let ghost old_buf = self.buffer@;
        let ghost old_count = self.samples_processed;
        let mut frames: Vec<(u32, u32)> = Vec::new();
        let mut i: usize = 0;
        while i < to_process
            invariant
                to_process <= even,
                even == old_buf.len() - old_buf.len() % 2,
                i % 2 == 0,
                i <= even,
                i <= to_process + 1,
                self.buffer@ == old_buf.skip(i as int),
                frames@.len() == i / 2,
                forall|j: int| 0 <= j < i / 2 ==> #[trigger] frames@[j] == (old_buf[2 * j], old_buf[2 * j + 1]),
                self.samples_processed == old_count + i / 2,
                old_count + (to_process + 1) / 2 <= usize::MAX,
                self.buffer_size == old(self).buffer_size,
                self.process_interval == old(self).process_interval,
                self.buffer_threshold == old(self).buffer_threshold,
                self.last_process_time == now_micros,
            decreases to_process + 1 - i,
        {
            self.samples_processed = self.samples_processed + 1;
            let left = match self.buffer.pop_front() {
                Some(x) => x,
                None => 0,
            };
            let right = match self.buffer.pop_front() {
                Some(x) => x,
                None => left,
            };
            assert(old_buf.skip(i as int)[0] == old_buf[i as int]);
            assert(old_buf.skip(i as int)[1] == old_buf[i + 1]);
            assert(old_buf.skip(i as int).subrange(1, old_buf.skip(i as int).len() as int).subrange(
                1,
                old_buf.skip(i as int).len() - 1,
            ) =~= old_buf.skip(i + 2));
            frames.push((left, right));
            i = i + 2;
        }
        assert(i == 2 * ((to_process + 1) / 2));
        assert(frames@ =~= pair_up(old_buf, (to_process + 1) / 2));
        Some(frames)
    }
}

} // verus!
