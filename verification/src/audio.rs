//! Sample bookkeeping: resampling, mixing down to mono, voice-activity
//! windows, the checks before a transcription, and the capture buffer with
//! its recording flag.
//!
//! Nothing here looks inside a sample, so any sample type will do. The
//! functions decide which samples take part in a computation and with what
//! weight; the arithmetic on the sample values is handed in by the caller.

use vstd::prelude::*;
use vstd::slice::{slice_subrange, slice_to_vec};
use vstd::string::*;
use std::path::PathBuf;
use crate::config::{
    joined_path, path_join, spec_samples_for_duration_ms, DebugConfig, DEFAULT_SAMPLE_RATE,
    MIN_AUDIO_AMPLITUDE_MICROS, MIN_AUDIO_DURATION_MS, WHISPER_SAMPLE_RATE,
};
use crate::error::VoiceError;
use crate::text::{from_chars, push_str};

verus! {

/// One output sample of a resampling: the value at `lo`, moved towards the
/// value at `hi` by the fraction `num / den` of their difference. Where `lo`
/// and `hi` are the same index the output is that input sample unchanged.
#[derive(Clone, Copy, Debug, PartialEq, Eq)]
pub struct ResampleTap {
    pub lo: usize,
    pub hi: usize,
    pub num: u64,
    pub den: u64,
}

/// Number of output samples when `len` samples at `rate_in` are resampled to
/// `rate_out`: `len` itself when the rates agree, else `len * rate_out /
/// rate_in` rounded up.
pub open spec fn spec_resampled_len(len: int, rate_in: int, rate_out: int) -> int
    recommends
        rate_in > 0 || rate_in == rate_out,
{
    if rate_in == rate_out {
        len
    } else {
        (len * rate_out + rate_in - 1) / rate_in
    }
}

/// The tap of output index `i`. With equal rates it reads input `i` alone.
/// Otherwise the output sits at position `i * rate_in / rate_out` of the
/// input: `lo` is that position rounded down, `hi` the next index, clamped
/// to the last input sample, and `num / den` the fractional part.
pub open spec fn spec_tap(len: int, rate_in: int, rate_out: int, i: int) -> ResampleTap
    recommends
        rate_in == rate_out || (rate_in > 0 && rate_out > 0),
{
    if rate_in == rate_out {
        ResampleTap { lo: i as usize, hi: i as usize, num: 0, den: rate_out as u64 }
    } else {
        let lo = (i * rate_in) / rate_out;
        ResampleTap {
            lo: lo as usize,
            hi: (if lo + 1 < len {
                lo + 1
            } else {
                len - 1
            }) as usize,
            num: ((i * rate_in) % rate_out) as u64,
            den: rate_out as u64,
        }
    }
}

/// The resampled length differs from the exact quotient `len * rate_out /
/// rate_in` by less than one: it is that quotient rounded down, or one more.
pub proof fn lemma_resampled_len_near_quotient(len: int, rate_in: int, rate_out: int)
    requires
        len >= 0,
        rate_out >= 0,
        rate_in > 0,
    ensures
        (len * rate_out) / rate_in <= spec_resampled_len(len, rate_in, rate_out) <= (len
            * rate_out) / rate_in + 1,
        (len * rate_out) % rate_in == 0 ==> spec_resampled_len(len, rate_in, rate_out) == (len
            * rate_out) / rate_in,
{
    let p = len * rate_out;
    if rate_in == rate_out {
        assert(p / rate_in == len && p % rate_in == 0) by (nonlinear_arith)
            requires
                p == len * rate_in,
                rate_in > 0,
        ;
    } else {
        assert(p / rate_in <= (p + rate_in - 1) / rate_in <= p / rate_in + 1
            && (p % rate_in == 0 ==> (p + rate_in - 1) / rate_in == p / rate_in))
            by (nonlinear_arith)
            requires
                rate_in > 0,
                p >= 0,
        ;
    }
}

/// Resampling between equal rates keeps the length, and every output sample
/// is the input sample of the same index, unchanged.
pub proof fn lemma_resample_same_rate_is_identity(len: int, rate: int, i: int)
    requires
        0 <= i < len,
        len <= usize::MAX,
    ensures
        spec_resampled_len(len, rate, rate) == len,
        spec_tap(len, rate, rate, i).lo == i,
        spec_tap(len, rate, rate, i).hi == i,
{
}

/// Every tap reads inside the input: `lo <= hi < len`, and the fraction is
/// proper.
pub proof fn lemma_tap_in_range(len: int, rate_in: int, rate_out: int, i: int)
    requires
        rate_in > 0,
        rate_out > 0,
        0 <= len <= usize::MAX,
        0 <= i < spec_resampled_len(len, rate_in, rate_out),
        rate_out <= u64::MAX,
    ensures
        spec_tap(len, rate_in, rate_out, i).lo <= spec_tap(len, rate_in, rate_out, i).hi < len,
        spec_tap(len, rate_in, rate_out, i).num < spec_tap(len, rate_in, rate_out, i).den,
        spec_tap(len, rate_in, rate_out, i).den == rate_out,
        rate_in != rate_out ==> spec_tap(len, rate_in, rate_out, i).lo == (i * rate_in) / rate_out,
{
    if rate_in != rate_out {
        let n = spec_resampled_len(len, rate_in, rate_out);
        let p = len * rate_out;
        assert(n * rate_in <= p + rate_in - 1) by (nonlinear_arith)
            requires
                n == (p + rate_in - 1) / rate_in,
                rate_in > 0,
                p >= 0,
        ;
        assert(i * rate_in < p) by (nonlinear_arith)
            requires
                i + 1 <= n,
                n * rate_in <= p + rate_in - 1,
                rate_in > 0,
        ;
        let lo = (i * rate_in) / rate_out;
        assert(0 <= lo < len && 0 <= (i * rate_in) % rate_out < rate_out)
            by (nonlinear_arith)
            requires
                lo == (i * rate_in) / rate_out,
                i * rate_in < len * rate_out,
                i * rate_in >= 0,
                rate_out > 0,
        ;
    }
}

/// Number of mono frames in a block of `len` interleaved samples with
/// `channels` channels: a last frame that is cut short counts.
pub open spec fn spec_frame_count(len: int, channels: int) -> int
    recommends
        channels > 0,
{
    (len + channels - 1) / channels
}

/// The half-open index range of frame `k` in a block of `len` interleaved
/// samples with `channels` channels.
pub open spec fn spec_frame_range(len: int, channels: int, k: int) -> (int, int) {
    (k * channels, if (k + 1) * channels < len {
        (k + 1) * channels
    } else {
        len
    })
}

/// Number of mono frames in a block of `len` interleaved samples with
/// `channels` channels.
pub fn frame_count(len: usize, channels: u16) -> (frames: usize)
    requires
        channels > 0,
    ensures
        frames == spec_frame_count(len as int, channels as int),
        frames <= len,
        channels == 1 ==> frames == len,
{
    let wide: u128 = ((len as u128) + (channels as u128) - 1) / (channels as u128);
    assert(wide <= len && (channels == 1 ==> wide == len)) by (nonlinear_arith)
        requires
            wide == (len + channels - 1) / (channels as int),
            channels > 0,
            len >= 0,
    ;
    wide as usize
}

/// The samples of frame `k` in a block of `len` interleaved samples with
/// `channels` channels, as a half-open index range. The mono sample of the
/// frame is the sum of these samples divided by `channels`.
pub fn frame_range(len: usize, channels: u16, k: usize) -> (range: (usize, usize))
    requires
        channels > 0,
        k < spec_frame_count(len as int, channels as int),
    ensures
        (range.0 as int, range.1 as int) == spec_frame_range(len as int, channels as int, k as int),
        range.0 < range.1 <= len,
        range.1 - range.0 <= channels,
{
    assert(k * channels < len && 0 <= k * channels && (k + 1) * channels == k * channels + channels)
        by (nonlinear_arith)
        requires
            0 <= k < (len + channels - 1) / (channels as int),
            channels > 0,
            len >= 0,
    ;
    let from: u128 = (k as u128) * (channels as u128);
    let next: u128 = from + (channels as u128);
    let to: u128 = if next < (len as u128) {
        next
    } else {
        len as u128
    };
    (from as usize, to as usize)
}

/// Whether `value` is the mono sample of frame `k` of `block`: what `mix`
/// makes of the frame's samples and the number of channels.
pub open spec fn frame_mixed<S, M: Fn(&[S], u16) -> S>(
    block: Seq<S>,
    channels: u16,
    k: int,
    mix: M,
    value: S,
) -> bool {
    exists|frame: &[S]|
        #[trigger] call_ensures(mix, (frame, channels), value) && frame@ == block.subrange(
            spec_frame_range(block.len() as int, channels as int, k).0,
            spec_frame_range(block.len() as int, channels as int, k).1,
        )
}

/// Whether `mono` is `block` mixed down from `channels` channels: the block
/// itself where there is one channel, else one sample for each frame.
pub open spec fn mixed_down<S, M: Fn(&[S], u16) -> S>(
    block: Seq<S>,
    channels: u16,
    mix: M,
    mono: Seq<S>,
) -> bool {
    if channels == 1 {
        mono == block
    } else {
        &&& mono.len() == spec_frame_count(block.len() as int, channels as int)
        &&& forall|k: int|
            0 <= k < mono.len() ==> frame_mixed(block, channels, k, mix, #[trigger] mono[k])
    }
}

/// Mixes a block of interleaved samples down to mono. With one channel the
/// block is taken as it is. Otherwise each frame gives one sample: what `mix`
/// makes of the frame's samples and the number of channels; `mix(frame,
/// channels)` stands for the sum of the frame divided by `channels`, and the
/// arithmetic on sample values is its own.
pub fn mix_to_mono<S: Copy, M: Fn(&[S], u16) -> S>(block: &[S], channels: u16, mix: &M) -> (mono:
    Vec<S>)
    requires
        channels > 0,
        forall|frame: &[S], count: u16| call_requires(*mix, (frame, count)),
    ensures
        mixed_down(block@, channels, *mix, mono@),
{
    let len: usize = block.len();
    let mut mono: Vec<S> = Vec::new();
    if channels == 1 {
        let mut i: usize = 0;
        while i < len
            invariant
                len == block@.len(),
                i <= len,
                mono@ == block@.subrange(0, i as int),
            decreases len - i,
        {
            mono.push(block[i]);
            i += 1;
        }
        assert(block@.subrange(0, len as int) =~= block@);
        return mono;
    }
    let frames: usize = frame_count(len, channels);
    let mut k: usize = 0;
    while k < frames
        invariant
            len == block@.len(),
            channels > 1,
            frames == spec_frame_count(len as int, channels as int),
            k <= frames,
            mono@.len() == k,
            forall|frame: &[S], count: u16| call_requires(*mix, (frame, count)),
            forall|j: int|
                0 <= j < k ==> frame_mixed(block@, channels, j, *mix, #[trigger] mono@[j]),
        decreases frames - k,
    {
        let range: (usize, usize) = frame_range(len, channels, k);
        let frame: &[S] = slice_subrange(block, range.0, range.1);
        let value: S = mix(frame, channels);
        assert(frame_mixed(block@, channels, k as int, *mix, value)) by {
            assert(call_ensures(*mix, (frame, channels), value));
        }
        mono.push(value);
        k += 1;
    }
    mono
}

/// A buffer shorter than one window has no window to look at, and so shows
/// no voice activity.
pub proof fn lemma_short_buffer_has_no_window(len: usize, window_ms: u64)
    requires
        len < spec_samples_for_duration_ms(DEFAULT_SAMPLE_RATE, window_ms),
    ensures
        AudioProcessor::spec_activity_window(len, window_ms) is None,
{
}

/// The sample bookkeeping of the pipeline.
#[derive(Clone, Copy, Debug)]
pub struct AudioProcessor {
    debug_enabled: bool,
}

impl AudioProcessor {
    /// Whether the processor was made with diagnostics on.
    pub closed spec fn debug(&self) -> bool {
        self.debug_enabled
    }

    pub fn new(debug_enabled: bool) -> (processor: Self)
        ensures
            processor.debug() == debug_enabled,
    {
        Self { debug_enabled }
    }

    /// Whether diagnostics are on.
    pub fn debug_enabled(&self) -> (on: bool)
        ensures
            on == self.debug(),
    {
        self.debug_enabled
    }

    /// Number of samples that resampling `len` samples from `input_rate` to
    /// `output_rate` gives. Between equal rates, whatever they are, it is
    /// `len`; between different rates the input rate must not be zero.
    pub fn resampled_len(&self, len: usize, input_rate: u32, output_rate: u32) -> (n: usize)
        requires
            input_rate != output_rate ==> input_rate > 0 && spec_resampled_len(
                len as int,
                input_rate as int,
                output_rate as int,
            ) <= usize::MAX,
        ensures
            n == spec_resampled_len(len as int, input_rate as int, output_rate as int),
            input_rate > 0 ==> (len * output_rate) / (input_rate as int) <= n <= (len
                * output_rate) / (input_rate as int) + 1,
            input_rate == output_rate ==> n == len,
    {
        if input_rate == output_rate {
            proof {
                if input_rate > 0 {
                    lemma_resampled_len_near_quotient(
                        len as int,
                        input_rate as int,
                        output_rate as int,
                    );
                }
            }
            len
        } else {
            proof {
                lemma_resampled_len_near_quotient(
                    len as int,
                    input_rate as int,
                    output_rate as int,
                );
            }
            assert(len * output_rate <= 0xFFFF_FFFF_FFFF_FFFF * 0xFFFF_FFFF) by (nonlinear_arith)
                requires
                    0 <= len <= 0xFFFF_FFFF_FFFF_FFFF,
                    0 <= output_rate <= 0xFFFF_FFFF,
            ;
            let wide: u128 = ((len as u128) * (output_rate as u128) + (input_rate as u128) - 1) / (
            input_rate as u128);
            wide as usize
        }
    }

    /// The resampling of `len` samples from `input_rate` to `output_rate`,
    /// one tap for each output sample. Every tap reads inside the input.
    /// Between equal rates, whatever they are, tap `i` reads sample `i`
    /// alone; between different rates the input rate must not be zero.
    pub fn resample_taps(&self, len: usize, input_rate: u32, output_rate: u32) -> (taps: Vec<
        ResampleTap,
    >)
        requires
            input_rate != output_rate ==> input_rate > 0 && spec_resampled_len(
                len as int,
                input_rate as int,
                output_rate as int,
            ) <= usize::MAX,
        ensures
            taps@.len() == spec_resampled_len(len as int, input_rate as int, output_rate as int),
            forall|i: int|
                0 <= i < taps@.len() ==> #[trigger] taps@[i] == spec_tap(
                    len as int,
                    input_rate as int,
                    output_rate as int,
                    i as int,
                ),
            forall|i: int|
                0 <= i < taps@.len() ==> (#[trigger] taps@[i]).lo <= taps@[i].hi < len,
            input_rate == output_rate ==> forall|i: int|
                0 <= i < taps@.len() ==> (#[trigger] taps@[i]).lo == i && taps@[i].hi == i,
    {
        let n: usize = self.resampled_len(len, input_rate, output_rate);
        let mut taps: Vec<ResampleTap> = Vec::new();
        if input_rate == output_rate {
            let mut i: usize = 0;
            while i < n
                invariant
                    input_rate == output_rate,
                    n == len,
                    i <= n,
                    taps@.len() == i,
                    forall|k: int|
                        0 <= k < i ==> #[trigger] taps@[k] == spec_tap(
                            len as int,
                            input_rate as int,
                            output_rate as int,
                            k as int,
                        ),
                    forall|k: int|
                        0 <= k < i ==> (#[trigger] taps@[k]).lo == k && taps@[k].hi == k,
                decreases n - i,
            {
                taps.push(ResampleTap { lo: i, hi: i, num: 0, den: output_rate as u64 });
                i += 1;
            }
            return taps;
        }
        if output_rate == 0 {
            assert(n == 0) by (nonlinear_arith)
                requires
                    n == (len * 0 + input_rate - 1) / (input_rate as int),
                    input_rate > 0,
            ;
            return taps;
        }
        let mut i: usize = 0;
        while i < n
            invariant
                input_rate > 0,
                output_rate > 0,
                input_rate != output_rate,
                n == spec_resampled_len(len as int, input_rate as int, output_rate as int),
                i <= n,
                taps@.len() == i,
                forall|k: int|
                    0 <= k < i ==> #[trigger] taps@[k] == spec_tap(
                        len as int,
                        input_rate as int,
                        output_rate as int,
                        k as int,
                    ),
                forall|k: int| 0 <= k < i ==> (#[trigger] taps@[k]).lo <= taps@[k].hi < len,
            decreases n - i,
        {
            proof {
                lemma_tap_in_range(len as int, input_rate as int, output_rate as int, i as int);
            }
            assert(i * input_rate <= 0xFFFF_FFFF_FFFF_FFFF * 0xFFFF_FFFF) by (nonlinear_arith)
                requires
                    0 <= i <= 0xFFFF_FFFF_FFFF_FFFF,
                    0 <= input_rate <= 0xFFFF_FFFF,
            ;
            let pos: u128 = (i as u128) * (input_rate as u128);
            let lo: usize = (pos / (output_rate as u128)) as usize;
            let hi: usize = if lo + 1 < len {
                lo + 1
            } else {
                len - 1
            };
            taps.push(
                ResampleTap {
                    lo,
                    hi,
                    num: (pos % (output_rate as u128)) as u64,
                    den: output_rate as u64,
                },
            );
            i += 1;
        }
        taps
    }

    /// Whether `value` is what the tap `tap` yields on `samples`, with `lerp`
    /// as the interpolation: the sample at `lo` itself where the tap reads one
    /// sample, else what `lerp` makes of the samples at `lo` and `hi` and the
    /// tap's fraction.
    pub open spec fn tap_yields<S, F: Fn(S, S, u64, u64) -> S>(
        samples: Seq<S>,
        tap: ResampleTap,
        lerp: F,
        value: S,
    ) -> bool {
        if tap.lo == tap.hi {
            value == samples[tap.lo as int]
        } else {
            call_ensures(
                lerp,
                (samples[tap.lo as int], samples[tap.hi as int], tap.num, tap.den),
                value,
            )
        }
    }

    /// Applies `taps` to `samples`: one output sample for each tap.
    pub fn apply_taps<S: Copy, F: Fn(S, S, u64, u64) -> S>(
        samples: &[S],
        taps: &Vec<ResampleTap>,
        lerp: &F,
    ) -> (out: Vec<S>)
        requires
            forall|i: int| 0 <= i < taps@.len() ==> (#[trigger] taps@[i]).hi < samples@.len()
                && taps@[i].lo < samples@.len(),
            forall|a: S, b: S, num: u64, den: u64| call_requires(*lerp, (a, b, num, den)),
        ensures
            out@.len() == taps@.len(),
            forall|i: int|
                0 <= i < out@.len() ==> Self::tap_yields(
                    samples@,
                    taps@[i],
                    *lerp,
                    #[trigger] out@[i],
                ),
    {
        let mut out: Vec<S> = Vec::new();
        let mut i: usize = 0;
        while i < taps.len()
            invariant
                i <= taps@.len(),
                out@.len() == i,
                forall|k: int| 0 <= k < taps@.len() ==> (#[trigger] taps@[k]).hi < samples@.len()
                    && taps@[k].lo < samples@.len(),
                forall|a: S, b: S, num: u64, den: u64| call_requires(*lerp, (a, b, num, den)),
                forall|k: int|
                    0 <= k < i ==> Self::tap_yields(samples@, taps@[k], *lerp, #[trigger] out@[k]),
            decreases taps@.len() - i,
        {
            let tap: ResampleTap = taps[i];
            let value: S = if tap.lo == tap.hi {
                samples[tap.lo]
            } else {
                lerp(samples[tap.lo], samples[tap.hi], tap.num, tap.den)
            };
            out.push(value);
            i += 1;
        }
        out
    }

    /// Resamples `samples` from `input_rate` to `output_rate`. Between equal
    /// rates, whatever they are, the samples come back unchanged, and nothing
    /// is asked of the caller. Between different rates the input rate must
    /// not be zero and the output must fit in memory, and output sample `i`
    /// sits at position `i * input_rate / output_rate` of the input and is what
    /// `lerp` makes of the two input samples around that position and the
    /// position's fractional part; `lerp(a, b, num, den)` stands for `a + (b -
    /// a) * num / den`, and the arithmetic on sample values is its own.
    pub fn resample_audio<S: Copy, F: Fn(S, S, u64, u64) -> S>(
        &self,
        samples: &[S],
        input_rate: u32,
        output_rate: u32,
        lerp: F,
    ) -> (out: Vec<S>)
        requires
            input_rate != output_rate ==> input_rate > 0 && spec_resampled_len(
                samples@.len() as int,
                input_rate as int,
                output_rate as int,
            ) <= usize::MAX,
            input_rate != output_rate ==> forall|a: S, b: S, num: u64, den: u64|
                call_requires(lerp, (a, b, num, den)),
        ensures
            out@.len() == spec_resampled_len(
                samples@.len() as int,
                input_rate as int,
                output_rate as int,
            ),
            input_rate == output_rate ==> out@ == samples@,
            input_rate > 0 ==> (samples@.len() * output_rate) / (input_rate as int) <= out@.len()
                <= (samples@.len() * output_rate) / (input_rate as int) + 1,
            forall|i: int|
                0 <= i < out@.len() ==> Self::tap_yields(
                    samples@,
                    spec_tap(samples@.len() as int, input_rate as int, output_rate as int, i),
                    lerp,
                    #[trigger] out@[i],
                ),
    {
        proof {
            if input_rate > 0 {
                lemma_resampled_len_near_quotient(
                    samples@.len() as int,
                    input_rate as int,
                    output_rate as int,
                );
            }
        }
        if input_rate == output_rate {
            let len: usize = samples.len();
            let out: Vec<S> = slice_to_vec(samples);
            assert forall|i: int| 0 <= i < out@.len() implies Self::tap_yields(
                samples@,
                spec_tap(len as int, input_rate as int, output_rate as int, i),
                lerp,
                #[trigger] out@[i],
            ) by {
                lemma_resample_same_rate_is_identity(len as int, input_rate as int, i);
            }
            return out;
        }
        let taps: Vec<ResampleTap> = self.resample_taps(samples.len(), input_rate, output_rate);
        Self::apply_taps(samples, &taps, &lerp)
    }

    /// Readies captured `samples` for the engine: they are resampled from the
    /// device rate to the engine rate with `lerp` as the interpolation, and
    /// the result is handed to `normalize`, whose answer is the result.
    pub fn prepare_for_whisper<S: Copy, F: Fn(S, S, u64, u64) -> S, N: Fn(Vec<S>) -> Vec<S>>(
        &self,
        samples: &[S],
        lerp: F,
        normalize: N,
    ) -> (out: Vec<S>)
        requires
            forall|a: S, b: S, num: u64, den: u64| call_requires(lerp, (a, b, num, den)),
            forall|v: Vec<S>| call_requires(normalize, (v,)),
        ensures
            exists|resampled: Vec<S>|
                {
                    &&& #[trigger] call_ensures(normalize, (resampled,), out)
                    &&& resampled@.len() == spec_resampled_len(
                        samples@.len() as int,
                        DEFAULT_SAMPLE_RATE as int,
                        WHISPER_SAMPLE_RATE as int,
                    )
                    &&& forall|i: int|
                        0 <= i < resampled@.len() ==> Self::tap_yields(
                            samples@,
                            spec_tap(
                                samples@.len() as int,
                                DEFAULT_SAMPLE_RATE as int,
                                WHISPER_SAMPLE_RATE as int,
                                i,
                            ),
                            lerp,
                            #[trigger] resampled@[i],
                        )
                },
    {
        let len: usize = samples.len();
        proof {
            lemma_resampled_len_near_quotient(
                len as int,
                DEFAULT_SAMPLE_RATE as int,
                WHISPER_SAMPLE_RATE as int,
            );
            assert((len * 16000) / 44100 + 1 <= usize::MAX) by (nonlinear_arith)
                requires
                    0 <= len <= usize::MAX,
                    usize::MAX >= 0xFFFF_FFFF,
            ;
        }
        let resampled: Vec<S> = self.resample_audio(
            samples,
            DEFAULT_SAMPLE_RATE,
            WHISPER_SAMPLE_RATE,
            lerp,
        );
        normalize(resampled)
    }

    /// The trailing window of `window_ms` milliseconds at the device rate in
    /// a buffer of `len` samples, as a half-open index range; `None` where
    /// the buffer is shorter than one window.
    pub open spec fn spec_activity_window(len: usize, window_ms: u64) -> Option<(usize, usize)> {
        let window = spec_samples_for_duration_ms(DEFAULT_SAMPLE_RATE, window_ms);
        if len < window {
            None
        } else {
            Some(((len - window) as usize, len))
        }
    }

    /// The samples that voice-activity detection looks at: the trailing
    /// `window_ms` milliseconds of a buffer of `len` samples. A buffer
    /// shorter than one window has none, and counts as silent.
    pub fn activity_window(&self, len: usize, window_ms: u64) -> (window: Option<(usize, usize)>)
        ensures
            window == Self::spec_activity_window(len, window_ms),
            len < spec_samples_for_duration_ms(DEFAULT_SAMPLE_RATE, window_ms) <==> window is None,
            window matches Some((from, to)) ==> from <= to && to == len && to - from
                == spec_samples_for_duration_ms(DEFAULT_SAMPLE_RATE, window_ms),
    {
        assert(DEFAULT_SAMPLE_RATE * window_ms <= 0xFFFF_FFFF * 0xFFFF_FFFF_FFFF_FFFF)
            by (nonlinear_arith)
            requires
                0 <= window_ms <= 0xFFFF_FFFF_FFFF_FFFF,
                DEFAULT_SAMPLE_RATE == 44100,
        ;
        let window: u128 = (DEFAULT_SAMPLE_RATE as u128) * (window_ms as u128) / 1000;
        if (len as u128) < window {
            None
        } else {
            Some((len - (window as usize), len))
        }
    }

    /// Whether the newest audio in `samples` holds voice activity. With fewer
    /// samples than one window of `window_ms` milliseconds at the device rate
    /// the answer is no. Otherwise the trailing window is handed to `is_loud`,
    /// which measures its level, and the answer is its answer.
    pub fn has_voice_activity<S: Copy, F: Fn(&[S]) -> bool>(
        &self,
        samples: &[S],
        window_ms: u64,
        is_loud: F,
    ) -> (active: bool)
        requires
            forall|window: &[S]| call_requires(is_loud, (window,)),
        ensures
            samples@.len() < spec_samples_for_duration_ms(DEFAULT_SAMPLE_RATE, window_ms)
                ==> !active,
            samples@.len() >= spec_samples_for_duration_ms(DEFAULT_SAMPLE_RATE, window_ms)
                ==> exists|window: &[S]|
                #[trigger] call_ensures(is_loud, (window,), active) && window@
                    == samples@.subrange(
                    samples@.len() - spec_samples_for_duration_ms(DEFAULT_SAMPLE_RATE, window_ms),
                    samples@.len() as int,
                ),
    {
        match self.activity_window(samples.len(), window_ms) {
            None => false,
            Some((from, to)) => is_loud(slice_subrange(samples, from, to)),
        }
    }

    /// Length in whole milliseconds of `len` samples at `sample_rate`.
    pub open spec fn spec_duration_ms(len: usize, sample_rate: u32) -> int
        recommends
            sample_rate > 0,
    {
        (len * 1000) / (sample_rate as int)
    }

    /// Whether audio may go to the engine for a final transcription.
    pub open spec fn spec_validate_audio(len: usize, sample_rate: u32, peak_micros: u64) -> Result<
        (),
        VoiceError,
    >
        recommends
            sample_rate > 0,
    {
        if Self::spec_duration_ms(len, sample_rate) < MIN_AUDIO_DURATION_MS {
            Err(
                VoiceError::AudioTooShort {
                    duration_ms: Self::spec_duration_ms(len, sample_rate) as u64,
                },
            )
        } else if peak_micros < MIN_AUDIO_AMPLITUDE_MICROS {
            Err(VoiceError::AudioTooQuiet { amplitude_micros: peak_micros })
        } else {
            Ok(())
        }
    }

    /// Checks audio of `len` samples at `sample_rate`, whose largest absolute
    /// sample is `peak_micros` millionths of full scale, before a final
    /// transcription. Audio shorter than half a second is refused as too
    /// short; otherwise audio whose peak is under a thousandth of full scale
    /// is refused as too quiet.
    pub fn validate_audio(&self, len: usize, sample_rate: u32, peak_micros: u64) -> (checked:
        Result<(), VoiceError>)
        requires
            sample_rate > 0,
        ensures
            checked == Self::spec_validate_audio(len, sample_rate, peak_micros),
            checked is Ok <==> 2 * len >= sample_rate && peak_micros >= 1000,
    {
        assert(len * 1000 <= 0xFFFF_FFFF_FFFF_FFFF * 1000) by (nonlinear_arith)
            requires
                0 <= len <= 0xFFFF_FFFF_FFFF_FFFF,
        ;
        let duration_ms: u128 = (len as u128) * 1000 / (sample_rate as u128);
        assert((duration_ms < 500) <==> 2 * len < sample_rate) by (nonlinear_arith)
            requires
                duration_ms == (len * 1000) / (sample_rate as int),
                sample_rate > 0,
                len >= 0,
        ;
        if duration_ms < (MIN_AUDIO_DURATION_MS as u128) {
            Err(VoiceError::AudioTooShort { duration_ms: duration_ms as u64 })
        } else if peak_micros < MIN_AUDIO_AMPLITUDE_MICROS {
            Err(VoiceError::AudioTooQuiet { amplitude_micros: peak_micros })
        } else {
            Ok(())
        }
    }
}

/// The samples of `v` from index `from` up to, not including, `to`.
pub fn copy_range<S: Copy>(v: &Vec<S>, from: usize, to: usize) -> (r: Vec<S>)
    requires
        from <= to <= v@.len(),
    ensures
        r@ == v@.subrange(from as int, to as int),
{
    let mut r: Vec<S> = Vec::new();
    let mut i: usize = from;
    while i < to
        invariant
            from <= i <= to <= v@.len(),
            r@ == v@.subrange(from as int, i as int),
        decreases to - i,
    {
        r.push(v[i]);
        i += 1;
    }
    r
}

/// The accumulator of one recording session: the recording flag and the
/// mono samples captured so far, at the device's rate. The sample type is
/// the caller's.
pub struct AudioCapture<S> {
    is_recording: bool,
    audio_data: Vec<S>,
    debug_enabled: bool,
}

impl<S: Copy> AudioCapture<S> {
    /// Whether a session is under way.
    pub closed spec fn recording(&self) -> bool {
        self.is_recording
    }

    /// The samples captured so far in the current or the last session.
    pub closed spec fn samples(&self) -> Seq<S> {
        self.audio_data@
    }

    /// Whether the accumulator was made with diagnostics on.
    pub closed spec fn debug(&self) -> bool {
        self.debug_enabled
    }

    /// An idle accumulator without samples.
    pub fn new(debug_enabled: bool) -> (capture: Self)
        ensures
            !capture.recording(),
            capture.samples() == Seq::<S>::empty(),
            capture.debug() == debug_enabled,
    {
        Self { is_recording: false, audio_data: Vec::new(), debug_enabled }
    }

    pub fn is_recording(&self) -> (recording: bool)
        ensures
            recording == self.recording(),
    {
        self.is_recording
    }

    pub fn get_audio_sample_count(&self) -> (count: usize)
        ensures
            count == self.samples().len(),
    {
        self.audio_data.len()
    }

    /// Whether diagnostics are on.
    pub fn debug_enabled(&self) -> (on: bool)
        ensures
            on == self.debug(),
    {
        self.debug_enabled
    }

    /// Begins a session: the flag goes up and the samples of the last session
    /// are dropped. Fails, changing nothing, while a session is under way.
    pub fn start_capture(&mut self) -> (started: Result<(), VoiceError>)
        ensures
            old(self).recording() ==> started == Err::<(), VoiceError>(
                VoiceError::AlreadyRecording,
            ) && *final(self) == *old(self),
            !old(self).recording() ==> started is Ok && final(self).recording()
                && final(self).samples() == Seq::<S>::empty()
                && final(self).debug() == old(self).debug(),
    {
        if self.is_recording {
            return Err(VoiceError::AlreadyRecording);
        }
        self.is_recording = true;
        self.audio_data = Vec::new();
        Ok(())
    }

    /// The one transition from recording to idle: the flag goes down and the
    /// samples stay. An idle accumulator stays as it is.
    pub fn halt(&mut self)
        ensures
            !final(self).recording(),
            final(self).samples() == old(self).samples(),
            final(self).debug() == old(self).debug(),
    {
        self.is_recording = false;
    }

    /// Ends the session and hands out a copy of everything it captured. Fails,
    /// changing nothing, where no session is under way.
    pub fn stop_capture(&mut self) -> (stopped: Result<Vec<S>, VoiceError>)
        ensures
            !old(self).recording() ==> stopped == Err::<Vec<S>, VoiceError>(
                VoiceError::NotRecording,
            ) && *final(self) == *old(self),
            old(self).recording() ==> stopped is Ok && stopped->Ok_0@ == old(self).samples()
                && !final(self).recording() && final(self).samples() == old(self).samples()
                && final(self).debug() == old(self).debug(),
    {
        if !self.is_recording {
            return Err(VoiceError::NotRecording);
        }
        self.halt();
        let data: Vec<S> = copy_range(&self.audio_data, 0, self.audio_data.len());
        assert(self.audio_data@.subrange(0, self.audio_data@.len() as int) =~= self.audio_data@);
        Ok(data)
    }

    /// A copy of the samples captured so far.
    pub fn get_current_audio_data(&self) -> (data: Vec<S>)
        ensures
            data@ == self.samples(),
    {
        let data: Vec<S> = copy_range(&self.audio_data, 0, self.audio_data.len());
        assert(self.audio_data@.subrange(0, self.audio_data@.len() as int) =~= self.audio_data@);
        data
    }

    /// Takes a block of mono samples from the capture callback. While a
    /// session is under way the block is appended; otherwise it is dropped.
    /// The samples already held are never changed.
    pub fn append(&mut self, block: &[S])
        ensures
            final(self).recording() == old(self).recording(),
            final(self).debug() == old(self).debug(),
            old(self).recording() ==> final(self).samples() == old(self).samples() + block@,
            !old(self).recording() ==> final(self).samples() == old(self).samples(),
            old(self).samples().is_prefix_of(final(self).samples()),
    {
        if self.is_recording {
            let mut i: usize = 0;
            assert(self.audio_data@ =~= old(self).audio_data@ + block@.subrange(0, 0));
            while i < block.len()
                invariant
                    i <= block@.len(),
                    self.is_recording == old(self).is_recording,
                    self.debug_enabled == old(self).debug_enabled,
                    self.audio_data@ == old(self).audio_data@ + block@.subrange(0, i as int),
                decreases block@.len() - i,
            {
                assert((old(self).audio_data@ + block@.subrange(0, i as int)).push(block@[i as int])
                    =~= old(self).audio_data@ + block@.subrange(0, i + 1));
                self.audio_data.push(block[i]);
                i += 1;
            }
            assert(block@.subrange(0, block@.len() as int) =~= block@);
        }
    }

    /// The last `count` samples captured, or all of them where fewer are
    /// held.
    pub open spec fn spec_tail(&self, count: usize) -> Seq<S> {
        if self.samples().len() > count {
            self.samples().subrange(self.samples().len() - count, self.samples().len() as int)
        } else {
            self.samples()
        }
    }

    /// A copy of the last `count` samples captured, or of all of them where
    /// fewer are held.
    pub fn tail(&self, count: usize) -> (data: Vec<S>)
        ensures
            data@ == self.spec_tail(count),
    {
        let n: usize = self.audio_data.len();
        let from: usize = if n > count {
            n - count
        } else {
            0
        };
        let data: Vec<S> = copy_range(&self.audio_data, from, n);
        assert(self.audio_data@.subrange(0, n as int) =~= self.audio_data@);
        data
    }
}

/// The name of a debug dump: `audio_`, the time stamp, `_`, the suffix, and
/// the extension `.wav`.
pub open spec fn debug_file_name_spec(stamp: Seq<char>, suffix: Seq<char>) -> Seq<char> {
    "audio_"@ + stamp + "_"@ + suffix + ".wav"@
}

/// The name of the debug dump written at time stamp `stamp` under the tag
/// `suffix`.
pub fn debug_file_name(stamp: &str, suffix: &str) -> (name: String)
    ensures
        name@ == debug_file_name_spec(stamp@, suffix@),
{
    let mut out: Vec<char> = Vec::new();
    push_str(&mut out, "audio_");
    push_str(&mut out, stamp);
    push_str(&mut out, "_");
    push_str(&mut out, suffix);
    push_str(&mut out, ".wav");
    assert(out@ =~= debug_file_name_spec(stamp@, suffix@));
    from_chars(&out)
}

/// The time stamp that chrono prints for the moment `unix_seconds` seconds
/// after the start of 1970, in UTC, as year, month, day, an underscore, hour,
/// minute and second; `None` where chrono cannot represent the moment.
pub uninterp spec fn utc_stamp_of(unix_seconds: int) -> Option<Seq<char>>;

/// The text of an optional string.
pub open spec fn text_of(s: Option<String>) -> Option<Seq<char>> {
    match s {
        Some(text) => Some(text@),
        None => None,
    }
}

/// `chrono::DateTime::from_timestamp`, then `DateTime::format` with the
/// pattern `%Y%m%d_%H%M%S`: the result depends on the number of seconds
/// alone. `from_timestamp` gives `None` for a moment outside chrono's range
/// of dates.
#[verifier::external_body]
fn utc_stamp(unix_seconds: i64) -> (stamp: Option<String>)
    ensures
        text_of(stamp) == utc_stamp_of(unix_seconds as int),
{
    match chrono::DateTime::from_timestamp(unix_seconds, 0) {
        Some(moment) => Some(moment.format("%Y%m%d_%H%M%S").to_string()),
        None => None,
    }
}

/// Where the debug dumps of a session go.
#[derive(Clone, Debug)]
pub struct AudioFileHandler {
    debug_config: DebugConfig,
}

impl AudioFileHandler {
    /// The configuration that the handler was made with.
    pub closed spec fn config(&self) -> DebugConfig {
        self.debug_config
    }

    pub fn new(debug_config: DebugConfig) -> (handler: Self)
        ensures
            handler.config() == debug_config,
    {
        Self { debug_config }
    }

    /// The configuration that the handler was made with.
    pub fn debug_config(&self) -> (config: &DebugConfig)
        ensures
            *config == self.config(),
    {
        &self.debug_config
    }

    /// The path of a dump written at `stamp` under `suffix`.
    pub open spec fn spec_debug_path(&self, stamp: Seq<char>, suffix: Seq<char>) -> PathBuf {
        joined_path(self.config().output_dir, debug_file_name_spec(stamp, suffix))
    }

    /// The path of the debug dump written `unix_seconds` seconds after the
    /// start of 1970 under the tag `suffix`: the dump's name inside the
    /// configured directory. `None` where the moment has no time stamp.
    pub fn generate_debug_filename(&self, unix_seconds: i64, suffix: &str) -> (path: Option<
        PathBuf,
    >)
        ensures
            path == Self::path_for(*self, utc_stamp_of(unix_seconds as int), suffix@),
    {
        match utc_stamp(unix_seconds) {
            Some(stamp) => {
                let name: String = debug_file_name(stamp.as_str(), suffix);
                Some(path_join(&self.debug_config.output_dir, name.as_str()))
            },
            None => None,
        }
    }

    /// The dump's path for a given time stamp, and none where there is no
    /// time stamp.
    pub open spec fn path_for(handler: Self, stamp: Option<Seq<char>>, suffix: Seq<char>) -> Option<
        PathBuf,
    > {
        match stamp {
            Some(text) => Some(handler.spec_debug_path(text, suffix)),
            None => None,
        }
    }

    /// Whether a dump tagged as raw audio (`processed` false) or as processed
    /// audio (`processed` true) is to be written.
    pub fn should_save(&self, processed: bool) -> (save: bool)
        ensures
            save == (self.config().enabled && if processed {
                self.config().save_processed
            } else {
                self.config().save_raw
            }),
    {
        self.debug_config.enabled && if processed {
            self.debug_config.save_processed
        } else {
            self.debug_config.save_raw
        }
    }
}

} // verus!
