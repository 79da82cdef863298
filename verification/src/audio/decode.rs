//! Checks on decoded audio headers, selection of the decoder by file
//! extension, and the integer plan of stereo resampling.
use vstd::prelude::*;
use vstd::string::StringSliceAdditionalSpecFns;
use super::error::{
    is_audio_invalid_state, is_decoder_failed, is_unsupported_format, AudioError, AudioResult,
};
use crate::text::{append_decimal, decimal};

verus! {

/// The container formats the decoder reads.
#[derive(Debug, Clone, Copy, PartialEq, Eq, Structural, Hash)]
pub enum AudioFormat {
    /// RIFF WAVE.
    Wav,
    /// MPEG-1 layer III.
    Mp3,
    /// Ogg Vorbis.
    Ogg,
    /// FLAC.
    Flac,
}

/// ASCII lower-casing of one byte.
pub open spec fn lower_byte(b: u8) -> u8 {
    if 65 <= b <= 90 { (b + 32) as u8 } else { b }
}

/// ASCII lower-casing of a byte string; other bytes are kept.
pub open spec fn lower_bytes(s: Seq<u8>) -> Seq<u8> {
    Seq::new(s.len(), |i: int| lower_byte(s[i]))
}

/// The format named by a lower-cased extension, if any.
pub open spec fn format_of_extension(lowered: Seq<u8>) -> Option<AudioFormat> {
    if lowered == seq![119u8, 97u8, 118u8] {
        Some(AudioFormat::Wav)
    } else if lowered == seq![109u8, 112u8, 51u8] {
        Some(AudioFormat::Mp3)
    } else if lowered == seq![111u8, 103u8, 103u8] {
        Some(AudioFormat::Ogg)
    } else if lowered == seq![102u8, 108u8, 97u8, 99u8] {
        Some(AudioFormat::Flac)
    } else {
        None
    }
}

/// Whether `s`, ASCII lower-cased, is exactly `name`.
fn lowered_equals(s: &[u8], name: &[u8]) -> (b: bool)
    ensures
        b <==> lower_bytes(s@) == name@,
{
    if s.len() != name.len() {
        assert(lower_bytes(s@).len() != name@.len());
        return false;
    }
    let mut i: usize = 0;
    while i < s.len()
        invariant
            i <= s@.len(),
            s@.len() == name@.len(),
            forall|k: int| 0 <= k < i ==> lower_byte(#[trigger] s@[k]) == name@[k],
        decreases s@.len() - i,
    {
        let b = s[i];
        let lowered: u8 = if 65 <= b && b <= 90 { b + 32 } else { b };
        if lowered != name[i] {
            assert(lower_bytes(s@)[i as int] != name@[i as int]);
            return false;
        }
        i += 1;
    }
    assert(lower_bytes(s@) =~= name@);
    true
}

impl AudioFormat {
    /// The format of a file extension, compared without regard to ASCII case:
    /// `wav`, `mp3`, `ogg` or `flac`.
    pub fn from_extension(extension: &str) -> (f: Option<AudioFormat>)
        ensures
            f == format_of_extension(lower_bytes(extension.spec_bytes())),
    {
        let bytes = extension.as_bytes();
        let wav: [u8; 3] = [119, 97, 118];
        let mp3: [u8; 3] = [109, 112, 51];
        let ogg: [u8; 3] = [111, 103, 103];
        let flac: [u8; 4] = [102, 108, 97, 99];
        assert(wav@ =~= seq![119u8, 97u8, 118u8]);
        assert(mp3@ =~= seq![109u8, 112u8, 51u8]);
        assert(ogg@ =~= seq![111u8, 103u8, 103u8]);
        assert(flac@ =~= seq![102u8, 108u8, 97u8, 99u8]);
        if lowered_equals(bytes, wav.as_slice()) {
            Some(AudioFormat::Wav)
        } else if lowered_equals(bytes, mp3.as_slice()) {
            Some(AudioFormat::Mp3)
        } else if lowered_equals(bytes, ogg.as_slice()) {
            Some(AudioFormat::Ogg)
        } else if lowered_equals(bytes, flac.as_slice()) {
            Some(AudioFormat::Flac)
        } else {
            None
        }
    }
}

/// Text of the error for an unsupported bit depth.
pub open spec fn bit_depth_message(format_name: Seq<char>, bits: nat) -> Seq<char> {
    "unsupported "@ + format_name + " bit depth: "@ + decimal(bits)
}

/// A sample bit depth the integer decoders accept.
pub open spec fn supported_bit_depth(bits: nat) -> bool {
    1 <= bits <= 32
}

/// Check the header of a WAV file: channels, then sample rate, then, for
/// integer samples, the bit depth.
pub fn check_wav_header(channels: u32, sample_rate: u32, integer_bits: Option<u16>) -> (r: AudioResult<()>)
    ensures
        r is Ok <==> channels > 0 && sample_rate > 0 && (integer_bits matches Some(b)
            ==> supported_bit_depth(b as nat)),
        channels == 0 ==> is_decoder_failed(r, "WAV file has zero channels"@),
        channels > 0 && sample_rate == 0 ==> is_decoder_failed(r, "WAV file has zero sample rate"@),
        channels > 0 && sample_rate > 0 && integer_bits is Some && !supported_bit_depth(
            integer_bits.unwrap() as nat,
        ) ==> is_decoder_failed(r, bit_depth_message("WAV"@, integer_bits.unwrap() as nat)),
{
    if channels == 0 {
        return Err(AudioError::DecoderFailed(String::from_str("WAV file has zero channels")));
    }
    if sample_rate == 0 {
        return Err(AudioError::DecoderFailed(String::from_str("WAV file has zero sample rate")));
    }
    match integer_bits {
        None => Ok(()),
        Some(bits) => {
            if bits == 0 || bits > 32 {
                let mut m = String::from_str("unsupported WAV bit depth: ");
                append_decimal(&mut m, bits as u64);
                proof {
                    reveal_strlit("unsupported WAV bit depth: ");
                    reveal_strlit("unsupported ");
                    reveal_strlit(" bit depth: ");
                    reveal_strlit("WAV");
                    assert("unsupported WAV bit depth: "@ =~= "unsupported "@ + "WAV"@ + " bit depth: "@);
                }
                return Err(AudioError::DecoderFailed(m));
            }
            Ok(())
        },
    }
}

/// Check the stream info of a FLAC file: channels, sample rate, bit depth.
pub fn check_flac_header(channels: u32, sample_rate: u32, bits: u32) -> (r: AudioResult<()>)
    ensures
        r is Ok <==> channels > 0 && sample_rate > 0 && supported_bit_depth(bits as nat),
        channels == 0 ==> is_decoder_failed(r, "FLAC file has zero channels"@),
        channels > 0 && sample_rate == 0 ==> is_decoder_failed(r, "FLAC file has zero sample rate"@),
        channels > 0 && sample_rate > 0 && !supported_bit_depth(bits as nat) ==> is_decoder_failed(
            r,
            bit_depth_message("FLAC"@, bits as nat),
        ),
{
    if channels == 0 {
        return Err(AudioError::DecoderFailed(String::from_str("FLAC file has zero channels")));
    }
    if sample_rate == 0 {
        return Err(AudioError::DecoderFailed(String::from_str("FLAC file has zero sample rate")));
    }
    if bits == 0 || bits > 32 {
        let mut m = String::from_str("unsupported FLAC bit depth: ");
        append_decimal(&mut m, bits as u64);
        proof {
            reveal_strlit("unsupported FLAC bit depth: ");
            reveal_strlit("unsupported ");
            reveal_strlit(" bit depth: ");
            reveal_strlit("FLAC");
            assert("unsupported FLAC bit depth: "@ =~= "unsupported "@ + "FLAC"@ + " bit depth: "@);
        }
        return Err(AudioError::DecoderFailed(m));
    }
    Ok(())
}

/// `2^(bits - 1)`, the magnitude integer samples of `bits` bits are divided
/// by to bring them into `[-1.0, 1.0]`.
pub fn integer_sample_scale(bits: u32) -> (s: i64)
    requires
        supported_bit_depth(bits as nat),
    ensures
        s == vstd::arithmetic::power2::pow2((bits - 1) as nat),
{
    let mut s: i64 = 1;
    let mut i: u32 = 1;
    proof {
        vstd::arithmetic::power2::lemma2_to64();
    }
    while i < bits
        invariant
            1 <= i <= bits <= 32,
            s == vstd::arithmetic::power2::pow2((i - 1) as nat),
        decreases bits - i,
    {
        proof {
            vstd::arithmetic::power2::lemma_pow2_unfold(i as nat);
            vstd::arithmetic::power2::lemma_pow2_strictly_increases((i - 1) as nat, 31);
            vstd::arithmetic::power2::lemma2_to64();
        }
        s = s * 2;
        i += 1;
    }
    proof {
        vstd::arithmetic::power2::lemma2_to64();
    }
    s
}

/// Whether integer WAV samples of this depth are read as 16-bit values
/// (otherwise as 32-bit values).
pub fn reads_16_bit_samples(bits: u16) -> (b: bool)
    ensures
        b == (bits <= 16),
{
    bits <= 16
}

/// A channel count or sample rate reported by a decoder, raised to at least
/// one.
pub fn at_least_one(value: u32) -> (v: u32)
    ensures
        v == (if value == 0 { 1 } else { value }),
{
    if value == 0 {
        1
    } else {
        value
    }
}

/// Number of whole frames in `sample_count` interleaved samples; `0` when
/// there are no channels.
pub fn frame_count(sample_count: usize, channels: u32) -> (n: usize)
    ensures
        n == (if channels == 0 { 0 } else { sample_count as nat / channels as nat }),
{
    if channels == 0 {
        0
    } else {
        sample_count / (channels as usize)
    }
}

/// What stereo resampling of decoded audio does.
#[derive(Debug, Clone, Copy, PartialEq, Eq, Structural)]
pub enum ResamplePlan {
    /// There are no frames: the result is empty stereo audio at the target
    /// rate.
    Empty,
    /// The audio is already stereo at the target rate and is kept as it is.
    Keep,
    /// The audio is converted into this many stereo frames at the target rate.
    Convert(usize),
}

/// Number of frames at `target` hertz covering `frames` frames at `rate`
/// hertz: the quotient rounded up.
pub open spec fn resampled_frame_count(frames: nat, rate: nat, target: nat) -> nat {
    ((frames * target + rate - 1) / rate as int) as nat
}

/// Text of the error for a channel count the mixer cannot take.
pub open spec fn channel_layout_message(channels: nat) -> Seq<char> {
    "sound input has "@ + decimal(channels) + " channels, but the mixer accepts mono or stereo"@
}

/// Decide how decoded audio becomes stereo at `target_sample_rate`.
///
/// The target rate must be non-zero and the input mono or stereo; empty input
/// gives empty output; stereo input at the target rate is kept; anything else
/// is converted into the number of frames that covers the input, which must
/// fit in `usize`.
pub fn plan_resample_to_stereo(
    channels: u32,
    sample_rate: u32,
    sample_count: usize,
    target_sample_rate: u32,
) -> (r: AudioResult<ResamplePlan>)
    requires
        sample_rate > 0 || target_sample_rate == 0 || !(channels == 1 || channels == 2) || sample_count
            < channels,
    ensures
        target_sample_rate == 0 ==> is_audio_invalid_state(
            r,
            "target sample rate must be greater than zero"@,
        ),
        target_sample_rate > 0 && !(channels == 1 || channels == 2) ==> is_unsupported_format(
            r,
            channel_layout_message(channels as nat),
        ),
        target_sample_rate > 0 && (channels == 1 || channels == 2) ==> ({
            let frames = sample_count as nat / channels as nat;
            &&& frames == 0 ==> r == Ok::<ResamplePlan, AudioError>(ResamplePlan::Empty)
            &&& frames > 0 && channels == 2 && sample_rate == target_sample_rate ==> r == Ok::<
                ResamplePlan,
                AudioError,
            >(ResamplePlan::Keep)
            &&& frames > 0 && !(channels == 2 && sample_rate == target_sample_rate) ==> {
                let n = resampled_frame_count(frames, sample_rate as nat, target_sample_rate as nat);
                &&& n <= usize::MAX ==> r == Ok::<ResamplePlan, AudioError>(ResamplePlan::Convert(n as usize))
                &&& n > usize::MAX ==> is_decoder_failed(r, "resampled audio is too large"@)
            }
        }),
{
    if target_sample_rate == 0 {
        return Err(AudioError::InvalidState(String::from_str("target sample rate must be greater than zero")));
    }
    if channels != 1 && channels != 2 {
        let mut m = String::from_str("sound input has ");
        append_decimal(&mut m, channels as u64);
        m.append(" channels, but the mixer accepts mono or stereo");
        return Err(AudioError::UnsupportedFormat(m));
    }
    let frames = frame_count(sample_count, channels);
    if frames == 0 {
        return Ok(ResamplePlan::Empty);
    }
    if channels == 2 && sample_rate == target_sample_rate {
        return Ok(ResamplePlan::Keep);
    }
    assert(sample_rate > 0) by {
        assert(sample_count as nat / channels as nat > 0);
        if sample_count < channels {
            assert(sample_count as nat / channels as nat == 0) by (nonlinear_arith)
                requires
                    sample_count < channels,
                    channels > 0,
            ;
        }
    }
    assert((frames as int) * (target_sample_rate as int) <= 0xffff_ffff_ffff_ffff * 0xffff_ffff)
        by (nonlinear_arith)
        requires
            frames <= 0xffff_ffff_ffff_ffff,
            target_sample_rate <= 0xffff_ffff,
    ;
    let product: u128 = (frames as u128) * (target_sample_rate as u128);
    let total: u128 = (product + (sample_rate as u128) - 1) / (sample_rate as u128);
    if total > usize::MAX as u128 {
        return Err(AudioError::DecoderFailed(String::from_str("resampled audio is too large")));
    }
    Ok(ResamplePlan::Convert(total as usize))
}

} // verus!

verus! {

/// Decoded audio: interleaved samples of `channels` channels at
/// `sample_rate` hertz.
#[derive(Debug, Clone)]
pub struct DecodedAudio<S> {
    channels: u32,
    sample_rate: u32,
    samples: Vec<S>,
}

impl<S> DecodedAudio<S> {
    /// Number of interleaved channels.
    pub closed spec fn spec_channels(&self) -> u32 {
        self.channels
    }

    /// Frames per second.
    pub closed spec fn spec_sample_rate(&self) -> u32 {
        self.sample_rate
    }

    /// The interleaved samples.
    pub closed spec fn spec_samples(&self) -> Seq<S> {
        self.samples@
    }

    /// Audio made of the given samples.
    pub fn new(channels: u32, sample_rate: u32, samples: Vec<S>) -> (a: Self)
        ensures
            a.spec_channels() == channels,
            a.spec_sample_rate() == sample_rate,
            a.spec_samples() == samples@,
    {
        DecodedAudio { channels, sample_rate, samples }
    }

    /// Number of whole frames; `0` when there are no channels.
    pub fn frame_count(&self) -> (n: usize)
        ensures
            n == (if self.spec_channels() == 0 {
                0
            } else {
                self.spec_samples().len() / self.spec_channels() as nat
            }),
    {
        frame_count(self.samples.len(), self.channels)
    }

    /// Whether there are no samples.
    pub fn is_empty(&self) -> (b: bool)
        ensures
            b == (self.spec_samples().len() == 0),
    {
        self.samples.len() == 0
    }

    /// Number of interleaved channels.
    pub fn channels(&self) -> (c: u32)
        ensures
            c == self.spec_channels(),
    {
        self.channels
    }

    /// Frames per second.
    pub fn sample_rate(&self) -> (r: u32)
        ensures
            r == self.spec_sample_rate(),
    {
        self.sample_rate
    }

    /// The interleaved samples.
    pub fn samples(&self) -> (s: &Vec<S>)
        ensures
            s@ == self.spec_samples(),
    {
        &self.samples
    }
}

/// Source frame of output frame `frame` when `rate` hertz audio is played
/// at `target` hertz: the whole part of `frame * rate / target`.
pub open spec fn source_frame(frame: nat, rate: nat, target: nat) -> nat {
    (frame * rate) / target
}

/// How far output frame `frame` lies past its source frame, in units of
/// `1 / target`: the remainder of `frame * rate / target`.
pub open spec fn source_offset(frame: nat, rate: nat, target: nat) -> nat {
    (frame * rate) % target
}

/// Output frame `f` of stereo audio resampled from `src`: each channel is
/// what `lerp` gives for the sample of the source frame, the sample of the
/// next source frame (both clamped to the last frame) and the offset between
/// them over `target`; mono input gives the same sample on both channels.
pub open spec fn resampled_frame_ok<S, F: Fn(S, S, u64, u64) -> S>(
    src: Seq<S>,
    channels: nat,
    frames: nat,
    rate: nat,
    target: nat,
    lerp: F,
    out: Seq<S>,
    f: int,
) -> bool {
    let q = source_frame(f as nat, rate, target);
    let i0 = if q < frames - 1 { q } else { (frames - 1) as nat };
    let i1 = if i0 + 1 < frames - 1 { i0 + 1 } else { (frames - 1) as nat };
    let offset = source_offset(f as nat, rate, target) as u64;
    &&& call_ensures(lerp, (src[(i0 * channels) as int], src[(i1 * channels) as int], offset, target as u64), out[2 * f])
    &&& channels == 1 ==> out[2 * f + 1] == out[2 * f]
    &&& channels == 2 ==> call_ensures(
        lerp,
        (src[(i0 * 2 + 1) as int], src[(i1 * 2 + 1) as int], offset, target as u64),
        out[2 * f + 1],
    )
}

/// Resampling keeps the first frame: where `lerp` gives back its first
/// sample at offset zero, output frame zero is source frame zero (on both
/// channels for mono input).
pub proof fn lemma_resample_keeps_first_frame<S, F: Fn(S, S, u64, u64) -> S>(
    src: Seq<S>,
    channels: nat,
    frames: nat,
    rate: nat,
    target: nat,
    lerp: F,
    out: Seq<S>,
)
    requires
        channels == 1 || channels == 2,
        frames > 0,
        target > 0,
        resampled_frame_ok(src, channels, frames, rate, target, lerp, out, 0),
        forall|a: S, b: S, span: u64, v: S| call_ensures(lerp, (a, b, 0u64, span), v) ==> v == a,
    ensures
        out[0] == src[0],
        channels == 1 ==> out[1] == src[0],
        channels == 2 ==> out[1] == src[1],
{
    assert(source_frame(0, rate, target) == 0);
    assert(source_offset(0, rate, target) == 0);
}

/// Each output frame of stereo input interpolates both channels alike: the
/// left sample between the left samples, and the right sample between the
/// right samples, of the source frame the output frame falls in and of the
/// next one (both held at the last frame), at the same offset.
pub proof fn lemma_stereo_channels_interpolate_alike<S, F: Fn(S, S, u64, u64) -> S>(
    src: Seq<S>,
    frames: nat,
    rate: nat,
    target: nat,
    lerp: F,
    out: Seq<S>,
    f: int,
)
    requires
        frames > 0,
        target > 0,
        0 <= f,
        resampled_frame_ok(src, 2, frames, rate, target, lerp, out, f),
    ensures
        ({
            let q: int = (f * rate) / (target as int);
            let first: int = if q >= frames - 1 {
                frames - 1
            } else {
                q
            };
            let next: int = if first + 1 >= frames {
                frames - 1
            } else {
                first + 1
            };
            let offset: u64 = ((f * rate) % (target as int)) as u64;
            &&& call_ensures(lerp, (src[2 * first], src[2 * next], offset, target as u64), out[2 * f])
            &&& call_ensures(
                lerp,
                (src[2 * first + 1], src[2 * next + 1], offset, target as u64),
                out[2 * f + 1],
            )
        }),
{
    assert(source_frame(f as nat, rate, target) == (f * rate) / (target as int));
    assert(source_offset(f as nat, rate, target) == (f * rate) % (target as int));
}

/// Each output frame of mono input carries one interpolated sample on both
/// channels: the sample between the source frame the output frame falls in
/// and the next one (both held at the last frame).
pub proof fn lemma_mono_is_duplicated_on_both_channels<S, F: Fn(S, S, u64, u64) -> S>(
    src: Seq<S>,
    frames: nat,
    rate: nat,
    target: nat,
    lerp: F,
    out: Seq<S>,
    f: int,
)
    requires
        frames > 0,
        target > 0,
        0 <= f,
        resampled_frame_ok(src, 1, frames, rate, target, lerp, out, f),
    ensures
        ({
            let q: int = (f * rate) / (target as int);
            let first: int = if q >= frames - 1 {
                frames - 1
            } else {
                q
            };
            let next: int = if first + 1 >= frames {
                frames - 1
            } else {
                first + 1
            };
            let offset: u64 = ((f * rate) % (target as int)) as u64;
            &&& call_ensures(lerp, (src[first], src[next], offset, target as u64), out[2 * f])
            &&& out[2 * f + 1] == out[2 * f]
        }),
{
    assert(source_frame(f as nat, rate, target) == (f * rate) / (target as int));
    assert(source_offset(f as nat, rate, target) == (f * rate) % (target as int));
}

/// The audio decoder.
pub struct AudioDecoder;

impl AudioDecoder {
    /// Mono or stereo audio as stereo at `target_sample_rate` hertz.
    ///
    /// The target rate must be non-zero and the input mono or stereo. Empty
    /// input gives empty stereo audio; stereo input at the target rate is
    /// copied. Otherwise the output has as many frames as cover the input
    /// (the quotient rounded up), each interpolated by `lerp` between the two
    /// source frames it falls between.
    pub fn resample_to_stereo<S: Copy, F: Fn(S, S, u64, u64) -> S>(
        audio: &DecodedAudio<S>,
        target_sample_rate: u32,
        lerp: F,
    ) -> (r: AudioResult<DecodedAudio<S>>)
        requires
            audio.spec_sample_rate() > 0 || target_sample_rate == 0 || !(audio.spec_channels() == 1
                || audio.spec_channels() == 2) || audio.spec_samples().len() < audio.spec_channels(),
            forall|a: S, b: S, offset: u64, span: u64| call_requires(lerp, (a, b, offset, span)),
        ensures
            ({
                let channels = audio.spec_channels();
                let rate = audio.spec_sample_rate();
                let src = audio.spec_samples();
                let frames = src.len() / channels as nat;
                let target = target_sample_rate;
                &&& r is Ok <==> (target > 0 && (channels == 1 || channels == 2) && (frames == 0
                    || (channels == 2 && rate == target) || resampled_frame_count(
                    frames,
                    rate as nat,
                    target as nat,
                ) <= usize::MAX))
                &&& target == 0 ==> is_audio_invalid_state(
                    r,
                    "target sample rate must be greater than zero"@,
                )
                &&& target > 0 && !(channels == 1 || channels == 2) ==> is_unsupported_format(
                    r,
                    channel_layout_message(channels as nat),
                )
                &&& target > 0 && (channels == 1 || channels == 2) && frames == 0 ==> (r matches Ok(
                    out,
                ) && out.spec_channels() == 2 && out.spec_sample_rate() == target
                    && out.spec_samples().len() == 0)
                &&& target > 0 && channels == 2 && frames > 0 && rate == target ==> (r matches Ok(
                    out,
                ) && out.spec_channels() == 2 && out.spec_sample_rate() == target
                    && out.spec_samples() == src)
                &&& target > 0 && (channels == 1 || channels == 2) && frames > 0 && !(channels == 2
                    && rate == target) ==> {
                    let n = resampled_frame_count(frames, rate as nat, target as nat);
                    &&& n > usize::MAX ==> is_decoder_failed(r, "resampled audio is too large"@)
                    &&& n <= usize::MAX ==> (r matches Ok(out) && out.spec_channels() == 2
                        && out.spec_sample_rate() == target && out.spec_samples().len() == 2 * n
                        && forall|f: int|
                        0 <= f < n ==> #[trigger] resampled_frame_ok(
                            src,
                            channels as nat,
                            frames,
                            rate as nat,
                            target as nat,
                            lerp,
                            out.spec_samples(),
                            f,
                        ))
                }
            }),
    {
        let channels = audio.channels;
        let rate = audio.sample_rate;
        let plan = plan_resample_to_stereo(channels, rate, audio.samples.len(), target_sample_rate);
        match plan {
            Err(e) => Err(e),
            Ok(ResamplePlan::Empty) => Ok(
                DecodedAudio { channels: 2, sample_rate: target_sample_rate, samples: Vec::new() },
            ),
            Ok(ResamplePlan::Keep) => {
                let mut samples: Vec<S> = Vec::new();
                let mut i: usize = 0;
                while i < audio.samples.len()
                    invariant
                        i <= audio.samples@.len(),
                        samples@ == audio.samples@.subrange(0, i as int),
                    decreases audio.samples@.len() - i,
                {
                    samples.push(audio.samples[i]);
                    i = i + 1;
                }
                assert(samples@ =~= audio.samples@);
                Ok(DecodedAudio { channels: 2, sample_rate: target_sample_rate, samples })
            },
            Ok(ResamplePlan::Convert(n)) => {
                let frames = frame_count(audio.samples.len(), channels);
                let ch = channels as usize;
                let mut samples: Vec<S> = Vec::new();
                let mut f: usize = 0;
                while f < n
                    invariant
                        f <= n,
                        channels == 1 || channels == 2,
                        ch == channels,
                        rate > 0,
                        target_sample_rate > 0,
                        frames > 0,
                        frames == audio.samples@.len() / (channels as nat),
                        n == resampled_frame_count(frames as nat, rate as nat, target_sample_rate as nat),
                        forall|a: S, b: S, offset: u64, span: u64| call_requires(lerp, (a, b, offset, span)),
                        samples@.len() == 2 * f,
                        forall|g: int|
                            0 <= g < f ==> #[trigger] resampled_frame_ok(
                                audio.samples@,
                                channels as nat,
                                frames as nat,
                                rate as nat,
                                target_sample_rate as nat,
                                lerp,
                                samples@,
                                g,
                            ),
                    decreases n - f,
                {
                    assert((f as int) * (rate as int) <= 0xffff_ffff_ffff_ffff * 0xffff_ffff)
                        by (nonlinear_arith)
                        requires
                            f <= 0xffff_ffff_ffff_ffff,
                            rate <= 0xffff_ffff,
                    ;
                    let scaled: u128 = (f as u128) * (rate as u128);
                    let q: u128 = scaled / (target_sample_rate as u128);
                    let offset: u128 = scaled % (target_sample_rate as u128);
                    proof {
                        assert(q == source_frame(f as nat, rate as nat, target_sample_rate as nat));
                        assert(offset == source_offset(f as nat, rate as nat, target_sample_rate as nat));
                    }
                    let i0: usize = if q < (frames - 1) as u128 {
                        q as usize
                    } else {
                        frames - 1
                    };
                    let i1: usize = if i0 + 1 < frames - 1 {
                        i0 + 1
                    } else {
                        frames - 1
                    };
                    assert(i0 * ch + ch <= frames * ch) by (nonlinear_arith)
                        requires
                            i0 < frames,
                    ;
                    assert(i1 * ch + ch <= frames * ch) by (nonlinear_arith)
                        requires
                            i1 < frames,
                    ;
                    assert(frames * ch <= audio.samples@.len()) by (nonlinear_arith)
                        requires
                            frames == audio.samples@.len() / (ch as nat),
                            ch > 0,
                    ;
                    assert(i0 * ch < audio.samples@.len());
                    assert(i1 * ch < audio.samples@.len());
                    let total = audio.samples.len();
                    assert(total == audio.samples@.len());
                    let at0: usize = i0 * ch;
                    let at1: usize = i1 * ch;
                    let left = lerp(audio.samples[at0], audio.samples[at1], offset as u64, target_sample_rate as u64);
                    let right = if channels == 1 {
                        left
                    } else {
                        lerp(audio.samples[i0 * 2 + 1], audio.samples[i1 * 2 + 1], offset as u64, target_sample_rate as u64)
                    };
                    let ghost before = samples@;
                    samples.push(left);
                    samples.push(right);
                    proof {
                        assert forall|g: int| 0 <= g < f + 1 implies #[trigger] resampled_frame_ok(
                            audio.samples@,
                            channels as nat,
                            frames as nat,
                            rate as nat,
                            target_sample_rate as nat,
                            lerp,
                            samples@,
                            g,
                        ) by {
                            if g < f {
                                assert(resampled_frame_ok(
                                    audio.samples@,
                                    channels as nat,
                                    frames as nat,
                                    rate as nat,
                                    target_sample_rate as nat,
                                    lerp,
                                    before,
                                    g,
                                ));
                                assert(samples@[2 * g] == before[2 * g]);
                                assert(samples@[2 * g + 1] == before[2 * g + 1]);
                            } else {
                                assert(samples@[2 * g] == left);
                                assert(samples@[2 * g + 1] == right);
                            }
                        }
                    }
                    f = f + 1;
                }
                Ok(DecodedAudio { channels: 2, sample_rate: target_sample_rate, samples })
            },
        }
    }
}

} // verus!
