//! Output configuration of the audio device and the checks the device makes
//! on it and on buffers handed to it.
use vstd::prelude::*;
use super::bus::FULL_VOLUME_BITS;
use super::error::{is_audio_invalid_state, is_unsupported_format, AudioError, AudioResult};

verus! {

/// Text of the error for a zero sample rate.
pub open spec fn zero_sample_rate_message() -> Seq<char> {
    "sample_rate must be greater than zero"@
}

/// Text of the error for a channel count the mixer cannot produce.
pub open spec fn channel_count_message() -> Seq<char> {
    "the current mixer/backend requires exactly 2 output channels"@
}

/// Output settings of the audio device: master volume (the bit pattern of an
/// `f32` in `[0.0, 1.0]`), sample rate and channel count.
#[derive(Debug, Clone)]
pub struct AudioConfig {
    master_volume_bits: u32,
    sample_rate: u32,
    channels: u32,
}

impl AudioConfig {
    /// Master volume bit pattern.
    pub closed spec fn spec_master_volume_bits(&self) -> u32 {
        self.master_volume_bits
    }

    /// Sample rate in hertz.
    pub closed spec fn spec_sample_rate(&self) -> u32 {
        self.sample_rate
    }

    /// Number of output channels.
    pub closed spec fn spec_channels(&self) -> u32 {
        self.channels
    }

    /// Master volume bit pattern.
    pub fn master_volume_bits(&self) -> (bits: u32)
        ensures
            bits == self.spec_master_volume_bits(),
    {
        self.master_volume_bits
    }

    /// Set the master volume bit pattern; callers check the volume is finite
    /// and in `[0.0, 1.0]` first.
    pub fn set_master_volume_bits(&mut self, bits: u32)
        ensures
            final(self).spec_master_volume_bits() == bits,
            final(self).spec_sample_rate() == old(self).spec_sample_rate(),
            final(self).spec_channels() == old(self).spec_channels(),
    {
        self.master_volume_bits = bits;
    }

    /// Sample rate in hertz.
    pub fn sample_rate(&self) -> (r: u32)
        ensures
            r == self.spec_sample_rate(),
    {
        self.sample_rate
    }

    /// Set the sample rate; zero is refused and leaves the configuration as
    /// it was.
    pub fn set_sample_rate(&mut self, sample_rate: u32) -> (r: AudioResult<()>)
        ensures
            r is Ok <==> sample_rate > 0,
            r is Ok ==> final(self).spec_sample_rate() == sample_rate,
            r is Err ==> final(self).spec_sample_rate() == old(self).spec_sample_rate(),
            sample_rate == 0 ==> is_audio_invalid_state(r, zero_sample_rate_message()),
            final(self).spec_master_volume_bits() == old(self).spec_master_volume_bits(),
            final(self).spec_channels() == old(self).spec_channels(),
    {
        if sample_rate == 0 {
            return Err(AudioError::InvalidState(String::from_str("sample_rate must be greater than zero")));
        }
        self.sample_rate = sample_rate;
        Ok(())
    }

    /// Number of output channels.
    pub fn channels(&self) -> (c: u32)
        ensures
            c == self.spec_channels(),
    {
        self.channels
    }

    /// Set the channel count; only stereo is accepted, anything else is
    /// refused and leaves the configuration as it was.
    pub fn set_channels(&mut self, channels: u32) -> (r: AudioResult<()>)
        ensures
            r is Ok <==> channels == 2,
            r is Ok ==> final(self).spec_channels() == channels,
            r is Err ==> final(self).spec_channels() == old(self).spec_channels(),
            channels != 2 ==> is_unsupported_format(r, channel_count_message()),
            final(self).spec_master_volume_bits() == old(self).spec_master_volume_bits(),
            final(self).spec_sample_rate() == old(self).spec_sample_rate(),
    {
        if channels != 2 {
            return Err(AudioError::UnsupportedFormat(
                String::from_str("the current mixer/backend requires exactly 2 output channels"),
            ));
        }
        self.channels = channels;
        Ok(())
    }

    /// Check a configuration before opening a device: stereo first, then a
    /// non-zero sample rate.
    pub fn validate_for_device(&self) -> (r: AudioResult<()>)
        ensures
            r is Ok <==> self.spec_channels() == 2 && self.spec_sample_rate() > 0,
            self.spec_channels() != 2 ==> is_unsupported_format(r, channel_count_message()),
            self.spec_channels() == 2 && self.spec_sample_rate() == 0 ==> is_audio_invalid_state(
                r,
                zero_sample_rate_message(),
            ),
    {
        if self.channels != 2 {
            return Err(AudioError::UnsupportedFormat(
                String::from_str("the current mixer/backend requires exactly 2 output channels"),
            ));
        }
        if self.sample_rate == 0 {
            return Err(AudioError::InvalidState(String::from_str("sample_rate must be greater than zero")));
        }
        Ok(())
    }
}

impl Default for AudioConfig {
    /// Full volume, 44.1 kHz, stereo.
    fn default() -> (c: Self)
        ensures
            c.spec_master_volume_bits() == FULL_VOLUME_BITS,
            c.spec_sample_rate() == 44_100,
            c.spec_channels() == 2,
    {
        AudioConfig { master_volume_bits: FULL_VOLUME_BITS, sample_rate: 44_100, channels: 2 }
    }
}

/// Check that a buffer handed to the device for rendering holds whole frames.
pub fn check_render_buffer_len(len: usize, channels: u32) -> (r: AudioResult<()>)
    requires
        channels > 0,
    ensures
        r is Ok <==> (len as nat) % (channels as nat) == 0,
        r is Err ==> is_audio_invalid_state(
            r,
            "output buffer length must be a multiple of the device channel count"@,
        ),
{
    if len % (channels as usize) != 0 {
        return Err(AudioError::InvalidState(
            String::from_str("output buffer length must be a multiple of the device channel count"),
        ));
    }
    Ok(())
}

} // verus!
