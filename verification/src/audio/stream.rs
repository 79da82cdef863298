//! Playback state of sounds and music streams, and the decisions a music
//! stream takes while it refills its buffer from the decoder and while it is
//! mixed.
use vstd::prelude::*;
use super::bus::BusKind;
use super::error::{is_audio_invalid_state, AudioError, AudioResult};

verus! {

/// Playback state of a voice or stream.
#[derive(Debug, Clone, Copy, PartialEq, Eq, Structural, Hash)]
pub enum PlaybackState {
    /// Being mixed.
    Playing,
    /// Kept, but not mixed.
    Paused,
    /// Finished or stopped; never mixed again.
    Stopped,
}

/// Byte code of a state: `0` playing, `1` paused, `2` stopped.
pub open spec fn state_code(state: PlaybackState) -> u8 {
    match state {
        PlaybackState::Playing => 0,
        PlaybackState::Paused => 1,
        PlaybackState::Stopped => 2,
    }
}

impl PlaybackState {
    /// Byte code of the state: `0` playing, `1` paused, `2` stopped.
    pub fn to_code(self) -> (c: u8)
        ensures
            c == state_code(self),
    {
        match self {
            PlaybackState::Playing => 0,
            PlaybackState::Paused => 1,
            PlaybackState::Stopped => 2,
        }
    }

    /// State of a byte code; any code other than `0` and `1` reads as stopped.
    pub fn from_code(code: u8) -> (s: PlaybackState)
        ensures
            s == state_of_code(code),
    {
        if code == 0 {
            PlaybackState::Playing
        } else if code == 1 {
            PlaybackState::Paused
        } else {
            PlaybackState::Stopped
        }
    }
}

/// State of a byte code: `0` playing, `1` paused, anything else stopped.
pub open spec fn state_of_code(code: u8) -> PlaybackState {
    if code == 0 {
        PlaybackState::Playing
    } else if code == 1 {
        PlaybackState::Paused
    } else {
        PlaybackState::Stopped
    }
}

/// Storing a state as its code and reading the code back gives the state.
pub proof fn lemma_state_code_round_trip(state: PlaybackState)
    ensures
        state_of_code(state_code(state)) == state,
{
}

/// Output channels of a music stream.
pub const OUTPUT_CHANNELS: usize = 2;

/// Most frames decoded in one step.
pub const DECODE_CHUNK_FRAMES: usize = 4096;

/// Frames the stream buffer holds: half a second at 44.1 kHz.
pub const STREAM_BUFFER_FRAMES: usize = 22_050;

/// What a stream does after a decoding step.
#[derive(Debug, Clone, Copy, PartialEq, Eq, Structural)]
pub enum PumpStep {
    /// Decode more.
    Continue,
    /// Stop refilling for now.
    Stop,
    /// The decoder reached its end on a looping stream: seek it back to its
    /// first frame, then report the seek.
    SeekToStart,
}

/// Control state of a music stream: identity, bus, volume (the bit pattern of
/// an `f32` in `[0.0, 1.0]`), looping, playback state, whether the decoder
/// has reached its end, and the number of frames mixed so far.
#[derive(Debug, Clone)]
pub struct StreamControl {
    pub id: u64,
    pub bus: BusKind,
    pub volume_bits: u32,
    pub looping: bool,
    pub state: PlaybackState,
    pub finished: bool,
    pub cursor_frames: usize,
}

impl StreamControl {
    /// Stream id.
    pub open spec fn spec_id(&self) -> u64 {
        self.id
    }

    /// Bus the stream plays on.
    pub open spec fn spec_bus(&self) -> BusKind {
        self.bus
    }

    /// Volume bit pattern.
    pub open spec fn spec_volume_bits(&self) -> u32 {
        self.volume_bits
    }

    /// Whether the stream loops.
    pub open spec fn spec_looping(&self) -> bool {
        self.looping
    }

    /// Playback state.
    pub open spec fn spec_state(&self) -> PlaybackState {
        self.state
    }

    /// Whether the decoder has reached its end.
    pub open spec fn spec_finished(&self) -> bool {
        self.finished
    }

    /// Frames mixed so far.
    pub open spec fn spec_cursor_frames(&self) -> usize {
        self.cursor_frames
    }

    /// A stream at the start of its audio; the target sample rate must be
    /// non-zero.
    pub fn new(
        id: u64,
        bus: BusKind,
        volume_bits: u32,
        looping: bool,
        state: PlaybackState,
        target_sample_rate: u32,
    ) -> (r: AudioResult<Self>)
        ensures
            r is Ok <==> target_sample_rate > 0,
            target_sample_rate == 0 ==> is_audio_invalid_state(
                r,
                "target sample rate must be greater than zero"@,
            ),
            r matches Ok(s) ==> s.spec_id() == id && s.spec_bus() == bus && s.spec_volume_bits()
                == volume_bits && s.spec_looping() == looping && s.spec_state() == state
                && !s.spec_finished() && s.spec_cursor_frames() == 0,
    {
        if target_sample_rate == 0 {
            return Err(AudioError::InvalidState(String::from_str("target sample rate must be greater than zero")));
        }
        Ok(StreamControl { id, bus, volume_bits, looping, state, finished: false, cursor_frames: 0 })
    }

    /// Stream id.
    pub fn id(&self) -> (i: u64)
        ensures
            i == self.spec_id(),
    {
        self.id
    }

    /// Bus the stream plays on.
    pub fn bus(&self) -> (b: BusKind)
        ensures
            b == self.spec_bus(),
    {
        self.bus
    }

    /// Set whether the stream loops.
    pub fn set_looping(&mut self, looping: bool)
        ensures
            *final(self) == (StreamControl { looping, ..*old(self) }),
    {
        self.looping = looping;
    }

    /// Whether the stream loops.
    pub fn looping(&self) -> (b: bool)
        ensures
            b == self.spec_looping(),
    {
        self.looping
    }

    /// Set the volume bit pattern; callers check the volume first.
    pub fn set_volume_bits(&mut self, bits: u32)
        ensures
            *final(self) == (StreamControl { volume_bits: bits, ..*old(self) }),
    {
        self.volume_bits = bits;
    }

    /// Volume bit pattern.
    pub fn volume_bits(&self) -> (bits: u32)
        ensures
            bits == self.spec_volume_bits(),
    {
        self.volume_bits
    }

    /// Set the playback state.
    pub fn set_state(&mut self, state: PlaybackState)
        ensures
            *final(self) == (StreamControl { state, ..*old(self) }),
    {
        self.state = state;
    }

    /// Start playing.
    pub fn start(&mut self)
        ensures
            *final(self) == (StreamControl { state: PlaybackState::Playing, ..*old(self) }),
    {
        self.state = PlaybackState::Playing;
    }

    /// Playback state.
    pub fn state(&self) -> (s: PlaybackState)
        ensures
            s == self.spec_state(),
    {
        self.state
    }

    /// Whether the stream is playing.
    pub fn is_playing(&self) -> (b: bool)
        ensures
            b == (self.spec_state() == PlaybackState::Playing),
    {
        self.state == PlaybackState::Playing
    }

    /// Whether the stream is paused.
    pub fn is_paused(&self) -> (b: bool)
        ensures
            b == (self.spec_state() == PlaybackState::Paused),
    {
        self.state == PlaybackState::Paused
    }

    /// Whether the stream is stopped.
    pub fn is_stopped(&self) -> (b: bool)
        ensures
            b == (self.spec_state() == PlaybackState::Stopped),
    {
        self.state == PlaybackState::Stopped
    }

    /// Whether the decoder has reached its end.
    pub fn is_finished(&self) -> (b: bool)
        ensures
            b == self.spec_finished(),
    {
        self.finished
    }

    /// Whether the stream still counts as active: neither stopped nor
    /// finished.
    pub fn is_live(&self) -> (b: bool)
        ensures
            b == (self.spec_state() != PlaybackState::Stopped && !self.spec_finished()),
    {
        self.state != PlaybackState::Stopped && !self.finished
    }

    /// Stop for good: the stream is finished and stopped.
    pub fn stop(&mut self)
        ensures
            *final(self) == (StreamControl {
                finished: true,
                state: PlaybackState::Stopped,
                ..*old(self)
            }),
    {
        self.finished = true;
        self.state = PlaybackState::Stopped;
    }

    /// Pause.
    pub fn pause(&mut self)
        ensures
            *final(self) == (StreamControl { state: PlaybackState::Paused, ..*old(self) }),
    {
        self.state = PlaybackState::Paused;
    }

    /// Resume, unless the stream is stopped.
    pub fn resume(&mut self)
        ensures
            *final(self) == (if old(self).spec_state() == PlaybackState::Stopped {
                *old(self)
            } else {
                StreamControl { state: PlaybackState::Playing, ..*old(self) }
            }),
    {
        if self.state != PlaybackState::Stopped {
            self.state = PlaybackState::Playing;
        }
    }

    /// Frames mixed so far.
    pub fn cursor_frames(&self) -> (n: usize)
        ensures
            n == self.spec_cursor_frames(),
    {
        self.cursor_frames
    }

    /// Set the frames mixed so far.
    pub fn set_cursor_frames(&mut self, cursor: usize)
        ensures
            *final(self) == (StreamControl { cursor_frames: cursor, ..*old(self) }),
    {
        self.cursor_frames = cursor;
    }

    /// Count `samples` more mixed samples, as whole frames; the count wraps
    /// around at the `usize` range.
    pub fn advance_cursor(&mut self, samples: usize)
        ensures
            *final(self) == (StreamControl {
                cursor_frames: vstd::wrapping::usize_specs::wrapping_add(
                    old(self).spec_cursor_frames(),
                    (samples / OUTPUT_CHANNELS) as usize,
                ),
                ..*old(self)
            }),
    {
        self.cursor_frames = self.cursor_frames.wrapping_add(samples / OUTPUT_CHANNELS);
    }

    /// Whether a refill is worth starting: the stream is not stopped, and it
    /// is not the case that the decoder is done and the buffer empty.
    pub fn pump_needed(&self, buffered_samples: usize) -> (b: bool)
        ensures
            b == (self.spec_state() != PlaybackState::Stopped && !(self.spec_finished()
                && buffered_samples == 0)),
    {
        if self.state == PlaybackState::Stopped {
            return false;
        }
        !(self.finished && buffered_samples == 0)
    }

    /// Record a decoding step of `requested_frames` that gave `frames_read`
    /// frames, of whose samples the buffer took `written_samples`.
    ///
    /// A buffer that took less than it was given stops the refill. A short
    /// read means the decoder reached its end: a looping stream asks for a
    /// seek back to the start, any other stream is marked finished and stops.
    pub fn after_decode(&mut self, requested_frames: usize, frames_read: usize, written_samples: usize) -> (step: PumpStep)
        requires
            frames_read <= requested_frames <= DECODE_CHUNK_FRAMES,
        ensures
            frames_read > 0 && written_samples < frames_read * OUTPUT_CHANNELS ==> step
                == PumpStep::Stop && *final(self) == *old(self),
            !(frames_read > 0 && written_samples < frames_read * OUTPUT_CHANNELS) ==> {
                &&& frames_read == requested_frames ==> step == PumpStep::Continue && *final(self)
                    == *old(self)
                &&& frames_read < requested_frames && old(self).spec_looping() ==> step
                    == PumpStep::SeekToStart && *final(self) == *old(self)
                &&& frames_read < requested_frames && !old(self).spec_looping() ==> step
                    == PumpStep::Stop && *final(self) == (StreamControl {
                    finished: true,
                    ..*old(self)
                })
            },
    {
        if frames_read > 0 && written_samples < frames_read * OUTPUT_CHANNELS {
            return PumpStep::Stop;
        }
        if frames_read < requested_frames {
            if self.looping {
                return PumpStep::SeekToStart;
            }
            self.finished = true;
            return PumpStep::Stop;
        }
        PumpStep::Continue
    }

    /// Record a successful seek back to the start after a short read of
    /// `frames_read` frames: the stream is no longer finished and decoding
    /// continues, unless the read was empty, in which case the audio makes no
    /// progress, the stream is finished and the refill stops.
    pub fn after_seek(&mut self, frames_read: usize) -> (step: PumpStep)
        ensures
            frames_read == 0 ==> step == PumpStep::Stop && *final(self) == (StreamControl {
                finished: true,
                ..*old(self)
            }),
            frames_read > 0 ==> step == PumpStep::Continue && *final(self) == (StreamControl {
                finished: false,
                ..*old(self)
            }),
    {
        self.finished = false;
        if frames_read == 0 {
            self.finished = true;
            return PumpStep::Stop;
        }
        PumpStep::Continue
    }

    /// After mixing: a finished stream whose buffer is drained stops.
    pub fn settle_after_mix(&mut self, buffered_samples: usize)
        ensures
            *final(self) == (if old(self).spec_finished() && buffered_samples == 0 {
                StreamControl { state: PlaybackState::Stopped, ..*old(self) }
            } else {
                *old(self)
            }),
    {
        if self.finished && buffered_samples == 0 {
            self.state = PlaybackState::Stopped;
        }
    }
}

/// Frames to ask the decoder for, given the samples the ring holds and the
/// samples it has room for: none once it holds its target of
/// `STREAM_BUFFER_FRAMES` frames; otherwise as many whole frames as fit in
/// the free space, at most `DECODE_CHUNK_FRAMES`, and none when no frame
/// fits.
pub open spec fn decode_request(buffered_samples: nat, free_samples: nat) -> Option<usize> {
    if buffered_samples >= STREAM_BUFFER_FRAMES * OUTPUT_CHANNELS {
        None
    } else {
        let fit = free_samples / (OUTPUT_CHANNELS as nat);
        let frames = if fit < DECODE_CHUNK_FRAMES { fit } else { DECODE_CHUNK_FRAMES as nat };
        if frames == 0 {
            None
        } else {
            Some(frames as usize)
        }
    }
}

/// Frames to ask the decoder for; see `decode_request`.
pub fn next_decode_request(buffered_samples: usize, free_samples: usize) -> (r: Option<usize>)
    ensures
        r == decode_request(buffered_samples as nat, free_samples as nat),
{
    if buffered_samples >= STREAM_BUFFER_FRAMES * OUTPUT_CHANNELS {
        return None;
    }
    let fit = free_samples / OUTPUT_CHANNELS;
    let frames = if fit < DECODE_CHUNK_FRAMES { fit } else { DECODE_CHUNK_FRAMES };
    if frames == 0 {
        None
    } else {
        Some(frames)
    }
}

/// A refill never asks for more than the ring has room for: every frame a
/// request names fits, so the ring takes all of a full decode.
pub proof fn lemma_decode_request_fits(buffered_samples: nat, free_samples: nat)
    ensures
        decode_request(buffered_samples, free_samples) matches Some(frames) ==> {
            &&& 0 < frames <= DECODE_CHUNK_FRAMES
            &&& frames * OUTPUT_CHANNELS <= free_samples
        },
{
}

/// Where a sound voice reads its next frame.
#[derive(Debug, Clone, Copy, PartialEq, Eq, Structural)]
pub enum VoiceStep {
    /// Read this frame of the audio.
    Read(usize),
    /// The audio has ended: stop the voice.
    Stop,
}

/// The next frame a voice at `cursor` reads from audio of `frames` frames:
/// the cursor's own frame while it lies inside the audio; past the end, the
/// first frame again for a looping voice with audio, else the voice stops.
pub fn next_voice_frame(cursor: usize, frames: usize, looping: bool) -> (s: VoiceStep)
    ensures
        cursor < frames ==> s == VoiceStep::Read(cursor),
        cursor >= frames && looping && frames > 0 ==> s == VoiceStep::Read(0),
        cursor >= frames && !(looping && frames > 0) ==> s == VoiceStep::Stop,
        s matches VoiceStep::Read(f) ==> f < frames,
{
    if cursor < frames {
        VoiceStep::Read(cursor)
    } else if looping && frames > 0 {
        VoiceStep::Read(0)
    } else {
        VoiceStep::Stop
    }
}

} // verus!
