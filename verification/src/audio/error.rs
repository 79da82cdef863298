//! Errors of the audio engine.
use vstd::prelude::*;
use vstd::std_specs::convert::FromSpecImpl;

verus! {

#[verifier::external_type_specification]
#[verifier::external_body]
pub struct ExIoError(std::io::Error);

/// An audio engine error.
#[derive(Debug)]
pub enum AudioError {
    /// The playback backend could not be started.
    BackendInitFailed(String),
    /// A file could not be decoded.
    DecoderFailed(String),
    /// An argument or a state was rejected.
    InvalidState(String),
    /// The audio format is not supported.
    UnsupportedFormat(String),
    /// The command queue lock was poisoned.
    CommandQueuePoisoned,
    /// The sound cache lock was poisoned.
    SoundCachePoisoned,
    /// The active sound voices lock was poisoned.
    ActiveSoundVoicesPoisoned,
    /// The active music streams lock was poisoned.
    ActiveMusicStreamsPoisoned,
    /// The music decoder lock was poisoned.
    MusicDecoderPoisoned,
    /// An I/O error.
    Io(std::io::Error),
}

/// Result type of the audio engine.
pub type AudioResult<T> = Result<T, AudioError>;

impl From<std::io::Error> for AudioError {
    /// Wrap an I/O error.
    fn from(error: std::io::Error) -> (e: Self) {
        AudioError::Io(error)
    }
}

impl FromSpecImpl<std::io::Error> for AudioError {
    open spec fn obeys_from_spec() -> bool {
        true
    }

    open spec fn from_spec(error: std::io::Error) -> AudioError {
        AudioError::Io(error)
    }
}

/// `r` failed with `InvalidState` and exactly the text `msg`.
pub open spec fn is_audio_invalid_state<T>(r: AudioResult<T>, msg: Seq<char>) -> bool {
    r matches Err(AudioError::InvalidState(m)) && m@ == msg
}

/// `r` failed with `UnsupportedFormat` and exactly the text `msg`.
pub open spec fn is_unsupported_format<T>(r: AudioResult<T>, msg: Seq<char>) -> bool {
    r matches Err(AudioError::UnsupportedFormat(m)) && m@ == msg
}

/// `r` failed with `DecoderFailed` and exactly the text `msg`.
pub open spec fn is_decoder_failed<T>(r: AudioResult<T>, msg: Seq<char>) -> bool {
    r matches Err(AudioError::DecoderFailed(m)) && m@ == msg
}

/// The message of an error, for every variant but `Io`.
pub open spec fn audio_error_message(e: AudioError) -> Seq<char> {
    match e {
        AudioError::BackendInitFailed(m) => "Audio backend init failed: "@ + m@,
        AudioError::DecoderFailed(m) => "Audio decoder failed: "@ + m@,
        AudioError::InvalidState(m) => "Invalid audio state: "@ + m@,
        AudioError::UnsupportedFormat(m) => "Unsupported audio format: "@ + m@,
        AudioError::CommandQueuePoisoned => "Audio command queue lock was poisoned"@,
        AudioError::SoundCachePoisoned => "Audio sound cache lock was poisoned"@,
        AudioError::ActiveSoundVoicesPoisoned => "Active sound voices lock was poisoned"@,
        AudioError::ActiveMusicStreamsPoisoned => "Active music streams lock was poisoned"@,
        AudioError::MusicDecoderPoisoned => "Music decoder lock was poisoned"@,
        AudioError::Io(_) => "IO error: "@,
    }
}

impl AudioError {
    /// The human-readable message of the error; for `Io` it is `"IO error: "`
    /// followed by the text std gives the I/O error.
    pub fn message(&self) -> (m: String)
        ensures
            !(*self is Io) ==> m@ == audio_error_message(*self),
            *self is Io ==> m@.subrange(0, 10) == "IO error: "@,
    {
        match self {
            AudioError::BackendInitFailed(m) => {
                let mut s = String::from_str("Audio backend init failed: ");
                s.append(m.as_str());
                s
            },
            AudioError::DecoderFailed(m) => {
                let mut s = String::from_str("Audio decoder failed: ");
                s.append(m.as_str());
                s
            },
            AudioError::InvalidState(m) => {
                let mut s = String::from_str("Invalid audio state: ");
                s.append(m.as_str());
                s
            },
            AudioError::UnsupportedFormat(m) => {
                let mut s = String::from_str("Unsupported audio format: ");
                s.append(m.as_str());
                s
            },
            AudioError::CommandQueuePoisoned => String::from_str("Audio command queue lock was poisoned"),
            AudioError::SoundCachePoisoned => String::from_str("Audio sound cache lock was poisoned"),
            AudioError::ActiveSoundVoicesPoisoned => String::from_str("Active sound voices lock was poisoned"),
            AudioError::ActiveMusicStreamsPoisoned => String::from_str("Active music streams lock was poisoned"),
            AudioError::MusicDecoderPoisoned => String::from_str("Music decoder lock was poisoned"),
            AudioError::Io(error) => {
                let mut s = String::from_str("IO error: ");
                let ghost prefix = s@;
                proof { reveal_strlit("IO error: "); }
                let detail = io_error_text(error);
                s.append(detail.as_str());
                assert(s@.subrange(0, 10) =~= prefix);
                s
            },
        }
    }
}

/// `to_string` of an I/O error, through its `Display` impl in std; nothing
/// is claimed of the text.
#[verifier::external_body]
fn io_error_text(error: &std::io::Error) -> String {
    error.to_string()
}

} // verus!
