use vmnl::audio::bus::{AudioBus, AudioBusState, BusKind, FULL_VOLUME_BITS, SILENT_BITS};
use vmnl::audio::config::{check_render_buffer_len, AudioConfig};
use vmnl::audio::decode::{
    at_least_one, check_flac_header, check_wav_header, frame_count, integer_sample_scale,
    plan_resample_to_stereo, reads_16_bit_samples, AudioDecoder, AudioFormat, DecodedAudio,
    ResamplePlan,
};
use vmnl::audio::error::AudioError;
use vmnl::audio::ring::SampleRing;
use vmnl::audio::runtime::{
    anything_playing, enforce_voice_limit, oldest_voice_index, register_voice, AudioCommand, PlaybackAction,
    RuntimeControl, DEFAULT_MAX_SOUND_VOICES,
};
use vmnl::audio::stream::{
    next_decode_request, next_voice_frame, PlaybackState, PumpStep, StreamControl, VoiceStep,
};

fn message<T>(result: Result<T, AudioError>) -> String {
    match result {
        Err(err) => err.message(),
        Ok(_) => panic!("expected an error"),
    }
}

fn lerp(a: f32, b: f32, offset: u64, span: u64) -> f32 {
    a + (b - a) * ((offset as f64 / span as f64) as f32)
}

#[test]
fn bus_mute_round_trip_restores_the_gain() {
    let mut bus = AudioBus::new(BusKind::Music);
    assert_eq!(bus.kind(), BusKind::Music);
    assert_eq!(bus.gain_bits(), FULL_VOLUME_BITS);
    bus.set_volume_bits(0.5f32.to_bits());
    bus.mute();
    assert!(bus.is_muted());
    assert_eq!(bus.gain_bits(), SILENT_BITS);
    bus.unmute();
    assert_eq!(f32::from_bits(bus.gain_bits()), 0.5);
}

#[test]
fn paused_bus_is_silent_until_resumed() {
    let mut bus = AudioBus::new(BusKind::Sfx);
    bus.pause();
    assert!(bus.is_paused());
    assert_eq!(bus.gain_bits(), SILENT_BITS);
    bus.unmute();
    assert_eq!(bus.gain_bits(), SILENT_BITS);
    bus.resume();
    assert_eq!(bus.gain_bits(), FULL_VOLUME_BITS);
    assert_eq!(bus.volume_bits(), FULL_VOLUME_BITS);
}

#[test]
fn new_buses_start_fresh_and_apart() {
    let mut first = AudioBus::new(BusKind::Music);
    let second = AudioBus::new(BusKind::Music);
    first.mute();
    first.apply(AudioCommand::PauseBus(BusKind::Sfx));
    assert!(first.is_muted() && first.is_paused());
    assert_eq!(second.state(), AudioBusState::new());
    assert!(!second.is_muted() && !second.is_paused());
    assert_eq!(second.gain_bits(), FULL_VOLUME_BITS);
    let runtime = RuntimeControl::new();
    assert_eq!(runtime.bus(BusKind::Music).kind(), BusKind::Music);
    assert_eq!(runtime.bus(BusKind::Music).state(), AudioBusState::new());
}

#[test]
fn copies_of_a_runtime_bus_handle_share_its_state() {
    let mut runtime = RuntimeControl::new();
    let music = runtime.music_bus();
    let copy = music.clone();
    music.mute(&mut runtime);
    assert!(copy.is_muted(&runtime));
    copy.pause(&mut runtime);
    assert!(music.is_paused(&runtime));
    music.set_volume_bits(&mut runtime, 0.25f32.to_bits());
    assert_eq!(f32::from_bits(copy.volume_bits(&runtime)), 0.25);
    assert_eq!(runtime.bus_gain_bits(BusKind::Music), SILENT_BITS);
    copy.unmute(&mut runtime);
    music.resume(&mut runtime);
    assert_eq!(f32::from_bits(runtime.bus_gain_bits(BusKind::Music)), 0.25);
    assert_eq!(runtime.bus_gain_bits(BusKind::Sfx), FULL_VOLUME_BITS);
    assert!(!runtime.sfx_bus().is_muted(&runtime));
    assert_eq!(runtime.bus_state(BusKind::Master), AudioBusState::new());
}

#[test]
fn queued_bus_pause_and_resume() {
    let mut runtime = RuntimeControl::new();
    runtime.enqueue(AudioCommand::PauseBus(BusKind::Sfx));
    assert!(runtime.apply_commands().is_empty());
    assert!(runtime.bus_state(BusKind::Sfx).paused);
    assert_eq!(runtime.bus_gain_bits(BusKind::Sfx), SILENT_BITS);
    runtime.enqueue(AudioCommand::ResumeBus(BusKind::Sfx));
    runtime.apply_commands();
    assert_eq!(runtime.bus_gain_bits(BusKind::Sfx), FULL_VOLUME_BITS);
}

#[test]
fn registering_a_voice_keeps_the_limit() {
    let mut runtime = RuntimeControl::new();
    runtime.set_max_sound_voices(2);
    let mut voices = vec![(5u64, 'e'), (2, 'b')];
    let stopped = register_voice(&runtime, &mut voices, (7, 'g'));
    assert_eq!(stopped, vec![(2, 'b')]);
    assert_eq!(voices, vec![(5, 'e'), (7, 'g')]);
    let stopped = register_voice(&runtime, &mut voices, (1, 'a'));
    assert_eq!(stopped, vec![(1, 'a')]);
    assert_eq!(voices, vec![(5, 'e'), (7, 'g')]);
}

#[test]
fn voice_frames_loop_or_stop_at_the_end() {
    assert_eq!(next_voice_frame(3, 10, false), VoiceStep::Read(3));
    assert_eq!(next_voice_frame(10, 10, true), VoiceStep::Read(0));
    assert_eq!(next_voice_frame(10, 10, false), VoiceStep::Stop);
    assert_eq!(next_voice_frame(0, 0, true), VoiceStep::Stop);
}

#[test]
fn config_defaults_and_validation() {
    let mut config = AudioConfig::default();
    assert_eq!(config.sample_rate(), 44_100);
    assert_eq!(config.channels(), 2);
    assert_eq!(config.master_volume_bits(), FULL_VOLUME_BITS);
    assert!(config.validate_for_device().is_ok());
    assert_eq!(
        message(config.set_sample_rate(0)),
        "Invalid audio state: sample_rate must be greater than zero"
    );
    assert_eq!(config.sample_rate(), 44_100);
    assert!(config.set_sample_rate(48_000).is_ok());
    assert_eq!(config.sample_rate(), 48_000);
    assert_eq!(
        message(config.set_channels(1)),
        "Unsupported audio format: the current mixer/backend requires exactly 2 output channels"
    );
    assert_eq!(config.channels(), 2);
    config.set_master_volume_bits(0.25f32.to_bits());
    assert_eq!(f32::from_bits(config.master_volume_bits()), 0.25);
}

#[test]
fn render_buffers_hold_whole_frames() {
    assert!(check_render_buffer_len(512, 2).is_ok());
    assert_eq!(
        message(check_render_buffer_len(511, 2)),
        "Invalid audio state: output buffer length must be a multiple of the device channel count"
    );
}

#[test]
fn error_messages_match_their_variants() {
    assert_eq!(AudioError::CommandQueuePoisoned.message(), "Audio command queue lock was poisoned");
    assert_eq!(AudioError::SoundCachePoisoned.message(), "Audio sound cache lock was poisoned");
    assert_eq!(
        AudioError::ActiveSoundVoicesPoisoned.message(),
        "Active sound voices lock was poisoned"
    );
    assert_eq!(
        AudioError::ActiveMusicStreamsPoisoned.message(),
        "Active music streams lock was poisoned"
    );
    assert_eq!(AudioError::MusicDecoderPoisoned.message(), "Music decoder lock was poisoned");
    assert_eq!(
        AudioError::BackendInitFailed("no device".to_owned()).message(),
        "Audio backend init failed: no device"
    );
    let io: AudioError = std::io::Error::new(std::io::ErrorKind::NotFound, "gone").into();
    assert_eq!(io.message(), "IO error: gone");
}

#[test]
fn extensions_select_decoders_without_regard_to_case() {
    assert_eq!(AudioFormat::from_extension("wav"), Some(AudioFormat::Wav));
    assert_eq!(AudioFormat::from_extension("MP3"), Some(AudioFormat::Mp3));
    assert_eq!(AudioFormat::from_extension("Ogg"), Some(AudioFormat::Ogg));
    assert_eq!(AudioFormat::from_extension("fLaC"), Some(AudioFormat::Flac));
    assert_eq!(AudioFormat::from_extension("aiff"), None);
    assert_eq!(AudioFormat::from_extension(""), None);
    assert_eq!(AudioFormat::from_extension("wave"), None);
}

#[test]
fn wav_and_flac_headers_are_checked_in_order() {
    assert_eq!(
        message(check_wav_header(0, 0, Some(0))),
        "Audio decoder failed: WAV file has zero channels"
    );
    assert_eq!(
        message(check_wav_header(2, 0, Some(16))),
        "Audio decoder failed: WAV file has zero sample rate"
    );
    assert_eq!(
        message(check_wav_header(2, 44_100, Some(33))),
        "Audio decoder failed: unsupported WAV bit depth: 33"
    );
    assert!(check_wav_header(2, 44_100, None).is_ok());
    assert!(check_wav_header(1, 8_000, Some(24)).is_ok());
    assert_eq!(
        message(check_flac_header(0, 44_100, 16)),
        "Audio decoder failed: FLAC file has zero channels"
    );
    assert_eq!(
        message(check_flac_header(2, 0, 16)),
        "Audio decoder failed: FLAC file has zero sample rate"
    );
    assert_eq!(
        message(check_flac_header(2, 44_100, 0)),
        "Audio decoder failed: unsupported FLAC bit depth: 0"
    );
    assert!(check_flac_header(2, 44_100, 32).is_ok());
}

#[test]
fn integer_sample_helpers() {
    assert_eq!(integer_sample_scale(1), 1);
    assert_eq!(integer_sample_scale(16), 32_768);
    assert_eq!(integer_sample_scale(32), 2_147_483_648);
    assert!(reads_16_bit_samples(16));
    assert!(!reads_16_bit_samples(24));
    assert_eq!(at_least_one(0), 1);
    assert_eq!(at_least_one(3), 3);
    assert_eq!(frame_count(7, 2), 3);
    assert_eq!(frame_count(7, 0), 0);
}

#[test]
fn resample_plans_follow_the_input() {
    assert_eq!(
        message(plan_resample_to_stereo(2, 44_100, 4, 0)),
        "Invalid audio state: target sample rate must be greater than zero"
    );
    assert_eq!(
        message(plan_resample_to_stereo(6, 44_100, 12, 48_000)),
        "Unsupported audio format: sound input has 6 channels, but the mixer accepts mono or stereo"
    );
    assert!(matches!(plan_resample_to_stereo(2, 44_100, 1, 48_000), Ok(ResamplePlan::Empty)));
    assert!(matches!(plan_resample_to_stereo(2, 48_000, 8, 48_000), Ok(ResamplePlan::Keep)));
    assert!(matches!(plan_resample_to_stereo(1, 48_000, 4, 48_000), Ok(ResamplePlan::Convert(4))));
    assert!(matches!(plan_resample_to_stereo(2, 44_100, 6, 48_000), Ok(ResamplePlan::Convert(4))));
    assert!(matches!(plan_resample_to_stereo(1, 2, 3, 1), Ok(ResamplePlan::Convert(2))));
}

#[test]
fn resample_copies_stereo_at_the_target_rate() {
    let audio = DecodedAudio::new(2, 48_000, vec![0.1f32, 0.2, 0.3, 0.4]);
    let out = AudioDecoder::resample_to_stereo(&audio, 48_000, lerp).map_err(|_| ()).unwrap();
    assert_eq!(out.channels(), 2);
    assert_eq!(out.sample_rate(), 48_000);
    assert_eq!(out.samples(), &vec![0.1f32, 0.2, 0.3, 0.4]);
}

#[test]
fn resample_duplicates_mono_into_both_channels() {
    let audio = DecodedAudio::new(1, 10, vec![0.0f32, 1.0]);
    let out = AudioDecoder::resample_to_stereo(&audio, 20, lerp).map_err(|_| ()).unwrap();
    assert_eq!(out.frame_count(), 4);
    assert_eq!(out.samples(), &vec![0.0f32, 0.0, 0.5, 0.5, 1.0, 1.0, 1.0, 1.0]);
}

#[test]
fn resample_interpolates_each_stereo_channel() {
    let audio = DecodedAudio::new(2, 20, vec![0.0f32, 1.0, 1.0, 0.0, 0.5, 0.5]);
    let out = AudioDecoder::resample_to_stereo(&audio, 10, lerp).map_err(|_| ()).unwrap();
    assert_eq!(out.samples(), &vec![0.0f32, 1.0, 0.5, 0.5]);
}

#[test]
fn resample_of_empty_audio_is_empty_stereo() {
    let audio: DecodedAudio<f32> = DecodedAudio::new(1, 44_100, Vec::new());
    assert!(audio.is_empty());
    let out = AudioDecoder::resample_to_stereo(&audio, 48_000, lerp).map_err(|_| ()).unwrap();
    assert_eq!(out.channels(), 2);
    assert_eq!(out.sample_rate(), 48_000);
    assert!(out.is_empty());
}

#[test]
fn resample_refuses_bad_rates_and_layouts() {
    let audio = DecodedAudio::new(3, 44_100, vec![0.0f32; 6]);
    assert!(matches!(
        AudioDecoder::resample_to_stereo(&audio, 48_000, lerp),
        Err(AudioError::UnsupportedFormat(_))
    ));
    let stereo = DecodedAudio::new(2, 44_100, vec![0.0f32; 6]);
    assert!(matches!(
        AudioDecoder::resample_to_stereo(&stereo, 0, lerp),
        Err(AudioError::InvalidState(_))
    ));
}

#[test]
fn playback_state_codes_round_trip() {
    for state in [PlaybackState::Playing, PlaybackState::Paused, PlaybackState::Stopped] {
        assert_eq!(PlaybackState::from_code(state.to_code()), state);
    }
    assert_eq!(PlaybackState::from_code(200), PlaybackState::Stopped);
}

#[test]
fn stream_control_follows_playback_commands() {
    let mut stream =
        StreamControl::new(7, BusKind::Music, FULL_VOLUME_BITS, false, PlaybackState::Paused, 44_100)
            .map_err(|_| ())
            .unwrap();
    assert_eq!(stream.id(), 7);
    assert_eq!(stream.bus(), BusKind::Music);
    assert!(stream.is_paused());
    stream.start();
    assert!(stream.is_playing());
    stream.pause();
    stream.resume();
    assert!(stream.is_playing());
    stream.stop();
    assert!(stream.is_stopped() && stream.is_finished() && !stream.is_live());
    stream.resume();
    assert!(stream.is_stopped());
    assert_eq!(
        message(StreamControl::new(1, BusKind::Music, 0, false, PlaybackState::Playing, 0)),
        "Invalid audio state: target sample rate must be greater than zero"
    );
}

#[test]
fn stream_pump_decisions() {
    let mut stream =
        StreamControl::new(1, BusKind::Music, FULL_VOLUME_BITS, false, PlaybackState::Playing, 48_000)
            .map_err(|_| ())
            .unwrap();
    assert!(stream.pump_needed(0));
    assert_eq!(next_decode_request(0, 44_100), Some(4096));
    assert_eq!(next_decode_request(0, 3), Some(1));
    assert_eq!(next_decode_request(0, 1), None);
    assert_eq!(next_decode_request(44_100, 0), None);
    assert_eq!(stream.after_decode(4096, 4096, 8192), PumpStep::Continue);
    assert_eq!(stream.after_decode(4096, 100, 150), PumpStep::Stop);
    assert!(!stream.is_finished());
    assert_eq!(stream.after_decode(4096, 100, 200), PumpStep::Stop);
    assert!(stream.is_finished());
    assert!(stream.pump_needed(10));
    assert!(!stream.pump_needed(0));
    stream.settle_after_mix(10);
    assert!(stream.is_playing());
    stream.settle_after_mix(0);
    assert!(stream.is_stopped());
    assert!(!stream.pump_needed(10));
}

#[test]
fn looping_stream_seeks_back_to_its_start() {
    let mut stream =
        StreamControl::new(2, BusKind::Music, FULL_VOLUME_BITS, true, PlaybackState::Playing, 48_000)
            .map_err(|_| ())
            .unwrap();
    assert_eq!(stream.after_decode(4096, 10, 20), PumpStep::SeekToStart);
    assert!(!stream.is_finished());
    assert_eq!(stream.after_seek(10), PumpStep::Continue);
    assert!(!stream.is_finished());
    assert_eq!(stream.after_decode(4096, 0, 0), PumpStep::SeekToStart);
    assert_eq!(stream.after_seek(0), PumpStep::Stop);
    assert!(stream.is_finished());
}

#[test]
fn stream_cursor_counts_frames() {
    let mut stream =
        StreamControl::new(3, BusKind::Music, FULL_VOLUME_BITS, false, PlaybackState::Playing, 48_000)
            .map_err(|_| ())
            .unwrap();
    stream.advance_cursor(512);
    stream.advance_cursor(3);
    assert_eq!(stream.cursor_frames(), 257);
    stream.set_cursor_frames(usize::MAX);
    stream.advance_cursor(4);
    assert_eq!(stream.cursor_frames(), 1);
}

#[test]
fn ring_reads_back_what_was_written_in_order() {
    let mut ring = SampleRing::new(4, 0u8);
    assert_eq!(ring.capacity(), 4);
    assert_eq!(ring.write(&[1, 2, 3, 4, 5]), 4);
    assert_eq!(ring.available_read(), 4);
    assert_eq!(ring.available_write(), 0);
    let mut out = [9u8; 3];
    assert_eq!(ring.read(&mut out), 3);
    assert_eq!(out, [1, 2, 3]);
    assert_eq!(ring.write(&[6, 7, 8, 9]), 3);
    let mut rest = [0u8; 6];
    assert_eq!(ring.read(&mut rest), 4);
    assert_eq!(rest, [4, 6, 7, 8, 0, 0]);
    assert_eq!(ring.available_read(), 0);
    assert_eq!(ring.read(&mut rest), 0);
}

#[test]
fn runtime_applies_commands_in_order() {
    let mut runtime = RuntimeControl::new();
    assert_eq!(runtime.max_sound_voices(), DEFAULT_MAX_SOUND_VOICES);
    runtime.enqueue(AudioCommand::SetBusVolume(BusKind::Music, 0.5f32.to_bits()));
    runtime.enqueue(AudioCommand::MuteBus(BusKind::Sfx));
    runtime.enqueue(AudioCommand::PauseAll);
    runtime.enqueue(AudioCommand::SetMaxVoices(0));
    runtime.enqueue(AudioCommand::UnmuteBus(BusKind::Sfx));
    runtime.enqueue(AudioCommand::SetMasterVolume(0.25f32.to_bits()));
    runtime.force_stop_all();
    let actions = runtime.apply_commands();
    assert_eq!(
        actions,
        vec![PlaybackAction::PauseAll, PlaybackAction::LimitVoices(1), PlaybackAction::StopAll]
    );
    assert_eq!(runtime.max_sound_voices(), 1);
    assert_eq!(f32::from_bits(runtime.bus_gain_bits(BusKind::Music)), 0.5);
    assert_eq!(runtime.bus_gain_bits(BusKind::Sfx), FULL_VOLUME_BITS);
    assert_eq!(f32::from_bits(runtime.master_bus().volume_bits(&runtime)), 0.25);
    assert!(runtime.apply_commands().is_empty());
}

#[test]
fn runtime_ids_count_up() {
    let mut runtime = RuntimeControl::default();
    assert_eq!(runtime.next_voice_id(), 1);
    assert_eq!(runtime.next_voice_id(), 2);
    assert_eq!(runtime.next_stream_id(), 1);
    assert_eq!(runtime.set_max_sound_voices(8), 8);
    assert_eq!(runtime.music_bus().kind(), BusKind::Music);
    assert_eq!(runtime.sfx_bus().kind(), BusKind::Sfx);
}

#[test]
fn voice_limit_stops_the_oldest_voices_first() {
    let mut voices = vec![(3u64, 'c'), (1, 'a'), (2, 'b'), (4, 'd')];
    assert_eq!(oldest_voice_index(&voices), Some(1));
    let stopped = enforce_voice_limit(&mut voices, 2);
    assert_eq!(stopped, vec![(1, 'a'), (2, 'b')]);
    assert_eq!(voices, vec![(3, 'c'), (4, 'd')]);
    assert!(enforce_voice_limit(&mut voices, 5).is_empty());
}

#[test]
fn voice_limit_prefers_the_first_of_equal_ids_and_skips_max_ids() {
    let mut voices = vec![(u64::MAX, 'x'), (5, 'a'), (5, 'b')];
    let stopped = enforce_voice_limit(&mut voices, 1);
    assert_eq!(stopped, vec![(5, 'a'), (5, 'b')]);
    assert_eq!(voices, vec![(u64::MAX, 'x')]);
    let mut stuck = vec![(u64::MAX, 'x'), (u64::MAX, 'y')];
    assert_eq!(oldest_voice_index(&stuck), None);
    assert!(enforce_voice_limit(&mut stuck, 1).is_empty());
    assert_eq!(stuck.len(), 2);
}

#[test]
fn anything_playing_looks_at_voices_then_streams() {
    assert!(!anything_playing(&[], &[]));
    assert!(anything_playing(&[PlaybackState::Stopped, PlaybackState::Paused], &[]));
    assert!(!anything_playing(
        &[PlaybackState::Stopped],
        &[(PlaybackState::Playing, true), (PlaybackState::Stopped, false)]
    ));
    assert!(anything_playing(&[], &[(PlaybackState::Paused, false)]));
}
