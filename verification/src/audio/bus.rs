//! Mixing buses: the state each bus has, buses that own their state, and the
//! handles through which every part of the engine reaches the runtime's buses.
use vstd::prelude::*;
use super::runtime::{after_command, changed_bus, AudioCommand, RuntimeControl};

verus! {

/// The mixing buses.
#[derive(Debug, Clone, Copy, PartialEq, Eq, Structural, Hash)]
pub enum BusKind {
    /// The bus every sound passes through.
    Master,
    /// The music bus.
    Music,
    /// The sound-effects bus.
    Sfx,
}

/// Bit pattern of the `f32` value `1.0`, full volume.
pub const FULL_VOLUME_BITS: u32 = 0x3f80_0000;

/// Bit pattern of the `f32` value `0.0`, silence.
pub const SILENT_BITS: u32 = 0;

/// The state of a mixing bus: its volume (the bit pattern of an `f32` in
/// `[0.0, 1.0]`), and whether it is muted or paused.
///
/// This is a plain value: each `AudioBus` has its own.
#[derive(Clone, Copy, Debug, PartialEq, Eq, Structural)]
pub struct AudioBusState {
    pub volume_bits: u32,
    pub muted: bool,
    pub paused: bool,
}

impl AudioBusState {
    /// Bit pattern of the gain the bus applies: silence when muted or paused,
    /// its volume otherwise.
    pub open spec fn spec_gain_bits(&self) -> u32 {
        if self.muted || self.paused {
            SILENT_BITS
        } else {
            self.volume_bits
        }
    }

    /// Full volume, neither muted nor paused.
    pub open spec fn fresh() -> AudioBusState {
        AudioBusState { volume_bits: FULL_VOLUME_BITS, muted: false, paused: false }
    }

    /// Full volume, neither muted nor paused.
    pub fn new() -> (s: Self)
        ensures
            s == AudioBusState::fresh(),
    {
        AudioBusState { volume_bits: FULL_VOLUME_BITS, muted: false, paused: false }
    }

    /// Bit pattern of the gain the bus applies.
    pub fn gain_bits(&self) -> (bits: u32)
        ensures
            bits == self.spec_gain_bits(),
    {
        if self.muted || self.paused {
            SILENT_BITS
        } else {
            self.volume_bits
        }
    }
}

/// The state of bus `kind` among the master, music and sound-effect buses.
pub open spec fn bus_of(buses: (AudioBusState, AudioBusState, AudioBusState), kind: BusKind) -> AudioBusState {
    match kind {
        BusKind::Master => buses.0,
        BusKind::Music => buses.1,
        BusKind::Sfx => buses.2,
    }
}

/// The buses with the state of bus `kind` replaced.
pub open spec fn with_bus(
    buses: (AudioBusState, AudioBusState, AudioBusState),
    kind: BusKind,
    state: AudioBusState,
) -> (AudioBusState, AudioBusState, AudioBusState) {
    match kind {
        BusKind::Master => (state, buses.1, buses.2),
        BusKind::Music => (buses.0, state, buses.2),
        BusKind::Sfx => (buses.0, buses.1, state),
    }
}

/// A mixing bus: its kind and its own state.
///
/// A new bus starts at full volume, neither muted nor paused, and nothing
/// else sees its state. The runtime holds one such bus of each kind; code
/// that must reach those reaches them through `BusHandle`.
#[derive(Clone, Copy, Debug)]
pub struct AudioBus {
    kind: BusKind,
    state: AudioBusState,
}

impl AudioBus {
    /// Kind of the bus.
    pub closed spec fn spec_kind(&self) -> BusKind {
        self.kind
    }

    /// State of the bus.
    pub closed spec fn spec_state(&self) -> AudioBusState {
        self.state
    }

    /// A bus of the given kind at full volume, neither muted nor paused.
    pub fn new(kind: BusKind) -> (b: Self)
        ensures
            b.spec_kind() == kind,
            b.spec_state() == AudioBusState::fresh(),
    {
        AudioBus { kind, state: AudioBusState::new() }
    }

    /// Kind of the bus.
    pub fn kind(&self) -> (k: BusKind)
        ensures
            k == self.spec_kind(),
    {
        self.kind
    }

    /// State of the bus.
    pub fn state(&self) -> (s: AudioBusState)
        ensures
            s == self.spec_state(),
    {
        self.state
    }

    /// Set the volume bit pattern; callers clamp the volume to `[0.0, 1.0]`
    /// first.
    pub fn set_volume_bits(&mut self, bits: u32)
        ensures
            final(self).spec_kind() == old(self).spec_kind(),
            final(self).spec_state() == (AudioBusState { volume_bits: bits, ..old(self).spec_state() }),
    {
        self.state.volume_bits = bits;
    }

    /// Volume bit pattern.
    pub fn volume_bits(&self) -> (bits: u32)
        ensures
            bits == self.spec_state().volume_bits,
    {
        self.state.volume_bits
    }

    /// Mute the bus.
    pub fn mute(&mut self)
        ensures
            final(self).spec_kind() == old(self).spec_kind(),
            final(self).spec_state() == (AudioBusState { muted: true, ..old(self).spec_state() }),
    {
        self.state.muted = true;
    }

    /// Unmute the bus.
    pub fn unmute(&mut self)
        ensures
            final(self).spec_kind() == old(self).spec_kind(),
            final(self).spec_state() == (AudioBusState { muted: false, ..old(self).spec_state() }),
    {
        self.state.muted = false;
    }

    /// Whether the bus is muted.
    pub fn is_muted(&self) -> (b: bool)
        ensures
            b == self.spec_state().muted,
    {
        self.state.muted
    }

    /// Pause the bus.
    pub fn pause(&mut self)
        ensures
            final(self).spec_kind() == old(self).spec_kind(),
            final(self).spec_state() == (AudioBusState { paused: true, ..old(self).spec_state() }),
    {
        self.state.paused = true;
    }

    /// Resume the bus.
    pub fn resume(&mut self)
        ensures
            final(self).spec_kind() == old(self).spec_kind(),
            final(self).spec_state() == (AudioBusState { paused: false, ..old(self).spec_state() }),
    {
        self.state.paused = false;
    }

    /// Whether the bus is paused.
    pub fn is_paused(&self) -> (b: bool)
        ensures
            b == self.spec_state().paused,
    {
        self.state.paused
    }

    /// Bit pattern of the gain the bus applies: silence when muted or paused,
    /// its volume otherwise.
    pub fn gain_bits(&self) -> (bits: u32)
        ensures
            bits == self.spec_state().spec_gain_bits(),
    {
        self.state.gain_bits()
    }

    /// Apply a bus command to this bus, whichever bus the command names.
    pub fn apply(&mut self, command: AudioCommand)
        ensures
            final(self).spec_kind() == old(self).spec_kind(),
            final(self).spec_state() == changed_bus(old(self).spec_state(), command),
    {
        match command {
            AudioCommand::SetMasterVolume(bits) => self.set_volume_bits(bits),
            AudioCommand::SetBusVolume(_, bits) => self.set_volume_bits(bits),
            AudioCommand::MuteBus(_) => self.mute(),
            AudioCommand::UnmuteBus(_) => self.unmute(),
            AudioCommand::PauseBus(_) => self.pause(),
            AudioCommand::ResumeBus(_) => self.resume(),
            _ => {},
        }
    }
}

/// A handle on one of the runtime's buses.
///
/// Every handle of a kind, and every copy of one, names the same state: the
/// one the runtime's bus of that kind holds. Changing it through one handle
/// is seen through all of them, and by the mixer.
#[derive(Clone, Copy, Debug, PartialEq, Eq, Structural)]
pub struct BusHandle {
    kind: BusKind,
}

impl BusHandle {
    /// Kind of the bus.
    pub closed spec fn spec_kind(&self) -> BusKind {
        self.kind
    }

    /// The state this handle names in the runtime.
    pub open spec fn state_in(&self, runtime: &RuntimeControl) -> AudioBusState {
        bus_of(runtime.spec_buses(), self.spec_kind())
    }

    /// The runtime after one bus command is applied at once: the buses as
    /// `after_command` gives them, all else unchanged.
    pub open spec fn applied(before: &RuntimeControl, after: &RuntimeControl, command: AudioCommand) -> bool {
        &&& after.wf()
        &&& after.spec_buses() == after_command(
            before.spec_buses(),
            before.spec_max_sound_voices(),
            command,
        ).0
        &&& after.spec_max_sound_voices() == before.spec_max_sound_voices()
        &&& after.spec_queue() == before.spec_queue()
        &&& after.spec_next_voice_id() == before.spec_next_voice_id()
        &&& after.spec_next_stream_id() == before.spec_next_stream_id()
    }

    /// A handle on the runtime's bus of this kind.
    pub fn new(kind: BusKind) -> (b: Self)
        ensures
            b.spec_kind() == kind,
    {
        BusHandle { kind }
    }

    /// Kind of the bus.
    pub fn kind(&self) -> (k: BusKind)
        ensures
            k == self.spec_kind(),
    {
        self.kind
    }

    /// Set the volume bit pattern; callers clamp the volume to `[0.0, 1.0]`
    /// first.
    pub fn set_volume_bits(&self, runtime: &mut RuntimeControl, bits: u32)
        requires
            old(runtime).wf(),
        ensures
            BusHandle::applied(old(runtime), final(runtime), AudioCommand::SetBusVolume(self.spec_kind(), bits)),
            self.state_in(final(runtime)) == (AudioBusState { volume_bits: bits, ..self.state_in(old(runtime)) }),
    {
        runtime.apply_bus_command(AudioCommand::SetBusVolume(self.kind, bits));
    }

    /// Volume bit pattern.
    pub fn volume_bits(&self, runtime: &RuntimeControl) -> (bits: u32)
        ensures
            bits == self.state_in(runtime).volume_bits,
    {
        runtime.bus_state(self.kind).volume_bits
    }

    /// Mute the bus.
    pub fn mute(&self, runtime: &mut RuntimeControl)
        requires
            old(runtime).wf(),
        ensures
            BusHandle::applied(old(runtime), final(runtime), AudioCommand::MuteBus(self.spec_kind())),
            self.state_in(final(runtime)) == (AudioBusState { muted: true, ..self.state_in(old(runtime)) }),
    {
        runtime.apply_bus_command(AudioCommand::MuteBus(self.kind));
    }

    /// Unmute the bus.
    pub fn unmute(&self, runtime: &mut RuntimeControl)
        requires
            old(runtime).wf(),
        ensures
            BusHandle::applied(old(runtime), final(runtime), AudioCommand::UnmuteBus(self.spec_kind())),
            self.state_in(final(runtime)) == (AudioBusState { muted: false, ..self.state_in(old(runtime)) }),
    {
        runtime.apply_bus_command(AudioCommand::UnmuteBus(self.kind));
    }

    /// Whether the bus is muted.
    pub fn is_muted(&self, runtime: &RuntimeControl) -> (b: bool)
        ensures
            b == self.state_in(runtime).muted,
    {
        runtime.bus_state(self.kind).muted
    }

    /// Pause the bus.
    pub fn pause(&self, runtime: &mut RuntimeControl)
        requires
            old(runtime).wf(),
        ensures
            BusHandle::applied(old(runtime), final(runtime), AudioCommand::PauseBus(self.spec_kind())),
            self.state_in(final(runtime)) == (AudioBusState { paused: true, ..self.state_in(old(runtime)) }),
    {
        runtime.apply_bus_command(AudioCommand::PauseBus(self.kind));
    }

    /// Resume the bus.
    pub fn resume(&self, runtime: &mut RuntimeControl)
        requires
            old(runtime).wf(),
        ensures
            BusHandle::applied(old(runtime), final(runtime), AudioCommand::ResumeBus(self.spec_kind())),
            self.state_in(final(runtime)) == (AudioBusState { paused: false, ..self.state_in(old(runtime)) }),
    {
        runtime.apply_bus_command(AudioCommand::ResumeBus(self.kind));
    }

    /// Whether the bus is paused.
    pub fn is_paused(&self, runtime: &RuntimeControl) -> (b: bool)
        ensures
            b == self.state_in(runtime).paused,
    {
        runtime.bus_state(self.kind).paused
    }

    /// Bit pattern of the gain the bus applies: silence when muted or paused,
    /// its volume otherwise.
    pub fn gain_bits(&self, runtime: &RuntimeControl) -> (bits: u32)
        ensures
            bits == self.state_in(runtime).spec_gain_bits(),
    {
        runtime.bus_state(self.kind).gain_bits()
    }
}

/// Two handles of one kind share one state: whatever a bus command does
/// through one of them, the other sees; and no other bus changes.
pub proof fn lemma_handles_share_state(a: BusHandle, b: BusHandle, before: RuntimeControl, after: RuntimeControl, command: AudioCommand)
    requires
        a.spec_kind() == b.spec_kind(),
        BusHandle::applied(&before, &after, command),
        command == AudioCommand::MuteBus(a.spec_kind()) || command == AudioCommand::UnmuteBus(a.spec_kind())
            || command == AudioCommand::PauseBus(a.spec_kind()) || command == AudioCommand::ResumeBus(a.spec_kind())
            || (exists|bits: u32| command == AudioCommand::SetBusVolume(a.spec_kind(), bits)),
    ensures
        b.state_in(&after) == changed_bus(a.state_in(&before), command),
        forall|k: BusKind| k != a.spec_kind() ==> bus_of(after.spec_buses(), k) == bus_of(before.spec_buses(), k),
{
}

/// Muting a bus silences it and unmuting gives back its volume, unless it is
/// paused; volume and pause state are untouched by either.
pub proof fn lemma_mute_round_trip(before: AudioBusState)
    ensures
        (AudioBusState { muted: true, ..before }).spec_gain_bits() == SILENT_BITS,
        (AudioBusState { muted: false, ..before }).paused ==> (AudioBusState { muted: false, ..before }).spec_gain_bits() == SILENT_BITS,
        !before.paused ==> (AudioBusState { muted: false, ..before }).spec_gain_bits() == before.volume_bits,
{
}

/// Pausing a bus silences it; resuming gives back the gain it had before the
/// pause, when it was not paused then.
pub proof fn lemma_pause_round_trip(before: AudioBusState)
    ensures
        (AudioBusState { paused: true, ..before }).spec_gain_bits() == SILENT_BITS,
        !before.paused ==> (AudioBusState { paused: false, ..(AudioBusState { paused: true, ..before }) })
            == before,
{
}

} // verus!
