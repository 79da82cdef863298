//! Control side of the audio runtime: the three buses, the queue of commands
//! the game thread sends, the id counters, and the limit on sound voices.
use vstd::prelude::*;
use vstd::wrapping::u64_specs::wrapping_add;
use super::bus::{bus_of, with_bus, AudioBus, AudioBusState, BusHandle, BusKind};
use super::stream::PlaybackState;

verus! {

/// Voices a runtime keeps before it stops the oldest.
pub const DEFAULT_MAX_SOUND_VOICES: usize = 64;

/// A command for the runtime; volumes are bit patterns of `f32` values the
/// sender has clamped to `[0.0, 1.0]`.
#[derive(Debug, Clone, Copy, PartialEq, Eq, Structural)]
pub enum AudioCommand {
    /// Set the master bus volume.
    SetMasterVolume(u32),
    /// Set the volume of a bus.
    SetBusVolume(BusKind, u32),
    /// Mute a bus.
    MuteBus(BusKind),
    /// Unmute a bus.
    UnmuteBus(BusKind),
    /// Pause a bus.
    PauseBus(BusKind),
    /// Resume a bus.
    ResumeBus(BusKind),
    /// Pause every sound voice and music stream.
    PauseAll,
    /// Resume every sound voice and music stream.
    ResumeAll,
    /// Stop every sound voice and music stream.
    StopAll,
    /// Set the most sound voices kept at once.
    SetMaxVoices(usize),
}

/// What applying the queued commands asks of the voices and streams.
#[derive(Debug, Clone, Copy, PartialEq, Eq, Structural)]
pub enum PlaybackAction {
    /// Pause every voice and stream.
    PauseAll,
    /// Resume every voice and stream.
    ResumeAll,
    /// Stop every voice and stream.
    StopAll,
    /// Stop the oldest voices until at most this many remain.
    LimitVoices(usize),
}

/// The voice limit a requested maximum gives: at least one voice.
pub open spec fn effective_max_voices(max: usize) -> usize {
    if max < 1 {
        1
    } else {
        max
    }
}

/// The bus a command changes, if it changes one.
pub open spec fn bus_target(c: AudioCommand) -> Option<BusKind> {
    match c {
        AudioCommand::SetMasterVolume(_) => Some(BusKind::Master),
        AudioCommand::SetBusVolume(kind, _) => Some(kind),
        AudioCommand::MuteBus(kind) => Some(kind),
        AudioCommand::UnmuteBus(kind) => Some(kind),
        AudioCommand::PauseBus(kind) => Some(kind),
        AudioCommand::ResumeBus(kind) => Some(kind),
        _ => None,
    }
}

/// The new state a bus command gives its bus.
pub open spec fn changed_bus(state: AudioBusState, c: AudioCommand) -> AudioBusState {
    match c {
        AudioCommand::SetMasterVolume(bits) => AudioBusState { volume_bits: bits, ..state },
        AudioCommand::SetBusVolume(_, bits) => AudioBusState { volume_bits: bits, ..state },
        AudioCommand::MuteBus(_) => AudioBusState { muted: true, ..state },
        AudioCommand::UnmuteBus(_) => AudioBusState { muted: false, ..state },
        AudioCommand::PauseBus(_) => AudioBusState { paused: true, ..state },
        AudioCommand::ResumeBus(_) => AudioBusState { paused: false, ..state },
        _ => state,
    }
}

/// The buses and the voice limit after one command.
pub open spec fn after_command(
    buses: (AudioBusState, AudioBusState, AudioBusState),
    max_voices: usize,
    c: AudioCommand,
) -> ((AudioBusState, AudioBusState, AudioBusState), usize) {
    match bus_target(c) {
        Some(kind) => (with_bus(buses, kind, changed_bus(bus_of(buses, kind), c)), max_voices),
        None => match c {
            AudioCommand::SetMaxVoices(max) => (buses, effective_max_voices(max)),
            _ => (buses, max_voices),
        },
    }
}

/// The buses and the voice limit after the commands, applied in order.
pub open spec fn after_commands(
    buses: (AudioBusState, AudioBusState, AudioBusState),
    max_voices: usize,
    cmds: Seq<AudioCommand>,
) -> ((AudioBusState, AudioBusState, AudioBusState), usize)
    decreases cmds.len(),
{
    if cmds.len() == 0 {
        (buses, max_voices)
    } else {
        let (b, m) = after_commands(buses, max_voices, cmds.drop_last());
        after_command(b, m, cmds.last())
    }
}

/// What one command asks of the voices and streams.
pub open spec fn action_of(c: AudioCommand) -> Seq<PlaybackAction> {
    match c {
        AudioCommand::PauseAll => seq![PlaybackAction::PauseAll],
        AudioCommand::ResumeAll => seq![PlaybackAction::ResumeAll],
        AudioCommand::StopAll => seq![PlaybackAction::StopAll],
        AudioCommand::SetMaxVoices(max) => seq![
            PlaybackAction::LimitVoices(effective_max_voices(max)),
        ],
        _ => Seq::empty(),
    }
}

/// What the commands ask of the voices and streams, in order.
pub open spec fn actions_of(cmds: Seq<AudioCommand>) -> Seq<PlaybackAction>
    decreases cmds.len(),
{
    if cmds.len() == 0 {
        Seq::empty()
    } else {
        actions_of(cmds.drop_last()) + action_of(cmds.last())
    }
}

/// Control state of the audio runtime.
#[derive(Debug)]
pub struct RuntimeControl {
    master: AudioBus,
    music: AudioBus,
    sfx: AudioBus,
    queue: Vec<AudioCommand>,
    next_voice_id: u64,
    next_stream_id: u64,
    max_sound_voices: usize,
}

impl RuntimeControl {
    /// The three buses: master, music, sound effects.
    pub closed spec fn spec_buses(&self) -> (AudioBusState, AudioBusState, AudioBusState) {
        (self.master.spec_state(), self.music.spec_state(), self.sfx.spec_state())
    }

    /// Commands waiting to be applied, oldest first.
    pub closed spec fn spec_queue(&self) -> Seq<AudioCommand> {
        self.queue@
    }

    /// Id the next sound voice gets.
    pub closed spec fn spec_next_voice_id(&self) -> u64 {
        self.next_voice_id
    }

    /// Id the next music stream gets.
    pub closed spec fn spec_next_stream_id(&self) -> u64 {
        self.next_stream_id
    }

    /// Most sound voices kept at once.
    pub closed spec fn spec_max_sound_voices(&self) -> usize {
        self.max_sound_voices
    }

    /// Kind of each of the three buses.
    pub closed spec fn spec_bus_kinds(&self) -> (BusKind, BusKind, BusKind) {
        (self.master.spec_kind(), self.music.spec_kind(), self.sfx.spec_kind())
    }

    /// The buses are the master, music and sound-effect buses, and at least
    /// one voice is allowed.
    pub open spec fn wf(&self) -> bool {
        &&& self.spec_bus_kinds() == (BusKind::Master, BusKind::Music, BusKind::Sfx)
        &&& self.spec_max_sound_voices() >= 1
    }

    /// Buses at full volume, an empty queue, ids from 1 and room for
    /// `DEFAULT_MAX_SOUND_VOICES` voices.
    pub fn new() -> (r: Self)
        ensures
            r.wf(),
            r.spec_buses() == (AudioBusState::fresh(), AudioBusState::fresh(), AudioBusState::fresh()),
            r.spec_bus_kinds() == (BusKind::Master, BusKind::Music, BusKind::Sfx),
            r.spec_queue() == Seq::<AudioCommand>::empty(),
            r.spec_next_voice_id() == 1,
            r.spec_next_stream_id() == 1,
            r.spec_max_sound_voices() == DEFAULT_MAX_SOUND_VOICES,
    {
        RuntimeControl {
            master: AudioBus::new(BusKind::Master),
            music: AudioBus::new(BusKind::Music),
            sfx: AudioBus::new(BusKind::Sfx),
            queue: Vec::new(),
            next_voice_id: 1,
            next_stream_id: 1,
            max_sound_voices: DEFAULT_MAX_SOUND_VOICES,
        }
    }

    /// A handle on the master bus.
    pub fn master_bus(&self) -> (b: BusHandle)
        ensures
            b.spec_kind() == BusKind::Master,
    {
        BusHandle::new(BusKind::Master)
    }

    /// A handle on the music bus; every copy of it reaches the runtime's
    /// music bus.
    pub fn music_bus(&self) -> (b: BusHandle)
        ensures
            b.spec_kind() == BusKind::Music,
    {
        BusHandle::new(BusKind::Music)
    }

    /// A handle on the sound-effect bus; every copy of it reaches the
    /// runtime's sound-effect bus.
    pub fn sfx_bus(&self) -> (b: BusHandle)
        ensures
            b.spec_kind() == BusKind::Sfx,
    {
        BusHandle::new(BusKind::Sfx)
    }

    /// The runtime's bus of a kind.
    pub fn bus(&self, kind: BusKind) -> (b: &AudioBus)
        ensures
            b.spec_state() == bus_of(self.spec_buses(), kind),
            self.wf() ==> b.spec_kind() == kind,
    {
        match kind {
            BusKind::Master => &self.master,
            BusKind::Music => &self.music,
            BusKind::Sfx => &self.sfx,
        }
    }

    /// The current state of a bus.
    pub fn bus_state(&self, kind: BusKind) -> (s: AudioBusState)
        ensures
            s == bus_of(self.spec_buses(), kind),
    {
        self.bus(kind).state()
    }

    /// Apply a bus command at once, without queueing it.
    pub(crate) fn apply_bus_command(&mut self, command: AudioCommand)
        requires
            old(self).wf(),
            bus_target(command) is Some,
        ensures
            final(self).wf(),
            final(self).spec_buses() == after_command(
                old(self).spec_buses(),
                old(self).spec_max_sound_voices(),
                command,
            ).0,
            final(self).spec_max_sound_voices() == old(self).spec_max_sound_voices(),
            final(self).spec_queue() == old(self).spec_queue(),
            final(self).spec_next_voice_id() == old(self).spec_next_voice_id(),
            final(self).spec_next_stream_id() == old(self).spec_next_stream_id(),
    {
        let kind = match command {
            AudioCommand::SetBusVolume(k, _) => k,
            AudioCommand::MuteBus(k) => k,
            AudioCommand::UnmuteBus(k) => k,
            AudioCommand::PauseBus(k) => k,
            AudioCommand::ResumeBus(k) => k,
            _ => BusKind::Master,
        };
        match kind {
            BusKind::Master => self.master.apply(command),
            BusKind::Music => self.music.apply(command),
            BusKind::Sfx => self.sfx.apply(command),
        }
    }

    /// Take the next sound voice id; the counter wraps around.
    pub fn next_voice_id(&mut self) -> (id: u64)
        ensures
            id == old(self).spec_next_voice_id(),
            final(self).spec_next_voice_id() == wrapping_add(id, 1),
            final(self).spec_next_stream_id() == old(self).spec_next_stream_id(),
            final(self).spec_buses() == old(self).spec_buses(),
            final(self).spec_bus_kinds() == old(self).spec_bus_kinds(),
            final(self).spec_queue() == old(self).spec_queue(),
            final(self).spec_max_sound_voices() == old(self).spec_max_sound_voices(),
    {
        let id = self.next_voice_id;
        self.next_voice_id = id.wrapping_add(1);
        id
    }

    /// Take the next music stream id; the counter wraps around.
    pub fn next_stream_id(&mut self) -> (id: u64)
        ensures
            id == old(self).spec_next_stream_id(),
            final(self).spec_next_stream_id() == wrapping_add(id, 1),
            final(self).spec_next_voice_id() == old(self).spec_next_voice_id(),
            final(self).spec_buses() == old(self).spec_buses(),
            final(self).spec_bus_kinds() == old(self).spec_bus_kinds(),
            final(self).spec_queue() == old(self).spec_queue(),
            final(self).spec_max_sound_voices() == old(self).spec_max_sound_voices(),
    {
        let id = self.next_stream_id;
        self.next_stream_id = id.wrapping_add(1);
        id
    }

    /// Most sound voices kept at once.
    pub fn max_sound_voices(&self) -> (n: usize)
        ensures
            n == self.spec_max_sound_voices(),
    {
        self.max_sound_voices
    }

    /// Set the most sound voices kept at once, at least one, and return the
    /// limit now in force.
    pub fn set_max_sound_voices(&mut self, max: usize) -> (limit: usize)
        ensures
            limit == effective_max_voices(max),
            max >= 1 ==> limit == max,
            max == 0 ==> limit == 1,
            final(self).spec_max_sound_voices() == limit,
            final(self).spec_buses() == old(self).spec_buses(),
            final(self).spec_bus_kinds() == old(self).spec_bus_kinds(),
            final(self).spec_queue() == old(self).spec_queue(),
            final(self).spec_next_voice_id() == old(self).spec_next_voice_id(),
            final(self).spec_next_stream_id() == old(self).spec_next_stream_id(),
    {
        let limit = if max < 1 {
            1
        } else {
            max
        };
        self.max_sound_voices = limit;
        limit
    }

    /// Queue a command; it takes effect at the next `apply_commands`.
    pub fn enqueue(&mut self, command: AudioCommand)
        ensures
            final(self).spec_queue() == old(self).spec_queue().push(command),
            final(self).spec_buses() == old(self).spec_buses(),
            final(self).spec_bus_kinds() == old(self).spec_bus_kinds(),
            final(self).spec_max_sound_voices() == old(self).spec_max_sound_voices(),
            final(self).spec_next_voice_id() == old(self).spec_next_voice_id(),
            final(self).spec_next_stream_id() == old(self).spec_next_stream_id(),
    {
        self.queue.push(command);
    }

    /// Queue a stop of every voice and stream.
    pub fn force_stop_all(&mut self)
        ensures
            final(self).spec_queue() == old(self).spec_queue().push(AudioCommand::StopAll),
            final(self).spec_buses() == old(self).spec_buses(),
            final(self).spec_bus_kinds() == old(self).spec_bus_kinds(),
            final(self).spec_max_sound_voices() == old(self).spec_max_sound_voices(),
            final(self).spec_next_voice_id() == old(self).spec_next_voice_id(),
            final(self).spec_next_stream_id() == old(self).spec_next_stream_id(),
    {
        self.enqueue(AudioCommand::StopAll);
    }

    /// Queue a pause of every voice and stream.
    pub fn force_pause_all(&mut self)
        ensures
            final(self).spec_queue() == old(self).spec_queue().push(AudioCommand::PauseAll),
            final(self).spec_buses() == old(self).spec_buses(),
            final(self).spec_bus_kinds() == old(self).spec_bus_kinds(),
            final(self).spec_max_sound_voices() == old(self).spec_max_sound_voices(),
            final(self).spec_next_voice_id() == old(self).spec_next_voice_id(),
            final(self).spec_next_stream_id() == old(self).spec_next_stream_id(),
    {
        self.enqueue(AudioCommand::PauseAll);
    }

    /// Queue a resume of every voice and stream.
    pub fn force_resume_all(&mut self)
        ensures
            final(self).spec_queue() == old(self).spec_queue().push(AudioCommand::ResumeAll),
            final(self).spec_buses() == old(self).spec_buses(),
            final(self).spec_bus_kinds() == old(self).spec_bus_kinds(),
            final(self).spec_max_sound_voices() == old(self).spec_max_sound_voices(),
            final(self).spec_next_voice_id() == old(self).spec_next_voice_id(),
            final(self).spec_next_stream_id() == old(self).spec_next_stream_id(),
    {
        self.enqueue(AudioCommand::ResumeAll);
    }

    /// Apply the queued commands in order and empty the queue. Bus commands
    /// and voice limits take effect here; what the commands ask of the voices
    /// and streams comes back, in order.
    pub fn apply_commands(&mut self) -> (actions: Vec<PlaybackAction>)
        requires
            old(self).wf(),
        ensures
            final(self).wf(),
            (final(self).spec_buses(), final(self).spec_max_sound_voices()) == after_commands(
                old(self).spec_buses(),
                old(self).spec_max_sound_voices(),
                old(self).spec_queue(),
            ),
            actions@ == actions_of(old(self).spec_queue()),
            final(self).spec_queue() == Seq::<AudioCommand>::empty(),
            final(self).spec_next_voice_id() == old(self).spec_next_voice_id(),
            final(self).spec_next_stream_id() == old(self).spec_next_stream_id(),
    {
        let mut commands: Vec<AudioCommand> = Vec::new();
        std::mem::swap(&mut commands, &mut self.queue);
        let ghost start = (self.spec_buses(), self.max_sound_voices);
        let mut actions: Vec<PlaybackAction> = Vec::new();
        let mut i: usize = 0;
        while i < commands.len()
            invariant
                i <= commands.len(),
                self.wf(),
                self.queue@ == Seq::<AudioCommand>::empty(),
                self.next_voice_id == old(self).next_voice_id,
                self.next_stream_id == old(self).next_stream_id,
                commands@ == old(self).queue@,
                start == (old(self).spec_buses(), old(self).max_sound_voices),
                (self.spec_buses(), self.max_sound_voices) == after_commands(
                    start.0,
                    start.1,
                    commands@.subrange(0, i as int),
                ),
                actions@ == actions_of(commands@.subrange(0, i as int)),
            decreases commands.len() - i,
        {
            let command = commands[i];
            proof {
                assert(commands@.subrange(0, i + 1).drop_last() =~= commands@.subrange(0, i as int));
                assert(commands@.subrange(0, i + 1).last() == command);
            }
            match command {
                AudioCommand::SetMasterVolume(_) => self.apply_bus_command(command),
                AudioCommand::SetBusVolume(_, _) => self.apply_bus_command(command),
                AudioCommand::MuteBus(_) => self.apply_bus_command(command),
                AudioCommand::UnmuteBus(_) => self.apply_bus_command(command),
                AudioCommand::PauseBus(_) => self.apply_bus_command(command),
                AudioCommand::ResumeBus(_) => self.apply_bus_command(command),
                AudioCommand::PauseAll => actions.push(PlaybackAction::PauseAll),
                AudioCommand::ResumeAll => actions.push(PlaybackAction::ResumeAll),
                AudioCommand::StopAll => actions.push(PlaybackAction::StopAll),
                AudioCommand::SetMaxVoices(max) => {
                    let limit = self.set_max_sound_voices(max);
                    actions.push(PlaybackAction::LimitVoices(limit));
                },
            }
            i = i + 1;
        }
        proof {
            assert(commands@.subrange(0, i as int) =~= commands@);
        }
        actions
    }

    /// Bit pattern of the gain of a bus.
    pub fn bus_gain_bits(&self, bus: BusKind) -> (bits: u32)
        ensures
            bits == bus_of(self.spec_buses(), bus).spec_gain_bits(),
    {
        self.bus_state(bus).gain_bits()
    }
}

impl Default for RuntimeControl {
    fn default() -> (r: Self)
        ensures
            r.wf(),
            r.spec_queue() == Seq::<AudioCommand>::empty(),
            r.spec_next_voice_id() == 1,
            r.spec_next_stream_id() == 1,
            r.spec_max_sound_voices() == DEFAULT_MAX_SOUND_VOICES,
    {
        Self::new()
    }
}

/// Ids of the voices, in order.
pub open spec fn voice_ids<V>(voices: Seq<(u64, V)>) -> Seq<u64> {
    voices.map_values(|p: (u64, V)| p.0)
}

/// Voice `i` is the one the limit stops first: the first voice with the
/// smallest id, among the voices whose id is below `u64::MAX`.
pub open spec fn is_oldest(ids: Seq<u64>, i: int) -> bool {
    &&& 0 <= i < ids.len()
    &&& ids[i] < u64::MAX
    &&& forall|j: int| 0 <= j < i ==> ids[j] > ids[i]
    &&& forall|j: int| i < j < ids.len() ==> ids[j] >= ids[i]
}

/// The voices left and the voices stopped, in the order they are stopped,
/// when the oldest voice is stopped until at most `max` remain; it stops
/// early when no voice has an id below `u64::MAX`.
pub open spec fn limit_voices<V>(voices: Seq<(u64, V)>, max: nat) -> (Seq<(u64, V)>, Seq<(u64, V)>)
    decreases voices.len(),
{
    if voices.len() <= max || !(exists|i: int| is_oldest(voice_ids(voices), i)) {
        (voices, Seq::empty())
    } else {
        let i = choose|i: int| is_oldest(voice_ids(voices), i);
        let (kept, stopped) = limit_voices(voices.remove(i), max);
        (kept, seq![voices[i]] + stopped)
    }
}

/// At most one voice is the oldest.
proof fn lemma_oldest_unique(ids: Seq<u64>, i: int, k: int)
    requires
        is_oldest(ids, i),
        is_oldest(ids, k),
    ensures
        i == k,
{
    if i < k {
        assert(ids[i] > ids[k]);
    } else if k < i {
        assert(ids[k] > ids[i]);
    }
}

/// Index of the voice the limit stops first, if any voice has an id below
/// `u64::MAX`.
pub fn oldest_voice_index<V>(voices: &Vec<(u64, V)>) -> (r: Option<usize>)
    ensures
        match r {
            Some(i) => is_oldest(voice_ids(voices@), i as int),
            None => forall|j: int| 0 <= j < voices@.len() ==> voices@[j].0 == u64::MAX,
        },
{
    let mut oldest_index: Option<usize> = None;
    let mut oldest_id: u64 = u64::MAX;
    let mut index: usize = 0;
    while index < voices.len()
        invariant
            index <= voices@.len(),
            match oldest_index {
                Some(i) => {
                    &&& i < index
                    &&& voices@[i as int].0 == oldest_id
                    &&& oldest_id < u64::MAX
                    &&& forall|j: int| 0 <= j < i ==> voices@[j].0 > oldest_id
                    &&& forall|j: int| i < j < index ==> voices@[j].0 >= oldest_id
                },
                None => {
                    &&& oldest_id == u64::MAX
                    &&& forall|j: int| 0 <= j < index ==> voices@[j].0 == u64::MAX
                },
            },
        decreases voices@.len() - index,
    {
        let id = voices[index].0;
        if id < oldest_id {
            oldest_id = id;
            oldest_index = Some(index);
        }
        index = index + 1;
    }
    proof {
        if let Some(i) = oldest_index {
            let ids = voice_ids(voices@);
            assert forall|j: int| 0 <= j < i implies ids[j] > ids[i as int] by {
                assert(ids[j] == voices@[j].0);
            }
            assert forall|j: int| i < j < ids.len() implies ids[j] >= ids[i as int] by {
                assert(ids[j] == voices@[j].0);
            }
        }
    }
    oldest_index
}

/// Stop the oldest voice, as `oldest_voice_index` picks it, until at most
/// `max` voices remain, and return the voices stopped, in that order. It
/// stops early when no voice has an id below `u64::MAX`.
pub fn enforce_voice_limit<V>(voices: &mut Vec<(u64, V)>, max: usize) -> (stopped: Vec<(u64, V)>)
    ensures
        (final(voices)@, stopped@) == limit_voices(old(voices)@, max as nat),
{
    let mut stopped: Vec<(u64, V)> = Vec::new();
    while voices.len() > max
        invariant
            ({
                let (kept, rest) = limit_voices(voices@, max as nat);
                (kept, stopped@ + rest) == limit_voices(old(voices)@, max as nat)
            }),
        ensures
            (voices@, stopped@) == limit_voices(old(voices)@, max as nat),
        decreases voices@.len(),
    {
        match oldest_voice_index(voices) {
            Some(index) => {
                let ghost before = voices@;
                proof {
                    assert(is_oldest(voice_ids(before), index as int));
                    let c = choose|i: int| is_oldest(voice_ids(before), i);
                    lemma_oldest_unique(voice_ids(before), c, index as int);
                }
                let voice = voices.remove(index);
                proof {
                    let (kept, rest) = limit_voices(voices@, max as nat);
                    assert(stopped@.push(voice) + rest =~= stopped@ + (seq![voice] + rest));
                }
                stopped.push(voice);
            },
            None => {
                proof {
                    assert forall|i: int| !is_oldest(voice_ids(voices@), i) by {
                        if 0 <= i < voices@.len() {
                            assert(voice_ids(voices@)[i] == voices@[i].0);
                        }
                    }
                    assert(stopped@ + Seq::empty() =~= stopped@);
                }
                break;
            },
        }
    }
    proof {
        if voices@.len() <= max {
            assert(stopped@ + Seq::empty() =~= stopped@);
        }
    }
    stopped
}

/// Add a voice to the active voices, then stop the oldest until at most the
/// runtime's limit remain; return the voices stopped, in order. No voice is
/// lost, and the limit holds afterwards unless every voice left has the id
/// `u64::MAX`.
pub fn register_voice<V>(control: &RuntimeControl, voices: &mut Vec<(u64, V)>, voice: (u64, V)) -> (stopped: Vec<(u64, V)>)
    ensures
        (final(voices)@, stopped@) == limit_voices(
            old(voices)@.push(voice),
            control.spec_max_sound_voices() as nat,
        ),
        final(voices)@.len() + stopped@.len() == old(voices)@.len() + 1,
        final(voices)@.len() <= control.spec_max_sound_voices() || forall|j: int|
            0 <= j < final(voices)@.len() ==> #[trigger] final(voices)@[j].0 == u64::MAX,
{
    let max = control.max_sound_voices();
    voices.push(voice);
    let stopped = enforce_voice_limit(voices, max);
    proof {
        lemma_voice_limit_holds(old(voices)@.push(voice), max as nat);
    }
    stopped
}

/// Whether anything can still be heard: a voice that is not stopped, or a
/// stream that is neither stopped nor finished.
pub fn anything_playing(voice_states: &[PlaybackState], streams: &[(PlaybackState, bool)]) -> (b: bool)
    ensures
        b == ((exists|i: int| 0 <= i < voice_states@.len() && voice_states@[i] != PlaybackState::Stopped)
            || (exists|i: int| 0 <= i < streams@.len() && streams@[i].0 != PlaybackState::Stopped
            && !streams@[i].1)),
{
    let mut i: usize = 0;
    while i < voice_states.len()
        invariant
            i <= voice_states@.len(),
            forall|j: int| 0 <= j < i ==> voice_states@[j] == PlaybackState::Stopped,
        decreases voice_states@.len() - i,
    {
        if voice_states[i] != PlaybackState::Stopped {
            return true;
        }
        i = i + 1;
    }
    let mut k: usize = 0;
    while k < streams.len()
        invariant
            k <= streams@.len(),
            forall|j: int| 0 <= j < voice_states@.len() ==> voice_states@[j] == PlaybackState::Stopped,
            forall|j: int| 0 <= j < k ==> !(streams@[j].0 != PlaybackState::Stopped && !streams@[j].1),
        decreases streams@.len() - k,
    {
        let (state, finished) = streams[k];
        if state != PlaybackState::Stopped && !finished {
            return true;
        }
        k = k + 1;
    }
    false
}

/// Where some id is below `u64::MAX`, some voice is the oldest.
proof fn lemma_oldest_exists(ids: Seq<u64>, j: int)
    requires
        0 <= j < ids.len(),
        ids[j] < u64::MAX,
    ensures
        exists|i: int| is_oldest(ids, i),
    decreases ids.len(),
{
    let n = ids.len() - 1;
    let prefix = ids.drop_last();
    if exists|k: int| 0 <= k < n && ids[k] < u64::MAX {
        let k = choose|k: int| 0 <= k < n && ids[k] < u64::MAX;
        assert(prefix[k] == ids[k]);
        lemma_oldest_exists(prefix, k);
        let i0 = choose|i: int| is_oldest(prefix, i);
        if ids[n] < ids[i0] {
            assert forall|m: int| 0 <= m < n implies ids[m] > ids[n] by {
                assert(prefix[m] == ids[m]);
            }
            assert(is_oldest(ids, n));
        } else {
            assert forall|m: int| 0 <= m < i0 implies ids[m] > ids[i0] by {
                assert(prefix[m] == ids[m]);
            }
            assert forall|m: int| i0 < m < ids.len() implies ids[m] >= ids[i0] by {
                if m < n {
                    assert(prefix[m] == ids[m]);
                }
            }
            assert(is_oldest(ids, i0));
        }
    } else {
        assert(j == n);
        assert(is_oldest(ids, n));
    }
}

/// The voice limit loses no voice: every voice is either kept or stopped;
/// and afterwards at most `max` voices remain, unless every voice left has
/// the id `u64::MAX`.
pub proof fn lemma_voice_limit_holds<V>(voices: Seq<(u64, V)>, max: nat)
    ensures
        limit_voices(voices, max).0.len() + limit_voices(voices, max).1.len() == voices.len(),
        limit_voices(voices, max).0.len() <= max || forall|j: int|
            0 <= j < limit_voices(voices, max).0.len() ==> #[trigger] limit_voices(
                voices,
                max,
            ).0[j].0 == u64::MAX,
    decreases voices.len(),
{
    if voices.len() <= max || !(exists|i: int| is_oldest(voice_ids(voices), i)) {
        if voices.len() > max {
            assert forall|j: int| 0 <= j < voices.len() implies voices[j].0 == u64::MAX by {
                if voices[j].0 < u64::MAX {
                    assert(voice_ids(voices)[j] == voices[j].0);
                    lemma_oldest_exists(voice_ids(voices), j);
                }
            }
        }
    } else {
        let i = choose|i: int| is_oldest(voice_ids(voices), i);
        lemma_voice_limit_holds(voices.remove(i), max);
    }
}

/// Every voice the limit keeps was among the voices it started from.
proof fn lemma_kept_voices_come_from_input<V>(voices: Seq<(u64, V)>, max: nat)
    ensures
        forall|k: int|
            0 <= k < limit_voices(voices, max).0.len() ==> voices.contains(
                #[trigger] limit_voices(voices, max).0[k],
            ),
    decreases voices.len(),
{
    if voices.len() <= max || !(exists|i: int| is_oldest(voice_ids(voices), i)) {
        assert forall|k: int| 0 <= k < limit_voices(voices, max).0.len() implies voices.contains(
            #[trigger] limit_voices(voices, max).0[k],
        ) by {
            assert(voices[k] == limit_voices(voices, max).0[k]);
        }
    } else {
        let i = choose|i: int| is_oldest(voice_ids(voices), i);
        let rest = voices.remove(i);
        lemma_kept_voices_come_from_input(rest, max);
        assert(limit_voices(voices, max).0 == limit_voices(rest, max).0);
        assert forall|k: int| 0 <= k < limit_voices(voices, max).0.len() implies voices.contains(
            #[trigger] limit_voices(voices, max).0[k],
        ) by {
            let x = limit_voices(rest, max).0[k];
            assert(rest.contains(x));
            let j0 = choose|j: int| 0 <= j < rest.len() && rest[j] == x;
            let jv = if j0 < i { j0 } else { j0 + 1 };
            assert(voices[jv] == rest[j0]);
        }
    }
}

/// The limit stops the oldest voices first: no voice it stops has a larger
/// id than a voice it keeps, among the kept voices whose id is below
/// `u64::MAX`.
#[verifier::rlimit(40)]
pub proof fn lemma_voice_limit_stops_oldest_first<V>(voices: Seq<(u64, V)>, max: nat)
    ensures
        forall|a: int, b: int|
            0 <= a < limit_voices(voices, max).1.len() && 0 <= b < limit_voices(voices, max).0.len()
                && (#[trigger] limit_voices(voices, max).0[b]).0 < u64::MAX ==> (
            #[trigger] limit_voices(voices, max).1[a]).0 <= limit_voices(voices, max).0[b].0,
    decreases voices.len(),
{
    if voices.len() <= max || !(exists|i: int| is_oldest(voice_ids(voices), i)) {
        assert(limit_voices(voices, max).1.len() == 0);
    } else {
        let i = choose|i: int| is_oldest(voice_ids(voices), i);
        let ids = voice_ids(voices);
        let rest = voices.remove(i);
        lemma_voice_limit_stops_oldest_first(rest, max);
        lemma_kept_voices_come_from_input(rest, max);
        let kept = limit_voices(voices, max).0;
        let stopped = limit_voices(voices, max).1;
        let rest_stopped = limit_voices(rest, max).1;
        assert(kept == limit_voices(rest, max).0);
        assert(stopped == seq![voices[i]] + rest_stopped);
        assert forall|a: int, b: int|
            0 <= a < stopped.len() && 0 <= b < kept.len() && (#[trigger] kept[b]).0 < u64::MAX
            implies (#[trigger] stopped[a]).0 <= kept[b].0 by {
            if a == 0 {
                assert(rest.contains(limit_voices(rest, max).0[b]));
                let j = choose|j: int| 0 <= j < rest.len() && rest[j] == limit_voices(rest, max).0[b];
                let jv = if j < i { j } else { j + 1 };
                assert(voices[jv] == rest[j]);
                assert(ids[jv] == voices[jv].0);
                assert(ids[i] == voices[i].0);
                assert(stopped[0] == voices[i]);
            } else {
                assert(stopped[a] == rest_stopped[a - 1]);
                assert(limit_voices(rest, max).0[b] == kept[b]);
            }
        }
    }
}

/// Two queued commands act as the first, then the second.
proof fn lemma_two_commands(
    buses: (AudioBusState, AudioBusState, AudioBusState),
    max_voices: usize,
    first: AudioCommand,
    second: AudioCommand,
)
    ensures
        after_commands(buses, max_voices, seq![first, second]) == ({
            let (b, m) = after_command(buses, max_voices, first);
            after_command(b, m, second)
        }),
{
    let cmds = seq![first, second];
    let one = seq![first];
    assert(cmds.drop_last() =~= one);
    assert(one.drop_last() =~= Seq::<AudioCommand>::empty());
    assert(after_commands(buses, max_voices, Seq::<AudioCommand>::empty()) == (buses, max_voices));
    assert(after_commands(buses, max_voices, one) == after_command(buses, max_voices, first));
}

/// Muting a bus and then unmuting it through the command queue leaves every
/// bus and the voice limit as they were, when that bus was not muted.
pub proof fn lemma_mute_then_unmute_commands(
    buses: (AudioBusState, AudioBusState, AudioBusState),
    max_voices: usize,
    kind: BusKind,
)
    requires
        !bus_of(buses, kind).muted,
    ensures
        after_commands(buses, max_voices, seq![AudioCommand::MuteBus(kind), AudioCommand::UnmuteBus(kind)])
            == (buses, max_voices),
{
    lemma_two_commands(buses, max_voices, AudioCommand::MuteBus(kind), AudioCommand::UnmuteBus(kind));
}

/// Pausing a bus and then resuming it through the command queue leaves every
/// bus and the voice limit as they were, when that bus was not paused.
pub proof fn lemma_pause_then_resume_commands(
    buses: (AudioBusState, AudioBusState, AudioBusState),
    max_voices: usize,
    kind: BusKind,
)
    requires
        !bus_of(buses, kind).paused,
    ensures
        after_commands(buses, max_voices, seq![AudioCommand::PauseBus(kind), AudioCommand::ResumeBus(kind)])
            == (buses, max_voices),
{
    lemma_two_commands(buses, max_voices, AudioCommand::PauseBus(kind), AudioCommand::ResumeBus(kind));
}

/// Setting a bus volume through the command queue gives that bus exactly the
/// volume sent, keeps its mute and pause state, and leaves the other buses
/// and the voice limit unchanged.
pub proof fn lemma_set_bus_volume_command(
    buses: (AudioBusState, AudioBusState, AudioBusState),
    max_voices: usize,
    kind: BusKind,
    bits: u32,
)
    ensures
        ({
            let (after, m) = after_commands(buses, max_voices, seq![AudioCommand::SetBusVolume(kind, bits)]);
            &&& bus_of(after, kind) == (AudioBusState { volume_bits: bits, ..bus_of(buses, kind) })
            &&& forall|k: BusKind| k != kind ==> bus_of(after, k) == bus_of(buses, k)
            &&& m == max_voices
        }),
{
    let one = seq![AudioCommand::SetBusVolume(kind, bits)];
    assert(one.drop_last() =~= Seq::<AudioCommand>::empty());
    assert(after_commands(buses, max_voices, Seq::<AudioCommand>::empty()) == (buses, max_voices));
}

/// The voice limit in force is the maximum asked for, whatever its size,
/// except that asking for none keeps one voice; a queued `SetMaxVoices`
/// sets that limit and asks the voices to be cut to it, and touches no bus.
pub proof fn lemma_voice_limit_is_the_request(
    buses: (AudioBusState, AudioBusState, AudioBusState),
    max_voices: usize,
    max: usize,
)
    ensures
        max >= 1 ==> effective_max_voices(max) == max,
        max == 0 ==> effective_max_voices(max) == 1,
        after_command(buses, max_voices, AudioCommand::SetMaxVoices(max)) == (
            buses,
            if max == 0 {
                1usize
            } else {
                max
            },
        ),
        action_of(AudioCommand::SetMaxVoices(max)) == seq![
            PlaybackAction::LimitVoices(if max == 0 {
                1usize
            } else {
                max
            }),
        ],
{
}

} // verus!
