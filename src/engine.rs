use std::sync::Arc;
use vstd::prelude::*;

use crate::envelope::{ActiveState, UNIT};
use crate::oscillator::MAX_SAMPLE_RATE;
use crate::voice::{started, Instrument, Voice, VoiceState};

verus! {

/// Most channels an engine may have: with each voice at most four times full
/// scale, the mixed sum of this many stays well within `u64`.
pub const MAX_CHANNELS: usize = 4294967295;

/// The instrument table: instruments, and the frequency of each note index
/// in millihertz. Swapped in whole, never changed in place.
#[derive(Clone, Debug)]
pub struct SoundRom {
    pub instruments: Vec<Instrument>,
    pub notes: Vec<u32>,
}

impl SoundRom {
    pub open spec fn wf(&self) -> bool {
        forall|i: int| 0 <= i < self.instruments.len() ==> (#[trigger] self.instruments@[i]).wf()
    }
}

/// A request to the engine, applied at the start of the next rendered frame.
#[derive(Clone, Debug)]
pub enum Command {
    PianoKeyPressed { note_index: usize, instrument_index: usize, channel: usize },
    PianoKeyReleased { channel: usize },
    TriggerNote { note_index: usize, instrument_index: usize, channel: usize },
    SoundRomInstanceChanged(Arc<SoundRom>),
}

/// Why a command was refused.
#[derive(Clone, Copy, Debug, PartialEq, Eq, Structural)]
pub enum CommandError {
    /// The command names a channel the engine does not have.
    ChannelOutOfRange,
    /// The command names a note the ROM in effect at the next frame lacks.
    UnknownNote,
    /// The command names an instrument the ROM in effect at the next frame lacks.
    UnknownInstrument,
    /// The new ROM lacks a note or instrument that a queued command names.
    InvalidatesQueuedNote,
}

/// Why a note command is refused under a ROM with `notes` notes and
/// `instruments` instruments; other commands are not checked here.
pub open spec fn note_refusal(notes: int, instruments: int, c: Command) -> Option<CommandError> {
    match c {
        Command::PianoKeyPressed { note_index, instrument_index, .. }
        | Command::TriggerNote { note_index, instrument_index, .. } => if note_index >= notes {
            Some(CommandError::UnknownNote)
        } else if instrument_index >= instruments {
            Some(CommandError::UnknownInstrument)
        } else {
            None
        },
        _ => None,
    }
}

/// The ROM in effect when `cmds` are drained from a state playing `rom`: the
/// last ROM change among them, since those are applied first.
pub open spec fn pending_rom(rom: Arc<SoundRom>, cmds: Seq<Command>) -> Arc<SoundRom>
    decreases cmds.len(),
{
    if cmds.len() == 0 {
        rom
    } else {
        match cmds.last() {
            Command::SoundRomInstanceChanged(r) => r,
            _ => pending_rom(rom, cmds.drop_last()),
        }
    }
}

/// Checks a note command against a ROM of the given sizes.
fn check_note(notes: usize, instruments: usize, c: &Command) -> (r: Option<CommandError>)
    ensures
        r == note_refusal(notes as int, instruments as int, *c),
{
    match c {
        Command::PianoKeyPressed { note_index, instrument_index, .. }
        | Command::TriggerNote { note_index, instrument_index, .. } => if *note_index >= notes {
            Some(CommandError::UnknownNote)
        } else if *instrument_index >= instruments {
            Some(CommandError::UnknownInstrument)
        } else {
            None
        },
        _ => None,
    }
}

impl Command {
    pub open spec fn wf(&self) -> bool {
        match self {
            Command::SoundRomInstanceChanged(rom) => rom.wf(),
            _ => true,
        }
    }

    pub open spec fn is_rom_change(&self) -> bool {
        self is SoundRomInstanceChanged
    }

    /// The channel the command names, if any.
    pub open spec fn channel_of(&self) -> Option<usize> {
        match self {
            Command::PianoKeyPressed { channel, .. } => Some(*channel),
            Command::PianoKeyReleased { channel } => Some(*channel),
            Command::TriggerNote { channel, .. } => Some(*channel),
            Command::SoundRomInstanceChanged(_) => None,
        }
    }
}

/// Everything a rollback must save and restore: the ROM in use, one voice per
/// channel and the output sample rate.
#[derive(Clone, Debug)]
pub struct SoundEngineData {
    pub rom: Arc<SoundRom>,
    pub channels: Vec<Voice>,
    pub output_sample_rate: usize,
}

/// The value of the engine's data.
pub struct EngineState {
    pub rom: Arc<SoundRom>,
    pub channels: Seq<VoiceState>,
    pub output_sample_rate: usize,
}

impl View for SoundEngineData {
    type V = EngineState;

    open spec fn view(&self) -> EngineState {
        EngineState {
            rom: self.rom,
            channels: self.channels@.map_values(|v: Voice| v@),
            output_sample_rate: self.output_sample_rate,
        }
    }
}

/// Sum of the next samples of the first `k` voices.
pub open spec fn mix(channels: Seq<VoiceState>, k: nat) -> int
    decreases k,
{
    if k == 0 {
        0
    } else {
        mix(channels, (k - 1) as nat) + channels[k - 1].next_sample()
    }
}

impl EngineState {
    /// A fresh voice of the instrument at the note, when both exist.
    pub open spec fn started_voice(self, note_index: int, instrument_index: int) -> Option<VoiceState> {
        if 0 <= note_index < self.rom.notes.len() && 0 <= instrument_index
            < self.rom.instruments.len() {
            Some(
                started(
                    self.rom.instruments@[instrument_index],
                    self.output_sample_rate as int,
                    self.rom.notes@[note_index] as int,
                ),
            )
        } else {
            None
        }
    }

    /// Puts a fresh voice on a channel with activity `a`; a command naming a
    /// missing channel, note or instrument changes nothing.
    pub open spec fn started_on(
        self,
        note_index: int,
        instrument_index: int,
        channel: int,
        a: ActiveState,
    ) -> EngineState {
        match self.started_voice(note_index, instrument_index) {
            Some(v) => if 0 <= channel < self.channels.len() {
                EngineState { channels: self.channels.update(channel, v.with_active(a)), ..self }
            } else {
                self
            },
            None => self,
        }
    }

    /// The state after applying one command. A note command naming a missing
    /// channel, note or instrument changes nothing (`send` refuses such
    /// commands; this covers a state restored under another ROM). A new ROM
    /// silences every channel, so that no voice keeps playing an instrument
    /// of the table it replaced.
    pub open spec fn applied(self, c: Command) -> EngineState {
        match c {
            Command::PianoKeyPressed { note_index, instrument_index, channel } => self.started_on(
                note_index as int,
                instrument_index as int,
                channel as int,
                ActiveState::On,
            ),
            Command::TriggerNote { note_index, instrument_index, channel } => self.started_on(
                note_index as int,
                instrument_index as int,
                channel as int,
                ActiveState::Trigger,
            ),
            Command::PianoKeyReleased { channel } => if channel < self.channels.len() {
                EngineState {
                    channels: self.channels.update(
                        channel as int,
                        self.channels[channel as int].with_active(ActiveState::Off),
                    ),
                    ..self
                }
            } else {
                self
            },
            Command::SoundRomInstanceChanged(rom) => EngineState {
                rom,
                channels: Seq::new(self.channels.len(), |i: int| VoiceState::Silent),
                ..self
            },
        }
    }

    /// Applies, in order, those of the first `k` commands that are ROM
    /// changes (`roms`) or those that are not (`!roms`).
    pub open spec fn applied_class(self, cmds: Seq<Command>, k: nat, roms: bool) -> EngineState
        decreases k,
    {
        if k == 0 {
            self
        } else {
            let s = self.applied_class(cmds, (k - 1) as nat, roms);
            if cmds[k - 1].is_rom_change() == roms {
                s.applied(cmds[k - 1])
            } else {
                s
            }
        }
    }

    /// The state after draining a queue: every ROM change first, then the
    /// other commands, each class first in, first out.
    pub open spec fn drained(self, cmds: Seq<Command>) -> EngineState {
        self.applied_class(cmds, cmds.len(), true).applied_class(cmds, cmds.len(), false)
    }

    /// The next mixed sample: the voices' samples summed, not normalized.
    pub open spec fn next_sample(self) -> int {
        mix(self.channels, self.channels.len())
    }

    /// The state after one tick.
    pub open spec fn stepped(self) -> EngineState {
        EngineState {
            channels: Seq::new(self.channels.len(), |i: int| self.channels[i].stepped()),
            ..self
        }
    }

    pub open spec fn stepped_by(self, n: nat) -> EngineState
        decreases n,
    {
        if n == 0 {
            self
        } else {
            self.stepped_by((n - 1) as nat).stepped()
        }
    }

    /// The mixed samples of the next `n` ticks.
    pub open spec fn outputs(self, n: nat) -> Seq<int>
        decreases n,
    {
        if n == 0 {
            Seq::empty()
        } else {
            self.outputs((n - 1) as nat).push(self.stepped_by((n - 1) as nat).next_sample())
        }
    }
}

/// `channel_count` silent voices.
fn silent_channels(channel_count: usize) -> (r: Vec<Voice>)
    ensures
        r@.len() == channel_count,
        forall|i: int| 0 <= i < channel_count ==> #[trigger] r@[i] is Silent,
{
    let mut channels: Vec<Voice> = Vec::new();
    let mut k: usize = 0;
    while k < channel_count
        invariant
            k <= channel_count,
            channels@.len() == k,
            forall|i: int| 0 <= i < k ==> #[trigger] channels@[i] is Silent,
        decreases channel_count - k,
    {
        channels.push(Voice::Silent);
        k = k + 1;
    }
    channels
}

impl SoundEngineData {
    pub open spec fn wf(&self) -> bool {
        &&& self.rom.wf()
        &&& 0 < self.output_sample_rate <= MAX_SAMPLE_RATE
        &&& self.channels.len() <= MAX_CHANNELS
        &&& forall|i: int| 0 <= i < self.channels.len() ==> (#[trigger] self.channels@[i]).wf()
    }

    /// `channel_count` silent channels playing from `rom`.
    pub fn new(output_sample_rate: usize, rom: &Arc<SoundRom>, channel_count: usize) -> (r: Self)
        requires
            rom.wf(),
            0 < output_sample_rate <= MAX_SAMPLE_RATE,
            channel_count <= MAX_CHANNELS,
        ensures
            r.wf(),
            r@.rom == *rom,
            r@.output_sample_rate == output_sample_rate,
            r@.channels == Seq::new(channel_count as nat, |i: int| VoiceState::Silent),
    {
        let channels = silent_channels(channel_count);
        let r = SoundEngineData { rom: Arc::clone(rom), channels, output_sample_rate };
        assert(r@.channels =~= Seq::new(channel_count as nat, |i: int| VoiceState::Silent));
        r
    }

    /// Swaps in a new ROM and silences every channel.
    pub fn replace_sound_rom_instance(&mut self, rom: &Arc<SoundRom>)
        requires
            old(self).wf(),
            rom.wf(),
        ensures
            final(self).wf(),
            final(self)@ == old(self)@.applied(Command::SoundRomInstanceChanged(*rom)),
    {
        let channels = silent_channels(self.channels.len());
        self.channels = channels;
        self.rom = Arc::clone(rom);
        assert(self@.channels =~= Seq::new(old(self).channels@.len(), |i: int| VoiceState::Silent));
    }

    /// Puts a fresh voice of the instrument at the note on `channel`, with
    /// activity `a`, when channel, note and instrument all exist.
    fn start_on(&mut self, note_index: usize, instrument_index: usize, channel: usize, a: ActiveState)
        requires
            old(self).wf(),
        ensures
            final(self).wf(),
            final(self)@ == old(self)@.started_on(
                note_index as int,
                instrument_index as int,
                channel as int,
                a,
            ),
    {
        if note_index < self.rom.notes.len() && instrument_index < self.rom.instruments.len()
            && channel < self.channels.len() {
            let millihertz = self.rom.notes[note_index];
            assert(self.rom.instruments@[instrument_index as int].wf());
            let mut v = Voice::start(&self.rom.instruments[instrument_index], self.output_sample_rate, millihertz);
            v.set_state(a);
            self.channels.set(channel, v);
            assert(self@.channels =~= old(self)@.channels.update(channel as int, v@));
        }
    }

    /// Applies one command as `EngineState::applied` says.
    pub fn apply(&mut self, c: &Command)
        requires
            old(self).wf(),
            c.wf(),
        ensures
            final(self).wf(),
            final(self)@ == old(self)@.applied(*c),
    {
        match c {
            Command::PianoKeyPressed { note_index, instrument_index, channel } => {
                self.start_on(*note_index, *instrument_index, *channel, ActiveState::On);
            },
            Command::TriggerNote { note_index, instrument_index, channel } => {
                self.start_on(*note_index, *instrument_index, *channel, ActiveState::Trigger);
            },
            Command::PianoKeyReleased { channel } => {
                if *channel < self.channels.len() {
                    let mut v = Voice::Silent;
                    self.channels.set_and_swap(*channel, &mut v);
                    assert(v.wf());
                    v.set_state(ActiveState::Off);
                    self.channels.set_and_swap(*channel, &mut v);
                    assert(self@.channels =~= old(self)@.channels.update(
                        *channel as int,
                        old(self)@.channels[*channel as int].with_active(ActiveState::Off),
                    ));
                }
            },
            Command::SoundRomInstanceChanged(rom) => {
                self.replace_sound_rom_instance(rom);
            },
        }
    }

    /// Returns the mixed sample of all channels and advances each voice.
    pub fn tick(&mut self) -> (r: u64)
        requires
            old(self).wf(),
        ensures
            final(self).wf(),
            r == old(self)@.next_sample(),
            final(self)@ == old(self)@.stepped(),
    {
        let ghost start = self@;
        let len = self.channels.len();
        let mut sum: u64 = 0;
        let mut i: usize = 0;
        while i < len
            invariant
                i <= len,
                len == self.channels.len(),
                len == start.channels.len(),
                self.wf(),
                self.rom == start.rom,
                self.output_sample_rate == start.output_sample_rate,
                sum == mix(start.channels, i as nat),
                sum <= i * 4 * UNIT,
                forall|j: int| i <= j < len ==> (#[trigger] self.channels@[j])@ == start.channels[j],
                forall|j: int|
                    0 <= j < i ==> (#[trigger] self.channels@[j])@ == start.channels[j].stepped(),
            decreases len - i,
        {
            let mut v = Voice::Silent;
            self.channels.set_and_swap(i, &mut v);
            assert(v@ == start.channels[i as int]);
            let s = v.tick();
            self.channels.set_and_swap(i, &mut v);
            sum = sum + s;
            i = i + 1;
        }
        assert(self@.channels =~= start.stepped().channels);
        sum
    }

    /// Plays `n` ticks and returns their mixed samples in order.
    pub fn render(&mut self, n: usize) -> (r: Vec<u64>)
        requires
            old(self).wf(),
        ensures
            final(self).wf(),
            r@.len() == n,
            forall|k: int| 0 <= k < n ==> r@[k] as int == old(self)@.outputs(n as nat)[k],
            final(self)@ == old(self)@.stepped_by(n as nat),
    {
        let ghost start = self@;
        let mut out: Vec<u64> = Vec::new();
        let mut k: usize = 0;
        while k < n
            invariant
                self.wf(),
                k <= n,
                self@ == start.stepped_by(k as nat),
                out@.len() == k,
                start.outputs(k as nat).len() == k,
                forall|j: int| 0 <= j < k ==> out@[j] as int == start.outputs(k as nat)[j],
            decreases n - k,
        {
            let s = self.tick();
            out.push(s);
            k = k + 1;
            assert(start.outputs(k as nat) == start.outputs((k - 1) as nat).push(s as int));
        }
        out
    }

    /// A full, independent copy of the state, for a rollback to restore.
    pub fn snapshot(&self) -> (r: Self)
        requires
            self.wf(),
        ensures
            r.wf(),
            r@ == self@,
    {
        let mut channels: Vec<Voice> = Vec::new();
        let mut i: usize = 0;
        while i < self.channels.len()
            invariant
                i <= self.channels.len(),
                self.wf(),
                channels@.len() == i,
                forall|j: int| 0 <= j < i ==> (#[trigger] channels@[j])@ == self.channels@[j]@,
                forall|j: int| 0 <= j < i ==> (#[trigger] channels@[j]).wf(),
            decreases self.channels.len() - i,
        {
            let v = self.channels[i].duplicate();
            channels.push(v);
            i = i + 1;
        }
        let r = SoundEngineData {
            rom: Arc::clone(&self.rom),
            channels,
            output_sample_rate: self.output_sample_rate,
        };
        assert(r@.channels =~= self@.channels);
        r
    }
}

/// The engine: its state and the commands waiting for the next frame.
#[derive(Clone, Debug)]
pub struct SoundEngine {
    pub data: SoundEngineData,
    pub inbox: Vec<Command>,
}

impl SoundEngine {
    pub open spec fn wf(&self) -> bool {
        &&& self.data.wf()
        &&& forall|i: int| 0 <= i < self.inbox.len() ==> (#[trigger] self.inbox@[i]).wf()
    }

    /// An engine with `channel_count` silent channels and an empty inbox.
    pub fn new(output_sample_rate: usize, rom: &Arc<SoundRom>, channel_count: usize) -> (r: Self)
        requires
            rom.wf(),
            0 < output_sample_rate <= MAX_SAMPLE_RATE,
            channel_count <= MAX_CHANNELS,
        ensures
            r.wf(),
            r.inbox@.len() == 0,
            r.data@.rom == *rom,
            r.data@.output_sample_rate == output_sample_rate,
            r.data@.channels == Seq::new(channel_count as nat, |i: int| VoiceState::Silent),
    {
        SoundEngine { data: SoundEngineData::new(output_sample_rate, rom, channel_count), inbox: Vec::new() }
    }

    pub fn output_sample_rate(&self) -> (r: usize)
        ensures
            r == self.data.output_sample_rate,
    {
        self.data.output_sample_rate
    }

    /// The ROM the next drain will play with.
    pub open spec fn next_rom(&self) -> Arc<SoundRom> {
        pending_rom(self.data.rom, self.inbox@)
    }

    /// Why `send` refuses `c`, if it does.
    pub open spec fn refusal(&self, c: Command) -> Option<CommandError> {
        if c.channel_of() is Some && c.channel_of()->0 >= self.data.channels.len() {
            Some(CommandError::ChannelOutOfRange)
        } else {
            match c {
                Command::SoundRomInstanceChanged(r) => if exists|i: int|
                    0 <= i < self.inbox.len() && #[trigger] note_refusal(
                        r.notes.len() as int,
                        r.instruments.len() as int,
                        self.inbox@[i],
                    ) is Some {
                    Some(CommandError::InvalidatesQueuedNote)
                } else {
                    None
                },
                _ => note_refusal(
                    self.next_rom().notes.len() as int,
                    self.next_rom().instruments.len() as int,
                    c,
                ),
            }
        }
    }

    /// Sizes of the ROM the next drain will play with.
    fn next_rom_sizes(&self) -> (r: (usize, usize))
        ensures
            r.0 == self.next_rom().notes.len(),
            r.1 == self.next_rom().instruments.len(),
    {
        let mut notes = self.data.rom.notes.len();
        let mut instruments = self.data.rom.instruments.len();
        let n = self.inbox.len();
        let mut k: usize = 0;
        while k < n
            invariant
                k <= n,
                n == self.inbox.len(),
                notes == pending_rom(self.data.rom, self.inbox@.subrange(0, k as int)).notes.len(),
                instruments == pending_rom(
                    self.data.rom,
                    self.inbox@.subrange(0, k as int),
                ).instruments.len(),
            decreases n - k,
        {
            match &self.inbox[k] {
                Command::SoundRomInstanceChanged(r) => {
                    notes = r.notes.len();
                    instruments = r.instruments.len();
                },
                _ => {},
            }
            proof {
                let next = self.inbox@.subrange(0, k + 1);
                assert(next.drop_last() =~= self.inbox@.subrange(0, k as int));
                assert(next.last() == self.inbox@[k as int]);
            }
            k = k + 1;
        }
        assert(self.inbox@.subrange(0, n as int) =~= self.inbox@);
        (notes, instruments)
    }

    /// Queues a command for the next frame, or refuses it as `refusal` says:
    /// a channel the engine lacks, a note or instrument the ROM in effect at
    /// the next frame lacks, or a new ROM that lacks what a queued command
    /// names. A refused command leaves the inbox unchanged.
    pub fn send(&mut self, c: Command) -> (r: Result<(), CommandError>)
        requires
            old(self).wf(),
            c.wf(),
        ensures
            final(self).wf(),
            final(self).data == old(self).data,
            old(self).refusal(c) is Some ==> r == Err::<(), CommandError>(
                old(self).refusal(c)->0,
            ) && final(self).inbox == old(self).inbox,
            old(self).refusal(c) is None ==> r is Ok && final(self).inbox@ == old(self).inbox@.push(c),
    {
        let out_of_range = match &c {
            Command::PianoKeyPressed { channel, .. } => *channel >= self.data.channels.len(),
            Command::PianoKeyReleased { channel } => *channel >= self.data.channels.len(),
            Command::TriggerNote { channel, .. } => *channel >= self.data.channels.len(),
            Command::SoundRomInstanceChanged(_) => false,
        };
        if out_of_range {
            return Err(CommandError::ChannelOutOfRange);
        }
        let refused = match &c {
            Command::SoundRomInstanceChanged(rom) => {
                let notes = rom.notes.len();
                let instruments = rom.instruments.len();
                let n = self.inbox.len();
                let mut bad = false;
                let mut k: usize = 0;
                while k < n
                    invariant
                        k <= n,
                        n == self.inbox.len(),
                        notes == rom.notes.len(),
                        instruments == rom.instruments.len(),
                        bad == exists|i: int|
                            0 <= i < k && #[trigger] note_refusal(
                                notes as int,
                                instruments as int,
                                self.inbox@[i],
                            ) is Some,
                    decreases n - k,
                {
                    if check_note(notes, instruments, &self.inbox[k]).is_some() {
                        bad = true;
                    }
                    k = k + 1;
                }
                if bad {
                    Some(CommandError::InvalidatesQueuedNote)
                } else {
                    None
                }
            },
            _ => {
                let (notes, instruments) = self.next_rom_sizes();
                check_note(notes, instruments, &c)
            },
        };
        match refused {
            Some(e) => Err(e),
            None => {
                self.inbox.push(c);
                Ok(())
            },
        }
    }

    /// Drains the inbox (ROM changes first, then the other commands, each in
    /// arrival order), then renders `sample_count` mixed samples.
    pub fn render_frame(&mut self, sample_count: usize) -> (r: Vec<u64>)
        requires
            old(self).wf(),
        ensures
            final(self).wf(),
            final(self).inbox@.len() == 0,
            r@.len() == sample_count,
            forall|k: int|
                0 <= k < sample_count ==> r@[k] as int == old(self).data@.drained(
                    old(self).inbox@,
                ).outputs(sample_count as nat)[k],
            final(self).data@ == old(self).data@.drained(old(self).inbox@).stepped_by(
                sample_count as nat,
            ),
    {
        let ghost start = self.data@;
        let ghost cmds = self.inbox@;
        let n = self.inbox.len();
        let mut k: usize = 0;
        while k < n
            invariant
                k <= n,
                n == self.inbox.len(),
                self.inbox@ == cmds,
                self.wf(),
                self.data@ == start.applied_class(cmds, k as nat, true),
            decreases n - k,
        {
            if matches!(self.inbox[k], Command::SoundRomInstanceChanged(_)) {
                assert(self.inbox@[k as int].wf());
                self.data.apply(&self.inbox[k]);
            }
            k = k + 1;
        }
        let ghost mid = self.data@;
        k = 0;
        while k < n
            invariant
                k <= n,
                n == self.inbox.len(),
                self.inbox@ == cmds,
                self.wf(),
                self.data@ == mid.applied_class(cmds, k as nat, false),
            decreases n - k,
        {
            if !matches!(self.inbox[k], Command::SoundRomInstanceChanged(_)) {
                assert(self.inbox@[k as int].wf());
                self.data.apply(&self.inbox[k]);
            }
            k = k + 1;
        }
        self.inbox.clear();
        self.data.render(sample_count)
    }

    /// A copy of the engine's state for a rollback.
    pub fn snapshot(&self) -> (r: SoundEngineData)
        requires
            self.wf(),
        ensures
            r.wf(),
            r@ == self.data@,
    {
        self.data.snapshot()
    }

    /// Puts back a state taken by `snapshot`; queued commands stay queued.
    pub fn restore(&mut self, data: SoundEngineData)
        requires
            old(self).wf(),
            data.wf(),
        ensures
            final(self).wf(),
            final(self).data == data,
            final(self).inbox == old(self).inbox,
    {
        self.data = data;
    }
}

/// Restoring a snapshot and ticking on plays exactly what the original state
/// would have played: two states with the same value give the same samples and
/// end in the same value, for any number of ticks.
pub proof fn lemma_snapshot_replays(a: EngineState, b: EngineState, n: nat)
    requires
        a == b,
    ensures
        a.outputs(n) == b.outputs(n),
        a.stepped_by(n) == b.stepped_by(n),
{
}

} // verus!
