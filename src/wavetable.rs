use std::sync::Arc;
use vstd::prelude::*;

use crate::envelope::{ActiveState, EnvelopeDefinition, EnvelopeInstance, UNIT};
use crate::oscillator::{WavetableOscillator, MAX_SAMPLE_RATE, MAX_TABLE_LENGTH, PHASE_ONE};

verus! {

/// Largest quantized table value; it stands for amplitude 1.0.
pub const WAVETABLE_MAX: u64 = 255;

/// An immutable table of quantized samples and the envelope it plays with.
#[derive(Clone, Debug)]
pub struct WavetableDefinition {
    pub data: Vec<u8>,
    pub envelope: EnvelopeDefinition,
}

impl WavetableDefinition {
    pub open spec fn wf(&self) -> bool {
        &&& 0 < self.data.len() <= MAX_TABLE_LENGTH
        &&& self.envelope.wf()
    }

    /// Number of entries in the table.
    pub fn len(&self) -> (r: usize)
        ensures
            r == self.data.len(),
    {
        self.data.len()
    }
}

/// Table value at a fixed-point phase, interpolated linearly towards the next
/// entry (wrapping at the end) and scaled so that `WAVETABLE_MAX` gives `UNIT`.
pub open spec fn interpolated(data: Seq<u8>, phase: int) -> int {
    let i = phase / (PHASE_ONE as int);
    let w = phase % (PHASE_ONE as int);
    let next = (i + 1) % (data.len() as int);
    (data[i] * (PHASE_ONE - w) + data[next] * w) / (WAVETABLE_MAX as int)
}

/// Reads `data` at a fixed-point phase inside the table, as `interpolated` says.
pub fn read_table(data: &Vec<u8>, phase: u64) -> (r: u64)
    requires
        0 < data.len() <= MAX_TABLE_LENGTH,
        phase < data.len() * PHASE_ONE,
    ensures
        r == interpolated(data@, phase as int),
        r <= UNIT,
{
    let len = data.len();
    let i = (phase / PHASE_ONE) as usize;
    let w = phase % PHASE_ONE;
    proof {
        let p = phase as int;
        vstd::arithmetic::div_mod::lemma_div_is_ordered(p, len * 65536 - 1, 65536);
        vstd::arithmetic::div_mod::lemma_fundamental_div_mod(len * 65536 - 1, 65536);
        vstd::arithmetic::div_mod::lemma_div_multiples_vanish_fancy(len - 1, 65535, 65536);
    }
    let next = (i + 1) % len;
    let a = data[i] as u64;
    let b = data[next] as u64;
    proof {
        assert(a * (65536 - w) + b * w <= 255 * 65536) by (nonlinear_arith)
            requires
                a <= 255,
                b <= 255,
                w < 65536,
        ;
    }
    (a * (PHASE_ONE - w) + b * w) / WAVETABLE_MAX
}

/// One playing voice: a shared table, its own oscillator and envelope, and
/// whether it is held, released or struck.
#[derive(Clone, Debug)]
pub struct WavetableInstance {
    pub definition: Arc<WavetableDefinition>,
    pub envelope: EnvelopeInstance,
    pub oscillator: WavetableOscillator,
    pub active: ActiveState,
}

/// What a trigger leaves behind after the tick that played it.
pub open spec fn after_tick(active: ActiveState) -> ActiveState {
    if active == ActiveState::Trigger {
        ActiveState::Off
    } else {
        active
    }
}

impl WavetableInstance {
    pub open spec fn wf(&self) -> bool {
        &&& self.definition.wf()
        &&& self.envelope.wf()
        &&& self.oscillator.wf()
        &&& self.oscillator.table_length == self.definition.data.len()
    }

    /// The sample the next tick returns.
    pub open spec fn next_sample(self) -> int {
        interpolated(self.definition.data@, self.oscillator.phase as int) * (self.envelope.stepped(
            self.active,
        ).level as int) / (UNIT as int)
    }

    /// The voice after one tick.
    pub open spec fn stepped(self) -> WavetableInstance {
        WavetableInstance {
            envelope: self.envelope.stepped(self.active),
            oscillator: self.oscillator.advanced(),
            active: after_tick(self.active),
            ..self
        }
    }

    /// The voice after `n` ticks.
    pub open spec fn stepped_by(self, n: nat) -> WavetableInstance
        decreases n,
    {
        if n == 0 {
            self
        } else {
            self.stepped_by((n - 1) as nat).stepped()
        }
    }

    /// The samples of the next `n` ticks.
    pub open spec fn outputs(self, n: nat) -> Seq<int>
        decreases n,
    {
        if n == 0 {
            Seq::empty()
        } else {
            self.outputs((n - 1) as nat).push(self.stepped_by((n - 1) as nat).next_sample())
        }
    }

    /// A voice of a one-entry silent table that never sounds.
    pub fn no_sound(output_sample_rate: usize) -> (r: Self)
        requires
            0 < output_sample_rate <= MAX_SAMPLE_RATE,
        ensures
            r.wf(),
            r.definition.data@ == seq![0u8],
            r.definition.envelope == EnvelopeDefinition::constant_spec(),
            r.envelope == EnvelopeInstance::silent(),
            r.oscillator == WavetableOscillator::initial(1, output_sample_rate as int),
            r.active == ActiveState::Off,
    {
        let definition = Arc::new(
            WavetableDefinition { data: vec![0u8], envelope: EnvelopeDefinition::constant() },
        );
        WavetableInstance {
            definition,
            envelope: EnvelopeInstance::no_sound(),
            oscillator: WavetableOscillator::new(1, output_sample_rate),
            active: ActiveState::Off,
        }
    }

    /// A released voice at phase zero and frequency zero.
    pub fn new(definition: Arc<WavetableDefinition>, output_sample_rate: usize) -> (r: Self)
        requires
            definition.wf(),
            0 < output_sample_rate <= MAX_SAMPLE_RATE,
        ensures
            r.wf(),
            r.definition == definition,
            r.envelope == EnvelopeInstance::initial(definition.envelope, output_sample_rate as int),
            r.oscillator == WavetableOscillator::initial(
                definition.data.len() as int,
                output_sample_rate as int,
            ),
            r.active == ActiveState::Off,
    {
        let envelope = EnvelopeInstance::new(&definition.envelope, output_sample_rate);
        let oscillator = WavetableOscillator::new(definition.len(), output_sample_rate);
        WavetableInstance { definition, envelope, oscillator, active: ActiveState::Off }
    }

    /// An independent copy: the same table, and equal oscillator, envelope
    /// and activity.
    pub fn duplicate(&self) -> (r: Self)
        ensures
            r == *self,
    {
        WavetableInstance {
            definition: Arc::clone(&self.definition),
            envelope: self.envelope,
            oscillator: self.oscillator,
            active: self.active,
        }
    }

    /// Sets the frequency, in millihertz.
    pub fn set_frequency(&mut self, millihertz: u64)
        requires
            old(self).wf(),
        ensures
            final(self).wf(),
            final(self).oscillator.increment == crate::oscillator::increment_for(
                old(self).oscillator.table_length as int,
                millihertz as int,
                old(self).oscillator.output_sample_rate as int,
            ),
            final(self).oscillator.phase == old(self).oscillator.phase,
            final(self).oscillator.table_length == old(self).oscillator.table_length,
            final(self).oscillator.output_sample_rate == old(self).oscillator.output_sample_rate,
            final(self).definition == old(self).definition,
            final(self).envelope == old(self).envelope,
            final(self).active == old(self).active,
    {
        self.oscillator.set_frequency(millihertz);
    }

    /// Holds the note (`true`) or lets it go (`false`).
    pub fn set_active(&mut self, active: bool)
        ensures
            *final(self) == (WavetableInstance {
                active: if active { ActiveState::On } else { ActiveState::Off },
                ..*old(self)
            }),
    {
        self.active = if active {
            ActiveState::On
        } else {
            ActiveState::Off
        };
    }

    /// Strikes the note once.
    pub fn trigger(&mut self)
        ensures
            *final(self) == (WavetableInstance { active: ActiveState::Trigger, ..*old(self) }),
    {
        self.active = ActiveState::Trigger;
    }

    /// Returns the current sample, interpolated between the current entry and
    /// the next and scaled by the envelope, then advances the voice.
    pub fn tick(&mut self) -> (r: u64)
        requires
            old(self).wf(),
        ensures
            final(self).wf(),
            r == old(self).next_sample(),
            r <= UNIT,
            *final(self) == old(self).stepped(),
    {
        let phase = self.oscillator.tick();
        let value = read_table(&self.definition.data, phase);
        let level = self.envelope.tick(self.active);
        if self.active == ActiveState::Trigger {
            self.active = ActiveState::Off;
        }
        proof {
            assert(value <= 65536);
            assert(value * level <= 65536 * 65536) by (nonlinear_arith)
                requires
                    value <= 65536,
                    level <= 65536,
            ;
            vstd::arithmetic::div_mod::lemma_div_is_ordered(
                (value * level) as int,
                (65536 * 65536) as int,
                65536,
            );
        }
        value * level / UNIT
    }

    /// Plays `n` ticks and returns their samples in order.
    pub fn tick_many(&mut self, n: usize) -> (r: Vec<u64>)
        requires
            old(self).wf(),
        ensures
            final(self).wf(),
            r@.len() == n,
            forall|k: int| 0 <= k < n ==> r@[k] as int == old(self).outputs(n as nat)[k],
            *final(self) == old(self).stepped_by(n as nat),
    {
        let mut out: Vec<u64> = Vec::new();
        let ghost start = *self;
        let mut k: usize = 0;
        while k < n
            invariant
                self.wf(),
                k <= n,
                *self == start.stepped_by(k as nat),
                out@.len() == k,
                start.outputs(k as nat).len() == k,
                forall|j: int| 0 <= j < k ==> out@[j] as int == start.outputs(k as nat)[j],
            decreases n - k,
        {
            let s = self.tick();
            out.push(s);
            k = k + 1;
            proof {
                assert(start.outputs(k as nat) == start.outputs((k - 1) as nat).push(s as int));
            }
        }
        proof {
            assert(start.outputs(n as nat).len() == n);
        }
        out
    }
}

/// A struck voice is released after exactly one tick, whatever its envelope:
/// it is `Trigger` before the tick and `Off` after it.
pub proof fn lemma_trigger_clears_after_one_tick(v: WavetableInstance)
    requires
        v.active == ActiveState::Trigger,
    ensures
        v.stepped_by(0).active == ActiveState::Trigger,
        v.stepped_by(1).active == ActiveState::Off,
{
    assert(v.stepped_by(1) == v.stepped_by(0).stepped());
}

/// A copy of a voice, ticked as often as the voice itself, plays the same
/// samples and ends in the same state: restoring a snapshot replays the audio
/// exactly.
pub proof fn lemma_copy_replays(v: WavetableInstance, c: WavetableInstance, n: nat)
    requires
        c == v,
    ensures
        c.outputs(n) == v.outputs(n),
        c.stepped_by(n) == v.stepped_by(n),
{
}

/// One cycle of a sine wave in 64 quantized entries:
/// `round(127.5 + 127.5 * sin(2 * pi * i / 64))`.
pub open spec fn sine_values() -> Seq<u8> {
    seq![128u8, 140, 152, 165, 176, 188, 198, 208, 218, 226, 234, 240, 245, 250, 253, 254, 255, 254, 253, 250, 245, 240, 234, 226, 218, 208, 198, 188, 176, 165, 152, 140, 128, 115, 103, 90, 79, 67, 57, 47, 37, 29, 21, 15, 10, 5, 2, 1, 0, 1, 2, 5, 10, 15, 21, 29, 37, 47, 57, 67, 79, 90, 103, 115]
}

/// The 64 entries of `sine_values`.
pub fn sine_table() -> (r: Vec<u8>)
    ensures
        r@ == sine_values(),
{
    vec![
        128, 140, 152, 165, 176, 188, 198, 208, 218, 226, 234, 240, 245, 250, 253, 254, 255, 254,
        253, 250, 245, 240, 234, 226, 218, 208, 198, 188, 176, 165, 152, 140, 128, 115, 103, 90, 79,
        67, 57, 47, 37, 29, 21, 15, 10, 5, 2, 1, 0, 1, 2, 5, 10, 15, 21, 29, 37, 47, 57, 67, 79, 90,
        103, 115,
    ]
}

/// A released sine voice with the `interesting` envelope.
pub fn osci(output_sample_rate: usize) -> (r: WavetableInstance)
    requires
        0 < output_sample_rate <= MAX_SAMPLE_RATE,
    ensures
        r.wf(),
        r.definition.data@ == sine_values(),
        r.definition.envelope == EnvelopeDefinition::interesting_spec(),
        r.envelope == EnvelopeInstance::initial(
            EnvelopeDefinition::interesting_spec(),
            output_sample_rate as int,
        ),
        r.active == ActiveState::Off,
        r.oscillator == WavetableOscillator::initial(64, output_sample_rate as int),
{
    let definition = Arc::new(
        WavetableDefinition { data: sine_table(), envelope: EnvelopeDefinition::interesting() },
    );
    WavetableInstance::new(definition, output_sample_rate)
}

} // verus!
