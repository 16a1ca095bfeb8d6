use std::sync::Arc;
use vstd::prelude::*;

use crate::envelope::{ActiveState, EnvelopeInstance, UNIT};
use crate::fm::{FmDefinition, FmInstance, FmOperator, FmState};
use crate::oscillator::{increment_for, WavetableOscillator, MAX_SAMPLE_RATE};
use crate::wavetable::{WavetableDefinition, WavetableInstance};

verus! {

/// A playable instrument of a sound ROM.
#[derive(Clone, Debug)]
pub enum Instrument {
    Wavetable(Arc<WavetableDefinition>),
    Fm(Arc<FmDefinition>),
}

impl Instrument {
    pub open spec fn wf(&self) -> bool {
        match self {
            Instrument::Wavetable(d) => d.wf(),
            Instrument::Fm(d) => d.wf(),
        }
    }
}

/// What one channel plays.
#[derive(Clone, Debug)]
pub enum Voice {
    Silent,
    Wavetable(WavetableInstance),
    Fm(FmInstance),
}

/// The value of a channel's voice.
pub enum VoiceState {
    Silent,
    Wavetable(WavetableInstance),
    Fm(FmState),
}

impl View for Voice {
    type V = VoiceState;

    open spec fn view(&self) -> VoiceState {
        match self {
            Voice::Silent => VoiceState::Silent,
            Voice::Wavetable(w) => VoiceState::Wavetable(*w),
            Voice::Fm(f) => VoiceState::Fm(f@),
        }
    }
}

/// A fresh wavetable voice of `d` at `millihertz`.
pub open spec fn wavetable_started(d: Arc<WavetableDefinition>, rate: int, millihertz: int) -> WavetableInstance {
    WavetableInstance {
        definition: d,
        envelope: EnvelopeInstance::initial(d.envelope, rate),
        oscillator: WavetableOscillator {
            increment: increment_for(d.data.len() as int, millihertz, rate) as u64,
            ..WavetableOscillator::initial(d.data.len() as int, rate)
        },
        active: ActiveState::Off,
    }
}

/// A fresh FM voice of `d` at `millihertz`; each operator runs at its
/// multiple of that frequency.
pub open spec fn fm_started(d: Arc<FmDefinition>, rate: int, millihertz: int) -> FmState {
    FmState {
        definition: d,
        operators: Seq::new(
            4,
            |i: int|
                FmOperator {
                    oscillator: WavetableOscillator {
                        increment: increment_for(
                            d.table.len() as int,
                            millihertz * d.operators@[i].frequency_multiplier,
                            rate,
                        ) as u64,
                        ..WavetableOscillator::initial(d.table.len() as int, rate)
                    },
                    envelope: EnvelopeInstance::initial(d.operators@[i].envelope, rate),
                    modulation_depth: d.operators@[i].modulation_depth,
                },
        ),
        routing: d.algorithm.get_definition_spec(),
        active: ActiveState::Off,
    }
}

/// A fresh, released voice of `instrument` at `millihertz`.
pub open spec fn started(instrument: Instrument, rate: int, millihertz: int) -> VoiceState {
    match instrument {
        Instrument::Wavetable(d) => VoiceState::Wavetable(wavetable_started(d, rate, millihertz)),
        Instrument::Fm(d) => VoiceState::Fm(fm_started(d, rate, millihertz)),
    }
}

impl VoiceState {
    /// The sample the next tick returns.
    pub open spec fn next_sample(self) -> int {
        match self {
            VoiceState::Silent => 0,
            VoiceState::Wavetable(w) => w.next_sample(),
            VoiceState::Fm(f) => f.next_sample(),
        }
    }

    /// The voice after one tick.
    pub open spec fn stepped(self) -> VoiceState {
        match self {
            VoiceState::Silent => VoiceState::Silent,
            VoiceState::Wavetable(w) => VoiceState::Wavetable(w.stepped()),
            VoiceState::Fm(f) => VoiceState::Fm(f.stepped()),
        }
    }

    /// The voice with its activity set to `a`.
    pub open spec fn with_active(self, a: ActiveState) -> VoiceState {
        match self {
            VoiceState::Silent => VoiceState::Silent,
            VoiceState::Wavetable(w) => VoiceState::Wavetable(WavetableInstance { active: a, ..w }),
            VoiceState::Fm(f) => VoiceState::Fm(FmState { active: a, ..f }),
        }
    }
}

impl Voice {
    pub open spec fn wf(&self) -> bool {
        match self {
            Voice::Silent => true,
            Voice::Wavetable(w) => w.wf(),
            Voice::Fm(f) => f.wf(),
        }
    }

    /// A released voice of `instrument` at `millihertz`.
    pub fn start(instrument: &Instrument, output_sample_rate: usize, millihertz: u32) -> (r: Self)
        requires
            instrument.wf(),
            0 < output_sample_rate <= MAX_SAMPLE_RATE,
        ensures
            r.wf(),
            r@ == started(*instrument, output_sample_rate as int, millihertz as int),
    {
        match instrument {
            Instrument::Wavetable(d) => {
                let mut w = WavetableInstance::new(Arc::clone(d), output_sample_rate);
                w.set_frequency(millihertz as u64);
                Voice::Wavetable(w)
            },
            Instrument::Fm(d) => {
                let mut f = FmInstance::new(Arc::clone(d), output_sample_rate);
                f.set_frequency(millihertz);
                let ghost expected = fm_started(*d, output_sample_rate as int, millihertz as int);
                assert(f@.operators =~= expected.operators);
                Voice::Fm(f)
            },
        }
    }

    /// An independent copy with the same value.
    pub fn duplicate(&self) -> (r: Self)
        ensures
            r@ == self@,
            self.wf() ==> r.wf(),
    {
        match self {
            Voice::Silent => Voice::Silent,
            Voice::Wavetable(w) => Voice::Wavetable(w.duplicate()),
            Voice::Fm(f) => Voice::Fm(f.duplicate()),
        }
    }

    /// Sets the activity of a sounding voice; a silent one stays silent.
    pub fn set_state(&mut self, a: ActiveState)
        requires
            old(self).wf(),
        ensures
            final(self).wf(),
            final(self)@ == old(self)@.with_active(a),
    {
        match self {
            Voice::Silent => {},
            Voice::Wavetable(w) => {
                w.active = a;
            },
            Voice::Fm(f) => {
                f.active = a;
            },
        }
    }

    /// Returns the voice's sample and advances it by one tick.
    pub fn tick(&mut self) -> (r: u64)
        requires
            old(self).wf(),
        ensures
            final(self).wf(),
            r == old(self)@.next_sample(),
            r <= 4 * UNIT,
            final(self)@ == old(self)@.stepped(),
    {
        match self {
            Voice::Silent => 0,
            Voice::Wavetable(w) => w.tick(),
            Voice::Fm(f) => f.tick(),
        }
    }
}

} // verus!
