use vstd::prelude::*;

verus! {

/// Amplitude 1.0 in fixed point.
pub const UNIT: u64 = 65536;

/// Longest stage, in ticks.
pub const MAX_TICKS: u64 = 0x8000_0000_0000_0000;

/// Whether a voice sounds: released, held, or struck once.
#[derive(Clone, Copy, Debug, PartialEq, Eq, Structural)]
pub enum ActiveState {
    Off,
    On,
    Trigger,
}

/// Sample-rate independent envelope shape: stage lengths in milliseconds and
/// the sustain amplitude in fixed point (`UNIT` is full scale).
#[derive(Clone, Copy, Debug, PartialEq, Eq, Structural)]
pub struct EnvelopeDefinition {
    pub attack_ms: u32,
    pub decay_ms: u32,
    pub sustain_level: u64,
    pub release_ms: u32,
}

impl EnvelopeDefinition {
    pub open spec fn wf(&self) -> bool {
        self.sustain_level <= UNIT
    }

    /// A shape, refused when the sustain level is above full scale.
    pub fn new(attack_ms: u32, decay_ms: u32, sustain_level: u64, release_ms: u32) -> (r: Option<
        Self,
    >)
        ensures
            r == (if sustain_level <= UNIT {
                Some(EnvelopeDefinition { attack_ms, decay_ms, sustain_level, release_ms })
            } else {
                None::<EnvelopeDefinition>
            }),
    {
        if sustain_level <= UNIT {
            Some(EnvelopeDefinition { attack_ms, decay_ms, sustain_level, release_ms })
        } else {
            None
        }
    }

    pub open spec fn constant_spec() -> EnvelopeDefinition {
        EnvelopeDefinition { attack_ms: 0, decay_ms: 0, sustain_level: UNIT, release_ms: 0 }
    }

    /// Full amplitude from the first tick for as long as the voice is held.
    pub fn constant() -> (r: Self)
        ensures
            r.wf(),
            r == Self::constant_spec(),
    {
        EnvelopeDefinition { attack_ms: 0, decay_ms: 0, sustain_level: UNIT, release_ms: 0 }
    }

    pub open spec fn interesting_spec() -> EnvelopeDefinition {
        EnvelopeDefinition { attack_ms: 10, decay_ms: 100, sustain_level: UNIT / 2, release_ms: 300 }
    }

    /// A short pluck that settles at half amplitude and fades out slowly.
    pub fn interesting() -> (r: Self)
        ensures
            r.wf(),
            r == Self::interesting_spec(),
    {
        EnvelopeDefinition { attack_ms: 10, decay_ms: 100, sustain_level: UNIT / 2, release_ms: 300 }
    }
}

/// Stage of a running envelope.
#[derive(Clone, Copy, Debug, PartialEq, Eq, Structural)]
pub enum EnvelopePhase {
    Attack,
    Decay,
    Sustain,
    Release,
    Done,
}

/// A running envelope: stage lengths in ticks, the current stage, the ticks
/// spent in it, the last amplitude and the amplitude the release started from.
#[derive(Clone, Copy, Debug, PartialEq, Eq, Structural)]
pub struct EnvelopeInstance {
    pub attack_ticks: u64,
    pub decay_ticks: u64,
    pub sustain: u64,
    pub release_ticks: u64,
    pub phase: EnvelopePhase,
    pub elapsed: u64,
    pub level: u64,
    pub release_from: u64,
}

/// Ticks in `ms` milliseconds at `rate` ticks per second.
pub open spec fn ticks_of(ms: int, rate: int) -> int {
    ms * rate / 1000
}

/// `UNIT * num / den`.
pub open spec fn scaled(num: int, den: int) -> int {
    UNIT * num / den
}

impl EnvelopeInstance {
    pub open spec fn wf(&self) -> bool {
        &&& self.attack_ticks <= MAX_TICKS
        &&& self.decay_ticks <= MAX_TICKS
        &&& self.release_ticks <= MAX_TICKS
        &&& self.elapsed <= MAX_TICKS
        &&& self.sustain <= UNIT
        &&& self.level <= UNIT
        &&& self.release_from <= UNIT
    }

    /// The stage change that `active` asks for, before the tick's advance:
    /// a trigger restarts the attack, holding restarts a finished or releasing
    /// envelope, and letting go starts the release from the current level.
    pub open spec fn entered(self, active: ActiveState) -> EnvelopeInstance {
        let restart = EnvelopeInstance { phase: EnvelopePhase::Attack, elapsed: 0, ..self };
        match active {
            ActiveState::Trigger => restart,
            ActiveState::On => match self.phase {
                EnvelopePhase::Release | EnvelopePhase::Done => restart,
                _ => self,
            },
            ActiveState::Off => match self.phase {
                EnvelopePhase::Attack | EnvelopePhase::Decay | EnvelopePhase::Sustain => EnvelopeInstance {
                    phase: EnvelopePhase::Release,
                    elapsed: 0,
                    release_from: self.level,
                    ..self
                },
                _ => self,
            },
        }
    }

    /// One tick inside the current stage.
    pub open spec fn advanced(self) -> EnvelopeInstance {
        let n = self.elapsed + 1;
        match self.phase {
            EnvelopePhase::Attack => if n >= self.attack_ticks {
                EnvelopeInstance { phase: EnvelopePhase::Decay, elapsed: 0, level: UNIT, ..self }
            } else {
                EnvelopeInstance {
                    elapsed: n as u64,
                    level: scaled(n, self.attack_ticks as int) as u64,
                    ..self
                }
            },
            EnvelopePhase::Decay => if n >= self.decay_ticks {
                EnvelopeInstance {
                    phase: EnvelopePhase::Sustain,
                    elapsed: 0,
                    level: self.sustain,
                    ..self
                }
            } else {
                EnvelopeInstance {
                    elapsed: n as u64,
                    level: (UNIT - (UNIT - self.sustain) * n / (self.decay_ticks as int)) as u64,
                    ..self
                }
            },
            EnvelopePhase::Sustain => EnvelopeInstance { level: self.sustain, ..self },
            EnvelopePhase::Release => if n >= self.release_ticks {
                EnvelopeInstance { phase: EnvelopePhase::Done, elapsed: 0, level: 0, ..self }
            } else {
                EnvelopeInstance {
                    elapsed: n as u64,
                    level: (self.release_from * (self.release_ticks - n) / (
                    self.release_ticks as int)) as u64,
                    ..self
                }
            },
            EnvelopePhase::Done => EnvelopeInstance { level: 0, ..self },
        }
    }

    /// A finished, silent envelope of shape `d` at `rate` ticks per second.
    pub open spec fn initial(d: EnvelopeDefinition, rate: int) -> EnvelopeInstance {
        EnvelopeInstance {
            attack_ticks: ticks_of(d.attack_ms as int, rate) as u64,
            decay_ticks: ticks_of(d.decay_ms as int, rate) as u64,
            sustain: d.sustain_level,
            release_ticks: ticks_of(d.release_ms as int, rate) as u64,
            phase: EnvelopePhase::Done,
            elapsed: 0,
            level: 0,
            release_from: 0,
        }
    }

    /// The envelope after one tick under `active`.
    pub open spec fn stepped(self, active: ActiveState) -> EnvelopeInstance {
        self.entered(active).advanced()
    }

    /// The envelope that never sounds: every stage empty, finished, silent.
    pub open spec fn silent() -> EnvelopeInstance {
        EnvelopeInstance {
            attack_ticks: 0,
            decay_ticks: 0,
            sustain: 0,
            release_ticks: 0,
            phase: EnvelopePhase::Done,
            elapsed: 0,
            level: 0,
            release_from: 0,
        }
    }

    /// An envelope that never sounds.
    pub fn no_sound() -> (r: Self)
        ensures
            r.wf(),
            r == EnvelopeInstance::silent(),
    {
        EnvelopeInstance {
            attack_ticks: 0,
            decay_ticks: 0,
            sustain: 0,
            release_ticks: 0,
            phase: EnvelopePhase::Done,
            elapsed: 0,
            level: 0,
            release_from: 0,
        }
    }

    /// A silent, finished envelope of the given shape at `output_sample_rate`.
    pub fn new(definition: &EnvelopeDefinition, output_sample_rate: usize) -> (r: Self)
        requires
            definition.wf(),
            output_sample_rate <= crate::oscillator::MAX_SAMPLE_RATE,
        ensures
            r.wf(),
            r == EnvelopeInstance::initial(*definition, output_sample_rate as int),
    {
        let rate = output_sample_rate as u64;
        proof {
            assert(forall|ms: u64|
                ms <= 0xffff_ffff ==> #[trigger] (ms * rate) <= 0xffff_ffff * 0xffff_ffff)
                by (nonlinear_arith)
                requires
                    rate <= 0xffff_ffff,
            ;
        }
        let attack_ticks = (definition.attack_ms as u64) * rate / 1000;
        let decay_ticks = (definition.decay_ms as u64) * rate / 1000;
        let release_ticks = (definition.release_ms as u64) * rate / 1000;
        EnvelopeInstance {
            attack_ticks,
            decay_ticks,
            sustain: definition.sustain_level,
            release_ticks,
            phase: EnvelopePhase::Done,
            elapsed: 0,
            level: 0,
            release_from: 0,
        }
    }

    /// Advances one tick under `active` and returns the new amplitude, which
    /// never exceeds `UNIT`.
    pub fn tick(&mut self, active: ActiveState) -> (r: u64)
        requires
            old(self).wf(),
        ensures
            final(self).wf(),
            *final(self) == old(self).stepped(active),
            r == final(self).level,
            r <= UNIT,
    {
        let restart = matches!(active, ActiveState::Trigger) || (matches!(active, ActiveState::On)
            && matches!(self.phase, EnvelopePhase::Release | EnvelopePhase::Done));
        let release = matches!(active, ActiveState::Off) && matches!(
            self.phase,
            EnvelopePhase::Attack | EnvelopePhase::Decay | EnvelopePhase::Sustain
        );
        if restart {
            self.phase = EnvelopePhase::Attack;
            self.elapsed = 0;
        } else if release {
            self.phase = EnvelopePhase::Release;
            self.elapsed = 0;
            self.release_from = self.level;
        }
        let ghost entered = *self;
        assert(entered == old(self).entered(active));
        let n = self.elapsed + 1;
        match self.phase {
            EnvelopePhase::Attack => {
                if n >= self.attack_ticks {
                    self.phase = EnvelopePhase::Decay;
                    self.elapsed = 0;
                    self.level = UNIT;
                } else {
                    self.elapsed = n;
                    let t = self.attack_ticks;
                    proof { lemma_fraction_of_unit(n as int, t as int, UNIT as int); }
                    self.level = ((UNIT as u128) * (n as u128) / (t as u128)) as u64;
                }
            },
            EnvelopePhase::Decay => {
                if n >= self.decay_ticks {
                    self.phase = EnvelopePhase::Sustain;
                    self.elapsed = 0;
                    self.level = self.sustain;
                } else {
                    self.elapsed = n;
                    let t = self.decay_ticks;
                    let span = UNIT - self.sustain;
                    proof { lemma_fraction_of_unit(n as int, t as int, span as int); }
                    let drop = ((span as u128) * (n as u128) / (t as u128)) as u64;
                    self.level = UNIT - drop;
                }
            },
            EnvelopePhase::Sustain => {
                self.level = self.sustain;
            },
            EnvelopePhase::Release => {
                if n >= self.release_ticks {
                    self.phase = EnvelopePhase::Done;
                    self.elapsed = 0;
                    self.level = 0;
                } else {
                    self.elapsed = n;
                    let t = self.release_ticks;
                    let from = self.release_from;
                    proof { lemma_fraction_of_unit((t - n) as int, t as int, from as int); }
                    self.level = ((from as u128) * ((t - n) as u128) / (t as u128)) as u64;
                }
            },
            EnvelopePhase::Done => {
                self.level = 0;
            },
        }
        self.level
    }
}

/// `a * n / t` stays within `0..=a` when `n < t`, and the product fits in 128 bits.
proof fn lemma_fraction_of_unit(n: int, t: int, a: int)
    requires
        0 <= n < t,
        t <= MAX_TICKS,
        0 <= a <= UNIT,
    ensures
        0 <= a * n / t <= a,
        a * n < 0x1_0000_0000_0000_0000_0000_0000_0000_0000,
{
    assert(0 <= a * n <= a * t) by (nonlinear_arith)
        requires
            0 <= n < t,
            0 <= a,
    ;
    assert(a * n < 0x1_0000_0000_0000_0000_0000_0000_0000_0000) by (nonlinear_arith)
        requires
            0 <= n < t,
            t <= MAX_TICKS,
            0 <= a <= UNIT,
    ;
    vstd::arithmetic::div_mod::lemma_div_is_ordered(a * n, a * t, t);
    vstd::arithmetic::div_mod::lemma_div_by_multiple(a, t);
    vstd::arithmetic::div_mod::lemma_div_pos_is_pos(a * n, t);
}

} // verus!
