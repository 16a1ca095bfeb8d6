use vstd::prelude::*;

verus! {

/// Sub-index resolution of a phase: one table step is this many phase units.
pub const PHASE_ONE: u64 = 65536;

/// Largest wavetable length. It keeps one period within 32 bits of phase
/// units, so phase arithmetic stays in `u64` and the frequency product in `u128`
/// with room to spare; the proofs of `set_frequency` and of table reads use
/// that bound.
pub const MAX_TABLE_LENGTH: usize = 65536;

/// Largest output sample rate.
pub const MAX_SAMPLE_RATE: usize = 4294967295;

/// Phase accumulator that walks a wavetable of `table_length` entries.
/// `phase` is a fixed-point table index: `phase / PHASE_ONE` is the entry and
/// `phase % PHASE_ONE` the fraction towards the next one.
#[derive(Clone, Copy, Debug, PartialEq, Eq, Structural)]
pub struct WavetableOscillator {
    pub phase: u64,
    pub increment: u64,
    pub table_length: usize,
    pub output_sample_rate: usize,
}

/// Phase units in one pass over a table of `len` entries.
pub open spec fn period_of(len: int) -> int {
    len * PHASE_ONE
}

/// Phase advance per tick for a frequency in millihertz: `len * f / rate`
/// table steps, truncated to phase units and reduced modulo one period.
pub open spec fn increment_for(len: int, millihertz: int, rate: int) -> int {
    (period_of(len) * millihertz / (rate * 1000)) % period_of(len)
}

impl WavetableOscillator {
    pub open spec fn period(&self) -> int {
        period_of(self.table_length as int)
    }

    pub open spec fn wf(&self) -> bool {
        &&& 0 < self.table_length <= MAX_TABLE_LENGTH
        &&& 0 < self.output_sample_rate <= MAX_SAMPLE_RATE
        &&& self.phase < self.period()
        &&& self.increment < self.period()
    }

    /// A fresh oscillator: phase zero, frequency zero.
    pub open spec fn initial(len: int, rate: int) -> WavetableOscillator {
        WavetableOscillator {
            phase: 0,
            increment: 0,
            table_length: len as usize,
            output_sample_rate: rate as usize,
        }
    }

    /// The oscillator after one tick.
    pub open spec fn advanced(self) -> WavetableOscillator {
        WavetableOscillator {
            phase: ((self.phase + self.increment) % self.period()) as u64,
            ..self
        }
    }

    /// The oscillator after `k` ticks.
    pub open spec fn advanced_by(self, k: nat) -> WavetableOscillator
        decreases k,
    {
        if k == 0 {
            self
        } else {
            self.advanced_by((k - 1) as nat).advanced()
        }
    }

    /// A silent oscillator at phase zero.
    pub fn new(table_length: usize, output_sample_rate: usize) -> (r: Self)
        requires
            0 < table_length <= MAX_TABLE_LENGTH,
            0 < output_sample_rate <= MAX_SAMPLE_RATE,
        ensures
            r.wf(),
            r == WavetableOscillator::initial(table_length as int, output_sample_rate as int),
    {
        proof {
            assert(0 < period_of(table_length as int)) by (nonlinear_arith)
                requires
                    0 < table_length,
            ;
        }
        WavetableOscillator { phase: 0, increment: 0, table_length, output_sample_rate }
    }

    /// Sets the frequency, in millihertz; frequency zero holds the phase still.
    pub fn set_frequency(&mut self, millihertz: u64)
        requires
            old(self).wf(),
        ensures
            final(self).wf(),
            *final(self) == (WavetableOscillator {
                increment: increment_for(
                    old(self).table_length as int,
                    millihertz as int,
                    old(self).output_sample_rate as int,
                ) as u64,
                ..*old(self)
            }),
    {
        let len = self.table_length as u128;
        let rate = self.output_sample_rate as u128;
        let period: u128 = len * (PHASE_ONE as u128);
        proof {
            assert(period <= 65536 * 65536) by (nonlinear_arith)
                requires
                    period == len * 65536,
                    len <= 65536,
            ;
            assert(period * millihertz <= 65536 * 65536 * 0xffff_ffff_ffff_ffff) by (nonlinear_arith)
                requires
                    period <= 65536 * 65536,
                    millihertz <= 0xffff_ffff_ffff_ffff,
            ;
        }
        let steps: u128 = period * (millihertz as u128) / (rate * 1000);
        let inc = steps % period;
        self.increment = inc as u64;
    }

    /// Returns the phase before advancing it by one increment, wrapping at
    /// the end of the table.
    pub fn tick(&mut self) -> (r: u64)
        requires
            old(self).wf(),
        ensures
            final(self).wf(),
            r == old(self).phase,
            *final(self) == old(self).advanced(),
    {
        let r = self.phase;
        let period: u64 = (self.table_length as u64) * PHASE_ONE;
        self.phase = (self.phase + self.increment) % period;
        r
    }
}

/// After `k` ticks with no change of frequency the phase is
/// `(phase + k * increment) mod period`; from phase zero that is
/// `k * len * f / rate` table steps modulo the table length, with the
/// per-tick step truncated to whole phase units.
pub proof fn lemma_phase_after_ticks(o: WavetableOscillator, k: nat)
    requires
        o.wf(),
    ensures
        o.advanced_by(k).phase == (o.phase + k * o.increment) % o.period(),
        o.advanced_by(k).wf(),
        o.advanced_by(k).increment == o.increment,
        o.advanced_by(k).table_length == o.table_length,
    decreases k,
{
    if k > 0 {
        let km = (k - 1) as nat;
        lemma_phase_after_ticks(o, km);
        let p = o.period();
        let prev = o.advanced_by(km);
        assert(p > 0) by (nonlinear_arith)
            requires
                p == o.table_length * 65536,
                o.table_length > 0,
        ;
        let a = o.phase + km * o.increment;
        vstd::arithmetic::div_mod::lemma_add_mod_noop(a, o.increment as int, p);
        vstd::arithmetic::div_mod::lemma_mod_twice(o.increment as int, p);
        vstd::arithmetic::div_mod::lemma_small_mod(o.increment as nat, p as nat);
        vstd::arithmetic::div_mod::lemma_mod_pos_bound(a + o.increment, p);
        assert(a + o.increment == o.phase + k * o.increment) by (nonlinear_arith)
            requires
                a == o.phase + km * o.increment,
                k == km + 1,
        ;
        assert(prev.advanced().phase == (prev.phase + prev.increment) % p);
    } else {
        assert(o.period() > 0) by (nonlinear_arith)
            requires
                o.period() == o.table_length * 65536,
                o.table_length > 0,
        ;
        vstd::arithmetic::div_mod::lemma_small_mod(o.phase as nat, o.period() as nat);
    }
}

/// From phase zero at `millihertz`, after `k` ticks the phase is
/// `(k * step) mod period` with `step = period * f / (rate * 1000)` rounded
/// down to whole phase units: at most `k` phase units (`k / PHASE_ONE` table
/// steps) short of the exact `k * len * f / rate` steps, modulo the table.
pub proof fn lemma_phase_tracks_frequency(o: WavetableOscillator, millihertz: nat, k: nat)
    requires
        o.wf(),
        o.phase == 0,
        o.increment == increment_for(
            o.table_length as int,
            millihertz as int,
            o.output_sample_rate as int,
        ),
    ensures
        ({
            let d = o.output_sample_rate * 1000;
            let step = o.period() * millihertz / d;
            &&& o.advanced_by(k).phase == (k * step) % o.period()
            &&& k * step * d <= k * (o.period() * millihertz)
            &&& k > 0 ==> k * (o.period() * millihertz) < (k * step + k) * d
        }),
{
    let p = o.period();
    let d = o.output_sample_rate * 1000;
    let x = p * millihertz;
    let step = x / d;
    assert(p > 0) by (nonlinear_arith)
        requires
            p == o.table_length * 65536,
            o.table_length > 0,
    ;
    assert(d > 0);
    assert(x >= 0) by (nonlinear_arith)
        requires
            p > 0,
            x == p * millihertz,
    ;
    lemma_phase_after_ticks(o, k);
    vstd::arithmetic::div_mod::lemma_mul_mod_noop_right(k as int, step, p);
    vstd::arithmetic::div_mod::lemma_fundamental_div_mod(x, d);
    vstd::arithmetic::div_mod::lemma_mod_pos_bound(x, d);
    let r = x % d;
    assert(k * x == k * step * d + k * r) by (nonlinear_arith)
        requires
            x == d * step + r,
    ;
    assert(0 <= k * r) by (nonlinear_arith)
        requires
            0 <= r,
            k >= 0,
    ;
    if k > 0 {
        assert(k * r < k * d) by (nonlinear_arith)
            requires
                r < d,
                k > 0,
        ;
        assert((k * step + k) * d == k * step * d + k * d) by (nonlinear_arith);
    }
}

} // verus!
