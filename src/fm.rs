use std::sync::Arc;
use vstd::prelude::*;

use crate::algorithm::{
    lemma_routing_reads_earlier_operators, Algorithm, AlgorithmDefinition, ModulatedBy,
    OPERATOR_COUNT,
};
use crate::envelope::{ActiveState, EnvelopeDefinition, EnvelopeInstance, UNIT};
use crate::oscillator::{WavetableOscillator, MAX_SAMPLE_RATE, MAX_TABLE_LENGTH, PHASE_ONE};
use crate::wavetable::{after_tick, interpolated, read_table};

verus! {

/// Largest modulation depth: phase units of offset per full-scale input.
pub const MAX_DEPTH: u64 = 0xffff_ffff;

/// Largest ratio of an operator's frequency to the note's: any ratio whose
/// product with a 32-bit millihertz frequency fits in `u64`.
pub const MAX_MULTIPLIER: u64 = 0xffff_ffff;

/// Shape of one operator: its envelope, its frequency as a multiple of the
/// note's, and how far a full-scale modulation input moves its phase.
#[derive(Clone, Copy, Debug, PartialEq, Eq, Structural)]
pub struct OperatorDefinition {
    pub envelope: EnvelopeDefinition,
    pub frequency_multiplier: u64,
    pub modulation_depth: u64,
}

impl OperatorDefinition {
    pub open spec fn wf(&self) -> bool {
        &&& self.envelope.wf()
        &&& self.frequency_multiplier <= MAX_MULTIPLIER
        &&& self.modulation_depth <= MAX_DEPTH
    }
}

/// An immutable FM instrument: the waveform all operators read, the routing,
/// and the four operator shapes.
#[derive(Clone, Debug)]
pub struct FmDefinition {
    pub table: Vec<u8>,
    pub algorithm: Algorithm,
    pub operators: [OperatorDefinition; 4],
}

impl FmDefinition {
    pub open spec fn wf(&self) -> bool {
        &&& 0 < self.table.len() <= MAX_TABLE_LENGTH
        &&& self.algorithm.valid()
        &&& forall|i: int| 0 <= i < 4 ==> (#[trigger] self.operators@[i]).wf()
    }
}

/// One running operator.
#[derive(Clone, Copy, Debug, PartialEq, Eq, Structural)]
pub struct FmOperator {
    pub oscillator: WavetableOscillator,
    pub envelope: EnvelopeInstance,
    pub modulation_depth: u64,
}

impl FmOperator {
    pub open spec fn wf(&self, table_length: int) -> bool {
        &&& self.oscillator.wf()
        &&& self.oscillator.table_length == table_length
        &&& self.envelope.wf()
        &&& self.modulation_depth <= MAX_DEPTH
    }

    /// The operator after one tick under `active`.
    pub open spec fn stepped(self, active: ActiveState) -> FmOperator {
        FmOperator {
            oscillator: self.oscillator.advanced(),
            envelope: self.envelope.stepped(active),
            ..self
        }
    }
}

/// Sum of the outputs named by `m`.
pub open spec fn modulation_input(m: ModulatedBy, outs: Seq<int>) -> int {
    match m {
        ModulatedBy::Unmodulated => 0,
        ModulatedBy::Single(a) => outs[a as int],
        ModulatedBy::Double(a, b) => outs[a as int] + outs[b as int],
        ModulatedBy::Triple(a, b, c) => outs[a as int] + outs[b as int] + outs[c as int],
    }
}

/// Sum of the outputs of the first `k` operators that are carriers.
pub open spec fn carrier_sum(carriers: Seq<bool>, outs: Seq<int>, k: nat) -> int
    decreases k,
{
    if k == 0 {
        0
    } else {
        carrier_sum(carriers, outs, (k - 1) as nat) + if carriers[k - 1] {
            outs[k - 1]
        } else {
            0
        }
    }
}

/// One playing FM voice.
#[derive(Clone, Debug)]
pub struct FmInstance {
    pub definition: Arc<FmDefinition>,
    pub operators: Vec<FmOperator>,
    pub routing: AlgorithmDefinition,
    pub active: ActiveState,
}

/// The value of an FM voice: its definition, operators, routing and activity.
pub struct FmState {
    pub definition: Arc<FmDefinition>,
    pub operators: Seq<FmOperator>,
    pub routing: AlgorithmDefinition,
    pub active: ActiveState,
}

impl View for FmInstance {
    type V = FmState;

    open spec fn view(&self) -> FmState {
        FmState {
            definition: self.definition,
            operators: self.operators@,
            routing: self.routing,
            active: self.active,
        }
    }
}

impl FmState {
    /// Routing into operator `i`; operator 0 is never modulated.
    pub open spec fn modulator_of(self, i: int) -> ModulatedBy {
        if i == 0 {
            ModulatedBy::Unmodulated
        } else {
            self.routing.modulators@[i - 1]
        }
    }

    /// Output of operator `i` this tick, given the outputs of the operators
    /// before it: its phase is offset by the summed modulation input times its
    /// depth (phase modulation: the stored phase itself is not moved).
    pub open spec fn operator_output(self, i: int, outs: Seq<int>) -> int {
        let op = self.operators[i];
        let period = op.oscillator.period();
        let offset = modulation_input(self.modulator_of(i), outs) * op.modulation_depth / (
        UNIT as int);
        let phase = (op.oscillator.phase + offset % period) % period;
        interpolated(self.definition.table@, phase) * (op.envelope.stepped(self.active).level as int)
            / (UNIT as int)
    }

    /// Outputs of operators `0..k`, evaluated in ascending order.
    pub open spec fn outputs_upto(self, k: nat) -> Seq<int>
        decreases k,
    {
        if k == 0 {
            Seq::empty()
        } else {
            let o = self.outputs_upto((k - 1) as nat);
            o.push(self.operator_output(k - 1, o))
        }
    }

    /// The sample the next tick returns: the carriers' outputs summed, not
    /// normalized.
    pub open spec fn next_sample(self) -> int {
        carrier_sum(self.routing.carriers@, self.outputs_upto(4), 4)
    }

    /// The voice after one tick: every operator advanced, a trigger released.
    pub open spec fn stepped(self) -> FmState {
        FmState {
            operators: Seq::new(
                self.operators.len(),
                |i: int| self.operators[i].stepped(self.active),
            ),
            active: after_tick(self.active),
            ..self
        }
    }
}

impl FmInstance {
    pub open spec fn wf(&self) -> bool {
        &&& self.definition.wf()
        &&& self.routing.is_algorithm(self.definition.algorithm.0 as int)
        &&& self.operators.len() == OPERATOR_COUNT
        &&& forall|i: int|
            0 <= i < 4 ==> (#[trigger] self.operators@[i]).wf(self.definition.table.len() as int)
    }

    /// A released voice of `definition` at frequency zero.
    pub fn new(definition: Arc<FmDefinition>, output_sample_rate: usize) -> (r: Self)
        requires
            definition.wf(),
            0 < output_sample_rate <= MAX_SAMPLE_RATE,
        ensures
            r.wf(),
            r.definition == definition,
            r.routing == definition.algorithm.get_definition_spec(),
            r.active == ActiveState::Off,
            forall|i: int|
                0 <= i < 4 ==> #[trigger] r.operators@[i] == (FmOperator {
                    oscillator: WavetableOscillator::initial(
                        definition.table.len() as int,
                        output_sample_rate as int,
                    ),
                    envelope: EnvelopeInstance::initial(
                        definition.operators@[i].envelope,
                        output_sample_rate as int,
                    ),
                    modulation_depth: definition.operators@[i].modulation_depth,
                }),
    {
        let routing = definition.algorithm.get_definition();
        let mut operators: Vec<FmOperator> = Vec::new();
        let mut i: usize = 0;
        while i < OPERATOR_COUNT
            invariant
                i <= 4,
                definition.wf(),
                0 < output_sample_rate <= MAX_SAMPLE_RATE,
                operators@.len() == i,
                forall|j: int|
                    0 <= j < i ==> #[trigger] operators@[j] == (FmOperator {
                        oscillator: WavetableOscillator::initial(
                            definition.table.len() as int,
                            output_sample_rate as int,
                        ),
                        envelope: EnvelopeInstance::initial(
                            definition.operators@[j].envelope,
                            output_sample_rate as int,
                        ),
                        modulation_depth: definition.operators@[j].modulation_depth,
                    }),
                forall|j: int| 0 <= j < i ==> (#[trigger] operators@[j]).wf(definition.table.len() as int),
            decreases 4 - i,
        {
            let d = definition.operators[i];
            assert(definition.operators@[i as int].wf());
            let op = FmOperator {
                oscillator: WavetableOscillator::new(definition.table.len(), output_sample_rate),
                envelope: EnvelopeInstance::new(&d.envelope, output_sample_rate),
                modulation_depth: d.modulation_depth,
            };
            operators.push(op);
            i = i + 1;
        }
        FmInstance { definition, operators, routing, active: ActiveState::Off }
    }

    /// An independent copy with equal state.
    pub fn duplicate(&self) -> (r: Self)
        ensures
            r@ == self@,
            r.definition == self.definition,
            r.operators@ == self.operators@,
            r.routing == self.routing,
            r.active == self.active,
    {
        let mut operators: Vec<FmOperator> = Vec::new();
        let mut i: usize = 0;
        while i < self.operators.len()
            invariant
                i <= self.operators.len(),
                operators@ == self.operators@.subrange(0, i as int),
            decreases self.operators.len() - i,
        {
            operators.push(self.operators[i]);
            i = i + 1;
            assert(operators@ =~= self.operators@.subrange(0, i as int));
        }
        assert(operators@ =~= self.operators@);
        FmInstance {
            definition: Arc::clone(&self.definition),
            operators,
            routing: self.routing,
            active: self.active,
        }
    }

    /// Sets the note frequency in millihertz; each operator runs at its
    /// multiple of it.
    pub fn set_frequency(&mut self, millihertz: u32)
        requires
            old(self).wf(),
        ensures
            final(self).wf(),
            final(self).definition == old(self).definition,
            final(self).routing == old(self).routing,
            final(self).active == old(self).active,
            final(self).operators@.len() == 4,
            forall|i: int|
                0 <= i < 4 ==> #[trigger] final(self).operators@[i] == (FmOperator {
                    oscillator: WavetableOscillator {
                        increment: crate::oscillator::increment_for(
                            old(self).definition.table.len() as int,
                            millihertz * old(self).definition.operators@[i].frequency_multiplier,
                            old(self).operators@[i].oscillator.output_sample_rate as int,
                        ) as u64,
                        ..old(self).operators@[i].oscillator
                    },
                    ..old(self).operators@[i]
                }),
    {
        let ghost start = *self;
        let mut i: usize = 0;
        while i < OPERATOR_COUNT
            invariant
                i <= 4,
                self.wf(),
                self.definition == start.definition,
                self.routing == start.routing,
                self.active == start.active,
                forall|j: int| i <= j < 4 ==> #[trigger] self.operators@[j] == start.operators@[j],
                forall|j: int|
                    0 <= j < i ==> #[trigger] self.operators@[j] == (FmOperator {
                        oscillator: WavetableOscillator {
                            increment: crate::oscillator::increment_for(
                                start.definition.table.len() as int,
                                millihertz * start.definition.operators@[j].frequency_multiplier,
                                start.operators@[j].oscillator.output_sample_rate as int,
                            ) as u64,
                            ..start.operators@[j].oscillator
                        },
                        ..start.operators@[j]
                    }),
            decreases 4 - i,
        {
            let mut op = self.operators[i];
            let multiplier = self.definition.operators[i].frequency_multiplier;
            assert(self.definition.operators@[i as int].wf());
            proof {
                assert(millihertz * multiplier <= 0xffff_ffff * 0xffff_ffff) by (nonlinear_arith)
                    requires
                        millihertz <= 0xffff_ffff,
                        multiplier <= 0xffff_ffff,
                ;
            }
            let f: u64 = (millihertz as u64) * multiplier;
            op.oscillator.set_frequency(f);
            self.operators.set(i, op);
            i = i + 1;
        }
    }


    /// Ticks the operators in ascending order, each phase-modulated by the
    /// outputs already computed this tick, and returns the carriers' sum.
    pub fn tick(&mut self) -> (r: u64)
        requires
            old(self).wf(),
        ensures
            final(self).wf(),
            r == old(self)@.next_sample(),
            r <= 4 * UNIT,
            final(self)@ == old(self)@.stepped(),
    {
        let ghost start = *self;
        let mut outs: Vec<u64> = Vec::new();
        let table_length = self.definition.table.len();
        let mut i: usize = 0;
        while i < OPERATOR_COUNT
            invariant
                i <= 4,
                self.wf(),
                self.definition == start.definition,
                self.routing == start.routing,
                self.active == start.active,
                table_length == start.definition.table.len(),
                start.wf(),
                outs@.len() == i,
                start@.outputs_upto(i as nat).len() == i,
                forall|j: int| 0 <= j < i ==> #[trigger] outs@[j] as int == start@.outputs_upto(i as nat)[j],
                forall|j: int| 0 <= j < i ==> #[trigger] outs@[j] <= UNIT,
                forall|j: int| i <= j < 4 ==> #[trigger] self.operators@[j] == start.operators@[j],
                forall|j: int|
                    0 <= j < i ==> #[trigger] self.operators@[j] == start.operators@[j].stepped(
                        start.active,
                    ),
            decreases 4 - i,
        {
            let m = if i == 0 {
                ModulatedBy::Unmodulated
            } else {
                self.routing.modulators[i - 1]
            };
            proof {
                if i > 0 {
                    lemma_routing_reads_earlier_operators(
                        start.definition.algorithm.0 as int,
                        i - 1,
                    );
                }
            }
            let input: u64 = match m {
                ModulatedBy::Unmodulated => 0,
                ModulatedBy::Single(a) => outs[a],
                ModulatedBy::Double(a, b) => outs[a] + outs[b],
                ModulatedBy::Triple(a, b, c) => outs[a] + outs[b] + outs[c],
            };
            let ghost prev = start@.outputs_upto(i as nat);
            assert(input == modulation_input(start@.modulator_of(i as int), prev));
            let mut op = self.operators[i];
            assert(op.wf(table_length as int));
            let base = op.oscillator.tick();
            let period: u64 = (table_length as u64) * PHASE_ONE;
            proof {
                assert(input * op.modulation_depth <= 3 * 65536 * 0xffff_ffff) by (nonlinear_arith)
                    requires
                        input <= 3 * 65536,
                        op.modulation_depth <= 0xffff_ffff,
                ;
            }
            let offset = input * op.modulation_depth / UNIT;
            let phase = (base + offset % period) % period;
            let value = read_table(&self.definition.table, phase);
            let level = op.envelope.tick(self.active);
            proof {
                assert(value * level <= 65536 * 65536) by (nonlinear_arith)
                    requires
                        value <= 65536,
                        level <= 65536,
                ;
                vstd::arithmetic::div_mod::lemma_div_is_ordered(
                    (value * level) as int,
                    (65536 * 65536) as int,
                    65536,
                );
            }
            let out = value * level / UNIT;
            self.operators.set(i, op);
            outs.push(out);
            i = i + 1;
            proof {
                assert(start@.outputs_upto(i as nat) == prev.push(start@.operator_output(
                    (i - 1) as int,
                    prev,
                )));
                assert(out as int == start@.operator_output((i - 1) as int, prev));
            }
        }
        let ghost all = start@.outputs_upto(4);
        let mut sum: u64 = 0;
        let mut k: usize = 0;
        while k < OPERATOR_COUNT
            invariant
                k <= 4,
                outs@.len() == 4,
                all.len() == 4,
                forall|j: int| 0 <= j < 4 ==> #[trigger] outs@[j] as int == all[j],
                forall|j: int| 0 <= j < 4 ==> #[trigger] outs@[j] <= UNIT,
                sum == carrier_sum(start.routing.carriers@, all, k as nat),
                sum <= k * UNIT,
                self.routing == start.routing,
            decreases 4 - k,
        {
            if self.routing.carriers[k] {
                sum = sum + outs[k];
            }
            k = k + 1;
        }
        if self.active == ActiveState::Trigger {
            self.active = ActiveState::Off;
        }
        proof {
            assert(self.operators@ =~= start@.stepped().operators);
        }
        sum
    }

    /// Holds the note (`true`) or lets it go (`false`).
    pub fn set_active(&mut self, active: bool)
        ensures
            final(self).active == (if active { ActiveState::On } else { ActiveState::Off }),
            final(self).definition == old(self).definition,
            final(self).operators == old(self).operators,
            final(self).routing == old(self).routing,
    {
        self.active = if active {
            ActiveState::On
        } else {
            ActiveState::Off
        };
    }

    /// Strikes the note once.
    pub fn trigger(&mut self)
        ensures
            final(self).active == ActiveState::Trigger,
            final(self).definition == old(self).definition,
            final(self).operators == old(self).operators,
            final(self).routing == old(self).routing,
    {
        self.active = ActiveState::Trigger;
    }
}

/// With four independent carriers (algorithm 11) no operator is modulated,
/// and the voice's sample is the plain sum of the four operator outputs: four
/// operators at a quarter of full scale sum to full scale.
pub proof fn lemma_independent_carriers_sum(s: FmState)
    requires
        s.routing.is_algorithm(11),
    ensures
        forall|i: int| 0 <= i < 4 ==> s.modulator_of(i) == ModulatedBy::Unmodulated,
        s.next_sample() == s.operator_output(0, seq![]) + s.operator_output(1, seq![])
            + s.operator_output(2, seq![]) + s.operator_output(3, seq![]),
        (forall|i: int| 0 <= i < 4 ==> #[trigger] s.operator_output(i, seq![]) == UNIT / 4)
            ==> s.next_sample() == UNIT,
{
    let c = s.routing.carriers@;
    assert(c[0] && c[1] && c[2] && c[3]);
    let o0 = s.outputs_upto(0);
    let o1 = s.outputs_upto(1);
    let o2 = s.outputs_upto(2);
    let o3 = s.outputs_upto(3);
    let all = s.outputs_upto(4);
    assert(o1 == o0.push(s.operator_output(0, o0)));
    assert(o2 == o1.push(s.operator_output(1, o1)));
    assert(o3 == o2.push(s.operator_output(2, o2)));
    assert(all == o3.push(s.operator_output(3, o3)));
    assert(s.operator_output(0, o0) == s.operator_output(0, seq![]));
    assert(s.operator_output(1, o1) == s.operator_output(1, seq![]));
    assert(s.operator_output(2, o2) == s.operator_output(2, seq![]));
    assert(s.operator_output(3, o3) == s.operator_output(3, seq![]));
    assert(carrier_sum(c, all, 0) == 0);
    assert(carrier_sum(c, all, 1) == all[0]);
    assert(carrier_sum(c, all, 2) == all[0] + all[1]);
    assert(carrier_sum(c, all, 3) == all[0] + all[1] + all[2]);
    assert(carrier_sum(c, all, 4) == all[0] + all[1] + all[2] + all[3]);
}

} // verus!
