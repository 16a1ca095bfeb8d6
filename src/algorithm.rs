use vstd::prelude::*;

verus! {

/// Number of operators in one FM voice.
pub const OPERATOR_COUNT: usize = 4;

/// Which earlier operators feed the phase of an operator.
#[derive(Clone, Copy, Debug, PartialEq, Eq, Structural)]
pub enum ModulatedBy {
    Unmodulated,
    Single(usize),
    Double(usize, usize),
    Triple(usize, usize, usize),
}

/// Index of one of the fixed FM routings.
#[derive(Clone, Copy, Debug, PartialEq, Eq, Structural)]
pub struct Algorithm(pub u8);

/// Carriers and modulation routing of one algorithm. `modulators[j]` feeds
/// operator `j + 1`; operator 0 is never modulated.
#[derive(Clone, Copy, Debug)]
pub struct AlgorithmDefinition {
    pub carriers: [bool; 4],
    pub modulators: [ModulatedBy; 3],
}

/// Every operator named by `m` has an index below `i`.
pub open spec fn reads_only_below(m: ModulatedBy, i: int) -> bool {
    match m {
        ModulatedBy::Unmodulated => true,
        ModulatedBy::Single(a) => a < i,
        ModulatedBy::Double(a, b) => a < i && b < i,
        ModulatedBy::Triple(a, b, c) => a < i && b < i && c < i,
    }
}

pub open spec fn single(a: usize) -> ModulatedBy {
    ModulatedBy::Single(a)
}

pub open spec fn carriers_of(n: int) -> Seq<bool> {
    if n <= 4 {
        seq![false, false, false, true]
    } else if n <= 6 {
        seq![false, false, true, true]
    } else if n == 7 {
        seq![false, true, false, true]
    } else if n <= 10 {
        seq![false, true, true, true]
    } else {
        seq![true, true, true, true]
    }
}

pub open spec fn modulators_of(n: int) -> Seq<ModulatedBy> {
    let z = ModulatedBy::Unmodulated;
    if n == 0 {
        seq![single(0), single(1), single(2)]
    } else if n == 1 {
        seq![z, ModulatedBy::Double(0, 1), single(2)]
    } else if n == 2 {
        seq![single(0), z, ModulatedBy::Double(1, 2)]
    } else if n == 3 {
        seq![single(0), single(0), ModulatedBy::Double(1, 2)]
    } else if n == 4 {
        seq![z, z, ModulatedBy::Triple(0, 1, 2)]
    } else if n == 5 {
        seq![single(0), single(1), z]
    } else if n == 6 {
        seq![single(0), single(1), single(1)]
    } else if n == 7 {
        seq![single(0), z, single(2)]
    } else if n == 8 {
        seq![single(0), single(0), single(0)]
    } else if n == 9 {
        seq![single(0), single(0), z]
    } else if n == 10 {
        seq![single(0), z, z]
    } else {
        seq![z, z, z]
    }
}

impl AlgorithmDefinition {
    /// The definition is the routing of algorithm `n`.
    pub open spec fn is_algorithm(&self, n: int) -> bool {
        &&& self.carriers@ == carriers_of(n)
        &&& self.modulators@ == modulators_of(n)
    }
}

impl Algorithm {
    pub open spec fn valid(&self) -> bool {
        self.0 <= 11
    }

    /// The routing `get_definition` returns.
    pub open spec fn get_definition_spec(self) -> AlgorithmDefinition {
        choose|r: AlgorithmDefinition| r.is_algorithm(self.0 as int)
    }

    /// Smallest algorithm index.
    pub fn min() -> (r: u8)
        ensures
            r == 0,
    {
        0
    }

    /// Largest algorithm index.
    pub fn max() -> (r: u8)
        ensures
            r == 11,
    {
        11
    }

    /// Builds an algorithm, rejecting an index outside `min()..=max()`.
    pub fn try_new(n: u8) -> (r: Option<Algorithm>)
        ensures
            r == (if n <= 11 { Some(Algorithm(n)) } else { None::<Algorithm> }),
    {
        if n <= 11 {
            Some(Algorithm(n))
        } else {
            None
        }
    }

    /// The routing of this algorithm; these are similar to those of the Dirtywave M8.
    pub fn get_definition(self) -> (r: AlgorithmDefinition)
        requires
            self.valid(),
        ensures
            r.is_algorithm(self.0 as int),
            r == self.get_definition_spec(),
    {
        let z = ModulatedBy::Unmodulated;
        let r = match self.0 {
            // A > B > C > D
            0 => AlgorithmDefinition {
                carriers: [false, false, false, true],
                modulators: [ModulatedBy::Single(0), ModulatedBy::Single(1), ModulatedBy::Single(2)],
            },
            // [A + B] > C > D
            1 => AlgorithmDefinition {
                carriers: [false, false, false, true],
                modulators: [z, ModulatedBy::Double(0, 1), ModulatedBy::Single(2)],
            },
            // [[A > B] + C] > D
            2 => AlgorithmDefinition {
                carriers: [false, false, false, true],
                modulators: [ModulatedBy::Single(0), z, ModulatedBy::Double(1, 2)],
            },
            // [[A > B] + [A > C]] > D
            3 => AlgorithmDefinition {
                carriers: [false, false, false, true],
                modulators: [ModulatedBy::Single(0), ModulatedBy::Single(0), ModulatedBy::Double(1, 2)],
            },
            // [A + B + C] > D
            4 => AlgorithmDefinition {
                carriers: [false, false, false, true],
                modulators: [z, z, ModulatedBy::Triple(0, 1, 2)],
            },
            // [A > B > C] + D
            5 => AlgorithmDefinition {
                carriers: [false, false, true, true],
                modulators: [ModulatedBy::Single(0), ModulatedBy::Single(1), z],
            },
            // [A > B > C] + [A > B > D]
            6 => AlgorithmDefinition {
                carriers: [false, false, true, true],
                modulators: [ModulatedBy::Single(0), ModulatedBy::Single(1), ModulatedBy::Single(1)],
            },
            // [A > B] + [C > D]
            7 => AlgorithmDefinition {
                carriers: [false, true, false, true],
                modulators: [ModulatedBy::Single(0), z, ModulatedBy::Single(2)],
            },
            // [A > B] + [A > C] + [A > D]
            8 => AlgorithmDefinition {
                carriers: [false, true, true, true],
                modulators: [ModulatedBy::Single(0), ModulatedBy::Single(0), ModulatedBy::Single(0)],
            },
            // [A > B] + [A > C] + D
            9 => AlgorithmDefinition {
                carriers: [false, true, true, true],
                modulators: [ModulatedBy::Single(0), ModulatedBy::Single(0), z],
            },
            // [A > B] + C + D
            10 => AlgorithmDefinition {
                carriers: [false, true, true, true],
                modulators: [ModulatedBy::Single(0), z, z],
            },
            // A + B + C + D
            _ => AlgorithmDefinition {
                carriers: [true, true, true, true],
                modulators: [z, z, z],
            },
        };
        assert(r.carriers@ =~= carriers_of(self.0 as int));
        assert(r.modulators@ =~= modulators_of(self.0 as int));
        proof {
            let n = self.0 as int;
            assert(r.is_algorithm(n));
            assert(exists|x: AlgorithmDefinition| x.is_algorithm(n));
            lemma_routing_unique(r, self.get_definition_spec(), n);
        }
        r
    }
}

/// Two definitions of the same algorithm are equal.
pub proof fn lemma_routing_unique(a: AlgorithmDefinition, b: AlgorithmDefinition, n: int)
    requires
        a.is_algorithm(n),
        b.is_algorithm(n),
    ensures
        a == b,
{
    assert(a.carriers =~= b.carriers);
    assert(a.modulators =~= b.modulators);
}

/// For every algorithm, the modulators of operator `j + 1` all have an index
/// at most `j`: evaluating operators in ascending order never reads an output
/// that is not computed yet.
pub proof fn lemma_routing_reads_earlier_operators(n: int, j: int)
    requires
        0 <= n <= 11,
        0 <= j < 3,
    ensures
        modulators_of(n).len() == 3,
        reads_only_below(modulators_of(n)[j], j + 1),
{
}

} // verus!
