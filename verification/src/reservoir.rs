//! Reservoir computing: structure and deterministic initialisation plan of
//! an echo state network, its dimension checks, and the hashed bag-of-words
//! encoding of text that feeds it.
//!
//! The reservoir matrix is sparse: a connection exists where the draw for
//! that position, mapped to the unit interval, lies below one tenth. The input
//! matrix is dense. Both are planned from one generator, the reservoir first.
//! The state update and the readout are floating-point work of the numeric
//! backend.

use crate::lcg::{holds_draws, lemma_draws_continue, Lcg};
use crate::mlp::DimensionMismatch;
use crate::text::{chars_of, split_words, string_of, views, words};
use crate::types::Fraction;
use vstd::prelude::*;

verus! {

/// Seed of the generator that plans the reservoir and input weights.
pub const RESERVOIR_SEED: u64 = 42;

/// One in this many reservoir connections is instantiated, on average.
pub const RESERVOIR_SPARSITY: u16 = 10;

/// Multiplier of the text hash.
pub const HASH_MULTIPLIER: usize = 31;

/// The hash of a byte string: `h = h * 31 + byte` over all bytes, wrapping.
pub open spec fn hash_bytes(bytes: Seq<u8>) -> usize
    decreases bytes.len(),
{
    if bytes.len() == 0 {
        0
    } else {
        hash_bytes(bytes.drop_last()).wrapping_mul(HASH_MULTIPLIER).wrapping_add(
            bytes.last() as usize,
        )
    }
}

/// The hash of a text: the hash of its UTF-8 encoding.
pub open spec fn text_hash(s: Seq<char>) -> usize {
    hash_bytes(vstd::utf8::encode_utf8(s))
}

/// Number of words of `ws` whose hash falls into bucket `b` of `dimension`.
pub open spec fn hashed_count(ws: Seq<Seq<char>>, dimension: usize, b: int) -> nat
    decreases ws.len(),
{
    if ws.len() == 0 {
        0
    } else {
        hashed_count(ws.drop_last(), dimension, b) + if text_hash(ws.last()) % dimension == b {
            1nat
        } else {
            0nat
        }
    }
}

/// Two numbers of samples that should have been equal.
#[derive(Clone, Copy, Debug, PartialEq, Eq, Structural)]
pub struct LengthMismatch {
    /// Number of states or inputs.
    pub inputs: usize,
    /// Number of targets.
    pub targets: usize,
}

/// Simple string hash function.
pub fn simple_hash(s: &str) -> (h: usize)
    ensures
        h == text_hash(s@),
{
    let bytes = s.as_bytes();
    let mut h: usize = 0;
    let mut i: usize = 0;
    while i < bytes.len()
        invariant
            i <= bytes@.len(),
            h == hash_bytes(bytes@.take(i as int)),
        decreases bytes.len() - i,
    {
        proof {
            assert(bytes@.take(i + 1).drop_last() =~= bytes@.take(i as int));
        }
        h = h.wrapping_mul(HASH_MULTIPLIER).wrapping_add(bytes[i] as usize);
        i += 1;
    }
    proof {
        assert(bytes@.take(bytes@.len() as int) =~= bytes@);
    }
    h
}

/// Encodes a text as a hashed bag of words: entry `b` counts the words whose
/// hash falls into bucket `b`. A numeric backend scales the counts to unit
/// length.
pub fn encode_text(text: &str, dimension: usize) -> (counts: Vec<usize>)
    requires
        dimension > 0,
    ensures
        counts@.len() == dimension,
        forall|b: int|
            0 <= b < dimension ==> #[trigger] counts@[b] == hashed_count(words(text@), dimension, b),
{
    let mut counts: Vec<usize> = Vec::new();
    let mut b: usize = 0;
    while b < dimension
        invariant
            b <= dimension,
            counts@.len() == b,
            forall|j: int| 0 <= j < b ==> #[trigger] counts@[j] == 0,
        decreases dimension - b,
    {
        counts.push(0);
        b += 1;
    }
    let chars = chars_of(text);
    let ws = split_words(&chars);
    let ghost all = views(ws@);
    let mut k: usize = 0;
    while k < ws.len()
        invariant
            k <= ws.len(),
            dimension > 0,
            all == views(ws@),
            counts@.len() == dimension,
            forall|j: int|
                0 <= j < dimension ==> #[trigger] counts@[j] == hashed_count(
                    all.take(k as int),
                    dimension,
                    j,
                ),
            forall|j: int| 0 <= j < dimension ==> #[trigger] counts@[j] <= k,
        decreases ws.len() - k,
    {
        let word = string_of(&ws[k]);
        let h: usize = simple_hash(word.as_str()) % dimension;
        proof {
            assert(all.take(k + 1).drop_last() =~= all.take(k as int));
            assert(all.take(k + 1).last() == ws@[k as int]@);
        }
        let bumped: usize = counts[h] + 1;
        counts.set(h, bumped);
        k += 1;
    }
    proof {
        assert(all.take(ws.len() as int) =~= all);
    }
    counts
}

/// Structure of an echo state network.
#[derive(Clone, Copy, Debug, PartialEq, Eq, Structural)]
pub struct EchoStateNetwork {
    /// Dimension of input vectors.
    pub input_size: usize,
    /// Number of neurons in the reservoir.
    pub reservoir_size: usize,
    /// Dimension of output vectors.
    pub output_size: usize,
    /// Share of the new activation in each state update.
    pub leak_rate: Fraction,
    /// Factor by which the reservoir weights are multiplied.
    pub spectral_radius: Fraction,
    /// Factor by which the input weights are multiplied.
    pub input_scaling: Fraction,
}

/// The initial weights of an echo state network, as draws.
#[derive(Debug)]
pub struct ReservoirPlan {
    /// Draws for the reservoir matrix, `reservoir_size` by `reservoir_size`.
    /// A position is connected where the draw passes
    /// [`EchoStateNetwork::is_connected`]; the other positions stay zero.
    pub reservoir: Vec<Vec<u16>>,
    /// Draws for the input matrix, `reservoir_size` by `input_size`.
    pub input: Vec<Vec<u16>>,
}

/// What fitting the readout has to do.
#[derive(Clone, Copy, Debug, PartialEq, Eq, Structural)]
pub enum ReadoutFit {
    /// There are no samples: the readout stays as it is.
    Unchanged,
    /// Fit on this many samples; the sums are divided by this number plus the
    /// regularisation.
    Samples(usize),
}

impl EchoStateNetwork {
    /// `plan` is the initialisation plan of this network: the reservoir
    /// draws come first in the stream, the input draws follow.
    pub open spec fn planned(&self, plan: ReservoirPlan) -> bool {
        &&& holds_draws(
            plan.reservoir@,
            RESERVOIR_SEED,
            0,
            self.reservoir_size as nat,
            self.reservoir_size as nat,
        )
        &&& holds_draws(
            plan.input@,
            RESERVOIR_SEED,
            (self.reservoir_size * self.reservoir_size) as nat,
            self.reservoir_size as nat,
            self.input_size as nat,
        )
    }

    /// Describes a network. The input scaling is one.
    pub fn new(
        input_size: usize,
        reservoir_size: usize,
        output_size: usize,
        leak_rate: Fraction,
        spectral_radius: Fraction,
    ) -> (esn: Self)
        ensures
            esn == (EchoStateNetwork {
                input_size,
                reservoir_size,
                output_size,
                leak_rate,
                spectral_radius,
                input_scaling: Fraction { num: 1, den: 1 },
            }),
    {
        EchoStateNetwork {
            input_size,
            reservoir_size,
            output_size,
            leak_rate,
            spectral_radius,
            input_scaling: Fraction { num: 1, den: 1 },
        }
    }

    /// The reservoir size, which is the length of the state vector.
    pub fn reservoir_size(&self) -> (n: usize)
        ensures
            n == self.reservoir_size,
    {
        self.reservoir_size
    }

    /// Plans the reservoir and input weights.
    pub fn initialize_weights(&self) -> (plan: ReservoirPlan)
        ensures
            self.planned(plan),
    {
        let mut gen = Lcg::new(RESERVOIR_SEED);
        let reservoir = gen.draw_matrix(self.reservoir_size, self.reservoir_size);
        let input = gen.draw_matrix(self.reservoir_size, self.input_size);
        proof {
            let first = (self.reservoir_size * self.reservoir_size) as nat;
            lemma_draws_continue(
                input@,
                RESERVOIR_SEED,
                first,
                self.reservoir_size as nat,
                self.input_size as nat,
            );
        }
        ReservoirPlan { reservoir, input }
    }

    /// Tests whether a reservoir draw instantiates a connection.
    pub fn is_connected(draw: u16) -> (b: bool)
        ensures
            b == crate::lcg::connects(draw, RESERVOIR_SPARSITY),
    {
        Lcg::is_connection(draw, RESERVOIR_SPARSITY)
    }

    /// Checks an input length against the input size and tells the length of
    /// the state that an update yields.
    pub fn state_len(&self, input_len: usize) -> (r: Result<usize, DimensionMismatch>)
        ensures
            input_len == self.input_size ==> r == Ok::<usize, DimensionMismatch>(
                self.reservoir_size,
            ),
            input_len != self.input_size ==> r == Err::<usize, DimensionMismatch>(
                DimensionMismatch { expected: self.input_size, got: input_len },
            ),
    {
        if input_len == self.input_size {
            Ok(self.reservoir_size)
        } else {
            Err(DimensionMismatch { expected: self.input_size, got: input_len })
        }
    }

    /// Checks the sample counts handed to the readout fit.
    ///
    /// Different numbers of states and targets are rejected. No samples
    /// leave the readout unchanged. Otherwise every readout weight becomes
    /// the sum over the samples of target times state, divided by the number
    /// of samples plus the regularisation.
    pub fn train(&self, states: usize, targets: usize) -> (r: Result<ReadoutFit, LengthMismatch>)
        ensures
            states != targets ==> r == Err::<ReadoutFit, LengthMismatch>(
                LengthMismatch { inputs: states, targets },
            ),
            states == targets && states == 0 ==> r == Ok::<ReadoutFit, LengthMismatch>(
                ReadoutFit::Unchanged,
            ),
            states == targets && states > 0 ==> r == Ok::<ReadoutFit, LengthMismatch>(
                ReadoutFit::Samples(states),
            ),
    {
        if states != targets {
            Err(LengthMismatch { inputs: states, targets })
        } else if states == 0 {
            Ok(ReadoutFit::Unchanged)
        } else {
            Ok(ReadoutFit::Samples(states))
        }
    }
}

/// Networks that are described by the same sizes are planned with the same
/// weights: the plan depends on nothing else.
pub proof fn lemma_equal_sizes_equal_plans(
    a: EchoStateNetwork,
    b: EchoStateNetwork,
    plan_a: ReservoirPlan,
    plan_b: ReservoirPlan,
)
    requires
        a.input_size == b.input_size,
        a.reservoir_size == b.reservoir_size,
        a.planned(plan_a),
        b.planned(plan_b),
    ensures
        plan_a.reservoir@.len() == plan_b.reservoir@.len(),
        plan_a.input@.len() == plan_b.input@.len(),
        forall|i: int|
            0 <= i < plan_a.reservoir@.len() ==> (#[trigger] plan_a.reservoir@[i])@
                == plan_b.reservoir@[i]@,
        forall|i: int|
            0 <= i < plan_a.input@.len() ==> (#[trigger] plan_a.input@[i])@ == plan_b.input@[i]@,
{
    crate::lcg::lemma_draws_unique(
        plan_a.reservoir@,
        plan_b.reservoir@,
        RESERVOIR_SEED,
        0,
        a.reservoir_size as nat,
        a.reservoir_size as nat,
    );
    crate::lcg::lemma_draws_unique(
        plan_a.input@,
        plan_b.input@,
        RESERVOIR_SEED,
        (a.reservoir_size * a.reservoir_size) as nat,
        a.reservoir_size as nat,
        a.input_size as nat,
    );
}

} // verus!
