//! Multi-layer perceptron: architecture, deterministic initialisation plan,
//! dimension checks and class selection.
//!
//! The architecture is the list of layer sizes `[input, hidden.., output]`.
//! Layer `l` maps `sizes[l]` activations to `sizes[l + 1]` activations, so its
//! weight matrix has `sizes[l + 1]` rows and `sizes[l]` columns. Initial
//! weights are planned as draws of one generator that runs through the layers
//! in order, row by row. The arithmetic on weights belongs to the numeric
//! backend; scores reach [`MLP::argmax`] as integer keys that order as the
//! scores do.

use crate::lcg::{
    holds_draws, lemma_draws_continue, lemma_draws_unique, lemma_state_after_add, state_after, Lcg,
};
use vstd::prelude::*;

verus! {

/// Seed of the generator that plans the initial weights.
pub const INIT_SEED: u64 = 123;

/// An input whose length differs from the size that a network expects.
#[derive(Clone, Copy, Debug, PartialEq, Eq, Structural)]
pub struct DimensionMismatch {
    /// The input size that the network was built with.
    pub expected: usize,
    /// The length of the rejected input.
    pub got: usize,
}

/// The layer sizes of a network, input first, output last.
pub open spec fn layer_sizes_of(input: usize, hidden: Seq<usize>, output: usize) -> Seq<usize> {
    seq![input] + hidden + seq![output]
}

/// Number of weights in the layers before layer `l`.
pub open spec fn weights_before(sizes: Seq<usize>, l: nat) -> nat
    decreases l,
{
    if l == 0 {
        0
    } else {
        weights_before(sizes, (l - 1) as nat) + (sizes[l as int] * sizes[l - 1]) as nat
    }
}

/// `idx` is the index that [`MLP::argmax`] selects: the last position that
/// holds the maximum, or 0 for an empty sequence.
pub open spec fn is_argmax(values: Seq<i64>, idx: int) -> bool {
    if values.len() == 0 {
        idx == 0
    } else {
        &&& 0 <= idx < values.len()
        &&& forall|j: int| 0 <= j < values.len() ==> values[j] <= values[idx]
        &&& forall|j: int| idx < j < values.len() ==> values[j] < values[idx]
    }
}

/// `layer` is the planned weight matrix of layer `l`: `sizes[l + 1]` rows of
/// `sizes[l]` draws, which continue the draws of the layers before.
pub open spec fn planned_layer(layer: Vec<Vec<u16>>, sizes: Seq<usize>, l: int) -> bool {
    holds_draws(
        layer@,
        INIT_SEED,
        weights_before(sizes, l as nat),
        sizes[l + 1] as nat,
        sizes[l] as nat,
    )
}

/// `draws` is the initialisation plan of a network with the given layer
/// sizes: one matrix per layer, filled with consecutive draws.
pub open spec fn is_initial_plan(draws: Seq<Vec<Vec<u16>>>, sizes: Seq<usize>) -> bool {
    &&& draws.len() == sizes.len() - 1
    &&& forall|l: int| 0 <= l < draws.len() ==> planned_layer(#[trigger] draws[l], sizes, l)
}

/// A matrix drawn by a generator that has planned the layers before `l` is
/// the planned matrix of layer `l`, and leaves the generator ready for the
/// next layer.
proof fn lemma_plan_step(sizes: Seq<usize>, l: nat, state: u64, layer: Seq<Vec<u16>>)
    requires
        l + 1 < sizes.len(),
        state == state_after(INIT_SEED, weights_before(sizes, l)),
        holds_draws(layer, state, 0, sizes[l as int + 1] as nat, sizes[l as int] as nat),
    ensures
        holds_draws(
            layer,
            INIT_SEED,
            weights_before(sizes, l),
            sizes[l as int + 1] as nat,
            sizes[l as int] as nat,
        ),
        state_after(state, (sizes[l as int + 1] * sizes[l as int]) as nat) == state_after(
            INIT_SEED,
            weights_before(sizes, l + 1),
        ),
{
    let first = weights_before(sizes, l);
    let count = (sizes[l as int + 1] * sizes[l as int]) as nat;
    lemma_state_after_add(INIT_SEED, first, count);
    lemma_draws_continue(layer, INIT_SEED, first, sizes[l as int + 1] as nat, sizes[l as int] as nat);
    assert(weights_before(sizes, l + 1) == first + count);
}

/// The initialisation plan depends on the layer sizes alone: two plans for
/// the same sizes hold the same draws, layer by layer and row by row.
pub proof fn lemma_equal_sizes_equal_plans(
    a: Seq<Vec<Vec<u16>>>,
    b: Seq<Vec<Vec<u16>>>,
    sizes: Seq<usize>,
)
    requires
        is_initial_plan(a, sizes),
        is_initial_plan(b, sizes),
    ensures
        a.len() == b.len(),
        forall|l: int| 0 <= l < a.len() ==> (#[trigger] a[l])@.len() == b[l]@.len(),
        forall|l: int, i: int|
            0 <= l < a.len() && 0 <= i < a[l]@.len() ==> (#[trigger] a[l]@[i])@ == b[l]@[i]@,
{
    assert forall|l: int| 0 <= l < a.len() implies (#[trigger] a[l])@.len() == b[l]@.len()
        && forall|i: int| 0 <= i < a[l]@.len() ==> (#[trigger] a[l]@[i])@ == b[l]@[i]@ by {
        assert(planned_layer(a[l], sizes, l));
        assert(planned_layer(b[l], sizes, l));
        lemma_draws_unique(
            a[l]@,
            b[l]@,
            INIT_SEED,
            weights_before(sizes, l as nat),
            sizes[l + 1] as nat,
            sizes[l] as nat,
        );
    }
}

/// Architecture of a multi-layer perceptron.
#[derive(Debug)]
pub struct MLP {
    input_size: usize,
    hidden_sizes: Vec<usize>,
    output_size: usize,
}

impl MLP {
    /// The layer sizes, input first, output last.
    pub closed spec fn sizes(&self) -> Seq<usize> {
        layer_sizes_of(self.input_size, self.hidden_sizes@, self.output_size)
    }

    /// Describes a network with the given input size, hidden layer sizes and
    /// output size.
    pub fn new(input_size: usize, hidden_sizes: Vec<usize>, output_size: usize) -> (mlp: MLP)
        ensures
            mlp.sizes() == layer_sizes_of(input_size, hidden_sizes@, output_size),
    {
        MLP { input_size, hidden_sizes, output_size }
    }

    /// The input size.
    pub fn input_size(&self) -> (n: usize)
        ensures
            n == self.sizes().first(),
    {
        self.input_size
    }

    /// The output size.
    pub fn output_size(&self) -> (n: usize)
        ensures
            n == self.sizes().last(),
    {
        self.output_size
    }

    /// The layer sizes, input first, output last.
    pub fn layer_sizes(&self) -> (sizes: Vec<usize>)
        ensures
            sizes@ == self.sizes(),
    {
        let mut sizes: Vec<usize> = Vec::new();
        sizes.push(self.input_size);
        let mut i: usize = 0;
        while i < self.hidden_sizes.len()
            invariant
                i <= self.hidden_sizes.len(),
                sizes@ == seq![self.input_size] + self.hidden_sizes@.take(i as int),
            decreases self.hidden_sizes.len() - i,
        {
            sizes.push(self.hidden_sizes[i]);
            proof {
                assert(self.hidden_sizes@.take(i + 1) =~= self.hidden_sizes@.take(i as int).push(
                    self.hidden_sizes@[i as int],
                ));
                assert(sizes@ =~= seq![self.input_size] + self.hidden_sizes@.take(i + 1));
            }
            i += 1;
        }
        sizes.push(self.output_size);
        proof {
            assert(self.hidden_sizes@.take(self.hidden_sizes.len() as int) =~= self.hidden_sizes@);
            assert(sizes@ =~= self.sizes());
        }
        sizes
    }

    /// Whether the rectifier follows layer `layer`: it follows every layer
    /// but the last.
    pub fn applies_relu(&self, layer: usize) -> (b: bool)
        ensures
            b == (layer + 1 < self.sizes().len() - 1),
    {
        layer < self.hidden_sizes.len()
    }

    /// Checks an input length against the input size and tells the length of
    /// the output that a forward pass yields.
    ///
    /// A matching length gives the output size; any other length is rejected
    /// with both sizes.
    pub fn output_len(&self, input_len: usize) -> (r: Result<usize, DimensionMismatch>)
        ensures
            input_len == self.sizes().first() ==> r == Ok::<usize, DimensionMismatch>(
                self.sizes().last(),
            ),
            input_len != self.sizes().first() ==> r == Err::<usize, DimensionMismatch>(
                DimensionMismatch { expected: self.sizes().first(), got: input_len },
            ),
    {
        if input_len == self.input_size {
            Ok(self.output_size)
        } else {
            Err(DimensionMismatch { expected: self.input_size, got: input_len })
        }
    }

    /// Plans the initial weights: for every layer a matrix of draws, taken
    /// from one generator seeded with [`INIT_SEED`] that runs through the
    /// layers in order, row by row.
    pub fn initial_draws(&self) -> (draws: Vec<Vec<Vec<u16>>>)
        ensures
            is_initial_plan(draws@, self.sizes()),
    {
        let sizes = self.layer_sizes();
        let mut gen = Lcg::new(INIT_SEED);
        let mut draws: Vec<Vec<Vec<u16>>> = Vec::new();
        let mut l: usize = 0;
        while l + 1 < sizes.len()
            invariant
                l + 1 <= sizes@.len(),
                draws@.len() == l,
                gen.state == state_after(INIT_SEED, weights_before(sizes@, l as nat)),
                forall|k: int| 0 <= k < l ==> planned_layer(#[trigger] draws@[k], sizes@, k),
            decreases sizes@.len() - l,
        {
            let rows: usize = sizes[l + 1];
            let cols: usize = sizes[l];
            let ghost state = gen.state;
            let layer = gen.draw_matrix(rows, cols);
            proof {
                lemma_plan_step(sizes@, l as nat, state, layer@);
            }
            draws.push(layer);
            l += 1;
        }
        draws
    }

    /// Index of the maximum value; the last one when several positions hold
    /// the maximum, and 0 for an empty slice.
    pub fn argmax(values: &[i64]) -> (idx: usize)
        ensures
            is_argmax(values@, idx as int),
    {
        if values.len() == 0 {
            return 0;
        }
        let mut best: usize = 0;
        let mut i: usize = 1;
        while i < values.len()
            invariant
                best < i <= values@.len(),
                forall|j: int| 0 <= j < i ==> values@[j] <= values@[best as int],
                forall|j: int| best < j < i ==> values@[j] < values@[best as int],
            decreases values.len() - i,
        {
            if values[i] >= values[best] {
                best = i;
            }
            i += 1;
        }
        best
    }
}

impl Clone for MLP {
    fn clone(&self) -> (mlp: Self)
        ensures
            mlp.sizes() == self.sizes(),
    {
        let mut hidden: Vec<usize> = Vec::new();
        let mut i: usize = 0;
        while i < self.hidden_sizes.len()
            invariant
                i <= self.hidden_sizes.len(),
                hidden@ == self.hidden_sizes@.take(i as int),
            decreases self.hidden_sizes.len() - i,
        {
            hidden.push(self.hidden_sizes[i]);
            proof {
                assert(self.hidden_sizes@.take(i + 1) =~= self.hidden_sizes@.take(i as int).push(
                    self.hidden_sizes@[i as int],
                ));
            }
            i += 1;
        }
        proof {
            assert(self.hidden_sizes@.take(self.hidden_sizes.len() as int) =~= self.hidden_sizes@);
        }
        MLP { input_size: self.input_size, hidden_sizes: hidden, output_size: self.output_size }
    }
}

} // verus!
