//! Spiking neural network: structure, deterministic initialisation plan and
//! the refractory gate of its neurons.
//!
//! Both weight matrices are sparse: a synapse exists where the draw for its
//! position, mapped to the unit interval, lies below one fifth. The
//! membrane potentials are floating-point work of the numeric backend.

use crate::lcg::{holds_draws, lemma_draws_continue, Lcg};
use vstd::prelude::*;

verus! {

/// Seed of the generator that plans the synaptic weights.
pub const SPIKING_SEED: u64 = 789;

/// One in this many synapses is instantiated, on average.
pub const SPIKING_SPARSITY: u16 = 5;

/// Number of steps for which a neuron rests after a spike.
pub const REFRACTORY_PERIOD: u32 = 5;

/// The refractory counter of a leaky integrate-and-fire neuron.
#[derive(Clone, Copy, Debug, PartialEq, Eq, Structural)]
pub struct LIFNeuron {
    /// Steps of rest that are left.
    pub refractory: u32,
}

impl LIFNeuron {
    /// A neuron that is not resting.
    pub fn new() -> (n: Self)
        ensures
            n.refractory == 0,
    {
        LIFNeuron { refractory: 0 }
    }

    /// Opens one step. A resting neuron counts down and skips the step; any
    /// other neuron integrates its input.
    pub fn update(&mut self) -> (integrates: bool)
        ensures
            integrates == (old(self).refractory == 0),
            old(self).refractory > 0 ==> final(self).refractory == old(self).refractory - 1,
            old(self).refractory == 0 ==> final(self).refractory == 0,
    {
        if self.refractory > 0 {
            self.refractory = self.refractory - 1;
            false
        } else {
            true
        }
    }

    /// Records a spike: the neuron rests for [`REFRACTORY_PERIOD`] steps.
    pub fn fire(&mut self)
        ensures
            final(self).refractory == REFRACTORY_PERIOD,
    {
        self.refractory = REFRACTORY_PERIOD;
    }

    /// Puts the neuron back to rest without a refractory period.
    pub fn reset(&mut self)
        ensures
            final(self).refractory == 0,
    {
        self.refractory = 0;
    }
}

/// Structure of a spiking network with one hidden layer.
#[derive(Clone, Copy, Debug, PartialEq, Eq, Structural)]
pub struct SpikingNetwork {
    /// Number of input neurons.
    pub n_input: usize,
    /// Number of hidden neurons.
    pub n_hidden: usize,
    /// Number of output neurons.
    pub n_output: usize,
}

/// The initial synaptic weights of a spiking network, as draws. A synapse
/// exists where the draw passes [`SpikingNetwork::is_connected`].
#[derive(Debug)]
pub struct SpikingPlan {
    /// Draws for the input-to-hidden weights, `n_hidden` by `n_input`.
    pub weights_ih: Vec<Vec<u16>>,
    /// Draws for the hidden-to-output weights, `n_output` by `n_hidden`.
    pub weights_ho: Vec<Vec<u16>>,
}

impl SpikingNetwork {
    /// `plan` is the initialisation plan of this network: the input-to-hidden
    /// draws come first in the stream, the hidden-to-output draws follow.
    pub open spec fn planned(&self, plan: SpikingPlan) -> bool {
        &&& holds_draws(
            plan.weights_ih@,
            SPIKING_SEED,
            0,
            self.n_hidden as nat,
            self.n_input as nat,
        )
        &&& holds_draws(
            plan.weights_ho@,
            SPIKING_SEED,
            (self.n_hidden * self.n_input) as nat,
            self.n_output as nat,
            self.n_hidden as nat,
        )
    }

    /// Describes a network.
    pub fn new(n_input: usize, n_hidden: usize, n_output: usize) -> (snn: Self)
        ensures
            snn == (SpikingNetwork { n_input, n_hidden, n_output }),
    {
        SpikingNetwork { n_input, n_hidden, n_output }
    }

    /// Plans the synaptic weights.
    pub fn initialize_weights(&self) -> (plan: SpikingPlan)
        ensures
            self.planned(plan),
    {
        let mut gen = Lcg::new(SPIKING_SEED);
        let weights_ih = gen.draw_matrix(self.n_hidden, self.n_input);
        let weights_ho = gen.draw_matrix(self.n_output, self.n_hidden);
        proof {
            lemma_draws_continue(
                weights_ho@,
                SPIKING_SEED,
                (self.n_hidden * self.n_input) as nat,
                self.n_output as nat,
                self.n_hidden as nat,
            );
        }
        SpikingPlan { weights_ih, weights_ho }
    }

    /// Tests whether a draw instantiates a synapse.
    pub fn is_connected(draw: u16) -> (b: bool)
        ensures
            b == crate::lcg::connects(draw, SPIKING_SPARSITY),
    {
        Lcg::is_connection(draw, SPIKING_SPARSITY)
    }

    /// Checks the number of input spikes of one step against the number of
    /// input neurons.
    pub fn step(&self, input_spikes: usize) -> (r: Result<usize, crate::mlp::DimensionMismatch>)
        ensures
            input_spikes == self.n_input ==> r == Ok::<usize, crate::mlp::DimensionMismatch>(
                self.n_output,
            ),
            input_spikes != self.n_input ==> r == Err::<usize, crate::mlp::DimensionMismatch>(
                crate::mlp::DimensionMismatch { expected: self.n_input, got: input_spikes },
            ),
    {
        if input_spikes == self.n_input {
            Ok(self.n_output)
        } else {
            Err(crate::mlp::DimensionMismatch { expected: self.n_input, got: input_spikes })
        }
    }
}

} // verus!
