use vstd::prelude::*;

use crate::quantum_neuron::QuantumNeuron;

verus! {

/// Why a decision could not be produced.
#[derive(Clone, Copy, Debug, PartialEq, Eq, Structural)]
pub enum DecisionError {
    /// The network owns no units, so a mean over them is undefined.
    InvalidConfiguration,
}

impl DecisionError {
    /// A human-readable account of the failure, for callers that surface it.
    pub fn message(&self) -> (text: String)
        ensures
            text@ == "cannot decide: the network has no units"@,
    {
        "cannot decide: the network has no units".to_string()
    }
}

/// The outcome of one decision pass: the exact fraction `fired / total` of
/// units that fired, a value in the closed interval [0, 1]. Keeping the
/// fraction exact lets a caller render it at whatever precision it wants.
#[derive(Clone, Copy, Debug, PartialEq, Eq, Structural)]
pub struct Decision {
    /// How many units fired (sampled 1).
    pub fired: usize,
    /// How many units were sampled; never zero.
    pub total: usize,
}

impl Decision {
    /// A valid decision: a fraction of at least one unit, hence a value in
    /// [0, 1].
    pub open spec fn wf(&self) -> bool {
        1 <= self.total && self.fired <= self.total
    }
}

/// A fixed, ordered collection of probabilistic units, sampled as a whole.
pub struct QuantumNeuralNetwork {
    /// The owned units, in sampling order.
    pub neurons: Vec<QuantumNeuron>,
}

impl QuantumNeuralNetwork {
    /// A valid network: every owned unit is valid.
    pub open spec fn wf(&self) -> bool {
        forall|i: int| 0 <= i < self.neurons@.len() ==> self.neurons@[i].wf()
    }

    /// Builds a network of `num_neurons` fresh units, each independently
    /// initialized with bias one half and no coupled peer. A count of zero
    /// is accepted here; such a network can never decide.
    pub fn new(num_neurons: usize) -> (network: QuantumNeuralNetwork)
        ensures
            network.wf(),
            network.neurons@.len() == num_neurons,
            forall|i: int|
                0 <= i < num_neurons ==> (#[trigger] network.neurons@[i]).bias_num() == 1
                    && network.neurons@[i].bias_den() == 2
                    && network.neurons@[i].entangled_with() is None,
    {
        let mut neurons: Vec<QuantumNeuron> = Vec::new();
        let mut i: usize = 0;
        while i < num_neurons
            invariant
                i <= num_neurons,
                neurons@.len() == i,
                forall|j: int|
                    0 <= j < i ==> (#[trigger] neurons@[j]).bias_num() == 1
                        && neurons@[j].bias_den() == 2
                        && neurons@[j].entangled_with() is None,
            decreases num_neurons - i,
        {
            neurons.push(QuantumNeuron::new());
            i = i + 1;
        }
        QuantumNeuralNetwork { neurons }
    }

    /// One decision pass: observes every owned unit exactly once, in
    /// collection order, and returns the exact fraction of units that fired,
    /// a value in [0, 1] whose denominator is the unit count. On a network
    /// with no units it returns the configuration error instead — never a
    /// number — and that is the only way it can fail. The network itself is
    /// unchanged: consecutive calls are independent passes over the same
    /// units.
    pub fn decide(&mut self) -> (result: Result<Decision, DecisionError>)
        requires
            old(self).wf(),
        ensures
            *final(self) == *old(self),
            result is Ok <==> old(self).neurons@.len() >= 1,
            result matches Ok(decision) ==> decision.wf() && decision.total
                == old(self).neurons@.len(),
            result matches Err(error) ==> error == DecisionError::InvalidConfiguration,
    {
        let total = self.neurons.len();
        if total == 0 {
            return Err(DecisionError::InvalidConfiguration);
        }
        let mut fired: usize = 0;
        let mut i: usize = 0;
        while i < total
            invariant
                *self == *old(self),
                self.wf(),
                total == self.neurons@.len(),
                i <= total,
                fired <= i,
            decreases total - i,
        {
            let bit = self.neurons[i].observe();
            if bit == 1 {
                fired = fired + 1;
            }
            i = i + 1;
        }
        Ok(Decision { fired, total })
    }
}

} // verus!
