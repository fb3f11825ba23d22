//! A small network of independent probabilistic binary units.
//!
//! Each unit is a stationary biased coin: one observation is one Bernoulli
//! trial, drawn from the process-wide random source. A network owns a fixed,
//! ordered collection of such units; each decision pass observes every unit
//! exactly once and reports the exact fraction of units that fired, a value
//! in the closed interval [0, 1]. A network with no units cannot produce a
//! decision and reports that as a checked error.

mod random_source;

pub mod quantum_network;
pub mod quantum_neuron;

pub use quantum_network::Decision;
pub use quantum_network::DecisionError;
pub use quantum_network::QuantumNeuralNetwork;
pub use quantum_neuron::QuantumNeuron;
