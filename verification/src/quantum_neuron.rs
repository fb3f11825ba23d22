use vstd::prelude::*;

use crate::random_source::draw_below;
use crate::random_source::fresh_rng;

verus! {

/// One probabilistic binary unit: a stationary biased coin.
///
/// The bias is the exact rational `bias_num / bias_den`, a probability in
/// [0, 1]: the chance that one observation comes out 1. It is fixed for the
/// unit's whole lifetime. `entangled_with` nominally links the unit to a
/// peer by index; no rule consults it yet.
pub struct QuantumNeuron {
    entangled_with: Option<usize>,
    bias_num: u64,
    bias_den: u64,
}

impl QuantumNeuron {
    /// Numerator of the unit's bias.
    pub closed spec fn bias_num(&self) -> u64 {
        self.bias_num
    }

    /// Denominator of the unit's bias.
    pub closed spec fn bias_den(&self) -> u64 {
        self.bias_den
    }

    /// The nominally coupled peer, if any.
    pub closed spec fn entangled_with(&self) -> Option<usize> {
        self.entangled_with
    }

    /// A valid unit: the bias is a rational probability in [0, 1].
    pub open spec fn wf(&self) -> bool {
        1 <= self.bias_den() && self.bias_num() <= self.bias_den()
    }

    /// A fresh unit: maximally uncertain (bias one half) and coupled to no
    /// peer.
    pub fn new() -> (unit: QuantumNeuron)
        ensures
            unit.wf(),
            unit.bias_num() == 1,
            unit.bias_den() == 2,
            unit.entangled_with() is None,
    {
        QuantumNeuron { entangled_with: None, bias_num: 1, bias_den: 2 }
    }

    /// The threshold rule of the observation model, for every draw value:
    /// a unit fires (returns 1) on a given draw exactly when the draw falls
    /// below the bias numerator. `observe` feeds it the one value it takes
    /// from the random source; any draw below the bias denominator is a
    /// Bernoulli trial with success probability `bias_num / bias_den`.
    pub fn fires(&self, draw: u64) -> (bit: u8)
        ensures
            bit == (if draw < self.bias_num() {
                1u8
            } else {
                0u8
            }),
    {
        if draw < self.bias_num {
            1
        } else {
            0
        }
    }

    /// One Bernoulli trial: draws one value from the process-wide random
    /// source and fires (returns 1) exactly when the draw falls below the
    /// bias numerator, by the threshold rule `fires`. Every call is an
    /// independent draw; the unit itself never changes. The draw cannot be
    /// named here, so only what holds of every outcome is stated: the result
    /// is a bit, and at the two degenerate biases it is fixed — a bias of
    /// zero never fires, a bias of one always fires.
    pub fn observe(&self) -> (bit: u8)
        requires
            self.wf(),
        ensures
            bit == 0 || bit == 1,
            self.bias_num() == 0 ==> bit == 0,
            self.bias_num() == self.bias_den() ==> bit == 1,
    {
        let mut rng = fresh_rng();
        let draw = draw_below(&mut rng, self.bias_den);
        self.fires(draw)
    }
}

} // verus!
