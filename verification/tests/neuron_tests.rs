use quantum_consciousness::QuantumNeuron;

#[test]
fn threshold_rule_fires_exactly_below_the_numerator() {
    // A fresh unit has bias 1/2: numerator 1, denominator 2. Of the two
    // possible draws, only 0 falls below the numerator.
    let neuron = QuantumNeuron::new();
    assert_eq!(neuron.fires(0), 1);
    assert_eq!(neuron.fires(1), 0);
    assert_eq!(neuron.fires(2), 0);
    assert_eq!(neuron.fires(u64::MAX), 0);
}

#[test]
fn observation_is_a_bit() {
    let neuron = QuantumNeuron::new();
    for _ in 0..1_000 {
        let bit = neuron.observe();
        assert!(bit == 0 || bit == 1);
    }
}

#[test]
fn observations_vary_over_many_trials() {
    let neuron = QuantumNeuron::new();
    let mut saw_zero = false;
    let mut saw_one = false;
    for _ in 0..10_000 {
        match neuron.observe() {
            0 => saw_zero = true,
            _ => saw_one = true,
        }
        if saw_zero && saw_one {
            break;
        }
    }
    assert!(saw_zero && saw_one, "ten thousand observations never varied");
}
