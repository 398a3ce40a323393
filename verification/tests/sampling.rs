use brains::sampler::WeightedSampler;

fn bits(x: f64) -> u64 {
    x.to_bits()
}

#[test]
fn sampler_rejects_empty_weights() {
    assert!(WeightedSampler::new(&vec![]).is_none());
}

#[test]
fn sampler_rejects_all_zero_weights() {
    assert!(WeightedSampler::new(&vec![bits(0.0), bits(0.0)]).is_none());
}

#[test]
fn sampler_rejects_negative_weights() {
    assert!(WeightedSampler::new(&vec![bits(1.0), bits(-0.5)]).is_none());
}

#[test]
fn sampler_rejects_nan_weights() {
    assert!(WeightedSampler::new(&vec![bits(1.0), bits(f64::NAN)]).is_none());
}

#[test]
fn sampler_accepts_positive_weights() {
    let s = WeightedSampler::new(&vec![bits(1.0), bits(2.0), bits(3.0)]).unwrap();
    assert_eq!(s.len(), 3);
}

#[test]
fn sampler_frequencies_match_weights() {
    // weights [1, 1, 2] drawn 100,000 times converge to [0.25, 0.25, 0.5]
    let s = WeightedSampler::new(&vec![bits(1.0), bits(1.0), bits(2.0)]).unwrap();
    let mut rng = rand::thread_rng();
    let draws = 100_000usize;
    let mut counts = [0usize; 3];
    for _ in 0..draws {
        let i = s.sample(&mut rng);
        assert!(i < 3);
        counts[i] += 1;
    }
    let expected = [0.25f64, 0.25, 0.5];
    for i in 0..3 {
        let freq = counts[i] as f64 / draws as f64;
        // about seven standard deviations of slack
        assert!(
            (freq - expected[i]).abs() < 0.011,
            "frequency of index {} was {}",
            i,
            freq
        );
    }
}

#[test]
fn sampler_never_draws_a_zero_weight() {
    let s = WeightedSampler::new(&vec![bits(0.0), bits(1.0), bits(0.0)]).unwrap();
    let mut rng = rand::thread_rng();
    for _ in 0..10_000 {
        assert_eq!(s.sample(&mut rng), 1);
    }
}
