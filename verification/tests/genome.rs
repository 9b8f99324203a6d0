use binary_pga2::BinaryPGA2;
use binary_pga2::MutationRate;

#[test]
fn starts_with_one_bit_resolution() {
    let pga2 = BinaryPGA2::new();

    assert_eq!(pga2.resolution(), 1);
}

#[test]
fn specify_initial_resolution() {
    let pga2 = BinaryPGA2::with_resolution(10);

    assert_eq!(pga2.resolution(), 10);
}

#[test]
fn increase_resolution() {
    let mut pga2 = BinaryPGA2::with_resolution(1);

    pga2.increase_resolution();

    assert_eq!(pga2.resolution(), 2);
}

#[test]
fn decrease_resolution() {
    let mut pga2 = BinaryPGA2::with_resolution(2);

    pga2.decrease_resolution();

    assert_eq!(pga2.resolution(), 1);
}

#[test]
fn resolution_is_at_least_one() {
    let mut pga2 = BinaryPGA2::with_resolution(1);

    pga2.decrease_resolution();

    assert_eq!(pga2.resolution(), 1);
}

#[test]
fn flips_all_bits() {
    let mut pga2 = BinaryPGA2::with_resolution(10);

    let mut initial_state: Vec<bool> = Vec::new();
    for i in 0..pga2.resolution() {
        initial_state.push(pga2.bit(i));
    }

    pga2.mutate(MutationRate::always(), &mut rand::thread_rng());

    let mut and_ones: usize = 0;
    for i in 0..pga2.resolution() {
        if initial_state[i] && pga2.bit(i) {
            and_ones += 1;
        }
    }
    assert_eq!(and_ones, 0);
}

#[test]
fn rate_zero_changes_nothing() {
    let mut pga2 = BinaryPGA2::with_resolution(32);

    let mut initial_state: Vec<bool> = Vec::new();
    for i in 0..pga2.resolution() {
        initial_state.push(pga2.bit(i));
    }

    pga2.mutate(MutationRate::never(), &mut rand::thread_rng());

    assert_eq!(pga2.resolution(), 32);
    for i in 0..pga2.resolution() {
        assert_eq!(pga2.bit(i), initial_state[i]);
    }
}

#[test]
fn full_mutation_complements_set_bit_count() {
    let mut pga2 = BinaryPGA2::with_resolution(10);

    let before = pga2.count_ones();

    pga2.mutate(MutationRate::new(10, 10), &mut rand::thread_rng());

    assert_eq!(pga2.count_ones(), 10 - before);
}

#[test]
fn count_never_exceeds_resolution() {
    let pga2 = BinaryPGA2::with_resolution(50);

    assert!(pga2.count_ones() <= 50);
    assert_eq!(pga2.resolution(), 50);
}

#[test]
fn all_clear_and_all_set_reach_the_extremes() {
    let mut pga2 = BinaryPGA2::with_resolution(1);
    let mut rng = rand::thread_rng();

    if pga2.bit(0) {
        pga2.mutate(MutationRate::always(), &mut rng);
    }
    // All bits clear: the proportion of set bits is exactly zero, so the
    // projection onto any range lands exactly on the lower bound.
    assert_eq!(pga2.count_ones(), 0);
    let lower_value: f64 = (pga2.count_ones() as f64 / pga2.resolution() as f64) * (1.0 - 0.0) + 0.0;
    assert_eq!(lower_value, 0.0);

    pga2.mutate(MutationRate::always(), &mut rng);
    // All bits set: the proportion is exactly one, landing on the upper bound.
    assert_eq!(pga2.count_ones(), pga2.resolution());
    let upper_value: f64 = (pga2.count_ones() as f64 / pga2.resolution() as f64) * (1.0 - 0.0) + 0.0;
    assert_eq!(upper_value, 1.0);
}

#[test]
fn proportion_is_count_over_resolution() {
    let pga2 = BinaryPGA2::with_resolution(8);

    let k = pga2.count_ones();
    let n = pga2.resolution();
    let value: f64 = (k as f64 / n as f64) * (1.0 - 0.0) + 0.0;

    assert_eq!(value, k as f64 / n as f64);
    assert!(0.0 <= value && value <= 1.0);
}

#[test]
fn mean_of_fresh_genomes_is_near_one_half() {
    let mut sum: usize = 0;
    for _ in 0..1000 {
        let pga2 = BinaryPGA2::new();
        // On the unit range a fresh genome decodes to its single bit.
        sum += pga2.count_ones();
    }
    let mean: f64 = sum as f64 / 1000.0;

    assert!((mean - 0.5).abs() < 0.1);
}

#[test]
fn repeated_full_mutation_stays_in_range() {
    let mut pga2 = BinaryPGA2::with_resolution(1000);
    let mut rng = rand::thread_rng();

    for _ in 0..50 {
        pga2.mutate(MutationRate::always(), &mut rng);

        let k = pga2.count_ones();
        let n = pga2.resolution();
        let value: f64 = (k as f64 / n as f64) * (1.0 - -1.0) + -1.0;
        assert!(-1.0 <= value && value <= 1.0);
    }
}

#[test]
fn resolution_never_drops_below_one_under_resolution_mutation() {
    let mut pga2 = BinaryPGA2::new();
    let mut rng = rand::thread_rng();

    for _ in 0..100 {
        pga2.mutate_resolution(MutationRate::always(), &mut rng);
        assert!(pga2.resolution() >= 1);
    }
}

#[test]
fn resolution_mutation_moves_resolution_by_at_most_one() {
    let mut pga2 = BinaryPGA2::with_resolution(5);
    let mut rng = rand::thread_rng();

    for _ in 0..100 {
        let before = pga2.resolution();
        pga2.mutate_resolution(MutationRate::new(1, 2), &mut rng);
        let after = pga2.resolution();
        assert!(after >= 1);
        assert!(after <= before + 1);
        assert!(after + 1 >= before);
    }
}

#[test]
fn rate_endpoints_are_recognised() {
    let zero = MutationRate::new(0, 7);
    let one = MutationRate::new(7, 7);

    let mut pga2 = BinaryPGA2::with_resolution(4);
    let mut rng = rand::thread_rng();

    let mut initial_state: Vec<bool> = Vec::new();
    for i in 0..pga2.resolution() {
        initial_state.push(pga2.bit(i));
    }

    pga2.mutate(zero, &mut rng);
    for i in 0..pga2.resolution() {
        assert_eq!(pga2.bit(i), initial_state[i]);
    }

    pga2.mutate(one, &mut rng);
    for i in 0..pga2.resolution() {
        assert_eq!(pga2.bit(i), !initial_state[i]);
    }
}
