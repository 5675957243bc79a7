use monsim::prng::Prng;

#[test]
fn test_prng_chance() {
    let mut prng = Prng::from_current_time();

    let mut success = 0.0;
    for _ in 0..=10_000_000 {
        if prng.roll_chance(33, 100) {
            success += 1.0;
        }
    }
    let avg_probability_deviation = (((success / 10_000_000.0) - 0.3333333333) as f64).abs();
    let avg_probability_deviation = f64::floor(avg_probability_deviation * 100_000.0) / 100_000.0;
    println!("Average probability of LCRNG is off by {}% (threshold is at 0.005%)", avg_probability_deviation);
    assert!(avg_probability_deviation < 5.0e-3);
}

#[test]
fn test_prng_percentage_chance() {
    let mut prng = Prng::from_current_time();
    let mut dist = [0u64; 100];
    for _ in 0..=10_000_000 {
        let n = prng.generate_random_number_in_range(0, 99) as usize;
        dist[n] += 1;
    }
    let avg_deviation = dist
        .iter()
        .map(|it| ((*it as f32 / 100_000.0) - 1.0).abs())
        .reduce(|it, acc| it + acc)
        .expect("We should always get some average value.")
        / 100.0;
    let avg_deviation = f32::floor(avg_deviation * 100_000.0) / 100_000.0;
    println!("LCRNG has {:?}% average deviation (threshold is at 0.005%)", avg_deviation);
    assert!(avg_deviation < 5.0e-3);
}

#[test]
fn test_if_prng_is_deterministic_for_specific_seed() {
    let mut prng1 = Prng::from_current_time();
    let mut prng2 = prng1;
    for i in 0..10_000 {
        let generated_number_1 = prng1.generate_random_number_in_range(0, u16::MAX - 1);
        let generated_number_2 = prng2.generate_random_number_in_range(0, u16::MAX - 1);
        assert_eq!(generated_number_1, generated_number_2, "iteration {}", i);
    }
}

#[test]
fn prng_steps_follow_the_linear_congruential_formula() {
    let mut prng = Prng::new(1);
    // With a range of two numbers, the generator advances one step per draw.
    let _ = prng.generate_random_number_in_range(1, 2);
    let expected = 1u64.wrapping_mul(0x5D588B656C078965).wrapping_add(0x00269EC3);
    assert_eq!(prng.current_seed, expected);
    assert_eq!(prng.start_seed, 1);
}

#[test]
fn prng_range_draw_scales_the_state_into_the_range() {
    let mut prng = Prng::new(12345);
    let next = 12345u64.wrapping_mul(0x5D588B656C078965).wrapping_add(0x00269EC3);
    let n = prng.generate_random_number_in_range(10, 20);
    let expected = 10 + ((next as u128 * 11) >> 64) as u16;
    assert_eq!(n, expected);
    assert!((10..=20).contains(&n));
}

#[test]
fn prng_range_draw_agrees_with_the_floating_point_scaling() {
    let mut prng = Prng::new(987654321);
    let mut reference = 987654321u64;
    for _ in 0..1000 {
        let n = prng.generate_random_number_in_range(1, 100);
        reference = reference.wrapping_mul(0x5D588B656C078965).wrapping_add(0x00269EC3);
        let by_floats = ((reference as f64 / u64::MAX as f64) * 100.0) as u16 + 1;
        assert!(n == by_floats || n + 1 == by_floats || n == by_floats + 1);
    }
}

#[test]
fn prng_single_number_range_is_certain() {
    let mut prng = Prng::new(42);
    assert_eq!(prng.generate_random_number_in_range(7, 7), 7);
    assert_eq!(prng.current_seed, 42);
}

#[test]
fn prng_chance_extremes() {
    let mut prng = Prng::new(3);
    for _ in 0..1000 {
        assert!(prng.roll_chance(100, 100));
        assert!(!prng.roll_chance(0, 100));
    }
}

#[test]
fn prng_range_holding_only_zero_returns_zero() {
    let mut prng = Prng::new(7);
    assert_eq!(prng.generate_random_number_in_range(0, 0), 0);
    assert_eq!(prng, Prng::new(7));
}
