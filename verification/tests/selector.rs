use gillespie::selector::select_reaction;
use rand::rngs::StdRng;
use rand::Rng;
use rand::SeedableRng;

fn code(x: f64) -> u64 {
    if x == 0.0 {
        0
    } else {
        x.to_bits()
    }
}

#[test]
fn selector_picks_first_index_reaching_threshold() {
    let cum = vec![2u64, 5, 9];
    assert_eq!(select_reaction(&cum, 1), 0);
    assert_eq!(select_reaction(&cum, 2), 0);
    assert_eq!(select_reaction(&cum, 3), 1);
    assert_eq!(select_reaction(&cum, 5), 1);
    assert_eq!(select_reaction(&cum, 6), 2);
    assert_eq!(select_reaction(&cum, 9), 2);
}

#[test]
fn selector_threshold_zero_picks_first() {
    let cum = vec![2u64, 5, 9];
    assert_eq!(select_reaction(&cum, 0), 0);
}

#[test]
fn selector_falls_back_to_first_when_exhausted() {
    let cum = vec![2u64, 5, 9];
    assert_eq!(select_reaction(&cum, 10), 0);
    let empty: Vec<u64> = vec![];
    assert_eq!(select_reaction(&empty, 3), 0);
}

#[test]
fn selector_works_on_double_codes() {
    // Cumulative propensities 0.25, 0.75, 1.0 as order-preserving codes.
    let cum = vec![code(0.25), code(0.75), code(1.0)];
    assert_eq!(select_reaction(&cum, code(0.1)), 0);
    assert_eq!(select_reaction(&cum, code(0.5)), 1);
    assert_eq!(select_reaction(&cum, code(0.9)), 2);
}

#[test]
fn selector_equal_weights_are_fair() {
    let mut rng = StdRng::seed_from_u64(7);
    let total = 2.0f64;
    let cum = vec![code(1.0), code(total)];
    let trials: u32 = 100_000;
    let mut first: u32 = 0;
    for _ in 0..trials {
        let threshold = rng.gen::<f64>() * total;
        if select_reaction(&cum, code(threshold)) == 0 {
            first += 1;
        }
    }
    let freq = first as f64 / trials as f64;
    assert!((0.49..=0.51).contains(&freq), "empirical frequency {freq}");
}
