use fire::rng::{derive_seed, scenario_seeds, splitmix64, Rng};

#[test]
fn derive_seed_changes_per_age_and_scenario() {
    let a = derive_seed(42, 30, 0);
    let b = derive_seed(42, 31, 0);
    let c = derive_seed(42, 30, 1);
    assert_ne!(a, b);
    assert_ne!(a, c);
}

#[test]
fn splitmix64_of_zero_matches_reference_value() {
    assert_eq!(splitmix64(0), 0xE220_A839_7B1D_CDAF);
}

#[test]
fn derive_seed_exact_values() {
    assert_eq!(derive_seed(42, 30, 0), 7069397534831329833);
    assert_eq!(derive_seed(42, 31, 0), 17151793975944438063);
    assert_eq!(derive_seed(42, 30, 1), 10050464704167340358);
}

#[test]
fn derive_seed_is_splitmix_of_mixed_inputs() {
    let base: u64 = 0x1234_5678_9ABC_DEF0;
    assert_eq!(derive_seed(base, 65, 7), splitmix64(base ^ (65u64 << 32) ^ 7));
}

#[test]
fn derive_seed_distinct_over_a_grid_of_ages_and_scenarios() {
    let mut seen = Vec::new();
    for age in 30..40u32 {
        for id in 0..50u32 {
            seen.push(derive_seed(42, age, id));
        }
    }
    let n = seen.len();
    seen.sort();
    seen.dedup();
    assert_eq!(seen.len(), n);
}

#[test]
fn rng_first_draws_from_seed_one() {
    let mut rng = Rng::new(1);
    assert_eq!(rng.next_u64(), 5180492295206395165);
    assert_eq!(rng.next_u64(), 12380297144915551517);
    assert_eq!(rng.next_u64(), 13389498078930870103);
}

#[test]
fn rng_zero_seed_is_remapped() {
    let mut rng = Rng::new(0);
    assert_eq!(rng.next_u64(), 12901648903074685667);
    let mut other = Rng::new(0xA5A5_A5A5_A5A5_A5A5);
    assert_eq!(other.next_u64(), 12901648903074685667);
}

#[test]
fn rng_same_seed_same_sequence() {
    let seed = derive_seed(7, 45, 3);
    let mut a = Rng::new(seed);
    let mut b = Rng::new(seed);
    for _ in 0..100 {
        assert_eq!(a.next_u64(), b.next_u64());
    }
}

#[test]
fn rng_mantissa_is_top_53_bits() {
    let mut rng = Rng::new(1);
    assert_eq!(rng.next_mantissa(), 2529537253518747);
    assert_eq!(rng.next_mantissa(), 6045066965290796);
    assert_eq!(rng.next_mantissa(), 6537840858852963);
    for _ in 0..1000 {
        assert!(rng.next_mantissa() < (1u64 << 53));
    }
}

#[test]
fn scenario_seeds_follow_scenario_ids() {
    let seeds = scenario_seeds(42, 30, 3);
    assert_eq!(seeds, vec![7069397534831329833, 10050464704167340358, derive_seed(42, 30, 2)]);
    assert!(scenario_seeds(42, 30, 0).is_empty());
    let many = scenario_seeds(9, 50, 2000);
    let mut sorted = many.clone();
    sorted.sort();
    sorted.dedup();
    assert_eq!(sorted.len(), 2000);
}
