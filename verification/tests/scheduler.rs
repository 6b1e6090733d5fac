use rand::rngs::StdRng;
use rand::SeedableRng;

use xcom_1_card::compose_round_prompts;
use xcom_1_card::generate_timed_phase_prompts;
use xcom_1_card::num_shifts_for_leftover;
use xcom_1_card::random_continent;
use xcom_1_card::Continent;
use xcom_1_card::PanicLevel;
use xcom_1_card::TimedPhasePrompt;

fn base_income(panic: &PanicLevel) -> i32 {
    match panic {
        PanicLevel::Yellow => 6,
        PanicLevel::Orange => 5,
        PanicLevel::Red => 4,
    }
}

fn count_rolls(prompts: &[TimedPhasePrompt]) -> usize {
    prompts
        .iter()
        .filter(|p| matches!(p, TimedPhasePrompt::RollUFOLocation(_)))
        .count()
}

#[test]
fn succession_rules_test() {
    let cases = [
        (
            TimedPhasePrompt::AssignInterceptors(Continent::Africa),
            TimedPhasePrompt::RollUFOLocation(Continent::Africa),
            true,
        ),
        (
            TimedPhasePrompt::AssignInterceptors(Continent::Africa),
            TimedPhasePrompt::RollUFOLocation(Continent::Eurasia),
            false,
        ),
        (
            TimedPhasePrompt::AddUFOsToLocation(Continent::Africa, 2),
            TimedPhasePrompt::RollUFOLocation(Continent::Africa),
            true,
        ),
        (
            TimedPhasePrompt::AddUFOsToLocation(Continent::Africa, 2),
            TimedPhasePrompt::RollUFOLocation(Continent::Eurasia),
            false,
        ),
        (
            TimedPhasePrompt::SwapUFOLocations(Continent::Africa, Continent::Eurasia),
            TimedPhasePrompt::RollUFOLocation(Continent::Eurasia),
            true,
        ),
        (
            TimedPhasePrompt::SwapUFOLocations(Continent::Africa, Continent::Eurasia),
            TimedPhasePrompt::RollUFOLocation(Continent::Africa),
            true,
        ),
        (
            TimedPhasePrompt::SwapUFOLocations(Continent::Africa, Continent::America),
            TimedPhasePrompt::RollUFOLocation(Continent::Eurasia),
            false,
        ),
    ];
    for (later, earlier, expected) in cases {
        assert_eq!(expected, later.must_come_after(&earlier));
    }
}

#[test]
fn must_come_after_exhaustive_truth_table() {
    let continents = [Continent::America, Continent::Africa, Continent::Eurasia];
    let mut prompts: Vec<TimedPhasePrompt> = vec![
        TimedPhasePrompt::TakeIncome(5),
        TimedPhasePrompt::ChooseResearch,
    ];
    for c in continents {
        prompts.push(TimedPhasePrompt::RollUFOLocation(c));
        prompts.push(TimedPhasePrompt::AddUFOsToLocation(c, 1));
        prompts.push(TimedPhasePrompt::AddUFOsToLocation(c, 2));
        prompts.push(TimedPhasePrompt::AssignInterceptors(c));
        prompts.push(TimedPhasePrompt::AlienBaseDiscovered(c));
        for d in continents {
            if c != d {
                prompts.push(TimedPhasePrompt::SwapUFOLocations(c, d));
            }
        }
    }
    for later in &prompts {
        for earlier in &prompts {
            let expected = match (later, earlier) {
                (
                    TimedPhasePrompt::AddUFOsToLocation(loc, _),
                    TimedPhasePrompt::RollUFOLocation(other),
                ) => loc == other,
                (
                    TimedPhasePrompt::AssignInterceptors(loc),
                    TimedPhasePrompt::RollUFOLocation(other),
                ) => loc == other,
                (
                    TimedPhasePrompt::SwapUFOLocations(loc_1, loc_2),
                    TimedPhasePrompt::RollUFOLocation(other),
                ) => other == loc_1 || other == loc_2,
                _ => false,
            };
            assert_eq!(
                expected,
                later.must_come_after(earlier),
                "pair: {:?} after {:?}",
                later,
                earlier
            );
        }
    }
}

#[test]
fn roll_prompt_count_follows_round() {
    for round in 0..12u32 {
        for seed in 0..20u64 {
            let mut rng = StdRng::seed_from_u64(seed);
            let prompts =
                generate_timed_phase_prompts(round, &PanicLevel::Orange, round, round == 5, &mut rng);
            let expected = if round < 3 { 2 } else { 3 };
            assert_eq!(expected, count_rolls(&prompts));
        }
    }
}

#[test]
fn income_is_within_one_of_base() {
    for panic in [PanicLevel::Yellow, PanicLevel::Orange, PanicLevel::Red] {
        let base = base_income(&panic);
        for seed in 0..50u64 {
            let mut rng = StdRng::seed_from_u64(seed);
            let prompts = generate_timed_phase_prompts(3, &panic, 2, false, &mut rng);
            let incomes: Vec<i32> = prompts
                .iter()
                .filter_map(|p| match p {
                    TimedPhasePrompt::TakeIncome(amount) => Some(*amount),
                    _ => None,
                })
                .collect();
            assert_eq!(1, incomes.len());
            assert!(base - 1 <= incomes[0] && incomes[0] <= base + 1);
        }
    }
}

#[test]
fn income_offsets_all_occur() {
    let base = base_income(&PanicLevel::Yellow);
    let mut seen = [0usize; 3];
    for seed in 0..300u64 {
        let mut rng = StdRng::seed_from_u64(seed);
        let prompts = compose_round_prompts(0, &PanicLevel::Yellow, false, &mut rng);
        match prompts[0] {
            TimedPhasePrompt::TakeIncome(amount) => {
                seen[(amount - (base - 1)) as usize] += 1;
            }
            _ => panic!("first prompt must be the income prompt"),
        }
    }
    // Offsets -1, 0, +1 are drawn with weights 30/50/20: each must occur,
    // and 0 must be the most frequent over a large sample.
    assert!(seen[0] > 0 && seen[1] > 0 && seen[2] > 0);
    assert!(seen[1] > seen[0] && seen[1] > seen[2]);
}

#[test]
fn zero_leftovers_keep_composed_order() {
    for round in 0..10u32 {
        for seed in 0..10u64 {
            let mut rng_a = StdRng::seed_from_u64(seed);
            let mut rng_b = StdRng::seed_from_u64(seed);
            let generated =
                generate_timed_phase_prompts(round, &PanicLevel::Red, 0, round % 2 == 0, &mut rng_a);
            let composed = compose_round_prompts(round, &PanicLevel::Red, round % 2 == 0, &mut rng_b);
            assert_eq!(composed, generated);
        }
    }
}

#[test]
fn shuffling_respects_precedence() {
    for round in 0..12u32 {
        for leftover in [0u32, 1, 3, 7, 10, 20] {
            for seed in 0..10u64 {
                let mut rng = StdRng::seed_from_u64(seed * 31 + round as u64);
                let prompts = generate_timed_phase_prompts(
                    round,
                    &PanicLevel::Orange,
                    leftover,
                    round == 6,
                    &mut rng,
                );
                for i in 0..prompts.len() {
                    for j in (i + 1)..prompts.len() {
                        assert!(
                            !prompts[i].must_come_after(&prompts[j]),
                            "prompt {:?} stands before {:?}",
                            prompts[i],
                            prompts[j]
                        );
                    }
                }
            }
        }
    }
}

#[test]
fn shuffling_keeps_every_prompt() {
    for round in 0..12u32 {
        for seed in 0..10u64 {
            let mut rng_a = StdRng::seed_from_u64(seed);
            let mut rng_b = StdRng::seed_from_u64(seed);
            let mut generated =
                generate_timed_phase_prompts(round, &PanicLevel::Yellow, 9, true, &mut rng_a);
            // Replaying the same random stream reproduces the composed list
            // the shuffle started from.
            let mut composed = compose_round_prompts(round, &PanicLevel::Yellow, true, &mut rng_b);
            assert_eq!(composed.len(), generated.len());
            let key = |p: &TimedPhasePrompt| format!("{:?}", p);
            generated.sort_by_key(key);
            composed.sort_by_key(key);
            assert_eq!(composed, generated);
        }
    }
}

#[test]
fn shuffling_changes_some_order() {
    let mut changed = 0usize;
    for seed in 0..40u64 {
        let mut rng_a = StdRng::seed_from_u64(seed);
        let mut rng_b = StdRng::seed_from_u64(seed);
        let generated = generate_timed_phase_prompts(4, &PanicLevel::Orange, 13, false, &mut rng_a);
        let composed = compose_round_prompts(4, &PanicLevel::Orange, false, &mut rng_b);
        if generated != composed {
            changed += 1;
        }
    }
    assert!(changed > 0, "fifteen shifts never changed the order");
}

#[test]
fn roll_order_varies_between_playthroughs() {
    let mut first_rolls: Vec<Continent> = Vec::new();
    for seed in 0..30u64 {
        let mut rng = StdRng::seed_from_u64(seed);
        let prompts = compose_round_prompts(0, &PanicLevel::Yellow, false, &mut rng);
        match prompts[1] {
            TimedPhasePrompt::RollUFOLocation(c) => first_rolls.push(c),
            _ => panic!("second prompt must be a roll"),
        }
    }
    let first = first_rolls[0];
    assert!(
        first_rolls.iter().any(|c| *c != first),
        "the continents were never reordered"
    );
}

#[test]
fn location_draws_are_roughly_uniform() {
    let mut rng = StdRng::seed_from_u64(7);
    let mut counts = [0usize; 3];
    let trials = 3000usize;
    for _ in 0..trials {
        match random_continent(&mut rng) {
            Continent::America => counts[0] += 1,
            Continent::Africa => counts[1] += 1,
            Continent::Eurasia => counts[2] += 1,
        }
    }
    for count in counts {
        assert!(
            800 <= count && count <= 1200,
            "draws are far from uniform: {:?}",
            counts
        );
    }
}

#[test]
fn num_shifts_step_function() {
    let expected = [
        (0u32, 0u32),
        (1, 3),
        (2, 5),
        (3, 5),
        (4, 7),
        (5, 7),
        (6, 9),
        (7, 9),
        (8, 9),
        (9, 12),
        (10, 12),
        (12, 12),
        (13, 15),
        (100, 15),
    ];
    for (leftover, shifts) in expected {
        assert_eq!(shifts, num_shifts_for_leftover(leftover));
    }
}

#[test]
fn first_round_scenario() {
    let mut rng = StdRng::seed_from_u64(11);
    let prompts = generate_timed_phase_prompts(0, &PanicLevel::Red, 0, false, &mut rng);
    assert_eq!(7, prompts.len());
    match prompts[0] {
        TimedPhasePrompt::TakeIncome(amount) => assert!(3 <= amount && amount <= 5),
        ref other => panic!("expected income first, got {:?}", other),
    }
    assert!(matches!(prompts[1], TimedPhasePrompt::RollUFOLocation(_)));
    assert!(matches!(prompts[2], TimedPhasePrompt::RollUFOLocation(_)));
    assert_ne!(prompts[1], prompts[2]);
    assert_eq!(
        prompts[3],
        TimedPhasePrompt::AssignInterceptors(Continent::America)
    );
    assert_eq!(
        prompts[4],
        TimedPhasePrompt::AssignInterceptors(Continent::Africa)
    );
    assert_eq!(
        prompts[5],
        TimedPhasePrompt::AssignInterceptors(Continent::Eurasia)
    );
    assert_eq!(prompts[6], TimedPhasePrompt::ChooseResearch);
}

#[test]
fn sixth_round_scenario_with_base_discovered() {
    for seed in 0..20u64 {
        let mut rng = StdRng::seed_from_u64(seed);
        let composed = compose_round_prompts(5, &PanicLevel::Orange, true, &mut rng);
        // 1 income + 3 rolls + 4 bonuses (thresholds 2..=5) + 1 base + 3 assigns + 1 research.
        assert_eq!(13, composed.len());
        let mut rng = StdRng::seed_from_u64(seed);
        let shuffled = generate_timed_phase_prompts(5, &PanicLevel::Orange, 10, true, &mut rng);
        assert!(shuffled.len() <= 13);
        assert_eq!(13, shuffled.len());
        assert_eq!(
            1,
            shuffled
                .iter()
                .filter(|p| matches!(p, TimedPhasePrompt::AlienBaseDiscovered(_)))
                .count()
        );
    }
}

#[test]
fn bonus_prompts_follow_thresholds() {
    let mut rng = StdRng::seed_from_u64(3);
    let prompts = compose_round_prompts(8, &PanicLevel::Yellow, false, &mut rng);
    // 1 income + 3 rolls + 7 bonuses + 3 assigns + 1 research.
    assert_eq!(15, prompts.len());
    let bonus = &prompts[4..11];
    assert!(matches!(bonus[0], TimedPhasePrompt::AddUFOsToLocation(_, 2)));
    assert!(matches!(bonus[1], TimedPhasePrompt::SwapUFOLocations(_, _)));
    assert!(matches!(bonus[2], TimedPhasePrompt::AddUFOsToLocation(_, 1)));
    assert!(matches!(bonus[3], TimedPhasePrompt::AddUFOsToLocation(_, 1)));
    assert!(matches!(bonus[4], TimedPhasePrompt::SwapUFOLocations(_, _)));
    assert!(matches!(bonus[5], TimedPhasePrompt::AddUFOsToLocation(_, 2)));
    assert!(matches!(bonus[6], TimedPhasePrompt::SwapUFOLocations(_, _)));
    for p in bonus {
        if let TimedPhasePrompt::SwapUFOLocations(a, b) = p {
            assert_ne!(a, b);
        }
    }
}
