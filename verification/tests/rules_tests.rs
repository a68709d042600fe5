use lifewall::{clamp_byte, count_true_neighbor, Kernel, NeighborSet, RuleKind, Rules, ALIVE, DEAD};

#[test]
fn count_true_neighbor_table() {
    assert_eq!(count_true_neighbor(true, true), 1);
    assert_eq!(count_true_neighbor(true, false), 0);
    assert_eq!(count_true_neighbor(false, true), 0);
    assert_eq!(count_true_neighbor(false, false), 0);
}

#[test]
fn clamp_byte_saturates() {
    assert_eq!(clamp_byte(-5), 0);
    assert_eq!(clamp_byte(0), 0);
    assert_eq!(clamp_byte(42), 42);
    assert_eq!(clamp_byte(255), 255);
    assert_eq!(clamp_byte(300), 255);
}

#[test]
fn neighbor_set_contains_bits() {
    let s = NeighborSet { mask: 0b0000_1010 };
    assert!(!s.contains(0));
    assert!(s.contains(1));
    assert!(!s.contains(2));
    assert!(s.contains(3));
    assert!(!s.contains(-1));
    assert!(!s.contains(16));
    assert!(!s.contains(1000));
}

#[test]
fn game_of_life_preset_table() {
    let r = Rules::game_of_life();
    assert!(matches!(r.kernel, Kernel::Moore));
    assert_eq!(r.next_state(ALIVE, 2), ALIVE);
    assert_eq!(r.next_state(ALIVE, 3), ALIVE);
    assert_eq!(r.next_state(DEAD, 3), ALIVE);
    assert_eq!(r.next_state(ALIVE, 1), DEAD);
    assert_eq!(r.next_state(ALIVE, 4), DEAD);
    assert_eq!(r.next_state(DEAD, 2), DEAD);
    assert_eq!(r.next_state(DEAD, 0), DEAD);
}

#[test]
fn high_life_adds_birth_on_six() {
    let r = Rules::high_life();
    assert_eq!(r.next_state(DEAD, 6), ALIVE);
    assert_eq!(r.next_state(ALIVE, 6), DEAD);
    assert_eq!(r.next_state(ALIVE, 2), ALIVE);
    assert_eq!(r.next_state(DEAD, 3), ALIVE);
    assert_eq!(r.next_state(DEAD, 5), DEAD);
}

#[test]
fn seeds_never_survives() {
    let r = Rules::seeds();
    assert_eq!(r.next_state(DEAD, 2), ALIVE);
    assert_eq!(r.next_state(ALIVE, 2), DEAD);
    assert_eq!(r.next_state(ALIVE, 3), DEAD);
    assert_eq!(r.next_state(DEAD, 3), DEAD);
}

#[test]
fn day_and_night_symmetric_sets() {
    let r = Rules::day_and_night();
    for n in [3, 6, 7, 8] {
        assert_eq!(r.next_state(DEAD, n), ALIVE);
    }
    for n in [3, 4, 6, 7, 8] {
        assert_eq!(r.next_state(ALIVE, n), ALIVE);
    }
    assert_eq!(r.next_state(DEAD, 4), DEAD);
    assert_eq!(r.next_state(DEAD, 5), DEAD);
    assert_eq!(r.next_state(ALIVE, 5), DEAD);
    assert_eq!(r.next_state(ALIVE, 2), DEAD);
}

#[test]
fn mazecetric_survival_band() {
    let r = Rules::mazecetric();
    assert_eq!(r.next_state(DEAD, 3), ALIVE);
    assert_eq!(r.next_state(ALIVE, 0), DEAD);
    for n in [1, 2, 3, 4] {
        assert_eq!(r.next_state(ALIVE, n), ALIVE);
    }
    assert_eq!(r.next_state(ALIVE, 5), DEAD);
    assert_eq!(r.next_state(DEAD, 2), DEAD);
}

#[test]
fn brians_brain_three_phase_cycle() {
    let r = Rules::brians_brain();
    assert_eq!(r.next_state(255, 0), 127);
    assert_eq!(r.next_state(255, 5), 127);
    assert_eq!(r.next_state(127, 2), 0);
    assert_eq!(r.next_state(0, 2), 255);
    assert_eq!(r.next_state(0, 3), 0);
    assert_eq!(r.next_state(200, 0), 255);
    assert_eq!(r.next_state(100, 0), 0);
}

#[test]
fn brians_brain_counts_only_full_alive() {
    let r = Rules::brians_brain();
    assert_eq!(r.count_neighbor(255, true), 1);
    assert_eq!(r.count_neighbor(254, true), 0);
    assert_eq!(r.count_neighbor(255, false), 0);
}

#[test]
fn continuous_game_of_life_drifts_by_ten() {
    let r = Rules::continuous_game_of_life();
    assert_eq!(r.next_state(130, 2), 140);
    assert_eq!(r.next_state(130, 3), 140);
    assert_eq!(r.next_state(130, 1), 120);
    assert_eq!(r.next_state(0, 3), 10);
    assert_eq!(r.next_state(250, 3), 255);
    assert_eq!(r.next_state(5, 0), 0);
    assert_eq!(r.count_neighbor(127, true), 1);
    assert_eq!(r.count_neighbor(126, true), 0);
}

#[test]
fn equalizer_forced_extremes_and_diffusion() {
    let r = Rules::equalizer();
    assert!(matches!(r.kernel, Kernel::Diagonals));
    assert_eq!(r.next_state(0, 500), 255);
    assert_eq!(r.next_state(84, 0), 255);
    assert_eq!(r.next_state(46, 0), 0);
    assert_eq!(r.next_state(23, 0), 0);
    assert_eq!(r.next_state(100, 1000), 110);
    assert_eq!(r.next_state(100, 0), 90);
    assert_eq!(r.count_neighbor(200, true), 200);
    assert_eq!(r.count_neighbor(200, false), 0);
}

#[test]
fn synthesizer_never_yields_empty_sets() {
    let mut rng = rand::thread_rng();
    for _ in 0..1000 {
        let r = Rules::generate_bb3(&mut rng);
        assert!(matches!(r.kernel, Kernel::Moore | Kernel::Neumann));
        match r.kind {
            RuleKind::SynthesizedBool { birth, survive } => {
                assert!(birth.mask != 0);
                assert!(survive.mask != 0);
                assert!(birth.mask < 512);
                assert!(survive.mask < 512);
            }
            _ => panic!("synthesized rule must carry its sampled sets"),
        }
    }
}

#[test]
fn byte_synthesizer_parameters_in_bounds() {
    let mut rng = rand::thread_rng();
    for _ in 0..1000 {
        let r = Rules::generate_u8b3(&mut rng);
        assert!(matches!(r.kernel, Kernel::Moore | Kernel::Neumann));
        match r.kind {
            RuleKind::SynthesizedByte { alive_threshold, birth, survive, increment, decrement } => {
                assert!(alive_threshold >= 1);
                assert!(birth.mask != 0);
                assert!(survive.mask != 0);
                assert!((5..=39).contains(&increment));
                assert!((5..=39).contains(&decrement));
            }
            _ => panic!("synthesized rule must carry its sampled parameters"),
        }
    }
}

#[test]
fn random_rules_are_synthesized() {
    let mut rng = rand::thread_rng();
    let b = Rules::random_bb3(&mut rng);
    assert!(matches!(b.kind, RuleKind::SynthesizedBool { .. }));
    let u = Rules::random_u8b3(&mut rng);
    assert!(matches!(u.kind, RuleKind::SynthesizedByte { .. }));
}
