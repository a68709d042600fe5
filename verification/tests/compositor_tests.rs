use lifewall::{
    divider_step, draw_luma, draw_pixels, randomize_pixels, AppEvent, Compositor, DividerEvent,
    Grid, ALIVE, DEAD,
};

#[test]
fn divider_cycle_swaps_exactly_once() {
    let width: usize = 10;
    let mut idx: usize = 0;
    let mut swaps = 0;
    for tick in 1..=width {
        let (next, event) = divider_step(idx, 1, width);
        idx = next;
        match event {
            DividerEvent::SwapAtRight => {
                swaps += 1;
                assert_eq!(tick, width);
            }
            DividerEvent::Move => assert_eq!(idx, tick),
            DividerEvent::SwapAtLeft => panic!("moving right never retires the right side"),
        }
    }
    assert_eq!(swaps, 1);
    assert_eq!(idx, 0);
}

#[test]
fn divider_moving_left_resets_to_width() {
    let width: usize = 6;
    let mut idx: usize = width;
    let mut swaps = 0;
    for tick in 1..=width {
        let (next, event) = divider_step(idx, -1, width);
        idx = next;
        if matches!(event, DividerEvent::SwapAtLeft) {
            swaps += 1;
            assert_eq!(tick, width);
        }
    }
    assert_eq!(swaps, 1);
    assert_eq!(idx, width);
}

#[test]
fn divider_clamps_fast_speeds() {
    let (idx, event) = divider_step(3, 100, 10);
    assert_eq!(idx, 0);
    assert!(matches!(event, DividerEvent::SwapAtRight));
    let (idx, event) = divider_step(7, -100, 10);
    assert_eq!(idx, 10);
    assert!(matches!(event, DividerEvent::SwapAtLeft));
    let (idx, event) = divider_step(4, 0, 10);
    assert_eq!(idx, 4);
    assert!(matches!(event, DividerEvent::Move));
}

#[test]
fn merge_forces_boundary_column() {
    let left = Grid::new(10, 3, DEAD);
    let right = Grid::new(10, 3, ALIVE);
    let mut out = Grid::new(10, 3, 7);
    draw_pixels(&mut out, &left, &right, 4);
    for y in 0..3 {
        for x in 0..4 {
            assert_eq!(out.get(x, y), DEAD);
        }
        assert_eq!(out.get(4, y), ALIVE);
        for x in 5..10 {
            assert_eq!(out.get(x, y), ALIVE);
        }
    }
}

#[test]
fn luma_merge_uses_saturating_maximum_seam() {
    let left = Grid::new(5, 2, 10);
    let right = Grid::new(5, 2, 200);
    let mut out = Grid::new(5, 2, 0);
    draw_luma(&mut out, &left, &right, 2);
    for y in 0..2 {
        assert_eq!(out.get(0, y), 10);
        assert_eq!(out.get(1, y), 10);
        assert_eq!(out.get(2, y), 255);
        assert_eq!(out.get(3, y), 200);
        assert_eq!(out.get(4, y), 200);
    }
}

#[test]
fn merge_with_split_at_width_shows_no_seam() {
    let left = Grid::new(4, 2, 30);
    let right = Grid::new(4, 2, 60);
    let mut out = Grid::new(4, 2, 0);
    draw_pixels(&mut out, &left, &right, 4);
    for y in 0..2 {
        for x in 0..4 {
            assert_eq!(out.get(x, y), 30);
        }
    }
}

#[test]
fn key_mapping_matches_the_help_text() {
    assert!(matches!(AppEvent::from_char('q'), Some(AppEvent::Close)));
    assert!(matches!(
        AppEvent::from_char('d'),
        Some(AppEvent::RandomizeLeftPixels)
    ));
    assert!(matches!(
        AppEvent::from_char('e'),
        Some(AppEvent::RandomizeLeftLuma)
    ));
    assert!(matches!(
        AppEvent::from_char('f'),
        Some(AppEvent::RandomizeRightPixels)
    ));
    assert!(matches!(
        AppEvent::from_char('r'),
        Some(AppEvent::RandomizeRightLuma)
    ));
    assert!(AppEvent::from_char('x').is_none());
    assert!(AppEvent::from_char('h').is_none());
}

#[test]
fn randomize_pixels_writes_only_sentinels() {
    let mut rng = rand::thread_rng();
    let mut g = Grid::new(12, 9, 7);
    randomize_pixels(&mut g, &mut rng, 1, 2);
    for x in 0..12 {
        for y in 0..9 {
            let v = g.get(x, y);
            assert!(v == DEAD || v == ALIVE);
        }
    }
}

#[test]
fn randomize_pixels_extreme_ratios() {
    let mut rng = rand::thread_rng();
    let mut g = Grid::new(8, 8, 7);
    randomize_pixels(&mut g, &mut rng, 0, 1);
    for x in 0..8 {
        for y in 0..8 {
            assert_eq!(g.get(x, y), DEAD);
        }
    }
    randomize_pixels(&mut g, &mut rng, 3, 3);
    for x in 0..8 {
        for y in 0..8 {
            assert_eq!(g.get(x, y), ALIVE);
        }
    }
}

#[test]
fn events_adjust_speed_and_pacing() {
    let mut rng = rand::thread_rng();
    let mut c = Compositor::new(16, 8, 2, 1, 30, 1, 2, &mut rng);
    assert_eq!(c.split_speed, 1);
    assert!(c.handle_event(AppEvent::SeparatorAccelerate, &mut rng));
    assert_eq!(c.split_speed, 2);
    assert!(c.handle_event(AppEvent::SeparatorDecelerate, &mut rng));
    assert!(c.handle_event(AppEvent::SeparatorDecelerate, &mut rng));
    assert_eq!(c.split_speed, 0);
    assert!(c.handle_event(AppEvent::SimulationSpeedUp, &mut rng));
    assert_eq!(c.target_millis, 29);
    assert!(c.handle_event(AppEvent::SimulationSpeedDown, &mut rng));
    assert_eq!(c.target_millis, 30);
    let split_before = c.split_pixel;
    assert!(!c.handle_event(AppEvent::Close, &mut rng));
    assert_eq!(c.split_pixel, split_before);
}

#[test]
fn tick_draws_seam_at_new_divider_column() {
    let mut rng = rand::thread_rng();
    let mut c = Compositor::new(16, 8, 2, 1, 30, 1, 2, &mut rng);
    let mut pixels = Grid::new(16, 8, 0);
    let mut luma = Grid::new(2, 1, 0);
    c.tick(&mut rng, &mut pixels, &mut luma);
    assert_eq!(c.split_pixel, 1);
    for y in 0..8 {
        assert_eq!(pixels.get(1, y), ALIVE);
    }
    assert_eq!(luma.get(0, 0), 255);
    assert_eq!(pixels.width(), 16);
    assert_eq!(pixels.height(), 8);
}

#[test]
fn ticks_wipe_the_full_width_then_reset() {
    let mut rng = rand::thread_rng();
    let mut c = Compositor::new(16, 8, 2, 1, 30, 1, 2, &mut rng);
    let mut pixels = Grid::new(16, 8, 0);
    let mut luma = Grid::new(2, 1, 0);
    for tick in 1..=16usize {
        c.tick(&mut rng, &mut pixels, &mut luma);
        if tick < 16 {
            assert_eq!(c.split_pixel, tick);
        }
    }
    assert_eq!(c.split_pixel, 0);
}

#[test]
fn randomize_events_keep_rules_and_shape() {
    let mut rng = rand::thread_rng();
    let mut c = Compositor::new(16, 8, 2, 1, 30, 1, 2, &mut rng);
    let rules_before = c.left_pixels.rules;
    assert!(c.handle_event(AppEvent::RandomizeLeftPixels, &mut rng));
    assert_eq!(c.left_pixels.rules, rules_before);
    assert_eq!(c.left_pixels.field.width(), 16);
    assert_eq!(c.left_pixels.field.height(), 8);
    for x in 0..16 {
        for y in 0..8 {
            let v = c.left_pixels.field.get(x, y);
            assert!(v == DEAD || v == ALIVE);
        }
    }
    assert!(c.handle_event(AppEvent::RandomizeRightLuma, &mut rng));
    assert_eq!(c.right_luma.field.width(), 2);
    assert_eq!(c.right_luma.field.height(), 1);
}
