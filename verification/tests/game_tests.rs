use lifewall::{Game, Grid, Rules, ALIVE, DEAD};

fn empty_grid(width: usize, height: usize) -> Grid {
    Grid::new(width, height, DEAD)
}

#[test]
fn grid_set_then_get() {
    let mut g = empty_grid(4, 3);
    assert_eq!(g.width(), 4);
    assert_eq!(g.height(), 3);
    g.set(2, 1, 99);
    assert_eq!(g.get(2, 1), 99);
    assert_eq!(g.get(1, 2), 0);
    assert_eq!(g.get(3, 2), 0);
}

#[test]
fn single_live_cell_dies() {
    let mut field = empty_grid(5, 5);
    field.set(2, 2, ALIVE);
    let mut game = Game { field, rules: Rules::game_of_life() };
    game.step();
    for x in 0..5 {
        for y in 0..5 {
            assert_eq!(game.field.get(x, y), DEAD);
        }
    }
}

#[test]
fn block_is_still_life_for_five_steps() {
    let mut field = empty_grid(6, 6);
    for (x, y) in [(2, 2), (3, 2), (2, 3), (3, 3)] {
        field.set(x, y, ALIVE);
    }
    let mut game = Game { field, rules: Rules::game_of_life() };
    for _ in 0..5 {
        game.step();
        for x in 0..6 {
            for y in 0..6 {
                let expected = if (2..=3).contains(&x) && (2..=3).contains(&y) {
                    ALIVE
                } else {
                    DEAD
                };
                assert_eq!(game.field.get(x, y), expected);
            }
        }
    }
}

#[test]
fn corner_counts_at_most_three_neighbors() {
    let field = Grid::new(4, 4, ALIVE);
    let game = Game { field, rules: Rules::game_of_life() };
    assert_eq!(game.count_neighbors(0, 0), 3);
    assert_eq!(game.count_neighbors(3, 3), 3);
    assert_eq!(game.count_neighbors(0, 3), 3);
    assert_eq!(game.count_neighbors(1, 0), 5);
    assert_eq!(game.count_neighbors(1, 1), 8);
}

#[test]
fn border_has_no_wraparound() {
    let mut field = empty_grid(3, 1);
    field.set(2, 0, ALIVE);
    let game = Game { field, rules: Rules::game_of_life() };
    assert_eq!(game.count_neighbors(0, 0), 0);
    assert_eq!(game.count_neighbors(1, 0), 1);
}

#[test]
fn equalizer_counts_diagonals_without_center() {
    let mut field = empty_grid(3, 3);
    field.set(0, 0, 10);
    field.set(2, 0, 20);
    field.set(0, 2, 30);
    field.set(2, 2, 40);
    field.set(1, 0, 5);
    field.set(0, 1, 5);
    field.set(2, 1, 5);
    field.set(1, 2, 5);
    field.set(1, 1, 100);
    let game = Game { field, rules: Rules::equalizer() };
    assert_eq!(game.count_neighbors(1, 1), 100);
}

#[test]
fn step_is_deterministic() {
    let pattern = [
        (0usize, 0usize),
        (1, 0),
        (3, 1),
        (4, 2),
        (2, 2),
        (0, 3),
        (4, 4),
        (1, 4),
    ];
    let mut field_a = empty_grid(5, 5);
    let mut field_b = empty_grid(5, 5);
    for (x, y) in pattern {
        field_a.set(x, y, ALIVE);
        field_b.set(x, y, ALIVE);
    }
    let mut game_a = Game { field: field_a, rules: Rules::high_life() };
    let mut game_b = Game { field: field_b, rules: Rules::high_life() };
    for _ in 0..4 {
        game_a.step();
        game_b.step();
        for x in 0..5 {
            for y in 0..5 {
                assert_eq!(game_a.field.get(x, y), game_b.field.get(x, y));
            }
        }
    }
}

#[test]
fn step_preserves_dimensions_and_channel_values() {
    let mut field = empty_grid(7, 3);
    field.set(1, 1, ALIVE);
    field.set(2, 1, ALIVE);
    field.set(3, 1, ALIVE);
    let mut game = Game { field, rules: Rules::day_and_night() };
    for _ in 0..6 {
        game.step();
        assert_eq!(game.field.width(), 7);
        assert_eq!(game.field.height(), 3);
        for x in 0..7 {
            for y in 0..3 {
                let v = game.field.get(x, y);
                assert!(v == DEAD || v == ALIVE);
            }
        }
    }
}

#[test]
fn blinker_oscillates() {
    let mut field = empty_grid(5, 5);
    field.set(1, 2, ALIVE);
    field.set(2, 2, ALIVE);
    field.set(3, 2, ALIVE);
    let mut game = Game { field, rules: Rules::game_of_life() };
    game.step();
    for y in 1..=3 {
        assert_eq!(game.field.get(2, y), ALIVE);
    }
    assert_eq!(game.field.get(1, 2), DEAD);
    assert_eq!(game.field.get(3, 2), DEAD);
    game.step();
    for x in 1..=3 {
        assert_eq!(game.field.get(x, 2), ALIVE);
    }
    assert_eq!(game.field.get(2, 1), DEAD);
    assert_eq!(game.field.get(2, 3), DEAD);
}
