//! Cellular automata on rectangular grids, rendered side by side with a
//! moving divider: a grid container, neighbor-counting stepper, rule presets
//! and a random rule synthesizer, and the split-screen compositor.

mod compositor;
mod game;
mod grid;
mod rng;
mod rules;

pub use compositor::{
    AppEvent, Compositor, DividerEvent, divider_run, divider_step, draw_luma, draw_pixels,
    fresh_bool_side, fresh_byte_side, fresh_grid_bool, lemma_divider_cycle, luma_game_after,
    randomize_luma, randomize_pixels, spec_divider_clamp, spec_divider_event, spec_divider_index,
    spec_merge_at, tick_evolves,
};
pub use game::{
    Game, cell_term, is_step_of, lemma_corner_sees_at_most_three,
    lemma_repeated_steps_preserve_shape, lemma_step_deterministic, lemma_step_preserves_shape,
    neighbor_sum, partial_neighbor_sum, spec_cell_next, valid_channel_cells,
};
pub use grid::Grid;
pub use rules::{
    ALIVE, DEAD, Kernel, NeighborSet, RuleKind, Rules, clamp_byte, count_true_neighbor,
    spec_bool_alive, spec_clamp_byte, spec_count_true_neighbor, synthesized_bool_valid,
    synthesized_byte_valid,
};
