//! The split-screen compositor: two automaton pairs evolving side by side,
//! a divider that wipes across the display and retires one side at each
//! edge, frame merging with a visible seam, and the user-command handling.

use vstd::prelude::*;
use crate::game::{Game, is_step_of};
use crate::grid::Grid;
use crate::rng::{rng_byte, rng_ratio};
use crate::rules::{synthesized_bool_valid, synthesized_byte_valid, Rules, ALIVE, DEAD};

verus! {

/// A discrete user command, decoded from raw input by the caller.
#[derive(Clone, Copy, PartialEq, Eq, Structural, Debug)]
pub enum AppEvent {
    Close,
    RandomizeLeftPixels,
    RandomizeRightPixels,
    RandomizeLeftLuma,
    RandomizeRightLuma,
    SeparatorAccelerate,
    SeparatorDecelerate,
    SimulationSpeedUp,
    SimulationSpeedDown,
}

impl AppEvent {
    /// The keyboard mapping of the character-key commands; any other
    /// character is no command.
    pub fn from_char(c: char) -> (r: Option<AppEvent>)
        ensures
            r == (if c == 'q' {
                Some(AppEvent::Close)
            } else if c == 'd' {
                Some(AppEvent::RandomizeLeftPixels)
            } else if c == 'e' {
                Some(AppEvent::RandomizeLeftLuma)
            } else if c == 'f' {
                Some(AppEvent::RandomizeRightPixels)
            } else if c == 'r' {
                Some(AppEvent::RandomizeRightLuma)
            } else {
                None::<AppEvent>
            }),
    {
        if c == 'q' {
            Some(AppEvent::Close)
        } else if c == 'd' {
            Some(AppEvent::RandomizeLeftPixels)
        } else if c == 'e' {
            Some(AppEvent::RandomizeLeftLuma)
        } else if c == 'f' {
            Some(AppEvent::RandomizeRightPixels)
        } else if c == 'r' {
            Some(AppEvent::RandomizeRightLuma)
        } else {
            None
        }
    }
}

/// What the divider did in one tick.
#[derive(Clone, Copy, PartialEq, Eq, Structural, Debug)]
pub enum DividerEvent {
    /// Advanced (or stood) without reaching the retiring edge.
    Move,
    /// Reached the right edge while moving right: the left side retires.
    SwapAtRight,
    /// Reached the left edge while moving left: the right side retires.
    SwapAtLeft,
}

/// The divider index moved by the velocity and clamped into `[0, width]`.
pub open spec fn spec_divider_clamp(idx: int, speed: int, width: int) -> int {
    let moved = idx + speed;
    if moved < 0 {
        0
    } else if moved > width {
        width
    } else {
        moved
    }
}

/// Whether the clamped index reaches the retiring edge for this velocity.
pub open spec fn spec_divider_event(idx: int, speed: int, width: int) -> DividerEvent {
    let clamped = spec_divider_clamp(idx, speed, width);
    if speed > 0 && clamped == width {
        DividerEvent::SwapAtRight
    } else if speed < 0 && clamped == 0 {
        DividerEvent::SwapAtLeft
    } else {
        DividerEvent::Move
    }
}

/// The divider index after one tick: the clamped index, reset to the far
/// edge when a swap fires.
pub open spec fn spec_divider_index(idx: int, speed: int, width: int) -> int {
    match spec_divider_event(idx, speed, width) {
        DividerEvent::Move => spec_divider_clamp(idx, speed, width),
        DividerEvent::SwapAtRight => 0,
        DividerEvent::SwapAtLeft => width,
    }
}

/// Advance the divider one tick: add the velocity, clamp into `[0, width]`,
/// and at the retiring edge report the swap and reset the index.
pub fn divider_step(idx: usize, speed: i32, width: usize) -> (r: (usize, DividerEvent))
    requires
        idx <= width,
        width <= 0x1000_0000,
    ensures
        r.0 == spec_divider_index(idx as int, speed as int, width as int),
        r.1 == spec_divider_event(idx as int, speed as int, width as int),
        r.0 <= width,
{
    let moved: i64 = idx as i64 + speed as i64;
    let clamped: usize = if moved < 0 {
        0
    } else if moved > width as i64 {
        width
    } else {
        moved as usize
    };
    if speed > 0 && clamped == width {
        (0, DividerEvent::SwapAtRight)
    } else if speed < 0 && clamped == 0 {
        (width, DividerEvent::SwapAtLeft)
    } else {
        (clamped, DividerEvent::Move)
    }
}

/// The divider's index and accumulated swap count after `n` ticks from index
/// 0 with velocity +1 and no user events.
pub open spec fn divider_run(width: int, n: nat) -> (int, int)
    decreases n,
{
    if n == 0 {
        (0, 0)
    } else {
        let prev = divider_run(width, (n - 1) as nat);
        let idx = spec_divider_index(prev.0, 1, width);
        let swaps = prev.1 + if spec_divider_event(prev.0, 1, width) is SwapAtRight {
            1int
        } else {
            0int
        };
        (idx, swaps)
    }
}

/// Starting at index 0 with velocity +1 on a width-W grid, the first W - 1
/// ticks move the divider without a swap, and tick W triggers exactly one
/// swap and resets the index to 0 — not to W + 1 and not below 0.
pub proof fn lemma_divider_cycle(width: int, n: nat)
    requires
        1 <= width,
        n <= width,
    ensures
        n < width ==> divider_run(width, n) == (n as int, 0int),
        n == width ==> divider_run(width, n) == (0int, 1int),
    decreases n,
{
    if n > 0 {
        lemma_divider_cycle(width, (n - 1) as nat);
    }
}

/// Fill the boolean channel with random sentinel cells, each alive with
/// probability `alive_numerator / alive_denominator`.
pub fn randomize_pixels(
    g: &mut Grid,
    rng: &mut rand::rngs::ThreadRng,
    alive_numerator: u32,
    alive_denominator: u32,
)
    requires
        old(g).wf(),
        1 <= alive_denominator,
        alive_numerator <= alive_denominator,
    ensures
        final(g).wf(),
        final(g).same_dims(*old(g)),
        forall|x: int, y: int|
            final(g).in_bounds(x, y) ==> (final(g).at(x, y) == DEAD || final(g).at(x, y) == ALIVE),
{
    let width = g.width;
    let height = g.height;
    let mut y: usize = 0;
    while y < height
        invariant
            g.wf(),
            width == g.width,
            height == g.height,
            y <= height,
            1 <= alive_denominator,
            alive_numerator <= alive_denominator,
            forall|xx: int, yy: int|
                0 <= xx < width && 0 <= yy < y ==> (g.at(xx, yy) == DEAD || g.at(xx, yy) == ALIVE),
        decreases height - y,
    {
        let mut x: usize = 0;
        while x < width
            invariant
                g.wf(),
                width == g.width,
                height == g.height,
                y < height,
                x <= width,
                1 <= alive_denominator,
                alive_numerator <= alive_denominator,
                forall|xx: int, yy: int|
                    0 <= xx < width && 0 <= yy < y ==> (g.at(xx, yy) == DEAD || g.at(xx, yy)
                        == ALIVE),
                forall|xx: int|
                    0 <= xx < x ==> (g.at(xx, y as int) == DEAD || g.at(xx, y as int) == ALIVE),
            decreases width - x,
        {
            let alive = rng_ratio(rng, alive_numerator, alive_denominator);
            g.set(x, y, if alive { ALIVE } else { DEAD });
            x = x + 1;
        }
        y = y + 1;
    }
}

/// Fill the brightness channel with uniform random bytes.
pub fn randomize_luma(g: &mut Grid, rng: &mut rand::rngs::ThreadRng)
    requires
        old(g).wf(),
    ensures
        final(g).wf(),
        final(g).same_dims(*old(g)),
{
    let width = g.width;
    let height = g.height;
    let mut y: usize = 0;
    while y < height
        invariant
            g.wf(),
            width == g.width,
            height == g.height,
            y <= height,
        decreases height - y,
    {
        let mut x: usize = 0;
        while x < width
            invariant
                g.wf(),
                width == g.width,
                height == g.height,
                y < height,
                x <= width,
            decreases width - x,
        {
            let v = rng_byte(rng);
            g.set(x, y, v);
            x = x + 1;
        }
        y = y + 1;
    }
}

/// The merged output cell at `(x, y)`: the left grid's cell left of the
/// divider, the right grid's cell right of it, and the boundary sentinel on
/// the divider column itself.
pub open spec fn spec_merge_at(
    left: Grid,
    right: Grid,
    split: int,
    boundary: u8,
    x: int,
    y: int,
) -> u8 {
    if x == split {
        boundary
    } else if x < split {
        left.at(x, y)
    } else {
        right.at(x, y)
    }
}

/// Overwrite `out` column by column with the merge of `left` and `right` at
/// the divider column `split`, the divider column itself forced to
/// `boundary` so the seam stays visible.
fn merge_into(out: &mut Grid, left: &Grid, right: &Grid, split: usize, boundary: u8)
    requires
        old(out).wf(),
        left.wf(),
        right.wf(),
        left.same_dims(*old(out)),
        right.same_dims(*old(out)),
    ensures
        final(out).wf(),
        final(out).same_dims(*old(out)),
        forall|x: int, y: int|
            final(out).in_bounds(x, y) ==> final(out).at(x, y) == spec_merge_at(
                *left,
                *right,
                split as int,
                boundary,
                x,
                y,
            ),
{
    let width = out.width;
    let height = out.height;
    let mut x: usize = 0;
    while x < width
        invariant
            out.wf(),
            left.wf(),
            right.wf(),
            width == out.width,
            height == out.height,
            left.same_dims(*out),
            right.same_dims(*out),
            x <= width,
            forall|xx: int, yy: int|
                0 <= xx < x && 0 <= yy < height ==> out.at(xx, yy) == spec_merge_at(
                    *left,
                    *right,
                    split as int,
                    boundary,
                    xx,
                    yy,
                ),
        decreases width - x,
    {
        let mut y: usize = 0;
        while y < height
            invariant
                out.wf(),
                left.wf(),
                right.wf(),
                width == out.width,
                height == out.height,
                left.same_dims(*out),
                right.same_dims(*out),
                x < width,
                y <= height,
                forall|xx: int, yy: int|
                    0 <= xx < x && 0 <= yy < height ==> out.at(xx, yy) == spec_merge_at(
                        *left,
                        *right,
                        split as int,
                        boundary,
                        xx,
                        yy,
                    ),
                forall|yy: int|
                    0 <= yy < y ==> out.at(x as int, yy) == spec_merge_at(
                        *left,
                        *right,
                        split as int,
                        boundary,
                        x as int,
                        yy,
                    ),
            decreases height - y,
        {
            let v: u8 = if x == split {
                boundary
            } else if x < split {
                left.get(x, y)
            } else {
                right.get(x, y)
            };
            out.set(x, y, v);
            y = y + 1;
        }
        x = x + 1;
    }
}

/// Merge the two boolean-channel grids into the output pixel frame; the
/// divider column is forced alive.
pub fn draw_pixels(pixels: &mut Grid, left: &Grid, right: &Grid, split_index: usize)
    requires
        old(pixels).wf(),
        left.wf(),
        right.wf(),
        left.same_dims(*old(pixels)),
        right.same_dims(*old(pixels)),
    ensures
        final(pixels).wf(),
        final(pixels).same_dims(*old(pixels)),
        forall|x: int, y: int|
            final(pixels).in_bounds(x, y) ==> final(pixels).at(x, y) == spec_merge_at(
                *left,
                *right,
                split_index as int,
                ALIVE,
                x,
                y,
            ),
{
    merge_into(pixels, left, right, split_index, ALIVE)
}

/// Merge the two brightness grids at the divider's tile column; the divider
/// tile is forced to the saturating maximum.
pub fn draw_luma(luma: &mut Grid, left: &Grid, right: &Grid, split_tile: usize)
    requires
        old(luma).wf(),
        left.wf(),
        right.wf(),
        left.same_dims(*old(luma)),
        right.same_dims(*old(luma)),
    ensures
        final(luma).wf(),
        final(luma).same_dims(*old(luma)),
        forall|x: int, y: int|
            final(luma).in_bounds(x, y) ==> final(luma).at(x, y) == spec_merge_at(
                *left,
                *right,
                split_tile as int,
                255,
                x,
                y,
            ),
{
    merge_into(luma, left, right, split_tile, 255)
}

/// The full show: a boolean and a brightness automaton per side, the divider
/// state, the wrapping tick counter, the pacing target in milliseconds, and
/// the Bernoulli probability used whenever a pixel grid is reseeded.
pub struct Compositor {
    pub left_pixels: Game,
    pub right_pixels: Game,
    pub left_luma: Game,
    pub right_luma: Game,
    pub split_pixel: usize,
    pub split_speed: i32,
    pub iteration: u8,
    pub target_millis: u64,
    pub alive_numerator: u32,
    pub alive_denominator: u32,
}

/// A freshly reseeded boolean side: the old shape, sentinel cells only, and
/// a newly synthesized boolean-channel rule.
pub open spec fn fresh_bool_side(g: Game, prev_field: Grid) -> bool {
    &&& g.field.wf()
    &&& g.field.same_dims(prev_field)
    &&& forall|x: int, y: int|
        g.field.in_bounds(x, y) ==> (g.field.at(x, y) == DEAD || g.field.at(x, y) == ALIVE)
    &&& g.rules.wf()
    &&& synthesized_bool_valid(g.rules)
}

/// A freshly reseeded brightness side: the old shape and a newly synthesized
/// byte-channel rule.
pub open spec fn fresh_byte_side(g: Game, prev_field: Grid) -> bool {
    &&& g.field.wf()
    &&& g.field.same_dims(prev_field)
    &&& g.rules.wf()
    &&& synthesized_byte_valid(g.rules)
}

/// A brightness automaton after a tick: stepped on every tenth tick, left
/// alone otherwise.
pub open spec fn luma_game_after(next: Game, prev: Game, stepped: bool) -> bool {
    if stepped {
        is_step_of(next.field, prev.field, prev.rules) && next.rules == prev.rules
    } else {
        next == prev
    }
}

/// How one tick evolves the four automata and the divider. The pixel pair
/// steps every tick and the brightness pair every tenth tick; then the
/// divider advances, and at the retiring edge the surviving side swaps over
/// while the retired one is reseeded and given a newly synthesized rule.
pub open spec fn tick_evolves(prev: Compositor, next: Compositor) -> bool {
    let w = prev.left_pixels.field.width as int;
    let luma_stepped = prev.iteration % 10 == 0;
    let ev = spec_divider_event(prev.split_pixel as int, prev.split_speed as int, w);
    &&& next.iteration == (if prev.iteration == 255 {
        0u8
    } else {
        (prev.iteration + 1) as u8
    })
    &&& next.split_speed == prev.split_speed
    &&& next.target_millis == prev.target_millis
    &&& next.alive_numerator == prev.alive_numerator
    &&& next.alive_denominator == prev.alive_denominator
    &&& next.split_pixel == spec_divider_index(prev.split_pixel as int, prev.split_speed as int, w)
    &&& (ev is Move ==> {
        &&& is_step_of(next.left_pixels.field, prev.left_pixels.field, prev.left_pixels.rules)
        &&& next.left_pixels.rules == prev.left_pixels.rules
        &&& is_step_of(next.right_pixels.field, prev.right_pixels.field, prev.right_pixels.rules)
        &&& next.right_pixels.rules == prev.right_pixels.rules
        &&& luma_game_after(next.left_luma, prev.left_luma, luma_stepped)
        &&& luma_game_after(next.right_luma, prev.right_luma, luma_stepped)
    })
    &&& (ev is SwapAtRight ==> {
        &&& is_step_of(next.right_pixels.field, prev.left_pixels.field, prev.left_pixels.rules)
        &&& next.right_pixels.rules == prev.left_pixels.rules
        &&& luma_game_after(next.right_luma, prev.left_luma, luma_stepped)
        &&& fresh_bool_side(next.left_pixels, prev.left_pixels.field)
        &&& fresh_byte_side(next.left_luma, prev.left_luma.field)
    })
    &&& (ev is SwapAtLeft ==> {
        &&& is_step_of(next.left_pixels.field, prev.right_pixels.field, prev.right_pixels.rules)
        &&& next.left_pixels.rules == prev.right_pixels.rules
        &&& luma_game_after(next.left_luma, prev.right_luma, luma_stepped)
        &&& fresh_bool_side(next.right_pixels, prev.right_pixels.field)
        &&& fresh_byte_side(next.right_luma, prev.right_luma.field)
    })
}

impl Compositor {
    /// The four automata are well-formed and shaped alike per channel, the
    /// pixel channel is eight times as wide as the brightness channel, the
    /// divider stays inside `[0, width]`, and the reseed probability is a
    /// valid ratio.
    pub open spec fn wf(self) -> bool {
        &&& self.left_pixels.wf()
        &&& self.right_pixels.wf()
        &&& self.left_luma.wf()
        &&& self.right_luma.wf()
        &&& self.right_pixels.field.same_dims(self.left_pixels.field)
        &&& self.right_luma.field.same_dims(self.left_luma.field)
        &&& self.left_pixels.field.width == 8 * self.left_luma.field.width
        &&& self.left_pixels.rules.kind.is_bool_kind()
        &&& self.right_pixels.rules.kind.is_bool_kind()
        &&& self.left_luma.rules.kind.is_byte_kind()
        &&& self.right_luma.rules.kind.is_byte_kind()
        &&& self.split_pixel <= self.left_pixels.field.width
        &&& self.left_pixels.field.width <= 0xffff
        &&& 1 <= self.alive_denominator
        &&& self.alive_numerator <= self.alive_denominator
    }

    /// Build the show: four synthesized automata over randomized grids, the
    /// divider at rest on the left edge moving right.
    pub fn new(
        pixel_width: usize,
        pixel_height: usize,
        luma_width: usize,
        luma_height: usize,
        target_millis: u64,
        alive_numerator: u32,
        alive_denominator: u32,
        rng: &mut rand::rngs::ThreadRng,
    ) -> (c: Compositor)
        requires
            1 <= luma_width,
            1 <= luma_height,
            1 <= pixel_height,
            pixel_width == 8 * luma_width,
            pixel_width <= 0xffff,
            pixel_height <= 0xffff,
            luma_height <= 0xffff,
            1 <= alive_denominator,
            alive_numerator <= alive_denominator,
        ensures
            c.wf(),
            c.left_pixels.field.width == pixel_width,
            c.left_pixels.field.height == pixel_height,
            c.left_luma.field.width == luma_width,
            c.left_luma.field.height == luma_height,
            c.split_pixel == 0,
            c.split_speed == 1,
            c.iteration == 0,
            c.target_millis == target_millis,
            c.alive_numerator == alive_numerator,
            c.alive_denominator == alive_denominator,
    {
        proof {
            assert(pixel_width * pixel_height <= usize::MAX) by (nonlinear_arith)
                requires
                    pixel_width <= 0xffff,
                    pixel_height <= 0xffff,
            ;
            assert(luma_width * luma_height <= usize::MAX) by (nonlinear_arith)
                requires
                    luma_width <= 0xffff,
                    luma_height <= 0xffff,
            ;
        }
        let mut left_pixels = Game {
            rules: Rules::generate_bb3(rng),
            field: Grid::new(pixel_width, pixel_height, DEAD),
        };
        let mut right_pixels = Game {
            rules: Rules::generate_bb3(rng),
            field: Grid::new(pixel_width, pixel_height, DEAD),
        };
        let mut left_luma = Game {
            rules: Rules::generate_u8b3(rng),
            field: Grid::new(luma_width, luma_height, DEAD),
        };
        let mut right_luma = Game {
            rules: Rules::generate_u8b3(rng),
            field: Grid::new(luma_width, luma_height, DEAD),
        };
        randomize_luma(&mut left_luma.field, rng);
        randomize_pixels(&mut left_pixels.field, rng, alive_numerator, alive_denominator);
        randomize_luma(&mut right_luma.field, rng);
        randomize_pixels(&mut right_pixels.field, rng, alive_numerator, alive_denominator);
        Compositor {
            left_pixels,
            right_pixels,
            left_luma,
            right_luma,
            split_pixel: 0,
            split_speed: 1,
            iteration: 0,
            target_millis,
            alive_numerator,
            alive_denominator,
        }
    }

    /// One tick: step the automata, advance the divider (swapping and
    /// reseeding at the retiring edge), and merge both channels into the
    /// caller's frame buffers at the new divider position.
    pub fn tick(
        &mut self,
        rng: &mut rand::rngs::ThreadRng,
        pixels: &mut Grid,
        luma: &mut Grid,
    )
        requires
            old(self).wf(),
            old(pixels).wf(),
            old(pixels).same_dims(old(self).left_pixels.field),
            old(luma).wf(),
            old(luma).same_dims(old(self).left_luma.field),
        ensures
            final(self).wf(),
            tick_evolves(*old(self), *final(self)),
            final(pixels).wf(),
            final(pixels).same_dims(*old(pixels)),
            final(luma).wf(),
            final(luma).same_dims(*old(luma)),
            forall|x: int, y: int|
                final(pixels).in_bounds(x, y) ==> final(pixels).at(x, y) == spec_merge_at(
                    final(self).left_pixels.field,
                    final(self).right_pixels.field,
                    final(self).split_pixel as int,
                    ALIVE,
                    x,
                    y,
                ),
            forall|x: int, y: int|
                final(luma).in_bounds(x, y) ==> final(luma).at(x, y) == spec_merge_at(
                    final(self).left_luma.field,
                    final(self).right_luma.field,
                    final(self).split_pixel as int / 8,
                    255,
                    x,
                    y,
                ),
    {
        self.left_pixels.step();
        self.right_pixels.step();
        let luma_stepped = self.iteration % 10 == 0;
        if luma_stepped {
            self.left_luma.step();
            self.right_luma.step();
        }
        self.iteration = if self.iteration == 255 {
            0
        } else {
            self.iteration + 1
        };
        let width = self.left_pixels.field.width;
        let (new_split, event) = divider_step(self.split_pixel, self.split_speed, width);
        self.split_pixel = new_split;
        match event {
            DividerEvent::Move => {},
            DividerEvent::SwapAtRight => {
                core::mem::swap(&mut self.left_luma, &mut self.right_luma);
                core::mem::swap(&mut self.left_pixels, &mut self.right_pixels);
                let numerator = self.alive_numerator;
                let denominator = self.alive_denominator;
                randomize_pixels(&mut self.left_pixels.field, rng, numerator, denominator);
                randomize_luma(&mut self.left_luma.field, rng);
                self.left_pixels.rules = Rules::generate_bb3(rng);
                self.left_luma.rules = Rules::generate_u8b3(rng);
            },
            DividerEvent::SwapAtLeft => {
                core::mem::swap(&mut self.left_luma, &mut self.right_luma);
                core::mem::swap(&mut self.left_pixels, &mut self.right_pixels);
                let numerator = self.alive_numerator;
                let denominator = self.alive_denominator;
                randomize_pixels(&mut self.right_pixels.field, rng, numerator, denominator);
                randomize_luma(&mut self.right_luma.field, rng);
                self.right_pixels.rules = Rules::generate_bb3(rng);
                self.right_luma.rules = Rules::generate_u8b3(rng);
            },
        }
        let split = self.split_pixel;
        draw_pixels(pixels, &self.left_pixels.field, &self.right_pixels.field, split);
        draw_luma(luma, &self.left_luma.field, &self.right_luma.field, split / 8);
    }

    /// Apply one user command; the result says whether the show goes on.
    pub fn handle_event(&mut self, event: AppEvent, rng: &mut rand::rngs::ThreadRng) -> (keep_running:
        bool)
        requires
            old(self).wf(),
        ensures
            final(self).wf(),
            keep_running == !(event is Close),
            event is Close ==> *final(self) == *old(self),
            event is SeparatorAccelerate ==> *final(self) == (Compositor {
                split_speed: (if old(self).split_speed == i32::MAX {
                    i32::MAX
                } else {
                    (old(self).split_speed + 1) as i32
                }),
                ..(*old(self))
            }),
            event is SeparatorDecelerate ==> *final(self) == (Compositor {
                split_speed: (if old(self).split_speed == i32::MIN {
                    i32::MIN
                } else {
                    (old(self).split_speed - 1) as i32
                }),
                ..(*old(self))
            }),
            event is SimulationSpeedUp ==> *final(self) == (Compositor {
                target_millis: (if old(self).target_millis == 0 {
                    0u64
                } else {
                    (old(self).target_millis - 1) as u64
                }),
                ..(*old(self))
            }),
            event is SimulationSpeedDown ==> *final(self) == (Compositor {
                target_millis: (if old(self).target_millis == u64::MAX {
                    u64::MAX
                } else {
                    (old(self).target_millis + 1) as u64
                }),
                ..(*old(self))
            }),
            event is RandomizeLeftPixels ==> {
                &&& *final(self) == (Compositor {
                    left_pixels: final(self).left_pixels,
                    ..(*old(self))
                })
                &&& final(self).left_pixels.rules == old(self).left_pixels.rules
                &&& fresh_grid_bool(final(self).left_pixels.field, old(self).left_pixels.field)
            },
            event is RandomizeRightPixels ==> {
                &&& *final(self) == (Compositor {
                    right_pixels: final(self).right_pixels,
                    ..(*old(self))
                })
                &&& final(self).right_pixels.rules == old(self).right_pixels.rules
                &&& fresh_grid_bool(final(self).right_pixels.field, old(self).right_pixels.field)
            },
            event is RandomizeLeftLuma ==> {
                &&& *final(self) == (Compositor { left_luma: final(self).left_luma, ..(*old(self)) })
                &&& final(self).left_luma.rules == old(self).left_luma.rules
                &&& final(self).left_luma.field.wf()
                &&& final(self).left_luma.field.same_dims(old(self).left_luma.field)
            },
            event is RandomizeRightLuma ==> {
                &&& *final(self) == (Compositor {
                    right_luma: final(self).right_luma,
                    ..(*old(self))
                })
                &&& final(self).right_luma.rules == old(self).right_luma.rules
                &&& final(self).right_luma.field.wf()
                &&& final(self).right_luma.field.same_dims(old(self).right_luma.field)
            },
    {
        match event {
            AppEvent::Close => false,
            AppEvent::RandomizeLeftPixels => {
                let numerator = self.alive_numerator;
                let denominator = self.alive_denominator;
                randomize_pixels(&mut self.left_pixels.field, rng, numerator, denominator);
                true
            },
            AppEvent::RandomizeRightPixels => {
                let numerator = self.alive_numerator;
                let denominator = self.alive_denominator;
                randomize_pixels(&mut self.right_pixels.field, rng, numerator, denominator);
                true
            },
            AppEvent::RandomizeLeftLuma => {
                randomize_luma(&mut self.left_luma.field, rng);
                true
            },
            AppEvent::RandomizeRightLuma => {
                randomize_luma(&mut self.right_luma.field, rng);
                true
            },
            AppEvent::SeparatorAccelerate => {
                if self.split_speed < i32::MAX {
                    self.split_speed = self.split_speed + 1;
                }
                true
            },
            AppEvent::SeparatorDecelerate => {
                if self.split_speed > i32::MIN {
                    self.split_speed = self.split_speed - 1;
                }
                true
            },
            AppEvent::SimulationSpeedUp => {
                if self.target_millis > 0 {
                    self.target_millis = self.target_millis - 1;
                }
                true
            },
            AppEvent::SimulationSpeedDown => {
                if self.target_millis < u64::MAX {
                    self.target_millis = self.target_millis + 1;
                }
                true
            },
        }
    }
}

/// A reseeded boolean-channel grid: the old shape, sentinel cells only.
pub open spec fn fresh_grid_bool(g: Grid, prev: Grid) -> bool {
    &&& g.wf()
    &&& g.same_dims(prev)
    &&& forall|x: int, y: int| g.in_bounds(x, y) ==> (g.at(x, y) == DEAD || g.at(x, y) == ALIVE)
}

} // verus!
