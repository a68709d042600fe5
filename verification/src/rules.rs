//! Automaton semantics: neighborhood kernels, neighbor-count sets, the named
//! rule presets, and the random rule synthesizer.

use vstd::prelude::*;
use crate::rng::{rng_bool, rng_range_u8};

verus! {

/// A cell of the boolean "alive/dead" channel counts as alive when its byte
/// is in the upper half of the range; such cells are only ever written as
/// `DEAD` or `ALIVE`.
pub const ALIVE: u8 = 255;

pub const DEAD: u8 = 0;

/// The byte values that stand for the boolean channel's two states.
pub open spec fn spec_bool_alive(state: u8) -> bool {
    state >= 128
}

/// Which relative offsets in the 3-by-3 square around a cell are counted as
/// neighbors. The center offset is excluded from counting by the stepper,
/// whatever the kernel says of it.
#[derive(Clone, Copy, PartialEq, Eq, Structural, Debug)]
pub enum Kernel {
    /// All eight surrounding cells.
    Moore,
    /// The four orthogonally adjacent cells.
    Neumann,
    /// The four diagonally adjacent cells.
    Diagonals,
}

impl Kernel {
    /// The weight of kernel cell `(kx, ky)`; indices run over `0..3` with the
    /// center at `(1, 1)`.
    pub open spec fn spec_weight(self, kx: int, ky: int) -> bool {
        match self {
            Kernel::Moore => !(kx == 1 && ky == 1),
            Kernel::Neumann => (kx == 1) != (ky == 1),
            Kernel::Diagonals => (kx == 1) == (ky == 1),
        }
    }

    pub fn weight(self, kx: usize, ky: usize) -> (w: bool)
        requires
            kx < 3,
            ky < 3,
        ensures
            w == self.spec_weight(kx as int, ky as int),
    {
        match self {
            Kernel::Moore => !(kx == 1 && ky == 1),
            Kernel::Neumann => (kx == 1) != (ky == 1),
            Kernel::Diagonals => (kx == 1) == (ky == 1),
        }
    }

    /// How many offsets the kernel counts at most: the largest neighbor sum a
    /// boolean-counting rule can see.
    pub open spec fn spec_max_count(self) -> u16 {
        match self {
            Kernel::Moore => 8,
            Kernel::Neumann => 4,
            Kernel::Diagonals => 4,
        }
    }

    /// Some counted non-center offset exists: no kernel is empty.
    pub proof fn lemma_nonempty(self)
        ensures
            exists|kx: int, ky: int|
                0 <= kx < 3 && 0 <= ky < 3 && !(kx == 1 && ky == 1) && self.spec_weight(kx, ky),
    {
        match self {
            Kernel::Moore => {
                assert(self.spec_weight(0, 0));
            },
            Kernel::Neumann => {
                assert(self.spec_weight(1, 0));
            },
            Kernel::Diagonals => {
                assert(self.spec_weight(0, 0));
            },
        }
    }
}

/// A set of neighbor-count values in `0..16`, stored as a bitmask: bit `n` is
/// set exactly when the count `n` belongs to the set.
#[derive(Clone, Copy, PartialEq, Eq, Structural, Debug)]
pub struct NeighborSet {
    pub mask: u16,
}

impl NeighborSet {
    pub open spec fn spec_contains(self, n: int) -> bool {
        0 <= n < 16 && (self.mask >> (n as u16)) & 1u16 == 1u16
    }

    pub fn contains(self, n: i32) -> (r: bool)
        ensures
            r == self.spec_contains(n as int),
    {
        if n < 0 || n >= 16 {
            false
        } else {
            (self.mask >> (n as u16)) & 1u16 == 1u16
        }
    }

    /// A set with no member has mask zero; see `lemma_nonempty_has_member`.
    pub open spec fn is_nonempty(self) -> bool {
        self.mask != 0
    }

    /// A non-empty set really holds some count below 16.
    pub proof fn lemma_nonempty_has_member(self)
        requires
            self.is_nonempty(),
        ensures
            exists|n: int| 0 <= n < 16 && self.spec_contains(n),
    {
        let m = self.mask;
        assert((m >> 0u16) & 1u16 == 1u16 || (m >> 1u16) & 1u16 == 1u16 || (m >> 2u16) & 1u16
            == 1u16 || (m >> 3u16) & 1u16 == 1u16 || (m >> 4u16) & 1u16 == 1u16 || (m >> 5u16)
            & 1u16 == 1u16 || (m >> 6u16) & 1u16 == 1u16 || (m >> 7u16) & 1u16 == 1u16 || (m
            >> 8u16) & 1u16 == 1u16 || (m >> 9u16) & 1u16 == 1u16 || (m >> 10u16) & 1u16 == 1u16
            || (m >> 11u16) & 1u16 == 1u16 || (m >> 12u16) & 1u16 == 1u16 || (m >> 13u16) & 1u16
            == 1u16 || (m >> 14u16) & 1u16 == 1u16 || (m >> 15u16) & 1u16 == 1u16) by (bit_vector)
            requires
                m != 0,
        ;
        if (m >> 0u16) & 1u16 == 1u16 {
            assert(self.spec_contains(0));
        } else if (m >> 1u16) & 1u16 == 1u16 {
            assert(self.spec_contains(1));
        } else if (m >> 2u16) & 1u16 == 1u16 {
            assert(self.spec_contains(2));
        } else if (m >> 3u16) & 1u16 == 1u16 {
            assert(self.spec_contains(3));
        } else if (m >> 4u16) & 1u16 == 1u16 {
            assert(self.spec_contains(4));
        } else if (m >> 5u16) & 1u16 == 1u16 {
            assert(self.spec_contains(5));
        } else if (m >> 6u16) & 1u16 == 1u16 {
            assert(self.spec_contains(6));
        } else if (m >> 7u16) & 1u16 == 1u16 {
            assert(self.spec_contains(7));
        } else if (m >> 8u16) & 1u16 == 1u16 {
            assert(self.spec_contains(8));
        } else if (m >> 9u16) & 1u16 == 1u16 {
            assert(self.spec_contains(9));
        } else if (m >> 10u16) & 1u16 == 1u16 {
            assert(self.spec_contains(10));
        } else if (m >> 11u16) & 1u16 == 1u16 {
            assert(self.spec_contains(11));
        } else if (m >> 12u16) & 1u16 == 1u16 {
            assert(self.spec_contains(12));
        } else if (m >> 13u16) & 1u16 == 1u16 {
            assert(self.spec_contains(13));
        } else if (m >> 14u16) & 1u16 == 1u16 {
            assert(self.spec_contains(14));
        } else {
            assert(self.spec_contains(15));
        }
    }
}

/// What one automaton does with a cell and its neighbor sum: a named preset,
/// or a synthesized rule carrying its sampled parameters as plain data.
#[derive(Clone, Copy, PartialEq, Eq, Structural, Debug)]
pub enum RuleKind {
    /// Survive on 2 or 3 live neighbors, birth on exactly 3.
    GameOfLife,
    /// Game of Life plus birth on 6.
    HighLife,
    /// Birth on exactly 2, never survive.
    Seeds,
    /// Birth on {3,6,7,8}, survive on {3,4,6,7,8}.
    DayAndNight,
    /// Birth on 3; survive while the neighbor count is in 1..=4.
    Mazecetric,
    /// A synthesized boolean-channel rule: random birth and survival sets.
    SynthesizedBool { birth: NeighborSet, survive: NeighborSet },
    /// Three-valued cyclic: alive, then dying, then dead; born on exactly 2.
    BriansBrain,
    /// Game of Life over bytes: move 10 toward 255 or 0 per tick.
    ContinuousGameOfLife,
    /// Diagonal diffusion toward the local average, with forced extremes.
    Equalizer,
    /// A synthesized byte-channel rule: random threshold, sets and deltas.
    SynthesizedByte {
        alive_threshold: u8,
        birth: NeighborSet,
        survive: NeighborSet,
        increment: u8,
        decrement: u8,
    },
}

impl RuleKind {
    /// The kinds that drive the boolean channel; they only ever write `DEAD`
    /// or `ALIVE`.
    pub open spec fn is_bool_kind(self) -> bool {
        self is GameOfLife || self is HighLife || self is Seeds || self is DayAndNight
            || self is Mazecetric || self is SynthesizedBool
    }

    /// The kinds that drive the byte-valued brightness channel.
    pub open spec fn is_byte_kind(self) -> bool {
        self is BriansBrain || self is ContinuousGameOfLife || self is Equalizer
            || self is SynthesizedByte
    }

    /// Validity of the carried parameters: birth and survival sets are
    /// non-empty and hold counts of at most 8, the alive threshold divides
    /// without fault, and the deltas are within the sampled bounds.
    pub open spec fn wf(self) -> bool {
        match self {
            RuleKind::SynthesizedBool { birth, survive } => {
                &&& birth.is_nonempty()
                &&& survive.is_nonempty()
                &&& birth.mask < 512
                &&& survive.mask < 512
            },
            RuleKind::SynthesizedByte { alive_threshold, birth, survive, increment, decrement } => {
                &&& birth.is_nonempty()
                &&& survive.is_nonempty()
                &&& birth.mask < 512
                &&& survive.mask < 512
                &&& alive_threshold >= 1
                &&& 5 <= increment <= 39
                &&& 5 <= decrement <= 39
            },
            _ => true,
        }
    }

    /// The contribution of one neighbor: what the cell state `state` adds to
    /// the neighbor sum when it sits on a kernel offset of weight
    /// `kernel_value`.
    pub open spec fn spec_count_neighbor(self, state: u8, kernel_value: bool) -> int {
        match self {
            RuleKind::BriansBrain => if kernel_value && state == ALIVE {
                1
            } else {
                0
            },
            RuleKind::ContinuousGameOfLife => if kernel_value && state >= 127 {
                1
            } else {
                0
            },
            RuleKind::Equalizer => if kernel_value {
                state as int
            } else {
                0
            },
            RuleKind::SynthesizedByte { .. } => if kernel_value {
                state as int
            } else {
                0
            },
            _ => spec_count_true_neighbor(spec_bool_alive(state), kernel_value),
        }
    }

    /// The new state of a cell with old state `old_state` and neighbor sum
    /// `neighbors`.
    pub open spec fn spec_next_state(self, old_state: u8, neighbors: int) -> u8 {
        match self {
            RuleKind::GameOfLife => {
                let alive = spec_bool_alive(old_state);
                if (alive && (neighbors == 2 || neighbors == 3)) || (!alive && neighbors == 3) {
                    ALIVE
                } else {
                    DEAD
                }
            },
            RuleKind::HighLife => {
                let alive = spec_bool_alive(old_state);
                if (alive && (neighbors == 2 || neighbors == 3)) || (!alive && (neighbors == 3
                    || neighbors == 6)) {
                    ALIVE
                } else {
                    DEAD
                }
            },
            RuleKind::Seeds => {
                if !spec_bool_alive(old_state) && neighbors == 2 {
                    ALIVE
                } else {
                    DEAD
                }
            },
            RuleKind::DayAndNight => {
                let alive = spec_bool_alive(old_state);
                let born = neighbors == 3 || neighbors == 6 || neighbors == 7 || neighbors == 8;
                let kept = neighbors == 3 || neighbors == 4 || neighbors == 6 || neighbors == 7
                    || neighbors == 8;
                if (alive && kept) || (!alive && born) {
                    ALIVE
                } else {
                    DEAD
                }
            },
            RuleKind::Mazecetric => {
                let alive = spec_bool_alive(old_state);
                if alive {
                    if neighbors == 0 {
                        DEAD
                    } else if neighbors < 5 {
                        ALIVE
                    } else {
                        DEAD
                    }
                } else {
                    if neighbors == 3 {
                        ALIVE
                    } else {
                        DEAD
                    }
                }
            },
            RuleKind::SynthesizedBool { birth, survive } => {
                let alive = spec_bool_alive(old_state);
                if (alive && survive.spec_contains(neighbors)) || (!alive && birth.spec_contains(
                    neighbors,
                )) {
                    ALIVE
                } else {
                    DEAD
                }
            },
            RuleKind::BriansBrain => {
                if old_state == 255 {
                    127
                } else if old_state == 127 {
                    0
                } else if old_state == 0 && neighbors == 2 {
                    255
                } else if old_state > 127 {
                    255
                } else {
                    0
                }
            },
            RuleKind::ContinuousGameOfLife => {
                let alive = old_state >= 127;
                let delta: int = if (alive && (neighbors == 2 || neighbors == 3)) || (!alive
                    && neighbors == 3) {
                    10
                } else {
                    -10
                };
                spec_clamp_byte(old_state + delta)
            },
            RuleKind::Equalizer => {
                if old_state % 42 == 0 {
                    255
                } else if old_state % 23 == 0 {
                    0
                } else {
                    let average = neighbors / 5;
                    let delta: int = if average > old_state {
                        10
                    } else {
                        -10
                    };
                    spec_clamp_byte(old_state + delta)
                }
            },
            RuleKind::SynthesizedByte { alive_threshold, birth, survive, increment, decrement } => {
                let scaled = neighbors / (alive_threshold as int);
                let alive = old_state >= alive_threshold;
                let reborn = (alive && survive.spec_contains(scaled)) || (!alive
                    && birth.spec_contains(scaled));
                let delta: int = if reborn {
                    increment as int
                } else {
                    -(decrement as int)
                };
                spec_clamp_byte(old_state + delta)
            },
        }
    }

    /// Boolean-channel kinds write nothing but the two sentinel bytes.
    pub proof fn lemma_bool_kind_two_valued(self, old_state: u8, neighbors: int)
        requires
            self.is_bool_kind(),
        ensures
            self.spec_next_state(old_state, neighbors) == DEAD || self.spec_next_state(
                old_state,
                neighbors,
            ) == ALIVE,
    {
    }
}

/// One if a live neighbor sits on a counted kernel offset, else zero.
pub open spec fn spec_count_true_neighbor(neighbor_state: bool, kernel_value: bool) -> int {
    if neighbor_state && kernel_value {
        1
    } else {
        0
    }
}

pub fn count_true_neighbor(neighbor_state: bool, kernel_value: bool) -> (r: i32)
    ensures
        r == spec_count_true_neighbor(neighbor_state, kernel_value),
{
    if neighbor_state && kernel_value {
        1
    } else {
        0
    }
}

/// `v` forced into the byte range: the saturating end of every delta.
pub open spec fn spec_clamp_byte(v: int) -> u8 {
    if v < 0 {
        0
    } else if v > 255 {
        255
    } else {
        v as u8
    }
}

pub fn clamp_byte(v: i32) -> (r: u8)
    ensures
        r == spec_clamp_byte(v as int),
{
    if v < 0 {
        0
    } else if v > 255 {
        255
    } else {
        v as u8
    }
}

/// One automaton's full semantics: a bound kernel and the transition kind.
/// Stepping with a `Rules` value is a pure function of the grid, so every
/// rule, synthesized ones included, behaves reproducibly.
#[derive(Clone, Copy, PartialEq, Eq, Structural, Debug)]
pub struct Rules {
    pub kernel: Kernel,
    pub kind: RuleKind,
}

impl Rules {
    pub open spec fn wf(self) -> bool {
        self.kind.wf()
    }

    /// The contribution of one neighbor cell to the neighbor sum.
    pub fn count_neighbor(&self, state: u8, kernel_value: bool) -> (r: i32)
        ensures
            r == self.kind.spec_count_neighbor(state, kernel_value),
            0 <= r <= 255,
    {
        match self.kind {
            RuleKind::BriansBrain => if kernel_value && state == ALIVE {
                1
            } else {
                0
            },
            RuleKind::ContinuousGameOfLife => if kernel_value && state >= 127 {
                1
            } else {
                0
            },
            RuleKind::Equalizer => if kernel_value {
                state as i32
            } else {
                0
            },
            RuleKind::SynthesizedByte { .. } => if kernel_value {
                state as i32
            } else {
                0
            },
            _ => count_true_neighbor(state >= 128, kernel_value),
        }
    }

    /// The new state of a cell from its old state and neighbor sum.
    pub fn next_state(&self, old_state: u8, neighbors: i32) -> (r: u8)
        requires
            self.wf(),
            0 <= neighbors,
        ensures
            r == self.kind.spec_next_state(old_state, neighbors as int),
    {
        match self.kind {
            RuleKind::GameOfLife => {
                let alive = old_state >= 128;
                if (alive && (neighbors == 2 || neighbors == 3)) || (!alive && neighbors == 3) {
                    ALIVE
                } else {
                    DEAD
                }
            },
            RuleKind::HighLife => {
                let alive = old_state >= 128;
                if (alive && (neighbors == 2 || neighbors == 3)) || (!alive && (neighbors == 3
                    || neighbors == 6)) {
                    ALIVE
                } else {
                    DEAD
                }
            },
            RuleKind::Seeds => {
                if old_state < 128 && neighbors == 2 {
                    ALIVE
                } else {
                    DEAD
                }
            },
            RuleKind::DayAndNight => {
                let alive = old_state >= 128;
                let born = neighbors == 3 || neighbors == 6 || neighbors == 7 || neighbors == 8;
                let kept = neighbors == 3 || neighbors == 4 || neighbors == 6 || neighbors == 7
                    || neighbors == 8;
                if (alive && kept) || (!alive && born) {
                    ALIVE
                } else {
                    DEAD
                }
            },
            RuleKind::Mazecetric => {
                let alive = old_state >= 128;
                if alive {
                    if neighbors == 0 {
                        DEAD
                    } else if neighbors < 5 {
                        ALIVE
                    } else {
                        DEAD
                    }
                } else {
                    if neighbors == 3 {
                        ALIVE
                    } else {
                        DEAD
                    }
                }
            },
            RuleKind::SynthesizedBool { birth, survive } => {
                let alive = old_state >= 128;
                if (alive && survive.contains(neighbors)) || (!alive && birth.contains(
                    neighbors,
                )) {
                    ALIVE
                } else {
                    DEAD
                }
            },
            RuleKind::BriansBrain => {
                if old_state == 255 {
                    127
                } else if old_state == 127 {
                    0
                } else if old_state == 0 && neighbors == 2 {
                    255
                } else if old_state > 127 {
                    255
                } else {
                    0
                }
            },
            RuleKind::ContinuousGameOfLife => {
                let alive = old_state >= 127;
                let delta: i32 = if (alive && (neighbors == 2 || neighbors == 3)) || (!alive
                    && neighbors == 3) {
                    10
                } else {
                    -10
                };
                clamp_byte(old_state as i32 + delta)
            },
            RuleKind::Equalizer => {
                if old_state % 42 == 0 {
                    255
                } else if old_state % 23 == 0 {
                    0
                } else {
                    let average = neighbors / 5;
                    let delta: i32 = if average > old_state as i32 {
                        10
                    } else {
                        -10
                    };
                    clamp_byte(old_state as i32 + delta)
                }
            },
            RuleKind::SynthesizedByte { alive_threshold, birth, survive, increment, decrement } => {
                let scaled = neighbors / (alive_threshold as i32);
                let alive = old_state >= alive_threshold;
                let reborn = (alive && survive.contains(scaled)) || (!alive && birth.contains(
                    scaled,
                ));
                let delta: i32 = if reborn {
                    increment as i32
                } else {
                    -(decrement as i32)
                };
                clamp_byte(old_state as i32 + delta)
            },
        }
    }

    /// Conway's Game of Life on the Moore neighborhood.
    #[must_use]
    pub fn game_of_life() -> (r: Rules)
        ensures
            r == (Rules { kernel: Kernel::Moore, kind: RuleKind::GameOfLife }),
            r.wf(),
    {
        Rules { kernel: Kernel::Moore, kind: RuleKind::GameOfLife }
    }

    /// Game of Life plus birth on six neighbors.
    #[must_use]
    pub fn high_life() -> (r: Rules)
        ensures
            r == (Rules { kernel: Kernel::Moore, kind: RuleKind::HighLife }),
            r.wf(),
    {
        Rules { kernel: Kernel::Moore, kind: RuleKind::HighLife }
    }

    /// Birth on exactly two neighbors; nothing survives.
    #[must_use]
    pub fn seeds() -> (r: Rules)
        ensures
            r == (Rules { kernel: Kernel::Moore, kind: RuleKind::Seeds }),
            r.wf(),
    {
        Rules { kernel: Kernel::Moore, kind: RuleKind::Seeds }
    }

    /// The symmetric Day & Night rule.
    #[must_use]
    pub fn day_and_night() -> (r: Rules)
        ensures
            r == (Rules { kernel: Kernel::Moore, kind: RuleKind::DayAndNight }),
            r.wf(),
    {
        Rules { kernel: Kernel::Moore, kind: RuleKind::DayAndNight }
    }

    /// The maze-growing Mazecetric rule.
    #[must_use]
    pub fn mazecetric() -> (r: Rules)
        ensures
            r == (Rules { kernel: Kernel::Moore, kind: RuleKind::Mazecetric }),
            r.wf(),
    {
        Rules { kernel: Kernel::Moore, kind: RuleKind::Mazecetric }
    }

    /// Brian's Brain: alive cells start dying, dying cells die, dead cells
    /// are born on exactly two alive neighbors.
    #[must_use]
    pub fn brians_brain() -> (r: Rules)
        ensures
            r == (Rules { kernel: Kernel::Moore, kind: RuleKind::BriansBrain }),
            r.wf(),
    {
        Rules { kernel: Kernel::Moore, kind: RuleKind::BriansBrain }
    }

    /// Game of Life over bytes, drifting 10 per tick toward 255 or 0.
    #[must_use]
    pub fn continuous_game_of_life() -> (r: Rules)
        ensures
            r == (Rules { kernel: Kernel::Moore, kind: RuleKind::ContinuousGameOfLife }),
            r.wf(),
    {
        Rules { kernel: Kernel::Moore, kind: RuleKind::ContinuousGameOfLife }
    }

    /// Diagonal-only diffusion toward the local average with forced extremes.
    #[must_use]
    pub fn equalizer() -> (r: Rules)
        ensures
            r == (Rules { kernel: Kernel::Diagonals, kind: RuleKind::Equalizer }),
            r.wf(),
    {
        Rules { kernel: Kernel::Diagonals, kind: RuleKind::Equalizer }
    }

    /// A fresh boolean-channel rule for the alive/dead pixel channel.
    #[must_use]
    pub fn random_bb3(rng: &mut rand::rngs::ThreadRng) -> (r: Rules)
        ensures
            r.wf(),
            r.kind.is_bool_kind(),
            synthesized_bool_valid(r),
    {
        Rules::generate_bb3(rng)
    }

    /// Synthesize a boolean-channel rule: a coin picks the Moore or von
    /// Neumann kernel, then non-empty birth and survival sets are drawn with
    /// counts bounded by the kernel's neighbor maximum.
    #[must_use]
    pub fn generate_bb3(rng: &mut rand::rngs::ThreadRng) -> (r: Rules)
        ensures
            r.wf(),
            r.kind.is_bool_kind(),
            synthesized_bool_valid(r),
    {
        let is_moore = rng_bool(rng);
        let kernel = if is_moore {
            Kernel::Moore
        } else {
            Kernel::Neumann
        };
        let max_neighbors: u8 = if is_moore {
            8
        } else {
            4
        };
        let birth_size = rng_range_u8(rng, 1, max_neighbors);
        let birth = generate_neighbor_counts(birth_size, rng);
        let survive_size = rng_range_u8(rng, 1, max_neighbors);
        let survive = generate_neighbor_counts(survive_size, rng);
        proof {
            lemma_shift_le((birth_size + 1) as u16, (kernel.spec_max_count() + 1) as u16);
            lemma_shift_le((survive_size + 1) as u16, (kernel.spec_max_count() + 1) as u16);
        }
        Rules { kernel, kind: RuleKind::SynthesizedBool { birth, survive } }
    }

    /// A fresh byte-channel rule for the brightness channel.
    #[must_use]
    pub fn random_u8b3(rng: &mut rand::rngs::ThreadRng) -> (r: Rules)
        ensures
            r.wf(),
            r.kind.is_byte_kind(),
            synthesized_byte_valid(r),
    {
        Rules::generate_u8b3(rng)
    }

    /// Synthesize a byte-channel rule: kernel and sets as for the boolean
    /// channel, plus a non-zero alive threshold and bounded step deltas.
    #[must_use]
    pub fn generate_u8b3(rng: &mut rand::rngs::ThreadRng) -> (r: Rules)
        ensures
            r.wf(),
            r.kind.is_byte_kind(),
            synthesized_byte_valid(r),
    {
        let is_moore = rng_bool(rng);
        let kernel = if is_moore {
            Kernel::Moore
        } else {
            Kernel::Neumann
        };
        let max_neighbors: u8 = if is_moore {
            8
        } else {
            4
        };
        let alive_threshold = rng_range_u8(rng, 1, 255);
        let birth_size = rng_range_u8(rng, 1, max_neighbors);
        let birth = generate_neighbor_counts(birth_size, rng);
        let survive_size = rng_range_u8(rng, 1, max_neighbors);
        let survive = generate_neighbor_counts(survive_size, rng);
        let increment = rng_range_u8(rng, 5, 39);
        let decrement = rng_range_u8(rng, 5, 39);
        proof {
            lemma_shift_le((birth_size + 1) as u16, (kernel.spec_max_count() + 1) as u16);
            lemma_shift_le((survive_size + 1) as u16, (kernel.spec_max_count() + 1) as u16);
        }
        Rules {
            kernel,
            kind: RuleKind::SynthesizedByte { alive_threshold, birth, survive, increment, decrement },
        }
    }
}

/// A synthesized boolean rule is bound to a Moore or von Neumann kernel and
/// carries non-empty sets whose counts stay within that kernel's maximum.
pub open spec fn synthesized_bool_valid(r: Rules) -> bool {
    &&& (r.kernel == Kernel::Moore || r.kernel == Kernel::Neumann)
    &&& r.kind matches RuleKind::SynthesizedBool { birth, survive } && {
        &&& birth.is_nonempty()
        &&& survive.is_nonempty()
        &&& birth.mask < (1u16 << ((r.kernel.spec_max_count() + 1) as u16))
        &&& survive.mask < (1u16 << ((r.kernel.spec_max_count() + 1) as u16))
    }
}

/// As `synthesized_bool_valid`, with the byte channel's extra parameters.
pub open spec fn synthesized_byte_valid(r: Rules) -> bool {
    &&& (r.kernel == Kernel::Moore || r.kernel == Kernel::Neumann)
    &&& r.kind matches RuleKind::SynthesizedByte {
        alive_threshold,
        birth,
        survive,
        increment,
        decrement,
    } && {
        &&& birth.is_nonempty()
        &&& survive.is_nonempty()
        &&& birth.mask < (1u16 << ((r.kernel.spec_max_count() + 1) as u16))
        &&& survive.mask < (1u16 << ((r.kernel.spec_max_count() + 1) as u16))
        &&& 1 <= alive_threshold
        &&& 5 <= increment <= 39
        &&& 5 <= decrement <= 39
    }
}

proof fn lemma_or_bit_keeps_bound(m: u16, b: u16, c: u16)
    by (bit_vector)
    requires
        c <= 8,
        b <= c,
        m < (1u16 << (c + 1)),
    ensures
        (m | (1u16 << b)) < (1u16 << (c + 1)),
        (m | (1u16 << b)) != 0,
{
}

proof fn lemma_shift_le(a: u16, b: u16)
    by (bit_vector)
    requires
        a <= b,
        b <= 9,
    ensures
        (1u16 << a) <= (1u16 << b),
{
}

/// A non-empty random set of neighbor counts, each drawn from `0..=count`.
pub fn generate_neighbor_counts(count: u8, rng: &mut rand::rngs::ThreadRng) -> (s: NeighborSet)
    requires
        1 <= count <= 8,
    ensures
        s.is_nonempty(),
        s.mask < (1u16 << ((count + 1) as u16)),
        s.mask < 512,
{
    let mut mask: u16 = 0;
    let mut i: u8 = 0;
    proof {
        assert(0u16 < (1u16 << ((count + 1) as u16))) by (bit_vector)
            requires
                1 <= count <= 8,
        ;
    }
    while i < count
        invariant
            1 <= count <= 8,
            i <= count,
            mask < (1u16 << ((count + 1) as u16)),
            i > 0 ==> mask != 0,
        decreases count - i,
    {
        let n = rng_range_u8(rng, 0, count);
        proof {
            lemma_or_bit_keeps_bound(mask, n as u16, count as u16);
        }
        mask = mask | (1u16 << (n as u16));
        i = i + 1;
    }
    proof {
        assert((1u16 << ((count + 1) as u16)) <= 512) by (bit_vector)
            requires
                1 <= count <= 8,
        ;
    }
    NeighborSet { mask }
}

} // verus!
