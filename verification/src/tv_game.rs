//! The chase mini-game shown on the in-scene TV: a monster pursues the
//! player-controlled avatar across a screen that wraps toroidally, a rotation
//! puzzle advances when the avatar crosses the screen edges in the exact
//! sequence North, East, South, West, and solving it opens a whirlpool at the
//! screen center that the avatar falls into.
//!
//! Avatar positions are whole screen units; the pursuer, which moves a
//! hundredth of a unit per tick, is tracked in thousandths of a unit
//! ("milli-units").

use vstd::prelude::*;

verus! {

/// Distance from the crossed edge at which a wrapped avatar reappears.
pub const EDGE_GAP: i32 = 10;

/// Horizontal half-extent of the TV screen, in units.
pub const X_BOUND: i32 = 190;

/// Vertical half-extent of the TV screen, in units.
pub const Y_BOUND: i32 = 140;

/// Value of the edge-crossing counter at which the puzzle is solved.
pub const PUZZLE_SOLVED: u32 = 3;

/// Distance in units under which the pursuer catches the avatar.
pub const KILL_DISTANCE: i32 = 20;

/// Distance in units from the screen center under which a solved-state
/// avatar falls into the whirlpool.
pub const WHIRLPOOL_DISTANCE: i32 = 30;

/// Milli-units the pursuer advances per tick: a hundredth of a unit.
pub const MONSTER_STEP_MILLI: i64 = 10;

/// Milli-units per screen unit.
pub const POSITION_SCALE: i64 = 1000;

/// Starting sprite scale, in thousandths.
pub const FULL_SCALE_MILLI: u32 = 1000;

/// Sprite scale in thousandths under which the fall animation ends.
pub const ENDED_SCALE_MILLI: u32 = 100;

/// Screen edge the avatar crossed.
#[derive(Clone, Copy, Debug, PartialEq, Eq, Structural)]
pub enum Direction {
    North,
    East,
    South,
    West,
}

/// Phase of the mini-game.
#[derive(Clone, Copy, Debug, PartialEq, Eq, Structural)]
pub enum TvPhase {
    /// The avatar evades the pursuer; the edge puzzle is still open.
    Chasing,
    /// The edge puzzle is solved and the whirlpool is open at the center.
    Solved,
    /// The avatar fell in: both sprites shrink toward zero scale.
    Falling,
    /// The game is over, with the win or lose picture shown.
    Ended { won: bool },
}

/// What one avatar tick reports.
#[derive(Clone, Copy, Debug, PartialEq, Eq, Structural)]
pub enum TvEvent {
    Idle,
    /// The edge sequence was completed on this tick.
    PuzzleSolved,
    /// The avatar reached the whirlpool and began to fall.
    BeganFalling,
}

/// Next value of the edge-crossing counter after crossing edge `dir`: the
/// exact sequence North, East, South, West advances it step by step, any
/// other crossing resets it, and a solved counter stays solved.
pub open spec fn spec_check_puzzle(puzzle_pos: u32, dir: Direction) -> u32 {
    if puzzle_pos == PUZZLE_SOLVED {
        PUZZLE_SOLVED
    } else {
        match dir {
            Direction::North => 0,
            Direction::East => if puzzle_pos == 0 {
                1
            } else {
                0
            },
            Direction::South => if puzzle_pos == 1 {
                2
            } else {
                0
            },
            Direction::West => if puzzle_pos == 2 {
                3
            } else {
                0
            },
        }
    }
}

/// Advance the edge-crossing counter for a crossing of edge `dir`.
pub fn check_puzzle(puzzle_pos: u32, dir: Direction) -> (r: u32)
    ensures
        r == spec_check_puzzle(puzzle_pos, dir),
        r <= PUZZLE_SOLVED,
{
    if puzzle_pos == PUZZLE_SOLVED {
        return PUZZLE_SOLVED;
    }
    match dir {
        Direction::North => 0,
        Direction::East => {
            if puzzle_pos == 0 {
                1
            } else {
                0
            }
        },
        Direction::South => {
            if puzzle_pos == 1 {
                2
            } else {
                0
            }
        },
        Direction::West => {
            if puzzle_pos == 2 {
                3
            } else {
                0
            }
        },
    }
}

/// Where a position just outside the screen reappears, and which edge it
/// crossed: an axis past its bound teleports to the opposite bound minus the
/// edge gap. When both axes cross at once the vertical crossing is the one
/// recorded.
pub open spec fn spec_wrap(x: int, y: int) -> (int, int, Option<Direction>) {
    let wx = if x > X_BOUND {
        -X_BOUND + EDGE_GAP
    } else if x < -X_BOUND {
        X_BOUND - EDGE_GAP
    } else {
        x
    };
    let wy = if y > Y_BOUND {
        -Y_BOUND + EDGE_GAP
    } else if y < -Y_BOUND {
        Y_BOUND - EDGE_GAP
    } else {
        y
    };
    let dir = if y > Y_BOUND {
        Some(Direction::North)
    } else if y < -Y_BOUND {
        Some(Direction::South)
    } else if x > X_BOUND {
        Some(Direction::East)
    } else if x < -X_BOUND {
        Some(Direction::West)
    } else {
        None
    };
    (wx, wy, dir)
}

/// The whole state of the mini-game: its phase, the edge-crossing counter,
/// the avatar position in units, the pursuer position in milli-units, and
/// the shrink animation's sprite scale.
#[derive(Clone, Copy, Debug, PartialEq, Eq, Structural)]
pub struct TvGame {
    pub phase: TvPhase,
    pub puzzle_pos: u32,
    pub player_x: i32,
    pub player_y: i32,
    pub monster_x_milli: i64,
    pub monster_y_milli: i64,
    pub scale_milli: u32,
}

impl TvGame {
    /// The avatar stays on the screen, the pursuer stays within a bounded
    /// neighbourhood of it, the counter never passes its solved value and is
    /// at it exactly while the whirlpool is open, and the sprite scale only
    /// shrinks from its full value.
    pub open spec fn wf(self) -> bool {
        &&& -X_BOUND <= self.player_x <= X_BOUND
        &&& -Y_BOUND <= self.player_y <= Y_BOUND
        &&& -200_000 <= self.monster_x_milli <= 200_000
        &&& -200_000 <= self.monster_y_milli <= 200_000
        &&& self.puzzle_pos <= PUZZLE_SOLVED
        &&& (self.phase is Chasing ==> self.puzzle_pos < PUZZLE_SOLVED)
        &&& (self.phase is Solved ==> self.puzzle_pos == PUZZLE_SOLVED)
        &&& self.scale_milli <= FULL_SCALE_MILLI
    }

    /// A fresh chase: the avatar on the left of the screen, the pursuer at
    /// the center, the edge puzzle unstarted, sprites at full scale.
    pub fn new() -> (r: TvGame)
        ensures
            r.wf(),
            r == (TvGame {
                phase: TvPhase::Chasing,
                puzzle_pos: 0u32,
                player_x: -160i32,
                player_y: 0i32,
                monster_x_milli: 0i64,
                monster_y_milli: 0i64,
                scale_milli: FULL_SCALE_MILLI,
            }),
    {
        TvGame {
            phase: TvPhase::Chasing,
            puzzle_pos: 0,
            player_x: -160,
            player_y: 0,
            monster_x_milli: 0,
            monster_y_milli: 0,
            scale_milli: FULL_SCALE_MILLI,
        }
    }
}

/// The game state and event after one avatar tick: the avatar moves one unit
/// for each held key, wraps across the screen edges, a crossing advances the
/// edge puzzle (completing it opens the whirlpool), and an avatar within the
/// whirlpool's reach of the center begins to fall.
pub open spec fn spec_player_tick(
    g: TvGame,
    left: bool,
    right: bool,
    down: bool,
    up: bool,
) -> (TvGame, TvEvent) {
    let moved_x = g.player_x + (if right {
        1int
    } else {
        0int
    }) - (if left {
        1int
    } else {
        0int
    });
    let moved_y = g.player_y + (if up {
        1int
    } else {
        0int
    }) - (if down {
        1int
    } else {
        0int
    });
    let (wx, wy, dir) = spec_wrap(moved_x, moved_y);
    let new_puzzle = if g.phase is Chasing && dir is Some {
        spec_check_puzzle(g.puzzle_pos, dir->0)
    } else {
        g.puzzle_pos
    };
    let solved_now = g.phase is Chasing && new_puzzle == PUZZLE_SOLVED;
    let phase_after_puzzle = if solved_now {
        TvPhase::Solved
    } else {
        g.phase
    };
    let falls = phase_after_puzzle is Solved && wx * wx + wy * wy < WHIRLPOOL_DISTANCE
        * WHIRLPOOL_DISTANCE;
    let new_game = TvGame {
        phase: if falls {
            TvPhase::Falling
        } else {
            phase_after_puzzle
        },
        puzzle_pos: new_puzzle,
        player_x: if falls {
            0
        } else {
            wx as i32
        },
        player_y: if falls {
            0
        } else {
            wy as i32
        },
        ..g
    };
    let event = if falls {
        TvEvent::BeganFalling
    } else if solved_now {
        TvEvent::PuzzleSolved
    } else {
        TvEvent::Idle
    };
    (new_game, event)
}

impl TvGame {
    /// Advance the avatar by one tick of held keys: move one unit per held
    /// direction, wrap across crossed edges, feed a crossing to the edge
    /// puzzle, and fall into the whirlpool once solved and near the center.
    pub fn player_tick(&mut self, left: bool, right: bool, down: bool, up: bool) -> (event:
        TvEvent)
        requires
            old(self).wf(),
            old(self).phase is Chasing || old(self).phase is Solved,
        ensures
            final(self).wf(),
            (*final(self), event) == spec_player_tick(*old(self), left, right, down, up),
    {
        let mut x = self.player_x;
        let mut y = self.player_y;
        if right {
            x = x + 1;
        }
        if left {
            x = x - 1;
        }
        if up {
            y = y + 1;
        }
        if down {
            y = y - 1;
        }
        let mut dir: Option<Direction> = None;
        if x > X_BOUND {
            x = -X_BOUND + EDGE_GAP;
            dir = Some(Direction::East);
        }
        if x < -X_BOUND {
            x = X_BOUND - EDGE_GAP;
            dir = Some(Direction::West);
        }
        if y > Y_BOUND {
            y = -Y_BOUND + EDGE_GAP;
            dir = Some(Direction::North);
        }
        if y < -Y_BOUND {
            y = Y_BOUND - EDGE_GAP;
            dir = Some(Direction::South);
        }
        self.player_x = x;
        self.player_y = y;

        let mut solved_now = false;
        if matches!(self.phase, TvPhase::Chasing) {
            if let Some(d) = dir {
                let next_pos = check_puzzle(self.puzzle_pos, d);
                self.puzzle_pos = next_pos;
                if next_pos == PUZZLE_SOLVED {
                    self.phase = TvPhase::Solved;
                    solved_now = true;
                }
            }
        }

        if matches!(self.phase, TvPhase::Solved) {
            proof {
                assert(0 <= x * x <= 190 * 190) by (nonlinear_arith)
                    requires
                        -190 <= x <= 190,
                ;
                assert(0 <= y * y <= 140 * 140) by (nonlinear_arith)
                    requires
                        -140 <= y <= 140,
                ;
            }
            if x * x + y * y < WHIRLPOOL_DISTANCE * WHIRLPOOL_DISTANCE {
                self.phase = TvPhase::Falling;
                self.player_x = 0;
                self.player_y = 0;
                return TvEvent::BeganFalling;
            }
        }
        if solved_now {
            TvEvent::PuzzleSolved
        } else {
            TvEvent::Idle
        }
    }

    /// Shrink both sprites by one hundredth of their scale; once the scale
    /// falls under a tenth the fall is over and the game has been won.
    pub fn falling_tick(&mut self) -> (ended: bool)
        requires
            old(self).wf(),
            old(self).phase is Falling,
        ensures
            final(self).wf(),
            final(self).scale_milli == old(self).scale_milli * 99 / 100,
            ended == (final(self).scale_milli < ENDED_SCALE_MILLI),
            *final(self) == (TvGame {
                scale_milli: final(self).scale_milli,
                phase: if ended {
                    (TvPhase::Ended { won: true })
                } else {
                    TvPhase::Falling
                },
                ..*old(self)
            }),
    {
        self.scale_milli = self.scale_milli * 99 / 100;
        if self.scale_milli < ENDED_SCALE_MILLI {
            self.phase = TvPhase::Ended { won: true };
            true
        } else {
            false
        }
    }
}

/// Integer square root: the largest integer whose square does not exceed `n`.
fn isqrt_u64(n: u64) -> (r: u64)
    ensures
        (r as int) * (r as int) <= n as int,
        ((r as int) + 1) * ((r as int) + 1) > n as int,
{
    let mut lo: u64 = 0;
    let mut hi: u64 = 0x1_0000_0000;
    proof {
        assert((hi as int) * (hi as int) > n as int) by (nonlinear_arith)
            requires
                hi == 0x1_0000_0000u64,
                n <= u64::MAX,
        ;
    }
    while lo + 1 < hi
        invariant
            lo < hi <= 0x1_0000_0000,
            (lo as int) * (lo as int) <= n as int,
            (hi as int) * (hi as int) > n as int,
        decreases hi - lo,
    {
        let mid = lo + (hi - lo) / 2;
        proof {
            assert(mid * mid <= u64::MAX) by (nonlinear_arith)
                requires
                    mid < 0x1_0000_0000u64,
            ;
        }
        if mid * mid <= n {
            lo = mid;
        } else {
            hi = mid;
        }
    }
    lo
}

impl TvGame {
    /// One tick of pure pursuit: the pursuer takes a step of at most its
    /// speed straight toward the avatar's current position, never moving away
    /// on either axis and never overshooting by more than one step; if the
    /// two then stand closer than the kill distance, the avatar is caught and
    /// the game is lost. Nothing else changes.
    pub fn monster_tick(&mut self) -> (caught: bool)
        requires
            old(self).wf(),
            old(self).phase is Chasing || old(self).phase is Solved,
        ensures
            final(self).wf(),
            ({
                let px = old(self).player_x as int * POSITION_SCALE;
                let py = old(self).player_y as int * POSITION_SCALE;
                let mx = old(self).monster_x_milli as int;
                let my = old(self).monster_y_milli as int;
                let nx = final(self).monster_x_milli as int;
                let ny = final(self).monster_y_milli as int;
                &&& (px == mx ==> nx == mx)
                &&& (px > mx ==> mx <= nx <= mx + MONSTER_STEP_MILLI && nx <= px
                    + MONSTER_STEP_MILLI)
                &&& (px < mx ==> mx - MONSTER_STEP_MILLI <= nx <= mx && nx >= px
                    - MONSTER_STEP_MILLI)
                &&& (py == my ==> ny == my)
                &&& (py > my ==> my <= ny <= my + MONSTER_STEP_MILLI && ny <= py
                    + MONSTER_STEP_MILLI)
                &&& (py < my ==> my - MONSTER_STEP_MILLI <= ny <= my && ny >= py
                    - MONSTER_STEP_MILLI)
                &&& caught == ((px - nx) * (px - nx) + (py - ny) * (py - ny) < (
                KILL_DISTANCE as int * POSITION_SCALE) * (KILL_DISTANCE as int * POSITION_SCALE))
                &&& *final(self) == (TvGame {
                    monster_x_milli: final(self).monster_x_milli,
                    monster_y_milli: final(self).monster_y_milli,
                    phase: if caught {
                        (TvPhase::Ended { won: false })
                    } else {
                        old(self).phase
                    },
                    ..*old(self)
                })
            }),
    {
        let px = (self.player_x as i64) * POSITION_SCALE;
        let py = (self.player_y as i64) * POSITION_SCALE;
        let dx = px - self.monster_x_milli;
        let dy = py - self.monster_y_milli;
        let abs_dx: u64 = if dx >= 0 {
            dx as u64
        } else {
            (-dx) as u64
        };
        let abs_dy: u64 = if dy >= 0 {
            dy as u64
        } else {
            (-dy) as u64
        };
        proof {
            assert(abs_dx * abs_dx + abs_dy * abs_dy <= 800_000_000_000u64) by (nonlinear_arith)
                requires
                    abs_dx <= 400_000u64,
                    abs_dy <= 400_000u64,
            ;
        }
        let dist = isqrt_u64(abs_dx * abs_dx + abs_dy * abs_dy);
        if dist > 0 {
            proof {
                let d = dist as int;
                let ax = abs_dx as int;
                let ay = abs_dy as int;
                assert(ax <= d && ay <= d) by (nonlinear_arith)
                    requires
                        d * d <= ax * ax + ay * ay,
                        ax * ax + ay * ay < (d + 1) * (d + 1),
                        0 <= ax,
                        0 <= ay,
                        0 < d,
                ;
                vstd::arithmetic::div_mod::lemma_div_is_ordered(ax * 10, d * 10, d);
                vstd::arithmetic::div_mod::lemma_div_multiples_vanish(10, d);
                assert(ax * 10 / d <= 10);
                vstd::arithmetic::div_mod::lemma_div_pos_is_pos(ax * 10, d);
                vstd::arithmetic::div_mod::lemma_div_is_ordered(ay * 10, d * 10, d);
                vstd::arithmetic::div_mod::lemma_div_pos_is_pos(ay * 10, d);
                assert(ay * 10 / d <= 10);
                vstd::arithmetic::div_mod::lemma_div_is_ordered_by_denominator(ax * 10, 1, d);
                vstd::arithmetic::div_mod::lemma_div_is_ordered_by_denominator(ay * 10, 1, d);
            }
            let step_x = abs_dx * (MONSTER_STEP_MILLI as u64) / dist;
            let step_y = abs_dy * (MONSTER_STEP_MILLI as u64) / dist;
            if dx >= 0 {
                self.monster_x_milli = self.monster_x_milli + step_x as i64;
            } else {
                self.monster_x_milli = self.monster_x_milli - step_x as i64;
            }
            if dy >= 0 {
                self.monster_y_milli = self.monster_y_milli + step_y as i64;
            } else {
                self.monster_y_milli = self.monster_y_milli - step_y as i64;
            }
        }
        let ndx = px - self.monster_x_milli;
        let ndy = py - self.monster_y_milli;
        proof {
            assert(0 <= ndx * ndx <= 160_000_000_000i64 && 0 <= ndy * ndy
                <= 160_000_000_000i64) by (nonlinear_arith)
                requires
                    -400_000 <= ndx <= 400_000,
                    -400_000 <= ndy <= 400_000,
            ;
        }
        let caught = ndx * ndx + ndy * ndy < (KILL_DISTANCE as i64 * POSITION_SCALE) * (
        KILL_DISTANCE as i64 * POSITION_SCALE);
        if caught {
            self.phase = TvPhase::Ended { won: false };
        }
        caught
    }
}

} // verus!
