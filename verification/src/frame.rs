//! The per-frame update routines: player movement and collision, tile
//! scrolling and spawning, and score accrual. Each runs once per frame, in
//! that order, and is a no-op when its eligibility gate fails.

use vstd::prelude::*;

use crate::state::BOUNCE_BAND;
use crate::state::BOUNCE_SPEED;
use crate::state::CEILING_Y;
use crate::state::COORD_LIMIT;
use crate::state::DEATH_Y;
use crate::state::DESPAWN_Y;
use crate::state::GAP_MAX;
use crate::state::GAP_MIN;
use crate::state::GRAVITY_PER_MS;
use crate::state::GameState;
use crate::state::HALF_SUBUNIT;
use crate::state::HALF_WIDTH;
use crate::state::HORIZONTAL_SPEED;
use crate::state::MAX_FRAME_MS;
use crate::state::MAX_HEIGHT_FLOOR;
use crate::state::Player;
use crate::state::SCORE_FACTOR;
use crate::state::SCROLL_MIN_Y;
use crate::state::SPAWN_Y;
use crate::state::SUBUNIT;
use crate::state::TILE_X_LIMIT;
use crate::state::Tile;
use crate::state::draw_in_range;
use crate::state::label_chars;
use crate::state::render_label;
use crate::state::tile_bounded;

verus! {

/// Net horizontal direction for the held key pair: −1, 0 or +1. Both keys
/// held (or neither) cancel to zero.
pub open spec fn horizontal_dir(left: bool, right: bool) -> int {
    (if right { 1int } else { 0int }) - (if left { 1int } else { 0int })
}

/// The facing flag after reading input: the right key wins visually when
/// both are held, because it is evaluated after the left key.
pub open spec fn facing_after(prev: bool, left: bool, right: bool) -> bool {
    if right { true } else if left { false } else { prev }
}

/// Horizontal wraparound: crossing a side boundary teleports the player to
/// the opposite edge.
pub open spec fn wrapped_x(x: int) -> int {
    if x > HALF_WIDTH { -HALF_WIDTH as int } else if x < -HALF_WIDTH { HALF_WIDTH as int } else { x }
}

/// The player's x after input movement and wraparound.
pub open spec fn moved_x(p: Player, left: bool, right: bool, dt: u64) -> int {
    wrapped_x(p.x + horizontal_dir(left, right) * HORIZONTAL_SPEED * dt)
}

/// The vertical velocity after integrating gravity over the frame.
pub open spec fn vel_after_gravity(p: Player, dt: u64) -> int {
    p.vel + GRAVITY_PER_MS * dt
}

/// The player's y after integrating the new velocity, clamped at the
/// ceiling (y = 0).
pub open spec fn y_after_rise(p: Player, dt: u64) -> int {
    let y = p.y + vel_after_gravity(p, dt) * dt;
    if y >= CEILING_Y { CEILING_Y as int } else { y }
}

/// Whether the scroll-and-score gate is open: a player exists, is not
/// falling, and has not descended below the scroll floor.
pub open spec fn scroll_eligible(s: GameState) -> bool {
    match s.player {
        Some(p) => p.y >= SCROLL_MIN_Y && p.vel >= 0,
        None => false,
    }
}

/// The vertical velocity of the player, or 0 when none exists.
pub open spec fn player_vel(s: GameState) -> int {
    match s.player {
        Some(p) => p.vel as int,
        None => 0int,
    }
}

/// How far the world scrolls down this frame: the ascending player's
/// velocity integrated over the frame.
pub open spec fn scroll_delta(s: GameState, dt: u64) -> int {
    player_vel(s) * dt
}

/// One tile after the world scrolls down by `delta`.
pub open spec fn scrolled_tile(t: Tile, delta: int) -> Tile {
    Tile { x: t.x, y: (t.y - delta) as i64 }
}

/// The tile sequence after scrolling down by `delta`, with every tile that
/// ends below the despawn line removed, order otherwise kept.
pub open spec fn scroll_seq(ts: Seq<Tile>, delta: int) -> Seq<Tile>
    decreases ts.len(),
{
    if ts.len() == 0 {
        Seq::empty()
    } else {
        let rest = scroll_seq(ts.drop_last(), delta);
        let t = scrolled_tile(ts.last(), delta);
        if t.y < DESPAWN_Y {
            rest
        } else {
            rest.push(t)
        }
    }
}

/// The tallest tile height in a sequence, scanned from `MAX_HEIGHT_FLOOR`.
pub open spec fn max_height_seq(ts: Seq<Tile>) -> int
    decreases ts.len(),
{
    if ts.len() == 0 {
        MAX_HEIGHT_FLOOR as int
    } else {
        let m = max_height_seq(ts.drop_last());
        if ts.last().y > m { ts.last().y as int } else { m }
    }
}

/// The score accumulator after one eligible frame.
pub open spec fn score_after(s: GameState) -> int {
    s.score + SCORE_FACTOR * player_vel(s)
}

/// The score rounded to the nearest whole point, ties rounding up (the
/// score is never negative).
pub open spec fn display_score(score: int) -> int {
    (score + HALF_SUBUNIT) / (SUBUNIT as int)
}

impl GameState {
    /// Whether a player whose post-integration position is `(px, py)` is
    /// landing on tile `t`: descent is checked by the caller; here the
    /// vertical offset must sit in the narrow band just above tile-top
    /// contact, and the horizontal offset within half the player's
    /// half-width plus the tile's half-width.
    pub open spec fn landing_on(self, px: int, py: int, t: Tile) -> bool {
        let hhs = self.player_half_y + self.tile_half_y;
        let ydiff = py - t.y;
        let xdiff = px - t.x;
        &&& hhs - BOUNCE_BAND < ydiff
        &&& ydiff <= hhs
        &&& (if xdiff < 0 { -xdiff } else { xdiff }) < self.player_half_x / 2 + self.tile_half_x
    }

    /// Whether any tile catches a player at `(px, py)` this frame.
    pub open spec fn some_tile_catches(self, px: int, py: int) -> bool {
        exists|i: int|
            0 <= i < self.tiles@.len() && self.landing_on(px, py, #[trigger] self.tiles@[i])
    }

    /// Per-frame player update: horizontal input movement and wraparound,
    /// gravity and vertical integration with a ceiling clamp, death when
    /// the player ends below the death line (removing the player and
    /// raising the overlay), and otherwise a bounce to `BOUNCE_SPEED`
    /// whenever the descending player lands on some tile. A no-op when no
    /// player exists.
    pub fn update_player(&mut self, left: bool, right: bool, dt: u64)
        requires
            old(self).bounded(),
            dt <= MAX_FRAME_MS,
        ensures
            final(self).tiles == old(self).tiles,
            final(self).score == old(self).score,
            final(self).next_gap == old(self).next_gap,
            final(self).score_label == old(self).score_label,
            final(self).player_half_x == old(self).player_half_x,
            final(self).player_half_y == old(self).player_half_y,
            final(self).tile_half_x == old(self).tile_half_x,
            final(self).tile_half_y == old(self).tile_half_y,
            old(self).player is None ==> *final(self) == *old(self),
            old(self).player matches Some(p) ==> {
                let nx = moved_x(p, left, right, dt);
                let nv = vel_after_gravity(p, dt);
                let ny = y_after_rise(p, dt);
                &&& (ny < DEATH_Y ==> final(self).player is None && final(self).death_marker)
                &&& (ny >= DEATH_Y ==> {
                    &&& final(self).death_marker == old(self).death_marker
                    &&& final(self).player == Some(
                        (Player {
                            x: nx as i64,
                            y: ny as i64,
                            vel: if nv <= 0 && old(self).some_tile_catches(nx, ny) {
                                BOUNCE_SPEED
                            } else {
                                nv as i64
                            },
                            facing_right: facing_after(p.facing_right, left, right),
                        }),
                    )
                })
            },
    {
        let p: Player = match self.player {
            Some(p) => p,
            None => { return; },
        };
        let dti: i64 = dt as i64;

        // Horizontal movement and facing; the right key is read after the
        // left one, so it wins the facing tie.
        let mut dir: i64 = 0;
        let mut facing: bool = p.facing_right;
        if left {
            dir = dir - 1;
            facing = false;
        }
        if right {
            dir = dir + 1;
            facing = true;
        }
        proof {
            assert(-500_000_000_000_000 <= dir * HORIZONTAL_SPEED * dti
                && dir * HORIZONTAL_SPEED * dti <= 500_000_000_000_000) by (nonlinear_arith)
                requires
                    -1 <= dir && dir <= 1,
                    0 <= dti && dti <= 1_000_000,
                    HORIZONTAL_SPEED == 500_000_000,
            ;
            assert(dir == horizontal_dir(left, right));
        }
        let mut x: i64 = p.x + dir * HORIZONTAL_SPEED * dti;

        // Wrap around.
        if x > HALF_WIDTH {
            x = -HALF_WIDTH;
        } else if x < -HALF_WIDTH {
            x = HALF_WIDTH;
        }

        // Vertical movement: gravity, then integration, then the ceiling.
        let mut v: i64 = p.vel + GRAVITY_PER_MS * dti;
        proof {
            assert(-2_000_000_000_000_000_000 <= v * dti && v * dti <= 2_000_000_000_000_000_000)
                by (nonlinear_arith)
                requires
                    -2_000_000_000_000 <= v && v <= 2_000_000_000_000,
                    0 <= dti && dti <= 1_000_000,
            ;
        }
        let mut y: i64 = p.y + v * dti;
        if y >= CEILING_Y {
            y = CEILING_Y;
        }

        // Death: below the death line the player is removed and the
        // overlay raised.
        if y < DEATH_Y {
            self.player = None;
            self.death_marker = true;
            return;
        }

        // Collision: only a descending player can land on a tile; any
        // qualifying tile yields the same fixed bounce velocity.
        if v <= 0 {
            let ghost s0 = *self;
            let mut hit: bool = false;
            let n: usize = self.tiles.len();
            let mut i: usize = 0;
            while i < n
                invariant
                    n == s0.tiles@.len(),
                    *self == s0,
                    s0 == *old(self),
                    s0.bounded(),
                    0 <= i <= n,
                    x == moved_x(p, left, right, dt),
                    y == y_after_rise(p, dt),
                    -HALF_WIDTH <= x <= HALF_WIDTH,
                    DEATH_Y <= y <= CEILING_Y,
                    hit <==> exists|j: int|
                        0 <= j < i && s0.landing_on(x as int, y as int, #[trigger] s0.tiles@[j]),
                decreases n - i,
            {
                let t: Tile = self.tiles[i];
                let ydiff: i64 = y - t.y;
                let xdiff: i64 = x - t.x;
                let xabs: i64 = if xdiff < 0 { -xdiff } else { xdiff };
                let hhs: i64 = self.player_half_y + self.tile_half_y;
                let reach: i64 = self.player_half_x / 2 + self.tile_half_x;
                if ydiff > hhs - BOUNCE_BAND && ydiff <= hhs && xabs < reach {
                    hit = true;
                }
                i = i + 1;
            }
            if hit {
                v = BOUNCE_SPEED;
            }
        }

        self.player = Some(Player { x, y, vel: v, facing_right: facing });
    }

    /// Append one tile at the spawn line with the drawn x-position, and
    /// install the freshly drawn spawn gap. Everything else is untouched.
    pub fn apply_spawn(&mut self, x: i64, gap: i64)
        requires
            -TILE_X_LIMIT <= x <= TILE_X_LIMIT,
            GAP_MIN <= gap <= GAP_MAX,
        ensures
            final(self).tiles@ == old(self).tiles@.push((Tile { x, y: SPAWN_Y })),
            final(self).next_gap == gap,
            final(self).player == old(self).player,
            final(self).score == old(self).score,
            final(self).death_marker == old(self).death_marker,
            final(self).score_label == old(self).score_label,
            final(self).player_half_x == old(self).player_half_x,
            final(self).player_half_y == old(self).player_half_y,
            final(self).tile_half_x == old(self).tile_half_x,
            final(self).tile_half_y == old(self).tile_half_y,
    {
        self.tiles.push(Tile { x, y: SPAWN_Y });
        self.next_gap = gap;
    }

    /// Per-frame tile update: while the player is airborne and ascending,
    /// every tile scrolls down in lockstep with the ascent, tiles that end
    /// below the despawn line are removed the same frame, and once the gap
    /// between the spawn line and the tallest surviving tile reaches
    /// `next_gap` exactly one new tile spawns at the spawn line with a
    /// random x, after which the gap is redrawn. A no-op otherwise.
    pub fn update_tiles(&mut self, dt: u64)
        requires
            old(self).bounded(),
            dt <= MAX_FRAME_MS,
        ensures
            final(self).player == old(self).player,
            final(self).score == old(self).score,
            final(self).death_marker == old(self).death_marker,
            final(self).score_label == old(self).score_label,
            final(self).player_half_x == old(self).player_half_x,
            final(self).player_half_y == old(self).player_half_y,
            final(self).tile_half_x == old(self).tile_half_x,
            final(self).tile_half_y == old(self).tile_half_y,
            !scroll_eligible(*old(self)) ==> *final(self) == *old(self),
            scroll_eligible(*old(self)) ==> {
                let scrolled = scroll_seq(old(self).tiles@, scroll_delta(*old(self), dt));
                let mh = max_height_seq(scrolled);
                &&& (SPAWN_Y - mh < old(self).next_gap ==> final(self).tiles@ == scrolled
                    && final(self).next_gap == old(self).next_gap)
                &&& (SPAWN_Y - mh >= old(self).next_gap ==> {
                    &&& GAP_MIN <= final(self).next_gap <= GAP_MAX
                    &&& final(self).tiles@.len() == scrolled.len() + 1
                    &&& final(self).tiles@.drop_last() == scrolled
                    &&& final(self).tiles@.last().y == SPAWN_Y
                    &&& -TILE_X_LIMIT <= final(self).tiles@.last().x <= TILE_X_LIMIT
                })
            },
    {
        let p: Player = match self.player {
            Some(p) => p,
            None => { return; },
        };
        if p.y < SCROLL_MIN_Y || p.vel < 0 {
            return;
        }
        let dti: i64 = dt as i64;
        proof {
            assert(0 <= p.vel * dti && p.vel * dti <= 1_000_000_000_000_000_000)
                by (nonlinear_arith)
                requires
                    0 <= p.vel && p.vel <= 1_000_000_000_000,
                    0 <= dti && dti <= 1_000_000,
            ;
        }
        let delta: i64 = p.vel * dti;
        let ghost ts0 = self.tiles@;

        // Scroll every tile down, dropping the ones that leave the screen
        // and tracking the tallest survivor in the same pass.
        let n: usize = self.tiles.len();
        let mut kept: Vec<Tile> = Vec::new();
        let mut max_h: i64 = MAX_HEIGHT_FLOOR;
        let mut i: usize = 0;
        while i < n
            invariant
                n == ts0.len(),
                self.tiles@ == ts0,
                forall|j: int| 0 <= j < ts0.len() ==> tile_bounded(#[trigger] ts0[j]),
                0 <= i <= n,
                0 <= delta <= COORD_LIMIT * MAX_FRAME_MS,
                kept@ == scroll_seq(ts0.take(i as int), delta as int),
                max_h == max_height_seq(scroll_seq(ts0.take(i as int), delta as int)),
                MAX_HEIGHT_FLOOR <= max_h <= COORD_LIMIT,
            decreases n - i,
        {
            proof {
                assert(ts0.take(i + 1).drop_last() =~= ts0.take(i as int));
                assert(ts0.take(i + 1).last() == ts0[i as int]);
            }
            let t: Tile = self.tiles[i];
            let ny: i64 = t.y - delta;
            if ny >= DESPAWN_Y {
                let nt = Tile { x: t.x, y: ny };
                proof {
                    let prev = scroll_seq(ts0.take(i as int), delta as int);
                    assert(prev.push(nt).drop_last() =~= prev);
                    assert(prev.push(nt).last() == nt);
                }
                kept.push(nt);
                if ny > max_h {
                    max_h = ny;
                }
            }
            i = i + 1;
        }
        proof {
            assert(ts0.take(n as int) =~= ts0);
        }
        self.tiles = kept;

        // Spawn the next tile once enough vertical distance has opened up
        // above the tallest survivor, then redraw the gap (closed range).
        if SPAWN_Y - max_h >= self.next_gap {
            let x: i64 = draw_in_range(-TILE_X_LIMIT, TILE_X_LIMIT);
            let g: i64 = draw_in_range(GAP_MIN, GAP_MAX);
            self.apply_spawn(x, g);
        }
    }

    /// Per-frame score update: while the player is airborne and ascending,
    /// the score grows by the vertical velocity divided by 200
    /// units-per-second (a per-frame accrual, deliberately not scaled by
    /// the frame delta), and the label is re-rendered with the new score
    /// rounded to the nearest point. A no-op otherwise. The score never
    /// decreases here.
    pub fn update_score(&mut self)
        requires
            old(self).bounded(),
        ensures
            final(self).player == old(self).player,
            final(self).tiles == old(self).tiles,
            final(self).next_gap == old(self).next_gap,
            final(self).death_marker == old(self).death_marker,
            final(self).player_half_x == old(self).player_half_x,
            final(self).player_half_y == old(self).player_half_y,
            final(self).tile_half_x == old(self).tile_half_x,
            final(self).tile_half_y == old(self).tile_half_y,
            !scroll_eligible(*old(self)) ==> *final(self) == *old(self),
            scroll_eligible(*old(self)) ==> final(self).score == score_after(*old(self))
                && final(self).score_label@ == label_chars(
                display_score(score_after(*old(self))) as nat,
            ),
            final(self).score >= old(self).score,
    {
        let p: Player = match self.player {
            Some(p) => p,
            None => { return; },
        };
        if p.y < SCROLL_MIN_Y || p.vel < 0 {
            return;
        }
        self.score = self.score + SCORE_FACTOR * p.vel;
        let rounded: u64 = ((self.score as u64) + (HALF_SUBUNIT as u64)) / (SUBUNIT as u64);
        proof {
            assert(rounded == display_score(self.score as int));
        }
        self.score_label = render_label(rounded);
    }
}

} // verus!
