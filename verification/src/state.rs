//! World state for the platformer: the player, the tiles, the score and the
//! spawn gap, together with the restart flow that rebuilds a fresh run.
//!
//! All geometry is fixed-point: one world unit is `SUBUNIT` subunits, and a
//! velocity is measured in subunits per millisecond. With frame deltas given
//! in whole milliseconds, every per-frame formula below is exact integer
//! arithmetic.

use vstd::prelude::*;

verus! {

/// Subunits per world unit. A world coordinate of 160 units is
/// `160 * SUBUNIT` subunits.
pub const SUBUNIT: i64 = 1_000_000_000;

/// Half of one world unit in subunits; used when rounding the score to the
/// nearest whole unit.
pub const HALF_SUBUNIT: i64 = 500_000_000;

/// Horizontal half-extent of the screen: the player wraps around past
/// `±HALF_WIDTH`.
pub const HALF_WIDTH: i64 = 160 * SUBUNIT;

/// Horizontal speed while a direction key is held: 500 units/second,
/// expressed in subunits per millisecond.
pub const HORIZONTAL_SPEED: i64 = 500_000_000;

/// Gravity: −900 units/second², expressed in subunits per millisecond per
/// millisecond.
pub const GRAVITY_PER_MS: i64 = -900_000;

/// Vertical velocity granted by a bounce: 500 units/second, in subunits per
/// millisecond.
pub const BOUNCE_SPEED: i64 = 500_000_000;

/// The ceiling: the player's y never rises above 0.
pub const CEILING_Y: i64 = 0;

/// Falling below this y destroys the player and ends the run.
pub const DEATH_Y: i64 = -256 * SUBUNIT;

/// A tile scrolled below this y is despawned the same frame.
pub const DESPAWN_Y: i64 = -265 * SUBUNIT;

/// New tiles spawn at this y.
pub const SPAWN_Y: i64 = 266 * SUBUNIT;

/// The tallest-surviving-tile scan starts from this height.
pub const MAX_HEIGHT_FLOOR: i64 = -256 * SUBUNIT;

/// Scrolling and scoring only run while the player's y is at least this.
pub const SCROLL_MIN_Y: i64 = -5 * SUBUNIT;

/// Tile x-positions are drawn uniformly from `[-TILE_X_LIMIT, TILE_X_LIMIT]`.
pub const TILE_X_LIMIT: i64 = 130 * SUBUNIT;

/// Smallest vertical gap before the next tile spawns.
pub const GAP_MIN: i64 = 90 * SUBUNIT;

/// Largest vertical gap before the next tile spawns.
pub const GAP_MAX: i64 = 140 * SUBUNIT;

/// The player respawns at x = 0, y = −195 units with zero velocity.
pub const START_Y: i64 = -195 * SUBUNIT;

/// Landing is detected while the player's bottom edge is within this band
/// (15 units) above tile-top contact.
pub const BOUNCE_BAND: i64 = 15 * SUBUNIT;

/// y of the initial tile directly below the player.
pub const TILE1_Y: i64 = -235 * SUBUNIT;

/// y of the second initial tile (120 units above the first).
pub const TILE2_Y: i64 = -115 * SUBUNIT;

/// y of the third initial tile.
pub const TILE3_Y: i64 = 5 * SUBUNIT;

/// y of the fourth initial tile.
pub const TILE4_Y: i64 = 125 * SUBUNIT;

/// Score gained per frame is the vertical velocity divided by 200
/// units-per-second; in these fixed-point units that is exactly
/// `SCORE_FACTOR` score-subunits per velocity subunit-per-millisecond.
pub const SCORE_FACTOR: i64 = 5;

/// Largest frame delta, in milliseconds, that the update routines accept;
/// keeps every intermediate product inside `i64`.
pub const MAX_FRAME_MS: u64 = 1_000_000;

/// Loose bound on coordinates, velocities and gaps (1000 world units);
/// keeps every intermediate product inside `i64`.
pub const COORD_LIMIT: i64 = 1000 * SUBUNIT;

/// Loose bound on the score accumulator; far below `i64::MAX` so one more
/// frame of accrual cannot overflow.
pub const SCORE_LIMIT: i64 = 4_000_000_000_000_000_000;

/// Largest half-extent (100 world units) a sprite bounding box may declare.
pub const HALF_EXTENT_LIMIT: i64 = 100 * SUBUNIT;

/// The player: position, vertical velocity and the sprite-facing flag.
#[derive(Clone, Copy, PartialEq, Eq, Structural, Debug)]
pub struct Player {
    /// Horizontal position in subunits.
    pub x: i64,
    /// Vertical position in subunits.
    pub y: i64,
    /// Vertical velocity in subunits per millisecond.
    pub vel: i64,
    /// True while the sprite faces right (the right key was held more
    /// recently than the left key).
    pub facing_right: bool,
}

/// A platform tile the player can bounce off.
#[derive(Clone, Copy, PartialEq, Eq, Structural, Debug)]
pub struct Tile {
    /// Horizontal position in subunits.
    pub x: i64,
    /// Vertical position in subunits.
    pub y: i64,
}

/// The whole mutable game state: at most one player (an `Option` holds it,
/// so there can never be two), the live tiles, the score accumulator, the
/// distance until the next tile spawn, the death overlay flag, the rendered
/// score label, and the bounding-box half-extents the sprites were loaded
/// with.
pub struct GameState {
    /// The player entity, if one is alive.
    pub player: Option<Player>,
    /// All live tiles.
    pub tiles: Vec<Tile>,
    /// Score in score-subunits (`SUBUNIT` score-subunits per displayed
    /// point).
    pub score: i64,
    /// Vertical distance (subunits) that must accumulate before the next
    /// tile spawns.
    pub next_gap: i64,
    /// True while the "you died" overlay is shown.
    pub death_marker: bool,
    /// The rendered score text, always of the form `Score: {n}`.
    pub score_label: String,
    /// Player bounding-box half-extent in x, in subunits.
    pub player_half_x: i64,
    /// Player bounding-box half-extent in y, in subunits.
    pub player_half_y: i64,
    /// Tile bounding-box half-extent in x, in subunits.
    pub tile_half_x: i64,
    /// Tile bounding-box half-extent in y, in subunits.
    pub tile_half_y: i64,
}

/// The decimal digit character for `d` (only meaningful for `d < 10`).
pub open spec fn digit_char(d: nat) -> char {
    if d == 0 { '0' }
    else if d == 1 { '1' }
    else if d == 2 { '2' }
    else if d == 3 { '3' }
    else if d == 4 { '4' }
    else if d == 5 { '5' }
    else if d == 6 { '6' }
    else if d == 7 { '7' }
    else if d == 8 { '8' }
    else { '9' }
}

/// The decimal digits of `n`, most significant first, with no sign and no
/// leading zeros (a single `'0'` for zero).
pub open spec fn decimal_chars(n: nat) -> Seq<char>
    decreases n,
{
    if n < 10 {
        seq![digit_char(n)]
    } else {
        decimal_chars(n / 10).push(digit_char(n % 10))
    }
}

/// The characters of the score label for a displayed value of `n`.
pub open spec fn label_chars(n: nat) -> Seq<char> {
    "Score: "@ + decimal_chars(n)
}

/// A coordinate, velocity or gap small enough that every per-frame product
/// stays inside `i64`.
pub open spec fn coord_ok(c: int) -> bool {
    -COORD_LIMIT <= c <= COORD_LIMIT
}

/// Player fields within the loose arithmetic bounds.
pub open spec fn player_bounded(p: Player) -> bool {
    coord_ok(p.x as int) && coord_ok(p.y as int) && coord_ok(p.vel as int)
}

/// Tile fields within the loose arithmetic bounds.
pub open spec fn tile_bounded(t: Tile) -> bool {
    coord_ok(t.x as int) && coord_ok(t.y as int)
}

/// A half-extent is a non-negative length of at most `HALF_EXTENT_LIMIT`.
pub open spec fn half_extent_ok(h: int) -> bool {
    0 <= h <= HALF_EXTENT_LIMIT
}

/// The four initial tiles of a fresh run: one directly below the player,
/// then three spaced 120 units apart with the given random x-positions.
pub open spec fn fresh_tiles(x1: i64, x2: i64, x3: i64) -> Seq<Tile> {
    seq![
        (Tile { x: 0, y: TILE1_Y }),
        (Tile { x: x1, y: TILE2_Y }),
        (Tile { x: x2, y: TILE3_Y }),
        (Tile { x: x3, y: TILE4_Y }),
    ]
}

/// The canonical fresh state a restart produces, given the random tile
/// x-positions and the fresh spawn gap: player at (0, −195 units) with zero
/// velocity, exactly the four initial tiles, score zero, no death overlay,
/// and the label reading `Score: 0`.
pub open spec fn is_fresh_state(s: GameState, x1: i64, x2: i64, x3: i64, gap: i64) -> bool {
    &&& s.player == Some((Player { x: 0, y: START_Y, vel: 0, facing_right: false }))
    &&& s.tiles@ == fresh_tiles(x1, x2, x3)
    &&& s.score == 0
    &&& s.next_gap == gap
    &&& !s.death_marker
    &&& s.score_label@ == label_chars(0)
}

impl GameState {
    /// Every field inside the loose arithmetic bounds; the update routines
    /// require this so their fixed-point products cannot overflow.
    pub open spec fn bounded(&self) -> bool {
        &&& match self.player {
            Some(p) => player_bounded(p),
            None => true,
        }
        &&& forall|i: int| 0 <= i < self.tiles@.len() ==> tile_bounded(#[trigger] self.tiles@[i])
        &&& 0 <= self.score <= SCORE_LIMIT
        &&& 0 <= self.next_gap <= COORD_LIMIT
        &&& half_extent_ok(self.player_half_x as int)
        &&& half_extent_ok(self.player_half_y as int)
        &&& half_extent_ok(self.tile_half_x as int)
        &&& half_extent_ok(self.tile_half_y as int)
    }

    /// A state with no entities yet, as the world looks right before the
    /// boot-time restart signal: no player, no tiles, score zero, the given
    /// spawn gap, and the label reading `Score: 0`. The half-extents come
    /// from the sprites the caller loaded.
    pub fn new_with(
        player_half_x: i64,
        player_half_y: i64,
        tile_half_x: i64,
        tile_half_y: i64,
        gap: i64,
    ) -> (s: GameState)
        requires
            half_extent_ok(player_half_x as int),
            half_extent_ok(player_half_y as int),
            half_extent_ok(tile_half_x as int),
            half_extent_ok(tile_half_y as int),
            GAP_MIN <= gap <= GAP_MAX,
        ensures
            s.player is None,
            s.tiles@.len() == 0,
            s.score == 0,
            s.next_gap == gap,
            !s.death_marker,
            s.score_label@ == label_chars(0),
            s.player_half_x == player_half_x,
            s.player_half_y == player_half_y,
            s.tile_half_x == tile_half_x,
            s.tile_half_y == tile_half_y,
            s.bounded(),
    {
        GameState {
            player: None,
            tiles: Vec::new(),
            score: 0,
            next_gap: gap,
            death_marker: false,
            score_label: render_label(0),
            player_half_x,
            player_half_y,
            tile_half_x,
            tile_half_y,
        }
    }

    /// A state with no entities and a freshly drawn spawn gap. The initial
    /// gap is drawn from the half-open range `[GAP_MIN, GAP_MAX)`; every
    /// later redraw uses the closed range (the asymmetry is deliberate and
    /// observable).
    pub fn new(
        player_half_x: i64,
        player_half_y: i64,
        tile_half_x: i64,
        tile_half_y: i64,
    ) -> (s: GameState)
        requires
            half_extent_ok(player_half_x as int),
            half_extent_ok(player_half_y as int),
            half_extent_ok(tile_half_x as int),
            half_extent_ok(tile_half_y as int),
        ensures
            s.player is None,
            s.tiles@.len() == 0,
            s.score == 0,
            GAP_MIN <= s.next_gap < GAP_MAX,
            !s.death_marker,
            s.score_label@ == label_chars(0),
            s.player_half_x == player_half_x,
            s.player_half_y == player_half_y,
            s.tile_half_x == tile_half_x,
            s.tile_half_y == tile_half_y,
            s.bounded(),
    {
        let gap: i64 = draw_in_range(GAP_MIN, GAP_MAX - 1);
        GameState::new_with(player_half_x, player_half_y, tile_half_x, tile_half_y, gap)
    }

    /// Rebuild the run from the given random draws: the three upper initial
    /// tile x-positions and the fresh spawn gap. Every field except the
    /// sprite half-extents is overwritten, so the result does not depend on
    /// the state being restarted.
    pub fn restart_with(&mut self, x1: i64, x2: i64, x3: i64, gap: i64)
        requires
            -TILE_X_LIMIT <= x1 <= TILE_X_LIMIT,
            -TILE_X_LIMIT <= x2 <= TILE_X_LIMIT,
            -TILE_X_LIMIT <= x3 <= TILE_X_LIMIT,
            GAP_MIN <= gap <= GAP_MAX,
        ensures
            is_fresh_state(*final(self), x1, x2, x3, gap),
            final(self).player_half_x == old(self).player_half_x,
            final(self).player_half_y == old(self).player_half_y,
            final(self).tile_half_x == old(self).tile_half_x,
            final(self).tile_half_y == old(self).tile_half_y,
            old(self).bounded() ==> final(self).bounded(),
    {
        self.player = Some(Player { x: 0, y: START_Y, vel: 0, facing_right: false });
        let mut tiles: Vec<Tile> = Vec::new();
        tiles.push(Tile { x: 0, y: TILE1_Y });
        tiles.push(Tile { x: x1, y: TILE2_Y });
        tiles.push(Tile { x: x2, y: TILE3_Y });
        tiles.push(Tile { x: x3, y: TILE4_Y });
        self.tiles = tiles;
        self.score = 0;
        self.next_gap = gap;
        self.score_label = render_label(0);
        self.death_marker = false;
        proof {
            assert(self.tiles@ =~= fresh_tiles(x1, x2, x3));
        }
    }

    /// Handle a restart signal: remove the player and all tiles, respawn the
    /// player at (0, −195 units) with zero velocity, lay out the four
    /// initial tiles (the lowest at x = 0, the rest at random x), reset the
    /// score and its label, redraw the spawn gap, and clear the death
    /// overlay.
    pub fn restart(&mut self)
        ensures
            exists|x1: i64, x2: i64, x3: i64, gap: i64|
                #![auto]
                -TILE_X_LIMIT <= x1 <= TILE_X_LIMIT && -TILE_X_LIMIT <= x2 <= TILE_X_LIMIT
                    && -TILE_X_LIMIT <= x3 <= TILE_X_LIMIT && GAP_MIN <= gap <= GAP_MAX
                    && is_fresh_state(*final(self), x1, x2, x3, gap),
            final(self).player == Some((Player { x: 0, y: START_Y, vel: 0, facing_right: false })),
            final(self).tiles@.len() == 4,
            final(self).tiles@[0] == (Tile { x: 0, y: TILE1_Y }),
            final(self).tiles@[1].y == TILE2_Y,
            final(self).tiles@[2].y == TILE3_Y,
            final(self).tiles@[3].y == TILE4_Y,
            forall|i: int| 0 <= i < 4 ==> -TILE_X_LIMIT <= #[trigger] final(self).tiles@[i].x <= TILE_X_LIMIT,
            final(self).score == 0,
            GAP_MIN <= final(self).next_gap <= GAP_MAX,
            !final(self).death_marker,
            final(self).score_label@ == label_chars(0),
            final(self).player_half_x == old(self).player_half_x,
            final(self).player_half_y == old(self).player_half_y,
            final(self).tile_half_x == old(self).tile_half_x,
            final(self).tile_half_y == old(self).tile_half_y,
            old(self).bounded() ==> final(self).bounded(),
    {
        let x1: i64 = draw_in_range(-TILE_X_LIMIT, TILE_X_LIMIT);
        let x2: i64 = draw_in_range(-TILE_X_LIMIT, TILE_X_LIMIT);
        let x3: i64 = draw_in_range(-TILE_X_LIMIT, TILE_X_LIMIT);
        let gap: i64 = draw_in_range(GAP_MIN, GAP_MAX);
        self.restart_with(x1, x2, x3, gap);
    }
}

/// The fixed two-line overlay shown when the player dies.
pub fn death_overlay_text() -> (s: &'static str)
    ensures
        s@ == "You died.\nPress `R` to restart."@,
{
    "You died.\nPress `R` to restart."
}

/// Edge detection for the restart key: the signal fires exactly when the key
/// is down this frame and was not down the previous frame.
pub fn restart_requested(was_down: bool, is_down: bool) -> (r: bool)
    ensures
        r == (is_down && !was_down),
{
    is_down && !was_down
}

/// Relies on `rand::rng` and `rand::Rng::random_range` on an inclusive
/// `i64` range: the draw lies within the given bounds. The call panics only
/// on an empty range, which the precondition rules out.
#[verifier::external_body]
pub(crate) fn draw_in_range(lo: i64, hi: i64) -> (r: i64)
    requires
        lo <= hi,
    ensures
        lo <= r <= hi,
{
    rand::Rng::random_range(&mut rand::rng(), lo..=hi)
}

/// Relies on `format!` with std's `Display` for `u64`: the rendered text is
/// the prefix `Score: ` followed by the decimal digits of `n`, with no sign,
/// no padding and no leading zeros.
#[verifier::external_body]
pub(crate) fn render_label(n: u64) -> (s: String)
    ensures
        s@ == label_chars(n as nat),
{
    format!("Score: {}", n)
}

} // verus!
