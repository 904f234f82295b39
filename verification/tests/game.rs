//! End-to-end tests of the game core: restart, movement, wraparound, death,
//! bounce, scrolling, spawn cadence and score accrual.

use doodle_jump::state::{
    death_overlay_text, restart_requested, GameState, Player, Tile, BOUNCE_SPEED, SUBUNIT,
};

/// One world unit in subunits.
const U: i64 = SUBUNIT;

/// A state with typical sprite half-extents and no entities.
fn base_state() -> GameState {
    GameState::new_with(20 * U, 20 * U, 30 * U, 5 * U, 100 * U)
}

fn with_player(x: i64, y: i64, vel: i64) -> GameState {
    let mut s = base_state();
    s.player = Some(Player {
        x,
        y,
        vel,
        facing_right: false,
    });
    s
}

#[test]
fn fresh_state_after_restart() {
    let mut s = base_state();
    s.death_marker = true;
    s.score = 7 * U;
    s.restart();
    assert_eq!(s.score, 0);
    assert_eq!(
        s.player,
        Some(Player {
            x: 0,
            y: -195 * U,
            vel: 0,
            facing_right: false
        })
    );
    assert_eq!(s.tiles.len(), 4);
    assert_eq!(s.tiles[0], Tile { x: 0, y: -235 * U });
    assert_eq!(s.tiles[1].y, -115 * U);
    assert_eq!(s.tiles[2].y, 5 * U);
    assert_eq!(s.tiles[3].y, 125 * U);
    for t in &s.tiles {
        assert!(-130 * U <= t.x && t.x <= 130 * U);
    }
    assert!(90 * U <= s.next_gap && s.next_gap <= 140 * U);
    assert!(!s.death_marker);
    assert_eq!(s.score_label, "Score: 0");
}

#[test]
fn restart_with_is_deterministic() {
    let mut a = base_state();
    let mut b = with_player(50 * U, -30 * U, 200_000_000);
    b.death_marker = true;
    b.score = 3 * U;
    a.restart_with(10 * U, -20 * U, 30 * U, 95 * U);
    b.restart_with(10 * U, -20 * U, 30 * U, 95 * U);
    assert_eq!(a.player, b.player);
    assert_eq!(a.tiles, b.tiles);
    assert_eq!(a.score, b.score);
    assert_eq!(a.next_gap, b.next_gap);
    assert_eq!(a.death_marker, b.death_marker);
    assert_eq!(a.score_label, b.score_label);
    assert_eq!(
        a.tiles,
        vec![
            Tile { x: 0, y: -235 * U },
            Tile { x: 10 * U, y: -115 * U },
            Tile { x: -20 * U, y: 5 * U },
            Tile { x: 30 * U, y: 125 * U },
        ]
    );
}

#[test]
fn restart_twice_matches_restart_once() {
    let mut s = base_state();
    s.restart_with(1 * U, 2 * U, 3 * U, 100 * U);
    let mut once = base_state();
    once.restart_with(4 * U, 5 * U, 6 * U, 110 * U);
    // A second signal with the same draws reproduces the single-restart state.
    s.restart_with(4 * U, 5 * U, 6 * U, 110 * U);
    assert_eq!(s.player, once.player);
    assert_eq!(s.tiles, once.tiles);
    assert_eq!(s.score, once.score);
    assert_eq!(s.next_gap, once.next_gap);
    assert_eq!(s.death_marker, once.death_marker);
    assert_eq!(s.score_label, once.score_label);
}

#[test]
fn new_draws_initial_gap_half_open() {
    let s = GameState::new(20 * U, 20 * U, 30 * U, 5 * U);
    assert!(s.player.is_none());
    assert!(s.tiles.is_empty());
    assert_eq!(s.score, 0);
    assert!(90 * U <= s.next_gap && s.next_gap < 140 * U);
    assert!(!s.death_marker);
    assert_eq!(s.score_label, "Score: 0");
}

#[test]
fn wraparound_right_edge() {
    let mut s = with_player(161 * U, -100 * U, 0);
    s.update_player(false, false, 0);
    assert_eq!(s.player.unwrap().x, -160 * U);
}

#[test]
fn wraparound_left_edge() {
    let mut s = with_player(-161 * U, -100 * U, 0);
    s.update_player(false, false, 0);
    assert_eq!(s.player.unwrap().x, 160 * U);
}

#[test]
fn horizontal_movement_and_facing() {
    // Right key held for 100 ms moves 50 units right and faces right.
    let mut s = with_player(0, -100 * U, 0);
    s.update_player(false, true, 100);
    let p = s.player.unwrap();
    assert_eq!(p.x, 50 * U);
    assert!(p.facing_right);

    // Left key held for 100 ms moves 50 units left and faces left.
    let mut s = with_player(0, -100 * U, 0);
    s.update_player(true, false, 100);
    let p = s.player.unwrap();
    assert_eq!(p.x, -50 * U);
    assert!(!p.facing_right);

    // Both keys cancel the displacement; the right key wins the facing.
    let mut s = with_player(0, -100 * U, 0);
    s.update_player(true, true, 100);
    let p = s.player.unwrap();
    assert_eq!(p.x, 0);
    assert!(p.facing_right);
}

#[test]
fn gravity_integration() {
    // From rest, 100 ms of gravity gives −90 units/second and −9 units of y.
    let mut s = with_player(0, -100 * U, 0);
    s.update_player(false, false, 100);
    let p = s.player.unwrap();
    assert_eq!(p.vel, -90_000_000);
    assert_eq!(p.y, -109 * U);
}

#[test]
fn ceiling_clamp() {
    // An ascent that would cross y = 0 is clamped to the ceiling.
    let mut s = with_player(0, -1 * U, 500_000_000);
    s.update_player(false, false, 100);
    let p = s.player.unwrap();
    assert_eq!(p.y, 0);
    assert_eq!(p.vel, 410_000_000);
}

#[test]
fn death_below_threshold() {
    let mut s = with_player(0, -257 * U, 123_000_000);
    s.update_player(false, false, 0);
    assert!(s.player.is_none());
    assert!(s.death_marker);
    assert_eq!(death_overlay_text(), "You died.\nPress `R` to restart.");
}

#[test]
fn death_boundary_is_strict() {
    // Exactly −256 units is still alive.
    let mut s = with_player(0, -256 * U, 0);
    s.update_player(false, false, 0);
    assert!(s.player.is_some());
    assert!(!s.death_marker);
}

#[test]
fn bounce_on_landing() {
    // halfHeightSum = 10 + 5 = 15 units; yDiff = 14 lies in (0, 15].
    let mut s = with_player(0, -40 * U, -50_000_000);
    s.player_half_y = 10 * U;
    s.tiles.push(Tile { x: 0, y: -54 * U });
    s.update_player(false, false, 0);
    assert_eq!(s.player.unwrap().vel, BOUNCE_SPEED);
}

#[test]
fn bounce_band_upper_edge_inclusive() {
    // yDiff exactly equal to halfHeightSum still bounces.
    let mut s = with_player(0, -40 * U, -50_000_000);
    s.player_half_y = 10 * U;
    s.tiles.push(Tile { x: 0, y: -55 * U });
    s.update_player(false, false, 0);
    assert_eq!(s.player.unwrap().vel, BOUNCE_SPEED);
}

#[test]
fn bounce_band_lower_edge_exclusive() {
    // yDiff exactly equal to halfHeightSum − 15 does not bounce.
    let mut s = with_player(0, -40 * U, -50_000_000);
    s.player_half_y = 10 * U;
    s.tiles.push(Tile { x: 0, y: -40 * U });
    s.update_player(false, false, 0);
    assert_eq!(s.player.unwrap().vel, -50_000_000);
}

#[test]
fn bounce_needs_horizontal_overlap() {
    // |xDiff| must be under playerHalfX/2 + tileHalfX = 10 + 30 = 40 units.
    let mut s = with_player(0, -40 * U, -50_000_000);
    s.player_half_y = 10 * U;
    s.tiles.push(Tile { x: 40 * U, y: -54 * U });
    s.update_player(false, false, 0);
    assert_eq!(s.player.unwrap().vel, -50_000_000);

    let mut s = with_player(0, -40 * U, -50_000_000);
    s.player_half_y = 10 * U;
    s.tiles.push(Tile {
        x: 39 * U,
        y: -54 * U,
    });
    s.update_player(false, false, 0);
    assert_eq!(s.player.unwrap().vel, BOUNCE_SPEED);
}

#[test]
fn no_bounce_while_ascending() {
    // Same geometry as a landing, but the player is moving up.
    let mut s = with_player(0, -40 * U, 50_000_000);
    s.player_half_y = 10 * U;
    s.tiles.push(Tile { x: 0, y: -54 * U });
    s.update_player(false, false, 0);
    // Gravity is off (dt = 0), so the velocity is unchanged.
    assert_eq!(s.player.unwrap().vel, 50_000_000);
}

#[test]
fn tiles_scroll_with_ascent() {
    // 1 unit/second for 1000 ms scrolls every tile down one unit.
    let mut s = with_player(0, 0, 1_000_000);
    s.tiles.push(Tile { x: 0, y: 200 * U });
    s.tiles.push(Tile { x: 5 * U, y: 10 * U });
    s.next_gap = 140 * U;
    s.update_tiles(1000);
    assert_eq!(s.tiles[0], Tile { x: 0, y: 199 * U });
    assert_eq!(s.tiles[1], Tile { x: 5 * U, y: 9 * U });
    assert_eq!(s.tiles.len(), 2);
}

#[test]
fn tiles_do_not_scroll_while_falling() {
    let mut s = with_player(0, 0, -1_000_000);
    s.tiles.push(Tile { x: 0, y: 100 * U });
    s.update_tiles(1000);
    assert_eq!(s.tiles[0], Tile { x: 0, y: 100 * U });
}

#[test]
fn tiles_do_not_scroll_below_floor() {
    // The player is below the scroll floor of −5 units.
    let mut s = with_player(0, -6 * U, 1_000_000);
    s.tiles.push(Tile { x: 0, y: 100 * U });
    s.update_tiles(1000);
    assert_eq!(s.tiles[0], Tile { x: 0, y: 100 * U });
}

#[test]
fn offscreen_tile_despawns() {
    // A tile pushed below −265 units disappears the same frame; the other
    // tile survives and keeps the spawn gate shut.
    let mut s = with_player(0, 0, 1_000_000);
    s.tiles.push(Tile { x: 0, y: -265 * U });
    s.tiles.push(Tile { x: 0, y: 170 * U });
    s.next_gap = 100 * U;
    s.update_tiles(1000);
    assert_eq!(s.tiles.len(), 1);
    assert_eq!(s.tiles[0], Tile { x: 0, y: 169 * U });
}

#[test]
fn spawn_cadence() {
    // maxHeight 170: 266 − 170 = 96 < 100, so no spawn.
    let mut s = with_player(0, 0, 0);
    s.tiles.push(Tile { x: 0, y: 170 * U });
    s.next_gap = 100 * U;
    s.update_tiles(0);
    assert_eq!(s.tiles.len(), 1);
    assert_eq!(s.next_gap, 100 * U);

    // maxHeight 166: 266 − 166 = 100 >= 100, so exactly one tile spawns at
    // the spawn line and the gap is redrawn.
    let mut s = with_player(0, 0, 0);
    s.tiles.push(Tile { x: 0, y: 166 * U });
    s.next_gap = 100 * U;
    s.update_tiles(0);
    assert_eq!(s.tiles.len(), 2);
    assert_eq!(s.tiles[1].y, 266 * U);
    assert!(-130 * U <= s.tiles[1].x && s.tiles[1].x <= 130 * U);
    assert!(90 * U <= s.next_gap && s.next_gap <= 140 * U);
}

#[test]
fn score_accrual_exact() {
    // 400 units/second adds exactly 2.0 points in one frame.
    let mut s = with_player(0, 0, 400_000_000);
    s.update_score();
    assert_eq!(s.score, 2 * U);
    assert_eq!(s.score_label, "Score: 2");
}

#[test]
fn score_display_rounds_to_nearest() {
    // 0.4 points displays as 0; another 0.5 lands on 0.9, displaying 1.
    let mut s = with_player(0, 0, 80_000_000);
    s.update_score();
    assert_eq!(s.score, 400_000_000);
    assert_eq!(s.score_label, "Score: 0");
    s.player = Some(Player {
        x: 0,
        y: 0,
        vel: 100_000_000,
        facing_right: false,
    });
    s.update_score();
    assert_eq!(s.score, 900_000_000);
    assert_eq!(s.score_label, "Score: 1");
}

#[test]
fn score_frozen_while_falling_or_low() {
    let mut s = with_player(0, 0, -1);
    s.score = 3 * U;
    s.update_score();
    assert_eq!(s.score, 3 * U);

    let mut s = with_player(0, -6 * U, 400_000_000);
    s.score = 3 * U;
    s.update_score();
    assert_eq!(s.score, 3 * U);
}

#[test]
fn updates_are_noops_without_player() {
    let mut s = base_state();
    s.tiles.push(Tile { x: 0, y: 100 * U });
    s.score = 2 * U;
    s.update_player(true, true, 16);
    s.update_tiles(16);
    s.update_score();
    assert!(s.player.is_none());
    assert_eq!(s.tiles.len(), 1);
    assert_eq!(s.tiles[0], Tile { x: 0, y: 100 * U });
    assert_eq!(s.score, 2 * U);
}

#[test]
fn restart_key_edge_detection() {
    assert!(restart_requested(false, true));
    assert!(!restart_requested(true, true));
    assert!(!restart_requested(false, false));
    assert!(!restart_requested(true, false));
}
