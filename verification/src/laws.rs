//! Library-wide laws, stated and proved once over the spec functions the
//! update contracts use.

use vstd::prelude::*;

use crate::frame::scroll_seq;
use crate::frame::scrolled_tile;
use crate::state::DESPAWN_Y;
use crate::state::GameState;
use crate::state::Tile;
use crate::state::is_fresh_state;

verus! {

/// How many player entities a state holds: the player lives in an `Option`,
/// so the count is zero or one by construction.
pub open spec fn player_count(s: GameState) -> nat {
    match s.player {
        Some(_) => 1nat,
        None => 0nat,
    }
}

/// In every reachable (indeed every representable) state, at most one
/// player entity exists.
pub proof fn lemma_at_most_one_player(s: GameState)
    ensures
        player_count(s) <= 1,
{
}

/// Restart is idempotent: any two states that satisfy the restart
/// postcondition for the same random draws agree on every observable field,
/// so a second restart signal (given the same draws) reproduces the state
/// the first one built, no matter what it started from.
pub proof fn lemma_restart_idempotent(
    a: GameState,
    b: GameState,
    x1: i64,
    x2: i64,
    x3: i64,
    gap: i64,
)
    requires
        is_fresh_state(a, x1, x2, x3, gap),
        is_fresh_state(b, x1, x2, x3, gap),
    ensures
        a.player == b.player,
        a.tiles@ == b.tiles@,
        a.score == b.score,
        a.next_gap == b.next_gap,
        a.death_marker == b.death_marker,
        a.score_label@ == b.score_label@,
{
}

/// A tile that scrolls below the despawn line is removed the same frame:
/// every tile that survives a scroll pass sits at or above the line, so an
/// off-screen tile is never rendered or collided against.
pub proof fn lemma_no_offscreen_tiles(ts: Seq<Tile>, delta: int)
    ensures
        forall|i: int|
            0 <= i < scroll_seq(ts, delta).len() ==> #[trigger] scroll_seq(ts, delta)[i].y
                >= DESPAWN_Y,
    decreases ts.len(),
{
    if ts.len() > 0 {
        lemma_no_offscreen_tiles(ts.drop_last(), delta);
        let rest = scroll_seq(ts.drop_last(), delta);
        let t = scrolled_tile(ts.last(), delta);
        if t.y >= DESPAWN_Y {
            assert forall|i: int| 0 <= i < rest.push(t).len() implies rest.push(t)[i].y
                >= DESPAWN_Y by {
                if i < rest.len() {
                    assert(rest.push(t)[i] == rest[i]);
                } else {
                    assert(rest.push(t)[i] == t);
                }
            }
        }
    }
}

} // verus!
