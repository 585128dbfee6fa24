//! The after-game consistency check: replay the public shot ledger against
//! the revealed grids. The reveal itself is never rejected; this check is
//! what makes a disagreement between a player's answers and their real
//! board detectable, and attributable, by any party.

use vstd::prelude::*;

use crate::bridge::check_shot_resolved;
use crate::circuits::RevealedBoards;
use crate::circuits::is_ship;
use crate::game::Game;
use crate::types::ComputationRequest;
use crate::types::HitOrMiss;
use crate::types::PlayerId;
use crate::types::Shot;
use crate::types::valid_coord;

verus! {

/// One ledger entry agrees with the revealed grids: the shot was recorded
/// a hit exactly when the targeted cell of the defender's grid holds a
/// ship. `p1` is player 0's identity; their shots land on the second grid,
/// every other player's on the first.
pub open spec fn shot_consistent(s: Shot, p1: PlayerId, boards: RevealedBoards) -> bool {
    let grid = if s.player == p1 {
        boards.p2_board
    } else {
        boards.p1_board
    };
    (s.result == HitOrMiss::Hit) <==> is_ship(grid, s.coord)
}

/// Every ledger entry agrees with the revealed grids.
pub open spec fn log_consistent(log: Seq<Shot>, p1: PlayerId, boards: RevealedBoards) -> bool {
    forall|i: int| 0 <= i < log.len() ==> shot_consistent(#[trigger] log[i], p1, boards)
}

/// Law: a correct service keeps the ledger auditable. If a session's
/// ledger agrees with a pair of grids, and a shot-check callback is
/// applied whose hit answer is the truth about the defender's grid in
/// that pair, then the grown ledger still agrees with the grids. A
/// service that answers every query from the boards behind the
/// commitments therefore leaves a ledger that the reveal will bear out.
pub proof fn lemma_honest_result_preserves_consistency(
    pre: Game,
    post: Game,
    offset: u64,
    is_hit: bool,
    ships_remaining: u8,
    boards: RevealedBoards,
)
    requires
        pre.inv(),
        check_shot_resolved(pre, post, offset, is_hit, ships_remaining),
        log_consistent(pre.shot_log@, pre.creator, boards),
        pre.pending_computation matches Some(ComputationRequest::CheckShot {
            target_player,
            coord,
            ..
        }) ==> is_hit == is_ship(
            if target_player == 1 {
                boards.p2_board
            } else {
                boards.p1_board
            },
            coord,
        ),
    ensures
        log_consistent(post.shot_log@, pre.creator, boards),
{
    let req = pre.pending_computation->0;
    match req {
        ComputationRequest::CheckShot { offset: o, target_player, coord } => {
            let shooter = crate::types::other_index(target_player as int);
            let s = (Shot {
                player: pre.player_id(shooter),
                coord,
                result: if is_hit {
                    HitOrMiss::Hit
                } else {
                    HitOrMiss::Miss
                },
            });
            assert(post.shot_log@ == pre.shot_log@.push(s));
            assert forall|i: int|
                0 <= i < post.shot_log@.len() implies shot_consistent(
                #[trigger] post.shot_log@[i],
                pre.creator,
                boards,
            ) by {
                if i < pre.shot_log@.len() {
                    assert(post.shot_log@[i] == pre.shot_log@[i]);
                    assert(shot_consistent(pre.shot_log@[i], pre.creator, boards));
                } else {
                    assert(post.shot_log@[i] == s);
                    if target_player == 1 {
                        assert(s.player == pre.creator);
                    } else {
                        assert(pre.challenger is Some);
                        assert(s.player == pre.challenger->0);
                        assert(s.player != pre.creator);
                    }
                }
            }
        },
        ComputationRequest::RevealBoards { .. } => {
            assert(false);
        },
    }
}

/// Replay the whole ledger against the revealed grids. The session is
/// clean exactly when every recorded hit lands on a ship cell of the
/// defender's grid and every recorded miss on a water cell.
pub fn audit_shots(log: &Vec<Shot>, p1: PlayerId, boards: &RevealedBoards) -> (ok: bool)
    requires
        forall|i: int| 0 <= i < log@.len() ==> valid_coord(#[trigger] log@[i].coord),
    ensures
        ok == log_consistent(log@, p1, *boards),
{
    let mut i: usize = 0;
    while i < log.len()
        invariant
            i <= log@.len(),
            forall|k: int| 0 <= k < log@.len() ==> valid_coord(#[trigger] log@[k].coord),
            forall|k: int| 0 <= k < i ==> shot_consistent(#[trigger] log@[k], p1, *boards),
        decreases log@.len() - i,
    {
        let s = log[i];
        let grid = if s.player == p1 {
            &boards.p2_board
        } else {
            &boards.p1_board
        };
        let cell = grid[s.coord.y as usize][s.coord.x as usize];
        if (s.result == HitOrMiss::Hit) != (cell == 1) {
            assert(!shot_consistent(log@[i as int], p1, *boards));
            return false;
        }
        i = i + 1;
    }
    true
}

} // verus!
