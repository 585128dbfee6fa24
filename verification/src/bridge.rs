//! The computation bridge: the request/callback lifecycle between the
//! synchronous, caller-authenticated state machine and the external
//! confidential-computation service.
//!
//! A request is recorded under a caller-chosen correlation offset; exactly
//! one request per session may be outstanding, and offsets are kept unique
//! process-wide while pending through an [`OffsetRegistry`] shared by every
//! session. The matching callback — and nothing else — clears the pending
//! marker and applies the public result to the session.

use vstd::prelude::*;

use crate::circuits::RevealedBoards;
use crate::game::Game;
use crate::game::flipped_turn;
use crate::game::no_duplicate_targets;
use crate::game::phase_edge;
use crate::game::shot_exists;
use crate::types::ComputationRequest;
use crate::types::Coordinate;
use crate::types::GameError;
use crate::types::GameState;
use crate::types::HitOrMiss;
use crate::types::Shot;
use crate::types::in_play;
use crate::types::is_terminal;
use crate::types::other_index;
use crate::types::turn_index;
use crate::types::valid_coord;
use crate::types::won_by;

verus! {

/// The offsets of every confidential computation still in flight, across
/// all sessions. Offsets must stay unique while pending, so a new request
/// is refused while its offset is registered here.
pub struct OffsetRegistry {
    pub active: Vec<u64>,
}

impl OffsetRegistry {
    /// No offset is registered twice.
    pub open spec fn wf(self) -> bool {
        forall|i: int, j: int|
            0 <= i < j < self.active@.len() ==> self.active@[i] != self.active@[j]
    }

    /// An empty registry: no computation is in flight.
    pub fn new() -> (r: OffsetRegistry)
        ensures
            r.active@ == Seq::<u64>::empty(),
            r.wf(),
    {
        let r = OffsetRegistry { active: Vec::new() };
        proof {
            assert(r.active@ =~= Seq::<u64>::empty());
        }
        r
    }
}

/// `offset` is registered as still in flight.
pub fn contains_offset(registry: &OffsetRegistry, offset: u64) -> (r: bool)
    ensures
        r == registry.active@.contains(offset),
{
    let mut i: usize = 0;
    while i < registry.active.len()
        invariant
            i <= registry.active@.len(),
            forall|k: int| 0 <= k < i ==> registry.active@[k] != offset,
        decreases registry.active@.len() - i,
    {
        if registry.active[i] == offset {
            assert(registry.active@[i as int] == offset);
            return true;
        }
        i = i + 1;
    }
    false
}

/// The registry after a request's offset has been taken out of flight:
/// `offset` is gone, every other offset is untouched.
pub open spec fn registry_retired(pre: OffsetRegistry, post: OffsetRegistry, offset: u64) -> bool {
    &&& !post.active@.contains(offset)
    &&& forall|o: u64| o != offset ==> post.active@.contains(o) == pre.active@.contains(o)
}

/// Take `offset` out of flight, if it is registered.
pub fn retire_offset(registry: &mut OffsetRegistry, offset: u64)
    requires
        old(registry).wf(),
    ensures
        final(registry).wf(),
        registry_retired(*old(registry), *final(registry), offset),
        !old(registry).active@.contains(offset) ==> *final(registry) == *old(registry),
{
    let mut i: usize = 0;
    while i < registry.active.len()
        invariant
            i <= registry.active@.len(),
            *registry == *old(registry),
            old(registry).wf(),
            forall|k: int| 0 <= k < i ==> registry.active@[k] != offset,
        decreases registry.active@.len() - i,
    {
        if registry.active[i] == offset {
            let ghost pre = registry.active@;
            let ghost ii = i as int;
            registry.active.remove(i);
            proof {
                let post = registry.active@;
                pre.remove_ensures(ii);
                assert(pre[ii] == offset);
                assert forall|o: u64| o != offset implies post.contains(o) == pre.contains(
                    o,
                ) by {
                    if pre.contains(o) {
                        let k = choose|k: int| 0 <= k < pre.len() && pre[k] == o;
                        if k < ii {
                            assert(post[k] == o);
                        } else {
                            assert(post[k - 1] == o);
                        }
                    }
                    if post.contains(o) {
                        let k = choose|k: int| 0 <= k < post.len() && post[k] == o;
                        if k < ii {
                            assert(pre[k] == o);
                        } else {
                            assert(pre[k + 1] == o);
                        }
                    }
                }
                assert(!post.contains(offset)) by {
                    if post.contains(offset) {
                        let k = choose|k: int| 0 <= k < post.len() && post[k] == offset;
                        if k < ii {
                            assert(pre[k] == offset);
                        } else {
                            assert(pre[k + 1] == offset);
                        }
                    }
                }
                assert forall|a: int, b: int|
                    0 <= a < b < post.len() implies post[a] != post[b] by {
                    let pa = if a < ii {
                        a
                    } else {
                        a + 1
                    };
                    let pb = if b < ii {
                        b
                    } else {
                        b + 1
                    };
                    assert(post[a] == pre[pa]);
                    assert(post[b] == pre[pb]);
                }
            }
            return;
        }
        i = i + 1;
    }
}

/// A shot-check request for `offset` is the pending computation.
pub open spec fn matches_check_shot(g: Game, offset: u64) -> bool {
    g.pending_computation matches Some(ComputationRequest::CheckShot { offset: o, .. }) && o
        == offset
}

/// A reveal request for `offset` is the pending computation.
pub open spec fn matches_reveal(g: Game, offset: u64) -> bool {
    g.pending_computation matches Some(ComputationRequest::RevealBoards { offset: o }) && o
        == offset
}

/// The session transition made by an accepted shot-check request: nothing
/// moves but the pending marker, which now carries the request aimed at
/// the current defender's board.
pub open spec fn check_shot_requested(pre: Game, post: Game, offset: u64, coord: Coordinate) -> bool {
    &&& pre.pending_computation is None
    &&& in_play(pre.game_state)
    &&& post == (Game {
        pending_computation: Some(
            ComputationRequest::CheckShot {
                offset,
                target_player: other_index(turn_index(pre.game_state)) as u8,
                coord,
            },
        ),
        ..pre
    })
}

/// The session transition made by the matching shot-check callback: the
/// pending marker is cleared, exactly one shot is appended, the turn
/// counter advances, and the phase either passes to the other player or —
/// when no ship cell of the defender remains — ends in the shooter's win.
pub open spec fn check_shot_resolved(
    pre: Game,
    post: Game,
    offset: u64,
    is_hit: bool,
    ships_remaining: u8,
) -> bool {
    &&& pre.pending_computation matches Some(ComputationRequest::CheckShot {
        offset: o,
        target_player,
        coord,
    })
    &&& o == offset
    &&& ({
        let shooter = other_index(target_player as int);
        let s = (Shot {
            player: pre.player_id(shooter),
            coord,
            result: if is_hit {
                HitOrMiss::Hit
            } else {
                HitOrMiss::Miss
            },
        });
        &&& post.shot_log@ == pre.shot_log@.push(s)
        &&& post.turn_number == pre.turn_number + 1
        &&& post.pending_computation is None
        &&& post.game_state == (if ships_remaining == 0 {
            won_by(shooter)
        } else {
            flipped_turn(pre.game_state)
        })
        &&& post.game_seed == pre.game_seed
        &&& post.creator == pre.creator
        &&& post.challenger == pre.challenger
        &&& post.board_0 == pre.board_0
        &&& post.board_1 == pre.board_1
        &&& post.log_capacity == pre.log_capacity
        &&& post.revealed_boards == pre.revealed_boards
    })
}

/// The shot-check half of the round trip: a request always clears, and a
/// matching callback always applies, exactly one pending computation.
/// From an accepted request and its matching callback, the session ends
/// with no pending computation and exactly one shot appended.
pub proof fn lemma_check_shot_round_trip(
    g0: Game,
    g1: Game,
    g2: Game,
    offset: u64,
    coord: Coordinate,
    is_hit: bool,
    ships_remaining: u8,
)
    requires
        check_shot_requested(g0, g1, offset, coord),
        check_shot_resolved(g1, g2, offset, is_hit, ships_remaining),
    ensures
        g2.pending_computation is None,
        g2.shot_log@.len() == g0.shot_log@.len() + 1,
        g2.shot_log@[g0.shot_log@.len() as int].coord == coord,
        g2.turn_number == g0.turn_number + 1,
{
}

/// Record a shot-check request against the current defender's board. The
/// state machine has already validated the caller, the turn, the target
/// and the ledger's room; the bridge enforces the at-most-one-pending rule
/// and the process-wide uniqueness of offsets, then records the request it
/// emits.
pub fn request_check_shot(
    game: &mut Game,
    registry: &mut OffsetRegistry,
    offset: u64,
    coord: Coordinate,
) -> (r: Result<ComputationRequest, GameError>)
    requires
        in_play(old(game).game_state),
        valid_coord(coord),
        !shot_exists(
            old(game).shot_log@,
            old(game).player_id(turn_index(old(game).game_state)),
            coord,
        ),
        old(game).shot_log@.len() < old(game).log_capacity,
    ensures
        phase_edge(old(game).game_state, final(game).game_state),
        old(game).inv() ==> final(game).inv(),
        old(registry).wf() ==> final(registry).wf(),
        r is Err ==> *final(game) == *old(game) && *final(registry) == *old(registry),
        old(game).pending_computation is Some ==> r == Err::<ComputationRequest, GameError>(
            GameError::ComputationInProgress,
        ),
        old(game).pending_computation is None && old(registry).active@.contains(offset) ==> r
            == Err::<ComputationRequest, GameError>(GameError::DuplicateOffset),
        old(game).pending_computation is None && !old(registry).active@.contains(offset) ==> ({
            &&& r == Ok::<ComputationRequest, GameError>(
                ComputationRequest::CheckShot {
                    offset,
                    target_player: other_index(turn_index(old(game).game_state)) as u8,
                    coord,
                },
            )
            &&& check_shot_requested(*old(game), *final(game), offset, coord)
            &&& final(registry).active@ == old(registry).active@.push(offset)
        }),
{
    if game.pending_computation.is_some() {
        return Err(GameError::ComputationInProgress);
    }
    if contains_offset(registry, offset) {
        return Err(GameError::DuplicateOffset);
    }
    let target_player: u8 = if game.game_state == GameState::P1Turn {
        1
    } else {
        0
    };
    let request = ComputationRequest::CheckShot { offset, target_player, coord };
    game.pending_computation = Some(request);
    registry.active.push(offset);
    Ok(request)
}

/// Apply the public result of a shot-check computation. Only the callback
/// whose offset matches the pending shot-check request is accepted; it
/// appends the one resolved shot, advances the turn counter, retires the
/// offset and moves the phase — to the other player's turn, or to the
/// shooter's win when the defender has no ship cell left.
pub fn on_check_shot_result(
    game: &mut Game,
    registry: &mut OffsetRegistry,
    offset: u64,
    is_hit: bool,
    ships_remaining: u8,
) -> (r: Result<(), GameError>)
    requires
        old(game).inv(),
        old(registry).wf(),
    ensures
        final(game).inv(),
        final(registry).wf(),
        phase_edge(old(game).game_state, final(game).game_state),
        r is Err ==> *final(game) == *old(game) && *final(registry) == *old(registry),
        !matches_check_shot(*old(game), offset) ==> r == Err::<(), GameError>(
            GameError::UnknownOffset,
        ),
        matches_check_shot(*old(game), offset) ==> r == Ok::<(), GameError>(())
            && check_shot_resolved(*old(game), *final(game), offset, is_hit, ships_remaining)
            && registry_retired(*old(registry), *final(registry), offset),
{
    let req = match game.pending_computation {
        Some(r) => r,
        None => {
            return Err(GameError::UnknownOffset);
        },
    };
    let (target_player, coord) = match req {
        ComputationRequest::CheckShot { offset: o, target_player, coord } => {
            if o != offset {
                return Err(GameError::UnknownOffset);
            }
            (target_player, coord)
        },
        ComputationRequest::RevealBoards { .. } => {
            return Err(GameError::UnknownOffset);
        },
    };
    assert(target_player < 2);
    let shooter: u8 = 1 - target_player;
    assert(game.challenger is Some);
    let shooter_id = if shooter == 0 {
        game.creator
    } else {
        game.challenger.unwrap()
    };
    let shot = Shot {
        player: shooter_id,
        coord,
        result: if is_hit {
            HitOrMiss::Hit
        } else {
            HitOrMiss::Miss
        },
    };
    proof {
        let pre_log = game.shot_log@;
        let post_log = pre_log.push(shot);
        assert forall|i: int, j: int|
            0 <= i < j < post_log.len() implies !(#[trigger] post_log[i].player
            == #[trigger] post_log[j].player && post_log[i].coord == post_log[j].coord) by {
            if j < pre_log.len() {
                assert(post_log[i] == pre_log[i] && post_log[j] == pre_log[j]);
            } else {
                assert(post_log[j] == shot);
                assert(post_log[i] == pre_log[i]);
                if post_log[i].player == shot.player && post_log[i].coord == shot.coord {
                    assert(shot_exists(pre_log, shooter_id, coord));
                }
            }
        }
    }
    game.shot_log.push(shot);
    game.turn_number = game.turn_number + 1;
    game.pending_computation = None;
    game.game_state = if ships_remaining == 0 {
        if shooter == 0 {
            GameState::P1Won
        } else {
            GameState::P2Won
        }
    } else {
        if game.game_state == GameState::P1Turn {
            GameState::P2Turn
        } else {
            GameState::P1Turn
        }
    };
    retire_offset(registry, offset);
    Ok(())
}

/// Ask for the end-of-game reveal of both boards. Valid only once a
/// terminal phase is reached, once per session, with both commitments
/// present, no computation outstanding, and a fresh offset. Any party may
/// ask: the reveal serves whoever audits the session.
pub fn request_reveal(game: &mut Game, registry: &mut OffsetRegistry, offset: u64) -> (r: Result<
    ComputationRequest,
    GameError,
>)
    ensures
        phase_edge(old(game).game_state, final(game).game_state),
        old(game).inv() ==> final(game).inv(),
        old(registry).wf() ==> final(registry).wf(),
        r is Err ==> *final(game) == *old(game) && *final(registry) == *old(registry),
        !is_terminal(old(game).game_state) ==> r == Err::<ComputationRequest, GameError>(
            GameError::GameNotOver,
        ),
        is_terminal(old(game).game_state) && old(game).revealed_boards is Some ==> r == Err::<
            ComputationRequest,
            GameError,
        >(GameError::InvalidPhase),
        is_terminal(old(game).game_state) && old(game).revealed_boards is None && !old(
            game,
        ).both_submitted() ==> r == Err::<ComputationRequest, GameError>(
            GameError::BoardsNotSubmitted,
        ),
        is_terminal(old(game).game_state) && old(game).revealed_boards is None && old(
            game,
        ).both_submitted() && old(game).pending_computation is Some ==> r == Err::<
            ComputationRequest,
            GameError,
        >(GameError::ComputationInProgress),
        is_terminal(old(game).game_state) && old(game).revealed_boards is None && old(
            game,
        ).both_submitted() && old(game).pending_computation is None && old(
            registry,
        ).active@.contains(offset) ==> r == Err::<ComputationRequest, GameError>(
            GameError::DuplicateOffset,
        ),
        is_terminal(old(game).game_state) && old(game).revealed_boards is None && old(
            game,
        ).both_submitted() && old(game).pending_computation is None && !old(
            registry,
        ).active@.contains(offset) ==> ({
            &&& r == Ok::<ComputationRequest, GameError>(
                ComputationRequest::RevealBoards { offset },
            )
            &&& *final(game) == (Game {
                pending_computation: Some(ComputationRequest::RevealBoards { offset }),
                ..*old(game)
            })
            &&& final(registry).active@ == old(registry).active@.push(offset)
        }),
{
    if !(game.game_state == GameState::P1Won || game.game_state == GameState::P2Won) {
        return Err(GameError::GameNotOver);
    }
    if game.revealed_boards.is_some() {
        return Err(GameError::InvalidPhase);
    }
    if !(game.board_0.is_some() && game.board_1.is_some()) {
        return Err(GameError::BoardsNotSubmitted);
    }
    if game.pending_computation.is_some() {
        return Err(GameError::ComputationInProgress);
    }
    if contains_offset(registry, offset) {
        return Err(GameError::DuplicateOffset);
    }
    let request = ComputationRequest::RevealBoards { offset };
    game.pending_computation = Some(request);
    registry.active.push(offset);
    Ok(request)
}

/// Apply the published grids of the reveal computation. Only the callback
/// whose offset matches the pending reveal request is accepted; it stores
/// both grids, clears the pending marker and retires the offset. The
/// session is then fully closed.
pub fn on_reveal_result(
    game: &mut Game,
    registry: &mut OffsetRegistry,
    offset: u64,
    boards: RevealedBoards,
) -> (r: Result<(), GameError>)
    requires
        old(registry).wf(),
    ensures
        phase_edge(old(game).game_state, final(game).game_state),
        old(game).inv() ==> final(game).inv(),
        final(registry).wf(),
        r is Err ==> *final(game) == *old(game) && *final(registry) == *old(registry),
        !matches_reveal(*old(game), offset) ==> r == Err::<(), GameError>(GameError::UnknownOffset),
        matches_reveal(*old(game), offset) ==> r == Ok::<(), GameError>(()) && *final(game)
            == (Game {
            pending_computation: None,
            revealed_boards: Some(boards),
            ..*old(game)
        }) && registry_retired(*old(registry), *final(registry), offset),
{
    let matched = match game.pending_computation {
        Some(ComputationRequest::RevealBoards { offset: o }) => o == offset,
        _ => false,
    };
    if !matched {
        return Err(GameError::UnknownOffset);
    }
    game.pending_computation = None;
    game.revealed_boards = Some(boards);
    retire_offset(registry, offset);
    Ok(())
}

} // verus!
