//! The session state machine: one `Game` per match, the authority that
//! gates every player-facing operation by current phase, validates caller
//! identity and turn order, and drives the phase transitions.

use vstd::prelude::*;

use crate::circuits::RevealedBoards;
use crate::types::ComputationRequest;
use crate::types::Coordinate;
use crate::types::EncryptedBoard;
use crate::types::GameError;
use crate::types::GameState;
use crate::types::PlayerId;
use crate::types::Shot;
use crate::types::in_play;
use crate::types::is_terminal;
use crate::types::other_index;
use crate::types::turn_index;
use crate::types::valid_coord;
use crate::types::won_by;
use crate::types::BOARD_SIDE;

verus! {

/// `shooter` has already fired at `c`: some ledger entry carries both.
pub open spec fn shot_exists(log: Seq<Shot>, shooter: PlayerId, c: Coordinate) -> bool {
    exists|i: int| 0 <= i < log.len() && log[i].player == shooter && log[i].coord == c
}

/// No two ledger entries share a firing player and a coordinate. With two
/// players, each of whom only ever fires at the other's board, this is the
/// same as saying that no two entries share a coordinate and a targeted
/// player.
pub open spec fn no_duplicate_targets(log: Seq<Shot>) -> bool {
    forall|i: int, j: int|
        0 <= i < j < log.len() ==> !(#[trigger] log[i].player == #[trigger] log[j].player
            && log[i].coord == log[j].coord)
}

/// The phase either stays put or moves along one edge of the state
/// diagram: a session is joined, both boards arrive, the turn passes back
/// and forth, or an in-play phase ends in a win (by shots or by forfeit).
pub open spec fn phase_edge(pre: GameState, post: GameState) -> bool {
    ||| post == pre
    ||| (pre == GameState::AwaitingPlayer && post == GameState::BoardSetup)
    ||| (pre == GameState::BoardSetup && post == GameState::P1Turn)
    ||| (in_play(pre) && in_play(post) && post != pre)
    ||| (in_play(pre) && is_terminal(post))
}

/// The turn after `s`, once a shot against the current defender resolves
/// without ending the game.
pub open spec fn flipped_turn(s: GameState) -> GameState
    recommends
        in_play(s),
{
    if s == GameState::P1Turn {
        GameState::P2Turn
    } else {
        GameState::P1Turn
    }
}

/// One session of the game, as the ledger stores it.
pub struct Game {
    /// The player-chosen nonce from which the session's address is derived.
    pub game_seed: u64,
    /// Player 0: the identity that created the session.
    pub creator: PlayerId,
    /// Player 1: empty until a second player joins.
    pub challenger: Option<PlayerId>,
    /// The state machine's current phase.
    pub game_state: GameState,
    /// Count of resolved shots, kept for audit ordering.
    pub turn_number: u64,
    /// Player 0's board commitment, once submitted.
    pub board_0: Option<EncryptedBoard>,
    /// Player 1's board commitment, once submitted.
    pub board_1: Option<EncryptedBoard>,
    /// The append-only ledger of resolved shots.
    pub shot_log: Vec<Shot>,
    /// The ledger's capacity bound, a deployment parameter fixed at
    /// creation.
    pub log_capacity: usize,
    /// The at-most-one outstanding confidential-computation request.
    pub pending_computation: Option<ComputationRequest>,
    /// Both plain grids, once the reveal computation has published them.
    pub revealed_boards: Option<RevealedBoards>,
}

impl Game {
    /// `p` is one of the session's players.
    pub open spec fn is_participant(self, p: PlayerId) -> bool {
        p == self.creator || self.challenger == Some(p)
    }

    /// The slot `p` occupies.
    pub open spec fn index_of(self, p: PlayerId) -> int
        recommends
            self.is_participant(p),
    {
        if p == self.creator {
            0int
        } else {
            1int
        }
    }

    /// The identity in slot `i`.
    pub open spec fn player_id(self, i: int) -> PlayerId
        recommends
            0 <= i < 2,
            i == 1 ==> self.challenger is Some,
    {
        if i == 0 {
            self.creator
        } else {
            self.challenger->0
        }
    }

    /// The board commitment in slot `i`.
    pub open spec fn board(self, i: int) -> Option<EncryptedBoard>
        recommends
            0 <= i < 2,
    {
        if i == 0 {
            self.board_0
        } else {
            self.board_1
        }
    }

    /// The player in slot `i` has committed a board.
    pub open spec fn board_submitted(self, i: int) -> bool
        recommends
            0 <= i < 2,
    {
        self.board(i) is Some
    }

    /// Both commitments are in.
    pub open spec fn both_submitted(self) -> bool {
        self.board_submitted(0) && self.board_submitted(1)
    }

    /// What must hold of a recorded pending request: a shot resolution is
    /// outstanding only in the defender-matching in-play phase, against a
    /// fresh cell, with room in the ledger; a reveal is outstanding only
    /// once the game is over and nothing has been published yet.
    pub open spec fn pending_wf(self, req: ComputationRequest) -> bool {
        match req {
            ComputationRequest::CheckShot { offset, target_player, coord } => {
                &&& in_play(self.game_state)
                &&& target_player < 2
                &&& other_index(target_player as int) == turn_index(self.game_state)
                &&& valid_coord(coord)
                &&& !shot_exists(
                    self.shot_log@,
                    self.player_id(turn_index(self.game_state)),
                    coord,
                )
                &&& self.shot_log@.len() < self.log_capacity
            },
            ComputationRequest::RevealBoards { offset } => {
                &&& is_terminal(self.game_state)
                &&& self.revealed_boards is None
            },
        }
    }

    /// Shots stand in the ledger in strict turn order: the creator fired
    /// the even entries, the joiner the odd ones, and in play the turn
    /// belongs to the player whose shot would come next. Callbacks arrive
    /// in request order — the turn-lock admits no overlap — so ledger
    /// order, request order and turn order are one and the same.
    pub open spec fn turn_order_kept(self) -> bool {
        &&& (in_play(self.game_state) ==> turn_index(self.game_state) == self.shot_log@.len() as int
            % 2)
        &&& (forall|i: int|
            0 <= i < self.shot_log@.len() ==> (#[trigger] self.shot_log@[i]).player
                == self.player_id(i % 2))
    }

    /// The session invariant. Every operation of the library preserves it,
    /// and `initialize_game` establishes it.
    pub open spec fn inv(self) -> bool {
        &&& (self.game_state == GameState::AwaitingPlayer <==> self.challenger is None)
        &&& (self.challenger matches Some(c) ==> c != self.creator)
        &&& (self.board_0 matches Some(b) ==> b.wf())
        &&& (self.board_1 matches Some(b) ==> b.wf())
        &&& (self.game_state == GameState::AwaitingPlayer ==> self.board_0 is None
            && self.board_1 is None)
        &&& (self.game_state == GameState::BoardSetup ==> !self.both_submitted())
        &&& (in_play(self.game_state) || is_terminal(self.game_state) ==> self.both_submitted())
        &&& (self.game_state == GameState::AwaitingPlayer || self.game_state
            == GameState::BoardSetup ==> self.shot_log@.len() == 0 && self.pending_computation
            is None && self.revealed_boards is None)
        &&& self.shot_log@.len() <= self.log_capacity
        &&& self.turn_number == self.shot_log@.len()
        &&& no_duplicate_targets(self.shot_log@)
        &&& (forall|i: int|
            0 <= i < self.shot_log@.len() ==> self.is_participant(
                #[trigger] self.shot_log@[i].player,
            ) && valid_coord(self.shot_log@[i].coord))
        &&& (self.pending_computation matches Some(req) ==> self.pending_wf(req))
        &&& (self.revealed_boards is Some ==> is_terminal(self.game_state))
        &&& self.turn_order_kept()
    }
}

/// Law: in every session the library builds, no two ledger entries share
/// a firing player and a coordinate — with two players, each of whom only
/// fires at the other's board, no two entries share a coordinate and a
/// targeted player. It is a conjunct of the invariant, which every
/// operation preserves.
pub proof fn lemma_ledger_no_duplicate_targets(g: Game)
    requires
        g.inv(),
    ensures
        no_duplicate_targets(g.shot_log@),
{
}

/// Which slot `caller` occupies, if any.
pub fn player_index(game: &Game, caller: PlayerId) -> (r: Option<u8>)
    ensures
        match r {
            Some(i) => i < 2 && game.is_participant(caller) && game.index_of(caller) == i as int,
            None => !game.is_participant(caller),
        },
{
    if caller == game.creator {
        Some(0)
    } else {
        match game.challenger {
            Some(c) => if c == caller {
                Some(1)
            } else {
                None
            },
            None => None,
        }
    }
}

/// `caller` has already fired at `c` in this session.
pub fn target_already_logged(game: &Game, caller: PlayerId, c: Coordinate) -> (r: bool)
    ensures
        r == shot_exists(game.shot_log@, caller, c),
{
    let mut i: usize = 0;
    while i < game.shot_log.len()
        invariant
            i <= game.shot_log@.len(),
            forall|k: int|
                0 <= k < i ==> !(game.shot_log@[k].player == caller && game.shot_log@[k].coord
                    == c),
        decreases game.shot_log@.len() - i,
    {
        let s = game.shot_log[i];
        if s.player == caller && s.coord.x == c.x && s.coord.y == c.y {
            assert(game.shot_log@[i as int].coord == c);
            return true;
        }
        i = i + 1;
    }
    false
}

/// Create a session: the caller becomes player 0, the phase starts at
/// `AwaitingPlayer`, and every other field is empty. The ledger's capacity
/// bound is fixed here, as a deployment parameter.
pub fn initialize_game(game_seed: u64, creator: PlayerId, log_capacity: usize) -> (g: Game)
    ensures
        g.game_seed == game_seed,
        g.creator == creator,
        g.challenger is None,
        g.game_state == GameState::AwaitingPlayer,
        g.turn_number == 0,
        g.board_0 is None,
        g.board_1 is None,
        g.shot_log@ == Seq::<Shot>::empty(),
        g.log_capacity == log_capacity,
        g.pending_computation is None,
        g.revealed_boards is None,
        g.inv(),
{
    let g = Game {
        game_seed,
        creator,
        challenger: None,
        game_state: GameState::AwaitingPlayer,
        turn_number: 0,
        board_0: None,
        board_1: None,
        shot_log: Vec::new(),
        log_capacity,
        pending_computation: None,
        revealed_boards: None,
    };
    proof {
        assert(g.shot_log@ =~= Seq::<Shot>::empty());
    }
    g
}

/// A second player takes slot 1. Valid only while the session awaits one;
/// the creator cannot join their own session; a taken slot stays taken. On
/// success the phase moves to `BoardSetup`.
pub fn join_game(game: &mut Game, caller: PlayerId) -> (r: Result<(), GameError>)
    ensures
        phase_edge(old(game).game_state, final(game).game_state),
        old(game).inv() ==> final(game).inv(),
        r is Err ==> *final(game) == *old(game),
        old(game).game_state != GameState::AwaitingPlayer ==> r == Err::<(), GameError>(
            GameError::InvalidPhase,
        ),
        old(game).game_state == GameState::AwaitingPlayer && caller == old(game).creator ==> r
            == Err::<(), GameError>(GameError::SelfJoin),
        old(game).game_state == GameState::AwaitingPlayer && caller != old(game).creator && old(
            game,
        ).challenger is Some ==> r == Err::<(), GameError>(GameError::SlotOccupied),
        old(game).game_state == GameState::AwaitingPlayer && caller != old(game).creator && old(
            game,
        ).challenger is None ==> r == Ok::<(), GameError>(()) && *final(game) == (Game {
            challenger: Some(caller),
            game_state: GameState::BoardSetup,
            ..*old(game)
        }),
{
    if game.game_state != GameState::AwaitingPlayer {
        return Err(GameError::InvalidPhase);
    }
    if caller == game.creator {
        return Err(GameError::SelfJoin);
    }
    if game.challenger.is_some() {
        return Err(GameError::SlotOccupied);
    }
    game.challenger = Some(caller);
    game.game_state = GameState::BoardSetup;
    Ok(())
}

/// A participant commits their encrypted board: one ciphertext per row,
/// the ephemeral public key and the nonce. Valid only during board setup,
/// and only once per player. When the second commitment arrives the phase
/// moves to player 0's turn.
pub fn submit_board(
    game: &mut Game,
    caller: PlayerId,
    encrypted_rows: Vec<Vec<u8>>,
    public_key: Vec<u8>,
    nonce: Vec<u8>,
) -> (r: Result<(), GameError>)
    requires
        encrypted_rows@.len() == BOARD_SIDE as int,
    ensures
        phase_edge(old(game).game_state, final(game).game_state),
        old(game).inv() ==> final(game).inv(),
        r is Err ==> *final(game) == *old(game),
        old(game).game_state != GameState::BoardSetup ==> r == Err::<(), GameError>(
            GameError::InvalidPhase,
        ),
        old(game).game_state == GameState::BoardSetup && !old(game).is_participant(caller) ==> r
            == Err::<(), GameError>(GameError::NotAParticipant),
        old(game).game_state == GameState::BoardSetup && old(game).is_participant(caller) && old(
            game,
        ).board_submitted(old(game).index_of(caller)) ==> r == Err::<(), GameError>(
            GameError::AlreadySubmitted,
        ),
        old(game).game_state == GameState::BoardSetup && old(game).is_participant(caller) && !old(
            game,
        ).board_submitted(old(game).index_of(caller)) ==> r == Ok::<(), GameError>(()) && ({
            let idx = old(game).index_of(caller);
            let b = (EncryptedBoard { rows: encrypted_rows, public_key, nonce });
            &&& final(game).board(idx) == Some(b)
            &&& final(game).board(other_index(idx)) == old(game).board(other_index(idx))
            &&& final(game).game_state == (if old(game).board_submitted(other_index(idx)) {
                GameState::P1Turn
            } else {
                GameState::BoardSetup
            })
            &&& final(game).game_seed == old(game).game_seed
            &&& final(game).creator == old(game).creator
            &&& final(game).challenger == old(game).challenger
            &&& final(game).turn_number == old(game).turn_number
            &&& final(game).shot_log == old(game).shot_log
            &&& final(game).log_capacity == old(game).log_capacity
            &&& final(game).pending_computation == old(game).pending_computation
            &&& final(game).revealed_boards == old(game).revealed_boards
        }),
{
    if game.game_state != GameState::BoardSetup {
        return Err(GameError::InvalidPhase);
    }
    let idx = match player_index(game, caller) {
        Some(i) => i,
        None => {
            return Err(GameError::NotAParticipant);
        },
    };
    let already = if idx == 0 {
        game.board_0.is_some()
    } else {
        game.board_1.is_some()
    };
    if already {
        return Err(GameError::AlreadySubmitted);
    }
    let board = EncryptedBoard { rows: encrypted_rows, public_key, nonce };
    if idx == 0 {
        game.board_0 = Some(board);
    } else {
        game.board_1 = Some(board);
    }
    if game.board_0.is_some() && game.board_1.is_some() {
        game.game_state = GameState::P1Turn;
    }
    Ok(())
}

/// A participant fires at a cell of the opponent's board. The shot is not
/// resolved here: on success a confidential-computation request against
/// the opponent's encrypted board is recorded and returned for emission,
/// and the phase stays put until the matching callback arrives. No second
/// shot is accepted while one is outstanding.
pub fn fire_shot(
    game: &mut Game,
    registry: &mut crate::bridge::OffsetRegistry,
    caller: PlayerId,
    computation_offset: u64,
    target_row: u8,
    target_col: u8,
) -> (r: Result<ComputationRequest, GameError>)
    requires
        target_row < BOARD_SIDE,
        target_col < BOARD_SIDE,
    ensures
        phase_edge(old(game).game_state, final(game).game_state),
        old(game).inv() ==> final(game).inv(),
        old(registry).wf() ==> final(registry).wf(),
        r is Err ==> *final(game) == *old(game) && *final(registry) == *old(registry),
        ({
            let pre = *old(game);
            let coord = (Coordinate { x: target_col, y: target_row });
            let my_turn = in_play(pre.game_state) && turn_index(pre.game_state) == pre.index_of(
                caller,
            );
            &&& (!pre.is_participant(caller) ==> r == Err::<ComputationRequest, GameError>(
                GameError::NotAParticipant,
            ))
            &&& (pre.is_participant(caller) && !my_turn ==> r == Err::<
                ComputationRequest,
                GameError,
            >(GameError::NotYourTurn))
            &&& (pre.is_participant(caller) && my_turn && shot_exists(pre.shot_log@, caller, coord)
                ==> r == Err::<ComputationRequest, GameError>(GameError::DuplicateTarget))
            &&& (pre.is_participant(caller) && my_turn && !shot_exists(
                pre.shot_log@,
                caller,
                coord,
            ) && pre.shot_log@.len() >= pre.log_capacity ==> r == Err::<
                ComputationRequest,
                GameError,
            >(GameError::LedgerFull))
            &&& (pre.is_participant(caller) && my_turn && !shot_exists(
                pre.shot_log@,
                caller,
                coord,
            ) && pre.shot_log@.len() < pre.log_capacity && pre.pending_computation is Some ==> r
                == Err::<ComputationRequest, GameError>(GameError::ComputationInProgress))
            &&& (pre.is_participant(caller) && my_turn && !shot_exists(
                pre.shot_log@,
                caller,
                coord,
            ) && pre.shot_log@.len() < pre.log_capacity && pre.pending_computation is None && old(
                registry,
            ).active@.contains(computation_offset) ==> r == Err::<ComputationRequest, GameError>(
                GameError::DuplicateOffset,
            ))
            &&& (pre.is_participant(caller) && my_turn && !shot_exists(
                pre.shot_log@,
                caller,
                coord,
            ) && pre.shot_log@.len() < pre.log_capacity && pre.pending_computation is None && !old(
                registry,
            ).active@.contains(computation_offset) ==> ({
                &&& r == Ok::<ComputationRequest, GameError>(
                    ComputationRequest::CheckShot {
                        offset: computation_offset,
                        target_player: other_index(pre.index_of(caller)) as u8,
                        coord,
                    },
                )
                &&& crate::bridge::check_shot_requested(
                    pre,
                    *final(game),
                    computation_offset,
                    coord,
                )
                &&& final(registry).active@ == old(registry).active@.push(computation_offset)
            }))
        }),
{
    let coord = Coordinate { x: target_col, y: target_row };
    let idx = match player_index(game, caller) {
        Some(i) => i,
        None => {
            return Err(GameError::NotAParticipant);
        },
    };
    let my_turn = (game.game_state == GameState::P1Turn && idx == 0) || (game.game_state
        == GameState::P2Turn && idx == 1);
    if !my_turn {
        return Err(GameError::NotYourTurn);
    }
    if target_already_logged(game, caller, coord) {
        return Err(GameError::DuplicateTarget);
    }
    if game.shot_log.len() >= game.log_capacity {
        return Err(GameError::LedgerFull);
    }
    proof {
        assert(game.player_id(turn_index(game.game_state)) == caller);
    }
    crate::bridge::request_check_shot(game, registry, computation_offset, coord)
}

/// A participant abandons an in-play session; the other player is declared
/// the winner. While a shot resolution is outstanding the session stays
/// suspended, so the forfeit too must wait for the callback.
pub fn forfeit(game: &mut Game, caller: PlayerId) -> (r: Result<(), GameError>)
    ensures
        phase_edge(old(game).game_state, final(game).game_state),
        old(game).inv() ==> final(game).inv(),
        r is Err ==> *final(game) == *old(game),
        !old(game).is_participant(caller) ==> r == Err::<(), GameError>(GameError::NotAParticipant),
        old(game).is_participant(caller) && !in_play(old(game).game_state) ==> r == Err::<(
            ),
            GameError,
        >(GameError::InvalidPhase),
        old(game).is_participant(caller) && in_play(old(game).game_state) && old(
            game,
        ).pending_computation is Some ==> r == Err::<(), GameError>(GameError::ComputationInProgress),
        old(game).is_participant(caller) && in_play(old(game).game_state) && old(
            game,
        ).pending_computation is None ==> r == Ok::<(), GameError>(()) && *final(game) == (Game {
            game_state: won_by(other_index(old(game).index_of(caller))),
            ..*old(game)
        }),
{
    let idx = match player_index(game, caller) {
        Some(i) => i,
        None => {
            return Err(GameError::NotAParticipant);
        },
    };
    if !(game.game_state == GameState::P1Turn || game.game_state == GameState::P2Turn) {
        return Err(GameError::InvalidPhase);
    }
    if game.pending_computation.is_some() {
        return Err(GameError::ComputationInProgress);
    }
    game.game_state = if idx == 0 {
        GameState::P2Won
    } else {
        GameState::P1Won
    };
    proof {
        if old(game).inv() {
            assert forall|i: int| 0 <= i < game.shot_log@.len() implies game.is_participant(
                #[trigger] game.shot_log@[i].player,
            ) && valid_coord(game.shot_log@[i].coord) by {
                assert(old(game).is_participant(old(game).shot_log@[i].player));
                assert(game.shot_log@[i] == old(game).shot_log@[i]);
            }
            assert(game.inv());
        }
    }
    Ok(())
}

} // verus!
