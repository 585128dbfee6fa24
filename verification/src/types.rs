//! Plain data carried by the protocol: identities, coordinates, shot
//! records, the session phases and the error taxonomy.

use vstd::prelude::*;

verus! {

/// A participant identity. It stands for the hosting ledger's
/// signature-authenticated signer key, of which the protocol reads nothing
/// but equality.
#[derive(Clone, Copy, PartialEq, Eq, Structural, Debug)]
pub struct PlayerId {
    pub key: u64,
}

/// A cell of the 8x8 grid; `x` is the column and `y` the row, both in
/// `[0, 7]`.
#[derive(Clone, Copy, PartialEq, Eq, Structural, Debug)]
pub struct Coordinate {
    pub x: u8,
    pub y: u8,
}

/// The side length of the square board.
pub const BOARD_SIDE: u8 = 8;

/// A coordinate lies on the board.
pub open spec fn valid_coord(c: Coordinate) -> bool {
    c.x < BOARD_SIDE && c.y < BOARD_SIDE
}

/// The public outcome of one resolved shot.
#[derive(Clone, Copy, PartialEq, Eq, Structural, Debug)]
pub enum HitOrMiss {
    Miss,
    Hit,
}

/// One entry of the shot ledger: who fired, at which cell, and what the
/// confidential computation answered. Immutable once appended.
#[derive(Clone, Copy, PartialEq, Eq, Structural, Debug)]
pub struct Shot {
    pub player: PlayerId,
    pub coord: Coordinate,
    pub result: HitOrMiss,
}

/// The session phases.
#[derive(Clone, Copy, PartialEq, Eq, Structural, Debug)]
pub enum GameState {
    /// Created; slot 1 is still empty.
    AwaitingPlayer,
    /// Both players present; boards not yet both committed.
    BoardSetup,
    /// Player 0 (the creator) may fire.
    P1Turn,
    /// Player 1 (the joiner) may fire.
    P2Turn,
    /// Terminal: player 0 has won.
    P1Won,
    /// Terminal: player 1 has won.
    P2Won,
}

/// A phase in which shots are exchanged.
pub open spec fn in_play(s: GameState) -> bool {
    s == GameState::P1Turn || s == GameState::P2Turn
}

/// A terminal phase: one side has won, by shots or by forfeit.
pub open spec fn is_terminal(s: GameState) -> bool {
    s == GameState::P1Won || s == GameState::P2Won
}

/// The player index whose turn it is.
pub open spec fn turn_index(s: GameState) -> int
    recommends
        in_play(s),
{
    if s == GameState::P1Turn {
        0int
    } else {
        1int
    }
}

/// The other player's index.
pub open spec fn other_index(i: int) -> int
    recommends
        0 <= i < 2,
{
    1 - i
}

/// The terminal phase in which the player with index `i` has won.
pub open spec fn won_by(i: int) -> GameState
    recommends
        0 <= i < 2,
{
    if i == 0 {
        GameState::P1Won
    } else {
        GameState::P2Won
    }
}

/// Why a call was rejected. Every rejection leaves the session unchanged;
/// none is a silent no-op.
#[derive(Clone, Copy, PartialEq, Eq, Structural, Debug)]
pub enum GameError {
    /// The session's phase does not permit this operation.
    InvalidPhase,
    /// A reveal was requested before a terminal phase was reached.
    GameNotOver,
    /// A reveal was requested of a session that is missing a board.
    BoardsNotSubmitted,
    /// The caller is neither of the session's players.
    NotAParticipant,
    /// The creator tried to join their own session.
    SelfJoin,
    /// A third player tried to join a full session.
    SlotOccupied,
    /// It is the other player's turn to fire.
    NotYourTurn,
    /// The caller already committed a board for this session.
    AlreadySubmitted,
    /// The caller already fired at this cell of the opponent's board.
    DuplicateTarget,
    /// The chosen computation offset collides with one still in flight.
    DuplicateOffset,
    /// The shot ledger is at its capacity bound.
    LedgerFull,
    /// A callback arrived whose offset matches no pending request.
    UnknownOffset,
    /// A confidential computation for this session is still outstanding.
    ComputationInProgress,
}

/// One confidential-computation request, as recorded while it is pending
/// and as emitted towards the external service. The offset is the
/// caller-chosen correlation identifier that binds the request to its
/// eventual callback; the remaining fields are the public parameters needed
/// to re-associate that callback with session state.
#[derive(Clone, Copy, PartialEq, Eq, Structural, Debug)]
pub enum ComputationRequest {
    /// Resolve a shot at `coord` against the encrypted board of the player
    /// with index `target_player`.
    CheckShot { offset: u64, target_player: u8, coord: Coordinate },
    /// Decrypt and publish both boards for audit.
    RevealBoards { offset: u64 },
}

/// A player's committed board: one ciphertext per row, the ephemeral public
/// key, and the nonce under which the rows were encrypted. The grid behind
/// it is opaque to every on-chain observer; only the confidential
/// computation environment can interpret it.
pub struct EncryptedBoard {
    /// One ciphertext per board row; the width is a deployment parameter of
    /// the encryption scheme and is not constrained here.
    pub rows: Vec<Vec<u8>>,
    pub public_key: Vec<u8>,
    pub nonce: Vec<u8>,
}

impl EncryptedBoard {
    /// A commitment carries exactly one ciphertext per board row.
    pub open spec fn wf(self) -> bool {
        self.rows@.len() == BOARD_SIDE as int
    }
}

} // verus!
