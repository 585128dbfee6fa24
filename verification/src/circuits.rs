//! Plaintext semantics of the two confidential computations.
//!
//! The deployed circuits run inside the external secure-multiparty-
//! computation environment over encrypted inputs; what they compute, once
//! the ciphertext is stripped away, is the plain function of the grid and
//! the public parameters stated here. Control flow in the deployed form
//! must never depend on a secret value, so the cell lookup is written as a
//! branch-free gather across the whole row: every cell is touched, and the
//! only branches taken depend on the public column index alone.

use vstd::prelude::*;

use crate::types::Coordinate;
use crate::types::BOARD_SIDE;
use crate::types::valid_coord;

verus! {

/// A plaintext 8x8 grid; a cell holds 1 for a ship and 0 for water.
pub type Grid = [[u8; 8]; 8];

/// One row of the board, as the shot-check computation receives it.
#[derive(Clone, Copy, Debug)]
pub struct BoardRow {
    pub row: [u8; 8],
}

/// A complete board, as the reveal computation receives it.
#[derive(Clone, Copy, Debug)]
pub struct FullBoard {
    pub board: Grid,
}

/// Both players' grids, as the reveal computation publishes them.
#[derive(Clone, Copy, Debug)]
pub struct RevealedBoards {
    pub p1_board: Grid,
    pub p2_board: Grid,
}

/// The cell of `grid` at coordinate `c`.
pub open spec fn cell_at(grid: Grid, c: Coordinate) -> u8
    recommends
        valid_coord(c),
{
    grid[c.y as int][c.x as int]
}

/// A ship occupies the cell of `grid` at `c`.
pub open spec fn is_ship(grid: Grid, c: Coordinate) -> bool
    recommends
        valid_coord(c),
{
    cell_at(grid, c) == 1
}

/// `c` occurs among `targets`.
pub open spec fn targeted(targets: Seq<Coordinate>, c: Coordinate) -> bool {
    exists|k: int| 0 <= k < targets.len() && targets[k] == c
}

/// The coordinate of the cell with row-major index `i`.
pub open spec fn cell_coord(i: int) -> Coordinate
    recommends
        0 <= i < 64,
{
    Coordinate { x: (i % 8) as u8, y: (i / 8) as u8 }
}

/// Among the first `n` cells in row-major order, how many hold a ship that
/// no coordinate of `targets` has hit.
pub open spec fn remaining_below(grid: Grid, targets: Seq<Coordinate>, n: nat) -> nat
    recommends
        n <= 64,
    decreases n,
{
    if n == 0 {
        0
    } else {
        let c = cell_coord(n - 1);
        remaining_below(grid, targets, (n - 1) as nat) + if is_ship(grid, c) && !targeted(
            targets,
            c,
        ) {
            1nat
        } else {
            0nat
        }
    }
}

/// How many ship cells of `grid` no coordinate of `targets` has hit.
pub open spec fn ships_remaining(grid: Grid, targets: Seq<Coordinate>) -> nat {
    remaining_below(grid, targets, 64)
}

proof fn lemma_remaining_below_le(grid: Grid, targets: Seq<Coordinate>, n: nat)
    ensures
        remaining_below(grid, targets, n) <= n,
    decreases n,
{
    if n > 0 {
        lemma_remaining_below_le(grid, targets, (n - 1) as nat);
    }
}

proof fn lemma_remaining_below_zero(grid: Grid, targets: Seq<Coordinate>, n: nat)
    requires
        n <= 64,
    ensures
        (remaining_below(grid, targets, n) == 0) <==> (forall|i: int|
            0 <= i < n ==> (is_ship(grid, #[trigger] cell_coord(i)) ==> targeted(
                targets,
                cell_coord(i),
            ))),
    decreases n,
{
    if n > 0 {
        lemma_remaining_below_zero(grid, targets, (n - 1) as nat);
        if remaining_below(grid, targets, n) == 0 {
            assert(remaining_below(grid, targets, (n - 1) as nat) == 0);
            assert forall|i: int|
                0 <= i < n implies (is_ship(grid, #[trigger] cell_coord(i)) ==> targeted(
                targets,
                cell_coord(i),
            )) by {
                if i == n - 1 {
                    assert(is_ship(grid, cell_coord(n - 1)) ==> targeted(
                        targets,
                        cell_coord(n - 1),
                    ));
                }
            }
        }
        if forall|i: int|
            0 <= i < n ==> (is_ship(grid, #[trigger] cell_coord(i)) ==> targeted(
                targets,
                cell_coord(i),
            )) {
            assert(forall|i: int|
                0 <= i < n - 1 ==> (is_ship(grid, #[trigger] cell_coord(i)) ==> targeted(
                    targets,
                    cell_coord(i),
                )));
            assert(remaining_below(grid, targets, (n - 1) as nat) == 0);
            assert(is_ship(grid, cell_coord(n - 1)) ==> targeted(targets, cell_coord(n - 1)));
        }
    }
}

/// Law: the ships-remaining count reaches zero exactly when every ship
/// cell of the grid has been targeted — the defeat condition behind the
/// shot-check computation's public counter.
pub proof fn lemma_defeated_when_all_ship_cells_hit(grid: Grid, targets: Seq<Coordinate>)
    ensures
        (ships_remaining(grid, targets) == 0) <==> (forall|c: Coordinate|
            valid_coord(c) && #[trigger] is_ship(grid, c) ==> targeted(targets, c)),
{
    lemma_remaining_below_zero(grid, targets, 64);
    if ships_remaining(grid, targets) == 0 {
        assert forall|c: Coordinate|
            valid_coord(c) && #[trigger] is_ship(grid, c) implies targeted(targets, c) by {
            let i = c.y as int * 8 + c.x as int;
            assert(0 <= i < 64);
            assert(i % 8 == c.x as int && i / 8 == c.y as int) by (nonlinear_arith)
                requires
                    c.x < 8,
                    c.y < 8,
                    i == c.y as int * 8 + c.x as int,
            ;
            assert(cell_coord(i) == c);
            assert(is_ship(grid, cell_coord(i)) ==> targeted(targets, cell_coord(i)));
        }
    }
    if forall|c: Coordinate| valid_coord(c) && #[trigger] is_ship(grid, c) ==> targeted(
        targets,
        c,
    ) {
        assert forall|i: int|
            0 <= i < 64 implies (is_ship(grid, #[trigger] cell_coord(i)) ==> targeted(
            targets,
            cell_coord(i),
        )) by {
            assert(0 <= i % 8 < 8 && 0 <= i / 8 < 8);
            assert(valid_coord(cell_coord(i)));
        }
        assert(remaining_below(grid, targets, 64) == 0);
    }
}

/// The shot-check computation's core: look the public column up in the
/// secret row without letting an access pattern depend on the row's
/// contents. Every cell is read; a cell contributes to the result exactly
/// when its index equals the public column.
pub fn check_shot(input: &BoardRow, x_coord: u8) -> (r: u8)
    requires
        x_coord < BOARD_SIDE,
    ensures
        r == input.row[x_coord as int],
{
    let mut acc: u8 = 0;
    let mut i: usize = 0;
    while i < 8
        invariant
            i <= 8,
            x_coord < 8,
            acc == if (x_coord as int) < (i as int) {
                input.row[x_coord as int]
            } else {
                0u8
            },
        decreases 8 - i,
    {
        let sel: u8 = if i == x_coord as usize {
            1
        } else {
            0
        };
        acc = acc + sel * input.row[i];
        i = i + 1;
    }
    acc
}

/// `c` occurs in `targets`.
pub fn contains_coord(targets: &Vec<Coordinate>, c: Coordinate) -> (r: bool)
    ensures
        r == targeted(targets@, c),
{
    let mut i: usize = 0;
    while i < targets.len()
        invariant
            i <= targets@.len(),
            forall|k: int| 0 <= k < i ==> targets@[k] != c,
        decreases targets@.len() - i,
    {
        if targets[i].x == c.x && targets[i].y == c.y {
            assert(targets@[i as int] == c);
            return true;
        }
        i = i + 1;
    }
    false
}

/// The full shot-check computation under the chosen win policy: it answers
/// whether the targeted cell holds a ship, and how many ship cells of the
/// defending board remain unhit once this shot is counted. `prior_targets`
/// are the cells already fired upon on this board.
pub fn check_shot_outcome(board: &FullBoard, prior_targets: &Vec<Coordinate>, target: Coordinate) -> (r: (
    bool,
    u8,
))
    requires
        valid_coord(target),
    ensures
        r.0 == is_ship(board.board, target),
        r.1 as nat == ships_remaining(board.board, prior_targets@.push(target)),
{
    let row = BoardRow { row: board.board[target.y as usize] };
    let cell = check_shot(&row, target.x);
    let hit = cell == 1;

    let ghost all_targets = prior_targets@.push(target);
    let mut count: u8 = 0;
    let mut i: usize = 0;
    while i < 64
        invariant
            i <= 64,
            count as nat == remaining_below(board.board, all_targets, i as nat),
            all_targets == prior_targets@.push(target),
        decreases 64 - i,
    {
        proof {
            lemma_remaining_below_le(board.board, all_targets, i as nat);
        }
        let x = i % 8;
        let y = i / 8;
        let c = Coordinate { x: x as u8, y: y as u8 };
        let unhit = !contains_coord(prior_targets, c) && !(c.x == target.x && c.y == target.y);
        proof {
            let pt = prior_targets@;
            if targeted(pt, c) {
                let k = choose|k: int| 0 <= k < pt.len() && pt[k] == c;
                assert(all_targets[k] == c);
            }
            if c == target {
                assert(all_targets[pt.len() as int] == c);
            }
            if targeted(all_targets, c) {
                let k = choose|k: int| 0 <= k < all_targets.len() && all_targets[k] == c;
                if k < pt.len() {
                    assert(pt[k] == c);
                }
            }
            assert(targeted(all_targets, c) <==> (targeted(pt, c) || c == target));
        }
        if board.board[y][x] == 1 && unhit {
            count = count + 1;
        }
        i = i + 1;
    }
    (hit, count)
}

/// The end-of-game computation: both boards leave the confidential
/// environment as plain grids, exactly as they were committed.
pub fn reveal_boards(p1_board: &FullBoard, p2_board: &FullBoard) -> (r: RevealedBoards)
    ensures
        r.p1_board == p1_board.board,
        r.p2_board == p2_board.board,
{
    RevealedBoards { p1_board: p1_board.board, p2_board: p2_board.board }
}

} // verus!
