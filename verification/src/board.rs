//! The board as it is drawn: seven columns of six cells, read off a move log.

use vstd::prelude::*;
use crate::move_log::{
    columns_in_range,
    height,
    lemma_plies_prefix,
    lemma_plies_push,
    plies_in_column,
    MoveLog,
};

verus! {

/// What one cell of the board holds. The side that moves first plays red.
#[derive(Debug, Clone, Copy, PartialEq, Eq, Structural)]
pub enum Cell {
    Empty,
    Red,
    Yellow,
}

/// The board as it is drawn: seven columns from left to right, each of six
/// cells from the top row down.
pub type Board = [[Cell; 6]; 7];

impl Cell {
    /// The style class under which a cell is drawn.
    pub open spec fn css(self) -> Seq<char> {
        match self {
            Cell::Empty => ""@,
            Cell::Red => "red"@,
            Cell::Yellow => "yellow"@,
        }
    }

    /// The style class under which the cell is drawn: none for an empty
    /// cell, else the name of the stone's colour.
    pub fn css_class(&self) -> (class: &'static str)
        ensures
            class@ == self.css(),
    {
        match self {
            Cell::Empty => "",
            Cell::Red => "red",
            Cell::Yellow => "yellow",
        }
    }
}

/// The colour of the stone of a ply. Plies count from zero over the whole
/// game, not per column: even plies are red, odd ones yellow.
pub open spec fn color_of_ply(ply: int) -> Cell {
    if ply % 2 == 0 {
        Cell::Red
    } else {
        Cell::Yellow
    }
}

/// The cell of `column` in `row`, rows counted from the top. The stones of a
/// column stack up from the bottom row in the order of play; above them the
/// cells are empty. A stone played into a column that holds six is not
/// drawn.
pub open spec fn cell_at(log: Seq<u8>, column: int, row: int) -> Cell {
    let plies = plies_in_column(log, column);
    let level = 5 - row;
    if 0 <= level < plies.len() {
        color_of_ply(plies[level])
    } else {
        Cell::Empty
    }
}

/// The board after the plies of `log`.
pub open spec fn board_of(log: Seq<u8>) -> Seq<Seq<Cell>> {
    Seq::new(7, |column: int| Seq::new(6, |row: int| cell_at(log, column, row)))
}

/// The cells of a board, column by column.
pub open spec fn board_view(board: Board) -> Seq<Seq<Cell>> {
    Seq::new(7, |column: int| board[column]@)
}

/// The stone of a ply lies in the column of that ply, as many cells above
/// the bottom row as stones lay in the column before, and has the colour of
/// the ply. Later plies do not move it.
pub proof fn lemma_stone_of_ply(log: Seq<u8>, ply: int)
    requires
        0 <= ply < log.len(),
        height(log.take(ply), log[ply] as int) < 6,
    ensures
        cell_at(log, log[ply] as int, 5 - height(log.take(ply), log[ply] as int)) == color_of_ply(
            ply,
        ),
{
    let column = log[ply] as int;
    let below = height(log.take(ply), column) as int;
    assert(log.take(ply + 1) =~= log.take(ply).push(log[ply]));
    lemma_plies_push(log.take(ply), log[ply], column);
    lemma_plies_prefix(log, ply + 1, column);
    assert(plies_in_column(log.take(ply + 1), column)[below] == ply);
    assert(plies_in_column(log, column).take(below + 1)[below] == ply);
}

/// The cells of a column above its stones are empty, and a column without
/// a ply is empty from top to bottom.
pub proof fn lemma_cells_above_stones(log: Seq<u8>, column: int, row: int)
    requires
        0 <= row < 6,
        5 - row >= height(log, column),
    ensures
        cell_at(log, column, row) == Cell::Empty,
{
}

/// Draws the board that the plies of `moves` leave.
pub fn get_board_css(moves: &MoveLog) -> (values: Board)
    ensures
        board_view(values) == board_of(moves@),
{
    let cols = moves.as_slice();
    let mut values: Board = [[Cell::Empty; 6]; 7];
    let mut heights: [usize; 7] = [0usize; 7];
    let mut ply: usize = 0;
    while ply < cols.len()
        invariant
            ply <= cols@.len(),
            columns_in_range(cols@),
            forall|c: int| 0 <= c < 7 ==> #[trigger] heights[c] == height(cols@.take(ply as int), c),
            forall|c: int| 0 <= c < 7 ==> #[trigger] heights[c] <= ply,
            forall|c: int, r: int|
                0 <= c < 7 && 0 <= r < 6 ==> #[trigger] values[c][r] == cell_at(
                    cols@.take(ply as int),
                    c,
                    r,
                ),
        decreases cols@.len() - ply,
    {
        let column: usize = cols[ply] as usize;
        let stones: usize = heights[column];
        proof {
            let before = cols@.take(ply as int);
            assert(cols@.take(ply + 1) =~= before.push(cols@[ply as int]));
            assert forall|c: int| 0 <= c < 7 implies plies_in_column(cols@.take(ply + 1), c) == if c
                == column {
                plies_in_column(before, c).push(ply as int)
            } else {
                plies_in_column(before, c)
            } by {
                lemma_plies_push(before, cols@[ply as int], c);
            }
        }
        if stones < 6 {
            let mut stack: [Cell; 6] = values[column];
            stack[5 - stones] = if ply % 2 == 0 {
                Cell::Red
            } else {
                Cell::Yellow
            };
            values[column] = stack;
        }
        heights[column] = stones + 1;
        ply += 1;
    }
    proof {
        assert(cols@.take(ply as int) =~= cols@);
        assert forall|c: int| 0 <= c < 7 implies #[trigger] board_view(values)[c] == board_of(
            moves@,
        )[c] by {
            assert(values[c]@ =~= Seq::new(6, |row: int| cell_at(moves@, c, row)));
        }
        assert(board_view(values) =~= board_of(moves@));
    }
    values
}

} // verus!
