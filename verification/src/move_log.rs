//! The move log: the columns that were played, one per ply, in order.
//!
//! A log is the whole state of a game. Its text is one digit per ply, `0`
//! to `6`, and travels in the path of every request.

use vstd::prelude::*;
use vstd::string::*;
use crate::decimal::{digit_char, digit_str};
use crate::error::GameError;

verus! {

/// The number of columns of the board.
pub const COLUMNS: usize = 7;

/// The number of cells in one column.
pub const ROWS: usize = 6;

/// The number of cells of the board, and so the longest game in plies.
pub const MAX_PLIES: usize = 42;

/// The plies of `log` that went into `column`, earliest first. The stone of
/// the first of them lies at the bottom of the column.
pub open spec fn plies_in_column(log: Seq<u8>, column: int) -> Seq<int>
    decreases log.len(),
{
    if log.len() == 0 {
        Seq::empty()
    } else {
        let before = plies_in_column(log.drop_last(), column);
        if log.last() == column {
            before.push(log.len() - 1)
        } else {
            before
        }
    }
}

/// The number of stones in `column` after the plies of `log`.
pub open spec fn height(log: Seq<u8>, column: int) -> nat {
    plies_in_column(log, column).len()
}

/// Every ply names a column of the board.
pub open spec fn columns_in_range(log: Seq<u8>) -> bool {
    forall|i: int| 0 <= i < log.len() ==> #[trigger] log[i] <= 6
}

/// A log that a game on a board of seven columns by six rows can have: at
/// most 42 plies, each in a column of the board, at most six in one column.
pub open spec fn legal_log(log: Seq<u8>) -> bool {
    &&& log.len() <= 42
    &&& columns_in_range(log)
    &&& forall|c: int| 0 <= c <= 6 ==> #[trigger] height(log, c) <= 6
}

/// Whether a stone can go into `column` after the plies of `log`: the
/// column exists, has a free cell, and the board is not full.
pub open spec fn playable(log: Seq<u8>, column: int) -> bool {
    &&& 0 <= column <= 6
    &&& height(log, column) < 6
    &&& log.len() < 42
}

/// The column that a character of a log's text names, if it names one.
pub open spec fn column_of_char(c: char) -> Option<u8> {
    if c == '0' {
        Some(0u8)
    } else if c == '1' {
        Some(1u8)
    } else if c == '2' {
        Some(2u8)
    } else if c == '3' {
        Some(3u8)
    } else if c == '4' {
        Some(4u8)
    } else if c == '5' {
        Some(5u8)
    } else if c == '6' {
        Some(6u8)
    } else {
        None
    }
}

/// Every character names a column.
pub open spec fn text_is_columns(text: Seq<char>) -> bool {
    forall|i: int| 0 <= i < text.len() ==> #[trigger] column_of_char(text[i]) is Some
}

/// The columns that the characters of a text name, one per character. Where
/// a character names none, the entry is of no interest.
pub open spec fn columns_of_text(text: Seq<char>) -> Seq<u8> {
    Seq::new(
        text.len(),
        |i: int|
            match column_of_char(text[i]) {
                Some(c) => c,
                None => 0u8,
            },
    )
}

/// The text of a log: the digit of each ply's column, in order.
pub open spec fn encoded(log: Seq<u8>) -> Seq<char> {
    Seq::new(log.len(), |i: int| digit_char(log[i] as int))
}

/// The log that a text stands for. A text is refused where a character is
/// no digit from `0` to `6`, or where its plies are no legal log.
pub open spec fn decoded(text: Seq<char>) -> Result<Seq<u8>, GameError> {
    if text_is_columns(text) && legal_log(columns_of_text(text)) {
        Ok(columns_of_text(text))
    } else {
        Err(GameError::InvalidLog)
    }
}

/// One more ply adds its own index to its column and leaves the others.
pub proof fn lemma_plies_push(log: Seq<u8>, x: u8, column: int)
    ensures
        x == column ==> plies_in_column(log.push(x), column) == plies_in_column(log, column).push(
            log.len() as int,
        ),
        x != column ==> plies_in_column(log.push(x), column) == plies_in_column(log, column),
        x == column ==> height(log.push(x), column) == height(log, column) + 1,
        x != column ==> height(log.push(x), column) == height(log, column),
{
    assert(log.push(x).drop_last() =~= log);
}

/// The plies of a column are plies of the log that went into that column,
/// each of them is there, and they stand in the order of play.
pub proof fn lemma_plies_in_column(log: Seq<u8>, column: int)
    ensures
        forall|k: int|
            0 <= k < height(log, column) ==> 0 <= (#[trigger] plies_in_column(log, column)[k])
                < log.len() && log[plies_in_column(log, column)[k]] == column,
        forall|j: int, k: int|
            0 <= j < k < height(log, column) ==> #[trigger] plies_in_column(log, column)[j]
                < #[trigger] plies_in_column(log, column)[k],
        forall|ply: int|
            0 <= ply < log.len() && #[trigger] log[ply] == column ==> plies_in_column(
                log,
                column,
            ).contains(ply),
    decreases log.len(),
{
    if log.len() > 0 {
        let front = log.drop_last();
        let before = plies_in_column(front, column);
        let plies = plies_in_column(log, column);
        lemma_plies_in_column(front, column);
        assert forall|ply: int| 0 <= ply < log.len() && #[trigger] log[ply] == column implies plies.contains(
            ply,
        ) by {
            if ply < front.len() {
                assert(front[ply] == column);
                let k = choose|k: int| 0 <= k < before.len() && before[k] == ply;
                assert(plies[k] == ply);
            } else {
                assert(plies[plies.len() - 1] == ply);
            }
        }
    }
}

/// The plies of a column early in a game are the first of its plies later.
pub proof fn lemma_plies_prefix(log: Seq<u8>, k: int, column: int)
    requires
        0 <= k <= log.len(),
    ensures
        height(log.take(k), column) <= height(log, column),
        plies_in_column(log.take(k), column) == plies_in_column(log, column).take(
            height(log.take(k), column) as int,
        ),
    decreases log.len(),
{
    if k == log.len() {
        assert(log.take(k) =~= log);
        assert(plies_in_column(log, column).take(height(log, column) as int) =~= plies_in_column(
            log,
            column,
        ));
    } else {
        assert(log.drop_last().take(k) =~= log.take(k));
        lemma_plies_prefix(log.drop_last(), k, column);
        assert(plies_in_column(log.take(k), column) =~= plies_in_column(log, column).take(
            height(log.take(k), column) as int,
        ));
    }
}

/// Every ply lies in one of the seven columns: their heights add up to the
/// number of plies.
pub proof fn lemma_heights_add_up(log: Seq<u8>)
    requires
        columns_in_range(log),
    ensures
        height(log, 0) + height(log, 1) + height(log, 2) + height(log, 3) + height(log, 4) + height(
            log,
            5,
        ) + height(log, 6) == log.len(),
    decreases log.len(),
{
    if log.len() > 0 {
        let front = log.drop_last();
        assert(log.last() <= 6);
        assert forall|i: int| 0 <= i < front.len() implies #[trigger] front[i] <= 6 by {
            assert(front[i] == log[i]);
        }
        lemma_heights_add_up(front);
    }
}

/// On a legal log a stone can go wherever a column of the board has a free
/// cell: the board is not full as long as one column is not.
pub proof fn lemma_free_cell_is_playable(log: Seq<u8>, column: int)
    requires
        legal_log(log),
        0 <= column <= 6,
        height(log, column) < 6,
    ensures
        playable(log, column),
{
    lemma_heights_add_up(log);
    assert(height(log, 0) <= 6);
    assert(height(log, 1) <= 6);
    assert(height(log, 2) <= 6);
    assert(height(log, 3) <= 6);
    assert(height(log, 4) <= 6);
    assert(height(log, 5) <= 6);
    assert(height(log, 6) <= 6);
}

/// Decoding undoes encoding: the text of a legal log stands for that log.
pub proof fn lemma_decode_encode(log: Seq<u8>)
    requires
        legal_log(log),
    ensures
        decoded(encoded(log)) == Ok::<Seq<u8>, GameError>(log),
{
    let text = encoded(log);
    assert forall|i: int| 0 <= i < text.len() implies #[trigger] column_of_char(text[i]) == Some(
        log[i],
    ) by {
        assert(log[i] <= 6);
    }
    assert(columns_of_text(text) =~= log);
}

/// Encoding undoes decoding: a text that stands for a log is the text of
/// that log, so no two texts stand for the same log.
pub proof fn lemma_encode_decode(text: Seq<char>)
    requires
        decoded(text) is Ok,
    ensures
        encoded(decoded(text)->Ok_0) == text,
        legal_log(decoded(text)->Ok_0),
{
    let log = columns_of_text(text);
    assert forall|i: int| 0 <= i < text.len() implies digit_char(log[i] as int) == text[i] by {
        assert(column_of_char(text[i]) is Some);
    }
    assert(encoded(log) =~= text);
}

/// The column that a character names, if it names one.
pub fn column_of(c: char) -> (r: Option<u8>)
    ensures
        r == column_of_char(c),
{
    if c == '0' {
        Some(0u8)
    } else if c == '1' {
        Some(1u8)
    } else if c == '2' {
        Some(2u8)
    } else if c == '3' {
        Some(3u8)
    } else if c == '4' {
        Some(4u8)
    } else if c == '5' {
        Some(5u8)
    } else if c == '6' {
        Some(6u8)
    } else {
        None
    }
}

/// The history of a game: the column of each ply, in the order of play.
/// An even number of plies means that the first side is to move.
#[derive(Debug, PartialEq, Eq)]
pub struct MoveLog {
    cols: Vec<u8>,
}

impl View for MoveLog {
    type V = Seq<u8>;

    closed spec fn view(&self) -> Seq<u8> {
        self.cols@
    }
}

impl Clone for MoveLog {
    fn clone(&self) -> (log: MoveLog)
        ensures
            log@ == self@,
    {
        proof {
            use_type_invariant(self);
        }
        MoveLog { cols: copy_columns(&self.cols) }
    }
}

/// A vector with the same entries.
fn copy_columns(cols: &Vec<u8>) -> (copy: Vec<u8>)
    ensures
        copy@ == cols@,
{
    let mut copy: Vec<u8> = Vec::new();
    let mut i: usize = 0;
    while i < cols.len()
        invariant
            i <= cols@.len(),
            copy@ == cols@.take(i as int),
        decreases cols@.len() - i,
    {
        copy.push(cols[i]);
        proof {
            assert(copy@ =~= cols@.take(i + 1));
        }
        i += 1;
    }
    proof {
        assert(cols@.take(i as int) =~= cols@);
    }
    copy
}

impl MoveLog {
    #[verifier::type_invariant]
    spec fn in_range(self) -> bool {
        columns_in_range(self.cols@)
    }

    /// The log of a game in which nothing was played yet.
    pub fn new() -> (log: MoveLog)
        ensures
            log@ == Seq::<u8>::empty(),
    {
        MoveLog { cols: Vec::new() }
    }

    /// Reads a log from its text, one digit per ply. The text is refused
    /// where a character is no digit from `0` to `6`, where a ply goes into
    /// a column that holds six stones already, or where it has more than 42
    /// plies.
    pub fn decode(text: &str) -> (r: Result<MoveLog, GameError>)
        ensures
            r is Ok ==> decoded(text@) == Ok::<Seq<u8>, GameError>(r->Ok_0@),
            r is Err ==> decoded(text@) == Err::<Seq<u8>, GameError>(r->Err_0),
    {
        let n: usize = text.unicode_len();
        if n > MAX_PLIES {
            return Err(GameError::InvalidLog);
        }
        let ghost all = columns_of_text(text@);
        let mut cols: Vec<u8> = Vec::new();
        let mut heights: [u8; 7] = [0u8; 7];
        let mut i: usize = 0;
        while i < n
            invariant
                n == text@.len(),
                n <= 42,
                i <= n,
                all == columns_of_text(text@),
                cols@ == all.take(i as int),
                forall|k: int| 0 <= k < i ==> #[trigger] column_of_char(text@[k]) is Some,
                forall|c: int| 0 <= c <= 6 ==> #[trigger] heights[c] == height(cols@, c),
                forall|c: int| 0 <= c <= 6 ==> #[trigger] height(cols@, c) <= 6,
            decreases n - i,
        {
            let column = column_of(text.get_char(i));
            match column {
                None => {
                    return Err(GameError::InvalidLog);
                },
                Some(col) => {
                    proof {
                        assert(all.take(i + 1) =~= cols@.push(col));
                        assert forall|c: int| 0 <= c <= 6 implies #[trigger] height(
                            cols@.push(col),
                            c,
                        ) == height(cols@, c) + if col == c {
                            1int
                        } else {
                            0int
                        } by {
                            lemma_plies_push(cols@, col, c);
                        }
                    }
                    let stones: u8 = heights[col as usize];
                    if stones >= 6 {
                        proof {
                            lemma_plies_prefix(all, i + 1, col as int);
                        }
                        return Err(GameError::InvalidLog);
                    }
                    heights[col as usize] = stones + 1;
                    cols.push(col);
                },
            }
            i += 1;
        }
        proof {
            assert(cols@ =~= all);
        }
        Ok(MoveLog { cols })
    }

    /// Writes the log as text, one digit per ply.
    pub fn encode(&self) -> (text: String)
        ensures
            text@ == encoded(self@),
    {
        proof {
            use_type_invariant(self);
        }
        let mut text = String::new();
        let mut i: usize = 0;
        while i < self.cols.len()
            invariant
                i <= self.cols@.len(),
                columns_in_range(self.cols@),
                text@ == encoded(self.cols@.take(i as int)),
            decreases self.cols@.len() - i,
        {
            text.append(digit_str(self.cols[i]));
            proof {
                assert(text@ =~= encoded(self.cols@.take(i + 1)));
            }
            i += 1;
        }
        proof {
            assert(self.cols@.take(i as int) =~= self.cols@);
        }
        text
    }

    /// The log with one more ply in `column`. Only the column's number is
    /// looked at: that the column has a free cell is for the caller to
    /// know, who has [`MoveLog::can_play`] for it.
    pub fn extend(&self, column: usize) -> (r: Result<MoveLog, GameError>)
        ensures
            column <= 6 ==> r is Ok && r->Ok_0@ == self@.push(column as u8),
            column > 6 ==> r == Err::<MoveLog, GameError>(GameError::IllegalMove),
    {
        proof {
            use_type_invariant(self);
        }
        if column >= COLUMNS {
            return Err(GameError::IllegalMove);
        }
        let mut cols: Vec<u8> = copy_columns(&self.cols);
        cols.push(column as u8);
        Ok(MoveLog { cols })
    }

    /// The number of plies played.
    pub fn len(&self) -> (n: usize)
        ensures
            n == self@.len(),
    {
        self.cols.len()
    }

    /// The columns of the plies, in the order of play, each at most 6.
    pub fn as_slice(&self) -> (cols: &[u8])
        ensures
            cols@ == self@,
            columns_in_range(self@),
    {
        proof {
            use_type_invariant(self);
        }
        self.cols.as_slice()
    }

    /// The number of stones in `column`; none in a column that the board
    /// does not have.
    pub fn height(&self, column: usize) -> (h: usize)
        ensures
            h == height(self@, column as int),
    {
        let mut h: usize = 0;
        let mut i: usize = 0;
        while i < self.cols.len()
            invariant
                i <= self.cols@.len(),
                h == height(self.cols@.take(i as int), column as int),
                h <= i,
            decreases self.cols@.len() - i,
        {
            proof {
                assert(self.cols@.take(i + 1) =~= self.cols@.take(i as int).push(self.cols@[i as int]));
                lemma_plies_push(self.cols@.take(i as int), self.cols@[i as int], column as int);
            }
            if self.cols[i] as usize == column {
                h += 1;
            }
            i += 1;
        }
        proof {
            assert(self.cols@.take(i as int) =~= self.cols@);
        }
        h
    }

    /// Whether a stone can go into `column` next.
    pub fn can_play(&self, column: usize) -> (r: bool)
        ensures
            r == playable(self@, column as int),
    {
        column < COLUMNS && self.cols.len() < MAX_PLIES && self.height(column) < ROWS
    }
}

} // verus!
