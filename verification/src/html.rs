//! The page of a game: all that one response shows.

use vstd::prelude::*;
use vstd::string::*;
use crate::board::{board_of, board_view, get_board_css, Board, Cell};
use crate::error::GameError;
use crate::move_log::{decoded, encoded, legal_log, lemma_decode_encode, plies_in_column, MoveLog};
use crate::scores::{default_string_array, none_texts, texts_view};
use crate::status::GameStatus;

verus! {

/// The path under which a new game starts.
pub open spec fn new_game_path() -> Seq<char> {
    "/game/0"@
}

/// The path of the next request: that of a new game once the outcome is on
/// the board, else the same lead followed by the text of the log, from
/// which the game can be taken up again.
pub open spec fn path_for(log: Seq<u8>, status: GameStatus) -> Seq<char> {
    if status.is_terminal() {
        new_game_path()
    } else {
        new_game_path() + encoded(log)
    }
}

/// A path that starts as that of a new game does.
pub open spec fn is_game_path(path: Seq<char>) -> bool {
    path.len() >= 7 && path.take(7) == new_game_path()
}

/// What a page shows.
pub struct GameView {
    /// The cells, column by column, each from the top row down.
    pub board: Seq<Seq<Cell>>,
    /// The text under each column.
    pub scores: Seq<Seq<char>>,
    /// The path of the next request.
    pub path: Seq<char>,
    /// The message for the player.
    pub status_msg: Seq<char>,
    /// Whether the texts under the columns are shown.
    pub show_scores: bool,
}

/// The page of a game that stands at `status` after the plies of `log`.
pub open spec fn page_of(
    status: GameStatus,
    log: Seq<u8>,
    scores: Seq<Seq<char>>,
    show_scores: bool,
) -> GameView {
    GameView {
        board: board_of(log),
        scores,
        path: path_for(log, status),
        status_msg: status.message(),
        show_scores,
    }
}

/// The page on which a game starts, after the plies of `log`.
pub open spec fn start_page(log: Seq<u8>) -> GameView {
    GameView {
        board: board_of(log),
        scores: none_texts(),
        path: new_game_path() + encoded(log),
        status_msg: "Game Started"@,
        show_scores: false,
    }
}

/// Every path of a page starts as that of a new game does. What follows is
/// nothing once the game is over, and else the text of the log, which
/// decodes to the log again where the log is legal.
pub proof fn lemma_path_carries_log(log: Seq<u8>, status: GameStatus)
    ensures
        is_game_path(path_for(log, status)),
        status.is_terminal() ==> path_for(log, status).skip(7) == Seq::<char>::empty(),
        !status.is_terminal() ==> path_for(log, status).skip(7) == encoded(log),
        !status.is_terminal() && legal_log(log) ==> decoded(path_for(log, status).skip(7)) == Ok::<
            Seq<u8>,
            GameError,
        >(log),
{
    reveal_strlit("/game/0");
    let path = path_for(log, status);
    assert(path.take(7) =~= new_game_path());
    if status.is_terminal() {
        assert(path.skip(7) =~= Seq::<char>::empty());
    } else {
        assert(path.skip(7) =~= encoded(log));
        if legal_log(log) {
            lemma_decode_encode(log);
        }
    }
}

/// All that one response shows of a game.
#[derive(Debug, PartialEq, Eq)]
pub struct GameHtml {
    values: Board,
    scores: [String; 7],
    path: String,
    status_msg: String,
    show_scores: bool,
}

impl View for GameHtml {
    type V = GameView;

    closed spec fn view(&self) -> GameView {
        GameView {
            board: board_view(self.values),
            scores: texts_view(self.scores),
            path: self.path@,
            status_msg: self.status_msg@,
            show_scores: self.show_scores,
        }
    }
}

impl GameHtml {
    #[verifier::type_invariant]
    spec fn has_game_path(self) -> bool {
        is_game_path(self.path@)
    }

    /// The page of a new game in which the player moves first.
    pub fn new() -> (page: GameHtml)
        ensures
            page@ == start_page(Seq::<u8>::empty()),
            page@.path == new_game_path(),
    {
        let log = MoveLog::new();
        let scores = default_string_array();
        let path = String::from_str("/game/0");
        proof {
            reveal_strlit("/game/0");
            assert(path@.take(7) =~= new_game_path());
            assert(path@ =~= new_game_path() + encoded(log@));
        }
        GameHtml {
            values: get_board_css(&log),
            scores,
            path,
            status_msg: String::from_str("Game Started"),
            show_scores: false,
        }
    }

    /// The page of a new game in which the player moves second: the first
    /// stone, a red one, lies at the bottom of the middle column.
    pub fn new_second() -> (page: GameHtml)
        ensures
            page@ == start_page(seq![3u8]),
            page@.path == "/game/03"@,
    {
        let mut values: Board = [[Cell::Empty; 6]; 7];
        let mut middle: [Cell; 6] = values[3];
        middle[5] = Cell::Red;
        values[3] = middle;
        let scores = default_string_array();
        let path = String::from_str("/game/03");
        proof {
            reveal_strlit("/game/0");
            reveal_strlit("/game/03");
            let log = seq![3u8];
            assert(path@.take(7) =~= new_game_path());
            assert(path@ =~= new_game_path() + encoded(log));
            assert(log.drop_last() =~= Seq::<u8>::empty());
            assert forall|c: int| 0 <= c < 7 implies #[trigger] plies_in_column(log, c) == if c == 3 {
                seq![0int]
            } else {
                Seq::<int>::empty()
            } by {
                reveal_with_fuel(plies_in_column, 2);
                assert(plies_in_column(log, c) =~= if c == 3 {
                    seq![0int]
                } else {
                    Seq::<int>::empty()
                });
            }
            assert forall|c: int| 0 <= c < 7 implies #[trigger] board_view(values)[c] == board_of(
                log,
            )[c] by {
                assert(plies_in_column(log, c).len() <= 1);
                assert(values[c]@ =~= board_of(log)[c]);
            }
            assert(board_view(values) =~= board_of(log));
        }
        GameHtml {
            values,
            scores,
            path,
            status_msg: String::from_str("Game Started"),
            show_scores: false,
        }
    }

    /// The page of a game that stands at `status` after the plies of
    /// `moves`, with `scores` as the texts under the columns.
    pub fn from(status: GameStatus, moves: &MoveLog, scores: [String; 7], show_scores: bool) -> (page:
        GameHtml)
        ensures
            page@ == page_of(status, moves@, texts_view(scores), show_scores),
    {
        let path = GameHtml::generate_path(moves, &status);
        proof {
            lemma_path_carries_log(moves@, status);
        }
        GameHtml {
            values: get_board_css(moves),
            scores,
            path,
            status_msg: status.to_msg(),
            show_scores,
        }
    }

    /// The path of the next request.
    pub fn generate_path(moves: &MoveLog, status: &GameStatus) -> (path: String)
        ensures
            path@ == path_for(moves@, *status),
    {
        if status.is_reset() {
            String::from_str("/game/0")
        } else {
            let mut path = String::from_str("/game/0");
            let text = moves.encode();
            path.append(text.as_str());
            path
        }
    }

    /// Whether the next request starts a new game.
    pub fn is_reset(&self) -> (r: bool)
        ensures
            r == (self@.path == new_game_path()),
    {
        proof {
            use_type_invariant(self);
            reveal_strlit("/game/0");
            if self.path@.len() == 7 {
                assert(self.path@.take(7) =~= self.path@);
            }
        }
        self.path.as_str().unicode_len() == 7
    }

    /// The text of the log that the path carries: what follows the lead
    /// that all paths share.
    pub fn get_moves(&self) -> (text: String)
        ensures
            text@ == self@.path.skip(7),
    {
        proof {
            use_type_invariant(self);
        }
        let path = self.path.as_str();
        let end: usize = path.unicode_len();
        let text = String::from_str(path.substring_char(7, end));
        proof {
            assert(text@ =~= self.path@.skip(7));
        }
        text
    }

    /// The cells, column by column, each from the top row down.
    pub fn values(&self) -> (values: &Board)
        ensures
            board_view(*values) == self@.board,
    {
        &self.values
    }

    /// The text under each column.
    pub fn scores(&self) -> (scores: &[String; 7])
        ensures
            texts_view(*scores) == self@.scores,
    {
        &self.scores
    }

    /// The path of the next request.
    pub fn path(&self) -> (path: &str)
        ensures
            path@ == self@.path,
            is_game_path(path@),
    {
        proof {
            use_type_invariant(self);
        }
        self.path.as_str()
    }

    /// The message for the player.
    pub fn status_msg(&self) -> (msg: &str)
        ensures
            msg@ == self@.status_msg,
    {
        self.status_msg.as_str()
    }

    /// Whether the texts under the columns are shown.
    pub fn show_scores(&self) -> (show: bool)
        ensures
            show == self@.show_scores,
    {
        self.show_scores
    }
}

} // verus!
