//! One turn of a game against the engine, decision by decision.
//!
//! The engine is asked by the driver, never from here. A turn goes as
//! follows:
//!
//! 1. The driver reads the log with [`read_identifier`], makes sure with
//!    [`MoveLog::can_play`] that the player's column is free, asks the
//!    engine whether a stone there wins at once, and calls [`player_move`].
//! 2. On [`PlayerStep::AskAdvisor`] it asks the engine for the scores of the
//!    position of that log and calls [`advisor_reply`].
//! 3. On [`AdvisorStep::AskPlayer`] it asks the engine for the scores of the
//!    position of that log and calls [`player_view`].
//!
//! A `Finished` step and the result of [`player_view`] hold the page to
//! show.

use vstd::prelude::*;
use vstd::string::*;
use crate::board::board_of;
use crate::error::GameError;
use crate::html::{new_game_path, page_of, GameHtml, GameView};
use crate::move_log::{decoded, encoded, playable, MoveLog};
use crate::scores::{
    best_move,
    default_string_array,
    get_best_move,
    none_texts,
    score_texts,
    transform_scores_array,
    ScoreVector,
};
use crate::status::GameStatus;

verus! {

/// What follows the player's move.
#[derive(Debug, PartialEq, Eq)]
pub enum PlayerStep {
    /// The move ended the game: show this page.
    Finished(GameHtml),
    /// The advisor replies: ask the engine for the scores of the position
    /// of this log, which holds the player's move.
    AskAdvisor(MoveLog),
}

/// What a [`PlayerStep`] says.
pub enum PlayerStepView {
    Finished(GameView),
    AskAdvisor(Seq<u8>),
}

impl View for PlayerStep {
    type V = PlayerStepView;

    open spec fn view(&self) -> PlayerStepView {
        match self {
            PlayerStep::Finished(page) => PlayerStepView::Finished(page@),
            PlayerStep::AskAdvisor(log) => PlayerStepView::AskAdvisor(log@),
        }
    }
}

/// What follows the advisor's reply.
#[derive(Debug, PartialEq, Eq)]
pub enum AdvisorStep {
    /// The game is over, with or without a reply: show this page.
    Finished(GameHtml),
    /// The advisor played `column` and the player is to move: ask the
    /// engine for the scores of the position of `log`, which holds the
    /// reply.
    AskPlayer { log: MoveLog, column: usize },
}

/// What an [`AdvisorStep`] says.
pub enum AdvisorStepView {
    Finished(GameView),
    AskPlayer { log: Seq<u8>, column: usize },
}

impl View for AdvisorStep {
    type V = AdvisorStepView;

    open spec fn view(&self) -> AdvisorStepView {
        match self {
            AdvisorStep::Finished(page) => AdvisorStepView::Finished(page@),
            AdvisorStep::AskPlayer { log, column } => AdvisorStepView::AskPlayer {
                log: log@,
                column: *column,
            },
        }
    }
}

/// The log that the identifier of a request stands for. The identifier is
/// the part of a page's path behind `/game/`: one leading character, which
/// is not looked at, and the text of the log.
pub open spec fn identified(id: Seq<char>) -> Result<Seq<u8>, GameError> {
    if id.len() == 0 {
        Err(GameError::InvalidLog)
    } else {
        decoded(id.skip(1))
    }
}

/// What follows the player's stone in `column` after the plies of `log`,
/// where `wins` says whether that stone completes four in a row. A column
/// that cannot be played is an error. A winning stone ends the game as won,
/// the last stone of the board as drawn, each on a page that shows the
/// stone and no scores. After any other stone the advisor replies.
pub open spec fn after_player(log: Seq<u8>, column: int, wins: bool, show_scores: bool) -> Result<
    PlayerStepView,
    GameError,
> {
    let moved = log.push(column as u8);
    if !playable(log, column) {
        Err(GameError::IllegalMove)
    } else if wins {
        Ok(
            PlayerStepView::Finished(
                page_of(GameStatus::Winning(0), moved, none_texts(), show_scores),
            ),
        )
    } else if log.len() == 41 {
        Ok(
            PlayerStepView::Finished(
                page_of(GameStatus::Drawing(0), moved, none_texts(), show_scores),
            ),
        )
    } else {
        Ok(PlayerStepView::AskAdvisor(moved))
    }
}

/// Whether the advisor's best stone ends the game: it wins or draws with
/// no turn left to wait for.
pub open spec fn ends_game(status: GameStatus) -> bool {
    status == GameStatus::Winning(0) || status == GameStatus::Drawing(0)
}

/// What follows the scores that the engine gave the advisor for the
/// position of `log`. Without a column to play the game is drawn as it
/// stands. Else the advisor plays its best column, and the score of that
/// column is classified at the number of plies of `log`. Where that ends
/// the game, the page shows the reply and the standing as the player sees
/// it; where it does not, the player is to move.
pub open spec fn after_advisor(log: Seq<u8>, scores: Seq<Option<isize>>, show_scores: bool) -> Result<
    AdvisorStepView,
    GameError,
> {
    match best_move(scores) {
        None => Ok(
            AdvisorStepView::Finished(page_of(GameStatus::Drawing(0), log, none_texts(), show_scores)),
        ),
        Some(pick) => match GameStatus::classify(pick.1 as int, log.len()) {
            Err(e) => Err(e),
            Ok(status) => {
                let moved = log.push(pick.0 as u8);
                if ends_game(status) {
                    Ok(
                        AdvisorStepView::Finished(
                            page_of(status.reversed(), moved, none_texts(), show_scores),
                        ),
                    )
                } else {
                    Ok(AdvisorStepView::AskPlayer { log: moved, column: pick.0 })
                }
            },
        },
    }
}

/// The number of plies at which a score is classified for the player who
/// is to move: that of the log less the last two plies, and none for a log
/// that has fewer. Counted so, a player who can win with the next stone is
/// told of one turn; no turn would say that the game is over.
pub open spec fn plies_before_turn(plies: nat) -> nat {
    if plies >= 2 {
        (plies - 2) as nat
    } else {
        0
    }
}

/// The page for the player who is to move after the plies of `log`, given
/// the engine's scores for that position: the standing that the best score
/// stands for, and the scores under the columns. Without any score the
/// game is drawn as it stands.
pub open spec fn player_page(log: Seq<u8>, scores: Seq<Option<isize>>, show_scores: bool) -> Result<
    GameView,
    GameError,
> {
    match best_move(scores) {
        None => Ok(page_of(GameStatus::Drawing(0), log, none_texts(), show_scores)),
        Some(pick) => match GameStatus::classify(pick.1 as int, plies_before_turn(log.len())) {
            Err(e) => Err(e),
            Ok(status) => Ok(page_of(status, log, score_texts(scores), show_scores)),
        },
    }
}

/// Reads the log from the identifier of a request.
pub fn read_identifier(id: &str) -> (r: Result<MoveLog, GameError>)
    ensures
        r is Ok ==> identified(id@) == Ok::<Seq<u8>, GameError>(r->Ok_0@),
        r is Err ==> identified(id@) == Err::<Seq<u8>, GameError>(r->Err_0),
{
    let len: usize = id.unicode_len();
    if len == 0 {
        return Err(GameError::InvalidLog);
    }
    let text = id.substring_char(1, len);
    proof {
        assert(text@ =~= id@.skip(1));
    }
    MoveLog::decode(text)
}

/// Judges the player's stone in `column`. `wins` is the engine's answer to
/// whether that stone completes four in a row.
pub fn player_move(log: &MoveLog, column: usize, wins: bool, show_scores: bool) -> (r: Result<
    PlayerStep,
    GameError,
>)
    ensures
        r is Ok ==> after_player(log@, column as int, wins, show_scores) == Ok::<
            PlayerStepView,
            GameError,
        >(r->Ok_0@),
        r is Err ==> after_player(log@, column as int, wins, show_scores) == Err::<
            PlayerStepView,
            GameError,
        >(r->Err_0),
{
    if !log.can_play(column) {
        return Err(GameError::IllegalMove);
    }
    let moved = match log.extend(column) {
        Ok(moved) => moved,
        Err(e) => {
            return Err(e);
        },
    };
    if wins {
        let page = GameHtml::from(GameStatus::Winning(0), &moved, default_string_array(), show_scores);
        Ok(PlayerStep::Finished(page))
    } else if log.len() == 41 {
        let page = GameHtml::from(GameStatus::Drawing(0), &moved, default_string_array(), show_scores);
        Ok(PlayerStep::Finished(page))
    } else {
        Ok(PlayerStep::AskAdvisor(moved))
    }
}

/// Plays the advisor's reply. `log` holds the player's move, `scores` are
/// the engine's for the position of `log`.
pub fn advisor_reply(log: &MoveLog, scores: &ScoreVector, show_scores: bool) -> (r: Result<
    AdvisorStep,
    GameError,
>)
    ensures
        r is Ok ==> after_advisor(log@, scores@, show_scores) == Ok::<AdvisorStepView, GameError>(
            r->Ok_0@,
        ),
        r is Err ==> after_advisor(log@, scores@, show_scores) == Err::<AdvisorStepView, GameError>(
            r->Err_0,
        ),
{
    match get_best_move(scores) {
        None => {
            let page = GameHtml::from(
                GameStatus::Drawing(0),
                log,
                default_string_array(),
                show_scores,
            );
            Ok(AdvisorStep::Finished(page))
        },
        Some(pick) => {
            let status = match GameStatus::new(pick.1, log.len()) {
                Ok(status) => status,
                Err(e) => {
                    return Err(e);
                },
            };
            let moved = match log.extend(pick.0) {
                Ok(moved) => moved,
                Err(e) => {
                    return Err(e);
                },
            };
            let over: bool = match status {
                GameStatus::Winning(n) => n == 0,
                GameStatus::Drawing(n) => n == 0,
                GameStatus::Losing(_) => false,
            };
            if over {
                let page = GameHtml::from(
                    status.reverse(),
                    &moved,
                    default_string_array(),
                    show_scores,
                );
                Ok(AdvisorStep::Finished(page))
            } else {
                Ok(AdvisorStep::AskPlayer { log: moved, column: pick.0 })
            }
        },
    }
}

/// Makes the page for the player who is to move. `scores` are the engine's
/// for the position of `log`.
pub fn player_view(log: &MoveLog, scores: &ScoreVector, show_scores: bool) -> (r: Result<
    GameHtml,
    GameError,
>)
    ensures
        r is Ok ==> player_page(log@, scores@, show_scores) == Ok::<GameView, GameError>(r->Ok_0@),
        r is Err ==> player_page(log@, scores@, show_scores) == Err::<GameView, GameError>(
            r->Err_0,
        ),
{
    match get_best_move(scores) {
        None => Ok(GameHtml::from(GameStatus::Drawing(0), log, default_string_array(), show_scores)),
        Some(pick) => {
            let plies: usize = if log.len() >= 2 {
                log.len() - 2
            } else {
                0
            };
            match GameStatus::new(pick.1, plies) {
                Ok(status) => Ok(
                    GameHtml::from(status, log, transform_scores_array(scores), show_scores),
                ),
                Err(e) => Err(e),
            }
        },
    }
}

/// Makes the page of the game as it stands with the scores shown where
/// they were hidden, and hidden where they were shown. `show_scores` is
/// what the page did before.
pub fn toggle_show(log: &MoveLog, scores: &ScoreVector, show_scores: bool) -> (r: Result<
    GameHtml,
    GameError,
>)
    ensures
        r is Ok ==> player_page(log@, scores@, !show_scores) == Ok::<GameView, GameError>(r->Ok_0@),
        r is Err ==> player_page(log@, scores@, !show_scores) == Err::<GameView, GameError>(
            r->Err_0,
        ),
{
    player_view(log, scores, !show_scores)
}

/// A stone that completes four in a row ends the game at once: the page
/// shows the stone, tells the player of the win, and leads to a new game.
/// The advisor is not asked.
pub proof fn lemma_winning_move_ends_game(log: Seq<u8>, column: int, show_scores: bool)
    requires
        playable(log, column),
    ensures
        after_player(log, column, true, show_scores) matches Ok(PlayerStepView::Finished(page))
            && page.board == board_of(log.push(column as u8)) && page.status_msg
            == GameStatus::Winning(0).message() && page.status_msg == "You Won"@ && page.path
            == new_game_path(),
{
}

/// The stone that fills the board without winning ends the game as drawn:
/// the page shows the stone, tells the player of the draw, and leads to a
/// new game.
pub proof fn lemma_last_move_draws(log: Seq<u8>, column: int, show_scores: bool)
    requires
        playable(log, column),
        log.len() == 41,
    ensures
        after_player(log, column, false, show_scores) matches Ok(PlayerStepView::Finished(page))
            && page.board == board_of(log.push(column as u8)) && page.status_msg
            == GameStatus::Drawing(0).message() && page.status_msg == "You Drew"@ && page.path
            == new_game_path(),
{
}

/// Where the advisor's best stone wins at once, the game ends as lost for
/// the player: the page shows the advisor's stone, tells the player of the
/// loss, and leads to a new game.
pub proof fn lemma_advisor_win_is_player_loss(
    log: Seq<u8>,
    scores: Seq<Option<isize>>,
    show_scores: bool,
)
    requires
        best_move(scores) matches Some(pick) && GameStatus::classify(pick.1 as int, log.len())
            == Ok::<GameStatus, GameError>(GameStatus::Winning(0)),
    ensures
        after_advisor(log, scores, show_scores) matches Ok(AdvisorStepView::Finished(page))
            && page.board == board_of(log.push(best_move(scores).unwrap().0 as u8))
            && page.status_msg == GameStatus::Losing(0).message() && page.status_msg == "You Lost"@
            && page.path == new_game_path(),
{
}

/// A turn that runs its full course adds two plies to the log: the
/// player's stone, then the stone of the advisor's best column. The page
/// at its end shows the board of that log and leads on to that log, or to
/// a new game where the standing leaves no turn.
pub proof fn lemma_turn_extends_log(
    log: Seq<u8>,
    column: int,
    wins: bool,
    reply_scores: Seq<Option<isize>>,
    view_scores: Seq<Option<isize>>,
    show_scores: bool,
)
    requires
        after_player(log, column, wins, show_scores) is Ok,
        after_player(log, column, wins, show_scores).unwrap() is AskAdvisor,
        after_advisor(log.push(column as u8), reply_scores, show_scores) is Ok,
        after_advisor(log.push(column as u8), reply_scores, show_scores).unwrap() is AskPlayer,
        player_page(
            log.push(column as u8).push(best_move(reply_scores).unwrap().0 as u8),
            view_scores,
            show_scores,
        ) is Ok,
    ensures
        playable(log, column) && !wins,
        after_player(log, column, wins, show_scores).unwrap()->AskAdvisor_0 == log.push(
            column as u8,
        ),
        after_advisor(log.push(column as u8), reply_scores, show_scores).unwrap()->log == log.push(
            column as u8,
        ).push(best_move(reply_scores).unwrap().0 as u8),
        ({
            let last = log.push(column as u8).push(best_move(reply_scores).unwrap().0 as u8);
            let page = player_page(last, view_scores, show_scores).unwrap();
            &&& page.board == board_of(last)
            &&& page.show_scores == show_scores
            &&& page.path == new_game_path() || page.path == new_game_path() + encoded(last)
        }),
{
}

/// A turn never goes on after its end: every page that ends a turn early
/// leads to a new game, and the player is only asked to move where the
/// advisor's best stone did not end the game.
pub proof fn lemma_finished_pages_reset(
    log: Seq<u8>,
    column: int,
    wins: bool,
    scores: Seq<Option<isize>>,
    show_scores: bool,
)
    ensures
        after_player(log, column, wins, show_scores) matches Ok(PlayerStepView::Finished(page))
            ==> page.path == new_game_path(),
        after_advisor(log, scores, show_scores) matches Ok(AdvisorStepView::Finished(page))
            ==> page.path == new_game_path(),
        after_advisor(log, scores, show_scores) matches Ok(step) && step is AskPlayer ==> !ends_game(
            GameStatus::classify(best_move(scores).unwrap().1 as int, log.len()).unwrap(),
        ),
{
}

} // verus!
