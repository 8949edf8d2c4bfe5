//! The standing of a game for one side, read off an engine score.

use vstd::prelude::*;
use vstd::string::*;
use crate::decimal::{decimal, lemma_decimal_injective, push_decimal};
use crate::error::GameError;

verus! {

/// The outcome that one side can force, with the number of that side's
/// turns that remain until it is on the board. Zero turns: it is there.
#[derive(Debug, Clone, Copy, PartialEq, Eq, Structural)]
pub enum GameStatus {
    Winning(usize),
    Losing(usize),
    Drawing(usize),
}

/// The absolute value of an integer.
pub open spec fn magnitude(x: int) -> nat {
    if x < 0 {
        (-x) as nat
    } else {
        x as nat
    }
}

/// The turns that remain for a side that has 21 stones in all, has played
/// `plies / 2` of them and is `|score|` stones away from using them up.
/// Negative where the two numbers cannot belong to one position.
pub open spec fn moves_left(score: int, plies: nat) -> int {
    21 - (plies / 2) - magnitude(score)
}

impl GameStatus {
    /// The turns that remain until the outcome.
    pub open spec fn turns_left(self) -> nat {
        match self {
            GameStatus::Winning(n) => n as nat,
            GameStatus::Losing(n) => n as nat,
            GameStatus::Drawing(n) => n as nat,
        }
    }

    /// Whether the outcome is on the board already.
    pub open spec fn is_terminal(self) -> bool {
        self.turns_left() == 0
    }

    /// The same standing seen from the other side.
    pub open spec fn reversed(self) -> GameStatus {
        match self {
            GameStatus::Winning(n) => GameStatus::Losing(n),
            GameStatus::Losing(n) => GameStatus::Winning(n),
            GameStatus::Drawing(n) => GameStatus::Drawing(n),
        }
    }

    /// The status that a score stands for after `plies` plies: the sign of
    /// the score picks the variant, [`moves_left`] gives the turns. A
    /// negative number of turns is an error and is never rounded to zero.
    pub open spec fn classify(score: int, plies: nat) -> Result<GameStatus, GameError> {
        let left = moves_left(score, plies);
        if left < 0 {
            Err(GameError::InconsistentClassification)
        } else if score == 0 {
            Ok(GameStatus::Drawing(left as usize))
        } else if score > 0 {
            Ok(GameStatus::Winning(left as usize))
        } else {
            Ok(GameStatus::Losing(left as usize))
        }
    }

    /// What the player is told: the outcome in so many words once it is on
    /// the board, and before that the number of turns until it.
    pub open spec fn message(self) -> Seq<char> {
        match self {
            GameStatus::Winning(n) => if n == 0 {
                "You Won"@
            } else {
                "You can win in "@ + decimal(n as nat) + " turn(s)"@
            },
            GameStatus::Losing(n) => if n == 0 {
                "You Lost"@
            } else {
                "You will lose in "@ + decimal(n as nat) + " turn(s)"@
            },
            GameStatus::Drawing(n) => if n == 0 {
                "You Drew"@
            } else {
                "You can draw in "@ + decimal(n as nat) + " turn(s)"@
            },
        }
    }

    /// Classifies the score that the engine gave for the side to move after
    /// `num_moves` plies.
    pub fn new(score: isize, num_moves: usize) -> (r: Result<GameStatus, GameError>)
        ensures
            r == GameStatus::classify(score as int, num_moves as nat),
    {
        let played: usize = num_moves / 2;
        if played > 21 || score > 21 || score < -21 {
            return Err(GameError::InconsistentClassification);
        }
        let spent: usize = if score < 0 {
            (-score) as usize
        } else {
            score as usize
        };
        if spent > 21 - played {
            return Err(GameError::InconsistentClassification);
        }
        let left: usize = 21 - played - spent;
        if score == 0 {
            Ok(GameStatus::Drawing(left))
        } else if score > 0 {
            Ok(GameStatus::Winning(left))
        } else {
            Ok(GameStatus::Losing(left))
        }
    }

    /// The standing as the other side sees it: what one wins the other
    /// loses, and a draw is a draw for both.
    pub fn reverse(&self) -> (r: GameStatus)
        ensures
            r == self.reversed(),
    {
        match self {
            GameStatus::Losing(n) => GameStatus::Winning(*n),
            GameStatus::Drawing(n) => GameStatus::Drawing(*n),
            GameStatus::Winning(n) => GameStatus::Losing(*n),
        }
    }

    /// The message for the player.
    pub fn to_msg(&self) -> (msg: String)
        ensures
            msg@ == self.message(),
    {
        match self {
            GameStatus::Losing(n) => if *n == 0 {
                String::from_str("You Lost")
            } else {
                turns_phrase("You will lose in ", *n)
            },
            GameStatus::Drawing(n) => if *n == 0 {
                String::from_str("You Drew")
            } else {
                turns_phrase("You can draw in ", *n)
            },
            GameStatus::Winning(n) => if *n == 0 {
                String::from_str("You Won")
            } else {
                turns_phrase("You can win in ", *n)
            },
        }
    }

    /// Whether the game is over, so that the next request starts a new one.
    pub fn is_reset(&self) -> (r: bool)
        ensures
            r == (self.turns_left() == 0),
            r == self.is_terminal(),
    {
        match self {
            GameStatus::Losing(n) => *n == 0,
            GameStatus::Drawing(n) => *n == 0,
            GameStatus::Winning(n) => *n == 0,
        }
    }
}

/// `lead`, the number of turns, and the word for them.
fn turns_phrase(lead: &str, turns: usize) -> (msg: String)
    ensures
        msg@ == lead@ + decimal(turns as nat) + " turn(s)"@,
{
    let mut msg = String::from_str(lead);
    push_decimal(&mut msg, turns);
    msg.append(" turn(s)");
    msg
}

/// A score within the bounds of the board classifies by its sign: zero is
/// a draw, a positive score a win, a negative one a loss, each with
/// [`moves_left`] turns to go.
pub proof fn lemma_classify_by_sign(score: int, plies: nat)
    requires
        moves_left(score, plies) >= 0,
    ensures
        GameStatus::classify(score, plies) is Ok,
        GameStatus::classify(score, plies)->Ok_0.turns_left() == moves_left(score, plies),
        score == 0 <==> GameStatus::classify(score, plies)->Ok_0 is Drawing,
        score > 0 <==> GameStatus::classify(score, plies)->Ok_0 is Winning,
        score < 0 <==> GameStatus::classify(score, plies)->Ok_0 is Losing,
{
}

/// A score beyond the bounds of the board has no status.
pub proof fn lemma_classify_rejects(score: int, plies: nat)
    requires
        moves_left(score, plies) < 0,
    ensures
        GameStatus::classify(score, plies) == Err::<GameStatus, GameError>(
            GameError::InconsistentClassification,
        ),
{
}

/// Seeing a standing from the other side twice gives it back, and a draw
/// looks the same from both sides.
pub proof fn lemma_reverse_involution(status: GameStatus)
    ensures
        status.reversed().reversed() == status,
        status is Drawing ==> status.reversed() == status,
        status.reversed().turns_left() == status.turns_left(),
        status.reversed().is_terminal() == status.is_terminal(),
{
}

/// The message tells the standing: no two of them have the same message.
pub proof fn lemma_message_tells_status(a: GameStatus, b: GameStatus)
    requires
        a.message() == b.message(),
    ensures
        a == b,
{
    reveal_strlit("You Won");
    reveal_strlit("You Lost");
    reveal_strlit("You Drew");
    reveal_strlit("You can win in ");
    reveal_strlit("You will lose in ");
    reveal_strlit("You can draw in ");
    reveal_strlit(" turn(s)");
    let text = a.message();
    assert(text[4] == b.message()[4]);
    assert(text.len() == b.message().len());
    if !a.is_terminal() {
        assert(text[8] == b.message()[8]);
        let lead: int = if a is Losing {
            17
        } else if a is Winning {
            15
        } else {
            16
        };
        let m = decimal(a.turns_left());
        let n = decimal(b.turns_left());
        assert(m.len() == n.len());
        assert forall|i: int| 0 <= i < m.len() implies m[i] == n[i] by {
            assert(m[i] == text[lead + i]);
            assert(n[i] == b.message()[lead + i]);
        }
        assert(m =~= n);
        lemma_decimal_injective(a.turns_left(), b.turns_left());
    }
}

} // verus!
