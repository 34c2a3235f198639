//! Pong: the match rules of the Pong cart.
//!
//! A match is played to [`WINNING_SCORE`] points. The serve alternates with
//! the total number of points played, and a mode menu picks one player
//! (against the computer) or two. Ball and paddle motion are continuous and
//! are kept by the host, which reports each point here.

use vstd::prelude::*;

use crate::modes::{
    mode_of_selection, selection_of_mode, spun_selection, ModeMenu, PlayerMode, Screen, Spin,
};

verus! {

/// Points that win a match.
pub const WINNING_SCORE: u32 = 11;

/// A side of the court.
#[derive(Clone, Copy, Debug, PartialEq, Eq, Structural)]
pub enum Side {
    Left,
    Right,
}

/// What a point did to the match.
#[derive(Clone, Copy, Debug, PartialEq, Eq, Structural)]
pub enum PointOutcome {
    /// Play goes on: the ball is reset for the next serve.
    Continue,
    /// The scorer reached [`WINNING_SCORE`]: the match is over.
    MatchOver,
}

/// Is the next serve towards the left player? It is when an even number of
/// points has been played.
pub open spec fn serves_left(left: u32, right: u32) -> bool {
    (left + right) % 2 == 0
}

/// The discrete state of the Pong cart.
pub struct PongMatch {
    screen: Screen,
    mode: PlayerMode,
    menu: ModeMenu,
    left_score: u32,
    right_score: u32,
    left_won: bool,
}

impl PongMatch {
    /// Scores never pass the winning score, and are below it during play.
    pub closed spec fn wf(self) -> bool {
        &&& self.left_score <= WINNING_SCORE
        &&& self.right_score <= WINNING_SCORE
        &&& self.screen == Screen::Playing ==> self.left_score < WINNING_SCORE && self.right_score
            < WINNING_SCORE
    }

    /// The screen shown.
    pub closed spec fn screen_of(self) -> Screen {
        self.screen
    }

    /// The mode of the current or last game.
    pub closed spec fn mode_of(self) -> PlayerMode {
        self.mode
    }

    /// The highlighted mode-menu entry.
    pub closed spec fn selection_of(self) -> usize {
        self.menu@
    }

    /// The left side's points.
    pub closed spec fn left_points(self) -> u32 {
        self.left_score
    }

    /// The right side's points.
    pub closed spec fn right_points(self) -> u32 {
        self.right_score
    }

    /// Did the left side win the last match?
    pub closed spec fn left_winner(self) -> bool {
        self.left_won
    }

    /// Scores never pass [`WINNING_SCORE`], and during play both are below it.
    pub open spec fn scores_in_range(self) -> bool {
        &&& self.left_points() <= WINNING_SCORE
        &&& self.right_points() <= WINNING_SCORE
        &&& self.screen_of() == Screen::Playing ==> self.left_points() < WINNING_SCORE
            && self.right_points() < WINNING_SCORE
    }

    /// The points of one side.
    pub open spec fn points(self, side: Side) -> u32 {
        match side {
            Side::Left => self.left_points(),
            Side::Right => self.right_points(),
        }
    }

    /// A match on the mode-select screen, one player highlighted, 0 : 0.
    pub fn new() -> (m: Self)
        ensures
            m.scores_in_range(),
            m.wf(),
            m.screen_of() == Screen::ModeSelect,
            m.mode_of() == PlayerMode::OnePlayer,
            m.selection_of() == 0,
            m.left_points() == 0,
            m.right_points() == 0,
            !m.left_winner(),
    {
        PongMatch {
            screen: Screen::ModeSelect,
            mode: PlayerMode::OnePlayer,
            menu: ModeMenu::new(),
            left_score: 0,
            right_score: 0,
            left_won: false,
        }
    }

    /// The screen shown.
    pub fn screen(&self) -> (s: Screen)
        ensures
            s == self.screen_of(),
    {
        self.screen
    }

    /// The mode of the current or last game.
    pub fn mode(&self) -> (m: PlayerMode)
        ensures
            m == self.mode_of(),
    {
        self.mode
    }

    /// The highlighted mode-menu entry (`0` or `1`).
    pub fn menu_selection(&self) -> (s: usize)
        ensures
            s == self.selection_of(),
            s < 2,
    {
        self.menu.selection()
    }

    /// The left side's points.
    pub fn left_score(&self) -> (s: u32)
        ensures
            s == self.left_points(),
    {
        self.left_score
    }

    /// The right side's points.
    pub fn right_score(&self) -> (s: u32)
        ensures
            s == self.right_points(),
    {
        self.right_score
    }

    /// Did the left side win the last match?
    pub fn left_won(&self) -> (b: bool)
        ensures
            b == self.left_winner(),
    {
        self.left_won
    }

    /// Moves the mode-menu highlight by one spin.
    pub fn menu_spin(&mut self, spin: Spin)
        requires
            old(self).wf(),
        ensures
            final(self).scores_in_range(),
            final(self).wf(),
            final(self).selection_of() == spun_selection(old(self).selection_of(), spin),
            final(self).screen_of() == old(self).screen_of(),
            final(self).mode_of() == old(self).mode_of(),
            final(self).left_points() == old(self).left_points(),
            final(self).right_points() == old(self).right_points(),
            final(self).left_winner() == old(self).left_winner(),
    {
        self.menu.spin(spin);
    }

    /// Takes the highlighted mode and starts a match at 0 : 0.
    pub fn choose_mode(&mut self)
        requires
            old(self).wf(),
        ensures
            final(self).scores_in_range(),
            final(self).wf(),
            final(self).mode_of() == mode_of_selection(old(self).selection_of()),
            final(self).screen_of() == Screen::Playing,
            final(self).selection_of() == old(self).selection_of(),
            final(self).left_points() == 0,
            final(self).right_points() == 0,
            final(self).left_winner() == old(self).left_winner(),
    {
        self.mode = self.menu.chosen_mode();
        self.start_game();
    }

    /// Starts a match in the current mode at 0 : 0.
    pub fn start_game(&mut self)
        requires
            old(self).wf(),
        ensures
            final(self).scores_in_range(),
            final(self).wf(),
            final(self).screen_of() == Screen::Playing,
            final(self).mode_of() == old(self).mode_of(),
            final(self).selection_of() == old(self).selection_of(),
            final(self).left_points() == 0,
            final(self).right_points() == 0,
            final(self).left_winner() == old(self).left_winner(),
    {
        self.screen = Screen::Playing;
        self.left_score = 0;
        self.right_score = 0;
    }

    /// Leaves the game-over screen for the mode menu, highlighting the mode
    /// just played.
    pub fn return_to_menu(&mut self)
        requires
            old(self).wf(),
        ensures
            final(self).scores_in_range(),
            final(self).wf(),
            final(self).screen_of() == Screen::ModeSelect,
            final(self).selection_of() == selection_of_mode(old(self).mode_of()),
            final(self).mode_of() == old(self).mode_of(),
            final(self).left_points() == old(self).left_points(),
            final(self).right_points() == old(self).right_points(),
            final(self).left_winner() == old(self).left_winner(),
    {
        self.screen = Screen::ModeSelect;
        self.menu.reopen_for(self.mode);
    }

    /// Is the next serve towards the left player?
    pub fn serve_to_left(&self) -> (b: bool)
        requires
            self.wf(),
        ensures
            b == serves_left(self.left_points(), self.right_points()),
    {
        (self.left_score + self.right_score) % 2 == 0
    }

    /// Scores a point for `side` during play. Reaching [`WINNING_SCORE`]
    /// ends the match with `side` as the winner.
    pub fn score_point(&mut self, side: Side) -> (out: PointOutcome)
        requires
            old(self).wf(),
            old(self).screen_of() == Screen::Playing,
        ensures
            final(self).scores_in_range(),
            final(self).wf(),
            final(self).points(side) == old(self).points(side) + 1,
            side == Side::Left ==> final(self).right_points() == old(self).right_points(),
            side == Side::Right ==> final(self).left_points() == old(self).left_points(),
            (out == PointOutcome::MatchOver) == (final(self).points(side) == WINNING_SCORE),
            (out == PointOutcome::MatchOver) == (final(self).points(side) >= WINNING_SCORE),
            out == PointOutcome::MatchOver ==> final(self).screen_of() == Screen::GameOver
                && final(self).left_winner() == (side == Side::Left),
            out == PointOutcome::Continue ==> final(self).screen_of() == Screen::Playing
                && final(self).left_winner() == old(self).left_winner(),
            final(self).mode_of() == old(self).mode_of(),
            final(self).selection_of() == old(self).selection_of(),
    {
        match side {
            Side::Left => {
                self.left_score = self.left_score + 1;
                if self.left_score >= WINNING_SCORE {
                    self.screen = Screen::GameOver;
                    self.left_won = true;
                    PointOutcome::MatchOver
                } else {
                    PointOutcome::Continue
                }
            },
            Side::Right => {
                self.right_score = self.right_score + 1;
                if self.right_score >= WINNING_SCORE {
                    self.screen = Screen::GameOver;
                    self.left_won = false;
                    PointOutcome::MatchOver
                } else {
                    PointOutcome::Continue
                }
            },
        }
    }
}

/// The game-over message: in one-player mode "YOU WIN!" or "GAME OVER" for
/// the player on the left, in two-player mode the winning player.
pub open spec fn game_over_message_of(mode: PlayerMode, left_won: bool) -> Seq<char> {
    match mode {
        PlayerMode::OnePlayer => if left_won {
            "YOU WIN!"@
        } else {
            "GAME OVER"@
        },
        PlayerMode::TwoPlayer => if left_won {
            "PLAYER 1 WINS!"@
        } else {
            "PLAYER 2 WINS!"@
        },
    }
}

impl PongMatch {
    /// The message shown on the game-over screen (see
    /// [`game_over_message_of`]).
    pub fn game_over_message(&self) -> (m: &'static str)
        ensures
            m@ == game_over_message_of(self.mode_of(), self.left_winner()),
    {
        match self.mode {
            PlayerMode::OnePlayer => if self.left_won {
                "YOU WIN!"
            } else {
                "GAME OVER"
            },
            PlayerMode::TwoPlayer => if self.left_won {
                "PLAYER 1 WINS!"
            } else {
                "PLAYER 2 WINS!"
            },
        }
    }
}

/// A well-formed match keeps its scores in range: at most
/// [`WINNING_SCORE`], and below it during play.
pub proof fn law_scores_in_range(m: PongMatch)
    requires
        m.wf(),
    ensures
        m.scores_in_range(),
{
}

/// Each point moves the serve to the other side.
pub proof fn law_serve_alternates(left: u32, right: u32)
    requires
        left < WINNING_SCORE,
        right < WINNING_SCORE,
    ensures
        serves_left((left + 1) as u32, right) != serves_left(left, right),
        serves_left(left, (right + 1) as u32) != serves_left(left, right),
{
}

/// The first serve of a match goes to the left player.
pub proof fn law_first_serve_left()
    ensures
        serves_left(0, 0),
{
}

} // verus!
