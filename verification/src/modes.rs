//! Pieces shared by the two-mode carts (Pong and Snake): the discrete
//! outcome of a rotation gesture, the player-count mode, the cart's screen,
//! and the two-entry mode-select menu.

use vstd::prelude::*;

verus! {

/// The discrete outcome of accumulated rotation input in one frame: a
/// threshold was crossed in the negative direction, in the positive
/// direction, or not at all.
#[derive(Clone, Copy, Debug, PartialEq, Eq, Structural)]
pub enum Spin {
    Negative,
    Zero,
    Positive,
}

/// One player (against the computer, or alone) or two players.
#[derive(Clone, Copy, Debug, PartialEq, Eq, Structural)]
pub enum PlayerMode {
    OnePlayer,
    TwoPlayer,
}

/// The screen a two-mode cart shows.
#[derive(Clone, Copy, Debug, PartialEq, Eq, Structural)]
pub enum Screen {
    ModeSelect,
    Playing,
    GameOver,
}

/// The mode-select menu: entry `0` is one player, entry `1` two players.
pub struct ModeMenu {
    selection: usize,
}

/// The menu entry after a spin: a positive spin moves to the next entry
/// (wrapping), a negative spin to the previous one (wrapping).
pub open spec fn spun_selection(selection: usize, spin: Spin) -> usize {
    match spin {
        Spin::Positive => ((selection + 1) % 2) as usize,
        Spin::Negative => if selection == 0 { 1 } else { 0 },
        Spin::Zero => selection,
    }
}

/// The mode that a menu entry stands for.
pub open spec fn mode_of_selection(selection: usize) -> PlayerMode {
    if selection == 0 {
        PlayerMode::OnePlayer
    } else {
        PlayerMode::TwoPlayer
    }
}

/// The entry the menu shows again after a game in `mode` ended.
pub open spec fn selection_of_mode(mode: PlayerMode) -> usize {
    if mode == PlayerMode::OnePlayer {
        0
    } else {
        1
    }
}

impl ModeMenu {
    #[verifier::type_invariant]
    spec fn selection_in_range(self) -> bool {
        self.selection < 2
    }

    /// The highlighted entry.
    pub closed spec fn view(self) -> usize {
        self.selection
    }

    /// A menu with the one-player entry highlighted.
    pub fn new() -> (m: Self)
        ensures
            m@ == 0,
    {
        ModeMenu { selection: 0 }
    }

    /// The highlighted entry; always `0` or `1`.
    pub fn selection(&self) -> (s: usize)
        ensures
            s == self@,
            s < 2,
    {
        proof {
            use_type_invariant(self);
        }
        self.selection
    }

    /// Moves the highlight by one spin.
    pub fn spin(&mut self, spin: Spin)
        ensures
            final(self)@ == spun_selection(old(self)@, spin),
    {
        proof {
            use_type_invariant(&*self);
        }
        match spin {
            Spin::Positive => {
                self.selection = (self.selection + 1) % 2;
            },
            Spin::Negative => {
                self.selection = if self.selection == 0 { 1 } else { 0 };
            },
            Spin::Zero => {},
        }
    }

    /// The mode of the highlighted entry.
    pub fn chosen_mode(&self) -> (m: PlayerMode)
        ensures
            m == mode_of_selection(self@),
    {
        if self.selection == 0 {
            PlayerMode::OnePlayer
        } else {
            PlayerMode::TwoPlayer
        }
    }

    /// Highlights the entry of `mode` (used when returning from game over).
    pub fn reopen_for(&mut self, mode: PlayerMode)
        ensures
            final(self)@ == selection_of_mode(mode),
    {
        self.selection = if mode == PlayerMode::OnePlayer { 0 } else { 1 };
    }
}

/// The highlight always stays on one of the two entries, whatever the spins.
pub proof fn law_spin_stays_in_menu(selection: usize, spin: Spin)
    requires
        selection < 2,
    ensures
        spun_selection(selection, spin) < 2,
{
}

/// With two entries, a positive and a negative spin both move to the other
/// entry, so each undoes the other.
pub proof fn law_spins_undo_each_other(selection: usize)
    requires
        selection < 2,
    ensures
        spun_selection(spun_selection(selection, Spin::Positive), Spin::Negative) == selection,
        spun_selection(spun_selection(selection, Spin::Negative), Spin::Positive) == selection,
        spun_selection(selection, Spin::Positive) == spun_selection(selection, Spin::Negative),
        spun_selection(selection, Spin::Positive) != selection,
{
}

/// Returning to the menu after a game highlights the mode that was played.
pub proof fn law_reopen_highlights_played_mode(mode: PlayerMode)
    ensures
        mode_of_selection(selection_of_mode(mode)) == mode,
{
}

} // verus!
