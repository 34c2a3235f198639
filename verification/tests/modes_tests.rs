use arcade::modes::{ModeMenu, PlayerMode, Spin};

#[test]
fn menu_starts_on_one_player() {
    let m = ModeMenu::new();
    assert_eq!(m.selection(), 0);
    assert_eq!(m.chosen_mode(), PlayerMode::OnePlayer);
}

#[test]
fn spins_toggle_between_the_two_entries() {
    let mut m = ModeMenu::new();
    m.spin(Spin::Positive);
    assert_eq!(m.selection(), 1);
    assert_eq!(m.chosen_mode(), PlayerMode::TwoPlayer);
    m.spin(Spin::Positive);
    assert_eq!(m.selection(), 0);
    m.spin(Spin::Negative);
    assert_eq!(m.selection(), 1);
    m.spin(Spin::Negative);
    assert_eq!(m.selection(), 0);
    m.spin(Spin::Zero);
    assert_eq!(m.selection(), 0);
}

#[test]
fn reopen_highlights_played_mode() {
    let mut m = ModeMenu::new();
    m.reopen_for(PlayerMode::TwoPlayer);
    assert_eq!(m.selection(), 1);
    m.reopen_for(PlayerMode::OnePlayer);
    assert_eq!(m.selection(), 0);
}
