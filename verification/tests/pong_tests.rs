use arcade::modes::{PlayerMode, Screen, Spin};
use arcade::pong::{PointOutcome, PongMatch, Side, WINNING_SCORE};

#[test]
fn new_match_is_on_mode_select() {
    let m = PongMatch::new();
    assert_eq!(m.screen(), Screen::ModeSelect);
    assert_eq!(m.mode(), PlayerMode::OnePlayer);
    assert_eq!(m.menu_selection(), 0);
    assert_eq!((m.left_score(), m.right_score()), (0, 0));
}

#[test]
fn choosing_two_players_starts_a_match() {
    let mut m = PongMatch::new();
    m.menu_spin(Spin::Positive);
    m.choose_mode();
    assert_eq!(m.mode(), PlayerMode::TwoPlayer);
    assert_eq!(m.screen(), Screen::Playing);
}

#[test]
fn first_to_eleven_wins() {
    let mut m = PongMatch::new();
    m.choose_mode();
    for i in 1..WINNING_SCORE {
        assert_eq!(m.score_point(Side::Right), PointOutcome::Continue);
        assert_eq!(m.right_score(), i);
        assert_eq!(m.screen(), Screen::Playing);
    }
    assert_eq!(m.score_point(Side::Left), PointOutcome::Continue);
    assert_eq!(m.score_point(Side::Right), PointOutcome::MatchOver);
    assert_eq!(m.right_score(), 11);
    assert_eq!(m.left_score(), 1);
    assert_eq!(m.screen(), Screen::GameOver);
    assert!(!m.left_won());
}

#[test]
fn left_side_can_win() {
    let mut m = PongMatch::new();
    m.choose_mode();
    for _ in 0..10 {
        assert_eq!(m.score_point(Side::Left), PointOutcome::Continue);
    }
    assert_eq!(m.score_point(Side::Left), PointOutcome::MatchOver);
    assert!(m.left_won());
}

#[test]
fn serve_alternates_with_points() {
    let mut m = PongMatch::new();
    m.choose_mode();
    assert!(m.serve_to_left());
    m.score_point(Side::Left);
    assert!(!m.serve_to_left());
    m.score_point(Side::Right);
    assert!(m.serve_to_left());
}

#[test]
fn game_over_returns_to_played_mode_and_restarts_at_zero() {
    let mut m = PongMatch::new();
    m.menu_spin(Spin::Negative);
    m.choose_mode();
    for _ in 0..11 {
        m.score_point(Side::Left);
    }
    assert_eq!(m.screen(), Screen::GameOver);
    m.return_to_menu();
    assert_eq!(m.screen(), Screen::ModeSelect);
    assert_eq!(m.menu_selection(), 1);
    m.choose_mode();
    assert_eq!((m.left_score(), m.right_score()), (0, 0));
    assert!(m.left_won());
}

#[test]
fn game_over_messages() {
    let mut m = PongMatch::new();
    m.choose_mode();
    for _ in 0..11 {
        m.score_point(Side::Right);
    }
    assert_eq!(m.game_over_message(), "GAME OVER");
    m.return_to_menu();
    m.choose_mode();
    for _ in 0..11 {
        m.score_point(Side::Left);
    }
    assert_eq!(m.game_over_message(), "YOU WIN!");
    m.return_to_menu();
    m.menu_spin(Spin::Positive);
    m.choose_mode();
    for _ in 0..11 {
        m.score_point(Side::Left);
    }
    assert_eq!(m.game_over_message(), "PLAYER 1 WINS!");
}
