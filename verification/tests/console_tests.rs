use arcade::console::{glitch_starts, ConsoleAction, ConsoleFlow, Scene};
use arcade::modes::Spin;
use arcade::rng::Rng;

#[test]
fn shutdown_and_exit_take_priority() {
    let mut f = ConsoleFlow::new(5);
    assert_eq!(f.route(true, true, true), ConsoleAction::AdvanceShutdown);
    assert_eq!(f.route(false, true, true), ConsoleAction::BeginShutdown);
    assert_eq!(f.route(false, false, true), ConsoleAction::UpdateMenu);
    assert_eq!(f.menu_step(Spin::Zero, true), Some(0));
    assert_eq!(f.scene(), Scene::Playing(0));
    assert_eq!(f.route(false, false, false), ConsoleAction::UpdateGame(0));
    assert_eq!(f.route(false, false, true), ConsoleAction::ReturnToMenu);
    assert_eq!(f.route(false, true, false), ConsoleAction::BeginShutdown);
}

#[test]
fn menu_navigation_stops_at_the_ends() {
    let mut f = ConsoleFlow::new(3);
    assert_eq!(f.menu_step(Spin::Negative, false), None);
    assert_eq!(f.selected(), 0);
    f.menu_step(Spin::Positive, false);
    f.menu_step(Spin::Positive, false);
    f.menu_step(Spin::Positive, false);
    assert_eq!(f.selected(), 2);
    assert_eq!(f.menu_step(Spin::Negative, true), Some(1));
    assert_eq!(f.scene(), Scene::Playing(1));
}

#[test]
fn finished_game_returns_to_fresh_menu() {
    let mut f = ConsoleFlow::new(4);
    f.menu_step(Spin::Positive, false);
    f.menu_step(Spin::Positive, true);
    assert_eq!(f.scene(), Scene::Playing(2));
    f.game_updated(false);
    assert_eq!(f.scene(), Scene::Playing(2));
    f.game_updated(true);
    assert_eq!(f.scene(), Scene::Menu);
    assert_eq!(f.selected(), 0);
}

#[test]
fn empty_console_never_starts_a_game() {
    let mut f = ConsoleFlow::new(0);
    assert_eq!(f.menu_step(Spin::Positive, true), None);
    assert_eq!(f.scene(), Scene::Menu);
}

#[test]
fn glitch_is_a_raw_draw_multiple_of_150() {
    let mut r = Rng::new(0xCAFE_BABE);
    let mut model = Rng::new(0xCAFE_BABE);
    let mut count = 0;
    for _ in 0..30_000 {
        let g = glitch_starts(&mut r);
        assert_eq!(g, model.next() % 150 == 0);
        if g {
            count += 1;
        }
    }
    assert!(count > 0);
}

#[test]
fn description_line_joins_description_and_year() {
    assert_eq!(arcade::console::description_line("", ""), "");
    assert_eq!(arcade::console::description_line("EAT", ""), "EAT");
    assert_eq!(arcade::console::description_line("", "1976"), "(1976)");
    assert_eq!(arcade::console::description_line("EAT, GROW", "1976"), "EAT, GROW (1976)");
}

#[test]
fn empty_console_stays_home_whatever_the_frames() {
    let mut f = ConsoleFlow::new(0);
    for i in 0..50 {
        let spin = [Spin::Negative, Spin::Zero, Spin::Positive][i % 3];
        let a = f.route(false, false, i % 2 == 0);
        assert_eq!(a, ConsoleAction::UpdateMenu);
        assert_eq!(f.menu_step(spin, true), None);
        assert_eq!(f.scene(), Scene::Menu);
    }
}
