use arcade::modes::{PlayerMode, Screen, Spin};
use arcade::snake::{Advance, Direction, FoodType, Player, Snake, SnakeField, GRID_WIDTH};

type Field = SnakeField<Option<u32>>;

fn field() -> Field {
    SnakeField::new(None, Some(8))
}

fn body(s: &Snake) -> Vec<(i32, i32)> {
    (0..s.len()).map(|i| s.cell(i)).collect()
}

fn food_cells(f: &Field) -> Vec<(i32, i32, FoodType)> {
    f.foods().iter().map(|x| (x.x, x.y, x.food_type)).collect()
}

#[test]
fn direction_turns_and_opposites() {
    for d in [Direction::Up, Direction::Down, Direction::Left, Direction::Right] {
        assert_eq!(d.opposite().opposite(), d);
        assert_eq!(d.turn_cw().turn_ccw(), d);
        assert_eq!(d.turn_cw().turn_cw(), d.opposite());
        assert_ne!(d.turn_cw(), d.opposite());
        let (dx, dy) = d.delta();
        let (ox, oy) = d.opposite().delta();
        assert_eq!((dx + ox, dy + oy), (0, 0));
    }
    assert_eq!(Direction::Up.delta(), (0, -1));
    assert_eq!(Direction::Right.turn_cw(), Direction::Down);
    assert_eq!(Direction::Right.turn_ccw(), Direction::Up);
}

#[test]
fn new_snake_trails_behind_its_head() {
    let s = Snake::new(6, 21, Direction::Right);
    assert_eq!(body(&s), vec![(6, 21), (5, 21), (4, 21), (3, 21)]);
    assert_eq!(s.head(), (6, 21));
    assert!(s.alive);
    assert_eq!(s.score, 0);
    let t = Snake::new(20, 21, Direction::Left);
    assert_eq!(body(&t), vec![(20, 21), (21, 21), (22, 21), (23, 21)]);
}

#[test]
fn snake_wraps_at_walls() {
    let mut s = Snake::new(26, 0, Direction::Right);
    assert!(s.move_forward(true));
    assert_eq!(s.head(), (0, 0));
    s.steer(Spin::Negative);
    assert!(s.move_forward(true));
    assert_eq!(s.head(), (0, 41));
}

#[test]
fn snake_dies_at_walls_without_wrapping() {
    let mut s = Snake::new(GRID_WIDTH - 1, 5, Direction::Right);
    assert!(!s.move_forward(false));
    assert!(!s.alive);
    assert_eq!(s.len(), 4);
    assert!(!s.move_forward(false));
}

#[test]
fn steering_never_reverses_and_a_reverse_queue_is_ignored() {
    let mut s = Snake::new(10, 10, Direction::Right);
    s.steer(Spin::Positive);
    assert_eq!(s.next_direction, Direction::Down);
    s.next_direction = Direction::Left;
    assert!(s.move_forward(true));
    assert_eq!(s.direction, Direction::Right);
    assert_eq!(s.head(), (11, 10));
}

#[test]
fn collision_queries() {
    let mut s = Snake::new(10, 10, Direction::Right);
    assert!(s.occupies(8, 10));
    assert!(!s.occupies(8, 11));
    assert!(!s.self_collision());
    let other = Snake::new(11, 10, Direction::Up);
    s.move_forward(true);
    assert!(s.collides_with(&other));
}

#[test]
fn new_field_is_on_mode_select() {
    let f = field();
    assert_eq!(f.screen(), Screen::ModeSelect);
    assert_eq!(f.mode(), PlayerMode::OnePlayer);
    assert!(f.snake2().is_none());
    assert!(f.foods().is_empty());
    assert!(f.wrap_walls());
}

#[test]
fn one_player_game_spawns_two_foods() {
    let mut f = field();
    f.choose_mode();
    assert_eq!(f.screen(), Screen::Playing);
    assert_eq!(food_cells(&f), vec![(24, 34, FoodType::Normal), (21, 17, FoodType::Normal)]);
    assert_eq!(f.foods()[0].tag, None);
}

#[test]
fn two_player_game_spawns_three_foods_and_two_snakes() {
    let mut f = field();
    f.menu_spin(Spin::Positive);
    f.choose_mode();
    assert_eq!(f.mode(), PlayerMode::TwoPlayer);
    let s2 = f.snake2().expect("two snakes");
    assert_eq!(s2.head(), (20, 21));
    assert_eq!(s2.direction, Direction::Left);
    assert_eq!(
        food_cells(&f),
        vec![(24, 34, FoodType::Normal), (21, 17, FoodType::Normal), (7, 33, FoodType::Normal)]
    );
}

#[test]
fn eating_grows_scores_and_respawns() {
    let mut f = field();
    f.choose_mode();
    for _ in 0..15 {
        let a = f.advance(Player::One);
        assert_eq!(a, Advance { moved: true, eaten: None });
        assert_eq!(f.snake1().len(), 4);
    }
    assert_eq!(f.snake1().head(), (21, 21));
    f.steer(Player::One, Spin::Negative);
    for _ in 0..3 {
        assert_eq!(f.advance(Player::One).eaten, None);
    }
    let a = f.advance(Player::One);
    assert_eq!(a, Advance { moved: true, eaten: Some(FoodType::Normal) });
    assert_eq!(f.snake1().head(), (21, 17));
    assert_eq!(f.snake1().len(), 5);
    assert_eq!(f.snake1().score, 10);
    assert_eq!(food_cells(&f), vec![(24, 34, FoodType::Normal)]);
    f.finish_tick();
    assert_eq!(
        food_cells(&f),
        vec![(24, 34, FoodType::Normal), (4, 41, FoodType::Normal), (11, 27, FoodType::Speed)]
    );
    assert_eq!(f.foods()[2].tag, Some(8));
    assert_eq!(f.screen(), Screen::Playing);
}

#[test]
fn wrapping_around_an_empty_row_never_kills() {
    let mut f = field();
    f.choose_mode();
    for _ in 0..50 {
        let a = f.advance(Player::One);
        assert!(a.moved);
        assert!(f.snake1().alive);
    }
    assert_eq!(f.snake1().head(), ((6 + 50) % 27, 21));
}

#[test]
fn biting_its_own_tail_ends_a_one_player_game() {
    let mut f = field();
    f.choose_mode();
    // Right -> Down -> Left -> Up: the third turn lands on the tail cell,
    // which still counts because the tail moves after the collision check.
    for spin in [Spin::Positive, Spin::Positive, Spin::Positive] {
        f.steer(Player::One, spin);
        f.advance(Player::One);
    }
    assert_eq!(f.snake1().head(), (5, 21));
    assert!(!f.snake1().alive);
    f.finish_tick();
    assert_eq!(f.screen(), Screen::GameOver);
    f.return_to_menu();
    assert_eq!(f.menu_selection(), 0);
}

#[test]
fn running_into_the_other_snake_ends_a_two_player_game() {
    let mut f = field();
    f.menu_spin(Spin::Positive);
    f.choose_mode();
    // Player one moves right from (6, 21), player two left from (20, 21).
    for _ in 0..6 {
        f.advance(Player::One);
        f.advance(Player::Two);
        f.finish_tick();
    }
    assert_eq!(f.snake1().head(), (12, 21));
    assert_eq!(f.snake2().unwrap().head(), (14, 21));
    f.advance(Player::One);
    assert_eq!(f.snake1().head(), (13, 21));
    let a = f.advance(Player::Two);
    assert!(a.moved);
    assert!(!f.snake2().unwrap().alive);
    assert!(f.snake1().alive);
    f.finish_tick();
    assert_eq!(f.screen(), Screen::GameOver);
    f.return_to_menu();
    assert_eq!(f.screen(), Screen::ModeSelect);
    assert_eq!(f.menu_selection(), 1);
}

#[test]
fn expired_foods_are_removed_and_tags_updated() {
    let mut f = field();
    f.choose_mode();
    f.set_food_tag(1, Some(3));
    assert_eq!(f.foods()[1].tag, Some(3));
    f.retain_foods(&vec![false, true]);
    assert_eq!(food_cells(&f), vec![(21, 17, FoodType::Normal)]);
    assert!(f.has_normal_food());
    f.retain_foods(&vec![false]);
    assert!(!f.has_normal_food());
    f.ensure_normal_food();
    assert!(f.has_normal_food());
    assert_eq!(f.foods().len(), 1);
}

#[test]
fn score_room_is_reported() {
    let f = field();
    assert!(f.can_score(Player::One));
    assert!(f.can_score(Player::Two));
}

#[test]
fn spawned_food_never_lands_on_a_snake_or_food() {
    let mut f = field();
    f.menu_spin(Spin::Positive);
    f.choose_mode();
    for _ in 0..40 {
        f.spawn_food(FoodType::Bonus);
    }
    let mut taken: Vec<(i32, i32)> = body(f.snake1());
    taken.extend(body(f.snake2().unwrap()));
    let cells: Vec<(i32, i32)> = f.foods().iter().map(|x| (x.x, x.y)).collect();
    for (i, c) in cells.iter().enumerate() {
        assert!(!taken.contains(c));
        assert!(!cells[..i].contains(c));
        assert!((0..27).contains(&c.0) && (0..42).contains(&c.1));
    }
}

#[test]
fn two_player_winner_is_the_survivor() {
    let mut f = field();
    f.menu_spin(Spin::Positive);
    f.choose_mode();
    assert_eq!(f.two_player_winner(), None);
    for _ in 0..6 {
        f.advance(Player::One);
        f.advance(Player::Two);
    }
    f.advance(Player::One);
    f.advance(Player::Two);
    f.finish_tick();
    assert_eq!(f.two_player_winner(), Some(Player::One));
}

#[test]
fn chosen_game_starts_from_fixed_positions() {
    let mut f = field();
    f.menu_spin(Spin::Positive);
    f.choose_mode();
    assert_eq!(body(f.snake1()), vec![(6, 21), (5, 21), (4, 21), (3, 21)]);
    assert_eq!(f.snake1().direction, Direction::Right);
    assert_eq!(f.snake1().next_direction, Direction::Right);
    let s2 = f.snake2().unwrap();
    assert_eq!(body(s2), vec![(20, 21), (21, 21), (22, 21), (23, 21)]);
    assert_eq!(s2.next_direction, Direction::Left);
}
