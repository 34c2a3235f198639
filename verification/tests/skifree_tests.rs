use arcade::modes::Spin;
use arcade::rng::Rng;
use arcade::skifree::{
    roll_monster, roll_obstacles, skier_sprite, HitOutcome, Lives, MonsterAnim, ObstacleType,
    SkierDirection, SkierPhase, SkierState, Sprite, SpriteRegion, MAX_OBSTACLES,
};

#[test]
fn turning_walks_through_the_seven_headings() {
    let mut d = SkierDirection::West;
    let order = [
        SkierDirection::WsWest,
        SkierDirection::SWest,
        SkierDirection::South,
        SkierDirection::SEast,
        SkierDirection::EsEast,
        SkierDirection::East,
        SkierDirection::East,
    ];
    for expected in order {
        d = d.turn_right();
        assert_eq!(d, expected);
    }
    assert_eq!(SkierDirection::West.turn_left(), SkierDirection::West);
    assert_eq!(SkierDirection::South.turn_left(), SkierDirection::SWest);
    assert_eq!(SkierDirection::South.turned(Spin::Positive), SkierDirection::SEast);
    assert_eq!(SkierDirection::South.turned(Spin::Negative), SkierDirection::SWest);
    assert_eq!(SkierDirection::South.turned(Spin::Zero), SkierDirection::South);
}

#[test]
fn only_the_extremes_stand_still() {
    assert!(SkierDirection::West.is_stopped());
    assert!(SkierDirection::East.is_stopped());
    assert!(!SkierDirection::South.is_stopped());
    assert!(!SkierDirection::WsWest.is_stopped());
}

#[test]
fn sprite_regions_match_the_sheets() {
    assert_eq!(SkierDirection::South.sprite_region(), Sprite::SkierSouth);
    assert_eq!(Sprite::SkierSouth.region(), SpriteRegion { x: 65, y: 0, w: 17, h: 34 });
    assert_eq!(Sprite::TallTree.region(), SpriteRegion { x: 95, y: 66, w: 32, h: 64 });
    assert!(Sprite::Rock.is_object());
    assert!(!Sprite::SkierHit.is_object());
    assert_eq!(skier_sprite(true, true, SkierDirection::East), Sprite::SkierHit);
    assert_eq!(skier_sprite(false, true, SkierDirection::East), Sprite::SkierJumping);
    assert_eq!(skier_sprite(false, false, SkierDirection::East), Sprite::SkierEast);
}

#[test]
fn obstacle_collision_boxes() {
    assert_eq!(ObstacleType::SmallTree.collision_width(), 20);
    assert_eq!(ObstacleType::Jump.collision_width(), 28);
    assert_eq!(ObstacleType::Rock.collision_height(), 10);
    assert_eq!(ObstacleType::TallTree.collision_height(), 16);
    assert_eq!(ObstacleType::Jump.sprite_region(), Sprite::JumpRamp);
}

#[test]
fn obstacle_rolls_follow_the_generator() {
    let mut r = Rng::new(0xDEAD_BEEF);
    let mut model = Rng::new(0xDEAD_BEEF);
    for _ in 0..2000 {
        let rolls = roll_obstacles(&mut r, 10);
        let mut expected = Vec::new();
        for (kind, rate) in [
            (ObstacleType::SmallTree, 50u32),
            (ObstacleType::TallTree, 25),
            (ObstacleType::Rock, 15),
            (ObstacleType::Jump, 8),
        ] {
            if model.next() % 1000 < rate {
                let x = model.next() % 10_000;
                let y = model.next() % 10_000;
                expected.push((kind, x, y));
            }
        }
        let got: Vec<(ObstacleType, u32, u32)> =
            rolls.iter().map(|o| (o.kind, o.x_roll, o.y_roll)).collect();
        assert_eq!(got, expected);
    }
    assert_eq!(r.next(), model.next());
}

#[test]
fn no_rolls_when_slope_is_full() {
    let mut r = Rng::new(5);
    let mut same = Rng::new(5);
    assert!(roll_obstacles(&mut r, MAX_OBSTACLES).is_empty());
    assert_eq!(r.next(), same.next());
}

#[test]
fn monster_roll_is_one_in_a_thousand() {
    let mut r = Rng::new(0xDEAD_BEEF);
    let mut model = Rng::new(0xDEAD_BEEF);
    let mut seen = 0;
    for _ in 0..20_000 {
        let got = roll_monster(&mut r);
        let expected = if model.next() % 1000 < 1 { Some(model.next() % 10_000) } else { None };
        assert_eq!(got, expected);
        if got.is_some() {
            seen += 1;
        }
    }
    assert!(seen > 0);
}

#[test]
fn yeti_eats_through_five_frames() {
    let mut m = MonsterAnim::new();
    assert!(m.is_active());
    assert_eq!(m.sprite(true), Sprite::MonsterEast1);
    m.toggle_walk_frame();
    assert_eq!(m.sprite(true), Sprite::MonsterEast2);
    assert_eq!(m.sprite(false), Sprite::MonsterWest2);
    m.start_eating();
    assert_eq!(m.sprite(false), Sprite::MonsterEating1);
    for frame in 1..5 {
        assert!(!m.eating_frame_elapsed());
        assert!(m.is_active());
        let expected = [
            Sprite::MonsterEating2,
            Sprite::MonsterEating3,
            Sprite::MonsterEating4,
            Sprite::MonsterEating5,
        ][frame - 1];
        assert_eq!(m.sprite(false), expected);
    }
    assert!(m.eating_frame_elapsed());
    assert!(!m.is_active());
    assert!(!m.eating_frame_elapsed());
}

#[test]
fn five_lives_then_game_over() {
    let mut l = Lives::new();
    assert_eq!(l.remaining(), 5);
    for left in (1..5).rev() {
        assert!(!l.lose_life());
        assert_eq!(l.remaining(), left);
        assert!(!l.is_game_over());
    }
    assert!(l.lose_life());
    assert_eq!(l.remaining(), 0);
    assert!(l.is_game_over());
    assert!(l.lose_life());
    assert_eq!(l.remaining(), 0);
}

#[test]
fn skier_state_phases_and_hits() {
    let mut s = SkierState::new();
    assert_eq!(s.phase(), SkierPhase::Skiing);
    assert_eq!(s.sprite(), Sprite::SkierSouth);
    s.turn(Spin::Positive);
    assert_eq!(s.direction(), SkierDirection::SEast);
    assert_eq!(s.hit(ObstacleType::Jump), HitOutcome::Jumped);
    assert_eq!(s.sprite(), Sprite::SkierJumping);
    assert_eq!(s.hit(ObstacleType::Rock), HitOutcome::Ignored);
    s.land();
    assert_eq!(s.hit(ObstacleType::Rock), HitOutcome::Crashed);
    assert_eq!(s.phase(), SkierPhase::Crashed);
    assert_eq!(s.sprite(), Sprite::SkierHit);
    assert_eq!(s.hit(ObstacleType::SmallTree), HitOutcome::Ignored);
    s.stand_up();
    assert_eq!(s.phase(), SkierPhase::Skiing);
    assert_eq!(s.direction(), SkierDirection::South);
}

#[test]
fn skier_boost_and_yeti() {
    let mut s = SkierState::new();
    assert!(!s.try_boost(false));
    assert!(s.try_boost(true));
    assert!(s.boosting());
    assert!(!s.try_boost(true));
    s.end_boost();
    assert!(!s.boosting());
    for left in (1..5).rev() {
        s.turn(Spin::Negative);
        s.caught();
        assert_eq!(s.phase(), SkierPhase::BeingEaten);
        assert!(!s.eaten());
        assert_eq!(s.lives(), left);
        assert_eq!(s.direction(), SkierDirection::South);
    }
    s.caught();
    assert!(s.eaten());
    assert_eq!(s.phase(), SkierPhase::GameOver);
}
