use arcade::breakout::{BrickWall, BRICK_COUNT};

#[test]
fn wall_is_laid_once_with_all_bricks_standing() {
    let mut w = BrickWall::new();
    assert_eq!(w.len(), 0);
    assert!(w.all_cleared());
    w.lay_if_empty();
    assert_eq!(w.len(), BRICK_COUNT);
    assert_eq!(w.standing_count(), 56);
    assert!(!w.all_cleared());
    w.knock_out(3);
    w.lay_if_empty();
    assert!(!w.is_standing(3));
}

#[test]
fn each_brick_scores_ten() {
    let mut w = BrickWall::new();
    w.lay_if_empty();
    w.knock_out(0);
    w.knock_out(55);
    assert_eq!(w.score(), 20);
    assert_eq!(w.standing_count(), 54);
    assert!(!w.is_standing(0));
    assert!(w.is_standing(1));
}

#[test]
fn clearing_the_wall_scores_560() {
    let mut w = BrickWall::new();
    w.lay_if_empty();
    for i in 0..BRICK_COUNT {
        assert!(!w.all_cleared());
        w.knock_out(i);
    }
    assert!(w.all_cleared());
    assert_eq!(w.score(), 560);
    assert_eq!(w.standing_count(), 0);
}

#[test]
fn brick_rows_columns_and_colours() {
    assert_eq!(BrickWall::row(0), 0);
    assert_eq!(BrickWall::col(6), 6);
    assert_eq!(BrickWall::row(7), 1);
    assert_eq!(BrickWall::col(7), 0);
    assert_eq!(BrickWall::row(55), 7);
    assert_eq!(BrickWall::color_index(55), 7);
    assert_eq!(BrickWall::color_index(20), 2);
}
