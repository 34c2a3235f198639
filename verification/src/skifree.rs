//! SkiFree: the discrete rules of the SkiFree cart.
//!
//! The skier has seven headings from due west to due east (the two extremes
//! stand still), sprites are picked from two sheets by pixel region, obstacle
//! and yeti spawns are drawn from the cart's generator, the yeti's eating
//! animation runs through five frames, and the skier has five lives.
//! Positions, speeds, timers and collision boxes are continuous and are kept
//! by the host.

use vstd::prelude::*;

use crate::modes::Spin;
use crate::rng::{xorshift, Rng};

verus! {

/// A sprite region in pixel coordinates on its sheet.
#[derive(Clone, Copy, Debug, PartialEq, Eq, Structural)]
pub struct SpriteRegion {
    pub x: u32,
    pub y: u32,
    pub w: u32,
    pub h: u32,
}

/// The sprites of the cart. Skier and yeti sprites are on the character
/// sheet, obstacles on the object sheet.
#[derive(Clone, Copy, Debug, PartialEq, Eq, Structural)]
pub enum Sprite {
    SkierEast,
    SkierEsEast,
    SkierSeEast,
    SkierSouth,
    SkierSwEst,
    SkierWsWest,
    SkierWest,
    SkierHit,
    SkierJumping,
    MonsterEast1,
    MonsterEast2,
    MonsterWest1,
    MonsterWest2,
    MonsterEating1,
    MonsterEating2,
    MonsterEating3,
    MonsterEating4,
    MonsterEating5,
    SmallTree,
    TallTree,
    Rock,
    JumpRamp,
}

impl Sprite {
    /// The sprite's pixel region on its sheet.
    pub open spec fn region_of(self) -> SpriteRegion {
        match self {
            Sprite::SkierEast => SpriteRegion { x: 0, y: 0, w: 24, h: 34 },
            Sprite::SkierEsEast => SpriteRegion { x: 24, y: 0, w: 24, h: 34 },
            Sprite::SkierSeEast => SpriteRegion { x: 49, y: 0, w: 17, h: 34 },
            Sprite::SkierSouth => SpriteRegion { x: 65, y: 0, w: 17, h: 34 },
            Sprite::SkierSwEst => SpriteRegion { x: 49, y: 37, w: 17, h: 34 },
            Sprite::SkierWsWest => SpriteRegion { x: 24, y: 37, w: 24, h: 34 },
            Sprite::SkierWest => SpriteRegion { x: 0, y: 37, w: 24, h: 34 },
            Sprite::SkierHit => SpriteRegion { x: 0, y: 78, w: 31, h: 31 },
            Sprite::SkierJumping => SpriteRegion { x: 84, y: 0, w: 32, h: 34 },
            Sprite::MonsterEast1 => SpriteRegion { x: 64, y: 112, w: 26, h: 43 },
            Sprite::MonsterEast2 => SpriteRegion { x: 90, y: 112, w: 32, h: 43 },
            Sprite::MonsterWest1 => SpriteRegion { x: 64, y: 158, w: 26, h: 43 },
            Sprite::MonsterWest2 => SpriteRegion { x: 90, y: 158, w: 32, h: 43 },
            Sprite::MonsterEating1 => SpriteRegion { x: 122, y: 112, w: 34, h: 43 },
            Sprite::MonsterEating2 => SpriteRegion { x: 156, y: 112, w: 31, h: 43 },
            Sprite::MonsterEating3 => SpriteRegion { x: 187, y: 112, w: 31, h: 43 },
            Sprite::MonsterEating4 => SpriteRegion { x: 219, y: 112, w: 25, h: 43 },
            Sprite::MonsterEating5 => SpriteRegion { x: 243, y: 112, w: 26, h: 43 },
            Sprite::SmallTree => SpriteRegion { x: 0, y: 28, w: 30, h: 34 },
            Sprite::TallTree => SpriteRegion { x: 95, y: 66, w: 32, h: 64 },
            Sprite::Rock => SpriteRegion { x: 30, y: 52, w: 23, h: 11 },
            Sprite::JumpRamp => SpriteRegion { x: 109, y: 55, w: 32, h: 8 },
        }
    }

    /// Is the sprite on the object sheet (rather than the character sheet)?
    pub open spec fn on_object_sheet(self) -> bool {
        self == Sprite::SmallTree || self == Sprite::TallTree || self == Sprite::Rock || self == Sprite::JumpRamp
    }

    /// The sprite's pixel region on its sheet.
    pub fn region(self) -> (r: SpriteRegion)
        ensures
            r == self.region_of(),
    {
        match self {
            Sprite::SkierEast => SpriteRegion { x: 0, y: 0, w: 24, h: 34 },
            Sprite::SkierEsEast => SpriteRegion { x: 24, y: 0, w: 24, h: 34 },
            Sprite::SkierSeEast => SpriteRegion { x: 49, y: 0, w: 17, h: 34 },
            Sprite::SkierSouth => SpriteRegion { x: 65, y: 0, w: 17, h: 34 },
            Sprite::SkierSwEst => SpriteRegion { x: 49, y: 37, w: 17, h: 34 },
            Sprite::SkierWsWest => SpriteRegion { x: 24, y: 37, w: 24, h: 34 },
            Sprite::SkierWest => SpriteRegion { x: 0, y: 37, w: 24, h: 34 },
            Sprite::SkierHit => SpriteRegion { x: 0, y: 78, w: 31, h: 31 },
            Sprite::SkierJumping => SpriteRegion { x: 84, y: 0, w: 32, h: 34 },
            Sprite::MonsterEast1 => SpriteRegion { x: 64, y: 112, w: 26, h: 43 },
            Sprite::MonsterEast2 => SpriteRegion { x: 90, y: 112, w: 32, h: 43 },
            Sprite::MonsterWest1 => SpriteRegion { x: 64, y: 158, w: 26, h: 43 },
            Sprite::MonsterWest2 => SpriteRegion { x: 90, y: 158, w: 32, h: 43 },
            Sprite::MonsterEating1 => SpriteRegion { x: 122, y: 112, w: 34, h: 43 },
            Sprite::MonsterEating2 => SpriteRegion { x: 156, y: 112, w: 31, h: 43 },
            Sprite::MonsterEating3 => SpriteRegion { x: 187, y: 112, w: 31, h: 43 },
            Sprite::MonsterEating4 => SpriteRegion { x: 219, y: 112, w: 25, h: 43 },
            Sprite::MonsterEating5 => SpriteRegion { x: 243, y: 112, w: 26, h: 43 },
            Sprite::SmallTree => SpriteRegion { x: 0, y: 28, w: 30, h: 34 },
            Sprite::TallTree => SpriteRegion { x: 95, y: 66, w: 32, h: 64 },
            Sprite::Rock => SpriteRegion { x: 30, y: 52, w: 23, h: 11 },
            Sprite::JumpRamp => SpriteRegion { x: 109, y: 55, w: 32, h: 8 },
        }
    }

    /// Is the sprite on the object sheet (rather than the character sheet)?
    pub fn is_object(self) -> (b: bool)
        ensures
            b == self.on_object_sheet(),
    {
        match self {
            Sprite::SmallTree | Sprite::TallTree | Sprite::Rock | Sprite::JumpRamp => true,
            _ => false,
        }
    }
}

/// Most obstacles alive at once; no spawn is drawn at this count.
pub const MAX_OBSTACLES: usize = 150;

/// Chance, per spawn check and out of 1000, of a small tree.
pub const DROP_RATE_SMALL_TREE: u32 = 50;

/// Chance, per spawn check and out of 1000, of a tall tree.
pub const DROP_RATE_TALL_TREE: u32 = 25;

/// Chance, per spawn check and out of 1000, of a rock.
pub const DROP_RATE_ROCK: u32 = 15;

/// Chance, per spawn check and out of 1000, of a jump ramp.
pub const DROP_RATE_JUMP: u32 = 8;

/// Chance, per spawn check and out of 1000, that the yeti appears.
pub const MONSTER_SPAWN_RATE: u32 = 1;

/// Frames of the yeti's eating animation.
pub const EATING_FRAMES: usize = 5;

/// Lives at the start of a run.
pub const STARTING_LIVES: u32 = 5;

/// The seven skiing headings, from due west to due east.
#[derive(Clone, Copy, Debug, PartialEq, Eq, Structural)]
pub enum SkierDirection {
    West,
    WsWest,
    SWest,
    South,
    SEast,
    EsEast,
    East,
}

/// The position of a heading from west (0) to east (6).
pub open spec fn heading_index(d: SkierDirection) -> int {
    match d {
        SkierDirection::West => 0,
        SkierDirection::WsWest => 1,
        SkierDirection::SWest => 2,
        SkierDirection::South => 3,
        SkierDirection::SEast => 4,
        SkierDirection::EsEast => 5,
        SkierDirection::East => 6,
    }
}

impl SkierDirection {
    /// One heading further west, stopping at due west.
    pub open spec fn leftward(self) -> SkierDirection {
        match self {
            SkierDirection::East => SkierDirection::EsEast,
            SkierDirection::EsEast => SkierDirection::SEast,
            SkierDirection::SEast => SkierDirection::South,
            SkierDirection::South => SkierDirection::SWest,
            SkierDirection::SWest => SkierDirection::WsWest,
            SkierDirection::WsWest => SkierDirection::West,
            SkierDirection::West => SkierDirection::West,
        }
    }

    /// One heading further east, stopping at due east.
    pub open spec fn rightward(self) -> SkierDirection {
        match self {
            SkierDirection::West => SkierDirection::WsWest,
            SkierDirection::WsWest => SkierDirection::SWest,
            SkierDirection::SWest => SkierDirection::South,
            SkierDirection::South => SkierDirection::SEast,
            SkierDirection::SEast => SkierDirection::EsEast,
            SkierDirection::EsEast => SkierDirection::East,
            SkierDirection::East => SkierDirection::East,
        }
    }

    /// Due west and due east stand still.
    pub open spec fn stands_still(self) -> bool {
        self == SkierDirection::West || self == SkierDirection::East
    }

    /// The skier's sprite for this heading.
    pub open spec fn sprite_of(self) -> Sprite {
        match self {
            SkierDirection::West => Sprite::SkierWest,
            SkierDirection::WsWest => Sprite::SkierWsWest,
            SkierDirection::SWest => Sprite::SkierSwEst,
            SkierDirection::South => Sprite::SkierSouth,
            SkierDirection::SEast => Sprite::SkierSeEast,
            SkierDirection::EsEast => Sprite::SkierEsEast,
            SkierDirection::East => Sprite::SkierEast,
        }
    }

    /// Is the skier standing still (due west or due east)?
    pub fn is_stopped(self) -> (b: bool)
        ensures
            b == self.stands_still(),
    {
        match self {
            SkierDirection::West | SkierDirection::East => true,
            _ => false,
        }
    }

    /// One heading further west, stopping at due west.
    pub fn turn_left(self) -> (d: SkierDirection)
        ensures
            d == self.leftward(),
    {
        match self {
            SkierDirection::East => SkierDirection::EsEast,
            SkierDirection::EsEast => SkierDirection::SEast,
            SkierDirection::SEast => SkierDirection::South,
            SkierDirection::South => SkierDirection::SWest,
            SkierDirection::SWest => SkierDirection::WsWest,
            SkierDirection::WsWest => SkierDirection::West,
            SkierDirection::West => SkierDirection::West,
        }
    }

    /// One heading further east, stopping at due east.
    pub fn turn_right(self) -> (d: SkierDirection)
        ensures
            d == self.rightward(),
    {
        match self {
            SkierDirection::West => SkierDirection::WsWest,
            SkierDirection::WsWest => SkierDirection::SWest,
            SkierDirection::SWest => SkierDirection::South,
            SkierDirection::South => SkierDirection::SEast,
            SkierDirection::SEast => SkierDirection::EsEast,
            SkierDirection::EsEast => SkierDirection::East,
            SkierDirection::East => SkierDirection::East,
        }
    }

    /// The heading after a turn gesture: right for a positive spin, left for
    /// a negative one.
    pub fn turned(self, spin: Spin) -> (d: SkierDirection)
        ensures
            d == match spin {
                Spin::Positive => self.rightward(),
                Spin::Negative => self.leftward(),
                Spin::Zero => self,
            },
    {
        match spin {
            Spin::Positive => self.turn_right(),
            Spin::Negative => self.turn_left(),
            Spin::Zero => self,
        }
    }

    /// The skier's sprite for this heading.
    pub fn sprite_region(self) -> (r: Sprite)
        ensures
            r == self.sprite_of(),
    {
        match self {
            SkierDirection::West => Sprite::SkierWest,
            SkierDirection::WsWest => Sprite::SkierWsWest,
            SkierDirection::SWest => Sprite::SkierSwEst,
            SkierDirection::South => Sprite::SkierSouth,
            SkierDirection::SEast => Sprite::SkierSeEast,
            SkierDirection::EsEast => Sprite::SkierEsEast,
            SkierDirection::East => Sprite::SkierEast,
        }
    }
}

/// Turning moves exactly one heading towards the turn, and stops at the
/// extremes.
pub proof fn law_turns_step_one_heading(d: SkierDirection)
    ensures
        heading_index(d.rightward()) == if heading_index(d) < 6 {
            heading_index(d) + 1
        } else {
            6
        },
        heading_index(d.leftward()) == if heading_index(d) > 0 {
            heading_index(d) - 1
        } else {
            0
        },
{
}

/// A left and a right turn undo each other except at the extreme they turn
/// towards.
pub proof fn law_turns_undo_each_other(d: SkierDirection)
    ensures
        d != SkierDirection::West ==> d.leftward().rightward() == d,
        d != SkierDirection::East ==> d.rightward().leftward() == d,
{
}

/// The skier stands still exactly at the two extremes, and keeps turning
/// there into the same heading.
pub proof fn law_stopped_only_at_extremes(d: SkierDirection)
    ensures
        d.stands_still() <==> (heading_index(d) == 0 || heading_index(d) == 6),
        d == SkierDirection::West ==> d.leftward() == d,
        d == SkierDirection::East ==> d.rightward() == d,
{
}

/// The kinds of obstacle.
#[derive(Clone, Copy, Debug, PartialEq, Eq, Structural)]
pub enum ObstacleType {
    SmallTree,
    TallTree,
    Rock,
    Jump,
}

impl ObstacleType {
    /// Width of the collision box in pixels.
    pub fn collision_width(self) -> (w: u32)
        ensures
            w == match self {
                ObstacleType::SmallTree => 20u32,
                ObstacleType::TallTree => 24u32,
                ObstacleType::Rock => 18u32,
                ObstacleType::Jump => 28u32,
            },
    {
        match self {
            ObstacleType::SmallTree => 20,
            ObstacleType::TallTree => 24,
            ObstacleType::Rock => 18,
            ObstacleType::Jump => 28,
        }
    }

    /// Height of the collision box in pixels.
    pub fn collision_height(self) -> (h: u32)
        ensures
            h == match self {
                ObstacleType::SmallTree => 16u32,
                ObstacleType::TallTree => 16u32,
                ObstacleType::Rock => 10u32,
                ObstacleType::Jump => 8u32,
            },
    {
        match self {
            ObstacleType::SmallTree => 16,
            ObstacleType::TallTree => 16,
            ObstacleType::Rock => 10,
            ObstacleType::Jump => 8,
        }
    }

    /// The obstacle's sprite.
    pub fn sprite_region(self) -> (r: Sprite)
        ensures
            r == match self {
                ObstacleType::SmallTree => Sprite::SmallTree,
                ObstacleType::TallTree => Sprite::TallTree,
                ObstacleType::Rock => Sprite::Rock,
                ObstacleType::Jump => Sprite::JumpRamp,
            },
    {
        match self {
            ObstacleType::SmallTree => Sprite::SmallTree,
            ObstacleType::TallTree => Sprite::TallTree,
            ObstacleType::Rock => Sprite::Rock,
            ObstacleType::Jump => Sprite::JumpRamp,
        }
    }
}

/// The skier's sprite: crashed, else jumping, else by heading.
pub open spec fn skier_sprite_of(crashed: bool, jumping: bool, d: SkierDirection) -> Sprite {
    if crashed {
        Sprite::SkierHit
    } else if jumping {
        Sprite::SkierJumping
    } else {
        d.sprite_of()
    }
}

/// The skier's sprite: crashed, else jumping, else by heading.
pub fn skier_sprite(crashed: bool, jumping: bool, direction: SkierDirection) -> (r: Sprite)
    ensures
        r == skier_sprite_of(crashed, jumping, direction),
{
    if crashed {
        Sprite::SkierHit
    } else if jumping {
        Sprite::SkierJumping
    } else {
        direction.sprite_region()
    }
}

/// An obstacle drawn by a spawn check: its kind and the numerators over
/// 10 000 of the fractions that place it across the slope and below the
/// spawn line.
#[derive(Clone, Copy, Debug, PartialEq, Eq, Structural)]
pub struct ObstacleRoll {
    pub kind: ObstacleType,
    pub x_roll: u32,
    pub y_roll: u32,
}

/// One kind's draw: with chance `rate` in 1000 an obstacle of `kind` with two
/// placement draws. Returns the generator's state and the obstacle drawn.
pub open spec fn roll_kind(state: u32, kind: ObstacleType, rate: u32) -> (u32, Option<ObstacleRoll>) {
    let s1 = xorshift(state);
    if s1 % 1000 < rate {
        let s2 = xorshift(s1);
        let s3 = xorshift(s2);
        (s3, Some(ObstacleRoll { kind, x_roll: s2 % 10000, y_roll: s3 % 10000 }))
    } else {
        (s1, None)
    }
}

/// Appends the drawn obstacle, if any.
pub open spec fn with_roll(rolls: Seq<ObstacleRoll>, r: Option<ObstacleRoll>) -> Seq<ObstacleRoll> {
    match r {
        Some(o) => rolls.push(o),
        None => rolls,
    }
}

/// One spawn check with `count` obstacles alive: nothing at
/// [`MAX_OBSTACLES`] or more; otherwise draws for a small tree, a tall tree,
/// a rock and a jump, in that order. Returns the generator's state and the
/// obstacles drawn.
pub open spec fn obstacle_rolls(state: u32, count: usize) -> (u32, Seq<ObstacleRoll>) {
    if count >= MAX_OBSTACLES {
        (state, Seq::empty())
    } else {
        let a = roll_kind(state, ObstacleType::SmallTree, DROP_RATE_SMALL_TREE);
        let b = roll_kind(a.0, ObstacleType::TallTree, DROP_RATE_TALL_TREE);
        let c = roll_kind(b.0, ObstacleType::Rock, DROP_RATE_ROCK);
        let d = roll_kind(c.0, ObstacleType::Jump, DROP_RATE_JUMP);
        (
            d.0,
            with_roll(with_roll(with_roll(with_roll(Seq::empty(), a.1), b.1), c.1), d.1),
        )
    }
}

/// One kind's draw.
fn roll_one(rng: &mut Rng, kind: ObstacleType, rate: u32, out: &mut Vec<ObstacleRoll>)
    ensures
        final(rng).state() == roll_kind(old(rng).state(), kind, rate).0,
        final(out)@ == with_roll(old(out)@, roll_kind(old(rng).state(), kind, rate).1),
{
    if rng.range(1000) < rate {
        let x_roll = rng.unit_numerator();
        let y_roll = rng.unit_numerator();
        out.push(ObstacleRoll { kind, x_roll, y_roll });
    }
}

/// One obstacle spawn check with `count` obstacles alive (see
/// [`obstacle_rolls`]).
pub fn roll_obstacles(rng: &mut Rng, count: usize) -> (rolls: Vec<ObstacleRoll>)
    ensures
        final(rng).state() == obstacle_rolls(old(rng).state(), count).0,
        rolls@ == obstacle_rolls(old(rng).state(), count).1,
{
    let mut out: Vec<ObstacleRoll> = Vec::new();
    if count >= MAX_OBSTACLES {
        return out;
    }
    roll_one(rng, ObstacleType::SmallTree, DROP_RATE_SMALL_TREE, &mut out);
    roll_one(rng, ObstacleType::TallTree, DROP_RATE_TALL_TREE, &mut out);
    roll_one(rng, ObstacleType::Rock, DROP_RATE_ROCK, &mut out);
    roll_one(rng, ObstacleType::Jump, DROP_RATE_JUMP, &mut out);
    out
}

/// The yeti's spawn draw: with chance 1 in 1000 it appears, with a
/// numerator over 10 000 of the fraction that places it across the slope.
pub open spec fn monster_roll(state: u32) -> (u32, Option<u32>) {
    let s1 = xorshift(state);
    if s1 % 1000 < MONSTER_SPAWN_RATE {
        let s2 = xorshift(s1);
        (s2, Some(s2 % 10000))
    } else {
        (s1, None)
    }
}

/// The yeti's spawn draw (see [`monster_roll`]).
pub fn roll_monster(rng: &mut Rng) -> (r: Option<u32>)
    ensures
        final(rng).state() == monster_roll(old(rng).state()).0,
        r == monster_roll(old(rng).state()).1,
{
    if rng.range(1000) < MONSTER_SPAWN_RATE {
        Some(rng.unit_numerator())
    } else {
        None
    }
}

/// The yeti's animation state: its walking frame (1 or 2), whether it is
/// eating, its eating frame, and whether it is still active.
pub struct MonsterAnim {
    walk_frame: u8,
    eating: bool,
    eating_frame: usize,
    active: bool,
}

/// The yeti's sprite.
pub open spec fn monster_sprite_of(eating: bool, eating_frame: usize, walk_frame: u8, moving_east: bool) -> Sprite {
    if eating {
        if eating_frame == 0 {
            Sprite::MonsterEating1
        } else if eating_frame == 1 {
            Sprite::MonsterEating2
        } else if eating_frame == 2 {
            Sprite::MonsterEating3
        } else if eating_frame == 3 {
            Sprite::MonsterEating4
        } else {
            Sprite::MonsterEating5
        }
    } else if moving_east {
        if walk_frame == 1 {
            Sprite::MonsterEast1
        } else {
            Sprite::MonsterEast2
        }
    } else if walk_frame == 1 {
        Sprite::MonsterWest1
    } else {
        Sprite::MonsterWest2
    }
}

impl MonsterAnim {
    #[verifier::type_invariant]
    spec fn anim_inv(self) -> bool {
        &&& (self.walk_frame == 1 || self.walk_frame == 2)
        &&& self.eating_frame <= EATING_FRAMES
        &&& self.active ==> self.eating_frame < EATING_FRAMES
    }

    /// The walking frame (1 or 2).
    pub closed spec fn walk(self) -> u8 {
        self.walk_frame
    }

    /// Is the yeti eating?
    pub closed spec fn is_eating_spec(self) -> bool {
        self.eating
    }

    /// The eating frame.
    pub closed spec fn eat_frame(self) -> usize {
        self.eating_frame
    }

    /// Is the yeti still active?
    pub closed spec fn is_active_spec(self) -> bool {
        self.active
    }

    /// A freshly spawned yeti: walking frame 1, not eating, active.
    pub fn new() -> (m: Self)
        ensures
            m.walk() == 1,
            !m.is_eating_spec(),
            m.eat_frame() == 0,
            m.is_active_spec(),
    {
        MonsterAnim { walk_frame: 1, eating: false, eating_frame: 0, active: true }
    }

    /// Is the yeti eating?
    pub fn is_eating(&self) -> (b: bool)
        ensures
            b == self.is_eating_spec(),
    {
        self.eating
    }

    /// Is the yeti still active?
    pub fn is_active(&self) -> (b: bool)
        ensures
            b == self.is_active_spec(),
    {
        self.active
    }

    /// The current sprite.
    pub fn sprite(&self, moving_east: bool) -> (r: Sprite)
        ensures
            r == monster_sprite_of(self.is_eating_spec(), self.eat_frame(), self.walk(), moving_east),
    {
        if self.eating {
            if self.eating_frame == 0 {
                Sprite::MonsterEating1
            } else if self.eating_frame == 1 {
                Sprite::MonsterEating2
            } else if self.eating_frame == 2 {
                Sprite::MonsterEating3
            } else if self.eating_frame == 3 {
                Sprite::MonsterEating4
            } else {
                Sprite::MonsterEating5
            }
        } else if moving_east {
            if self.walk_frame == 1 {
                Sprite::MonsterEast1
            } else {
                Sprite::MonsterEast2
            }
        } else if self.walk_frame == 1 {
            Sprite::MonsterWest1
        } else {
            Sprite::MonsterWest2
        }
    }

    /// Switches between the two walking frames.
    pub fn toggle_walk_frame(&mut self)
        ensures
            final(self).walk() == if old(self).walk() == 1 { 2u8 } else { 1u8 },
            final(self).is_eating_spec() == old(self).is_eating_spec(),
            final(self).eat_frame() == old(self).eat_frame(),
            final(self).is_active_spec() == old(self).is_active_spec(),
    {
        proof {
            use_type_invariant(&*self);
        }
        let f: u8 = if self.walk_frame == 1 { 2 } else { 1 };
        *self = MonsterAnim { walk_frame: f, eating: self.eating, eating_frame: self.eating_frame, active: self.active };
    }

    /// Starts the eating animation at its first frame.
    pub fn start_eating(&mut self)
        ensures
            final(self).is_eating_spec(),
            final(self).eat_frame() == 0,
            final(self).walk() == old(self).walk(),
            final(self).is_active_spec() == old(self).is_active_spec(),
    {
        proof {
            use_type_invariant(&*self);
        }
        *self = MonsterAnim { walk_frame: self.walk_frame, eating: true, eating_frame: 0, active: self.active };
    }

    /// One eating frame has elapsed: moves to the next frame; after the last
    /// one the yeti leaves (becomes inactive) and `true` is returned. An
    /// inactive yeti does nothing.
    pub fn eating_frame_elapsed(&mut self) -> (done: bool)
        ensures
            !old(self).is_active_spec() ==> !done && final(self).eat_frame() == old(self).eat_frame()
                && !final(self).is_active_spec(),
            old(self).is_active_spec() ==> final(self).eat_frame() == old(self).eat_frame() + 1 && done
                == (final(self).eat_frame() >= EATING_FRAMES) && final(self).is_active_spec() == !done,
            final(self).walk() == old(self).walk(),
            final(self).is_eating_spec() == old(self).is_eating_spec(),
    {
        proof {
            use_type_invariant(&*self);
        }
        if !self.active {
            return false;
        }
        let frame = self.eating_frame + 1;
        let done = frame >= EATING_FRAMES;
        *self = MonsterAnim { walk_frame: self.walk_frame, eating: self.eating, eating_frame: frame, active: !done };
        done
    }
}

/// The skier's remaining lives and whether the run is over.
pub struct Lives {
    remaining: u32,
    game_over: bool,
}

impl Lives {
    #[verifier::type_invariant]
    spec fn lives_inv(self) -> bool {
        self.game_over == (self.remaining == 0)
    }

    /// Lives remaining.
    pub closed spec fn left(self) -> u32 {
        self.remaining
    }

    /// Is the run over?
    pub closed spec fn over(self) -> bool {
        self.game_over
    }

    /// A run with [`STARTING_LIVES`] lives.
    pub fn new() -> (l: Self)
        ensures
            l.left() == STARTING_LIVES,
            !l.over(),
    {
        Lives { remaining: STARTING_LIVES, game_over: false }
    }

    /// Lives remaining.
    pub fn remaining(&self) -> (n: u32)
        ensures
            n == self.left(),
    {
        self.remaining
    }

    /// Is the run over (no life left)?
    pub fn is_game_over(&self) -> (b: bool)
        ensures
            b == self.over(),
            b == (self.left() == 0),
    {
        proof {
            use_type_invariant(self);
        }
        self.game_over
    }

    /// The yeti ate the skier: one life fewer (never below zero); the run is
    /// over when none is left.
    pub fn lose_life(&mut self) -> (over: bool)
        ensures
            final(self).left() == if old(self).left() > 0 {
                (old(self).left() - 1) as u32
            } else {
                0u32
            },
            over == final(self).over(),
            over == (final(self).left() == 0),
    {
        let r = if self.remaining > 0 { self.remaining - 1 } else { 0 };
        *self = Lives { remaining: r, game_over: r == 0 };
        r == 0
    }
}


/// What the skier is doing, in the order the cart checks it each frame.
#[derive(Clone, Copy, Debug, PartialEq, Eq, Structural)]
pub enum SkierPhase {
    /// No life is left; the action button starts a new run.
    GameOver,
    /// The yeti is eating the skier.
    BeingEaten,
    /// The skier fell and waits to stand up.
    Crashed,
    /// The skier is skiing (possibly jumping or boosting).
    Skiing,
}

/// What running into an obstacle did.
#[derive(Clone, Copy, Debug, PartialEq, Eq, Structural)]
pub enum HitOutcome {
    /// Nothing: the skier was already down or in the air.
    Ignored,
    /// A ramp: the skier jumps.
    Jumped,
    /// Anything else: the skier crashes.
    Crashed,
}

/// The skier's discrete state: heading, the crash, jump, boost and
/// being-eaten flags, and the lives.
pub struct SkierState {
    direction: SkierDirection,
    crashed: bool,
    jumping: bool,
    boosting: bool,
    being_eaten: bool,
    lives: Lives,
}

/// The phase of a skier with these flags.
pub open spec fn phase_of(over: bool, being_eaten: bool, crashed: bool) -> SkierPhase {
    if over {
        SkierPhase::GameOver
    } else if being_eaten {
        SkierPhase::BeingEaten
    } else if crashed {
        SkierPhase::Crashed
    } else {
        SkierPhase::Skiing
    }
}

impl SkierState {
    /// The skier's heading.
    pub closed spec fn heading(self) -> SkierDirection {
        self.direction
    }

    /// Has the skier crashed?
    pub closed spec fn is_crashed(self) -> bool {
        self.crashed
    }

    /// Is the skier in the air?
    pub closed spec fn is_jumping(self) -> bool {
        self.jumping
    }

    /// Is a boost running?
    pub closed spec fn is_boosting(self) -> bool {
        self.boosting
    }

    /// Is the yeti eating the skier?
    pub closed spec fn is_being_eaten(self) -> bool {
        self.being_eaten
    }

    /// Lives remaining.
    pub closed spec fn lives_left(self) -> u32 {
        self.lives.left()
    }

    /// Is the run over?
    pub closed spec fn is_over(self) -> bool {
        self.lives.over()
    }

    /// The phase of the skier (see [`phase_of`]).
    pub open spec fn phase_spec(self) -> SkierPhase {
        phase_of(self.is_over(), self.is_being_eaten(), self.is_crashed())
    }

    /// A fresh run: heading south, all flags down, [`STARTING_LIVES`] lives.
    pub fn new() -> (s: Self)
        ensures
            s.heading() == SkierDirection::South,
            !s.is_crashed(),
            !s.is_jumping(),
            !s.is_boosting(),
            !s.is_being_eaten(),
            s.lives_left() == STARTING_LIVES,
            !s.is_over(),
    {
        SkierState {
            direction: SkierDirection::South,
            crashed: false,
            jumping: false,
            boosting: false,
            being_eaten: false,
            lives: Lives::new(),
        }
    }

    /// The skier's heading.
    pub fn direction(&self) -> (d: SkierDirection)
        ensures
            d == self.heading(),
    {
        self.direction
    }

    /// Has the skier crashed?
    pub fn crashed(&self) -> (b: bool)
        ensures
            b == self.is_crashed(),
    {
        self.crashed
    }

    /// Is the skier in the air?
    pub fn jumping(&self) -> (b: bool)
        ensures
            b == self.is_jumping(),
    {
        self.jumping
    }

    /// Is a boost running?
    pub fn boosting(&self) -> (b: bool)
        ensures
            b == self.is_boosting(),
    {
        self.boosting
    }

    /// Is the yeti eating the skier?
    pub fn being_eaten(&self) -> (b: bool)
        ensures
            b == self.is_being_eaten(),
    {
        self.being_eaten
    }

    /// Lives remaining.
    pub fn lives(&self) -> (n: u32)
        ensures
            n == self.lives_left(),
    {
        self.lives.remaining()
    }

    /// The phase this frame is in.
    pub fn phase(&self) -> (p: SkierPhase)
        ensures
            p == self.phase_spec(),
            (p == SkierPhase::GameOver) == self.is_over(),
            !self.is_over() && self.is_being_eaten() ==> p == SkierPhase::BeingEaten,
            (p == SkierPhase::Crashed) == (!self.is_over() && !self.is_being_eaten() && self.is_crashed()),
            (p == SkierPhase::Skiing) == (!self.is_over() && !self.is_being_eaten() && !self.is_crashed()),
    {
        if self.lives.is_game_over() {
            SkierPhase::GameOver
        } else if self.being_eaten {
            SkierPhase::BeingEaten
        } else if self.crashed {
            SkierPhase::Crashed
        } else {
            SkierPhase::Skiing
        }
    }

    /// The skier's sprite: crashed, else jumping, else by heading.
    pub fn sprite(&self) -> (r: Sprite)
        ensures
            r == skier_sprite_of(self.is_crashed(), self.is_jumping(), self.heading()),
    {
        skier_sprite(self.crashed, self.jumping, self.direction)
    }

    /// Turns by one heading for a turn gesture (see [`SkierDirection::turned`]).
    pub fn turn(&mut self, spin: Spin)
        ensures
            final(self).heading() == match spin {
                Spin::Positive => old(self).heading().rightward(),
                Spin::Negative => old(self).heading().leftward(),
                Spin::Zero => old(self).heading(),
            },
            final(self).is_crashed() == old(self).is_crashed(),
            final(self).is_jumping() == old(self).is_jumping(),
            final(self).is_boosting() == old(self).is_boosting(),
            final(self).is_being_eaten() == old(self).is_being_eaten(),
            final(self).lives_left() == old(self).lives_left(),
            final(self).is_over() == old(self).is_over(),
    {
        self.direction = self.direction.turned(spin);
    }

    /// The skier ran into an obstacle of `kind`: ignored while crashed or
    /// jumping; a ramp starts a jump; anything else is a crash.
    pub fn hit(&mut self, kind: ObstacleType) -> (out: HitOutcome)
        ensures
            old(self).is_crashed() || old(self).is_jumping() ==> out == HitOutcome::Ignored
                && final(self).is_crashed() == old(self).is_crashed() && final(self).is_jumping()
                == old(self).is_jumping(),
            !old(self).is_crashed() && !old(self).is_jumping() && kind == ObstacleType::Jump ==> out
                == HitOutcome::Jumped && final(self).is_jumping() && !final(self).is_crashed(),
            !old(self).is_crashed() && !old(self).is_jumping() && kind != ObstacleType::Jump ==> out
                == HitOutcome::Crashed && final(self).is_crashed() && !final(self).is_jumping(),
            final(self).heading() == old(self).heading(),
            final(self).is_boosting() == old(self).is_boosting(),
            final(self).is_being_eaten() == old(self).is_being_eaten(),
            final(self).lives_left() == old(self).lives_left(),
            final(self).is_over() == old(self).is_over(),
    {
        if self.crashed || self.jumping {
            HitOutcome::Ignored
        } else if kind == ObstacleType::Jump {
            self.jumping = true;
            HitOutcome::Jumped
        } else {
            self.crashed = true;
            HitOutcome::Crashed
        }
    }

    /// The crash wait is over and the action button was pressed: the skier
    /// stands up heading south.
    pub fn stand_up(&mut self)
        ensures
            !final(self).is_crashed(),
            final(self).heading() == SkierDirection::South,
            final(self).is_jumping() == old(self).is_jumping(),
            final(self).is_boosting() == old(self).is_boosting(),
            final(self).is_being_eaten() == old(self).is_being_eaten(),
            final(self).lives_left() == old(self).lives_left(),
            final(self).is_over() == old(self).is_over(),
    {
        self.crashed = false;
        self.direction = SkierDirection::South;
    }

    /// The jump is over.
    pub fn land(&mut self)
        ensures
            !final(self).is_jumping(),
            final(self).heading() == old(self).heading(),
            final(self).is_crashed() == old(self).is_crashed(),
            final(self).is_boosting() == old(self).is_boosting(),
            final(self).is_being_eaten() == old(self).is_being_eaten(),
            final(self).lives_left() == old(self).lives_left(),
            final(self).is_over() == old(self).is_over(),
    {
        self.jumping = false;
    }

    /// The action button asks for a boost: it starts when none is running
    /// and the cool-down is over. Returns whether a boost started.
    pub fn try_boost(&mut self, cooldown_over: bool) -> (started: bool)
        ensures
            started == (!old(self).is_boosting() && cooldown_over),
            final(self).is_boosting() == (old(self).is_boosting() || started),
            final(self).heading() == old(self).heading(),
            final(self).is_crashed() == old(self).is_crashed(),
            final(self).is_jumping() == old(self).is_jumping(),
            final(self).is_being_eaten() == old(self).is_being_eaten(),
            final(self).lives_left() == old(self).lives_left(),
            final(self).is_over() == old(self).is_over(),
    {
        if !self.boosting && cooldown_over {
            self.boosting = true;
            true
        } else {
            false
        }
    }

    /// The boost ran out.
    pub fn end_boost(&mut self)
        ensures
            !final(self).is_boosting(),
            final(self).heading() == old(self).heading(),
            final(self).is_crashed() == old(self).is_crashed(),
            final(self).is_jumping() == old(self).is_jumping(),
            final(self).is_being_eaten() == old(self).is_being_eaten(),
            final(self).lives_left() == old(self).lives_left(),
            final(self).is_over() == old(self).is_over(),
    {
        self.boosting = false;
    }

    /// The yeti caught the skier.
    pub fn caught(&mut self)
        ensures
            final(self).is_being_eaten(),
            final(self).heading() == old(self).heading(),
            final(self).is_crashed() == old(self).is_crashed(),
            final(self).is_jumping() == old(self).is_jumping(),
            final(self).is_boosting() == old(self).is_boosting(),
            final(self).lives_left() == old(self).lives_left(),
            final(self).is_over() == old(self).is_over(),
    {
        self.being_eaten = true;
    }

    /// The yeti finished eating: one life fewer; with lives left the skier
    /// goes on heading south, otherwise the run is over. Returns whether the
    /// run is over.
    pub fn eaten(&mut self) -> (over: bool)
        ensures
            !final(self).is_being_eaten(),
            final(self).lives_left() == if old(self).lives_left() > 0 {
                (old(self).lives_left() - 1) as u32
            } else {
                0u32
            },
            over == final(self).is_over(),
            over == (final(self).lives_left() == 0),
            !over ==> final(self).heading() == SkierDirection::South,
            over ==> final(self).heading() == old(self).heading(),
            final(self).is_crashed() == old(self).is_crashed(),
            final(self).is_jumping() == old(self).is_jumping(),
            final(self).is_boosting() == old(self).is_boosting(),
    {
        self.being_eaten = false;
        let over = self.lives.lose_life();
        if !over {
            self.direction = SkierDirection::South;
        }
        over
    }
}

/// The yeti comes before the crash: a skier whose run goes on and who is
/// being eaten is in the being-eaten phase whether or not they are down; the
/// crashed phase needs a fallen skier whom the yeti is not eating; the
/// game-over phase is exactly a run that is over.
pub proof fn law_yeti_before_crash(s: SkierState)
    ensures
        (s.phase_spec() == SkierPhase::GameOver) == s.is_over(),
        !s.is_over() && s.is_being_eaten() ==> s.phase_spec() == SkierPhase::BeingEaten,
        s.phase_spec() == SkierPhase::BeingEaten ==> s.is_being_eaten(),
        s.phase_spec() == SkierPhase::Crashed ==> s.is_crashed() && !s.is_being_eaten(),
        s.phase_spec() == SkierPhase::Skiing ==> !s.is_crashed() && !s.is_being_eaten() && !s.is_over(),
{
}

/// A skier who has fallen and is then caught by the yeti is being eaten, not
/// lying crashed, as long as the run goes on: the catch (see
/// [`SkierState::caught`]) turns any state whose run is not over into the
/// being-eaten phase.
pub proof fn law_caught_while_down_is_eaten(before: SkierState, after: SkierState)
    requires
        before.is_crashed(),
        !before.is_over(),
        after.is_being_eaten(),
        after.is_crashed() == before.is_crashed(),
        after.is_over() == before.is_over(),
    ensures
        after.phase_spec() == SkierPhase::BeingEaten,
{
}

} // verus!
