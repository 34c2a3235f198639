//! Snake: the grid rules of the Snake cart.
//!
//! A 27 × 42 grid holds one snake (one player) or two (two players) and the
//! food on the board. Snakes move one cell per step, wrap at the walls when
//! wrapping is on, die by running into themselves, into the other snake or
//! (without wrapping) into a wall, and grow by eating food. Food spawns on a
//! free cell found by up to 100 random draws.
//!
//! Step timing, speed, boost timers and food lifetimes are continuous and are
//! kept by the host; each food carries an opaque tag of the host's choosing
//! (its remaining lifetime, for instance).

use vstd::prelude::*;

use crate::modes::{
    mode_of_selection, selection_of_mode, spun_selection, ModeMenu, PlayerMode, Screen, Spin,
};
use crate::rng::{xorshift, Rng};

verus! {

/// Grid width in cells.
pub const GRID_WIDTH: i32 = 27;

/// Grid height in cells.
pub const GRID_HEIGHT: i32 = 42;

/// Length of a freshly spawned snake.
pub const INITIAL_LENGTH: usize = 4;

/// Points for a normal food.
pub const POINTS_NORMAL: u32 = 10;

/// Points for a bonus food.
pub const POINTS_BONUS: u32 = 50;

/// Points for a speed food.
pub const POINTS_SPEED: u32 = 25;

/// Chance, out of 100, that player one eating a normal food earns an extra
/// timed food.
pub const BONUS_SPAWN_CHANCE: u32 = 15;

/// Random draws a food spawn tries before giving up.
pub const SPAWN_ATTEMPTS: usize = 100;

/// The largest score from which any food can still be eaten without the
/// score leaving `u32`.
pub const SCORE_CAP: u32 = 4294967245;

/// The seed of the cart's generator.
pub const SNAKE_SEED: u32 = 0xDEAD_BEEF;

/// A grid cell `(x, y)`; `y` grows downwards.
pub type Cell = (i32, i32);

/// Is the cell on the grid?
pub open spec fn in_grid(c: Cell) -> bool {
    0 <= c.0 < GRID_WIDTH && 0 <= c.1 < GRID_HEIGHT
}

/// A heading on the grid.
#[derive(Clone, Copy, Debug, PartialEq, Eq, Structural)]
pub enum Direction {
    Up,
    Down,
    Left,
    Right,
}

impl Direction {
    /// The reverse heading.
    pub open spec fn reverse(self) -> Direction {
        match self {
            Direction::Up => Direction::Down,
            Direction::Down => Direction::Up,
            Direction::Left => Direction::Right,
            Direction::Right => Direction::Left,
        }
    }

    /// Horizontal component of one step.
    pub open spec fn dx(self) -> i32 {
        match self {
            Direction::Left => -1i32,
            Direction::Right => 1,
            _ => 0,
        }
    }

    /// Vertical component of one step.
    pub open spec fn dy(self) -> i32 {
        match self {
            Direction::Up => -1i32,
            Direction::Down => 1,
            _ => 0,
        }
    }

    /// The heading a quarter turn clockwise.
    pub open spec fn clockwise(self) -> Direction {
        match self {
            Direction::Up => Direction::Right,
            Direction::Right => Direction::Down,
            Direction::Down => Direction::Left,
            Direction::Left => Direction::Up,
        }
    }

    /// The heading a quarter turn counter-clockwise.
    pub open spec fn counter_clockwise(self) -> Direction {
        match self {
            Direction::Up => Direction::Left,
            Direction::Left => Direction::Down,
            Direction::Down => Direction::Right,
            Direction::Right => Direction::Up,
        }
    }

    /// The reverse heading.
    pub fn opposite(self) -> (d: Direction)
        ensures
            d == self.reverse(),
    {
        match self {
            Direction::Up => Direction::Down,
            Direction::Down => Direction::Up,
            Direction::Left => Direction::Right,
            Direction::Right => Direction::Left,
        }
    }

    /// One step `(dx, dy)` in this heading.
    pub fn delta(self) -> (d: (i32, i32))
        ensures
            d == (self.dx(), self.dy()),
    {
        match self {
            Direction::Up => (0, -1),
            Direction::Down => (0, 1),
            Direction::Left => (-1, 0),
            Direction::Right => (1, 0),
        }
    }

    /// A quarter turn clockwise.
    pub fn turn_cw(self) -> (d: Direction)
        ensures
            d == self.clockwise(),
    {
        match self {
            Direction::Up => Direction::Right,
            Direction::Right => Direction::Down,
            Direction::Down => Direction::Left,
            Direction::Left => Direction::Up,
        }
    }

    /// A quarter turn counter-clockwise.
    pub fn turn_ccw(self) -> (d: Direction)
        ensures
            d == self.counter_clockwise(),
    {
        match self {
            Direction::Up => Direction::Left,
            Direction::Left => Direction::Down,
            Direction::Down => Direction::Right,
            Direction::Right => Direction::Up,
        }
    }
}

/// Reversing twice gives the heading back.
pub proof fn law_opposite_involution(d: Direction)
    ensures
        d.reverse().reverse() == d,
{
}

/// A clockwise and a counter-clockwise turn undo each other.
pub proof fn law_turns_undo_each_other(d: Direction)
    ensures
        d.clockwise().counter_clockwise() == d,
        d.counter_clockwise().clockwise() == d,
{
}

/// Four clockwise quarter turns are a full turn; two are a reversal.
pub proof fn law_four_turns_full_circle(d: Direction)
    ensures
        d.clockwise().clockwise() == d.reverse(),
        d.clockwise().clockwise().clockwise().clockwise() == d,
{
}

/// The reverse heading steps the opposite way.
pub proof fn law_opposite_negates_delta(d: Direction)
    ensures
        d.reverse().dx() == -d.dx(),
        d.reverse().dy() == -d.dy(),
{
}

/// A quarter turn never points back the way the snake came, so a steer is
/// never refused as a reversal.
pub proof fn law_turn_never_reverses(d: Direction)
    ensures
        d.clockwise() != d.reverse(),
        d.counter_clockwise() != d.reverse(),
{
}

/// The kinds of food.
#[derive(Clone, Copy, Debug, PartialEq, Eq, Structural)]
pub enum FoodType {
    Normal,
    Bonus,
    Speed,
}

/// Points that eating a food of this kind scores.
pub open spec fn points_of(kind: FoodType) -> u32 {
    match kind {
        FoodType::Normal => POINTS_NORMAL,
        FoodType::Bonus => POINTS_BONUS,
        FoodType::Speed => POINTS_SPEED,
    }
}

/// A food on the grid with the host's tag.
#[derive(Clone, Copy)]
pub struct Food<L> {
    pub x: i32,
    pub y: i32,
    pub food_type: FoodType,
    pub tag: L,
}

/// Does the food lie on the cell?
pub open spec fn food_on<L>(f: Food<L>, c: Cell) -> bool {
    f.x == c.0 && f.y == c.1
}

/// One snake: its cells (head first), its heading, the heading queued for the
/// next step, whether it is alive, and its score.
pub struct Snake {
    pub body: std::collections::VecDeque<Cell>,
    pub direction: Direction,
    pub next_direction: Direction,
    pub alive: bool,
    pub score: u32,
}

/// All cells of the body lie on the grid.
pub open spec fn cells_in_grid(body: Seq<Cell>) -> bool {
    forall|i: int| 0 <= i < body.len() ==> in_grid(#[trigger] body[i])
}

/// The body of a new snake: `INITIAL_LENGTH` cells from the head backwards.
pub open spec fn initial_body(x: i32, y: i32, d: Direction) -> Seq<Cell> {
    Seq::new(
        INITIAL_LENGTH as nat,
        |i: int| ((x + d.reverse().dx() * i) as i32, (y + d.reverse().dy() * i) as i32),
    )
}

/// The heading a step takes: the queued heading, unless it reverses.
pub open spec fn effective_direction(s: Snake) -> Direction {
    if s.next_direction != s.direction.reverse() {
        s.next_direction
    } else {
        s.direction
    }
}

/// Wraps a coordinate that left `[0, size)` by one cell.
pub open spec fn wrap_coord(v: i32, size: i32) -> i32 {
    if v < 0 {
        (size - 1) as i32
    } else if v >= size {
        0
    } else {
        v
    }
}

/// Where a step from `c` in heading `d` lands, or `None` if it leaves the
/// grid without wrapping.
pub open spec fn step_target(c: Cell, d: Direction, wrap: bool) -> Option<Cell> {
    let nx = (c.0 + d.dx()) as i32;
    let ny = (c.1 + d.dy()) as i32;
    if wrap {
        Some((wrap_coord(nx, GRID_WIDTH), wrap_coord(ny, GRID_HEIGHT)))
    } else if in_grid((nx, ny)) {
        Some((nx, ny))
    } else {
        None
    }
}

/// A step from a grid cell always stays on the grid (when it happens).
pub proof fn law_step_stays_in_grid(c: Cell, d: Direction, wrap: bool)
    requires
        in_grid(c),
    ensures
        step_target(c, d, wrap) matches Some(n) ==> in_grid(n),
        wrap ==> step_target(c, d, wrap) is Some,
{
}

/// On wrapping walls a step is a move modulo the grid's size in each
/// coordinate.
pub proof fn law_wrap_is_modular(c: Cell, d: Direction)
    requires
        in_grid(c),
    ensures
        step_target(c, d, true) == Some(
            (((c.0 + d.dx()) % (GRID_WIDTH as int)) as i32, ((c.1 + d.dy()) % (GRID_HEIGHT as int)) as i32),
        ),
{
}

/// A step never heads back the way the snake came: the queued heading is
/// taken unless it is the reverse of the current one, which is then kept.
pub proof fn law_step_never_reverses(s: Snake)
    ensures
        effective_direction(s) != s.direction.reverse(),
        s.next_direction != s.direction.reverse() ==> effective_direction(s) == s.next_direction,
        s.next_direction == s.direction.reverse() ==> effective_direction(s) == s.direction,
{
}

impl Snake {
    /// A well-formed snake has a head and lies on the grid.
    pub open spec fn wf(self) -> bool {
        self.body@.len() >= 1 && cells_in_grid(self.body@)
    }

    /// The head cell.
    pub open spec fn head_cell(self) -> Cell {
        self.body@[0]
    }

    /// Does the body cover the cell?
    pub open spec fn covers(self, c: Cell) -> bool {
        self.body@.contains(c)
    }

    /// A live snake of `INITIAL_LENGTH` cells with its head at `(x, y)`,
    /// heading `d`, trailing away from it, scoring zero.
    pub fn new(x: i32, y: i32, d: Direction) -> (s: Snake)
        requires
            in_grid((x, y)),
            in_grid(((x + d.reverse().dx() * 3) as i32, (y + d.reverse().dy() * 3) as i32)),
        ensures
            s.wf(),
            s.body@ == initial_body(x, y, d),
            s.direction == d,
            s.next_direction == d,
            s.alive,
            s.score == 0,
    {
        let mut body: std::collections::VecDeque<Cell> = std::collections::VecDeque::with_capacity(100);
        let (dx, dy) = d.opposite().delta();
        let mut i: i32 = 0;
        while i < 4
            invariant
                0 <= i <= 4,
                dx == d.reverse().dx(),
                dy == d.reverse().dy(),
                in_grid((x, y)),
                in_grid(((x + dx * 3) as i32, (y + dy * 3) as i32)),
                body@.len() == i,
                forall|k: int|
                    0 <= k < i ==> #[trigger] body@[k] == ((x + dx * k) as i32, (y + dy * k) as i32),
            decreases 4 - i,
        {
            body.push_back((x + dx * i, y + dy * i));
            i = i + 1;
        }
        let s = Snake { body, direction: d, next_direction: d, alive: true, score: 0 };
        assert(s.body@ =~= initial_body(x, y, d));
        assert(cells_in_grid(s.body@)) by {
            assert forall|k: int| 0 <= k < s.body@.len() implies in_grid(#[trigger] s.body@[k]) by {
                assert(-1 <= dx <= 1 && -1 <= dy <= 1);
                assert(0 <= k <= 3);
            }
        }
        s
    }

    /// The head cell.
    pub fn head(&self) -> (c: Cell)
        requires
            self.wf(),
        ensures
            c == self.head_cell(),
            in_grid(c),
    {
        self.body[0]
    }

    /// Queues a quarter turn: clockwise for a positive spin,
    /// counter-clockwise for a negative one; a turn that would reverse the
    /// snake is refused (which a quarter turn never does).
    pub fn steer(&mut self, spin: Spin)
        ensures
            final(self).next_direction == match spin {
                Spin::Positive => old(self).direction.clockwise(),
                Spin::Negative => old(self).direction.counter_clockwise(),
                Spin::Zero => old(self).next_direction,
            },
            final(self).body == old(self).body,
            final(self).direction == old(self).direction,
            final(self).alive == old(self).alive,
            final(self).score == old(self).score,
    {
        match spin {
            Spin::Positive => {
                let new_dir = self.direction.turn_cw();
                if new_dir != self.direction.opposite() {
                    self.next_direction = new_dir;
                }
            },
            Spin::Negative => {
                let new_dir = self.direction.turn_ccw();
                if new_dir != self.direction.opposite() {
                    self.next_direction = new_dir;
                }
            },
            Spin::Zero => {},
        }
    }

    /// Takes one step. A dead snake does not move. The queued heading is
    /// taken unless it reverses; leaving the grid without wrapping kills the
    /// snake; otherwise the new head is pushed and `true` is returned (the
    /// tail is not yet removed).
    pub fn move_forward(&mut self, wrap: bool) -> (moved: bool)
        requires
            old(self).wf(),
        ensures
            final(self).wf(),
            final(self).next_direction == old(self).next_direction,
            final(self).score == old(self).score,
            !old(self).alive ==> !moved && *final(self) == *old(self),
            old(self).alive ==> ({
                let d = effective_direction(*old(self));
                let t = step_target(old(self).head_cell(), d, wrap);
                &&& final(self).direction == d
                &&& moved == t is Some
                &&& final(self).alive == t is Some
                &&& (t matches Some(n) ==> final(self).body@ == seq![n] + old(self).body@)
                &&& (t is None ==> final(self).body@ == old(self).body@)
            }),
    {
        if !self.alive {
            return false;
        }
        if self.next_direction != self.direction.opposite() {
            self.direction = self.next_direction;
        }
        let (hx, hy) = self.head();
        let (dx, dy) = self.direction.delta();
        let mut new_x = hx + dx;
        let mut new_y = hy + dy;
        if wrap {
            if new_x < 0 {
                new_x = GRID_WIDTH - 1;
            }
            if new_x >= GRID_WIDTH {
                new_x = 0;
            }
            if new_y < 0 {
                new_y = GRID_HEIGHT - 1;
            }
            if new_y >= GRID_HEIGHT {
                new_y = 0;
            }
        } else if !(0 <= new_x && new_x < GRID_WIDTH) || !(0 <= new_y && new_y < GRID_HEIGHT) {
            self.alive = false;
            return false;
        }
        let ghost old_body = self.body@;
        self.body.push_front((new_x, new_y));
        assert(cells_in_grid(self.body@)) by {
            assert forall|k: int| 0 <= k < self.body@.len() implies in_grid(#[trigger] self.body@[k]) by {
                if k > 0 {
                    assert(self.body@[k] == old_body[k - 1]);
                }
            }
        }
        true
    }

    /// Drops the last cell of the body.
    fn shrink_tail(&mut self)
        requires
            old(self).body@.len() >= 2,
            cells_in_grid(old(self).body@),
        ensures
            final(self).wf(),
            final(self).body@ == old(self).body@.drop_last(),
            final(self).direction == old(self).direction,
            final(self).next_direction == old(self).next_direction,
            final(self).alive == old(self).alive,
            final(self).score == old(self).score,
    {
        let _ = self.body.pop_back();
    }

    /// Does the head lie on any later cell of the body?
    pub fn self_collision(&self) -> (hit: bool)
        requires
            self.wf(),
        ensures
            hit == self.body@.drop_first().contains(self.head_cell()),
    {
        let head = self.head();
        let n = self.body.len();
        let mut i: usize = 1;
        while i < n
            invariant
                1 <= i <= n,
                n == self.body@.len(),
                head == self.head_cell(),
                forall|k: int| 1 <= k < i ==> self.body@[k] != head,
            decreases n - i,
        {
            let seg = self.body[i];
            if seg.0 == head.0 && seg.1 == head.1 {
                assert(self.body@.drop_first()[i - 1] == head);
                return true;
            }
            i = i + 1;
        }
        assert(!self.body@.drop_first().contains(head)) by {
            if self.body@.drop_first().contains(head) {
                let k = choose|k: int| 0 <= k < self.body@.drop_first().len() && self.body@.drop_first()[k] == head;
                assert(self.body@[k + 1] == head);
            }
        }
        false
    }

    /// Does the head lie on any cell of `other`?
    pub fn collides_with(&self, other: &Snake) -> (hit: bool)
        requires
            self.wf(),
        ensures
            hit == other.covers(self.head_cell()),
    {
        let head = self.head();
        other.occupies(head.0, head.1)
    }

    /// Does the body cover `(x, y)`?
    pub fn occupies(&self, x: i32, y: i32) -> (hit: bool)
        ensures
            hit == self.covers((x, y)),
    {
        let n = self.body.len();
        let mut i: usize = 0;
        while i < n
            invariant
                0 <= i <= n,
                n == self.body@.len(),
                forall|k: int| 0 <= k < i ==> self.body@[k] != (x, y),
            decreases n - i,
        {
            let seg = self.body[i];
            if seg.0 == x && seg.1 == y {
                assert(self.body@[i as int] == (x, y));
                return true;
            }
            i = i + 1;
        }
        false
    }

    /// Number of cells.
    pub fn len(&self) -> (n: usize)
        ensures
            n == self.body@.len(),
    {
        self.body.len()
    }

    /// The cell at position `i` (the head is position 0).
    pub fn cell(&self, i: usize) -> (c: Cell)
        requires
            i < self.body@.len(),
        ensures
            c == self.body@[i as int],
    {
        self.body[i]
    }
}


/// Is the food the first one, in board order, that lies on the cell?
pub open spec fn is_first_food_at<L>(foods: Seq<Food<L>>, c: Cell, i: int) -> bool {
    &&& 0 <= i < foods.len()
    &&& food_on(foods[i], c)
    &&& forall|j: int| 0 <= j < i ==> !food_on(#[trigger] foods[j], c)
}

/// The index of the first food on the cell, if any.
pub open spec fn first_food_at<L>(foods: Seq<Food<L>>, c: Cell) -> Option<int> {
    if exists|i: int| is_first_food_at(foods, c, i) {
        Some(choose|i: int| is_first_food_at(foods, c, i))
    } else {
        None
    }
}

/// The first food on a cell is unique.
proof fn lemma_first_food_unique<L>(foods: Seq<Food<L>>, c: Cell, i: int, k: int)
    requires
        is_first_food_at(foods, c, i),
        is_first_food_at(foods, c, k),
    ensures
        i == k,
{
    if i < k {
        assert(!food_on(foods[i], c));
    } else if k < i {
        assert(!food_on(foods[k], c));
    }
}

/// No two foods share a cell.
pub open spec fn foods_apart<L>(foods: Seq<Food<L>>) -> bool {
    forall|i: int, j: int|
        0 <= i < j < foods.len() ==> !food_on(#[trigger] foods[i], (#[trigger] foods[j].x, foods[j].y))
}

/// Is any food on the cell?
pub open spec fn food_covers<L>(foods: Seq<Food<L>>, c: Cell) -> bool {
    exists|i: int| 0 <= i < foods.len() && food_on(#[trigger] foods[i], c)
}

/// Is the cell taken by either body or by a food?
pub open spec fn occupied<L>(b1: Seq<Cell>, b2: Seq<Cell>, foods: Seq<Food<L>>, c: Cell) -> bool {
    b1.contains(c) || b2.contains(c) || food_covers(foods, c)
}

/// The random search for a free cell: each try draws `x` in `[0, 27)` then
/// `y` in `[0, 42)` and stops at the first free cell; after `tries` taken
/// cells it gives up. Returns the generator's state and the cell found.
pub open spec fn spawn_search<L>(
    state: u32,
    b1: Seq<Cell>,
    b2: Seq<Cell>,
    foods: Seq<Food<L>>,
    tries: nat,
) -> (u32, Option<Cell>)
    decreases tries,
{
    if tries == 0 {
        (state, None)
    } else {
        let s1 = xorshift(state);
        let s2 = xorshift(s1);
        let c = ((s1 % (GRID_WIDTH as u32)) as i32, (s2 % (GRID_HEIGHT as u32)) as i32);
        if !occupied(b1, b2, foods, c) {
            (s2, Some(c))
        } else {
            spawn_search(s2, b1, b2, foods, (tries - 1) as nat)
        }
    }
}

/// One food spawn: the search's final state, and the foods with the new food
/// (of `kind`, tagged `tag`) appended if a free cell was found.
pub open spec fn spawned<L>(
    state: u32,
    b1: Seq<Cell>,
    b2: Seq<Cell>,
    foods: Seq<Food<L>>,
    kind: FoodType,
    tag: L,
) -> (u32, Seq<Food<L>>) {
    let (st, spot) = spawn_search(state, b1, b2, foods, SPAWN_ATTEMPTS as nat);
    match spot {
        Some(c) => (st, foods.push(Food { x: c.0, y: c.1, food_type: kind, tag })),
        None => (st, foods),
    }
}

/// `n` food spawns of the same kind, one after the other.
pub open spec fn spawned_n<L>(
    state: u32,
    b1: Seq<Cell>,
    b2: Seq<Cell>,
    foods: Seq<Food<L>>,
    kind: FoodType,
    tag: L,
    n: nat,
) -> (u32, Seq<Food<L>>)
    decreases n,
{
    if n == 0 {
        (state, foods)
    } else {
        let (s1, f1) = spawned(state, b1, b2, foods, kind, tag);
        spawned_n(s1, b1, b2, f1, kind, tag, (n - 1) as nat)
    }
}

/// A spawned food lies on a free grid cell.
pub proof fn law_spawn_lands_on_free_cell<L>(
    state: u32,
    b1: Seq<Cell>,
    b2: Seq<Cell>,
    foods: Seq<Food<L>>,
    tries: nat,
)
    ensures
        spawn_search(state, b1, b2, foods, tries).1 matches Some(c) ==> in_grid(c) && !occupied(
            b1,
            b2,
            foods,
            c,
        ),
    decreases tries,
{
    if tries > 0 {
        let s1 = xorshift(state);
        let s2 = xorshift(s1);
        law_spawn_lands_on_free_cell(s2, b1, b2, foods, (tries - 1) as nat);
    }
}

/// A cell that the search for a free cell finds lies on the grid, on
/// neither snake's body and under no food.
pub proof fn law_spawn_avoids_snakes_and_foods<L>(
    state: u32,
    b1: Seq<Cell>,
    b2: Seq<Cell>,
    foods: Seq<Food<L>>,
    tries: nat,
)
    ensures
        spawn_search(state, b1, b2, foods, tries).1 matches Some(c) ==> {
            &&& in_grid(c)
            &&& !b1.contains(c)
            &&& !b2.contains(c)
            &&& forall|i: int| 0 <= i < foods.len() ==> (#[trigger] foods[i]).x != c.0 || foods[i].y != c.1
        },
{
    law_spawn_lands_on_free_cell(state, b1, b2, foods, tries);
    if let Some(c) = spawn_search(state, b1, b2, foods, tries).1 {
        assert forall|i: int| 0 <= i < foods.len() implies (#[trigger] foods[i]).x != c.0 || foods[i].y != c.1 by {
            if foods[i].x == c.0 && foods[i].y == c.1 {
                assert(food_on(foods[i], c));
            }
        }
    }
}

/// Which snake.
#[derive(Clone, Copy, Debug, PartialEq, Eq, Structural)]
pub enum Player {
    One,
    Two,
}

/// What one step of a snake did.
#[derive(Clone, Copy, Debug, PartialEq, Eq, Structural)]
pub struct Advance {
    /// The snake moved to a new cell.
    pub moved: bool,
    /// The kind of the food it ate, if it ate one.
    pub eaten: Option<FoodType>,
}

/// The relation between a snake, the foods, and the step outcome before and
/// after one step (`rival` is the other snake's body, empty if none).
pub open spec fn stepped<L>(
    s: Snake,
    n: Snake,
    rival: Seq<Cell>,
    foods: Seq<Food<L>>,
    foods2: Seq<Food<L>>,
    wrap: bool,
    a: Advance,
) -> bool {
    &&& n.next_direction == s.next_direction
    &&& if !s.alive {
        &&& n.body@ == s.body@
        &&& n.direction == s.direction
        &&& !n.alive
        &&& n.score == s.score
        &&& foods2 == foods
        &&& !a.moved
        &&& a.eaten is None
    } else {
        let d = effective_direction(s);
        &&& n.direction == d
        &&& match step_target(s.head_cell(), d, wrap) {
            None => {
                &&& n.body@ == s.body@
                &&& !n.alive
                &&& n.score == s.score
                &&& foods2 == foods
                &&& !a.moved
                &&& a.eaten is None
            },
            Some(h) => {
                let grown = seq![h] + s.body@;
                &&& a.moved
                &&& n.alive == !(s.body@.contains(h) || rival.contains(h))
                &&& match first_food_at(foods, h) {
                    Some(i) => {
                        &&& foods2 == foods.remove(i)
                        &&& n.body@ == grown
                        &&& n.score == s.score + points_of(foods[i].food_type)
                        &&& a.eaten == Some(foods[i].food_type)
                    },
                    None => {
                        &&& foods2 == foods
                        &&& n.body@ == grown.drop_last()
                        &&& n.score == s.score
                        &&& a.eaten is None
                    },
                }
            },
        }
    }
}

/// The extra draw after player one eats a normal food: with chance 15 in 100
/// a timed food is earned, a bonus or a speed food with even odds. Returns
/// the generator's state and the kind earned.
pub open spec fn bonus_roll(state: u32) -> (u32, Option<FoodType>) {
    let s1 = xorshift(state);
    if s1 % 100 < BONUS_SPAWN_CHANCE {
        let s2 = xorshift(s1);
        if s2 % 2 == 0 {
            (s2, Some(FoodType::Bonus))
        } else {
            (s2, Some(FoodType::Speed))
        }
    } else {
        (s1, None)
    }
}

/// A counter one higher, held at its maximum.
pub open spec fn bump(n: usize) -> usize {
    if n < usize::MAX {
        (n + 1) as usize
    } else {
        n
    }
}

/// The body of an optional snake, empty if there is none.
pub open spec fn body_of(s: Option<Snake>) -> Seq<Cell> {
    match s {
        Some(t) => t.body@,
        None => Seq::empty(),
    }
}

/// Is some food of this kind on the board?
pub open spec fn has_food_kind<L>(foods: Seq<Food<L>>, kind: FoodType) -> bool {
    exists|i: int| 0 <= i < foods.len() && (#[trigger] foods[i]).food_type == kind
}

/// The foods whose `keep` flag is set, in order.
pub open spec fn kept<L>(foods: Seq<Food<L>>, keep: Seq<bool>) -> Seq<Food<L>>
    decreases foods.len(),
{
    if foods.len() == 0 || keep.len() != foods.len() {
        Seq::empty()
    } else {
        let rest = kept(foods.drop_last(), keep.drop_last());
        if keep.last() {
            rest.push(foods.last())
        } else {
            rest
        }
    }
}

/// Is `f` one of the foods before index `n`?
spec fn among<L>(foods: Seq<Food<L>>, n: int, f: Food<L>) -> bool {
    exists|j: int| 0 <= j < n && foods[j] == f
}

/// Every kept food is one of the foods.
proof fn lemma_kept_from<L>(foods: Seq<Food<L>>, keep: Seq<bool>)
    ensures
        forall|i: int|
            0 <= i < kept(foods, keep).len() ==> among(foods, foods.len() as int, #[trigger] kept(foods, keep)[i]),
    decreases foods.len(),
{
    if foods.len() > 0 && keep.len() == foods.len() {
        let fd = foods.drop_last();
        let kd = keep.drop_last();
        lemma_kept_from(fd, kd);
        let whole = kept(foods, keep);
        assert(whole == if keep.last() { kept(fd, kd).push(foods.last()) } else { kept(fd, kd) });
        assert forall|i: int| 0 <= i < whole.len() implies among(foods, foods.len() as int, #[trigger] whole[i]) by {
            if i < kept(fd, kd).len() {
                assert(whole[i] == kept(fd, kd)[i]);
                assert(among(fd, fd.len() as int, kept(fd, kd)[i]));
                let j = choose|j: int| 0 <= j < fd.len() && fd[j] == kept(fd, kd)[i];
                assert(fd[j] == foods[j]);
            } else {
                assert(whole[i] == foods[foods.len() - 1]);
            }
        }
    } else {
        assert(kept(foods, keep).len() == 0);
    }
}

/// Keeping some foods keeps them on distinct cells.
proof fn lemma_kept_apart<L>(foods: Seq<Food<L>>, keep: Seq<bool>)
    requires
        foods_apart(foods),
    ensures
        foods_apart(kept(foods, keep)),
    decreases foods.len(),
{
    if foods.len() > 0 && keep.len() == foods.len() {
        let fd = foods.drop_last();
        assert(foods_apart(fd)) by {
            assert forall|i: int, j: int| 0 <= i < j < fd.len() implies !food_on(
                #[trigger] fd[i],
                (#[trigger] fd[j].x, fd[j].y),
            ) by {
                assert(fd[i] == foods[i] && fd[j] == foods[j]);
            }
        }
        lemma_kept_apart(fd, keep.drop_last());
        lemma_kept_from(fd, keep.drop_last());
        let rest = kept(fd, keep.drop_last());
        if keep.last() {
            let k = rest.push(foods.last());
            assert forall|i: int, j: int| 0 <= i < j < k.len() implies !food_on(
                #[trigger] k[i],
                (#[trigger] k[j].x, k[j].y),
            ) by {
                if j < rest.len() {
                    assert(k[i] == rest[i] && k[j] == rest[j]);
                } else {
                    assert(k[i] == rest[i]);
                    assert(among(fd, fd.len() as int, rest[i]));
                    let m = choose|m: int| 0 <= m < fd.len() && fd[m] == rest[i];
                    assert(fd[m] == foods[m]);
                    assert(k[j] == foods[foods.len() - 1]);
                }
            }
        }
    }
}

/// Is the game over in this mode: player one dead, or (two players) either
/// snake dead?
pub open spec fn game_is_over(mode: PlayerMode, p1: Snake, p2: Option<Snake>) -> bool {
    match mode {
        PlayerMode::OnePlayer => !p1.alive,
        PlayerMode::TwoPlayer => !p1.alive || (p2 matches Some(s) && !s.alive),
    }
}

/// Head cell of player one at the start of a game.
pub open spec fn start_one() -> Cell {
    ((GRID_WIDTH / 4) as i32, (GRID_HEIGHT / 2) as i32)
}

/// Head cell of player two at the start of a game.
pub open spec fn start_two() -> Cell {
    ((GRID_WIDTH * 3 / 4) as i32, (GRID_HEIGHT / 2) as i32)
}

/// The discrete state of the Snake cart: screen, mode, mode menu, snakes,
/// foods, generator, wall wrapping, the food spawns earned during the current
/// tick, and the tags new foods get (one for normal food, one for timed food).
pub struct SnakeField<L: Copy> {
    screen: Screen,
    mode: PlayerMode,
    menu: ModeMenu,
    snake1: Snake,
    snake2: Option<Snake>,
    foods: Vec<Food<L>>,
    rng: Rng,
    wrap_walls: bool,
    pending_normal: usize,
    pending_bonus: usize,
    pending_speed: usize,
    normal_tag: L,
    timed_tag: L,
}

impl<L: Copy> SnakeField<L> {
    /// The field is well formed: both snakes lie on the grid, player two
    /// is present exactly in two-player mode, and no two foods share a cell.
    pub closed spec fn wf(self) -> bool {
        &&& foods_apart(self.foods@)
        &&& self.snake1.wf()
        &&& (self.snake2 matches Some(s) ==> s.wf())
        &&& (self.mode == PlayerMode::TwoPlayer) == (self.snake2 is Some)
    }

    /// The screen shown.
    pub closed spec fn screen_of(self) -> Screen {
        self.screen
    }

    /// The mode of the current or last game.
    pub closed spec fn mode_of(self) -> PlayerMode {
        self.mode
    }

    /// The highlighted mode-menu entry.
    pub closed spec fn selection_of(self) -> usize {
        self.menu@
    }

    /// Player one's snake.
    pub closed spec fn p1(self) -> Snake {
        self.snake1
    }

    /// Player two's snake, if any.
    pub closed spec fn p2(self) -> Option<Snake> {
        self.snake2
    }

    /// The foods on the board, oldest first.
    pub closed spec fn food_seq(self) -> Seq<Food<L>> {
        self.foods@
    }

    /// The generator's state.
    pub closed spec fn rng_state(self) -> u32 {
        self.rng.state()
    }

    /// Do the walls wrap?
    pub closed spec fn wraps(self) -> bool {
        self.wrap_walls
    }

    /// Pending spawns: (normal, bonus, speed).
    pub closed spec fn pending(self) -> (usize, usize, usize) {
        (self.pending_normal, self.pending_bonus, self.pending_speed)
    }

    /// The tag a new food of this kind gets.
    pub closed spec fn tag_for(self, kind: FoodType) -> L {
        match kind {
            FoodType::Normal => self.normal_tag,
            _ => self.timed_tag,
        }
    }

    /// The menu state, mode, wrapping and tags are the same in both.
    pub open spec fn same_setup(self, other: Self) -> bool {
        &&& self.screen_of() == other.screen_of()
        &&& self.mode_of() == other.mode_of()
        &&& self.selection_of() == other.selection_of()
        &&& self.wraps() == other.wraps()
        &&& self.tag_for(FoodType::Normal) == other.tag_for(FoodType::Normal)
        &&& self.tag_for(FoodType::Bonus) == other.tag_for(FoodType::Bonus)
        &&& self.tag_for(FoodType::Speed) == other.tag_for(FoodType::Speed)
    }

    /// A field on the mode-select screen, one player highlighted, with a
    /// fresh player-one snake, no food, wrapping walls and the cart's seed.
    /// New normal foods get `normal_tag`, new bonus and speed foods get
    /// `timed_tag`.
    pub fn new(normal_tag: L, timed_tag: L) -> (f: Self)
        ensures
            f.wf(),
            f.screen_of() == Screen::ModeSelect,
            f.mode_of() == PlayerMode::OnePlayer,
            f.selection_of() == 0,
            f.p1().body@ == initial_body(start_one().0, start_one().1, Direction::Right),
            f.p1().direction == Direction::Right,
            f.p1().next_direction == Direction::Right,
            f.p1().alive,
            f.p1().score == 0,
            f.p2() is None,
            f.food_seq().len() == 0,
            f.rng_state() == SNAKE_SEED,
            f.wraps(),
            f.pending() == (0usize, 0usize, 0usize),
            f.tag_for(FoodType::Normal) == normal_tag,
            f.tag_for(FoodType::Bonus) == timed_tag,
            f.tag_for(FoodType::Speed) == timed_tag,
    {
        SnakeField {
            screen: Screen::ModeSelect,
            mode: PlayerMode::OnePlayer,
            menu: ModeMenu::new(),
            snake1: Snake::new(GRID_WIDTH / 4, GRID_HEIGHT / 2, Direction::Right),
            snake2: None,
            foods: Vec::new(),
            rng: Rng::new(SNAKE_SEED),
            wrap_walls: true,
            pending_normal: 0,
            pending_bonus: 0,
            pending_speed: 0,
            normal_tag,
            timed_tag,
        }
    }

    /// The current screen.
    pub fn screen(&self) -> (s: Screen)
        ensures
            s == self.screen_of(),
    {
        self.screen
    }

    /// The current mode.
    pub fn mode(&self) -> (m: PlayerMode)
        ensures
            m == self.mode_of(),
    {
        self.mode
    }

    /// The highlighted mode-menu entry (`0` or `1`).
    pub fn menu_selection(&self) -> (s: usize)
        ensures
            s == self.selection_of(),
            s < 2,
    {
        self.menu.selection()
    }

    /// Player one's snake.
    pub fn snake1(&self) -> (s: &Snake)
        requires
            self.wf(),
        ensures
            *s == self.p1(),
            s.wf(),
    {
        &self.snake1
    }

    /// Player two's snake, present exactly in two-player mode.
    pub fn snake2(&self) -> (s: Option<&Snake>)
        requires
            self.wf(),
        ensures
            match s {
                Some(t) => self.p2() == Some(*t) && t.wf(),
                None => self.p2() is None,
            },
            s is Some <==> self.mode_of() == PlayerMode::TwoPlayer,
    {
        match &self.snake2 {
            Some(t) => Some(t),
            None => None,
        }
    }

    /// The foods on the board, oldest first.
    pub fn foods(&self) -> (f: &Vec<Food<L>>)
        ensures
            f@ == self.food_seq(),
    {
        &self.foods
    }

    /// Do the walls wrap?
    pub fn wrap_walls(&self) -> (w: bool)
        ensures
            w == self.wraps(),
    {
        self.wrap_walls
    }

    /// Can this player's score take any food's points without leaving `u32`?
    pub fn can_score(&self, player: Player) -> (ok: bool)
        ensures
            ok == match player {
                Player::One => self.p1().score <= SCORE_CAP,
                Player::Two => self.p2() matches Some(s) ==> s.score <= SCORE_CAP,
            },
    {
        match player {
            Player::One => self.snake1.score <= SCORE_CAP,
            Player::Two => match &self.snake2 {
                Some(s) => s.score <= SCORE_CAP,
                None => true,
            },
        }
    }
}


/// The index of the first food on `c`, if any.
fn find_food<L>(foods: &Vec<Food<L>>, c: Cell) -> (r: Option<usize>)
    ensures
        match r {
            Some(i) => is_first_food_at(foods@, c, i as int),
            None => !food_covers(foods@, c),
        },
        r matches Some(i) ==> first_food_at(foods@, c) == Some(i as int),
        r is None ==> first_food_at(foods@, c) is None,
{
    let n = foods.len();
    let mut i: usize = 0;
    while i < n
        invariant
            0 <= i <= n,
            n == foods@.len(),
            forall|j: int| 0 <= j < i ==> !food_on(#[trigger] foods@[j], c),
        decreases n - i,
    {
        if foods[i].x == c.0 && foods[i].y == c.1 {
            proof {
                assert(is_first_food_at(foods@, c, i as int));
                let k = choose|k: int| is_first_food_at(foods@, c, k);
                lemma_first_food_unique(foods@, c, i as int, k);
            }
            return Some(i);
        }
        i = i + 1;
    }
    proof {
        assert(!exists|k: int| is_first_food_at(foods@, c, k));
    }
    None
}

/// One step of a snake against a rival body and the foods: move, check
/// collisions, then eat the first food on the new head (scoring its points)
/// or drop the tail.
fn step_snake<L>(s: &mut Snake, rival: Option<&Snake>, foods: &mut Vec<Food<L>>, wrap: bool) -> (a: Advance)
    requires
        old(s).wf(),
        old(s).score <= SCORE_CAP,
    ensures
        final(s).wf(),
        stepped(
            *old(s),
            *final(s),
            match rival {
                Some(r) => r.body@,
                None => Seq::empty(),
            },
            old(foods)@,
            final(foods)@,
            wrap,
            a,
        ),
{
    let ghost s0 = *s;
    let moved = s.move_forward(wrap);
    if !moved {
        return Advance { moved: false, eaten: None };
    }
    let ghost h = s.head_cell();
    assert(s.body@.drop_first() =~= s0.body@);
    if s.self_collision() {
        s.alive = false;
    }
    match rival {
        Some(r) => {
            if s.collides_with(r) {
                s.alive = false;
            }
        },
        None => {
            assert(!Seq::<Cell>::empty().contains(h));
        },
    }
    let head = s.head();
    match find_food(foods, head) {
        Some(i) => {
            let kind = foods[i].food_type;
            let _ = foods.remove(i);
            let pts: u32 = match kind {
                FoodType::Normal => POINTS_NORMAL,
                FoodType::Bonus => POINTS_BONUS,
                FoodType::Speed => POINTS_SPEED,
            };
            s.score = s.score + pts;
            Advance { moved: true, eaten: Some(kind) }
        },
        None => {
            s.shrink_tail();
            Advance { moved: true, eaten: None }
        },
    }
}

/// Is any food on `(x, y)`?
fn food_occupies<L>(foods: &Vec<Food<L>>, x: i32, y: i32) -> (hit: bool)
    ensures
        hit == food_covers(foods@, (x, y)),
{
    let n = foods.len();
    let mut i: usize = 0;
    while i < n
        invariant
            0 <= i <= n,
            n == foods@.len(),
            forall|j: int| 0 <= j < i ==> !food_on(#[trigger] foods@[j], (x, y)),
        decreases n - i,
    {
        if foods[i].x == x && foods[i].y == y {
            assert(food_on(foods@[i as int], (x, y)));
            return true;
        }
        i = i + 1;
    }
    false
}


impl<L: Copy> SnakeField<L> {
    /// Tries up to `SPAWN_ATTEMPTS` random cells and puts a food of `kind`
    /// (with the kind's tag) on the first free one. Returns whether a food
    /// was placed.
    pub fn spawn_food(&mut self, kind: FoodType) -> (placed: bool)
        requires
            old(self).wf(),
        ensures
            dead_stay_dead(*old(self), *final(self)),
            final(self).wf(),
            final(self).rng_state() == spawned(
                old(self).rng_state(),
                old(self).p1().body@,
                body_of(old(self).p2()),
                old(self).food_seq(),
                kind,
                old(self).tag_for(kind),
            ).0,
            final(self).food_seq() == spawned(
                old(self).rng_state(),
                old(self).p1().body@,
                body_of(old(self).p2()),
                old(self).food_seq(),
                kind,
                old(self).tag_for(kind),
            ).1,
            placed == spawn_search(
                old(self).rng_state(),
                old(self).p1().body@,
                body_of(old(self).p2()),
                old(self).food_seq(),
                SPAWN_ATTEMPTS as nat,
            ).1 is Some,
            !placed ==> final(self).food_seq() == old(self).food_seq(),
            placed ==> final(self).food_seq().len() == old(self).food_seq().len() + 1
                && final(self).food_seq().drop_last() == old(self).food_seq() && ({
                let f = final(self).food_seq().last();
                &&& f.food_type == kind
                &&& in_grid((f.x, f.y))
                &&& !old(self).p1().body@.contains((f.x, f.y))
                &&& (old(self).p2() matches Some(t) ==> !t.body@.contains((f.x, f.y)))
                &&& forall|i: int|
                    0 <= i < old(self).food_seq().len() ==> (#[trigger] old(self).food_seq()[i]).x != f.x
                        || old(self).food_seq()[i].y != f.y
            }),
            final(self).p1() == old(self).p1(),
            final(self).p2() == old(self).p2(),
            final(self).pending() == old(self).pending(),
            final(self).same_setup(*old(self)),
    {
        let tag = match kind {
            FoodType::Normal => self.normal_tag,
            _ => self.timed_tag,
        };
        let ghost b1 = self.snake1.body@;
        let ghost b2 = body_of(self.snake2);
        let ghost s0 = self.rng.state();
        let ghost f0 = self.foods@;
        let ghost start = *self;
        let mut attempt: usize = 0;
        while attempt < SPAWN_ATTEMPTS
            invariant
                attempt <= SPAWN_ATTEMPTS,
                spawn_search(s0, b1, b2, f0, SPAWN_ATTEMPTS as nat) == spawn_search(
                    self.rng.state(),
                    b1,
                    b2,
                    f0,
                    (SPAWN_ATTEMPTS - attempt) as nat,
                ),
                self.foods@ == f0,
                self.snake1.body@ == b1,
                b2 == body_of(self.snake2),
                self.snake1 == start.snake1,
                self.snake2 == start.snake2,
                self.screen == start.screen,
                self.mode == start.mode,
                self.menu == start.menu,
                self.wrap_walls == start.wrap_walls,
                self.pending_normal == start.pending_normal,
                self.pending_bonus == start.pending_bonus,
                self.pending_speed == start.pending_speed,
                self.normal_tag == start.normal_tag,
                self.timed_tag == start.timed_tag,
                tag == start.tag_for(kind),
                start.wf(),
                start == *old(self),
                s0 == start.rng.state(),
                f0 == start.foods@,
            decreases SPAWN_ATTEMPTS - attempt,
        {
            let ghost st = self.rng.state();
            let x = self.rng.range(GRID_WIDTH as u32) as i32;
            let y = self.rng.range(GRID_HEIGHT as u32) as i32;
            let taken = self.snake1.occupies(x, y) || match &self.snake2 {
                Some(t) => t.occupies(x, y),
                None => false,
            } || food_occupies(&self.foods, x, y);
            assert(taken == occupied(b1, b2, f0, (x, y)));
            assert(spawn_search(st, b1, b2, f0, (SPAWN_ATTEMPTS - attempt) as nat) == if !taken {
                (self.rng.state(), Some((x, y)))
            } else {
                spawn_search(self.rng.state(), b1, b2, f0, (SPAWN_ATTEMPTS - attempt - 1) as nat)
            });
            if !taken {
                proof {
                    law_spawn_avoids_snakes_and_foods(s0, b1, b2, f0, SPAWN_ATTEMPTS as nat);
                }
                self.foods.push(Food { x, y, food_type: kind, tag });
                assert(spawn_search(s0, b1, b2, f0, SPAWN_ATTEMPTS as nat) == (self.rng.state(), Some((x, y))));
                assert(self.foods@ == f0.push(Food { x, y, food_type: kind, tag }));
                return true;
            }
            attempt = attempt + 1;
        }
        proof {
            law_spawn_avoids_snakes_and_foods(s0, b1, b2, f0, SPAWN_ATTEMPTS as nat);
        }
        false
    }

    /// Spawns `count` foods of `kind`, one after the other.
    fn spawn_times(&mut self, kind: FoodType, count: usize)
        requires
            old(self).wf(),
        ensures
            dead_stay_dead(*old(self), *final(self)),
            final(self).wf(),
            final(self).rng_state() == spawned_n(
                old(self).rng_state(),
                old(self).p1().body@,
                body_of(old(self).p2()),
                old(self).food_seq(),
                kind,
                old(self).tag_for(kind),
                count as nat,
            ).0,
            final(self).food_seq() == spawned_n(
                old(self).rng_state(),
                old(self).p1().body@,
                body_of(old(self).p2()),
                old(self).food_seq(),
                kind,
                old(self).tag_for(kind),
                count as nat,
            ).1,
            final(self).p1() == old(self).p1(),
            final(self).p2() == old(self).p2(),
            final(self).pending() == old(self).pending(),
            final(self).same_setup(*old(self)),
    {
        let ghost b1 = self.p1().body@;
        let ghost b2 = body_of(self.p2());
        let ghost tag = self.tag_for(kind);
        let ghost target = spawned_n(self.rng_state(), b1, b2, self.food_seq(), kind, tag, count as nat);
        let ghost start = *self;
        let mut k: usize = 0;
        while k < count
            invariant
                k <= count,
                target == spawned_n(self.rng_state(), b1, b2, self.food_seq(), kind, tag, (count - k) as nat),
                self.p1() == start.p1(),
                self.p2() == start.p2(),
                b1 == start.p1().body@,
                b2 == body_of(start.p2()),
                tag == self.tag_for(kind),
                self.pending() == start.pending(),
                self.same_setup(start),
                self.wf(),
            decreases count - k,
        {
            let _ = self.spawn_food(kind);
            k = k + 1;
        }
    }

    /// Starts a game in the current mode: fresh snakes (player two only in
    /// two-player mode), no pending spawns, two normal foods (three with two
    /// players) and the playing screen.
    pub fn start_game(&mut self)
        requires
            old(self).wf(),
        ensures
            final(self).wf(),
            final(self).p1().body@ == initial_body(start_one().0, start_one().1, Direction::Right),
            final(self).p1().direction == Direction::Right,
            final(self).p1().next_direction == Direction::Right,
            final(self).p1().alive,
            final(self).p1().score == 0,
            old(self).mode_of() == PlayerMode::OnePlayer ==> final(self).p2() is None,
            old(self).mode_of() == PlayerMode::TwoPlayer ==> (final(self).p2() matches Some(t) && t.body@
                == initial_body(start_two().0, start_two().1, Direction::Left) && t.direction
                == Direction::Left && t.next_direction == Direction::Left && t.alive && t.score == 0),
            final(self).rng_state() == spawned_n(
                old(self).rng_state(),
                final(self).p1().body@,
                body_of(final(self).p2()),
                Seq::empty(),
                FoodType::Normal,
                old(self).tag_for(FoodType::Normal),
                if old(self).mode_of() == PlayerMode::TwoPlayer { 3 } else { 2 },
            ).0,
            final(self).food_seq() == spawned_n(
                old(self).rng_state(),
                final(self).p1().body@,
                body_of(final(self).p2()),
                Seq::empty(),
                FoodType::Normal,
                old(self).tag_for(FoodType::Normal),
                if old(self).mode_of() == PlayerMode::TwoPlayer { 3 } else { 2 },
            ).1,
            final(self).pending() == (0usize, 0usize, 0usize),
            final(self).screen_of() == Screen::Playing,
            final(self).mode_of() == old(self).mode_of(),
            final(self).selection_of() == old(self).selection_of(),
            final(self).wraps() == old(self).wraps(),
            forall|k: FoodType| #[trigger] final(self).tag_for(k) == old(self).tag_for(k),
    {
        self.snake1 = Snake::new(GRID_WIDTH / 4, GRID_HEIGHT / 2, Direction::Right);
        self.snake2 = if self.mode == PlayerMode::TwoPlayer {
            Some(Snake::new(GRID_WIDTH * 3 / 4, GRID_HEIGHT / 2, Direction::Left))
        } else {
            None
        };
        self.foods.clear();
        self.pending_normal = 0;
        self.pending_bonus = 0;
        self.pending_speed = 0;
        if self.mode == PlayerMode::TwoPlayer {
            self.spawn_times(FoodType::Normal, 3);
        } else {
            self.spawn_times(FoodType::Normal, 2);
        }
        self.screen = Screen::Playing;
    }

    /// Moves the mode-menu highlight by one spin.
    pub fn menu_spin(&mut self, spin: Spin)
        requires
            old(self).wf(),
        ensures
            dead_stay_dead(*old(self), *final(self)),
            final(self).wf(),
            final(self).selection_of() == spun_selection(old(self).selection_of(), spin),
            final(self).screen_of() == old(self).screen_of(),
            final(self).mode_of() == old(self).mode_of(),
            final(self).p1() == old(self).p1(),
            final(self).p2() == old(self).p2(),
            final(self).food_seq() == old(self).food_seq(),
            final(self).rng_state() == old(self).rng_state(),
            final(self).pending() == old(self).pending(),
    {
        self.menu.spin(spin);
    }

    /// Takes the highlighted mode and starts a game in it.
    pub fn choose_mode(&mut self)
        requires
            old(self).wf(),
        ensures
            final(self).wf(),
            final(self).mode_of() == mode_of_selection(old(self).selection_of()),
            final(self).screen_of() == Screen::Playing,
            final(self).selection_of() == old(self).selection_of(),
            final(self).p1().body@ == initial_body(start_one().0, start_one().1, Direction::Right),
            final(self).p1().direction == Direction::Right,
            final(self).p1().next_direction == Direction::Right,
            final(self).p1().alive,
            final(self).p1().score == 0,
            (final(self).p2() is Some) == (final(self).mode_of() == PlayerMode::TwoPlayer),
            final(self).mode_of() == PlayerMode::TwoPlayer ==> (final(self).p2() matches Some(t)
                && t.body@ == initial_body(start_two().0, start_two().1, Direction::Left) && t.direction
                == Direction::Left && t.next_direction == Direction::Left && t.alive && t.score == 0),
            final(self).pending() == (0usize, 0usize, 0usize),
            final(self).rng_state() == spawned_n(
                old(self).rng_state(),
                final(self).p1().body@,
                body_of(final(self).p2()),
                Seq::empty(),
                FoodType::Normal,
                old(self).tag_for(FoodType::Normal),
                if final(self).mode_of() == PlayerMode::TwoPlayer { 3 } else { 2 },
            ).0,
            final(self).food_seq() == spawned_n(
                old(self).rng_state(),
                final(self).p1().body@,
                body_of(final(self).p2()),
                Seq::empty(),
                FoodType::Normal,
                old(self).tag_for(FoodType::Normal),
                if final(self).mode_of() == PlayerMode::TwoPlayer { 3 } else { 2 },
            ).1,
    {
        let chosen = self.menu.chosen_mode();
        if chosen == PlayerMode::TwoPlayer {
            self.mode = PlayerMode::TwoPlayer;
            if self.snake2.is_none() {
                self.snake2 = Some(Snake::new(GRID_WIDTH * 3 / 4, GRID_HEIGHT / 2, Direction::Left));
            }
        } else {
            self.mode = PlayerMode::OnePlayer;
            self.snake2 = None;
        }
        self.start_game();
    }

    /// Leaves the game-over screen for the mode menu, highlighting the mode
    /// just played.
    pub fn return_to_menu(&mut self)
        requires
            old(self).wf(),
        ensures
            dead_stay_dead(*old(self), *final(self)),
            final(self).wf(),
            final(self).screen_of() == Screen::ModeSelect,
            final(self).selection_of() == selection_of_mode(old(self).mode_of()),
            final(self).mode_of() == old(self).mode_of(),
            final(self).p1() == old(self).p1(),
            final(self).p2() == old(self).p2(),
            final(self).food_seq() == old(self).food_seq(),
            final(self).rng_state() == old(self).rng_state(),
            final(self).pending() == old(self).pending(),
    {
        self.screen = Screen::ModeSelect;
        self.menu.reopen_for(self.mode);
    }
}


impl<L: Copy> SnakeField<L> {
    /// Queues a quarter turn for a player's snake (see [`Snake::steer`]);
    /// nothing happens for an absent player two.
    pub fn steer(&mut self, player: Player, spin: Spin)
        requires
            old(self).wf(),
        ensures
            dead_stay_dead(*old(self), *final(self)),
            final(self).wf(),
            match player {
                Player::One => {
                    &&& final(self).p1().next_direction == match spin {
                        Spin::Positive => old(self).p1().direction.clockwise(),
                        Spin::Negative => old(self).p1().direction.counter_clockwise(),
                        Spin::Zero => old(self).p1().next_direction,
                    }
                    &&& final(self).p1().body == old(self).p1().body
                    &&& final(self).p1().direction == old(self).p1().direction
                    &&& final(self).p1().alive == old(self).p1().alive
                    &&& final(self).p1().score == old(self).p1().score
                    &&& final(self).p2() == old(self).p2()
                },
                Player::Two => {
                    &&& final(self).p1() == old(self).p1()
                    &&& match old(self).p2() {
                        None => final(self).p2() is None,
                        Some(t) => final(self).p2() matches Some(u) && u.next_direction == match spin {
                            Spin::Positive => t.direction.clockwise(),
                            Spin::Negative => t.direction.counter_clockwise(),
                            Spin::Zero => t.next_direction,
                        } && u.body == t.body && u.direction == t.direction && u.alive == t.alive
                            && u.score == t.score,
                    }
                },
            },
            final(self).food_seq() == old(self).food_seq(),
            final(self).rng_state() == old(self).rng_state(),
            final(self).pending() == old(self).pending(),
            final(self).same_setup(*old(self)),
    {
        match player {
            Player::One => self.snake1.steer(spin),
            Player::Two => match &mut self.snake2 {
                Some(t) => t.steer(spin),
                None => {},
            },
        }
    }

    /// One step of a player's snake: it moves (see [`Snake::move_forward`]),
    /// dies on running into itself or the other snake, then eats the first
    /// food on its new head, scoring the food's points, or else drops its
    /// tail. Eating a normal food earns one pending normal spawn; player one
    /// then draws for a timed food (see [`bonus_roll`]), player two always
    /// earns a pending bonus food. A dead or absent snake does nothing.
    pub fn advance(&mut self, player: Player) -> (a: Advance)
        requires
            old(self).wf(),
            match player {
                Player::One => old(self).p1().score <= SCORE_CAP,
                Player::Two => old(self).p2() matches Some(t) ==> t.score <= SCORE_CAP,
            },
        ensures
            dead_stay_dead(*old(self), *final(self)),
            final(self).wf(),
            final(self).same_setup(*old(self)),
            match player {
                Player::One => {
                    &&& stepped(
                        old(self).p1(),
                        final(self).p1(),
                        body_of(old(self).p2()),
                        old(self).food_seq(),
                        final(self).food_seq(),
                        old(self).wraps(),
                        a,
                    )
                    &&& final(self).p2() == old(self).p2()
                    &&& if a.eaten == Some(FoodType::Normal) {
                        let (st, extra) = bonus_roll(old(self).rng_state());
                        &&& final(self).rng_state() == st
                        &&& final(self).pending().0 == bump(old(self).pending().0)
                        &&& final(self).pending().1 == if extra == Some(FoodType::Bonus) {
                            bump(old(self).pending().1)
                        } else {
                            old(self).pending().1
                        }
                        &&& final(self).pending().2 == if extra == Some(FoodType::Speed) {
                            bump(old(self).pending().2)
                        } else {
                            old(self).pending().2
                        }
                    } else {
                        &&& final(self).rng_state() == old(self).rng_state()
                        &&& final(self).pending() == old(self).pending()
                    }
                },
                Player::Two => {
                    &&& final(self).p1() == old(self).p1()
                    &&& final(self).rng_state() == old(self).rng_state()
                    &&& match old(self).p2() {
                        None => {
                            &&& final(self).p2() is None
                            &&& final(self).food_seq() == old(self).food_seq()
                            &&& final(self).pending() == old(self).pending()
                            &&& a == Advance { moved: false, eaten: None }
                        },
                        Some(t) => {
                            &&& final(self).p2() matches Some(u) && stepped(
                                t,
                                u,
                                old(self).p1().body@,
                                old(self).food_seq(),
                                final(self).food_seq(),
                                old(self).wraps(),
                                a,
                            )
                            &&& if a.eaten == Some(FoodType::Normal) {
                                &&& final(self).pending().0 == bump(old(self).pending().0)
                                &&& final(self).pending().1 == bump(old(self).pending().1)
                                &&& final(self).pending().2 == old(self).pending().2
                            } else {
                                final(self).pending() == old(self).pending()
                            }
                        },
                    }
                },
            },
            player == Player::One ==> ate_points(old(self).p1().score, final(self).p1().score, a),
            player == Player::Two ==> (old(self).p2() matches Some(t) ==> final(self).p2() matches Some(u)
                && ate_points(t.score, u.score, a)),
    {
        let wrap = self.wrap_walls;
        match player {
            Player::One => {
                let a = step_snake(&mut self.snake1, self.snake2.as_ref(), &mut self.foods, wrap);
                match a.eaten {
                    Some(FoodType::Normal) => {
                        if self.pending_normal < usize::MAX {
                            self.pending_normal = self.pending_normal + 1;
                        }
                        if self.rng.range(100) < BONUS_SPAWN_CHANCE {
                            if self.rng.range(2) == 0 {
                                if self.pending_bonus < usize::MAX {
                                    self.pending_bonus = self.pending_bonus + 1;
                                }
                            } else {
                                if self.pending_speed < usize::MAX {
                                    self.pending_speed = self.pending_speed + 1;
                                }
                            }
                        }
                    },
                    _ => {},
                }
                a
            },
            Player::Two => {
                let a = match &mut self.snake2 {
                    Some(t) => step_snake(t, Some(&self.snake1), &mut self.foods, wrap),
                    None => Advance { moved: false, eaten: None },
                };
                match a.eaten {
                    Some(FoodType::Normal) => {
                        if self.pending_normal < usize::MAX {
                            self.pending_normal = self.pending_normal + 1;
                        }
                        if self.pending_bonus < usize::MAX {
                            self.pending_bonus = self.pending_bonus + 1;
                        }
                    },
                    _ => {},
                }
                a
            },
        }
    }
}


/// Dead snakes stay dead and still: a snake dead in `old` is dead in `new`
/// with the same body and score (player two, once dead, does not vanish).
pub open spec fn dead_stay_dead<L: Copy>(old: SnakeField<L>, new: SnakeField<L>) -> bool {
    &&& !old.p1().alive ==> !new.p1().alive && new.p1().body@ == old.p1().body@ && new.p1().score
        == old.p1().score
    &&& match old.p2() {
        Some(t) => !t.alive ==> (new.p2() matches Some(u) && !u.alive && u.body@ == t.body@ && u.score
            == t.score),
        None => true,
    }
}

/// The winner of a two-player game: player two when player one is dead and
/// player two is not (or absent), player one when player one lives and
/// player two is dead, no one (a draw) otherwise.
pub open spec fn winner_of(p1: Snake, p2: Option<Snake>) -> Option<Player> {
    let p2_lives = match p2 {
        Some(t) => t.alive,
        None => true,
    };
    if !p1.alive && p2_lives {
        Some(Player::Two)
    } else if p1.alive && !p2_lives {
        Some(Player::One)
    } else {
        None
    }
}

/// Do both snakes exist, live, and share a head cell?
pub open spec fn head_on(p1: Snake, p2: Option<Snake>) -> bool {
    p2 matches Some(t) && p1.alive && t.alive && p1.head_cell() == t.head_cell()
}

/// Both snakes are alive and their heads lie on one cell, equal in both
/// coordinates.
pub open spec fn heads_together(p1: Snake, p2: Option<Snake>) -> bool {
    p2 matches Some(t) && p1.alive && t.alive && p1.body@[0].0 == t.body@[0].0 && p1.body@[0].1
        == t.body@[0].1
}

/// Both snakes are alive and their heads differ in `x` or in `y`.
pub open spec fn heads_apart(p1: Snake, p2: Option<Snake>) -> bool {
    p2 matches Some(t) && p1.alive && t.alive && (p1.body@[0].0 != t.body@[0].0 || p1.body@[0].1
        != t.body@[0].1)
}

/// A head-on collision needs two live snakes whose heads are equal in both
/// coordinates; live snakes whose heads differ in either coordinate do not
/// collide head on.
pub proof fn law_head_on_needs_one_cell(p1: Snake, p2: Option<Snake>)
    ensures
        head_on(p1, p2) <==> heads_together(p1, p2),
        heads_apart(p1, p2) ==> !head_on(p1, p2),
{
}

/// The winner of a two-player game is never a dead snake: player one wins
/// only alive and against a dead player two, player two wins only when
/// player one is dead and player two is not. A dead player one beside a live
/// player two makes player two the winner, a live player one beside a dead
/// player two makes player one the winner, and two snakes alike (both alive
/// or both dead) make a draw.
pub proof fn law_winner_is_alive(p1: Snake, p2: Option<Snake>)
    ensures
        winner_of(p1, p2) == Some(Player::One) ==> p1.alive && (p2 matches Some(t) && !t.alive),
        winner_of(p1, p2) == Some(Player::Two) ==> !p1.alive && (p2 matches Some(t) ==> t.alive),
        !p1.alive && (p2 matches Some(t) && t.alive) ==> winner_of(p1, p2) == Some(Player::Two),
        p1.alive && (p2 matches Some(t) && !t.alive) ==> winner_of(p1, p2) == Some(Player::One),
        (p2 matches Some(t) && t.alive == p1.alive) ==> winner_of(p1, p2) is None,
{
}

impl<L: Copy> SnakeField<L> {
    /// The winner of a two-player game (see [`winner_of`]); `None` is a draw.
    pub fn two_player_winner(&self) -> (w: Option<Player>)
        ensures
            w == winner_of(self.p1(), self.p2()),
            w == Some(Player::One) ==> self.p1().alive && (self.p2() matches Some(t) && !t.alive),
            w == Some(Player::Two) ==> !self.p1().alive && (self.p2() matches Some(t) ==> t.alive),
            !self.p1().alive && (self.p2() matches Some(t) && t.alive) ==> w == Some(Player::Two),
            self.p1().alive && (self.p2() matches Some(t) && !t.alive) ==> w == Some(Player::One),
            (self.p2() matches Some(t) && t.alive == self.p1().alive) ==> w is None,
    {
        let p2_lives = match &self.snake2 {
            Some(t) => t.alive,
            None => true,
        };
        if !self.snake1.alive && p2_lives {
            Some(Player::Two)
        } else if self.snake1.alive && !p2_lives {
            Some(Player::One)
        } else {
            None
        }
    }

    /// Is a normal food on the board?
    pub fn has_normal_food(&self) -> (b: bool)
        ensures
            b == has_food_kind(self.food_seq(), FoodType::Normal),
    {
        let n = self.foods.len();
        let mut i: usize = 0;
        while i < n
            invariant
                0 <= i <= n,
                n == self.foods@.len(),
                forall|j: int| 0 <= j < i ==> (#[trigger] self.foods@[j]).food_type != FoodType::Normal,
            decreases n - i,
        {
            if self.foods[i].food_type == FoodType::Normal {
                return true;
            }
            i = i + 1;
        }
        false
    }

    /// Spawns a normal food when none is on the board.
    pub fn ensure_normal_food(&mut self)
        requires
            old(self).wf(),
        ensures
            dead_stay_dead(*old(self), *final(self)),
            final(self).wf(),
            has_food_kind(old(self).food_seq(), FoodType::Normal) ==> final(self).food_seq()
                == old(self).food_seq() && final(self).rng_state() == old(self).rng_state(),
            !has_food_kind(old(self).food_seq(), FoodType::Normal) ==> ({
                let r = spawned(
                    old(self).rng_state(),
                    old(self).p1().body@,
                    body_of(old(self).p2()),
                    old(self).food_seq(),
                    FoodType::Normal,
                    old(self).tag_for(FoodType::Normal),
                );
                final(self).rng_state() == r.0 && final(self).food_seq() == r.1
            }),
            final(self).p1() == old(self).p1(),
            final(self).p2() == old(self).p2(),
            final(self).pending() == old(self).pending(),
            final(self).same_setup(*old(self)),
    {
        if !self.has_normal_food() {
            let _ = self.spawn_food(FoodType::Normal);
        }
    }

    /// Keeps the foods whose flag is set, in order (`keep` has one flag per
    /// food).
    pub fn retain_foods(&mut self, keep: &Vec<bool>)
        requires
            old(self).wf(),
            keep@.len() == old(self).food_seq().len(),
        ensures
            dead_stay_dead(*old(self), *final(self)),
            final(self).wf(),
            final(self).food_seq() == kept(old(self).food_seq(), keep@),
            final(self).p1() == old(self).p1(),
            final(self).p2() == old(self).p2(),
            final(self).rng_state() == old(self).rng_state(),
            final(self).pending() == old(self).pending(),
            final(self).same_setup(*old(self)),
    {
        let n = self.foods.len();
        let mut out: Vec<Food<L>> = Vec::new();
        let mut i: usize = 0;
        while i < n
            invariant
                0 <= i <= n,
                n == self.foods@.len(),
                n == keep@.len(),
                out@ == kept(self.foods@.take(i as int), keep@.take(i as int)),
            decreases n - i,
        {
            proof {
                assert(self.foods@.take(i + 1).drop_last() =~= self.foods@.take(i as int));
                assert(keep@.take(i + 1).drop_last() =~= keep@.take(i as int));
            }
            if keep[i] {
                out.push(self.foods[i]);
            }
            i = i + 1;
        }
        proof {
            assert(self.foods@.take(n as int) =~= self.foods@);
            assert(keep@.take(n as int) =~= keep@);
            lemma_kept_apart(self.foods@, keep@);
        }
        self.foods = out;
    }

    /// Replaces the tag of the food at `i`.
    pub fn set_food_tag(&mut self, i: usize, tag: L)
        requires
            old(self).wf(),
            i < old(self).food_seq().len(),
        ensures
            dead_stay_dead(*old(self), *final(self)),
            final(self).wf(),
            final(self).food_seq() == old(self).food_seq().update(
                i as int,
                Food {
                    x: old(self).food_seq()[i as int].x,
                    y: old(self).food_seq()[i as int].y,
                    food_type: old(self).food_seq()[i as int].food_type,
                    tag,
                },
            ),
            final(self).p1() == old(self).p1(),
            final(self).p2() == old(self).p2(),
            final(self).rng_state() == old(self).rng_state(),
            final(self).pending() == old(self).pending(),
            final(self).same_setup(*old(self)),
    {
        let f = self.foods[i];
        self.foods.set(i, Food { x: f.x, y: f.y, food_type: f.food_type, tag });
    }

    /// Ends a tick: spawns the pending normal, then bonus, then speed foods;
    /// kills both snakes if they meet head on; moves to the game-over screen
    /// when the game is over (see [`game_is_over`]).
    pub fn finish_tick(&mut self)
        requires
            old(self).wf(),
        ensures
            dead_stay_dead(*old(self), *final(self)),
            final(self).wf(),
            ({
                let b1 = old(self).p1().body@;
                let b2 = body_of(old(self).p2());
                let r1 = spawned_n(
                    old(self).rng_state(),
                    b1,
                    b2,
                    old(self).food_seq(),
                    FoodType::Normal,
                    old(self).tag_for(FoodType::Normal),
                    old(self).pending().0 as nat,
                );
                let r2 = spawned_n(
                    r1.0,
                    b1,
                    b2,
                    r1.1,
                    FoodType::Bonus,
                    old(self).tag_for(FoodType::Bonus),
                    old(self).pending().1 as nat,
                );
                let r3 = spawned_n(
                    r2.0,
                    b1,
                    b2,
                    r2.1,
                    FoodType::Speed,
                    old(self).tag_for(FoodType::Speed),
                    old(self).pending().2 as nat,
                );
                final(self).rng_state() == r3.0 && final(self).food_seq() == r3.1
            }),
            final(self).pending() == (0usize, 0usize, 0usize),
            final(self).p1().alive == (old(self).p1().alive && !head_on(old(self).p1(), old(self).p2())),
            final(self).p1().body == old(self).p1().body,
            final(self).p1().direction == old(self).p1().direction,
            final(self).p1().next_direction == old(self).p1().next_direction,
            final(self).p1().score == old(self).p1().score,
            match old(self).p2() {
                None => final(self).p2() is None,
                Some(t) => final(self).p2() matches Some(u) && u.alive == (t.alive && !head_on(
                    old(self).p1(),
                    old(self).p2(),
                )) && u.body == t.body && u.direction == t.direction && u.next_direction
                    == t.next_direction && u.score == t.score,
            },
            heads_apart(old(self).p1(), old(self).p2()) ==> final(self).p1().alive && (final(self).p2() matches Some(u)
                && u.alive),
            heads_together(old(self).p1(), old(self).p2()) ==> !final(self).p1().alive && (final(self).p2() matches Some(u)
                && !u.alive),
            old(self).p1().alive && !final(self).p1().alive ==> heads_together(old(self).p1(), old(self).p2()),
            (old(self).p2() matches Some(t) && t.alive) && (final(self).p2() matches Some(u) && !u.alive)
                ==> heads_together(old(self).p1(), old(self).p2()),
            old(self).screen_of() == Screen::Playing ==> (final(self).screen_of() == Screen::GameOver
                <==> game_is_over(final(self).mode_of(), final(self).p1(), final(self).p2())),
            final(self).screen_of() == if game_is_over(old(self).mode_of(), final(self).p1(), final(self).p2()) {
                Screen::GameOver
            } else {
                old(self).screen_of()
            },
            final(self).mode_of() == old(self).mode_of(),
            final(self).selection_of() == old(self).selection_of(),
            final(self).wraps() == old(self).wraps(),
            forall|k: FoodType| #[trigger] final(self).tag_for(k) == old(self).tag_for(k),
    {
        let n_normal = self.pending_normal;
        let n_bonus = self.pending_bonus;
        let n_speed = self.pending_speed;
        self.spawn_times(FoodType::Normal, n_normal);
        self.spawn_times(FoodType::Bonus, n_bonus);
        self.spawn_times(FoodType::Speed, n_speed);
        self.pending_normal = 0;
        self.pending_bonus = 0;
        self.pending_speed = 0;
        let meet = match &self.snake2 {
            Some(t) => self.snake1.alive && t.alive && {
                let h1 = self.snake1.head();
                let h2 = t.head();
                h1.0 == h2.0 && h1.1 == h2.1
            },
            None => false,
        };
        if meet {
            self.snake1.alive = false;
            match &mut self.snake2 {
                Some(t) => {
                    t.alive = false;
                },
                None => {},
            }
        }
        let over = match self.mode {
            PlayerMode::OnePlayer => !self.snake1.alive,
            PlayerMode::TwoPlayer => !self.snake1.alive || match &self.snake2 {
                Some(t) => !t.alive,
                None => false,
            },
        };
        if over {
            self.screen = Screen::GameOver;
        }
    }
}


/// A score moved by what a step ate: [`POINTS_NORMAL`] for a normal food,
/// [`POINTS_BONUS`] for a bonus food, [`POINTS_SPEED`] for a speed food,
/// nothing when nothing was eaten.
pub open spec fn ate_points(before: u32, after: u32, a: Advance) -> bool {
    &&& a.eaten == Some(FoodType::Normal) ==> after == before + POINTS_NORMAL
    &&& a.eaten == Some(FoodType::Bonus) ==> after == before + POINTS_BONUS
    &&& a.eaten == Some(FoodType::Speed) ==> after == before + POINTS_SPEED
    &&& a.eaten is None ==> after == before
}

/// Eating adds exactly the points of the food's kind: 10 for a normal food,
/// 50 for a bonus food, 25 for a speed food; and the kind eaten is that of a
/// food that lay on the snake's new head.
pub proof fn law_food_kind_points<L>(
    s: Snake,
    n: Snake,
    rival: Seq<Cell>,
    foods: Seq<Food<L>>,
    foods2: Seq<Food<L>>,
    wrap: bool,
    a: Advance,
)
    requires
        s.wf(),
        stepped(s, n, rival, foods, foods2, wrap, a),
    ensures
        a.eaten == Some(FoodType::Normal) ==> n.score == s.score + 10,
        a.eaten == Some(FoodType::Bonus) ==> n.score == s.score + 50,
        a.eaten == Some(FoodType::Speed) ==> n.score == s.score + 25,
        a.eaten is None ==> n.score == s.score,
        ate_points(s.score, n.score, a),
        a.eaten matches Some(k) ==> exists|i: int|
            0 <= i < foods.len() && (#[trigger] foods[i]).x == n.body@[0].0 && foods[i].y == n.body@[0].1
                && foods[i].food_type == k,
{
    if s.alive {
        let d = effective_direction(s);
        if let Some(h) = step_target(s.head_cell(), d, wrap) {
            if let Some(i) = first_food_at(foods, h) {
                assert(is_first_food_at(foods, h, i));
                assert(n.body@[0] == h);
            }
        }
    }
}

/// The points a step scored.
pub open spec fn step_points(a: Advance) -> int {
    match a.eaten {
        Some(k) => points_of(k) as int,
        None => 0,
    }
}

/// A step that eats grows the snake by one cell and removes exactly one
/// food; a step that moves without eating keeps the length; a step that
/// does not move leaves body and foods as they were.
pub proof fn law_step_growth<L>(
    s: Snake,
    n: Snake,
    rival: Seq<Cell>,
    foods: Seq<Food<L>>,
    foods2: Seq<Food<L>>,
    wrap: bool,
    a: Advance,
)
    requires
        s.wf(),
        stepped(s, n, rival, foods, foods2, wrap, a),
    ensures
        a.eaten is Some ==> a.moved && n.body@.len() == s.body@.len() + 1 && foods2.len() + 1
            == foods.len(),
        a.moved && a.eaten is None ==> n.body@.len() == s.body@.len() && foods2 == foods,
        !a.moved ==> n.body@ == s.body@ && foods2 == foods,
{
    if s.alive {
        let d = effective_direction(s);
        if let Some(h) = step_target(s.head_cell(), d, wrap) {
            if let Some(i) = first_food_at(foods, h) {
                assert(is_first_food_at(foods, h, i));
            }
        }
    }
}

/// A moving step puts the new head on the target cell and keeps the rest of
/// the body as the front of the old body: the snake slides, it never jumps.
pub proof fn law_step_slides<L>(
    s: Snake,
    n: Snake,
    rival: Seq<Cell>,
    foods: Seq<Food<L>>,
    foods2: Seq<Food<L>>,
    wrap: bool,
    a: Advance,
)
    requires
        s.wf(),
        stepped(s, n, rival, foods, foods2, wrap, a),
        a.moved,
    ensures
        step_target(s.head_cell(), effective_direction(s), wrap) == Some(n.body@[0]),
        in_grid(n.body@[0]),
        n.body@.drop_first() == s.body@.take(n.body@.len() - 1),
{
    let d = effective_direction(s);
    let h = step_target(s.head_cell(), d, wrap).unwrap();
    law_step_stays_in_grid(s.head_cell(), d, wrap);
    let grown = seq![h] + s.body@;
    if let Some(i) = first_food_at(foods, h) {
        assert(n.body@.drop_first() =~= s.body@.take(n.body@.len() - 1));
    } else {
        assert(n.body@.drop_first() =~= s.body@.take(n.body@.len() - 1));
    }
}

/// The score only ever grows, and only by the points of the food eaten.
pub proof fn law_score_from_food<L>(
    s: Snake,
    n: Snake,
    rival: Seq<Cell>,
    foods: Seq<Food<L>>,
    foods2: Seq<Food<L>>,
    wrap: bool,
    a: Advance,
)
    requires
        s.wf(),
        stepped(s, n, rival, foods, foods2, wrap, a),
    ensures
        n.score == s.score + step_points(a),
        n.score >= s.score,
{
}

/// A dead snake stays put, and a live snake on wrapping walls always moves.
pub proof fn law_dead_frozen_wrap_moves<L>(
    s: Snake,
    n: Snake,
    rival: Seq<Cell>,
    foods: Seq<Food<L>>,
    foods2: Seq<Food<L>>,
    wrap: bool,
    a: Advance,
)
    requires
        s.wf(),
        stepped(s, n, rival, foods, foods2, wrap, a),
    ensures
        !s.alive ==> !a.moved && !n.alive && n.body@ == s.body@,
        s.alive && wrap ==> a.moved,
{
}

/// A snake dies exactly when its step leaves the grid (without wrapping) or
/// lands on its own body or on the rival's; a dead snake never comes back.
pub proof fn law_death_cause<L>(
    s: Snake,
    n: Snake,
    rival: Seq<Cell>,
    foods: Seq<Food<L>>,
    foods2: Seq<Food<L>>,
    wrap: bool,
    a: Advance,
)
    requires
        s.wf(),
        stepped(s, n, rival, foods, foods2, wrap, a),
    ensures
        !s.alive ==> !n.alive,
        s.alive ==> (n.alive <==> match step_target(s.head_cell(), effective_direction(s), wrap) {
            Some(h) => !s.body@.contains(h) && !rival.contains(h),
            None => false,
        }),
{
}

/// In a well-formed field no two foods share a cell.
pub proof fn law_foods_on_distinct_cells<L: Copy>(f: SnakeField<L>)
    requires
        f.wf(),
    ensures
        foods_apart(f.food_seq()),
{
}

/// Foods lie on distinct cells, so a snake that eats leaves no food on its
/// new head, and the foods stay on distinct cells.
pub proof fn law_eating_clears_the_head<L>(
    s: Snake,
    n: Snake,
    rival: Seq<Cell>,
    foods: Seq<Food<L>>,
    foods2: Seq<Food<L>>,
    wrap: bool,
    a: Advance,
)
    requires
        s.wf(),
        stepped(s, n, rival, foods, foods2, wrap, a),
        foods_apart(foods),
    ensures
        a.eaten is Some ==> !food_covers(foods2, n.body@[0]),
        foods_apart(foods2),
{
    if s.alive {
        let d = effective_direction(s);
        if let Some(h) = step_target(s.head_cell(), d, wrap) {
            if let Some(i) = first_food_at(foods, h) {
                assert(is_first_food_at(foods, h, i));
                assert(n.body@[0] == h);
                assert forall|m: int| 0 <= m < foods2.len() implies !food_on(#[trigger] foods2[m], h) by {
                    if m < i {
                        assert(foods2[m] == foods[m]);
                        assert(!food_on(foods[m], (foods[i].x, foods[i].y)));
                    } else {
                        assert(foods2[m] == foods[m + 1]);
                        assert(!food_on(foods[i], (foods[m + 1].x, foods[m + 1].y)));
                    }
                }
                assert forall|p: int, q: int| 0 <= p < q < foods2.len() implies !food_on(
                    #[trigger] foods2[p],
                    (#[trigger] foods2[q].x, foods2[q].y),
                ) by {
                    let pp = if p < i { p } else { p + 1 };
                    let qq = if q < i { q } else { q + 1 };
                    assert(foods2[p] == foods[pp] && foods2[q] == foods[qq]);
                    assert(!food_on(foods[pp], (foods[qq].x, foods[qq].y)));
                }
            }
        }
    }
}

/// Over any run of the tick operations (steering, stepping, food upkeep and
/// the end of the tick), each of which keeps dead snakes dead and still
/// ([`dead_stay_dead`]), no snake comes back to life, moves or scores once
/// dead.
pub proof fn law_dead_stay_dead_over_a_tick<L: Copy>(states: Seq<SnakeField<L>>)
    requires
        states.len() >= 1,
        forall|i: int| 0 <= i < states.len() - 1 ==> dead_stay_dead(#[trigger] states[i], states[i + 1]),
    ensures
        dead_stay_dead(states[0], states.last()),
    decreases states.len(),
{
    if states.len() > 1 {
        let front = states.drop_last();
        assert forall|i: int| 0 <= i < front.len() - 1 implies dead_stay_dead(#[trigger] front[i], front[i + 1]) by {
            assert(front[i] == states[i] && front[i + 1] == states[i + 1]);
        }
        law_dead_stay_dead_over_a_tick(front);
        assert(dead_stay_dead(states[states.len() - 2], states.last()));
    }
}

/// A tick that starts in play ends on the game-over screen exactly when
/// [`game_is_over`] holds of its final snakes, and stays in play otherwise.
pub proof fn law_tick_ends_as_game_is_over(mode: PlayerMode, p1: Snake, p2: Option<Snake>, screen: Screen)
    requires
        screen == if game_is_over(mode, p1, p2) { Screen::GameOver } else { Screen::Playing },
    ensures
        (screen == Screen::GameOver) == game_is_over(mode, p1, p2),
        mode == PlayerMode::OnePlayer ==> ((screen == Screen::GameOver) == !p1.alive),
        mode == PlayerMode::TwoPlayer ==> ((screen == Screen::GameOver) == (!p1.alive || (p2 matches Some(t)
            && !t.alive))),
{
}

} // verus!
