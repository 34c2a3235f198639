//! Breakout: the brick wall of the Breakout cart.
//!
//! The wall has [`BRICK_ROWS`] rows of [`BRICK_COLS`] bricks, laid on the
//! first frame; each knocked-out brick scores [`POINTS_PER_BRICK`], and the
//! game is won when no brick is left standing. Ball and paddle motion, and
//! the geometry of the bricks, are continuous and are kept by the host.

use vstd::prelude::*;

verus! {

/// Rows of bricks.
pub const BRICK_ROWS: usize = 8;

/// Bricks per row.
pub const BRICK_COLS: usize = 7;

/// Bricks in a full wall.
pub const BRICK_COUNT: usize = 56;

/// Points for each brick knocked out.
pub const POINTS_PER_BRICK: u32 = 10;

/// Colours of the rows, top to bottom.
pub const ROW_COLOR_COUNT: usize = 8;

/// How many bricks of the wall have been knocked out.
pub open spec fn broken(alive: Seq<bool>) -> nat
    decreases alive.len(),
{
    if alive.len() == 0 {
        0
    } else {
        broken(alive.drop_last()) + if alive.last() {
            0nat
        } else {
            1nat
        }
    }
}

/// At most every brick is broken.
proof fn lemma_broken_bounded(alive: Seq<bool>)
    ensures
        broken(alive) <= alive.len(),
    decreases alive.len(),
{
    if alive.len() > 0 {
        lemma_broken_bounded(alive.drop_last());
    }
}

/// Knocking out a standing brick breaks exactly one more.
proof fn lemma_broken_update(alive: Seq<bool>, i: int)
    requires
        0 <= i < alive.len(),
        alive[i],
    ensures
        broken(alive.update(i, false)) == broken(alive) + 1,
    decreases alive.len(),
{
    let upd = alive.update(i, false);
    if i == alive.len() - 1 {
        assert(upd.drop_last() =~= alive.drop_last());
    } else {
        assert(upd.drop_last() =~= alive.drop_last().update(i, false));
        lemma_broken_update(alive.drop_last(), i);
    }
}

/// A wall of standing bricks has none broken.
proof fn lemma_broken_none(alive: Seq<bool>)
    requires
        forall|i: int| 0 <= i < alive.len() ==> alive[i],
    ensures
        broken(alive) == 0,
    decreases alive.len(),
{
    if alive.len() > 0 {
        lemma_broken_none(alive.drop_last());
    }
}

/// The row of brick `i` (bricks are laid row by row).
pub open spec fn row_of(i: int) -> int {
    i / (BRICK_COLS as int)
}

/// The column of brick `i`.
pub open spec fn col_of(i: int) -> int {
    i % (BRICK_COLS as int)
}

/// The wall: one flag per brick (standing or not) and the score it earned.
pub struct BrickWall {
    alive: Vec<bool>,
    score: u32,
}

impl BrickWall {
    /// The wall is unlaid or full-sized, and the score is ten points per
    /// broken brick.
    #[verifier::type_invariant]
    spec fn wall_inv(self) -> bool {
        &&& (self.alive@.len() == 0 || self.alive@.len() == BRICK_COUNT)
        &&& self.score == POINTS_PER_BRICK * broken(self.alive@)
    }

    /// Which bricks stand.
    pub closed spec fn view(self) -> Seq<bool> {
        self.alive@
    }

    /// The score.
    pub closed spec fn points(self) -> u32 {
        self.score
    }

    /// A wall not yet laid, scoring zero.
    pub fn new() -> (w: Self)
        ensures
            w@.len() == 0,
            w.points() == 0,
    {
        BrickWall { alive: Vec::new(), score: 0 }
    }

    /// Lays a full wall of standing bricks if none is laid yet.
    pub fn lay_if_empty(&mut self)
        ensures
            old(self)@.len() == 0 ==> final(self)@ == Seq::new(BRICK_COUNT as nat, |i: int| true)
                && final(self).points() == old(self).points(),
            old(self)@.len() != 0 ==> final(self)@ == old(self)@ && final(self).points() == old(
                self,
            ).points(),
    {
        proof {
            use_type_invariant(&*self);
        }
        if self.alive.len() == 0 {
            let mut v: Vec<bool> = Vec::new();
            let mut i: usize = 0;
            while i < BRICK_COUNT
                invariant
                    i <= BRICK_COUNT,
                    v@.len() == i,
                    forall|k: int| 0 <= k < i ==> v@[k],
                decreases BRICK_COUNT - i,
            {
                v.push(true);
                i = i + 1;
            }
            proof {
                lemma_broken_none(v@);
                assert(v@ =~= Seq::new(BRICK_COUNT as nat, |i: int| true));
            }
            self.alive = v;
        }
    }

    /// Number of bricks in the wall (0 before it is laid).
    pub fn len(&self) -> (n: usize)
        ensures
            n == self@.len(),
    {
        self.alive.len()
    }

    /// Does brick `i` stand?
    pub fn is_standing(&self, i: usize) -> (b: bool)
        requires
            i < self@.len(),
        ensures
            b == self@[i as int],
    {
        self.alive[i]
    }

    /// The row of brick `i`.
    pub fn row(i: usize) -> (r: usize)
        ensures
            r == row_of(i as int),
    {
        i / BRICK_COLS
    }

    /// The column of brick `i`.
    pub fn col(i: usize) -> (c: usize)
        ensures
            c == col_of(i as int),
    {
        i % BRICK_COLS
    }

    /// The colour index of brick `i`: its row, cycling through the row colours.
    pub fn color_index(i: usize) -> (c: usize)
        ensures
            c == row_of(i as int) % (ROW_COLOR_COUNT as int),
            c < ROW_COLOR_COUNT,
    {
        (i / BRICK_COLS) % ROW_COLOR_COUNT
    }

    /// The score: ten points per broken brick.
    pub fn score(&self) -> (s: u32)
        ensures
            s == self.points(),
            s == POINTS_PER_BRICK * broken(self@),
            s <= POINTS_PER_BRICK * BRICK_COUNT,
    {
        proof {
            use_type_invariant(self);
            lemma_broken_bounded(self@);
        }
        self.score
    }

    /// Knocks out standing brick `i`, scoring [`POINTS_PER_BRICK`].
    pub fn knock_out(&mut self, i: usize)
        requires
            i < old(self)@.len(),
            old(self)@[i as int],
        ensures
            final(self)@ == old(self)@.update(i as int, false),
            final(self).points() == old(self).points() + POINTS_PER_BRICK,
    {
        proof {
            use_type_invariant(&*self);
            lemma_broken_update(self.alive@, i as int);
            lemma_broken_bounded(self.alive@.update(i as int, false));
        }
        let n = self.alive.len();
        let mut v: Vec<bool> = Vec::new();
        let mut k: usize = 0;
        while k < n
            invariant
                k <= n,
                n == self.alive@.len(),
                i < n,
                v@ =~= self.alive@.update(i as int, false).take(k as int),
            decreases n - k,
        {
            if k == i {
                v.push(false);
            } else {
                v.push(self.alive[k]);
            }
            k = k + 1;
        }
        proof {
            assert(v@ =~= self.alive@.update(i as int, false));
        }
        *self = BrickWall { alive: v, score: self.score + POINTS_PER_BRICK };
    }

    /// Is no brick standing? (Also true of a wall not yet laid.)
    pub fn all_cleared(&self) -> (b: bool)
        ensures
            b == (forall|k: int| 0 <= k < self@.len() ==> !self@[k]),
    {
        let n = self.alive.len();
        let mut i: usize = 0;
        while i < n
            invariant
                i <= n,
                n == self@.len(),
                forall|k: int| 0 <= k < i ==> !self@[k],
            decreases n - i,
        {
            if self.alive[i] {
                return false;
            }
            i = i + 1;
        }
        true
    }

    /// How many bricks stand.
    pub fn standing_count(&self) -> (c: usize)
        ensures
            c + broken(self@) == self@.len(),
    {
        let n = self.alive.len();
        let mut i: usize = 0;
        let mut c: usize = 0;
        while i < n
            invariant
                i <= n,
                n == self@.len(),
                c + broken(self@.take(i as int)) == i,
            decreases n - i,
        {
            proof {
                assert(self@.take(i + 1).drop_last() =~= self@.take(i as int));
                lemma_broken_bounded(self@.take(i as int));
            }
            if self.alive[i] {
                c = c + 1;
            }
            i = i + 1;
        }
        proof {
            assert(self@.take(n as int) =~= self@);
        }
        c
    }
}

} // verus!
