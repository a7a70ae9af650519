use vstd::prelude::*;

verus! {

/// Pixels in a row of the display.
pub const DISPLAY_WIDTH: usize = 64;

/// Rows of the display.
pub const DISPLAY_HEIGHT: usize = 32;

/// Pixels on the display.
pub const DISPLAY_SIZE: usize = 2048;

/// The column of the pixel at flat index `p` (rows are stored one after another).
pub open spec fn column(p: int) -> int {
    p % DISPLAY_WIDTH as int
}

/// The row of the pixel at flat index `p`.
pub open spec fn row(p: int) -> int {
    p / DISPLAY_WIDTH as int
}

/// Whether bit `i` of a sprite row, counted from the most significant, is set.
pub open spec fn bit_set(byte: u8, i: int) -> bool {
    byte & (0x80u8 >> (i as u8)) != 0
}

/// How far right of column `x` (wrapping) the pixel at `p` lies.
pub open spec fn offset(x: int, p: int) -> int {
    (column(p) + DISPLAY_WIDTH as int - x % DISPLAY_WIDTH as int) % DISPLAY_WIDTH as int
}

/// Whether row `j` of the sprite, drawn at `(x, y)`, has a set bit over pixel `p`.
pub open spec fn covers(sprite: Seq<u8>, x: int, y: int, j: int, p: int) -> bool {
    &&& row(p) == (y + j) % DISPLAY_HEIGHT as int
    &&& offset(x, p) < 8
    &&& bit_set(sprite[j], offset(x, p))
}

/// Whether the first `k` rows of the sprite flip pixel `p` an odd number of times.
pub open spec fn toggled(sprite: Seq<u8>, x: int, y: int, k: int, p: int) -> bool
    decreases k,
{
    if k <= 0 {
        false
    } else {
        toggled(sprite, x, y, k - 1, p) != covers(sprite, x, y, k - 1, p)
    }
}

/// The grid after the sprite is XORed onto it at `(x, y)`, wrapping on both axes.
pub open spec fn drawn(grid: Seq<bool>, sprite: Seq<u8>, x: int, y: int) -> Seq<bool> {
    Seq::new(grid.len(), |p: int| grid[p] != toggled(sprite, x, y, sprite.len() as int, p))
}

/// Whether, drawing the first `k` rows one after another, a lit pixel is put out.
pub open spec fn collides(grid: Seq<bool>, sprite: Seq<u8>, x: int, y: int, k: int) -> bool
    decreases k,
{
    if k <= 0 {
        false
    } else {
        collides(grid, sprite, x, y, k - 1) || exists|p: int|
            0 <= p < grid.len() && #[trigger] covers(sprite, x, y, k - 1, p) && (grid[p]
                != toggled(sprite, x, y, k - 1, p))
    }
}

/// A pixel that the first `k` rows flip is covered by some row before which
/// it had not been flipped yet.
proof fn lemma_first_cover(sprite: Seq<u8>, x: int, y: int, k: int, p: int)
    requires
        toggled(sprite, x, y, k, p),
    ensures
        exists|j: int|
            0 <= j < k && #[trigger] covers(sprite, x, y, j, p) && !toggled(sprite, x, y, j, p),
    decreases k,
{
    if k > 0 {
        if toggled(sprite, x, y, k - 1, p) {
            lemma_first_cover(sprite, x, y, k - 1, p);
        } else {
            assert(covers(sprite, x, y, k - 1, p));
        }
    }
}

/// Once a lit pixel has been put out, later rows do not take that back.
proof fn lemma_collides_grows(grid: Seq<bool>, sprite: Seq<u8>, x: int, y: int, j: int, k: int)
    requires
        j <= k,
        collides(grid, sprite, x, y, j),
    ensures
        collides(grid, sprite, x, y, k),
    decreases k - j,
{
    if j < k {
        lemma_collides_grows(grid, sprite, x, y, j, k - 1);
    }
}

/// Drawing the same sprite at the same place twice gives back the grid it
/// started from, and where the first drawing lit a pixel, the second reports
/// a collision.
pub proof fn lemma_draw_twice(grid: Seq<bool>, sprite: Seq<u8>, x: int, y: int)
    ensures
        drawn(drawn(grid, sprite, x, y), sprite, x, y) == grid,
        (exists|p: int|
            0 <= p < grid.len() && !grid[p] && #[trigger] drawn(grid, sprite, x, y)[p])
            ==> collides(drawn(grid, sprite, x, y), sprite, x, y, sprite.len() as int),
{
    let once = drawn(grid, sprite, x, y);
    assert(drawn(once, sprite, x, y) =~= grid);
    if exists|p: int| 0 <= p < grid.len() && !grid[p] && #[trigger] once[p] {
        let p = choose|p: int| 0 <= p < grid.len() && !grid[p] && #[trigger] once[p];
        lemma_first_cover(sprite, x, y, sprite.len() as int, p);
        let j = choose|j: int|
            0 <= j < sprite.len() && #[trigger] covers(sprite, x, y, j, p) && !toggled(
                sprite,
                x,
                y,
                j,
                p,
            );
        assert(collides(once, sprite, x, y, j + 1));
        lemma_collides_grows(once, sprite, x, y, j + 1, sprite.len() as int);
    }
}

/// The monochrome 64 by 32 pixel grid.
pub struct Display {
    grid: Vec<bool>,
}

impl View for Display {
    type V = Seq<bool>;

    closed spec fn view(&self) -> Seq<bool> {
        self.grid@
    }
}

impl Display {
    /// The grid holds one flag per pixel.
    pub open spec fn wf(&self) -> bool {
        self@.len() == DISPLAY_SIZE
    }

    /// A display with every pixel dark.
    pub fn new() -> (d: Display)
        ensures
            d.wf(),
            forall|p: int| 0 <= p < DISPLAY_SIZE ==> !d@[p],
    {
        let mut grid: Vec<bool> = Vec::new();
        let mut i: usize = 0;
        while i < DISPLAY_SIZE
            invariant
                i <= DISPLAY_SIZE,
                grid@.len() == i,
                forall|p: int| 0 <= p < i ==> !grid@[p],
            decreases DISPLAY_SIZE - i,
        {
            grid.push(false);
            i += 1;
        }
        Display { grid }
    }

    /// Puts every pixel out.
    pub fn clear(&mut self)
        requires
            old(self).wf(),
        ensures
            final(self).wf(),
            forall|p: int| 0 <= p < DISPLAY_SIZE ==> !final(self)@[p],
    {
        let mut i: usize = 0;
        while i < DISPLAY_SIZE
            invariant
                i <= DISPLAY_SIZE,
                self@.len() == DISPLAY_SIZE,
                forall|p: int| 0 <= p < i ==> !self@[p],
            decreases DISPLAY_SIZE - i,
        {
            self.grid.set(i, false);
            i += 1;
        }
    }

    /// Whether the pixel in column `x` and row `y` is lit.
    pub fn pixel(&self, x: usize, y: usize) -> (r: bool)
        requires
            self.wf(),
            x < DISPLAY_WIDTH,
            y < DISPLAY_HEIGHT,
        ensures
            r == self@[y * DISPLAY_WIDTH + x],
    {
        self.grid[y * DISPLAY_WIDTH + x]
    }

    /// The pixels, row after row: the pixel in column `x` and row `y` is at
    /// `y * 64 + x`.
    pub fn grid(&self) -> (r: &Vec<bool>)
        ensures
            r@ == self@,
    {
        &self.grid
    }

    /// XORs the sprite onto the grid, row `j` of it at row `y + j` and bit `i`
    /// of a row (from the most significant) at column `x + i`, each wrapping
    /// around its axis. Returns whether a lit pixel was put out.
    #[verifier::spinoff_prover]
    #[verifier::rlimit(40)]
    pub fn draw(&mut self, x: usize, y: usize, sprite: &[u8]) -> (collision: bool)
        requires
            old(self).wf(),
        ensures
            final(self).wf(),
            final(self)@ == drawn(old(self)@, sprite@, x as int, y as int),
            collision == collides(old(self)@, sprite@, x as int, y as int, sprite@.len() as int),
    {
        let ghost g0 = self@;
        let ghost s = sprite@;
        let x0: usize = x % DISPLAY_WIDTH;
        let y0: usize = y % DISPLAY_HEIGHT;
        let mut collision = false;
        let mut j: usize = 0;
        while j < sprite.len()
            invariant
                s == sprite@,
                x0 == x as int % DISPLAY_WIDTH as int,
                y0 == y as int % DISPLAY_HEIGHT as int,
                j <= s.len(),
                self@.len() == DISPLAY_SIZE,
                g0.len() == DISPLAY_SIZE,
                forall|p: int|
                    0 <= p < DISPLAY_SIZE ==> #[trigger] self@[p] == (g0[p] != toggled(
                        s,
                        x as int,
                        y as int,
                        j as int,
                        p,
                    )),
                collision == collides(g0, s, x as int, y as int, j as int),
            decreases s.len() - j,
        {
            let byte = sprite[j];
            let yj: usize = (y0 + j % DISPLAY_HEIGHT) % DISPLAY_HEIGHT;
            let ghost row_before = self@;
            let ghost coll_before = collision;
            let mut i: usize = 0;
            while i < 8
                invariant
                    s == sprite@,
                    byte == s[j as int],
                    j < s.len(),
                    x0 == x as int % DISPLAY_WIDTH as int,
                    yj == (y + j) as int % DISPLAY_HEIGHT as int,
                    i <= 8,
                    self@.len() == DISPLAY_SIZE,
                    row_before.len() == DISPLAY_SIZE,
                    forall|p: int|
                        0 <= p < DISPLAY_SIZE ==> #[trigger] self@[p] == (row_before[p] != (covers(
                            s,
                            x as int,
                            y as int,
                            j as int,
                            p,
                        ) && offset(x as int, p) < i)),
                    collision == (coll_before || exists|p: int|
                        0 <= p < DISPLAY_SIZE && #[trigger] covers(s, x as int, y as int, j as int, p)
                            && offset(x as int, p) < i && row_before[p]),
                decreases 8 - i,
            {
                let xi: usize = (x0 + i) % DISPLAY_WIDTH;
                let p: usize = yj * DISPLAY_WIDTH + xi;
                assert(column(p as int) == xi && row(p as int) == yj);
                assert(offset(x as int, p as int) == i);
                let old_px = self.grid[p];
                let new_px = byte & (0x80u8 >> (i as u8)) != 0;
                self.grid.set(p, old_px != new_px);
                collision = collision || (old_px && new_px);
                assert(new_px == covers(s, x as int, y as int, j as int, p as int));
                assert forall|q: int|
                    0 <= q < DISPLAY_SIZE && offset(x as int, q) == i && #[trigger] covers(
                        s,
                        x as int,
                        y as int,
                        j as int,
                        q,
                    ) implies q == p by {
                    assert(row(q) == yj);
                    assert(column(q) == xi);
                }
                i += 1;
            }
            j += 1;
        }
        assert(self@ =~= drawn(g0, s, x as int, y as int));
        collision
    }
}

} // verus!
