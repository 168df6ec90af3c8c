//! The neighbour-access façade that every rule works through, and the
//! pseudo-random source that the rules draw from.
use vstd::prelude::*;
use crate::cell::{Cell, Species, Wind, wall_cell};

verus! {

/// Largest grid side: keeps every coordinate and index well inside `i32`.
pub const MAX_SIDE: i32 = 16384;

/// The state after one step of the generator (a 64-bit linear congruential
/// step, wrapping).
pub open spec fn rng_step(s: u64) -> u64 {
    s.wrapping_mul(6364136223846793005u64).wrapping_add(1442695040888963407u64)
}

/// What a draw in [0, n] gives from state `s`: the high bits of the next state
/// taken modulo n + 1.
pub open spec fn rng_draw(s: u64, n: i32) -> int {
    (rng_step(s) / 4294967296u64) as int % (n as int + 1)
}

/// An injectable pseudo-random source; any seed is valid.
#[derive(Clone, Copy, Debug, PartialEq, Eq, Structural)]
pub struct Rng {
    pub state: u64,
}

impl Rng {
    pub fn new(seed: u64) -> (r: Rng)
        ensures
            r.state == seed,
    {
        Rng { state: seed }
    }

    /// A draw in [0, n].
    pub fn next_int(&mut self, n: i32) -> (r: i32)
        requires
            0 <= n < i32::MAX,
        ensures
            final(self).state == rng_step(old(self).state),
            r as int == rng_draw(old(self).state, n),
            0 <= r <= n,
    {
        self.state = self.state.wrapping_mul(6364136223846793005u64).wrapping_add(
            1442695040888963407u64,
        );
        let hi: u64 = self.state / 4294967296u64;
        let m: u64 = (n as u64) + 1;
        (hi % m) as i32
    }
}

/// The compass direction with index `i` (0..=7) in the generators' table.
pub open spec fn compass_at(i: int) -> (int, int) {
    if i == 0 {
        (1, 1)
    } else if i == 1 {
        (1, 0)
    } else if i == 2 {
        (1, -1)
    } else if i == 3 {
        (0, -1)
    } else if i == 4 {
        (-1, -1)
    } else if i == 5 {
        (-1, 0)
    } else if i == 6 {
        (-1, 1)
    } else {
        (0, 1)
    }
}

/// Whether `v` is one of the eight compass offsets.
pub open spec fn is_step(v: (i32, i32)) -> bool {
    -1 <= v.0 <= 1 && -1 <= v.1 <= 1 && !(v.0 == 0 && v.1 == 0)
}

/// The index of column `nx`, row `ny` in a grid `w` wide.
pub open spec fn cell_index(w: int, nx: int, ny: int) -> int {
    ny * w + nx
}

/// Two distinct positions of a grid have distinct indices.
pub broadcast proof fn lemma_cell_index_distinct(w: int, x1: int, y1: int, x2: int, y2: int)
    requires
        0 <= x1 < w,
        0 <= x2 < w,
        x1 != x2 || y1 != y2,
    ensures
        #[trigger] cell_index(w, x1, y1) != #[trigger] cell_index(w, x2, y2),
{
    if y1 == y2 {
    } else if y1 < y2 {
        assert(y1 * w + x1 < y2 * w + x2) by (nonlinear_arith)
            requires
                0 <= x1 < w,
                0 <= x2 < w,
                y1 < y2,
        ;
    } else {
        assert(y2 * w + x2 < y1 * w + x1) by (nonlinear_arith)
            requires
                0 <= x1 < w,
                0 <= x2 < w,
                y2 < y1,
        ;
    }
}

/// Every offset that lands in the grid has an index into the cells.
pub broadcast proof fn lemma_offset_index_bounds(a: SandApi, dx: int, dy: int)
    requires
        a.wf(),
        a.offset_in(dx, dy),
    ensures
        0 <= #[trigger] a.offset_index(dx, dy) < a.cells@.len(),
{
    let (nx, ny) = (a.x + dx, a.y + dy);
    let w = a.width as int;
    let h = a.height as int;
    assert(0 <= ny * w + nx < w * h) by (nonlinear_arith)
        requires
            0 <= nx < w,
            0 <= ny < h,
    ;
}

/// `v` with its clock set to the tick after `generation`.
pub open spec fn stamped(v: Cell, generation: u8) -> Cell {
    Cell { clock: generation.wrapping_add(1), ..v }
}

/// One rule invocation's window on the grid: the cells (row by row), the
/// grid's size, the position of the cell whose turn it is, the tick counter,
/// the fluid sample at that position and the random source.
pub struct SandApi {
    pub cells: Vec<Cell>,
    pub width: i32,
    pub height: i32,
    pub x: i32,
    pub y: i32,
    pub generation: u8,
    pub fluid: Wind,
    pub rng: Rng,
}

impl SandApi {
    /// The grid is as large as its size says, the size is bounded, and the
    /// position lies in it.
    pub open spec fn wf(&self) -> bool {
        &&& 0 < self.width <= MAX_SIDE
        &&& 0 < self.height <= MAX_SIDE
        &&& self.cells@.len() == self.width * self.height
        &&& 0 <= self.x < self.width
        &&& 0 <= self.y < self.height
    }

    pub open spec fn in_grid(&self, nx: int, ny: int) -> bool {
        0 <= nx < self.width && 0 <= ny < self.height
    }

    pub open spec fn index_of(&self, nx: int, ny: int) -> int {
        cell_index(self.width as int, nx, ny)
    }

    /// Whether the offset (dx, dy) from the position lies in the grid.
    pub open spec fn offset_in(&self, dx: int, dy: int) -> bool {
        self.in_grid(self.x + dx, self.y + dy)
    }

    /// The index of the cell at offset (dx, dy).
    pub open spec fn offset_index(&self, dx: int, dy: int) -> int {
        cell_index(self.width as int, self.x + dx, self.y + dy)
    }

    /// What a read at offset (dx, dy) sees: the cell there, or a wall outside
    /// the grid.
    pub open spec fn at(&self, dx: int, dy: int) -> Cell {
        if self.offset_in(dx, dy) {
            self.cells@[self.offset_index(dx, dy)]
        } else {
            wall_cell()
        }
    }

    /// The cells after a write of `v` at offset (dx, dy): stamped with the
    /// next tick inside the grid, nothing outside it or over a wall.
    pub open spec fn cells_after_set(&self, dx: int, dy: int, v: Cell) -> Seq<Cell> {
        self.put(self.cells@, dx, dy, v)
    }

    /// `s` after a write of `v` at offset (dx, dy), in this window's geometry;
    /// a wall is never overwritten.
    pub open spec fn put(&self, s: Seq<Cell>, dx: int, dy: int, v: Cell) -> Seq<Cell> {
        if self.offset_in(dx, dy) && s[self.offset_index(dx, dy)].species != Species::Wall {
            s.update(self.offset_index(dx, dy), stamped(v, self.generation))
        } else {
            s
        }
    }

    /// Whether index `i` lies within two rows and two columns of the position.
    pub open spec fn near(&self, i: int) -> bool {
        &&& -2 <= i % (self.width as int) - self.x <= 2
        &&& -2 <= i / (self.width as int) - self.y <= 2
    }

    /// `self` is `old` after a rule's turn: the same grid geometry, position
    /// and tick, and cells changed only near the position and never where a
    /// wall stood.
    pub open spec fn changed_near(&self, old: &SandApi) -> bool {
        &&& self.width == old.width
        &&& self.height == old.height
        &&& self.x == old.x
        &&& self.y == old.y
        &&& self.generation == old.generation
        &&& self.cells@.len() == old.cells@.len()
        &&& forall|i: int|
            0 <= i < self.cells@.len() && #[trigger] self.cells@[i] != old.cells@[i] ==> old.near(i)
                && old.cells@[i].species != Species::Wall
    }

    /// Every cell that was a wall in `old` is still a wall.
    pub open spec fn walls_kept(&self, old: &SandApi) -> bool {
        forall|i: int|
            0 <= i < old.cells@.len() && (#[trigger] old.cells@[i]).species == Species::Wall
                ==> self.cells@[i].species == Species::Wall
    }

    /// Only the random source moved on.
    pub open spec fn only_rng(&self, old: &SandApi) -> bool {
        &&& self.cells@ == old.cells@
        &&& self.width == old.width
        &&& self.height == old.height
        &&& self.x == old.x
        &&& self.y == old.y
        &&& self.generation == old.generation
        &&& self.fluid == old.fluid
        &&& self.rng.state == rng_step(old.rng.state)
    }

    /// A grid of `width` × `height` empty cells, position at the origin.
    pub fn new(width: i32, height: i32, generation: u8, seed: u64) -> (r: SandApi)
        requires
            0 < width <= MAX_SIDE,
            0 < height <= MAX_SIDE,
        ensures
            r.wf(),
            r.width == width,
            r.height == height,
            r.x == 0,
            r.y == 0,
            r.generation == generation,
            r.rng.state == seed,
            forall|i: int| 0 <= i < r.cells@.len() ==> #[trigger] r.cells@[i] == crate::cell::empty_cell(),
    {
        proof {
            assert(0 < width * height <= MAX_SIDE * MAX_SIDE) by (nonlinear_arith)
                requires
                    0 < width <= MAX_SIDE,
                    0 < height <= MAX_SIDE,
            ;
        }
        let n: usize = (width as usize) * (height as usize);
        let mut cells: Vec<Cell> = Vec::new();
        let mut k: usize = 0;
        while k < n
            invariant
                k <= n,
                cells@.len() == k,
                forall|i: int| 0 <= i < k ==> #[trigger] cells@[i] == crate::cell::empty_cell(),
            decreases n - k,
        {
            cells.push(Cell::empty());
            k = k + 1;
        }
        SandApi {
            cells,
            width,
            height,
            x: 0,
            y: 0,
            generation,
            fluid: Wind { dx: 0, dy: 0, pressure: 0, density: 0 },
            rng: Rng::new(seed),
        }
    }

    /// The cell at column `nx`, row `ny`; a wall outside the grid.
    pub fn cell_at(&self, nx: i32, ny: i32) -> (r: Cell)
        requires
            self.wf(),
        ensures
            r == (if self.in_grid(nx as int, ny as int) {
                self.cells@[self.index_of(nx as int, ny as int)]
            } else {
                wall_cell()
            }),
    {
        if nx < 0 || nx >= self.width || ny < 0 || ny >= self.height {
            return Cell::wall();
        }
        let i = self.index(nx, ny);
        self.cells[i]
    }

    /// Puts `c` at column `nx`, row `ny` as it is (no stamp); nothing outside
    /// the grid.
    pub fn place(&mut self, nx: i32, ny: i32, c: Cell)
        requires
            old(self).wf(),
        ensures
            final(self).wf(),
            final(self).cells@ == (if old(self).in_grid(nx as int, ny as int) {
                old(self).cells@.update(old(self).index_of(nx as int, ny as int), c)
            } else {
                old(self).cells@
            }),
            final(self).width == old(self).width,
            final(self).height == old(self).height,
            final(self).x == old(self).x,
            final(self).y == old(self).y,
            final(self).generation == old(self).generation,
            final(self).fluid == old(self).fluid,
            final(self).rng == old(self).rng,
    {
        if nx < 0 || nx >= self.width || ny < 0 || ny >= self.height {
            return;
        }
        let i = self.index(nx, ny);
        self.cells.set(i, c);
    }

    /// Moves the turn to column `nx`, row `ny`.
    pub fn focus(&mut self, nx: i32, ny: i32)
        requires
            old(self).wf(),
            0 <= nx < old(self).width,
            0 <= ny < old(self).height,
        ensures
            final(self).wf(),
            final(self).x == nx,
            final(self).y == ny,
            final(self).cells@ == old(self).cells@,
            final(self).width == old(self).width,
            final(self).height == old(self).height,
            final(self).generation == old(self).generation,
            final(self).fluid == old(self).fluid,
            final(self).rng == old(self).rng,
    {
        self.x = nx;
        self.y = ny;
    }

    fn index(&self, nx: i32, ny: i32) -> (r: usize)
        requires
            self.wf(),
            self.in_grid(nx as int, ny as int),
        ensures
            r as int == self.index_of(nx as int, ny as int),
            r < self.cells@.len(),
    {
        proof {
            let w = self.width as int;
            let h = self.height as int;
            assert(0 <= ny as int * w && ny as int * w + nx < w * h && w * h <= 16384 * 16384)
                by (nonlinear_arith)
                requires
                    0 <= nx < w,
                    0 <= ny < h,
                    w <= 16384,
                    h <= 16384,
            ;
        }
        (ny as usize) * (self.width as usize) + (nx as usize)
    }

    /// Reads the cell at offset (dx, dy); outside the grid, a wall.
    pub fn get(&self, dx: i32, dy: i32) -> (r: Cell)
        requires
            self.wf(),
            -2 <= dx <= 2,
            -2 <= dy <= 2,
        ensures
            r == self.at(dx as int, dy as int),
            !self.offset_in(dx as int, dy as int) ==> r == wall_cell(),
    {
        let nx = self.x + dx;
        let ny = self.y + dy;
        if nx < 0 || nx >= self.width || ny < 0 || ny >= self.height {
            return Cell::wall();
        }
        let i = self.index(nx, ny);
        self.cells[i]
    }

    /// Writes `v` at offset (dx, dy), stamped with the next tick; a write
    /// outside the grid, or onto a wall, does nothing.
    pub fn set(&mut self, dx: i32, dy: i32, v: Cell)
        requires
            old(self).wf(),
            -2 <= dx <= 2,
            -2 <= dy <= 2,
        ensures
            final(self).wf(),
            final(self).cells@ == old(self).cells_after_set(dx as int, dy as int, v),
            !old(self).offset_in(dx as int, dy as int) ==> final(self).cells@ == old(self).cells@,
            old(self).at(dx as int, dy as int).species == Species::Wall ==> final(self).cells@
                == old(self).cells@,
            final(self).width == old(self).width,
            final(self).height == old(self).height,
            final(self).x == old(self).x,
            final(self).y == old(self).y,
            final(self).generation == old(self).generation,
            final(self).fluid == old(self).fluid,
            final(self).rng == old(self).rng,
            final(self).changed_near(old(self)),
    {
        let nx = self.x + dx;
        let ny = self.y + dy;
        if nx < 0 || nx >= self.width || ny < 0 || ny >= self.height {
            return;
        }
        let i = self.index(nx, ny);
        if self.cells[i].species == Species::Wall {
            return;
        }
        let c = Cell { clock: self.generation.wrapping_add(1), ..v };
        self.cells.set(i, c);
        proof {
            let w = self.width as int;
            assert(self.offset_index(dx as int, dy as int) % w == nx as int
                && self.offset_index(dx as int, dy as int) / w == ny as int) by (nonlinear_arith)
                requires
                    self.offset_index(dx as int, dy as int) == ny as int * w + nx as int,
                    0 <= nx < w,
                    0 <= ny,
            ;
        }
    }

    /// The fluid sample at the position.
    pub fn get_fluid(&self) -> (r: Wind)
        ensures
            r == self.fluid,
    {
        self.fluid
    }

    /// Leaves a hint for the fluid solver at the position.
    pub fn set_fluid(&mut self, w: Wind)
        ensures
            final(self).fluid == w,
            final(self).cells@ == old(self).cells@,
            final(self).width == old(self).width,
            final(self).height == old(self).height,
            final(self).x == old(self).x,
            final(self).y == old(self).y,
            final(self).generation == old(self).generation,
            final(self).rng == old(self).rng,
    {
        self.fluid = w;
    }

    /// A uniform draw in [0, n].
    pub fn rand_int(&mut self, n: i32) -> (r: i32)
        requires
            0 <= n < i32::MAX,
        ensures
            r as int == rng_draw(old(self).rng.state, n),
            0 <= r <= n,
            final(self).only_rng(old(self)),
    {
        self.rng.next_int(n)
    }

    /// -1 or +1.
    pub fn rand_dir(&mut self) -> (r: i32)
        ensures
            r == -1 || r == 1,
            r as int == (if rng_draw(old(self).rng.state, 1) == 0 { -1int } else { 1int }),
            final(self).only_rng(old(self)),
    {
        if self.rng.next_int(1) == 0 {
            -1
        } else {
            1
        }
    }

    /// -1 or +1, drawn apart from `rand_dir`.
    pub fn rand_dir_2(&mut self) -> (r: i32)
        ensures
            r == -1 || r == 1,
            r as int == (if rng_draw(old(self).rng.state, 1) == 0 { 1int } else { -1int }),
            final(self).only_rng(old(self)),
    {
        if self.rng.next_int(1) == 0 {
            1
        } else {
            -1
        }
    }

    fn compass(i: i32) -> (r: (i32, i32))
        requires
            0 <= i <= 7,
        ensures
            (r.0 as int, r.1 as int) == compass_at(i as int),
            is_step(r),
    {
        if i == 0 {
            (1, 1)
        } else if i == 1 {
            (1, 0)
        } else if i == 2 {
            (1, -1)
        } else if i == 3 {
            (0, -1)
        } else if i == 4 {
            (-1, -1)
        } else if i == 5 {
            (-1, 0)
        } else if i == 6 {
            (-1, 1)
        } else {
            (0, 1)
        }
    }

    /// A uniform non-zero step to one of the eight neighbours.
    pub fn rand_vec(&mut self) -> (r: (i32, i32))
        ensures
            is_step(r),
            (r.0 as int, r.1 as int) == compass_at(rng_draw(old(self).rng.state, 7)),
            final(self).only_rng(old(self)),
    {
        let i = self.rng.next_int(7);
        Self::compass(i)
    }

    /// A uniform step over the eight compass directions.
    pub fn rand_vec_8(&mut self) -> (r: (i32, i32))
        ensures
            is_step(r),
            (r.0 as int, r.1 as int) == compass_at(rng_draw(old(self).rng.state, 7)),
            final(self).only_rng(old(self)),
    {
        let i = self.rng.next_int(7);
        Self::compass(i)
    }

    /// True with chance 1/n.
    pub fn once_in(&mut self, n: i32) -> (r: bool)
        requires
            1 <= n,
        ensures
            r == (rng_draw(old(self).rng.state, (n - 1) as i32) == 0),
            final(self).only_rng(old(self)),
    {
        self.rng.next_int(n - 1) == 0
    }
}

} // verus!

verus! {

/// 1 for a cell that holds matter, 0 for a vacancy.
pub open spec fn live(c: Cell) -> int {
    if c.species == Species::Empty { 0 } else { 1 }
}

/// The number of non-empty cells in `s`.
pub open spec fn live_count(s: Seq<Cell>) -> int
    decreases s.len(),
{
    if s.len() == 0 {
        0
    } else {
        live_count(s.drop_last()) + live(s.last())
    }
}

/// Overwriting one cell changes the live count by what left and what came.
pub proof fn lemma_live_count_update(s: Seq<Cell>, i: int, v: Cell)
    requires
        0 <= i < s.len(),
    ensures
        live_count(s.update(i, v)) == live_count(s) - live(s[i]) + live(v),
    decreases s.len(),
{
    let t = s.update(i, v);
    if i == s.len() - 1 {
        assert(t.drop_last() =~= s.drop_last());
    } else {
        lemma_live_count_update(s.drop_last(), i, v);
        assert(t.drop_last() =~= s.drop_last().update(i, v));
    }
}

/// A write through the façade changes the live count by what it replaced and
/// what it wrote, inside the grid, and not at all outside it.
pub proof fn lemma_live_after_set(a: SandApi, dx: int, dy: int, v: Cell)
    requires
        a.wf(),
    ensures
        live_count(a.cells_after_set(dx, dy, v)) == (if a.offset_in(dx, dy) && a.at(dx, dy).species
            != Species::Wall {
            live_count(a.cells@) - live(a.at(dx, dy)) + live(v)
        } else {
            live_count(a.cells@)
        }),
{
    if a.offset_in(dx, dy) && a.at(dx, dy).species != Species::Wall {
        let (nx, ny) = (a.x + dx, a.y + dy);
        let w = a.width as int;
        let h = a.height as int;
        assert(0 <= ny * w + nx < w * h) by (nonlinear_arith)
            requires
                0 <= nx < w,
                0 <= ny < h,
        ;
        lemma_live_count_update(a.cells@, a.offset_index(dx, dy), stamped(v, a.generation));
    }
}

} // verus!

verus! {

/// A read outside the grid sees a wall, and a write there leaves every cell
/// as it was; a write onto a wall inside the grid leaves it too.
pub proof fn lemma_outside_is_wall(a: SandApi, dx: int, dy: int, v: Cell)
    requires
        a.wf(),
        !a.offset_in(dx, dy),
    ensures
        a.at(dx, dy) == wall_cell(),
        a.cells_after_set(dx, dy, v) == a.cells@,
{
}

/// A write onto a wall inside the grid changes nothing.
pub proof fn lemma_wall_is_kept(a: SandApi, dx: int, dy: int, v: Cell)
    requires
        a.wf(),
        a.offset_in(dx, dy),
        a.at(dx, dy).species == Species::Wall,
    ensures
        a.cells_after_set(dx, dy, v) == a.cells@,
{
}

/// A turn that changed cells only where no wall stood kept every wall.
pub proof fn lemma_changed_near_keeps_walls(old: SandApi, new: SandApi)
    requires
        new.changed_near(&old),
    ensures
        new.walls_kept(&old),
{
    assert forall|i: int|
        0 <= i < old.cells@.len() && (#[trigger] old.cells@[i]).species == Species::Wall implies new.cells@[i].species
            == Species::Wall by {
        if new.cells@[i] != old.cells@[i] {
        }
    }
}

} // verus!
