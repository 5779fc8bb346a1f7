//! The cell/grid model and the toroidal generation rule.

use vstd::prelude::*;

verus! {

/// A cell in the grid of the game: its coordinates and whether it is alive.
/// `x` is the row, `y` the column; both are fixed at creation.
#[derive(Debug, Clone, Copy, PartialEq, Eq, Structural)]
pub struct Cell {
    /// Row of the cell.
    pub x: usize,
    /// Column of the cell.
    pub y: usize,
    /// Whether the cell is alive.
    pub alive: bool,
}

/// The mathematical view of a grid: a sequence of rows of cells.
pub open spec fn grid_view(grid: &Vec<Vec<Cell>>) -> Seq<Seq<Cell>> {
    grid@.map_values(|row: Vec<Cell>| row@)
}

/// A well-formed grid: at least one row and one column, every row of the
/// same width, and every cell carrying the coordinates of its position.
pub open spec fn grid_wf(g: Seq<Seq<Cell>>) -> bool {
    &&& g.len() >= 1
    &&& g[0].len() >= 1
    &&& forall|i: int| 0 <= i < g.len() ==> (#[trigger] g[i]).len() == g[0].len()
    &&& forall|i: int, j: int|
        0 <= i < g.len() && 0 <= j < g[0].len()
            ==> (#[trigger] g[i][j]).x == i && g[i][j].y == j
}

/// A coordinate one step down, wrapping below zero to the far edge.
pub open spec fn wrap_dec(c: int, n: int) -> int {
    if c == 0 {
        n - 1
    } else {
        c - 1
    }
}

/// A coordinate one step up, wrapping past `n - 1` back to zero.
pub open spec fn wrap_inc(c: int, n: int) -> int {
    if c + 1 >= n {
        0
    } else {
        c + 1
    }
}

/// 1 if the cell at `(i, j)` is alive, else 0.
pub open spec fn alive_at(g: Seq<Seq<Cell>>, i: int, j: int) -> int {
    if g[i][j].alive {
        1
    } else {
        0
    }
}

/// The number of live cells among the 8 toroidal neighbors of `(i, j)`:
/// the offsets `(-1,-1)` through `(1,1)` except `(0,0)`, each coordinate
/// wrapping at the edges. On a degenerate grid several offsets may land on
/// the same cell (or on `(i, j)` itself), and each still counts once.
pub open spec fn neighbor_count(g: Seq<Seq<Cell>>, i: int, j: int) -> int {
    let h = g.len() as int;
    let w = g[0].len() as int;
    alive_at(g, wrap_dec(i, h), wrap_dec(j, w)) + alive_at(g, wrap_dec(i, h), j) + alive_at(
        g,
        wrap_dec(i, h),
        wrap_inc(j, w),
    ) + alive_at(g, i, wrap_dec(j, w)) + alive_at(g, i, wrap_inc(j, w)) + alive_at(
        g,
        wrap_inc(i, h),
        wrap_dec(j, w),
    ) + alive_at(g, wrap_inc(i, h), j) + alive_at(g, wrap_inc(i, h), wrap_inc(j, w))
}

/// The Game-of-Life rule: a live cell survives with 2 or 3 live neighbors,
/// a dead cell is born with exactly 3, everything else is dead.
pub open spec fn next_alive(alive: bool, count: int) -> bool {
    if alive {
        2 <= count <= 3
    } else {
        count == 3
    }
}

impl Cell {
    pub fn new(x: usize, y: usize, alive: bool) -> (c: Cell)
        ensures
            c == (Cell { x, y, alive }),
    {
        Cell { x, y, alive }
    }

    pub fn is_alive(&self) -> (r: bool)
        ensures
            r == self.alive,
    {
        self.alive
    }

    pub fn set_alive(&mut self)
        ensures
            *final(self) == (Cell { alive: true, ..*old(self) }),
    {
        self.alive = true;
    }

    pub fn set_dead(&mut self)
        ensures
            *final(self) == (Cell { alive: false, ..*old(self) }),
    {
        self.alive = false;
    }

    /// Counts the live cells among the 8 toroidal neighbors of this cell.
    pub fn count_alive_neighbors(&self, grid: &Vec<Vec<Cell>>) -> (count: usize)
        requires
            grid_wf(grid_view(grid)),
            self.x < grid@.len(),
            self.y < grid@[0]@.len(),
        ensures
            count == neighbor_count(grid_view(grid), self.x as int, self.y as int),
    {
        let nrows = grid.len();
        let ncols = grid[0].len();
        let up = wrap_sub_one(self.x, nrows);
        let down = wrap_add_one(self.x, nrows);
        let left = wrap_sub_one(self.y, ncols);
        let right = wrap_add_one(self.y, ncols);
        proof {
            let g = grid_view(grid);
            assert forall|i: int| 0 <= i < g.len() implies #[trigger] g[i] == grid@[i]@ by {}
            assert(g[up as int].len() == g[0].len());
            assert(g[down as int].len() == g[0].len());
            assert(g[self.x as int].len() == g[0].len());
        }
        let mut count: usize = 0;
        if grid[up][left].is_alive() {
            count += 1;
        }
        if grid[up][self.y].is_alive() {
            count += 1;
        }
        if grid[up][right].is_alive() {
            count += 1;
        }
        if grid[self.x][left].is_alive() {
            count += 1;
        }
        if grid[self.x][right].is_alive() {
            count += 1;
        }
        if grid[down][left].is_alive() {
            count += 1;
        }
        if grid[down][self.y].is_alive() {
            count += 1;
        }
        if grid[down][right].is_alive() {
            count += 1;
        }
        count
    }
}

/// The grid one generation later: every cell keeps its coordinates and its
/// next liveness is the rule applied to its state and neighbor count in the
/// unmodified source grid.
pub open spec fn next_grid_spec(g: Seq<Seq<Cell>>) -> Seq<Seq<Cell>> {
    Seq::new(
        g.len(),
        |i: int|
            Seq::new(
                g[0].len(),
                |j: int|
                    Cell {
                        x: i as usize,
                        y: j as usize,
                        alive: next_alive(g[i][j].alive, neighbor_count(g, i, j)),
                    },
            ),
    )
}

/// Computes the next generation, entirely from the unmodified source grid.
#[verifier::loop_isolation(false)]
pub fn calc_next_frame(grid: &Vec<Vec<Cell>>) -> (next: Vec<Vec<Cell>>)
    requires
        grid_wf(grid_view(grid)),
    ensures
        grid_view(&next) == next_grid_spec(grid_view(grid)),
{
    let ghost g = grid_view(grid);
    let ghost target = next_grid_spec(g);
    proof {
        assert forall|a: int| 0 <= a < g.len() implies g[a] == (#[trigger] grid@[a])@ by {}
    }
    let nrows = grid.len();
    let ncols = grid[0].len();
    proof {
        assert(nrows == g.len());
        assert(ncols == g[0].len());
    }
    let mut next: Vec<Vec<Cell>> = Vec::new();
    let mut i: usize = 0;
    while i < nrows
        invariant
            i <= nrows,
            next@.len() == i,
            forall|a: int| 0 <= a < i ==> (#[trigger] next@[a])@ == target[a],
        decreases nrows - i,
    {
        let mut row: Vec<Cell> = Vec::new();
        let mut j: usize = 0;
        while j < ncols
            invariant
                i < nrows,
                j <= ncols,
                row@.len() == j,
                forall|b: int| 0 <= b < j ==> #[trigger] row@[b] == target[i as int][b],
            decreases ncols - j,
        {
            let cell = grid[i][j];
            let count = cell.count_alive_neighbors(grid);
            let alive = if cell.is_alive() {
                2 <= count && count <= 3
            } else {
                count == 3
            };
            row.push(Cell::new(i, j, alive));
            j += 1;
        }
        next.push(row);
        i += 1;
    }
    proof {
        assert(grid_view(&next) =~~= target);
    }
    next
}

/// 1 if the cell is alive, else 0.
pub open spec fn alive_bit(c: Cell) -> int {
    if c.alive {
        1
    } else {
        0
    }
}

/// Number of live cells in one row.
pub open spec fn row_live_count(row: Seq<Cell>) -> int
    decreases row.len(),
{
    if row.len() == 0 {
        0
    } else {
        row_live_count(row.drop_last()) + alive_bit(row.last())
    }
}

/// Number of live cells in the whole grid.
pub open spec fn live_count(g: Seq<Seq<Cell>>) -> int
    decreases g.len(),
{
    if g.len() == 0 {
        0
    } else {
        live_count(g.drop_last()) + row_live_count(g.last())
    }
}

proof fn lemma_row_live_count_take_step(row: Seq<Cell>, j: int)
    requires
        0 <= j < row.len(),
    ensures
        row_live_count(row.take(j + 1)) == row_live_count(row.take(j)) + alive_bit(row[j]),
{
    assert(row.take(j + 1).drop_last() =~= row.take(j));
    assert(row.take(j + 1).last() == row[j]);
}

proof fn lemma_live_count_take_step(g: Seq<Seq<Cell>>, i: int)
    requires
        0 <= i < g.len(),
    ensures
        live_count(g.take(i + 1)) == live_count(g.take(i)) + row_live_count(g[i]),
{
    assert(g.take(i + 1).drop_last() =~= g.take(i));
    assert(g.take(i + 1).last() == g[i]);
}

/// Counts the live cells of the whole grid.
#[verifier::loop_isolation(false)]
pub fn count_alive(grid: &Vec<Vec<Cell>>) -> (count: usize)
    requires
        grid_wf(grid_view(grid)),
        grid@.len() * grid@[0]@.len() <= usize::MAX,
    ensures
        count == live_count(grid_view(grid)),
{
    let ghost g = grid_view(grid);
    proof {
        assert forall|a: int| 0 <= a < g.len() implies g[a] == (#[trigger] grid@[a])@ by {}
    }
    let nrows = grid.len();
    let ncols = grid[0].len();
    let mut count: usize = 0;
    let mut i: usize = 0;
    while i < nrows
        invariant
            i <= nrows,
            count == live_count(g.take(i as int)),
            count <= i * ncols,
        decreases nrows - i,
    {
        let mut j: usize = 0;
        while j < ncols
            invariant
                i < nrows,
                j <= ncols,
                count == live_count(g.take(i as int)) + row_live_count(g[i as int].take(j as int)),
                count <= i * ncols + j,
            decreases ncols - j,
        {
            proof {
                lemma_row_live_count_take_step(g[i as int], j as int);
                assert(i * ncols + j + 1 <= nrows * ncols) by (nonlinear_arith)
                    requires
                        i < nrows,
                        j < ncols,
                        0 <= i,
                        0 <= j,
                        0 <= ncols,
                ;
            }
            if grid[i][j].is_alive() {
                count += 1;
            }
            j += 1;
        }
        proof {
            lemma_live_count_take_step(g, i as int);
            assert(g[i as int].take(ncols as int) =~= g[i as int]);
            assert((i + 1) * ncols == i * ncols + ncols) by (nonlinear_arith);
        }
        i += 1;
    }
    proof {
        assert(g.take(nrows as int) =~= g);
    }
    count
}

/// The character shown at frame column `k` of row `i`: live cells draw
/// `draw_char` at the even columns, and every odd column is a blank
/// spacer that keeps the display roughly square.
pub open spec fn frame_char(g: Seq<Seq<Cell>>, draw_char: char, i: int, k: int) -> char {
    if k % 2 == 1 {
        ' '
    } else if g[i][k / 2].alive {
        draw_char
    } else {
        ' '
    }
}

/// Lays one frame out as rows of characters: each grid row becomes a row
/// twice its width, a cell character followed by a blank spacer column.
/// The caller only has to print these rows and the status line.
#[verifier::loop_isolation(false)]
pub fn render_rows(grid: &Vec<Vec<Cell>>, draw_char: char) -> (rows: Vec<Vec<char>>)
    requires
        grid_wf(grid_view(grid)),
        2 * grid@[0]@.len() <= usize::MAX,
    ensures
        rows@.len() == grid@.len(),
        forall|i: int|
            0 <= i < rows@.len() ==> (#[trigger] rows@[i])@.len() == 2 * grid@[0]@.len(),
        forall|i: int, k: int|
            0 <= i < rows@.len() && 0 <= k < 2 * grid@[0]@.len()
                ==> (#[trigger] rows@[i]@[k]) == frame_char(grid_view(grid), draw_char, i, k),
{
    let ghost g = grid_view(grid);
    proof {
        assert forall|a: int| 0 <= a < g.len() implies g[a] == (#[trigger] grid@[a])@ by {}
    }
    let nrows = grid.len();
    let ncols = grid[0].len();
    let mut rows: Vec<Vec<char>> = Vec::new();
    let mut i: usize = 0;
    while i < nrows
        invariant
            i <= nrows,
            rows@.len() == i,
            forall|a: int| 0 <= a < i ==> (#[trigger] rows@[a])@.len() == 2 * ncols,
            forall|a: int, k: int|
                0 <= a < i && 0 <= k < 2 * ncols
                    ==> (#[trigger] rows@[a]@[k]) == frame_char(g, draw_char, a, k),
        decreases nrows - i,
    {
        let mut row: Vec<char> = Vec::new();
        let mut j: usize = 0;
        while j < ncols
            invariant
                i < nrows,
                j <= ncols,
                row@.len() == 2 * j,
                forall|k: int|
                    0 <= k < 2 * j ==> (#[trigger] row@[k]) == frame_char(g, draw_char, i as int, k),
            decreases ncols - j,
        {
            let c = if grid[i][j].is_alive() {
                draw_char
            } else {
                ' '
            };
            row.push(c);
            row.push(' ');
            proof {
                assert((2 * j as int) % 2 == 0 && (2 * j as int) / 2 == j as int && (2 * j as int
                    + 1) % 2 == 1) by (nonlinear_arith);
            }
            j += 1;
        }
        rows.push(row);
        i += 1;
    }
    rows
}

/// One step toward lower coordinates, wrapping to the far edge.
fn wrap_sub_one(c: usize, n: usize) -> (r: usize)
    requires
        1 <= n,
        c < n,
    ensures
        r == wrap_dec(c as int, n as int),
        r < n,
{
    if c == 0 {
        n - 1
    } else {
        c - 1
    }
}

/// One step toward higher coordinates, wrapping past the edge to zero.
fn wrap_add_one(c: usize, n: usize) -> (r: usize)
    requires
        1 <= n,
        c < n,
    ensures
        r == wrap_inc(c as int, n as int),
        r < n,
{
    if c + 1 >= n {
        0
    } else {
        c + 1
    }
}

} // verus!
