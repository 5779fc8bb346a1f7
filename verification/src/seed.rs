//! Seeding of an initial grid: from a pattern of text lines, or from a
//! random-population request.

use vstd::prelude::*;

use crate::life::{grid_view, grid_wf, live_count, row_live_count, Cell};

verus! {

/// An initialization failure: the request named no usable seed source, or
/// asked for more live cells than the grid can hold.
#[derive(Debug, Clone, Copy, PartialEq, Eq, Structural)]
pub enum InitError {
    InvalidArgument,
}

/// Relies on rand::random: a sample of the thread-local generator; nothing
/// is promised of the value.
pub assume_specification<T>[ rand::random::<T> ]() -> (r: T)
    where
        rand::distributions::Standard: rand::distributions::Distribution<T>,
;

/// The mathematical view of a pattern: a sequence of lines of characters.
pub open spec fn lines_view(pattern: &Vec<Vec<char>>) -> Seq<Seq<char>> {
    pattern@.map_values(|line: Vec<char>| line@)
}

/// Whether a pattern makes the cell at `(i, j)` alive: the character at
/// that position exists and is `'*'`. A missing line or a short line
/// leaves the cell dead.
pub open spec fn pattern_alive(p: Seq<Seq<char>>, i: int, j: int) -> bool {
    0 <= i < p.len() && 0 <= j < p[i].len() && p[i][j] == '*'
}

/// Builds a `nrows` by `ncols` grid whose cell at `(i, j)` is alive exactly
/// where the pattern marks it so; lines and characters beyond the grid
/// bounds are ignored.
#[verifier::loop_isolation(false)]
pub fn seed_pattern(nrows: usize, ncols: usize, pattern: &Vec<Vec<char>>) -> (grid: Vec<
    Vec<Cell>,
>)
    requires
        1 <= nrows,
        1 <= ncols,
    ensures
        grid_wf(grid_view(&grid)),
        grid_view(&grid).len() == nrows,
        grid_view(&grid)[0].len() == ncols,
        forall|i: int, j: int|
            0 <= i < nrows && 0 <= j < ncols
                ==> (#[trigger] grid_view(&grid)[i][j]).alive == pattern_alive(
                lines_view(pattern),
                i,
                j,
            ),
{
    let ghost p = lines_view(pattern);
    proof {
        assert forall|a: int| 0 <= a < p.len() implies p[a] == (#[trigger] pattern@[a])@ by {}
    }
    let mut grid: Vec<Vec<Cell>> = Vec::new();
    let mut i: usize = 0;
    while i < nrows
        invariant
            i <= nrows,
            grid@.len() == i,
            forall|a: int| 0 <= a < i ==> (#[trigger] grid@[a])@.len() == ncols,
            forall|a: int, b: int|
                0 <= a < i && 0 <= b < ncols
                    ==> (#[trigger] grid@[a]@[b]) == (Cell {
                        x: a as usize,
                        y: b as usize,
                        alive: pattern_alive(p, a, b),
                    }),
        decreases nrows - i,
    {
        let mut row: Vec<Cell> = Vec::new();
        let mut j: usize = 0;
        while j < ncols
            invariant
                i < nrows,
                j <= ncols,
                row@.len() == j,
                forall|b: int|
                    0 <= b < j
                        ==> (#[trigger] row@[b]) == (Cell {
                            x: i,
                            y: b as usize,
                            alive: pattern_alive(p, i as int, b),
                        }),
            decreases ncols - j,
        {
            let alive = i < pattern.len() && j < pattern[i].len() && pattern[i][j] == '*';
            row.push(Cell::new(i, j, alive));
            j += 1;
        }
        grid.push(row);
        i += 1;
    }
    proof {
        let gv = grid_view(&grid);
        assert forall|a: int| 0 <= a < gv.len() implies #[trigger] gv[a] == grid@[a]@ by {}
        assert forall|a: int, b: int|
            0 <= a < gv.len() && 0 <= b < gv[0].len() implies #[trigger] gv[a][b] == (Cell {
            x: a as usize,
            y: b as usize,
            alive: pattern_alive(p, a, b),
        }) by {
            assert(gv[a] == grid@[a]@);
            assert(grid@[a]@[b] == (Cell {
                x: a as usize,
                y: b as usize,
                alive: pattern_alive(p, a, b),
            }));
        }
    }
    grid
}

/// Builds a `nrows` by `ncols` grid with exactly `num_alive` live cells at
/// distinct, randomly chosen coordinates, or reports `InvalidArgument` when
/// the request exceeds the grid's capacity. The selection walks the cells
/// once and draws a random number for each, keeping the outcome count
/// exact whatever the generator returns.
#[verifier::loop_isolation(false)]
pub fn seed_random(nrows: usize, ncols: usize, num_alive: usize) -> (r: Result<
    Vec<Vec<Cell>>,
    InitError,
>)
    requires
        1 <= nrows,
        1 <= ncols,
        nrows * ncols <= usize::MAX,
    ensures
        (r is Ok) == (num_alive <= nrows * ncols),
        r matches Err(e) ==> e == InitError::InvalidArgument,
        r matches Ok(grid) ==> {
            &&& grid_wf(grid_view(&grid))
            &&& grid_view(&grid).len() == nrows
            &&& grid_view(&grid)[0].len() == ncols
            &&& live_count(grid_view(&grid)) == num_alive
        },
{
    if num_alive > nrows * ncols {
        return Err(InitError::InvalidArgument);
    }
    let mut grid: Vec<Vec<Cell>> = Vec::new();
    let mut placed: usize = 0;
    let mut i: usize = 0;
    while i < nrows
        invariant
            i <= nrows,
            grid@.len() == i,
            placed <= num_alive,
            num_alive - placed <= nrows * ncols - i * ncols,
            live_count(grid_view(&grid)) == placed,
            forall|a: int| 0 <= a < i ==> (#[trigger] grid@[a])@.len() == ncols,
            forall|a: int, b: int|
                0 <= a < i && 0 <= b < ncols
                    ==> (#[trigger] grid@[a]@[b]).x == a && grid@[a]@[b].y == b,
        decreases nrows - i,
    {
        let mut row: Vec<Cell> = Vec::new();
        let mut j: usize = 0;
        while j < ncols
            invariant
                i < nrows,
                j <= ncols,
                row@.len() == j,
                placed <= num_alive,
                num_alive - placed <= nrows * ncols - (i * ncols + j),
                live_count(grid_view(&grid)) + row_live_count(row@) == placed,
                forall|b: int|
                    0 <= b < j ==> (#[trigger] row@[b]).x == i && row@[b].y == b,
            decreases ncols - j,
        {
            proof {
                assert(i * ncols + j < nrows * ncols) by (nonlinear_arith)
                    requires
                        0 <= i < nrows,
                        0 <= j < ncols,
                ;
            }
            let remaining = nrows * ncols - (i * ncols + j);
            let needed = num_alive - placed;
            let selected = needed > 0 && rand::random::<usize>() % remaining < needed;
            if selected {
                placed += 1;
            }
            let cell = Cell::new(i, j, selected);
            proof {
                assert(row@.push(cell).drop_last() =~= row@);
            }
            row.push(cell);
            j += 1;
        }
        let ghost gv = grid_view(&grid);
        grid.push(row);
        proof {
            assert(grid_view(&grid) =~~= gv.push(row@));
            assert(gv.push(row@).drop_last() =~= gv);
            assert((i + 1) * ncols == i * ncols + ncols) by (nonlinear_arith);
        }
        i += 1;
    }
    proof {
        let gv = grid_view(&grid);
        assert forall|a: int| 0 <= a < gv.len() implies #[trigger] gv[a] == grid@[a]@ by {}
        assert forall|a: int, b: int|
            0 <= a < gv.len() && 0 <= b < gv[0].len() implies (#[trigger] gv[a][b]).x == a
            && gv[a][b].y == b by {
            assert(gv[a] == grid@[a]@);
            assert(grid@[a]@[b].x == a && grid@[a]@[b].y == b);
        }
    }
    Ok(grid)
}

/// Builds the initial grid. A pattern, when one was resolvable, takes
/// precedence; otherwise a random-population request is served, rejected
/// with `InvalidArgument` when it exceeds the grid's capacity; the absence
/// of both is an `InvalidArgument` as well.
pub fn initialize(
    nrows: usize,
    ncols: usize,
    num_alive: Option<usize>,
    pattern: Option<&Vec<Vec<char>>>,
) -> (r: Result<Vec<Vec<Cell>>, InitError>)
    requires
        1 <= nrows,
        1 <= ncols,
        nrows * ncols <= usize::MAX,
    ensures
        (r is Ok) == (pattern is Some || (num_alive matches Some(k) && k <= nrows * ncols)),
        r matches Err(e) ==> e == InitError::InvalidArgument,
        r matches Ok(grid) ==> {
            &&& grid_wf(grid_view(&grid))
            &&& grid_view(&grid).len() == nrows
            &&& grid_view(&grid)[0].len() == ncols
        },
        pattern matches Some(p) ==> (r matches Ok(grid) && forall|i: int, j: int|
            0 <= i < nrows && 0 <= j < ncols
                ==> (#[trigger] grid_view(&grid)[i][j]).alive == pattern_alive(
                lines_view(p),
                i,
                j,
            )),
        num_alive matches Some(k) ==> (r matches Ok(grid) ==> (pattern is None ==> live_count(
            grid_view(&grid),
        ) == k)),
{
    match pattern {
        Some(p) => Ok(seed_pattern(nrows, ncols, p)),
        None => match num_alive {
            Some(k) => seed_random(nrows, ncols, k),
            None => Err(InitError::InvalidArgument),
        },
    }
}

} // verus!
