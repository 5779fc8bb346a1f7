//! Laws of the generation rule on classic patterns: the degenerate
//! singleton grid, the 2x2 still-life block, and the blinker oscillator.

use vstd::prelude::*;

use crate::life::{
    alive_at, grid_wf, neighbor_count, next_alive, next_grid_spec, Cell,
};

verus! {

/// On a 1x1 grid every neighbor offset wraps back onto the single cell,
/// so its count is 0 or 8, never 3: a live singleton dies in one step and
/// a dead singleton never becomes alive.
pub proof fn lemma_singleton_fate(g: Seq<Seq<Cell>>)
    requires
        grid_wf(g),
        g.len() == 1,
        g[0].len() == 1,
    ensures
        neighbor_count(g, 0, 0) == 8 * alive_at(g, 0, 0),
        !next_grid_spec(g)[0][0].alive,
{
    assert(neighbor_count(g, 0, 0) == 8 * alive_at(g, 0, 0));
    assert(next_grid_spec(g)[0][0].alive == next_alive(g[0][0].alive, neighbor_count(g, 0, 0)));
}

/// The grid's only live cells are a 2x2 block with upper-left corner
/// `(r, c)`, lying wholly inside the bounds.
pub open spec fn block_only(g: Seq<Seq<Cell>>, r: int, c: int) -> bool {
    forall|i: int, j: int|
        0 <= i < g.len() && 0 <= j < g[0].len()
            ==> ((#[trigger] g[i][j]).alive <==> ((i == r || i == r + 1) && (j == c || j == c
                + 1)))
}

proof fn lemma_block_cell(g: Seq<Seq<Cell>>, r: int, c: int, i: int, j: int)
    requires
        grid_wf(g),
        g.len() >= 4,
        g[0].len() >= 4,
        0 <= r && r + 1 < g.len(),
        0 <= c && c + 1 < g[0].len(),
        block_only(g, r, c),
        0 <= i < g.len(),
        0 <= j < g[0].len(),
    ensures
        next_alive(g[i][j].alive, neighbor_count(g, i, j)) == g[i][j].alive,
{
}

/// Still-life invariance: on any grid of at least 4x4 whose only live
/// cells are a 2x2 block, one generation step reproduces the grid
/// unchanged.
pub proof fn lemma_block_still_life(g: Seq<Seq<Cell>>, r: int, c: int)
    requires
        grid_wf(g),
        g.len() >= 4,
        g[0].len() >= 4,
        0 <= r && r + 1 < g.len(),
        0 <= c && c + 1 < g[0].len(),
        block_only(g, r, c),
    ensures
        next_grid_spec(g) == g,
{
    let n = next_grid_spec(g);
    assert forall|i: int, j: int|
        0 <= i < g.len() && 0 <= j < g[0].len() implies #[trigger] n[i][j] == g[i][j] by {
        lemma_block_cell(g, r, c, i, j);
    }
    assert(n =~~= g);
}

/// The grid's only live cells are a horizontal three-cell blinker
/// centered at `(r, c)`.
pub open spec fn horizontal_blinker(g: Seq<Seq<Cell>>, r: int, c: int) -> bool {
    forall|i: int, j: int|
        0 <= i < g.len() && 0 <= j < g[0].len()
            ==> ((#[trigger] g[i][j]).alive <==> (i == r && (j == c - 1 || j == c || j == c + 1)))
}

/// The grid's only live cells are a vertical three-cell blinker centered
/// at `(r, c)`.
pub open spec fn vertical_blinker(g: Seq<Seq<Cell>>, r: int, c: int) -> bool {
    forall|i: int, j: int|
        0 <= i < g.len() && 0 <= j < g[0].len()
            ==> ((#[trigger] g[i][j]).alive <==> (j == c && (i == r - 1 || i == r || i == r + 1)))
}

proof fn lemma_h2v_cell(g: Seq<Seq<Cell>>, r: int, c: int, i: int, j: int)
    requires
        grid_wf(g),
        g.len() >= 5,
        g[0].len() >= 5,
        1 <= r && r + 1 < g.len(),
        1 <= c && c + 1 < g[0].len(),
        horizontal_blinker(g, r, c),
        0 <= i < g.len(),
        0 <= j < g[0].len(),
    ensures
        next_alive(g[i][j].alive, neighbor_count(g, i, j)) == (j == c && (i == r - 1 || i == r
            || i == r + 1)),
{
}

proof fn lemma_v2h_cell(g: Seq<Seq<Cell>>, r: int, c: int, i: int, j: int)
    requires
        grid_wf(g),
        g.len() >= 5,
        g[0].len() >= 5,
        1 <= r && r + 1 < g.len(),
        1 <= c && c + 1 < g[0].len(),
        vertical_blinker(g, r, c),
        0 <= i < g.len(),
        0 <= j < g[0].len(),
    ensures
        next_alive(g[i][j].alive, neighbor_count(g, i, j)) == (i == r && (j == c - 1 || j == c
            || j == c + 1)),
{
}

/// One step turns a horizontal blinker into the vertical one centered at
/// the same cell, on any grid of at least 5x5 with the blinker at least
/// one cell from every edge.
pub proof fn lemma_blinker_h2v(g: Seq<Seq<Cell>>, r: int, c: int)
    requires
        grid_wf(g),
        g.len() >= 5,
        g[0].len() >= 5,
        1 <= r && r + 1 < g.len(),
        1 <= c && c + 1 < g[0].len(),
        horizontal_blinker(g, r, c),
    ensures
        grid_wf(next_grid_spec(g)),
        next_grid_spec(g).len() == g.len(),
        next_grid_spec(g)[0].len() == g[0].len(),
        vertical_blinker(next_grid_spec(g), r, c),
{
    let n = next_grid_spec(g);
    assert forall|i: int, j: int|
        0 <= i < n.len() && 0 <= j < n[0].len() implies ((#[trigger] n[i][j]).alive <==> (j == c
        && (i == r - 1 || i == r || i == r + 1))) by {
        lemma_h2v_cell(g, r, c, i, j);
    }
}

/// One step turns a vertical blinker back into the horizontal one.
pub proof fn lemma_blinker_v2h(g: Seq<Seq<Cell>>, r: int, c: int)
    requires
        grid_wf(g),
        g.len() >= 5,
        g[0].len() >= 5,
        1 <= r && r + 1 < g.len(),
        1 <= c && c + 1 < g[0].len(),
        vertical_blinker(g, r, c),
    ensures
        grid_wf(next_grid_spec(g)),
        next_grid_spec(g).len() == g.len(),
        next_grid_spec(g)[0].len() == g[0].len(),
        horizontal_blinker(next_grid_spec(g), r, c),
{
    let n = next_grid_spec(g);
    assert forall|i: int, j: int|
        0 <= i < n.len() && 0 <= j < n[0].len() implies ((#[trigger] n[i][j]).alive <==> (i == r
        && (j == c - 1 || j == c || j == c + 1))) by {
        lemma_v2h_cell(g, r, c, i, j);
    }
}

/// Oscillator round-trip: a horizontal blinker toggles to vertical after
/// one step and back to the identical starting grid after a second.
pub proof fn lemma_blinker_round_trip(g: Seq<Seq<Cell>>, r: int, c: int)
    requires
        grid_wf(g),
        g.len() >= 5,
        g[0].len() >= 5,
        1 <= r && r + 1 < g.len(),
        1 <= c && c + 1 < g[0].len(),
        horizontal_blinker(g, r, c),
    ensures
        vertical_blinker(next_grid_spec(g), r, c),
        next_grid_spec(next_grid_spec(g)) == g,
{
    let g1 = next_grid_spec(g);
    lemma_blinker_h2v(g, r, c);
    lemma_blinker_v2h(g1, r, c);
    let g2 = next_grid_spec(g1);
    assert forall|i: int, j: int|
        0 <= i < g.len() && 0 <= j < g[0].len() implies #[trigger] g2[i][j] == g[i][j] by {
        assert(g2[i][j].alive <==> (i == r && (j == c - 1 || j == c || j == c + 1)));
        assert(g[i][j].alive <==> (i == r && (j == c - 1 || j == c || j == c + 1)));
    }
    assert(g2 =~~= g);
}

} // verus!
