use conway::life::{calc_next_frame, count_alive, render_rows, Cell};
use conway::seed::seed_pattern;

/// Builds a grid from pattern lines, through the library's own seeder.
fn grid_of(nrows: usize, ncols: usize, lines: &[&str]) -> Vec<Vec<Cell>> {
    let pattern: Vec<Vec<char>> = lines.iter().map(|l| l.chars().collect()).collect();
    seed_pattern(nrows, ncols, &pattern)
}

fn alive_coords(grid: &Vec<Vec<Cell>>) -> Vec<(usize, usize)> {
    let mut out = Vec::new();
    for row in grid {
        for cell in row {
            if cell.is_alive() {
                out.push((cell.x, cell.y));
            }
        }
    }
    out
}

#[test]
fn singleton_live_dies() {
    let grid = grid_of(1, 1, &["*"]);
    assert!(grid[0][0].is_alive());
    assert_eq!(grid[0][0].count_alive_neighbors(&grid), 8);
    let next = calc_next_frame(&grid);
    assert!(!next[0][0].is_alive());
}

#[test]
fn singleton_dead_stays_dead() {
    let grid = grid_of(1, 1, &[]);
    assert_eq!(grid[0][0].count_alive_neighbors(&grid), 0);
    let next = calc_next_frame(&grid);
    assert!(!next[0][0].is_alive());
}

#[test]
fn block_still_life_center() {
    let grid = grid_of(4, 4, &["", " **", " **"]);
    let next = calc_next_frame(&grid);
    assert_eq!(next, grid);
}

#[test]
fn block_still_life_corner() {
    let grid = grid_of(6, 5, &["**", "**"]);
    let next = calc_next_frame(&grid);
    assert_eq!(next, grid);
}

#[test]
fn blinker_round_trip() {
    let grid = grid_of(5, 5, &["", "", " ***"]);
    let step1 = calc_next_frame(&grid);
    assert_eq!(alive_coords(&step1), vec![(1, 2), (2, 2), (3, 2)]);
    let step2 = calc_next_frame(&step1);
    assert_eq!(step2, grid);
}

#[test]
fn neighbor_count_wraps_around_edges() {
    let grid = grid_of(3, 3, &["", "", "  *"]);
    // The live cell at (2, 2) is a wrapped neighbor of the opposite corner.
    assert_eq!(grid[0][0].count_alive_neighbors(&grid), 1);
    // It neighbors every cell but itself on a 3x3 torus.
    assert_eq!(grid[2][2].count_alive_neighbors(&grid), 0);
    assert_eq!(grid[1][1].count_alive_neighbors(&grid), 1);
}

#[test]
fn height_one_grid_wraps_onto_itself() {
    // On a 1xN grid the row above and below are the row itself: a lone
    // live cell sees its horizontal neighbors three times each and
    // itself twice.
    let grid = grid_of(1, 3, &["*"]);
    assert_eq!(grid[0][0].count_alive_neighbors(&grid), 2);
    assert_eq!(grid[0][1].count_alive_neighbors(&grid), 3);
    assert_eq!(grid[0][2].count_alive_neighbors(&grid), 3);
}

#[test]
fn underpopulation_kills() {
    let grid = grid_of(5, 5, &["", " *", "  *"]);
    let next = calc_next_frame(&grid);
    assert_eq!(alive_coords(&next), vec![]);
}

#[test]
fn reproduction_births_on_three() {
    let grid = grid_of(5, 5, &["", " *", " **"]);
    // The dead cell at (1, 2) has exactly three live neighbors and is
    // born, completing a block; nothing else changes.
    let next = calc_next_frame(&grid);
    assert_eq!(alive_coords(&next), vec![(1, 1), (1, 2), (2, 1), (2, 2)]);
}

#[test]
fn overpopulation_kills() {
    // A plus sign: the center has 4 live neighbors and dies.
    let grid = grid_of(7, 7, &["", "  *", " ***", "  *"]);
    let next = calc_next_frame(&grid);
    assert!(!next[2][2].is_alive());
    // The arms survive with 2 neighbors each and corners are born.
    assert!(next[1][2].is_alive());
    assert!(next[2][1].is_alive());
    assert!(next[1][1].is_alive());
}

#[test]
fn count_alive_counts_whole_grid() {
    let grid = grid_of(4, 6, &["*....*", "", "  ***"]);
    assert_eq!(count_alive(&grid), 5);
    let empty = grid_of(4, 6, &[]);
    assert_eq!(count_alive(&empty), 0);
}

#[test]
fn render_rows_spaces_columns() {
    let grid = grid_of(2, 3, &[" *"]);
    let rows = render_rows(&grid, '#');
    assert_eq!(rows.len(), 2);
    let top: String = rows[0].iter().collect();
    let bottom: String = rows[1].iter().collect();
    assert_eq!(top, "  #   ");
    assert_eq!(bottom, "      ");
}

#[test]
fn render_rows_uses_draw_char() {
    let grid = grid_of(1, 2, &["**"]);
    let rows = render_rows(&grid, 'o');
    let line: String = rows[0].iter().collect();
    assert_eq!(line, "o o ");
}

#[test]
fn cell_accessors() {
    let mut cell = Cell::new(3, 4, false);
    assert_eq!(cell.x, 3);
    assert_eq!(cell.y, 4);
    assert!(!cell.is_alive());
    cell.set_alive();
    assert!(cell.is_alive());
    cell.set_dead();
    assert!(!cell.is_alive());
}
