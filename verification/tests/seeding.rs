use conway::life::count_alive;
use conway::seed::{initialize, seed_pattern, seed_random, InitError};

fn pattern_of(lines: &[&str]) -> Vec<Vec<char>> {
    lines.iter().map(|l| l.chars().collect()).collect()
}

#[test]
fn random_seed_rejects_over_capacity() {
    let r = seed_random(3, 3, 10);
    assert_eq!(r, Err(InitError::InvalidArgument));
    let r = initialize(3, 3, Some(10), None);
    assert_eq!(r, Err(InitError::InvalidArgument));
}

#[test]
fn random_seed_accepts_exact_capacity() {
    let grid = seed_random(4, 5, 20).unwrap();
    assert_eq!(count_alive(&grid), 20);
}

#[test]
fn random_seed_exact_population() {
    let grid = seed_random(4, 5, 7).unwrap();
    assert_eq!(grid.len(), 4);
    assert_eq!(grid[0].len(), 5);
    assert_eq!(count_alive(&grid), 7);
    let mut dead: usize = 0;
    for row in &grid {
        for cell in row {
            if !cell.is_alive() {
                dead += 1;
            }
        }
    }
    assert_eq!(dead, 13);
}

#[test]
fn random_seed_zero_population() {
    let grid = seed_random(3, 4, 0).unwrap();
    assert_eq!(count_alive(&grid), 0);
}

#[test]
fn initialize_without_any_source_fails() {
    let r = initialize(5, 5, None, None);
    assert_eq!(r, Err(InitError::InvalidArgument));
}

#[test]
fn initialize_pattern_takes_precedence() {
    let pattern = pattern_of(&["*"]);
    let grid = initialize(3, 3, Some(5), Some(&pattern)).unwrap();
    assert_eq!(count_alive(&grid), 1);
    assert!(grid[0][0].is_alive());
}

#[test]
fn initialize_random_when_pattern_missing() {
    let grid = initialize(3, 3, Some(4), None).unwrap();
    assert_eq!(count_alive(&grid), 4);
}

#[test]
fn pattern_ignores_lines_and_columns_beyond_bounds() {
    let pattern = pattern_of(&["*******", "", "", "****"]);
    let grid = seed_pattern(2, 3, &pattern);
    assert_eq!(grid.len(), 2);
    assert_eq!(grid[0].len(), 3);
    assert_eq!(count_alive(&grid), 3);
    assert!(grid[0][0].is_alive() && grid[0][1].is_alive() && grid[0][2].is_alive());
}

#[test]
fn pattern_short_lines_leave_cells_dead() {
    let pattern = pattern_of(&["*", " *"]);
    let grid = seed_pattern(3, 3, &pattern);
    assert!(grid[0][0].is_alive());
    assert!(!grid[0][1].is_alive());
    assert!(grid[1][1].is_alive());
    assert!(!grid[1][0].is_alive());
    assert_eq!(count_alive(&grid), 2);
}

#[test]
fn pattern_only_star_marks_alive() {
    let pattern = pattern_of(&["x.o*#"]);
    let grid = seed_pattern(1, 5, &pattern);
    assert_eq!(count_alive(&grid), 1);
    assert!(grid[0][3].is_alive());
}

#[test]
fn pattern_cells_carry_their_coordinates() {
    let grid = seed_pattern(2, 2, &pattern_of(&["**", "**"]));
    for i in 0..2 {
        for j in 0..2 {
            assert_eq!(grid[i][j].x, i);
            assert_eq!(grid[i][j].y, j);
        }
    }
}
