//! Conway's Game of Life on a toroidal grid.
//!
//! The library holds the verified core of a terminal Game of Life: the
//! cell/grid model, the edge-wrapping neighbor count, the generation
//! transition, the seeding of an initial grid (from a pattern or from a
//! random-population request), and the small input state machine that
//! adjusts the poll timeout and navigates seed samples. Rendering and
//! keyboard polling are left to the caller, which hands the library plain
//! values and draws what it returns.

pub mod demo;
pub mod input;
pub mod laws;
pub mod life;
pub mod seed;
