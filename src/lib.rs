//! Host-side logic of a GPU incompressible-fluid solver on a 2D staggered grid:
//! buffer layout, kernel dispatch planning, obstacle selection, step scheduling
//! and fluid-to-solid force read-back.
pub mod grid;
pub mod reinit;
pub mod plan;
pub mod scheduler;
pub mod obstacle;
pub mod coupling;
pub mod overlay;
