//! One-dimensional staggered grids: an ascending sequence of points split
//! into cell walls and cell centers, with the index ranges of the physical
//! (non-ghost) part of each family.

pub mod capi;
mod error;
mod grid;
mod position;

pub use error::GridError;
pub use grid::Grid1D;
pub use position::Position;
