//! A virtualized grid: which rows and columns a viewport shows, where each
//! visible cell lies in pixels, and how the selected cell moves. Beside it,
//! the decisions of a relay connection that carries a grid's events.

pub mod column;
pub mod decimal;
pub mod error;
pub mod geometry;
pub mod grid;
pub mod relay;
pub mod selection;
pub mod window;
