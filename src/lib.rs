//! The in-memory model of a terminal display: colours, attributes, styles,
//! cells, and a column-major grid of cells.

pub mod cell;
pub mod cellbuffer;
mod error;
pub mod grid;

pub use cell::{Attr, Cell, Color, Style};
pub use cellbuffer::CellBuffer;
pub use error::Error;
