//! A terminal cell grid: styled character cells held in a row-major
//! rectangular buffer, with the byte encodings that renderers rely on.

pub mod buffer;
pub mod cell;
pub mod color;

pub use buffer::{CellBuffer, GridView};
pub use cell::{Cell, CellView};
pub use color::{Attr, Color};
