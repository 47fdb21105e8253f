//! Renders a two-dimensional grid of text cells into aligned, padded
//! plain-text output for terminal display.
//!
//! A [`Grid`] is an ordered sequence of [`Row`]s, and a [`Row`] an ordered
//! sequence of [`Cell`]s. Each cell holds a (possibly multi-line) string
//! together with optional per-cell overrides: a column span, a horizontal
//! and a vertical alignment, and a blank (fill) character. Unset options
//! cascade: a cell's value wins over the row's defaults, which win over the
//! grid's defaults, which win over the hard-coded defaults.
//!
//! Rendering is a pure function from the grid value to a string. Each row
//! produces as many terminal lines as its tallest cell has content lines;
//! every line ends with a line terminator. Widths are counted in Unicode
//! scalar values (codepoints), and truncation always lands on a codepoint
//! boundary. A rendered grid can be embedded verbatim as the content of a
//! cell in an outer grid: the renderer treats it as ordinary multi-line
//! content.

mod cell;
mod grid;
mod options;
mod row;
mod text;

pub use cell::{Cell, CellBuilder, HAlign, VAlign};
pub use grid::{Grid, GridBuilder};
pub use options::Options;
pub use row::{col_line, pad, Row, RowBuilder};
pub use text::byte_index;
