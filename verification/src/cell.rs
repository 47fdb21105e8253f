//! The atomic content unit of a grid: a string plus optional per-cell
//! layout overrides.

use vstd::prelude::*;

verus! {

/// Horizontal alignments for a cell.
#[derive(Clone, Copy)]
pub enum HAlign {
    /// Left align contents of the cell. (default)
    Left,
    /// Right align contents of the cell.
    Right,
    /// Center align contents of the cell.
    Center,
    /// Fills the entire width of the cell with repeating the content.
    Fill,
}

/// Vertical alignments for a cell.
#[derive(Clone, Copy)]
pub enum VAlign {
    /// Top align contents of the cell. (default)
    Top,
    /// Bottom align contents of the cell.
    Bottom,
    /// Middle align contents of the cell.
    Middle,
}

/// Data type that represents options for a cell and its content.
pub struct Cell {
    /// The content of the cell. It can be a multi line string or even a
    /// rendered nested grid.
    pub content: String,
    /// Number of columns that this cell will be spread out into. If `None`,
    /// the row's default is used, then the grid's, then 1. Must never be 0.
    pub col_span: Option<usize>,
    /// Horizontal alignment of the cell's content. If `None`, the row's
    /// default is used, then the grid's, then left alignment.
    pub h_align: Option<HAlign>,
    /// Vertical alignment of the cell's content. If `None`, the row's
    /// default is used, then the grid's, then top alignment.
    pub v_align: Option<VAlign>,
    /// Character that fills padding space inside the cell. If `None`, the
    /// row's default is used, then the grid's, then a space.
    pub blank_char: Option<char>,
}

impl Cell {
    /// A cell is well formed when its column span, if set, is positive.
    pub open spec fn wf(self) -> bool {
        match self.col_span {
            Some(n) => n >= 1,
            None => true,
        }
    }

    /// Create a new [`Cell`] by its `content` and column span. To specify
    /// other properties, use the [`Cell::builder`] method instead. A span of
    /// 0 is a programming error and is rejected at construction.
    pub fn new(content: String, col_span: usize) -> (r: Cell)
        requires
            col_span >= 1,
        ensures
            r.content == content,
            r.col_span == Some(col_span),
            r.h_align is None,
            r.v_align is None,
            r.blank_char is None,
            r.wf(),
    {
        Cell { content, col_span: Some(col_span), h_align: None, v_align: None, blank_char: None }
    }

    /// Creates a [`Cell`] with the specified column span whose entire width
    /// will be filled by repeating the content.
    pub fn new_fill(content: String, col_span: usize) -> (r: Cell)
        requires
            col_span >= 1,
        ensures
            r.content == content,
            r.col_span == Some(col_span),
            r.h_align == Some(HAlign::Fill),
            r.v_align is None,
            r.blank_char is None,
            r.wf(),
    {
        Cell::builder(content, col_span).h_align(HAlign::Fill).build()
    }

    /// Creates an empty [`Cell`] with the specified column span.
    pub fn new_empty(col_span: usize) -> (r: Cell)
        requires
            col_span >= 1,
        ensures
            r.content@ == Seq::<char>::empty(),
            r.col_span == Some(col_span),
            r.h_align is None,
            r.v_align is None,
            r.blank_char is None,
            r.wf(),
    {
        Cell::new(String::new(), col_span)
    }

    /// Creates a [`CellBuilder`] initiated with `content` and the column
    /// span. To build the final [`Cell`] call [`CellBuilder::build`].
    pub fn builder(content: String, col_span: usize) -> (r: CellBuilder)
        requires
            col_span >= 1,
        ensures
            r.inner.content == content,
            r.inner.col_span == Some(col_span),
            r.inner.h_align is None,
            r.inner.v_align is None,
            r.inner.blank_char is None,
            r.inner.wf(),
    {
        CellBuilder { inner: Cell::new(content, col_span) }
    }
}

/// Builder for the [`Cell`] type. The cell under construction is held in
/// `inner`, which contracts refer to directly.
pub struct CellBuilder {
    pub inner: Cell,
}

impl CellBuilder {
    /// Builds a [`Cell`] from a [`CellBuilder`].
    pub fn build(self) -> (r: Cell)
        ensures
            r == self.inner,
    {
        self.inner
    }

    /// Sets the content of the cell. It can be a multi line string or even
    /// a rendered nested grid.
    pub fn content(self, content: String) -> (r: CellBuilder)
        ensures
            r.inner == (Cell { content, ..self.inner }),
    {
        let mut b = self;
        b.inner.content = content;
        b
    }

    /// Sets the column span of the cell. A span of 0 is a programming error
    /// and is rejected at construction.
    pub fn col_span(self, col_span: usize) -> (r: CellBuilder)
        requires
            col_span >= 1,
        ensures
            r.inner == (Cell { col_span: Some(col_span), ..self.inner }),
    {
        let mut b = self;
        b.inner.col_span = Some(col_span);
        b
    }

    /// Sets the horizontal alignment of the cell.
    pub fn h_align(self, h_align: HAlign) -> (r: CellBuilder)
        ensures
            r.inner == (Cell { h_align: Some(h_align), ..self.inner }),
    {
        let mut b = self;
        b.inner.h_align = Some(h_align);
        b
    }

    /// Sets the vertical alignment of the cell.
    pub fn v_align(self, v_align: VAlign) -> (r: CellBuilder)
        ensures
            r.inner == (Cell { v_align: Some(v_align), ..self.inner }),
    {
        let mut b = self;
        b.inner.v_align = Some(v_align);
        b
    }

    /// Sets the blank char used as the cell padding space char.
    pub fn blank_char(self, blank_char: char) -> (r: CellBuilder)
        ensures
            r.inner == (Cell { blank_char: Some(blank_char), ..self.inner }),
    {
        let mut b = self;
        b.inner.blank_char = Some(blank_char);
        b
    }
}

} // verus!
