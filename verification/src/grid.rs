//! A vertical sequence of rows: grid-level defaults, layout parameters and
//! the concatenation of the rows' rendered output.

use crate::cell::{HAlign, VAlign};
use crate::options::Options;
use crate::row::Row;
use vstd::prelude::*;
use vstd::string::StringExecFns;

verus! {

/// Data type for creating a grid.
pub struct Grid {
    /// These options will be used if the equivalent is not provided by the
    /// underlying [`Row`].
    pub default_options: Options,
    /// Width in chars for each column of the grid.
    pub column_width: Option<usize>,
    /// Number of char spaces for each padding space between grid columns.
    pub padding_size: Option<usize>,
    /// Collection of rows that this grid contains.
    pub rows: Vec<Row>,
}

impl Grid {
    /// A grid is well formed when its default options and all its rows are.
    pub open spec fn wf(self) -> bool {
        &&& self.default_options.wf()
        &&& forall|i: int| 0 <= i < self.rows@.len() ==> (#[trigger] self.rows@[i]).wf()
    }

    /// The rendered text of the first `n` rows, concatenated in order, each
    /// row rendered with the grid's defaults and layout as fallback.
    pub open spec fn rows_prefix(self, n: int) -> Seq<char>
        decreases n,
    {
        if n <= 0 {
            Seq::empty()
        } else {
            self.rows_prefix(n - 1) + self.rows@[n - 1].render_spec(
                self.default_options,
                self.column_width,
                self.padding_size,
            )
        }
    }

    /// The full rendered text of the grid: every row's rendered text in
    /// order, with nothing between rows beyond the line terminators the
    /// rows themselves emit. A grid with no rows renders to the empty text.
    pub open spec fn render_spec(self) -> Seq<char> {
        self.rows_prefix(self.rows@.len() as int)
    }

    /// Rendering needs every row to be renderable with the grid's defaults
    /// and layout as fallback.
    pub open spec fn render_req(self) -> bool {
        &&& self.default_options.wf()
        &&& forall|i: int|
            0 <= i < self.rows@.len() ==> (#[trigger] self.rows@[i]).render_req(
                self.default_options,
                self.column_width,
                self.padding_size,
            )
    }

    /// Creates a [`Grid`] by specifying its rows.
    pub fn new(rows: Vec<Row>) -> (r: Grid)
        ensures
            r.rows == rows,
            r.default_options.col_span is None,
            r.default_options.h_align is None,
            r.default_options.v_align is None,
            r.default_options.blank_char is None,
            r.column_width is None,
            r.padding_size is None,
            (forall|i: int| 0 <= i < rows@.len() ==> (#[trigger] rows@[i]).wf()) ==> r.wf(),
    {
        Grid {
            default_options: Options::unset(),
            column_width: None,
            padding_size: None,
            rows,
        }
    }

    /// Creates a [`GridBuilder`] initiated with rows. To build the final
    /// [`Grid`] call [`GridBuilder::build`].
    pub fn builder(rows: Vec<Row>) -> (r: GridBuilder)
        ensures
            r.inner.rows == rows,
            r.inner.default_options.col_span is None,
            r.inner.default_options.h_align is None,
            r.inner.default_options.v_align is None,
            r.inner.default_options.blank_char is None,
            r.inner.column_width is None,
            r.inner.padding_size is None,
            (forall|i: int| 0 <= i < rows@.len() ==> (#[trigger] rows@[i]).wf()) ==> r.inner.wf(),
    {
        GridBuilder { inner: Grid::new(rows) }
    }

    /// Formats the grid into its rendered text: each row's rendered lines
    /// in order. The result is empty or ends with a line terminator.
    #[verifier::loop_isolation(false)]
    pub fn render(&self) -> (r: String)
        requires
            self.render_req(),
        ensures
            r@ == self.render_spec(),
            r@.len() == 0 || r@.last() == '\n',
    {
        let mut out = String::new();
        let n = self.rows.len();
        let mut i: usize = 0;
        proof {
            assert(out@ =~= self.rows_prefix(0));
        }
        while i < n
            invariant
                i <= n,
                out@ == self.rows_prefix(i as int),
                out@.len() == 0 || out@.last() == '\n',
            decreases n - i,
        {
            let row_text = self.rows[i].render(
                &self.default_options,
                self.column_width,
                self.padding_size,
            );
            out.append(row_text.as_str());
            proof {
                assert(out@ =~= self.rows_prefix(i as int + 1));
            }
            i = i + 1;
        }
        out
    }
}

/// The rendered text of the first `n` rows of a grid is empty or ends with
/// a line terminator.
pub proof fn lemma_rows_prefix_terminated(g: Grid, n: int)
    ensures
        g.rows_prefix(n).len() == 0 || g.rows_prefix(n).last() == '\n',
    decreases n,
{
    if n > 0 {
        lemma_rows_prefix_terminated(g, n - 1);
        let row = g.rows@[n - 1];
        let row_text = row.render_spec(g.default_options, g.column_width, g.padding_size);
        crate::row::lemma_lines_prefix_terminated(
            row.cells@,
            row.default_options,
            g.default_options,
            crate::row::effective_width(g.column_width, row.column_width),
            crate::row::effective_padding(g.padding_size, row.padding_size),
            crate::row::row_max_lines(row.cells@),
            crate::row::row_max_lines(row.cells@),
        );
        if row_text.len() > 0 {
            assert(g.rows_prefix(n).last() == row_text.last());
        } else {
            assert(g.rows_prefix(n) =~= g.rows_prefix(n - 1));
        }
    }
}

/// A grid's rendered text is empty or ends with a line terminator.
pub proof fn lemma_grid_render_terminated(g: Grid)
    ensures
        g.render_spec().len() == 0 || g.render_spec().last() == '\n',
{
    lemma_rows_prefix_terminated(g, g.rows@.len() as int);
}

/// Embedding a rendered grid verbatim as a cell's content makes the outer
/// renderer treat it as ordinary multi-line content: the content lines the
/// outer renderer sees are exactly the split of the embedded text, and
/// their count equals the embedded text's number of line terminators,
/// preserved exactly.
pub proof fn lemma_grid_embeds_as_lines(g: Grid, c: crate::cell::Cell)
    requires
        g.render_spec().len() > 0,
        c.content@ == g.render_spec(),
    ensures
        crate::row::cell_lines(c) == crate::text::split_lines(g.render_spec()),
        crate::row::cell_lines(c).len() == crate::text::count_char(g.render_spec(), '\n'),
{
    let t = g.render_spec();
    lemma_grid_render_terminated(g);
    crate::text::lemma_split_lines_terminated(t);
    crate::text::lemma_count_char_last(t, '\n');
}

/// Builder for the [`Grid`] type. The grid under construction is held in
/// `inner`, which contracts refer to directly.
pub struct GridBuilder {
    pub inner: Grid,
}

impl GridBuilder {
    /// Builds a [`Grid`] from a [`GridBuilder`].
    pub fn build(self) -> (r: Grid)
        ensures
            r == self.inner,
    {
        self.inner
    }

    /// Sets the default column span for all the cells of the grid. If a
    /// cell specifies a column span it will be used instead of this value.
    /// A span of 0 is a programming error and is rejected at construction.
    pub fn default_colspan(self, default_colspan: usize) -> (r: GridBuilder)
        requires
            default_colspan >= 1,
        ensures
            r.inner == (Grid {
                default_options: Options {
                    col_span: Some(default_colspan),
                    ..self.inner.default_options
                },
                ..self.inner
            }),
    {
        let mut b = self;
        b.inner.default_options.col_span = Some(default_colspan);
        b
    }

    /// Sets the default horizontal alignment for all the cells of the grid.
    /// If a cell specifies a horizontal alignment it will be used instead.
    pub fn default_h_align(self, default_h_align: HAlign) -> (r: GridBuilder)
        ensures
            r.inner == (Grid {
                default_options: Options {
                    h_align: Some(default_h_align),
                    ..self.inner.default_options
                },
                ..self.inner
            }),
    {
        let mut b = self;
        b.inner.default_options.h_align = Some(default_h_align);
        b
    }

    /// Sets the default vertical alignment for all the cells of the grid.
    /// If a cell specifies a vertical alignment it will be used instead.
    pub fn default_v_align(self, default_v_align: VAlign) -> (r: GridBuilder)
        ensures
            r.inner == (Grid {
                default_options: Options {
                    v_align: Some(default_v_align),
                    ..self.inner.default_options
                },
                ..self.inner
            }),
    {
        let mut b = self;
        b.inner.default_options.v_align = Some(default_v_align);
        b
    }

    /// Sets the default blank char for all the cells of the grid. If a cell
    /// specifies a blank char it will be used instead.
    pub fn default_blank_char(self, default_blank_char: char) -> (r: GridBuilder)
        ensures
            r.inner == (Grid {
                default_options: Options {
                    blank_char: Some(default_blank_char),
                    ..self.inner.default_options
                },
                ..self.inner
            }),
    {
        let mut b = self;
        b.inner.default_options.blank_char = Some(default_blank_char);
        b
    }

    /// Width of each column in the grid in number of chars.
    pub fn column_width(self, column_width: usize) -> (r: GridBuilder)
        ensures
            r.inner == (Grid { column_width: Some(column_width), ..self.inner }),
    {
        let mut b = self;
        b.inner.column_width = Some(column_width);
        b
    }

    /// Width of each padding space in the grid in number of chars.
    pub fn padding_size(self, padding_size: usize) -> (r: GridBuilder)
        ensures
            r.inner == (Grid { padding_size: Some(padding_size), ..self.inner }),
    {
        let mut b = self;
        b.inner.padding_size = Some(padding_size);
        b
    }
}

} // verus!

