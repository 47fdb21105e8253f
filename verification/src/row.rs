//! A horizontal sequence of cells and the per-row rendering algorithm:
//! cell-line selection, alignment, padding and truncation.

use crate::cell::{Cell, HAlign, VAlign};
use crate::options::{first_present, first_present2, resolve2, resolve3, Options};
use crate::text::{push_char, push_repeat, repeat_char, split_into_lines, split_lines};
use vstd::prelude::*;
use vstd::string::StringExecFns;

verus! {

/// The content string repeated as often as needed to cover exactly `w`
/// codepoints (empty when `w` is not positive).
pub open spec fn cycle_chars(s: Seq<char>, w: int) -> Seq<char>
    recommends
        s.len() > 0,
{
    if w <= 0 {
        Seq::empty()
    } else {
        Seq::new(w as nat, |i: int| s[i % (s.len() as int)])
    }
}

/// One content line padded or truncated to exactly `w` codepoints. A line
/// of `w` or more codepoints is cut to its first `w`; a shorter one has
/// blanks added on the side the horizontal alignment asks for, the center
/// split placing the extra blank on the right. Fill alignment repeats the
/// line instead; on an empty line, where there is nothing to repeat, it
/// falls back to blanks alone.
pub open spec fn pad_spec(h: HAlign, s: Seq<char>, w: int, blank: char) -> Seq<char> {
    if s.len() >= w {
        s.take(w)
    } else {
        let blanks = w - s.len();
        match h {
            HAlign::Left => s + repeat_char(blank, blanks),
            HAlign::Right => repeat_char(blank, blanks) + s,
            HAlign::Center => repeat_char(blank, blanks / 2) + s + repeat_char(
                blank,
                blanks - blanks / 2,
            ),
            HAlign::Fill => if s.len() == 0 {
                repeat_char(blank, w)
            } else {
                cycle_chars(s, w)
            },
        }
    }
}

/// Padding always produces exactly the asked-for width.
pub proof fn lemma_pad_spec_len(h: HAlign, s: Seq<char>, w: int, blank: char)
    requires
        w >= 0,
    ensures
        pad_spec(h, s, w, blank).len() == w,
{
}

/// Pads or truncates one content line to exactly `width` codepoints, as
/// `pad_spec` describes. The clauses below state the alignment rules one by
/// one: truncation to the first `width` codepoints on overflow (a codepoint
/// boundary by construction), blanks appended for left alignment, prepended
/// for right, split around the content for center with the extra blank on
/// the right, and the content repeated up to the width for fill.
pub fn pad(h_align: HAlign, s: &str, width: usize, blank_char: char) -> (r: String)
    ensures
        r@ == pad_spec(h_align, s@, width as int, blank_char),
        r@.len() == width,
        s@.len() >= width ==> r@ == s@.take(width as int),
        s@.len() < width && h_align is Left ==> r@ == s@ + repeat_char(
            blank_char,
            width - s@.len(),
        ),
        s@.len() < width && h_align is Right ==> r@ == repeat_char(blank_char, width - s@.len())
            + s@,
        s@.len() < width && h_align is Center ==> r@ == repeat_char(
            blank_char,
            (width - s@.len()) / 2,
        ) + s@ + repeat_char(blank_char, (width - s@.len()) - (width - s@.len()) / 2),
        s@.len() < width && h_align is Fill && s@.len() > 0 ==> r@ == cycle_chars(
            s@,
            width as int,
        ),
        s@.len() == 0 && width > 0 && h_align is Fill ==> r@ == repeat_char(
            blank_char,
            width as int,
        ),
{
    let s_chars_len = s.unicode_len();
    if s_chars_len >= width {
        return String::from_str(s.substring_char(0, width));
    }
    let blanks = width - s_chars_len;
    match h_align {
        HAlign::Left => {
            let mut r = String::from_str(s);
            push_repeat(&mut r, blank_char, blanks);
            r
        },
        HAlign::Right => {
            let mut r = String::new();
            push_repeat(&mut r, blank_char, blanks);
            r.append(s);
            proof {
                assert(r@ =~= repeat_char(blank_char, blanks as int) + s@);
            }
            r
        },
        HAlign::Center => {
            let left_blanks = blanks / 2;
            let right_blanks = blanks - left_blanks;
            let mut r = String::new();
            push_repeat(&mut r, blank_char, left_blanks);
            r.append(s);
            push_repeat(&mut r, blank_char, right_blanks);
            proof {
                assert(r@ =~= repeat_char(blank_char, left_blanks as int) + s@ + repeat_char(
                    blank_char,
                    right_blanks as int,
                ));
            }
            r
        },
        HAlign::Fill => {
            let mut r = String::new();
            if s_chars_len == 0 {
                push_repeat(&mut r, blank_char, width);
                proof {
                    assert(r@ =~= repeat_char(blank_char, width as int));
                }
            } else {
                let mut i: usize = 0;
                proof {
                    assert(r@ =~= cycle_chars(s@, 0));
                }
                while i < width
                    invariant
                        i <= width,
                        0 < s_chars_len == s@.len(),
                        r@ == cycle_chars(s@, i as int),
                    decreases width - i,
                {
                    let c = s.get_char(i % s_chars_len);
                    push_char(&mut r, c);
                    proof {
                        assert(cycle_chars(s@, i as int + 1) =~= cycle_chars(s@, i as int).push(
                            s@[(i as int) % (s@.len() as int)],
                        ));
                    }
                    i = i + 1;
                }
            }
            r
        },
    }
}

/// Which of a cell's own content lines shows at output line `li`, if any,
/// for a cell with `line_count` content lines inside a row `max_lines`
/// output lines tall. Top alignment places the content at output lines
/// `[0, line_count-1]`, bottom at `[max_lines-line_count, max_lines-1]`,
/// and middle at `[(max_lines-line_count)/2, (max_lines-line_count)/2
/// + line_count - 1]`, the start rounded down.
pub open spec fn content_line_index(v: VAlign, line_count: int, max_lines: int, li: int) -> Option<
    int,
> {
    match v {
        VAlign::Top => if 0 <= li < line_count {
            Some(li)
        } else {
            None
        },
        VAlign::Bottom => {
            let start = max_lines - line_count;
            if start <= li <= max_lines - 1 {
                Some(li - start)
            } else {
                None
            }
        },
        VAlign::Middle => {
            let start = (max_lines - line_count) / 2;
            if start <= li <= start + line_count - 1 {
                Some(li - start)
            } else {
                None
            }
        },
    }
}

/// What one cell shows at one output line: the vertically selected content
/// line padded to the cell's width, or, on an output line the content does
/// not reach, the blank character repeated over the whole width.
pub open spec fn col_line_spec(
    h: HAlign,
    v: VAlign,
    col_width: int,
    lines: Seq<Seq<char>>,
    max_lines: int,
    li: int,
    blank: char,
) -> Seq<char> {
    match content_line_index(v, lines.len() as int, max_lines, li) {
        Some(ix) => pad_spec(h, lines[ix], col_width, blank),
        None => repeat_char(blank, col_width),
    }
}

/// A cell always shows exactly its width, content line or not.
pub proof fn lemma_col_line_spec_len(
    h: HAlign,
    v: VAlign,
    col_width: int,
    lines: Seq<Seq<char>>,
    max_lines: int,
    li: int,
    blank: char,
)
    requires
        col_width >= 0,
    ensures
        col_line_spec(h, v, col_width, lines, max_lines, li, blank).len() == col_width,
{
    match content_line_index(v, lines.len() as int, max_lines, li) {
        Some(ix) => {
            lemma_pad_spec_len(h, lines[ix], col_width, blank);
        },
        None => {},
    }
}

/// The text a cell contributes to one output line of its row: the content
/// line that the vertical alignment places there, padded to `col_width`, or
/// blanks over the whole width. The clauses spell the placement out: with
/// `k` content lines in a row `max_lines` tall, top alignment shows
/// content at output lines `[0, k-1]`, bottom at `[max_lines-k,
/// max_lines-1]`, middle at `[(max_lines-k)/2, (max_lines-k)/2 + k - 1]`
/// (integer division), and blanks everywhere else.
pub fn col_line(
    h_align: HAlign,
    v_align: VAlign,
    col_width: usize,
    col_lines: &Vec<String>,
    max_lines: usize,
    line_index: usize,
    blank_char: char,
) -> (r: String)
    requires
        1 <= col_lines@.len() <= max_lines,
    ensures
        r@ == col_line_spec(
            h_align,
            v_align,
            col_width as int,
            col_lines@.map_values(|l: String| l@),
            max_lines as int,
            line_index as int,
            blank_char,
        ),
        r@.len() == col_width,
        ({
            let k = col_lines@.len() as int;
            let li = line_index as int;
            match v_align {
                VAlign::Top => (li < k ==> r@ == pad_spec(
                    h_align,
                    col_lines@[li]@,
                    col_width as int,
                    blank_char,
                )) && (li >= k ==> r@ == repeat_char(blank_char, col_width as int)),
                VAlign::Bottom => {
                    let start = max_lines - k;
                    (start <= li <= max_lines - 1 ==> r@ == pad_spec(
                        h_align,
                        col_lines@[li - start]@,
                        col_width as int,
                        blank_char,
                    )) && (!(start <= li <= max_lines - 1) ==> r@ == repeat_char(
                        blank_char,
                        col_width as int,
                    ))
                },
                VAlign::Middle => {
                    let start = (max_lines - k) / 2;
                    (start <= li <= start + k - 1 ==> r@ == pad_spec(
                        h_align,
                        col_lines@[li - start]@,
                        col_width as int,
                        blank_char,
                    )) && (!(start <= li <= start + k - 1) ==> r@ == repeat_char(
                        blank_char,
                        col_width as int,
                    ))
                },
            }
        }),
{
    let k = col_lines.len();
    let index: Option<usize> = match v_align {
        VAlign::Top => {
            if line_index <= k - 1 {
                Some(line_index)
            } else {
                None
            }
        },
        VAlign::Bottom => {
            let start = max_lines - k;
            if line_index >= start && line_index <= max_lines - 1 {
                Some(line_index - start)
            } else {
                None
            }
        },
        VAlign::Middle => {
            let start = (max_lines - k) / 2;
            if line_index >= start && line_index <= start + k - 1 {
                Some(line_index - start)
            } else {
                None
            }
        },
    };
    match index {
        Some(i) => pad(h_align, col_lines[i].as_str(), col_width, blank_char),
        None => {
            let mut r = String::new();
            push_repeat(&mut r, blank_char, col_width);
            proof {
                assert(r@ =~= repeat_char(blank_char, col_width as int));
            }
            r
        },
    }
}

/// A cell's effective column span: its own, else the row default, else the
/// grid default, else 1.
pub open spec fn resolved_span(c: Cell, rd: Options, gd: Options) -> int {
    first_present(c.col_span, rd.col_span, gd.col_span, 1usize) as int
}

/// A cell's effective horizontal alignment: its own, else the row default,
/// else the grid default, else left.
pub open spec fn resolved_h_align(c: Cell, rd: Options, gd: Options) -> HAlign {
    first_present(c.h_align, rd.h_align, gd.h_align, HAlign::Left)
}

/// A cell's effective vertical alignment: its own, else the row default,
/// else the grid default, else top.
pub open spec fn resolved_v_align(c: Cell, rd: Options, gd: Options) -> VAlign {
    first_present(c.v_align, rd.v_align, gd.v_align, VAlign::Top)
}

/// A cell's effective blank character: its own, else the row default, else
/// the grid default, else a space.
pub open spec fn resolved_blank(c: Cell, rd: Options, gd: Options) -> char {
    first_present(c.blank_char, rd.blank_char, gd.blank_char, ' ')
}

/// The effective column width: the explicit argument, else the aggregate's
/// own value, else 1.
pub open spec fn effective_width(arg: Option<usize>, own: Option<usize>) -> int {
    first_present2(arg, own, 1usize) as int
}

/// The effective padding size: the explicit argument, else the aggregate's
/// own value, else 1.
pub open spec fn effective_padding(arg: Option<usize>, own: Option<usize>) -> int {
    first_present2(arg, own, 1usize) as int
}

/// Width of a cell spanning `span` columns: the spanned columns plus the
/// `span - 1` paddings between them, which the cell absorbs.
pub open spec fn cell_span_width(span: int, width: int, padding: int) -> int {
    span * width + padding * (span - 1)
}

/// The content lines of a cell. A cell whose content is empty still yields
/// exactly one (empty) line.
pub open spec fn cell_lines(c: Cell) -> Seq<Seq<char>> {
    let ls = split_lines(c.content@);
    if ls.len() == 0 {
        seq![Seq::<char>::empty()]
    } else {
        ls
    }
}

/// The largest content line count among the first `n` cells (0 when there
/// are none).
pub open spec fn max_lines_prefix(cells: Seq<Cell>, n: int) -> int
    decreases n,
{
    if n <= 0 {
        0
    } else {
        let p = max_lines_prefix(cells, n - 1);
        let k = cell_lines(cells[n - 1]).len() as int;
        if k > p {
            k
        } else {
            p
        }
    }
}

/// How many output lines a row produces: the largest content line count
/// among its cells, 0 for a row with no cells.
pub open spec fn row_max_lines(cells: Seq<Cell>) -> int {
    max_lines_prefix(cells, cells.len() as int)
}

/// The maximum is an upper bound on every cell's line count, at least 1
/// when any cell exists, and never negative.
pub proof fn lemma_max_lines_prefix_bounds(cells: Seq<Cell>, n: int)
    ensures
        max_lines_prefix(cells, n) >= 0,
        n >= 1 ==> max_lines_prefix(cells, n) >= 1,
        forall|j: int|
            0 <= j < n ==> cell_lines(#[trigger] cells[j]).len() <= max_lines_prefix(cells, n),
    decreases n,
{
    if n > 0 {
        lemma_max_lines_prefix_bounds(cells, n - 1);
    }
}

/// The text one cell contributes to one output line of its row, its width
/// given by the span formula.
pub open spec fn cell_segment(
    c: Cell,
    rd: Options,
    gd: Options,
    width: int,
    padding: int,
    max_lines: int,
    li: int,
) -> Seq<char> {
    col_line_spec(
        resolved_h_align(c, rd, gd),
        resolved_v_align(c, rd, gd),
        cell_span_width(resolved_span(c, rd, gd), width, padding),
        cell_lines(c),
        max_lines,
        li,
        resolved_blank(c, rd, gd),
    )
}

/// One output line of a row, restricted to its first `n` cells: the cells'
/// segments in order, a gap of `padding` literal spaces before every cell
/// but the first.
pub open spec fn line_prefix(
    cells: Seq<Cell>,
    rd: Options,
    gd: Options,
    width: int,
    padding: int,
    max_lines: int,
    li: int,
    n: int,
) -> Seq<char>
    decreases n,
{
    if n <= 0 {
        Seq::empty()
    } else {
        line_prefix(cells, rd, gd, width, padding, max_lines, li, n - 1) + (if n == 1 {
            Seq::<char>::empty()
        } else {
            repeat_char(' ', padding)
        }) + cell_segment(cells[n - 1], rd, gd, width, padding, max_lines, li)
    }
}

/// One full output line of a row, without its line terminator.
pub open spec fn row_line_spec(
    cells: Seq<Cell>,
    rd: Options,
    gd: Options,
    width: int,
    padding: int,
    max_lines: int,
    li: int,
) -> Seq<char> {
    line_prefix(cells, rd, gd, width, padding, max_lines, li, cells.len() as int)
}

/// The first `m` output lines of a row, each terminated by a newline.
pub open spec fn lines_prefix(
    cells: Seq<Cell>,
    rd: Options,
    gd: Options,
    width: int,
    padding: int,
    max_lines: int,
    m: int,
) -> Seq<char>
    decreases m,
{
    if m <= 0 {
        Seq::empty()
    } else {
        lines_prefix(cells, rd, gd, width, padding, max_lines, m - 1) + row_line_spec(
            cells,
            rd,
            gd,
            width,
            padding,
            max_lines,
            m - 1,
        ) + seq!['\n']
    }
}

/// A cell's segment on any output line is exactly as wide as the span
/// formula says: `span` columns plus the `span - 1` paddings between them.
pub proof fn lemma_cell_segment_width(
    c: Cell,
    rd: Options,
    gd: Options,
    width: int,
    padding: int,
    max_lines: int,
    li: int,
)
    requires
        width >= 0,
        padding >= 0,
        resolved_span(c, rd, gd) >= 1,
    ensures
        cell_segment(c, rd, gd, width, padding, max_lines, li).len() == cell_span_width(
            resolved_span(c, rd, gd),
            width,
            padding,
        ),
{
    let span = resolved_span(c, rd, gd);
    assert(span * width >= 0) by (nonlinear_arith)
        requires
            span >= 0,
            width >= 0,
    ;
    assert(padding * (span - 1) >= 0) by (nonlinear_arith)
        requires
            padding >= 0,
            span >= 1,
    ;
    lemma_col_line_spec_len(
        resolved_h_align(c, rd, gd),
        resolved_v_align(c, rd, gd),
        cell_span_width(span, width, padding),
        cell_lines(c),
        max_lines,
        li,
        resolved_blank(c, rd, gd),
    );
}

/// The first `m` rendered lines of a row are empty or end with a line
/// terminator.
pub proof fn lemma_lines_prefix_terminated(
    cells: Seq<Cell>,
    rd: Options,
    gd: Options,
    width: int,
    padding: int,
    max_lines: int,
    m: int,
)
    ensures
        lines_prefix(cells, rd, gd, width, padding, max_lines, m).len() == 0 || lines_prefix(
            cells,
            rd,
            gd,
            width,
            padding,
            max_lines,
            m,
        ).last() == '\n',
{
    if m > 0 {
        let t = lines_prefix(cells, rd, gd, width, padding, max_lines, m);
        assert(t.last() == '\n');
    }
}

/// A row holding one cell of span 1 whose content is a single line renders
/// to exactly one output line of exactly the effective column width,
/// followed by a line terminator; the line is the cell's content line
/// padded to that width.
pub proof fn lemma_single_cell_single_line_row(
    row: Row,
    gd: Options,
    cw: Option<usize>,
    ps: Option<usize>,
)
    requires
        row.cells@.len() == 1,
        cell_lines(row.cells@[0]).len() == 1,
        resolved_span(row.cells@[0], row.default_options, gd) == 1,
        effective_width(cw, row.column_width) >= 1,
    ensures
        ({
            let w = effective_width(cw, row.column_width);
            let out = row.render_spec(gd, cw, ps);
            let c = row.cells@[0];
            let rd = row.default_options;
            &&& row_max_lines(row.cells@) == 1
            &&& out.len() == w + 1
            &&& out.last() == '\n'
            &&& out.take(w) == pad_spec(
                resolved_h_align(c, rd, gd),
                cell_lines(c)[0],
                w,
                resolved_blank(c, rd, gd),
            )
        }),
{
    let w = effective_width(cw, row.column_width);
    let padding = effective_padding(ps, row.padding_size);
    let c = row.cells@[0];
    let rd = row.default_options;
    assert(max_lines_prefix(row.cells@, 0) == 0);
    assert(row_max_lines(row.cells@) == 1);
    let seg = cell_segment(c, rd, gd, w, padding, 1, 0);
    assert(cell_span_width(1, w, padding) == w);
    assert(content_line_index(resolved_v_align(c, rd, gd), 1, 1, 0) == Some(0int));
    assert(seg == pad_spec(
        resolved_h_align(c, rd, gd),
        cell_lines(c)[0],
        w,
        resolved_blank(c, rd, gd),
    ));
    lemma_pad_spec_len(resolved_h_align(c, rd, gd), cell_lines(c)[0], w, resolved_blank(c, rd, gd));
    let out = row.render_spec(gd, cw, ps);
    assert(line_prefix(row.cells@, rd, gd, w, padding, 1, 0, 0) =~= Seq::<char>::empty());
    assert(row_line_spec(row.cells@, rd, gd, w, padding, 1, 0) =~= seg);
    assert(lines_prefix(row.cells@, rd, gd, w, padding, 1, 0) =~= Seq::<char>::empty());
    assert(out =~= seg + seq!['\n']);
    assert(out.take(w) =~= seg);
}

/// Data type for creating a row of the grid.
pub struct Row {
    /// These options will be used if the equivalent is not provided by the
    /// underlying [`Cell`].
    pub default_options: Options,
    /// Width in chars for each column of the row.
    pub column_width: Option<usize>,
    /// Number of char spaces for each padding space between row columns.
    pub padding_size: Option<usize>,
    /// Collection of cells that this row contains.
    pub cells: Vec<Cell>,
}

impl Row {
    /// A row is well formed when its default options and all its cells are.
    pub open spec fn wf(self) -> bool {
        &&& self.default_options.wf()
        &&& forall|i: int| 0 <= i < self.cells@.len() ==> (#[trigger] self.cells@[i]).wf()
    }

    /// The full rendered text of the row: one terminated output line per
    /// line index up to the row's maximum content line count.
    pub open spec fn render_spec(self, gd: Options, cw: Option<usize>, ps: Option<usize>) -> Seq<
        char,
    > {
        let width = effective_width(cw, self.column_width);
        let padding = effective_padding(ps, self.padding_size);
        lines_prefix(
            self.cells@,
            self.default_options,
            gd,
            width,
            padding,
            row_max_lines(self.cells@),
            row_max_lines(self.cells@),
        )
    }

    /// Rendering needs well-formed spans and, a machine limit, every cell's
    /// spanned width to fit in a `usize`.
    pub open spec fn render_req(self, gd: Options, cw: Option<usize>, ps: Option<usize>) -> bool {
        &&& self.wf()
        &&& gd.wf()
        &&& forall|i: int|
            0 <= i < self.cells@.len() ==> cell_span_width(
                resolved_span(#[trigger] self.cells@[i], self.default_options, gd),
                effective_width(cw, self.column_width),
                effective_padding(ps, self.padding_size),
            ) <= usize::MAX
    }

    /// Creates a new [`Row`] by its cells.
    pub fn new(cells: Vec<Cell>) -> (r: Row)
        ensures
            r.cells == cells,
            r.default_options.col_span is None,
            r.default_options.h_align is None,
            r.default_options.v_align is None,
            r.default_options.blank_char is None,
            r.column_width is None,
            r.padding_size is None,
            (forall|i: int| 0 <= i < cells@.len() ==> (#[trigger] cells@[i]).wf()) ==> r.wf(),
    {
        Row {
            default_options: Options::unset(),
            column_width: None,
            padding_size: None,
            cells,
        }
    }

    /// Create a new empty row with a specific column span.
    pub fn new_empty(col_span: usize) -> (r: Row)
        requires
            col_span >= 1,
        ensures
            r.wf(),
            r.cells@.len() == 1,
            r.cells@[0].content@ == Seq::<char>::empty(),
            r.cells@[0].col_span == Some(col_span),
            r.cells@[0].h_align is None,
            r.cells@[0].v_align is None,
            r.cells@[0].blank_char is None,
            r.default_options.col_span is None,
            r.default_options.h_align is None,
            r.default_options.v_align is None,
            r.default_options.blank_char is None,
            r.column_width is None,
            r.padding_size is None,
    {
        let mut cells: Vec<Cell> = Vec::new();
        cells.push(Cell::new_empty(col_span));
        Row::new(cells)
    }

    /// Create a new row with a specified column span filled by the repeated
    /// content.
    pub fn new_fill(content: String, col_span: usize) -> (r: Row)
        requires
            col_span >= 1,
        ensures
            r.wf(),
            r.cells@.len() == 1,
            r.cells@[0].content == content,
            r.cells@[0].col_span == Some(col_span),
            r.cells@[0].h_align == Some(HAlign::Fill),
            r.cells@[0].v_align is None,
            r.cells@[0].blank_char is None,
            r.default_options.col_span is None,
            r.default_options.h_align is None,
            r.default_options.v_align is None,
            r.default_options.blank_char is None,
            r.column_width is None,
            r.padding_size is None,
    {
        let mut cells: Vec<Cell> = Vec::new();
        cells.push(Cell::new_fill(content, col_span));
        Row::new(cells)
    }

    /// Formats the row into its rendered text: one terminated line per
    /// output line index, each cell's contribution resolved, aligned,
    /// padded and truncated as the row model describes, with a gap of
    /// `padding_size` literal spaces between adjacent cells.
    #[verifier::loop_isolation(false)]
    pub fn render(
        &self,
        default_options: &Options,
        column_width: Option<usize>,
        padding_size: Option<usize>,
    ) -> (r: String)
        requires
            self.render_req(*default_options, column_width, padding_size),
        ensures
            r@ == self.render_spec(*default_options, column_width, padding_size),
            r@.len() == 0 || r@.last() == '\n',
    {
        let ghost rd = self.default_options;
        let ghost gd = *default_options;
        let width = resolve2(column_width, self.column_width, 1);
        let padding = resolve2(padding_size, self.padding_size, 1);
        let ncells = self.cells.len();

        let mut cols_lines: Vec<Vec<String>> = Vec::new();
        let mut ci: usize = 0;
        while ci < ncells
            invariant
                ci <= ncells,
                cols_lines@.len() == ci as int,
                forall|j: int|
                    0 <= j < ci as int ==> (#[trigger] cols_lines@[j])@.map_values(|l: String| l@)
                        == cell_lines(self.cells@[j]),
            decreases ncells - ci,
        {
            let mut ls = split_into_lines(self.cells[ci].content.as_str());
            if ls.len() == 0 {
                let ghost prev = ls@.map_values(|l: String| l@);
                ls.push(String::new());
                proof {
                    assert(ls@.map_values(|l: String| l@) =~= prev.push(Seq::<char>::empty()));
                    assert(ls@.map_values(|l: String| l@) =~= seq![Seq::<char>::empty()]);
                }
            }
            cols_lines.push(ls);
            ci = ci + 1;
        }

        let mut max_lines: usize = 0;
        let mut ci: usize = 0;
        while ci < ncells
            invariant
                ci <= ncells,
                max_lines as int == max_lines_prefix(self.cells@, ci as int),
            decreases ncells - ci,
        {
            let k = cols_lines[ci].len();
            proof {
                assert(cols_lines@[ci as int]@.map_values(|l: String| l@).len() == cell_lines(
                    self.cells@[ci as int],
                ).len());
            }
            if k > max_lines {
                max_lines = k;
            }
            ci = ci + 1;
        }
        let ghost ml = row_max_lines(self.cells@);
        proof {
            lemma_max_lines_prefix_bounds(self.cells@, ncells as int);
        }

        let mut out = String::new();
        let mut li: usize = 0;
        proof {
            assert(out@ =~= lines_prefix(
                self.cells@,
                rd,
                gd,
                width as int,
                padding as int,
                ml,
                0,
            ));
        }
        while li < max_lines
            invariant
                li <= max_lines,
                out@ == lines_prefix(
                    self.cells@,
                    rd,
                    gd,
                    width as int,
                    padding as int,
                    ml,
                    li as int,
                ),
                out@.len() == 0 || out@.last() == '\n',
            decreases max_lines - li,
        {
            let ghost line_start = out@;
            let mut ci: usize = 0;
            proof {
                assert(out@ =~= line_start + line_prefix(
                    self.cells@,
                    rd,
                    gd,
                    width as int,
                    padding as int,
                    ml,
                    li as int,
                    0,
                ));
            }
            while ci < ncells
                invariant
                    ci <= ncells,
                    out@ == line_start + line_prefix(
                        self.cells@,
                        rd,
                        gd,
                        width as int,
                        padding as int,
                        ml,
                        li as int,
                        ci as int,
                    ),
                decreases ncells - ci,
            {
                let cell = &self.cells[ci];
                let col_span = resolve3(
                    cell.col_span,
                    self.default_options.col_span,
                    default_options.col_span,
                    1,
                );
                proof {
                    assert(col_span as int == resolved_span(self.cells@[ci as int], rd, gd));
                    assert(self.cells@[ci as int].wf());
                    assert(col_span >= 1);
                    assert(cell_span_width(col_span as int, width as int, padding as int)
                        <= usize::MAX);
                    assert(padding as int * (col_span as int - 1) >= 0) by (nonlinear_arith)
                        requires
                            padding as int >= 0,
                            col_span as int >= 1,
                    ;
                    assert(col_span as int * width as int >= 0) by (nonlinear_arith)
                        requires
                            col_span as int >= 0,
                            width as int >= 0,
                    ;
                }
                let col_width = col_span * width + padding * (col_span - 1);
                let h_align = resolve3(
                    cell.h_align,
                    self.default_options.h_align,
                    default_options.h_align,
                    HAlign::Left,
                );
                let v_align = resolve3(
                    cell.v_align,
                    self.default_options.v_align,
                    default_options.v_align,
                    VAlign::Top,
                );
                let blank_char = resolve3(
                    cell.blank_char,
                    self.default_options.blank_char,
                    default_options.blank_char,
                    ' ',
                );
                if ci != 0 {
                    push_repeat(&mut out, ' ', padding);
                }
                let seg = col_line(
                    h_align,
                    v_align,
                    col_width,
                    &cols_lines[ci],
                    max_lines,
                    li,
                    blank_char,
                );
                out.append(seg.as_str());
                proof {
                    assert(seg@ == cell_segment(
                        self.cells@[ci as int],
                        rd,
                        gd,
                        width as int,
                        padding as int,
                        ml,
                        li as int,
                    ));
                    assert(out@ =~= line_start + line_prefix(
                        self.cells@,
                        rd,
                        gd,
                        width as int,
                        padding as int,
                        ml,
                        li as int,
                        ci as int + 1,
                    ));
                }
                ci = ci + 1;
            }
            push_char(&mut out, '\n');
            proof {
                assert(out@ =~= lines_prefix(
                    self.cells@,
                    rd,
                    gd,
                    width as int,
                    padding as int,
                    ml,
                    li as int + 1,
                ));
            }
            li = li + 1;
        }
        out
    }

    /// Creates a [`RowBuilder`] initiated with cells. To build the final
    /// [`Row`] call [`RowBuilder::build`].
    pub fn builder(cells: Vec<Cell>) -> (r: RowBuilder)
        ensures
            r.inner.cells == cells,
            r.inner.default_options.col_span is None,
            r.inner.default_options.h_align is None,
            r.inner.default_options.v_align is None,
            r.inner.default_options.blank_char is None,
            r.inner.column_width is None,
            r.inner.padding_size is None,
            (forall|i: int| 0 <= i < cells@.len() ==> (#[trigger] cells@[i]).wf())
                ==> r.inner.wf(),
    {
        RowBuilder { inner: Row::new(cells) }
    }
}

/// Builder for the [`Row`] type. The row under construction is held in
/// `inner`, which contracts refer to directly.
pub struct RowBuilder {
    pub inner: Row,
}

impl RowBuilder {
    /// Builds a [`Row`] from a [`RowBuilder`].
    pub fn build(self) -> (r: Row)
        ensures
            r == self.inner,
    {
        self.inner
    }

    /// Sets the default column span for all the cells of the row. If a cell
    /// specifies a column span it will be used instead of this value. A
    /// span of 0 is a programming error and is rejected at construction.
    pub fn default_colspan(self, default_col_span: usize) -> (r: RowBuilder)
        requires
            default_col_span >= 1,
        ensures
            r.inner == (Row {
                default_options: Options {
                    col_span: Some(default_col_span),
                    ..self.inner.default_options
                },
                ..self.inner
            }),
    {
        let mut b = self;
        b.inner.default_options.col_span = Some(default_col_span);
        b
    }

    /// Sets the default horizontal alignment for all the cells of the row.
    /// If a cell specifies a horizontal alignment it will be used instead.
    pub fn default_h_align(self, default_h_align: HAlign) -> (r: RowBuilder)
        ensures
            r.inner == (Row {
                default_options: Options {
                    h_align: Some(default_h_align),
                    ..self.inner.default_options
                },
                ..self.inner
            }),
    {
        let mut b = self;
        b.inner.default_options.h_align = Some(default_h_align);
        b
    }

    /// Sets the default vertical alignment for all the cells of the row.
    /// If a cell specifies a vertical alignment it will be used instead.
    pub fn default_v_align(self, default_v_align: VAlign) -> (r: RowBuilder)
        ensures
            r.inner == (Row {
                default_options: Options {
                    v_align: Some(default_v_align),
                    ..self.inner.default_options
                },
                ..self.inner
            }),
    {
        let mut b = self;
        b.inner.default_options.v_align = Some(default_v_align);
        b
    }

    /// Sets the default blank char for all the cells of the row. If a cell
    /// specifies a blank char it will be used instead.
    pub fn default_blank_char(self, default_blank_char: char) -> (r: RowBuilder)
        ensures
            r.inner == (Row {
                default_options: Options {
                    blank_char: Some(default_blank_char),
                    ..self.inner.default_options
                },
                ..self.inner
            }),
    {
        let mut b = self;
        b.inner.default_options.blank_char = Some(default_blank_char);
        b
    }

    /// Sets the width of each column in the [`Row`].
    pub fn column_width(self, column_width: usize) -> (r: RowBuilder)
        ensures
            r.inner == (Row { column_width: Some(column_width), ..self.inner }),
    {
        let mut b = self;
        b.inner.column_width = Some(column_width);
        b
    }

    /// Sets the padding size between each column in the [`Row`].
    pub fn padding_size(self, padding_size: usize) -> (r: RowBuilder)
        ensures
            r.inner == (Row { padding_size: Some(padding_size), ..self.inner }),
    {
        let mut b = self;
        b.inner.padding_size = Some(padding_size);
        b
    }

    /// Sets the cells collection of the [`Row`].
    pub fn cells(self, cells: Vec<Cell>) -> (r: RowBuilder)
        ensures
            r.inner == (Row { cells, ..self.inner }),
    {
        let mut b = self;
        b.inner.cells = cells;
        b
    }
}

} // verus!

