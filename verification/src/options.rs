//! Fallback bundle of layout defaults attached to rows and grids.

use crate::cell::{HAlign, VAlign};
use vstd::prelude::*;

verus! {

/// Options for the grid system: default values used by every cell that does
/// not set the equivalent property itself.
pub struct Options {
    /// Default column span for all the cells of the grid. If a cell
    /// specifies a column span it will be used instead of this value.
    pub col_span: Option<usize>,
    /// Default horizontal alignment for all the cells of the grid. If a
    /// cell specifies a horizontal alignment it will be used instead.
    pub h_align: Option<HAlign>,
    /// Default vertical alignment for all the cells of the grid. If a cell
    /// specifies a vertical alignment it will be used instead.
    pub v_align: Option<VAlign>,
    /// Default blank char for all the cells of the grid. If a cell
    /// specifies a blank char it will be used instead.
    pub blank_char: Option<char>,
}

impl Options {
    /// Options are well formed when the default column span, if set, is
    /// positive.
    pub open spec fn wf(self) -> bool {
        match self.col_span {
            Some(n) => n >= 1,
            None => true,
        }
    }

    /// Options with every property unset.
    pub fn unset() -> (r: Options)
        ensures
            r.col_span is None,
            r.h_align is None,
            r.v_align is None,
            r.blank_char is None,
            r.wf(),
    {
        Options { col_span: None, h_align: None, v_align: None, blank_char: None }
    }
}

/// First-present-wins resolution over a three-level precedence chain with a
/// hard default: the cell's own value, then the row's default, then the
/// grid's, then `d`.
pub open spec fn first_present<T>(a: Option<T>, b: Option<T>, c: Option<T>, d: T) -> T {
    match a {
        Some(v) => v,
        None => match b {
            Some(v) => v,
            None => match c {
                Some(v) => v,
                None => d,
            },
        },
    }
}

/// First-present-wins resolution over a two-level chain with a hard
/// default: an explicit argument, then an aggregate's own value, then `d`.
pub open spec fn first_present2<T>(a: Option<T>, b: Option<T>, d: T) -> T {
    match a {
        Some(v) => v,
        None => match b {
            Some(v) => v,
            None => d,
        },
    }
}

/// Resolves a property through the cell, row-default and grid-default
/// levels, falling back to the hard default `d`.
pub fn resolve3<T>(a: Option<T>, b: Option<T>, c: Option<T>, d: T) -> (r: T)
    ensures
        r == first_present(a, b, c, d),
{
    match a {
        Some(v) => v,
        None => match b {
            Some(v) => v,
            None => match c {
                Some(v) => v,
                None => d,
            },
        },
    }
}

/// Resolves a layout parameter through an explicit argument and an
/// aggregate's own value, falling back to the hard default `d`.
pub fn resolve2<T>(a: Option<T>, b: Option<T>, d: T) -> (r: T)
    ensures
        r == first_present2(a, b, d),
{
    match a {
        Some(v) => v,
        None => match b {
            Some(v) => v,
            None => d,
        },
    }
}

} // verus!
