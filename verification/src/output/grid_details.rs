//! The grid of tables: the long view, laid out in columns.

use crate::output::details;
use vstd::prelude::*;

verus! {

/// When the grid of tables is used rather than one table.
#[derive(Debug, PartialEq, Eq, Clone, Copy)]
pub enum RowThreshold {
    /// Only where the listing would have at least this number of rows.
    MinimumRows(usize),
    /// Always.
    AlwaysGrid,
}

/// The options of the grid of tables.
#[derive(Debug, PartialEq, Eq, Clone)]
pub struct Options {
    pub details: details::Options,
    pub row_threshold: RowThreshold,
}

} // verus!
