//! The grid view: file names laid out in columns.

use vstd::prelude::*;

verus! {

/// How the grid is filled.
#[derive(Debug, PartialEq, Eq, Clone, Copy)]
pub struct Options {
    /// Whether the names run across the rows rather than down the columns.
    pub across: bool,
}

} // verus!
