//! Resolution of a directory listing's display options.
//!
//! The functions here turn a record of command-line flag occurrences and an
//! environment lookup into the configuration of a listing: the view mode,
//! the table's columns, and the time, size and colour-scale formats.

pub mod options;
pub mod output;
pub mod text;
