//! The details view: one file per row, with its metadata.

use crate::output::color_scale::ColorScaleOptions;
use crate::output::table;
use vstd::prelude::*;

verus! {

/// The options of the details view.
#[derive(Debug, PartialEq, Eq, Clone)]
pub struct Options {
    /// The table of metadata; none for a tree of bare names.
    pub table: Option<table::Options>,
    /// Whether the table has a header row.
    pub header: bool,
    /// Whether extended attributes are listed.
    pub xattr: bool,
    /// Whether security attributes are listed.
    pub secattr: bool,
    /// Whether mount details are shown.
    pub mounts: bool,
    /// How sizes and ages are coloured.
    pub color_scale: ColorScaleOptions,
}

/// The model of the details view's options.
pub ghost struct OptionsView {
    pub table: Option<table::OptionsView>,
    pub header: bool,
    pub xattr: bool,
    pub secattr: bool,
    pub mounts: bool,
    pub color_scale: ColorScaleOptions,
}

impl Options {
    /// The colour scale is well formed, and so is the table, if there is
    /// one.
    pub open spec fn wf(&self) -> bool {
        self.color_scale.wf() && (match self.table {
            Some(table) => table.wf(),
            None => true,
        })
    }
}

impl View for Options {
    type V = OptionsView;

    open spec fn view(&self) -> OptionsView {
        OptionsView {
            table: match self.table {
                Some(table) => Some(table@),
                None => None,
            },
            header: self.header,
            xattr: self.xattr,
            secattr: self.secattr,
            mounts: self.mounts,
            color_scale: self.color_scale,
        }
    }
}

} // verus!
