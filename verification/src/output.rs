//! The configuration values that the resolution produces.

pub mod color_scale;
pub mod details;
pub mod grid;
pub mod grid_details;
pub mod table;
pub mod time;

use vstd::prelude::*;

verus! {

/// The width of the terminal to lay the listing out for.
#[derive(Debug, PartialEq, Eq, Clone, Copy)]
pub enum TerminalWidth {
    /// The user asked for this number of columns.
    SetTo(usize),
    /// The width is that of the terminal, whatever it turns out to be.
    Automatic,
}

/// The mode in which the files are shown.
#[derive(Debug, PartialEq, Eq, Clone)]
pub enum Mode {
    Grid(grid::Options),
    Details(details::Options),
    GridDetails(grid_details::Options),
    Lines,
}

/// The model of a `Mode`.
pub ghost enum ModeView {
    Grid(grid::Options),
    Details(details::OptionsView),
    GridDetails(details::OptionsView, grid_details::RowThreshold),
    Lines,
}

impl Mode {
    /// The options of the details, where the mode has any, are well
    /// formed.
    pub open spec fn wf(&self) -> bool {
        match *self {
            Mode::Details(details) => details.wf(),
            Mode::GridDetails(both) => both.details.wf(),
            _ => true,
        }
    }
}

impl vstd::view::View for Mode {
    type V = ModeView;

    open spec fn view(&self) -> ModeView {
        match *self {
            Mode::Grid(grid) => ModeView::Grid(grid),
            Mode::Details(details) => ModeView::Details(details@),
            Mode::GridDetails(both) => ModeView::GridDetails(both.details@, both.row_threshold),
            Mode::Lines => ModeView::Lines,
        }
    }
}

/// The resolved configuration of a listing. How file names are styled is
/// resolved elsewhere: `S` is the type of that style.
#[derive(Debug, PartialEq, Eq, Clone)]
pub struct View<S> {
    pub mode: Mode,
    pub width: TerminalWidth,
    pub file_style: S,
    pub deref_links: bool,
    pub total_size: bool,
}

/// The model of a `View`.
pub ghost struct ViewModel<S> {
    pub mode: ModeView,
    pub width: TerminalWidth,
    pub file_style: S,
    pub deref_links: bool,
    pub total_size: bool,
}

impl<S> vstd::view::View for View<S> {
    type V = ViewModel<S>;

    open spec fn view(&self) -> ViewModel<S> {
        ViewModel {
            mode: self.mode@,
            width: self.width,
            file_style: self.file_style,
            deref_links: self.deref_links,
            total_size: self.total_size,
        }
    }
}

} // verus!
