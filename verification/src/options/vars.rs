//! The environment as the resolution sees it: a lookup from a variable's
//! name to its value, if it has one.

use crate::text::same_text;
use vstd::prelude::*;
use vstd::string::*;

verus! {

/// The number of columns of the terminal.
pub const COLUMNS: &'static str = "COLUMNS";

/// The style in which timestamps are shown.
pub const TIME_STYLE: &'static str = "TIME_STYLE";

/// The number of rows below which a long grid falls back to a plain table.
pub const EZA_GRID_ROWS: &'static str = "EZA_GRID_ROWS";

/// The earlier name of `EZA_GRID_ROWS`.
pub const EXA_GRID_ROWS: &'static str = "EXA_GRID_ROWS";

/// Switches the Git columns off, whatever the flags say.
pub const EZA_OVERRIDE_GIT: &'static str = "EZA_OVERRIDE_GIT";

/// The earlier name of `EZA_OVERRIDE_GIT`.
pub const EXA_OVERRIDE_GIT: &'static str = "EXA_OVERRIDE_GIT";

/// The lowest luminance that the colour scale uses.
pub const EZA_MIN_LUMINANCE: &'static str = "EZA_MIN_LUMINANCE";

/// The earlier name of `EZA_MIN_LUMINANCE`.
pub const EXA_MIN_LUMINANCE: &'static str = "EXA_MIN_LUMINANCE";

/// How file flags are written out.
pub const EZA_WINDOWS_ATTRIBUTES: &'static str = "EZA_WINDOWS_ATTRIBUTES";

/// The view of an optional piece of text.
pub open spec fn text_of(value: Option<String>) -> Option<Seq<char>> {
    match value {
        Some(s) => Some(s@),
        None => None,
    }
}

/// What a lookup of `name` and then of `fallback` finds, given what each
/// of them holds.
pub open spec fn first_of(primary: Option<Seq<char>>, secondary: Option<Seq<char>>) -> Option<
    Seq<char>,
> {
    match primary {
        Some(v) => Some(v),
        None => secondary,
    }
}

/// A source of environment variables.
pub trait Vars {
    /// The value that the environment gives to `name`, if any.
    spec fn lookup(&self, name: Seq<char>) -> Option<Seq<char>>;

    /// Looks up the value of the variable `name`.
    fn get(&self, name: &'static str) -> (value: Option<String>)
        ensures
            text_of(value) == self.lookup(name@),
    ;

    /// Looks up `name`, and `fallback` where `name` has no value.
    fn get_with_fallback(&self, name: &'static str, fallback: &'static str) -> (value: Option<
        String,
    >)
        ensures
            text_of(value) == first_of(self.lookup(name@), self.lookup(fallback@)),
    {
        match self.get(name) {
            Some(v) => Some(v),
            None => self.get(fallback),
        }
    }

    /// Which of `name` and `fallback` a lookup with fallback takes its
    /// value from.
    fn source(&self, name: &'static str, fallback: &'static str) -> (key: Option<&'static str>)
        ensures
            key is Some <==> first_of(self.lookup(name@), self.lookup(fallback@)) is Some,
            key matches Some(k) ==> k@ == (if self.lookup(name@) is Some {
                name@
            } else {
                fallback@
            }),
    {
        match self.get(name) {
            Some(_) => Some(name),
            None => match self.get(fallback) {
                Some(_) => Some(fallback),
                None => None,
            },
        }
    }
}

/// An environment held in memory: one slot for each variable that the
/// resolution reads.
#[derive(Debug, PartialEq, Eq, Clone)]
pub struct MockVars {
    pub columns: Option<String>,
    pub time_style: Option<String>,
    pub grid_rows: Option<String>,
    pub grid_rows_legacy: Option<String>,
    pub override_git: Option<String>,
    pub override_git_legacy: Option<String>,
    pub min_luminance: Option<String>,
    pub min_luminance_legacy: Option<String>,
    pub windows_attributes: Option<String>,
}

impl Default for MockVars {
    /// The environment in which no variable has a value.
    fn default() -> (vars: Self)
        ensures
            forall|name: Seq<char>| #[trigger] vars.lookup(name) is None,
    {
        MockVars {
            columns: None,
            time_style: None,
            grid_rows: None,
            grid_rows_legacy: None,
            override_git: None,
            override_git_legacy: None,
            min_luminance: None,
            min_luminance_legacy: None,
            windows_attributes: None,
        }
    }
}

impl Vars for MockVars {
    open spec fn lookup(&self, name: Seq<char>) -> Option<Seq<char>> {
        if name == COLUMNS@ {
            text_of(self.columns)
        } else if name == TIME_STYLE@ {
            text_of(self.time_style)
        } else if name == EZA_GRID_ROWS@ {
            text_of(self.grid_rows)
        } else if name == EXA_GRID_ROWS@ {
            text_of(self.grid_rows_legacy)
        } else if name == EZA_OVERRIDE_GIT@ {
            text_of(self.override_git)
        } else if name == EXA_OVERRIDE_GIT@ {
            text_of(self.override_git_legacy)
        } else if name == EZA_MIN_LUMINANCE@ {
            text_of(self.min_luminance)
        } else if name == EXA_MIN_LUMINANCE@ {
            text_of(self.min_luminance_legacy)
        } else if name == EZA_WINDOWS_ATTRIBUTES@ {
            text_of(self.windows_attributes)
        } else {
            None
        }
    }

    fn get(&self, name: &'static str) -> (value: Option<String>) {
        if same_text(name, COLUMNS) {
            self.columns.clone()
        } else if same_text(name, TIME_STYLE) {
            self.time_style.clone()
        } else if same_text(name, EZA_GRID_ROWS) {
            self.grid_rows.clone()
        } else if same_text(name, EXA_GRID_ROWS) {
            self.grid_rows_legacy.clone()
        } else if same_text(name, EZA_OVERRIDE_GIT) {
            self.override_git.clone()
        } else if same_text(name, EXA_OVERRIDE_GIT) {
            self.override_git_legacy.clone()
        } else if same_text(name, EZA_MIN_LUMINANCE) {
            self.min_luminance.clone()
        } else if same_text(name, EXA_MIN_LUMINANCE) {
            self.min_luminance_legacy.clone()
        } else if same_text(name, EZA_WINDOWS_ATTRIBUTES) {
            self.windows_attributes.clone()
        } else {
            None
        }
    }
}

impl MockVars {
    /// Whether the environment has a slot for `name`.
    pub open spec fn has_slot(name: Seq<char>) -> bool {
        name == COLUMNS@ || name == TIME_STYLE@ || name == EZA_GRID_ROWS@ || name
            == EXA_GRID_ROWS@ || name == EZA_OVERRIDE_GIT@ || name == EXA_OVERRIDE_GIT@ || name
            == EZA_MIN_LUMINANCE@ || name == EXA_MIN_LUMINANCE@ || name == EZA_WINDOWS_ATTRIBUTES@
    }

    /// Gives the variable `var` the value `value`, where the environment
    /// has a slot for it, and leaves every other variable as it was.
    pub fn set(&mut self, var: &'static str, value: &String)
        ensures
            forall|name: Seq<char>| #[trigger]
                final(self).lookup(name) == if name == var@ && Self::has_slot(name) {
                    Some(value@)
                } else {
                    old(self).lookup(name)
                },
    {
        proof {
            reveal_strlit("COLUMNS");
            reveal_strlit("TIME_STYLE");
            reveal_strlit("EZA_GRID_ROWS");
            reveal_strlit("EXA_GRID_ROWS");
            reveal_strlit("EZA_OVERRIDE_GIT");
            reveal_strlit("EXA_OVERRIDE_GIT");
            reveal_strlit("EZA_MIN_LUMINANCE");
            reveal_strlit("EXA_MIN_LUMINANCE");
            reveal_strlit("EZA_WINDOWS_ATTRIBUTES");
        }
        if same_text(var, COLUMNS) {
            self.columns = Some(value.clone());
        } else if same_text(var, TIME_STYLE) {
            self.time_style = Some(value.clone());
        } else if same_text(var, EZA_GRID_ROWS) {
            self.grid_rows = Some(value.clone());
        } else if same_text(var, EXA_GRID_ROWS) {
            self.grid_rows_legacy = Some(value.clone());
        } else if same_text(var, EZA_OVERRIDE_GIT) {
            self.override_git = Some(value.clone());
        } else if same_text(var, EXA_OVERRIDE_GIT) {
            self.override_git_legacy = Some(value.clone());
        } else if same_text(var, EZA_MIN_LUMINANCE) {
            self.min_luminance = Some(value.clone());
        } else if same_text(var, EXA_MIN_LUMINANCE) {
            self.min_luminance_legacy = Some(value.clone());
        } else if same_text(var, EZA_WINDOWS_ATTRIBUTES) {
            self.windows_attributes = Some(value.clone());
        }
    }
}

} // verus!
