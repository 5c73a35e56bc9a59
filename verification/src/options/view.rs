//! Resolution of the view: the mode in which the files are shown, and the
//! width of the terminal.

use crate::options::error::{
    modelled, plain, NumberSource, NumberSourceView, OptionsError, OptionsErrorView,
};
use crate::options::parser::Opts;
use crate::options::vars::{first_of, Vars, COLUMNS, EXA_GRID_ROWS, EZA_GRID_ROWS};
use crate::output::color_scale::ColorScaleOptions;
use crate::output::grid_details::RowThreshold;
use crate::output::{details, grid, grid_details, table};
use crate::output::{Mode, ModeView, TerminalWidth, ViewModel};
use crate::text::{parse_unsigned, unsigned_number};
use vstd::prelude::*;
use vstd::string::*;

verus! {

impl grid::Options {
    /// Determines how the grid is filled: across where the flag asks for
    /// it, else downwards.
    pub fn deduce(opts: &Opts) -> (options: Self)
        ensures
            options == (grid::Options { across: opts.across > 0 }),
    {
        grid::Options { across: opts.across > 0 }
    }
}

impl TerminalWidth {
    /// The width that the option and the environment ask for. The option
    /// wins: a width of at least one is taken, any other leaves the width
    /// to the terminal. Without it, the environment's number of columns
    /// is taken, and must be a number.
    pub open spec fn spec_deduce(width: Option<isize>, columns: Option<Seq<char>>) -> Result<
        TerminalWidth,
        OptionsErrorView,
    > {
        match width {
            Some(width) => if width >= 1 {
                Ok(TerminalWidth::SetTo(width as usize))
            } else {
                Ok(TerminalWidth::Automatic)
            },
            None => match columns {
                Some(text) => match unsigned_number(text) {
                    Ok(width) => Ok(TerminalWidth::SetTo(width)),
                    Err(why) => Err(
                        OptionsErrorView::FailedParse(text, NumberSourceView::Env(COLUMNS@), why),
                    ),
                },
                None => Ok(TerminalWidth::Automatic),
            },
        }
    }

    /// Determines the width of the terminal.
    pub fn deduce<V: Vars>(opts: &Opts, vars: &V) -> (r: Result<Self, OptionsError>)
        ensures
            plain(r) == Self::spec_deduce(opts.width, vars.lookup(COLUMNS@)),
    {
        match opts.width {
            Some(width) => {
                if width >= 1 {
                    Ok(TerminalWidth::SetTo(width as usize))
                } else {
                    Ok(TerminalWidth::Automatic)
                }
            },
            None => match vars.get(COLUMNS) {
                Some(columns) => match parse_unsigned(columns.as_str()) {
                    Ok(width) => Ok(TerminalWidth::SetTo(width)),
                    Err(why) => Err(
                        OptionsError::FailedParse(columns, NumberSource::Env(COLUMNS), why),
                    ),
                },
                None => Ok(TerminalWidth::Automatic),
            },
        }
    }
}

impl RowThreshold {
    /// The threshold that the environment asks for, where `rows` is the
    /// value of the variable's current name and `legacy` that of its
    /// earlier name. The current name wins. A value must be a number;
    /// the error names the variable that held it.
    pub open spec fn spec_deduce(rows: Option<Seq<char>>, legacy: Option<Seq<char>>) -> Result<
        RowThreshold,
        OptionsErrorView,
    > {
        match first_of(rows, legacy) {
            Some(text) => match unsigned_number(text) {
                Ok(rows) => Ok(RowThreshold::MinimumRows(rows)),
                Err(why) => Err(
                    OptionsErrorView::FailedParse(
                        text,
                        NumberSourceView::Env(
                            if rows is Some {
                                EZA_GRID_ROWS@
                            } else {
                                EXA_GRID_ROWS@
                            },
                        ),
                        why,
                    ),
                ),
            },
            None => Ok(RowThreshold::AlwaysGrid),
        }
    }

    /// Determines when a grid of tables is used.
    pub fn deduce<V: Vars>(vars: &V) -> (r: Result<Self, OptionsError>)
        ensures
            plain(r) == Self::spec_deduce(
                vars.lookup(EZA_GRID_ROWS@),
                vars.lookup(EXA_GRID_ROWS@),
            ),
    {
        match vars.get_with_fallback(EZA_GRID_ROWS, EXA_GRID_ROWS) {
            Some(text) => match parse_unsigned(text.as_str()) {
                Ok(rows) => Ok(RowThreshold::MinimumRows(rows)),
                Err(why) => {
                    let name = vars.source(EZA_GRID_ROWS, EXA_GRID_ROWS).unwrap();
                    Err(OptionsError::FailedParse(text, NumberSource::Env(name), why))
                },
            },
            None => Ok(RowThreshold::AlwaysGrid),
        }
    }
}

impl details::Options {
    /// What strict mode refuses beside the long view: the flag that
    /// fills a grid across without the grid, and the flag for one name
    /// per line.
    pub open spec fn long_conflict(opts: &Opts) -> Option<OptionsErrorView> {
        if opts.across > 0 && opts.grid == 0 {
            Some(OptionsErrorView::Useless("across"@, true, "long"@))
        } else if opts.oneline > 0 {
            Some(OptionsErrorView::Useless("one-line"@, true, "long"@))
        } else {
            None
        }
    }

    /// The options of a tree of bare names: no table and no header.
    pub open spec fn spec_deduce_tree<V: Vars>(opts: &Opts, vars: &V, xattr_enabled: bool) -> Result<
        details::OptionsView,
        OptionsErrorView,
    > {
        match ColorScaleOptions::spec_deduce(opts, vars) {
            Ok(color_scale) => Ok(
                details::OptionsView {
                    table: None,
                    header: false,
                    xattr: xattr_enabled && opts.extended > 0,
                    secattr: xattr_enabled && opts.security_context > 0,
                    mounts: opts.mounts > 0,
                    color_scale,
                },
            ),
            Err(error) => Err(error),
        }
    }

    /// The options of the long view. In strict mode a conflicting flag
    /// is refused first; then the table's error comes before that of
    /// the colour scale.
    pub open spec fn spec_deduce_long<V: Vars>(
        opts: &Opts,
        vars: &V,
        xattr_enabled: bool,
        strict: bool,
    ) -> Result<details::OptionsView, OptionsErrorView> {
        if strict && Self::long_conflict(opts) is Some {
            Err(Self::long_conflict(opts).unwrap())
        } else {
            match table::Options::spec_deduce(opts, vars, xattr_enabled) {
                Err(error) => Err(error),
                Ok(table) => match ColorScaleOptions::spec_deduce(opts, vars) {
                    Err(error) => Err(error),
                    Ok(color_scale) => Ok(
                        details::OptionsView {
                            table: Some(table),
                            header: opts.header > 0,
                            xattr: xattr_enabled && opts.extended > 0,
                            secattr: xattr_enabled && opts.security_context > 0,
                            mounts: opts.mounts > 0,
                            color_scale,
                        },
                    ),
                },
            }
        }
    }

    /// Determines the options of a tree of bare names. `xattr_enabled`
    /// says whether the platform has extended attributes.
    pub fn deduce_tree<V: Vars>(opts: &Opts, vars: &V, xattr_enabled: bool) -> (r: Result<
        Self,
        OptionsError,
    >)
        ensures
            modelled(r) == Self::spec_deduce_tree(opts, vars, xattr_enabled),
            r matches Ok(options) ==> options.wf(),
    {
        let color_scale = match ColorScaleOptions::deduce(opts, vars) {
            Ok(options) => options,
            Err(error) => {
                return Err(error);
            },
        };
        Ok(
            details::Options {
                table: None,
                header: false,
                xattr: xattr_enabled && opts.extended > 0,
                secattr: xattr_enabled && opts.security_context > 0,
                mounts: opts.mounts > 0,
                color_scale,
            },
        )
    }

    /// Determines the options of the long view. `xattr_enabled` says
    /// whether the platform has extended attributes.
    pub fn deduce_long<V: Vars>(opts: &Opts, vars: &V, xattr_enabled: bool, strict: bool) -> (r:
        Result<Self, OptionsError>)
        ensures
            modelled(r) == Self::spec_deduce_long(opts, vars, xattr_enabled, strict),
            r matches Ok(options) ==> options.wf(),
    {
        if strict {
            if opts.across > 0 && opts.grid == 0 {
                return Err(OptionsError::Useless("across", true, "long"));
            } else if opts.oneline > 0 {
                return Err(OptionsError::Useless("one-line", true, "long"));
            }
        }
        let table = match table::Options::deduce(opts, vars, xattr_enabled) {
            Ok(options) => options,
            Err(error) => {
                return Err(error);
            },
        };
        let color_scale = match ColorScaleOptions::deduce(opts, vars) {
            Ok(options) => options,
            Err(error) => {
                return Err(error);
            },
        };
        Ok(
            details::Options {
                table: Some(table),
                header: opts.header > 0,
                xattr: xattr_enabled && opts.extended > 0,
                secattr: xattr_enabled && opts.security_context > 0,
                mounts: opts.mounts > 0,
                color_scale,
            },
        )
    }
}

impl Mode {
    /// Whether the flag at place `i` of the list of flags that only the
    /// long view shows was given. The list has ten places.
    pub open spec fn long_only_flag(opts: &Opts, i: int) -> bool {
        if i == 0 {
            opts.binary > 0
        } else if i == 1 {
            opts.bytes > 0
        } else if i == 2 {
            opts.inode > 0
        } else if i == 3 {
            opts.links > 0
        } else if i == 4 {
            opts.header > 0
        } else if i == 5 {
            opts.blocksize > 0
        } else if i == 6 {
            opts.time is Some
        } else if i == 7 {
            opts.group > 0
        } else if i == 8 {
            opts.numeric > 0
        } else {
            opts.mounts > 0
        }
    }

    /// The name of the flag at place `i` of that list.
    pub open spec fn long_only_name(i: int) -> Seq<char> {
        if i == 0 {
            "binary"@
        } else if i == 1 {
            "bytes"@
        } else if i == 2 {
            "inode"@
        } else if i == 3 {
            "links"@
        } else if i == 4 {
            "header"@
        } else if i == 5 {
            "blocksize"@
        } else if i == 6 {
            "time"@
        } else if i == 7 {
            "group"@
        } else if i == 8 {
            "numeric"@
        } else {
            "mounts"@
        }
    }

    /// The first place of the list, from `from` on, whose flag was given.
    pub open spec fn first_long_only(opts: &Opts, from: int) -> Option<int>
        decreases 10 - from,
    {
        if from >= 10 {
            None
        } else if Self::long_only_flag(opts, from) {
            Some(from)
        } else {
            Self::first_long_only(opts, from + 1)
        }
    }

    /// What strict mode refuses where the long view was not asked for:
    /// the first flag of the list that was given; then the Git flag,
    /// unless Git was switched off; then a depth limit without
    /// recursion and without a tree.
    pub open spec fn spec_strict_check_long_flags(opts: &Opts) -> Result<(), OptionsErrorView> {
        match Self::first_long_only(opts, 0) {
            Some(i) => Err(OptionsErrorView::Useless(Self::long_only_name(i), false, "long"@)),
            None => if opts.git > 0 && opts.no_git == 0 {
                Err(OptionsErrorView::Useless("git"@, false, "long"@))
            } else if opts.level is Some && opts.recurse == 0 && opts.tree == 0 {
                Err(OptionsErrorView::Useless2("level"@, "recurse"@, "tree"@))
            } else {
                Ok(())
            },
        }
    }

    /// The mode that the flags ask for. Without any of the four mode
    /// flags it is the grid. The long view comes first, as a grid of
    /// tables where the grid was asked for too; then the tree; then one
    /// name per line; then the grid. Strict mode checks the flags that
    /// only the long view shows wherever the long view was not asked
    /// for.
    pub open spec fn spec_deduce<V: Vars>(
        opts: &Opts,
        vars: &V,
        xattr_enabled: bool,
        strict: bool,
    ) -> Result<ModeView, OptionsErrorView> {
        let grid = ModeView::Grid(grid::Options { across: opts.across > 0 });
        if opts.long > 0 {
            match details::Options::spec_deduce_long(opts, vars, xattr_enabled, strict) {
                Err(error) => Err(error),
                Ok(details) => if opts.grid > 0 {
                    match RowThreshold::spec_deduce(
                        vars.lookup(EZA_GRID_ROWS@),
                        vars.lookup(EXA_GRID_ROWS@),
                    ) {
                        Err(error) => Err(error),
                        Ok(row_threshold) => Ok(ModeView::GridDetails(details, row_threshold)),
                    }
                } else {
                    Ok(ModeView::Details(details))
                },
            }
        } else if strict && Self::spec_strict_check_long_flags(opts) is Err {
            Err(Self::spec_strict_check_long_flags(opts).unwrap_err())
        } else if opts.tree > 0 {
            match details::Options::spec_deduce_tree(opts, vars, xattr_enabled) {
                Err(error) => Err(error),
                Ok(details) => Ok(ModeView::Details(details)),
            }
        } else if opts.oneline > 0 {
            Ok(ModeView::Lines)
        } else {
            Ok(grid)
        }
    }

    fn long_only(opts: &Opts, i: usize) -> (flag: (bool, &'static str))
        requires
            i < 10,
        ensures
            flag.0 == Self::long_only_flag(opts, i as int),
            flag.1@ == Self::long_only_name(i as int),
    {
        if i == 0 {
            (opts.binary > 0, "binary")
        } else if i == 1 {
            (opts.bytes > 0, "bytes")
        } else if i == 2 {
            (opts.inode > 0, "inode")
        } else if i == 3 {
            (opts.links > 0, "links")
        } else if i == 4 {
            (opts.header > 0, "header")
        } else if i == 5 {
            (opts.blocksize > 0, "blocksize")
        } else if i == 6 {
            (opts.time.is_some(), "time")
        } else if i == 7 {
            (opts.group > 0, "group")
        } else if i == 8 {
            (opts.numeric > 0, "numeric")
        } else {
            (opts.mounts > 0, "mounts")
        }
    }

    /// Checks, for strict mode, the flags that have no effect without
    /// the long view.
    pub fn strict_check_long_flags(opts: &Opts) -> (r: Result<(), OptionsError>)
        ensures
            plain(r) == Self::spec_strict_check_long_flags(opts),
    {
        let mut i: usize = 0;
        while i < 10
            invariant
                i <= 10,
                Self::first_long_only(opts, 0) == Self::first_long_only(opts, i as int),
            decreases 10 - i,
        {
            let (given, name) = Self::long_only(opts, i);
            if given {
                return Err(OptionsError::Useless(name, false, "long"));
            }
            i += 1;
        }
        if opts.git > 0 && opts.no_git == 0 {
            Err(OptionsError::Useless("git", false, "long"))
        } else if opts.level.is_some() && opts.recurse == 0 && opts.tree == 0 {
            Err(OptionsError::Useless2("level", "recurse", "tree"))
        } else {
            Ok(())
        }
    }

    /// Determines the mode in which the files are shown. `xattr_enabled`
    /// says whether the platform has extended attributes.
    pub fn deduce<V: Vars>(opts: &Opts, vars: &V, xattr_enabled: bool, strict: bool) -> (r: Result<
        Self,
        OptionsError,
    >)
        ensures
            modelled(r) == Self::spec_deduce(opts, vars, xattr_enabled, strict),
            r matches Ok(mode) ==> mode.wf(),
    {
        if !(opts.long > 0 || opts.oneline > 0 || opts.grid > 0 || opts.tree > 0) {
            if strict {
                match Self::strict_check_long_flags(opts) {
                    Ok(_) => {},
                    Err(error) => {
                        return Err(error);
                    },
                }
            }
            return Ok(Mode::Grid(grid::Options::deduce(opts)));
        }
        if opts.long > 0 {
            let details = match details::Options::deduce_long(opts, vars, xattr_enabled, strict) {
                Ok(options) => options,
                Err(error) => {
                    return Err(error);
                },
            };
            if opts.grid > 0 {
                let row_threshold = match RowThreshold::deduce(vars) {
                    Ok(threshold) => threshold,
                    Err(error) => {
                        return Err(error);
                    },
                };
                return Ok(Mode::GridDetails(grid_details::Options { details, row_threshold }));
            }
            return Ok(Mode::Details(details));
        }
        if strict {
            match Self::strict_check_long_flags(opts) {
                Ok(_) => {},
                Err(error) => {
                    return Err(error);
                },
            }
        }
        if opts.tree > 0 {
            return match details::Options::deduce_tree(opts, vars, xattr_enabled) {
                Ok(details) => Ok(Mode::Details(details)),
                Err(error) => Err(error),
            };
        }
        if opts.oneline > 0 {
            return Ok(Mode::Lines);
        }
        Ok(Mode::Grid(grid::Options::deduce(opts)))
    }

    /// What `first_long_only` finds from `from` on: the place of a flag
    /// that was given, with no flag given between `from` and that place;
    /// and nothing exactly where none of the flags from `from` on was
    /// given.
    pub proof fn lemma_first_long_only(opts: &Opts, from: int)
        requires
            0 <= from <= 10,
        ensures
            match Self::first_long_only(opts, from) {
                Some(i) => from <= i < 10 && Self::long_only_flag(opts, i) && forall|j: int|
                    from <= j < i ==> !Self::long_only_flag(opts, j),
                None => forall|j: int| from <= j < 10 ==> !Self::long_only_flag(opts, j),
            },
        decreases 10 - from,
    {
        if from < 10 && !Self::long_only_flag(opts, from) {
            Self::lemma_first_long_only(opts, from + 1);
        }
    }

    /// In strict mode no mode is resolved beside a flag that strict mode
    /// refuses: beside the long view none that conflicts with it, and
    /// without the long view none that only the long view shows.
    pub proof fn lemma_strict_accepts_no_useless_flag<V: Vars>(
        opts: &Opts,
        vars: &V,
        xattr_enabled: bool,
    )
        requires
            Self::spec_deduce(opts, vars, xattr_enabled, true) is Ok,
        ensures
            opts.long > 0 ==> details::Options::long_conflict(opts) is None,
            opts.long == 0 ==> Self::spec_strict_check_long_flags(opts) is Ok,
    {
    }

    /// Without any of the four mode flags the mode is the grid, filled
    /// across exactly where the flag for that was given, unless strict
    /// mode refuses a flag.
    pub proof fn lemma_no_mode_flag_gives_grid<V: Vars>(
        opts: &Opts,
        vars: &V,
        xattr_enabled: bool,
        strict: bool,
    )
        requires
            opts.long == 0 && opts.oneline == 0 && opts.grid == 0 && opts.tree == 0,
            strict ==> Self::spec_strict_check_long_flags(opts) is Ok,
        ensures
            Self::spec_deduce(opts, vars, xattr_enabled, strict) == Ok::<ModeView, OptionsErrorView>(
                ModeView::Grid(grid::Options { across: opts.across > 0 }),
            ),
    {
    }

    /// A flag of the list that is given without a mode flag, and without
    /// a flag that stands before it in the list, is refused by name in
    /// strict mode, and gives the grid otherwise.
    pub proof fn lemma_strict_refuses_long_only_flag<V: Vars>(
        opts: &Opts,
        vars: &V,
        xattr_enabled: bool,
        i: int,
    )
        requires
            opts.long == 0 && opts.oneline == 0 && opts.grid == 0 && opts.tree == 0,
            0 <= i < 10,
            Self::long_only_flag(opts, i),
            forall|j: int| 0 <= j < i ==> !Self::long_only_flag(opts, j),
        ensures
            Self::spec_deduce(opts, vars, xattr_enabled, true) == Err::<ModeView, OptionsErrorView>(
                OptionsErrorView::Useless(Self::long_only_name(i), false, "long"@),
            ),
            Self::spec_deduce(opts, vars, xattr_enabled, false) == Ok::<ModeView, OptionsErrorView>(
                ModeView::Grid(grid::Options { across: opts.across > 0 }),
            ),
    {
        Self::lemma_first_long_only(opts, 0);
    }
}

impl<S> crate::output::View<S> {
    /// The mode and the width that the flags and the environment ask
    /// for. The error of the mode comes before that of the width.
    pub open spec fn mode_and_width<V: Vars>(
        opts: &Opts,
        vars: &V,
        xattr_enabled: bool,
        strict: bool,
    ) -> Result<(ModeView, TerminalWidth), OptionsErrorView> {
        match Mode::spec_deduce(opts, vars, xattr_enabled, strict) {
            Err(error) => Err(error),
            Ok(mode) => match TerminalWidth::spec_deduce(opts.width, vars.lookup(COLUMNS@)) {
                Err(error) => Err(error),
                Ok(width) => Ok((mode, width)),
            },
        }
    }

    /// The configuration that the flags and the environment ask for,
    /// where the style of the file names resolves to `style`. The errors
    /// of the mode and of the width come before that of the style.
    pub open spec fn spec_deduce<V: Vars>(
        opts: &Opts,
        vars: &V,
        xattr_enabled: bool,
        strict: bool,
        style: Result<S, OptionsErrorView>,
    ) -> Result<ViewModel<S>, OptionsErrorView> {
        match Self::mode_and_width(opts, vars, xattr_enabled, strict) {
            Err(error) => Err(error),
            Ok((mode, width)) => match style {
                Err(error) => Err(error),
                Ok(file_style) => Ok(
                    ViewModel {
                        mode,
                        width,
                        file_style,
                        deref_links: opts.dereference > 0,
                        total_size: opts.total_size > 0,
                    },
                ),
            },
        }
    }

    /// Puts the view together from its resolved mode and width, the
    /// flags, and the outcome of resolving the style of the file names.
    pub fn with_file_style(
        opts: &Opts,
        mode: Mode,
        width: TerminalWidth,
        style: Result<S, OptionsError>,
    ) -> (r: Result<Self, OptionsError>)
        ensures
            r matches Ok(view) ==> view.mode == mode,
            modelled(r) == (match style {
                Err(error) => Err(error@),
                Ok(file_style) => Ok(
                    ViewModel {
                        mode: mode@,
                        width,
                        file_style,
                        deref_links: opts.dereference > 0,
                        total_size: opts.total_size > 0,
                    },
                ),
            }),
    {
        match style {
            Ok(file_style) => Ok(
                crate::output::View {
                    mode,
                    width,
                    file_style,
                    deref_links: opts.dereference > 0,
                    total_size: opts.total_size > 0,
                },
            ),
            Err(error) => Err(error),
        }
    }

    /// Resolves the view from the flags and the environment.
    /// `xattr_enabled` says whether the platform has extended
    /// attributes; `strict` asks for flags without effect to be refused.
    /// `file_style` resolves the style of the file names from the width;
    /// it is called once the mode and the width are resolved, and not
    /// where one of them fails.
    pub fn deduce<V: Vars, F: FnOnce(TerminalWidth) -> Result<S, OptionsError>>(
        opts: &Opts,
        vars: &V,
        xattr_enabled: bool,
        strict: bool,
        file_style: F,
    ) -> (r: Result<Self, OptionsError>)
        requires
            Self::mode_and_width(opts, vars, xattr_enabled, strict) matches Ok(resolved)
                ==> file_style.requires((resolved.1,)),
        ensures
            match Self::mode_and_width(opts, vars, xattr_enabled, strict) {
                Err(error) => modelled(r) == Err::<ViewModel<S>, OptionsErrorView>(error),
                Ok((mode, width)) => exists|style: Result<S, OptionsError>|
                    #[trigger] file_style.ensures((width,), style) && modelled(r)
                        == Self::spec_deduce(opts, vars, xattr_enabled, strict, plain(style)),
            },
            r matches Ok(view) ==> view.mode.wf(),
    {
        let mode = match Mode::deduce(opts, vars, xattr_enabled, strict) {
            Ok(mode) => mode,
            Err(error) => {
                return Err(error);
            },
        };
        let width = match TerminalWidth::deduce(opts, vars) {
            Ok(width) => width,
            Err(error) => {
                return Err(error);
            },
        };
        let style = file_style(width);
        Self::with_file_style(opts, mode, width, style)
    }

    /// Resolving twice from the same flags and the same environment,
    /// with the same style of the file names, gives the same outcome:
    /// what `deduce` returns is a function of these.
    pub proof fn lemma_deduce_is_repeatable<V: Vars>(
        opts: &Opts,
        vars: &V,
        xattr_enabled: bool,
        strict: bool,
        style: Result<S, OptionsErrorView>,
        first: Result<crate::output::View<S>, OptionsError>,
        second: Result<crate::output::View<S>, OptionsError>,
    )
        requires
            modelled(first) == Self::spec_deduce(opts, vars, xattr_enabled, strict, style),
            modelled(second) == Self::spec_deduce(opts, vars, xattr_enabled, strict, style),
        ensures
            modelled(first) == modelled(second),
            first is Ok <==> second is Ok,
    {
    }
}

} // verus!
