//! Resolution of the table of the details view: its columns and the
//! formats of its cells.

use crate::options::error::{modelled, plain, OptionsError, OptionsErrorView};
use crate::options::parser::Opts;
use crate::options::vars::{
    first_of, Vars, EXA_OVERRIDE_GIT, EZA_OVERRIDE_GIT, EZA_WINDOWS_ATTRIBUTES, TIME_STYLE,
};
use crate::output::table::{
    Columns, FlagsFormat, GroupFormat, Options, OptionsView, SizeFormat, TimeTypes, UserFormat,
};
use crate::output::time::{TimeFormat, TimeFormatView};
use crate::text::{
    first_line, same_ignoring_ascii_case, same_text, same_text_ignoring_ascii_case, split_line,
    tail,
};
use vstd::prelude::*;
use vstd::string::*;

verus! {

impl TimeTypes {
    /// The one timestamp that a word of the `time` option names.
    pub open spec fn of_word(word: Seq<char>) -> Option<TimeTypes> {
        if word == "mod"@ || word == "modified"@ {
            Some(TimeTypes { modified: true, changed: false, accessed: false, created: false })
        } else if word == "ch"@ || word == "changed"@ {
            Some(TimeTypes { modified: false, changed: true, accessed: false, created: false })
        } else if word == "acc"@ || word == "accessed"@ {
            Some(TimeTypes { modified: false, changed: false, accessed: true, created: false })
        } else if word == "cr"@ || word == "created"@ {
            Some(TimeTypes { modified: false, changed: false, accessed: false, created: true })
        } else {
            None
        }
    }

    /// The timestamps that the flags ask for. The flag that switches all
    /// timestamps off wins. Then the `time` option, which names one
    /// timestamp and tolerates none of the four single flags beside it.
    /// Then the single flags. Without any of these, the time of
    /// modification.
    pub open spec fn spec_deduce(opts: &Opts) -> Result<TimeTypes, OptionsErrorView> {
        if opts.no_time > 0 {
            Ok(TimeTypes { modified: false, changed: false, accessed: false, created: false })
        } else if let Some(word) = opts.time {
            if opts.modified > 0 {
                Err(OptionsErrorView::Useless("modified"@, true, "time"@))
            } else if opts.changed > 0 {
                Err(OptionsErrorView::Useless("changed"@, true, "time"@))
            } else if opts.accessed > 0 {
                Err(OptionsErrorView::Useless("accessed"@, true, "time"@))
            } else if opts.created > 0 {
                Err(OptionsErrorView::Useless("created"@, true, "time"@))
            } else {
                match Self::of_word(word@) {
                    Some(types) => Ok(types),
                    None => Err(OptionsErrorView::BadArgument("time"@, word@)),
                }
            }
        } else if opts.modified > 0 || opts.changed > 0 || opts.accessed > 0 || opts.created > 0 {
            Ok(
                TimeTypes {
                    modified: opts.modified > 0,
                    changed: opts.changed > 0,
                    accessed: opts.accessed > 0,
                    created: opts.created > 0,
                },
            )
        } else {
            Ok(TimeTypes::modified_only())
        }
    }

    /// Determines which of a file's timestamps are shown.
    pub fn deduce(opts: &Opts) -> (r: Result<Self, OptionsError>)
        ensures
            plain(r) == Self::spec_deduce(opts),
            opts.no_time > 0 ==> r == Ok::<TimeTypes, OptionsError>(
                TimeTypes { modified: false, changed: false, accessed: false, created: false },
            ),
    {
        let modified: bool = opts.modified > 0;
        let changed: bool = opts.changed > 0;
        let accessed: bool = opts.accessed > 0;
        let created: bool = opts.created > 0;
        if opts.no_time > 0 {
            return Ok(
                TimeTypes { modified: false, changed: false, accessed: false, created: false },
            );
        }
        match &opts.time {
            Some(word) => {
                let w: &str = word.as_str();
                if modified {
                    Err(OptionsError::Useless("modified", true, "time"))
                } else if changed {
                    Err(OptionsError::Useless("changed", true, "time"))
                } else if accessed {
                    Err(OptionsError::Useless("accessed", true, "time"))
                } else if created {
                    Err(OptionsError::Useless("created", true, "time"))
                } else if same_text(w, "mod") || same_text(w, "modified") {
                    Ok(
                        TimeTypes {
                            modified: true,
                            changed: false,
                            accessed: false,
                            created: false,
                        },
                    )
                } else if same_text(w, "ch") || same_text(w, "changed") {
                    Ok(
                        TimeTypes {
                            modified: false,
                            changed: true,
                            accessed: false,
                            created: false,
                        },
                    )
                } else if same_text(w, "acc") || same_text(w, "accessed") {
                    Ok(
                        TimeTypes {
                            modified: false,
                            changed: false,
                            accessed: true,
                            created: false,
                        },
                    )
                } else if same_text(w, "cr") || same_text(w, "created") {
                    Ok(
                        TimeTypes {
                            modified: false,
                            changed: false,
                            accessed: false,
                            created: true,
                        },
                    )
                } else {
                    Err(OptionsError::BadArgument("time", word.clone()))
                }
            },
            None => {
                if modified || changed || accessed || created {
                    Ok(TimeTypes { modified, changed, accessed, created })
                } else {
                    Ok(TimeTypes::default())
                }
            },
        }
    }
}

impl TimeFormat {
    /// The word that names the time style: the option's value where it was
    /// given, else the environment's where that is not empty.
    pub open spec fn style_word(flag: Option<Seq<char>>, env: Option<Seq<char>>) -> Option<
        Seq<char>,
    > {
        match flag {
            Some(word) => Some(word),
            None => match env {
                Some(word) => if word.len() > 0 {
                    Some(word)
                } else {
                    None
                },
                None => None,
            },
        }
    }

    /// The two formats that the text after the `+` of a custom style
    /// holds: its first line, and its second line where it has one. Both
    /// must hold something; where one does not, there is no format.
    pub open spec fn custom_formats(text: Seq<char>) -> Option<(Seq<char>, Option<Seq<char>>)> {
        let first = first_line(text);
        if first.len() == 0 {
            None
        } else {
            match tail(text, '\n') {
                Some(more) => if more.len() == 0 {
                    Some((first, None))
                } else if first_line(more).len() == 0 {
                    None
                } else {
                    Some((first, Some(first_line(more))))
                },
                None => Some((first, None)),
            }
        }
    }

    /// The format that a style word names. The five known words are
    /// matched exactly. A word that starts with `+` is a custom style;
    /// one whose first or second line is empty is refused like an
    /// unknown word.
    pub open spec fn of_word(word: Seq<char>) -> Result<TimeFormatView, OptionsErrorView> {
        if word == "default"@ {
            Ok(TimeFormatView::DefaultFormat)
        } else if word == "relative"@ {
            Ok(TimeFormatView::Relative)
        } else if word == "iso"@ {
            Ok(TimeFormatView::ISOFormat)
        } else if word == "long-iso"@ {
            Ok(TimeFormatView::LongISO)
        } else if word == "full-iso"@ {
            Ok(TimeFormatView::FullISO)
        } else if word.len() > 0 && word[0] == '+' {
            match Self::custom_formats(word.drop_first()) {
                Some((non_recent, recent)) => Ok(TimeFormatView::Custom { non_recent, recent }),
                None => Err(OptionsErrorView::BadArgument("time-style"@, word)),
            }
        } else {
            Err(OptionsErrorView::BadArgument("time-style"@, word))
        }
    }

    /// The time format that the option and the environment ask for.
    pub open spec fn spec_deduce<V: Vars>(opts: &Opts, vars: &V) -> Result<
        TimeFormatView,
        OptionsErrorView,
    > {
        let flag = match opts.time_style {
            Some(word) => Some(word@),
            None => None,
        };
        match Self::style_word(flag, vars.lookup(TIME_STYLE@)) {
            Some(word) => Self::of_word(word),
            None => Ok(TimeFormatView::DefaultFormat),
        }
    }

    /// Reads a style word.
    pub fn parse(word: &String) -> (r: Result<Self, OptionsError>)
        ensures
            modelled(r) == Self::of_word(word@),
            r matches Ok(format) ==> format.wf(),
    {
        let w: &str = word.as_str();
        if same_text(w, "default") {
            return Ok(TimeFormat::DefaultFormat);
        } else if same_text(w, "relative") {
            return Ok(TimeFormat::Relative);
        } else if same_text(w, "iso") {
            return Ok(TimeFormat::ISOFormat);
        } else if same_text(w, "long-iso") {
            return Ok(TimeFormat::LongISO);
        } else if same_text(w, "full-iso") {
            return Ok(TimeFormat::FullISO);
        }
        let n: usize = w.unicode_len();
        if n == 0 || w.get_char(0) != '+' {
            return Err(OptionsError::BadArgument("time-style", word.clone()));
        }
        let text: &str = w.substring_char(1, n);
        assert(text@ =~= word@.drop_first());
        let (first, more) = split_line(text);
        if first.unicode_len() == 0 {
            return Err(OptionsError::BadArgument("time-style", word.clone()));
        }
        let non_recent: String = first.to_owned();
        match more {
            None => Ok(TimeFormat::Custom { non_recent, recent: None }),
            Some(rest) => {
                if rest.unicode_len() == 0 {
                    Ok(TimeFormat::Custom { non_recent, recent: None })
                } else {
                    let (second, _) = split_line(rest);
                    if second.unicode_len() == 0 {
                        Err(OptionsError::BadArgument("time-style", word.clone()))
                    } else {
                        Ok(TimeFormat::Custom { non_recent, recent: Some(second.to_owned()) })
                    }
                }
            },
        }
    }

    /// Determines how timestamps are written.
    pub fn deduce<V: Vars>(opts: &Opts, vars: &V) -> (r: Result<Self, OptionsError>)
        ensures
            modelled(r) == Self::spec_deduce(opts, vars),
            r matches Ok(format) ==> format.wf(),
    {
        match &opts.time_style {
            Some(word) => Self::parse(word),
            None => match vars.get(TIME_STYLE) {
                Some(word) => {
                    if word.as_str().unicode_len() == 0 {
                        Ok(TimeFormat::DefaultFormat)
                    } else {
                        Self::parse(&word)
                    }
                },
                None => Ok(TimeFormat::DefaultFormat),
            },
        }
    }
}

impl SizeFormat {
    /// The size format that the flags ask for: binary prefixes before
    /// plain bytes before decimal prefixes.
    pub open spec fn spec_deduce(opts: &Opts) -> SizeFormat {
        if opts.binary > 0 {
            SizeFormat::BinaryBytes
        } else if opts.bytes > 0 {
            SizeFormat::JustBytes
        } else {
            SizeFormat::DecimalBytes
        }
    }

    /// Determines how file sizes are written.
    pub fn deduce(opts: &Opts) -> (format: Self)
        ensures
            format == Self::spec_deduce(opts),
    {
        if opts.binary > 0 {
            SizeFormat::BinaryBytes
        } else if opts.bytes > 0 {
            SizeFormat::JustBytes
        } else {
            SizeFormat::DecimalBytes
        }
    }
}

impl UserFormat {
    /// Determines how owners are written: by number where the flag asks
    /// for numbers, else by name.
    pub fn deduce(opts: &Opts) -> (format: Self)
        ensures
            format == (if opts.numeric > 0 {
                UserFormat::Numeric
            } else {
                UserFormat::Name
            }),
    {
        if opts.numeric > 0 {
            UserFormat::Numeric
        } else {
            UserFormat::Name
        }
    }
}

impl GroupFormat {
    /// Determines how groups are written: smart where the flag asks for
    /// it, else always.
    pub fn deduce(opts: &Opts) -> (format: Self)
        ensures
            format == (if opts.smart_group > 0 {
                GroupFormat::Smart
            } else {
                GroupFormat::Regular
            }),
    {
        if opts.smart_group > 0 {
            GroupFormat::Smart
        } else {
            GroupFormat::Regular
        }
    }
}

impl FlagsFormat {
    /// The flags format that the environment asks for: short where its
    /// variable says so, in capitals or small letters, else long.
    pub open spec fn spec_deduce<V: Vars>(vars: &V) -> FlagsFormat {
        match vars.lookup(EZA_WINDOWS_ATTRIBUTES@) {
            Some(word) => if same_ignoring_ascii_case(word, "short"@) {
                FlagsFormat::Short
            } else {
                FlagsFormat::Long
            },
            None => FlagsFormat::Long,
        }
    }

    /// Determines how file flags are written.
    pub fn deduce<V: Vars>(vars: &V) -> (format: Self)
        ensures
            format == Self::spec_deduce(vars),
    {
        match vars.get(EZA_WINDOWS_ATTRIBUTES) {
            Some(word) => {
                if same_text_ignoring_ascii_case(word.as_str(), "short") {
                    FlagsFormat::Short
                } else {
                    FlagsFormat::Long
                }
            },
            None => FlagsFormat::Long,
        }
    }
}

impl Columns {
    /// Whether the Git columns can be shown at all: the flag that
    /// switches Git off was not given, and neither name of the
    /// environment's override has a value.
    pub open spec fn git_allowed<V: Vars>(opts: &Opts, vars: &V) -> bool {
        opts.no_git == 0 && first_of(
            vars.lookup(EXA_OVERRIDE_GIT@),
            vars.lookup(EZA_OVERRIDE_GIT@),
        ) is None
    }

    /// The columns that the flags and the environment ask for, where the
    /// timestamps resolve to `time_types`.
    pub open spec fn assembled<V: Vars>(
        opts: &Opts,
        vars: &V,
        xattr_enabled: bool,
        time_types: TimeTypes,
    ) -> Columns {
        Columns {
            time_types,
            inode: opts.inode > 0,
            links: opts.links > 0,
            blocksize: opts.blocksize > 0,
            group: opts.group > 0,
            git: opts.git > 0 && Self::git_allowed(opts, vars),
            subdir_git_repos: opts.git_repos > 0 && Self::git_allowed(opts, vars),
            subdir_git_repos_no_stat: opts.git_repos == 0 && opts.git_repos_no_status > 0
                && Self::git_allowed(opts, vars),
            octal: opts.octal > 0,
            security_context: xattr_enabled && opts.security_context > 0,
            file_flags: opts.file_flags > 0,
            permissions: opts.no_permissions == 0,
            filesize: opts.no_filesize == 0,
            user: opts.no_user == 0,
        }
    }

    /// The columns of the table, or the error of the timestamps.
    pub open spec fn spec_deduce<V: Vars>(opts: &Opts, vars: &V, xattr_enabled: bool) -> Result<
        Columns,
        OptionsErrorView,
    > {
        match TimeTypes::spec_deduce(opts) {
            Ok(time_types) => Ok(Self::assembled(opts, vars, xattr_enabled, time_types)),
            Err(error) => Err(error),
        }
    }

    /// Determines the columns of the table. `xattr_enabled` says whether
    /// the platform has extended attributes.
    pub fn deduce<V: Vars>(opts: &Opts, vars: &V, xattr_enabled: bool) -> (r: Result<
        Self,
        OptionsError,
    >)
        ensures
            plain(r) == Self::spec_deduce(opts, vars, xattr_enabled),
            r matches Ok(columns) ==> columns.wf(),
    {
        let time_types = match TimeTypes::deduce(opts) {
            Ok(types) => types,
            Err(error) => {
                return Err(error);
            },
        };
        let no_git_env: bool = vars.get_with_fallback(EXA_OVERRIDE_GIT, EZA_OVERRIDE_GIT).is_some();
        let git: bool = opts.git > 0 && opts.no_git == 0 && !no_git_env;
        let subdir_git_repos: bool = opts.git_repos > 0 && opts.no_git == 0 && !no_git_env;
        let subdir_git_repos_no_stat: bool = !subdir_git_repos && opts.git_repos_no_status > 0
            && opts.no_git == 0 && !no_git_env;
        Ok(
            Columns {
                time_types,
                inode: opts.inode > 0,
                links: opts.links > 0,
                blocksize: opts.blocksize > 0,
                group: opts.group > 0,
                git,
                subdir_git_repos,
                subdir_git_repos_no_stat,
                octal: opts.octal > 0,
                security_context: xattr_enabled && opts.security_context > 0,
                file_flags: opts.file_flags > 0,
                permissions: opts.no_permissions == 0,
                filesize: opts.no_filesize == 0,
                user: opts.no_user == 0,
            },
        )
    }
}

impl Options {
    /// The options of the table: its six parts, each resolved on its
    /// own. The error of the time format comes before that of the
    /// columns.
    pub open spec fn spec_deduce<V: Vars>(opts: &Opts, vars: &V, xattr_enabled: bool) -> Result<
        OptionsView,
        OptionsErrorView,
    > {
        match TimeFormat::spec_deduce(opts, vars) {
            Err(error) => Err(error),
            Ok(time_format) => match Columns::spec_deduce(opts, vars, xattr_enabled) {
                Err(error) => Err(error),
                Ok(columns) => Ok(
                    OptionsView {
                        size_format: SizeFormat::spec_deduce(opts),
                        time_format,
                        user_format: if opts.numeric > 0 {
                            UserFormat::Numeric
                        } else {
                            UserFormat::Name
                        },
                        group_format: if opts.smart_group > 0 {
                            GroupFormat::Smart
                        } else {
                            GroupFormat::Regular
                        },
                        flags_format: FlagsFormat::spec_deduce(vars),
                        columns,
                    },
                ),
            },
        }
    }

    /// Determines the options of the table.
    pub fn deduce<V: Vars>(opts: &Opts, vars: &V, xattr_enabled: bool) -> (r: Result<
        Self,
        OptionsError,
    >)
        ensures
            modelled(r) == Self::spec_deduce(opts, vars, xattr_enabled),
            r matches Ok(options) ==> options.wf(),
    {
        let time_format = match TimeFormat::deduce(opts, vars) {
            Ok(format) => format,
            Err(error) => {
                return Err(error);
            },
        };
        let flags_format = FlagsFormat::deduce(vars);
        let size_format = SizeFormat::deduce(opts);
        let user_format = UserFormat::deduce(opts);
        let group_format = GroupFormat::deduce(opts);
        let columns = match Columns::deduce(opts, vars, xattr_enabled) {
            Ok(columns) => columns,
            Err(error) => {
                return Err(error);
            },
        };
        Ok(Options { size_format, time_format, user_format, group_format, flags_format, columns })
    }
}

} // verus!
