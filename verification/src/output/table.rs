//! The table of the details view: its columns and their formats.

use crate::output::time::{TimeFormat, TimeFormatView};
use vstd::prelude::*;

verus! {

/// Which of a file's timestamps get a column.
#[derive(Debug, PartialEq, Eq, Clone, Copy)]
pub struct TimeTypes {
    pub modified: bool,
    pub changed: bool,
    pub accessed: bool,
    pub created: bool,
}

impl TimeTypes {
    /// The timestamps shown where the user asked for none: the time of
    /// modification alone.
    pub open spec fn modified_only() -> TimeTypes {
        TimeTypes { modified: true, changed: false, accessed: false, created: false }
    }
}

impl Default for TimeTypes {
    fn default() -> (types: Self)
        ensures
            types == TimeTypes::modified_only(),
    {
        TimeTypes { modified: true, changed: false, accessed: false, created: false }
    }
}

/// The columns of the table.
#[derive(Debug, PartialEq, Eq, Clone, Copy)]
pub struct Columns {
    pub time_types: TimeTypes,
    pub inode: bool,
    pub links: bool,
    pub blocksize: bool,
    pub group: bool,
    pub git: bool,
    pub subdir_git_repos: bool,
    pub subdir_git_repos_no_stat: bool,
    pub octal: bool,
    pub security_context: bool,
    pub file_flags: bool,
    pub permissions: bool,
    pub filesize: bool,
    pub user: bool,
}

impl Columns {
    /// At most one of the two columns for the Git repositories of
    /// subdirectories is shown.
    pub open spec fn wf(&self) -> bool {
        !(self.subdir_git_repos && self.subdir_git_repos_no_stat)
    }
}

/// How a file's size is written.
#[derive(Debug, PartialEq, Eq, Clone, Copy)]
pub enum SizeFormat {
    /// With decimal prefixes: the powers of 1000.
    DecimalBytes,
    /// With binary prefixes: the powers of 1024.
    BinaryBytes,
    /// As the plain number of bytes.
    JustBytes,
}

/// How a file's owner is written.
#[derive(Debug, PartialEq, Eq, Clone, Copy)]
pub enum UserFormat {
    /// By number.
    Numeric,
    /// By name.
    Name,
}

/// How a file's group is written.
#[derive(Debug, PartialEq, Eq, Clone, Copy)]
pub enum GroupFormat {
    /// Only where it differs from the owner's name.
    Smart,
    /// Always.
    Regular,
}

/// How a file's flags are written.
#[derive(Debug, PartialEq, Eq, Clone, Copy)]
pub enum FlagsFormat {
    /// By their names.
    Long,
    /// By one letter each.
    Short,
}

/// The options of the table.
#[derive(Debug, PartialEq, Eq, Clone)]
pub struct Options {
    pub size_format: SizeFormat,
    pub time_format: TimeFormat,
    pub user_format: UserFormat,
    pub group_format: GroupFormat,
    pub flags_format: FlagsFormat,
    pub columns: Columns,
}

/// The model of the table's options.
pub ghost struct OptionsView {
    pub size_format: SizeFormat,
    pub time_format: TimeFormatView,
    pub user_format: UserFormat,
    pub group_format: GroupFormat,
    pub flags_format: FlagsFormat,
    pub columns: Columns,
}

impl Options {
    /// The time format and the columns are well formed.
    pub open spec fn wf(&self) -> bool {
        self.time_format.wf() && self.columns.wf()
    }
}

impl View for Options {
    type V = OptionsView;

    open spec fn view(&self) -> OptionsView {
        OptionsView {
            size_format: self.size_format,
            time_format: self.time_format@,
            user_format: self.user_format,
            group_format: self.group_format,
            flags_format: self.flags_format,
            columns: self.columns,
        }
    }
}

} // verus!
