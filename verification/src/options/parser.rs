//! The flag record: how often each flag was given, and the values of the
//! options that take one.

use vstd::prelude::*;

verus! {

/// The argument of the option that picks how the colour scale is drawn.
#[derive(Debug, PartialEq, Eq, Clone, Copy)]
pub enum ColorScaleModeArgs {
    Fixed,
    Gradient,
}

/// The flags as they were counted on the command line. A count above zero
/// means that the flag was given; an option with a value holds it, if it
/// was given.
#[derive(Debug, PartialEq, Eq, Clone)]
pub struct Opts {
    pub oneline: u8,
    pub long: u8,
    pub grid: u8,
    pub across: u8,
    pub recurse: u8,
    pub tree: u8,
    pub dereference: u8,
    pub level: Option<usize>,
    pub width: Option<isize>,
    pub total_size: u8,
    pub binary: u8,
    pub bytes: u8,
    pub group: u8,
    pub numeric: u8,
    pub smart_group: u8,
    pub header: u8,
    pub inode: u8,
    pub links: u8,
    pub blocksize: u8,
    pub mounts: u8,
    pub octal: u8,
    pub file_flags: u8,
    pub extended: u8,
    pub security_context: u8,
    pub git: u8,
    pub no_git: u8,
    pub git_repos: u8,
    pub git_repos_no_status: u8,
    pub no_permissions: u8,
    pub no_filesize: u8,
    pub no_user: u8,
    pub no_time: u8,
    pub modified: u8,
    pub changed: u8,
    pub accessed: u8,
    pub created: u8,
    pub time: Option<String>,
    pub time_style: Option<String>,
    pub color_scale: Option<String>,
    pub color_scale_mode: ColorScaleModeArgs,
}

impl Opts {
    /// The record of a command line without flags.
    pub open spec fn empty() -> Opts {
        Opts {
            oneline: 0,
            long: 0,
            grid: 0,
            across: 0,
            recurse: 0,
            tree: 0,
            dereference: 0,
            level: None,
            width: None,
            total_size: 0,
            binary: 0,
            bytes: 0,
            group: 0,
            numeric: 0,
            smart_group: 0,
            header: 0,
            inode: 0,
            links: 0,
            blocksize: 0,
            mounts: 0,
            octal: 0,
            file_flags: 0,
            extended: 0,
            security_context: 0,
            git: 0,
            no_git: 0,
            git_repos: 0,
            git_repos_no_status: 0,
            no_permissions: 0,
            no_filesize: 0,
            no_user: 0,
            no_time: 0,
            modified: 0,
            changed: 0,
            accessed: 0,
            created: 0,
            time: None,
            time_style: None,
            color_scale: None,
            color_scale_mode: ColorScaleModeArgs::Gradient,
        }
    }
}

impl Default for ColorScaleModeArgs {
    fn default() -> (mode: Self)
        ensures
            mode == ColorScaleModeArgs::Gradient,
    {
        ColorScaleModeArgs::Gradient
    }
}

impl Default for Opts {
    fn default() -> (opts: Self)
        ensures
            opts == Opts::empty(),
    {
        Opts {
            oneline: 0,
            long: 0,
            grid: 0,
            across: 0,
            recurse: 0,
            tree: 0,
            dereference: 0,
            level: None,
            width: None,
            total_size: 0,
            binary: 0,
            bytes: 0,
            group: 0,
            numeric: 0,
            smart_group: 0,
            header: 0,
            inode: 0,
            links: 0,
            blocksize: 0,
            mounts: 0,
            octal: 0,
            file_flags: 0,
            extended: 0,
            security_context: 0,
            git: 0,
            no_git: 0,
            git_repos: 0,
            git_repos_no_status: 0,
            no_permissions: 0,
            no_filesize: 0,
            no_user: 0,
            no_time: 0,
            modified: 0,
            changed: 0,
            accessed: 0,
            created: 0,
            time: None,
            time_style: None,
            color_scale: None,
            color_scale_mode: ColorScaleModeArgs::Gradient,
        }
    }
}

} // verus!
