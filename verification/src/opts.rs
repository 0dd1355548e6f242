//! The options of a listing, as plain values.

use vstd::prelude::*;

verus! {

/// A path is carried through and not looked into.
#[verifier::external_type_specification]
#[verifier::external_body]
pub struct ExPathBuf(std::path::PathBuf);

/// When to show colours.
#[derive(Debug, Clone, Copy, PartialEq, Eq, Structural)]
pub enum OptColor {
    Always,
    Auto,
    Never,
}

/// Which timestamp of a file to list.
#[derive(Debug, Clone, Copy, PartialEq, Eq, Structural)]
pub enum OptTime {
    Modified,
    Accessed,
    Created,
}

/// How to write timestamps.
#[derive(Debug, Clone, Copy, PartialEq, Eq, Structural)]
pub enum OptTimeStyle {
    Default,
    Iso,
    LongIso,
    FullIso,
}

/// All options of one run.
#[derive(Debug, Clone)]
pub struct Opts {
    /// Debug mode.
    pub debug: bool,
    pub filter_ops: FilterOpts,
    pub display_ops: DisplayOpts,
    /// The files and directories to show; the working directory if there
    /// are none.
    pub files: Vec<std::path::PathBuf>,
}

/// How the entries are displayed.
#[derive(Debug, Clone)]
pub struct DisplayOpts {
    /// Show the metadata of each file as a table.
    pub long: bool,
    /// When to show colours.
    pub color: OptColor,
    pub long_options: LongOpts,
}

/// The options of the table.
#[derive(Debug, Clone, Copy, PartialEq, Eq, Structural)]
pub struct LongOpts {
    /// List file sizes with binary prefixes.
    pub binary: bool,
    /// List file sizes in bytes, without prefixes.
    pub bytes: bool,
    /// List each file's group.
    pub group: bool,
    /// Put a header row above the columns.
    pub header: bool,
    /// List each file's number of hard links.
    pub links: bool,
    /// List each file's inode number.
    pub inode: bool,
    /// The depth to which to recurse.
    pub level: Option<u8>,
    /// Use the modified timestamp field.
    pub modified: bool,
    /// List each file's number of file system blocks.
    pub blocks: bool,
    /// Which timestamp field to list.
    pub time: OptTime,
    /// How to write timestamps.
    pub time_style: OptTimeStyle,
    /// Use the accessed timestamp field.
    pub accessed: bool,
    /// Use the created timestamp field.
    pub created: bool,
}

/// 1 for a flag that is set, 0 for one that is not.
pub open spec fn flag(b: bool) -> nat {
    if b {
        1
    } else {
        0
    }
}

impl LongOpts {
    /// The number of fields that the options ask for: permissions, size,
    /// user, time and name always; group, links, inode and blocks where asked
    /// for; and each of the modified, accessed and created times that is asked
    /// for and is not already the time listed.
    pub open spec fn active_fields(self) -> nat {
        5 + flag(self.group) + flag(self.links) + flag(self.inode) + flag(self.blocks) + flag(
            self.modified && self.time != OptTime::Modified,
        ) + flag(self.accessed && self.time != OptTime::Accessed) + flag(
            self.created && self.time != OptTime::Created,
        )
    }

    pub fn active_count(&self) -> (count: usize)
        ensures
            count == self.active_fields(),
            5 <= count <= 11,
    {
        let modified = self.modified && self.time != OptTime::Modified;
        let accessed = self.accessed && self.time != OptTime::Accessed;
        let created = self.created && self.time != OptTime::Created;
        assert(modified == (self.modified && self.time != OptTime::Modified));
        assert(accessed == (self.accessed && self.time != OptTime::Accessed));
        assert(created == (self.created && self.time != OptTime::Created));
        5 + one_if(self.group) + one_if(self.links) + one_if(self.inode) + one_if(self.blocks)
            + one_if(modified) + one_if(accessed) + one_if(created)
    }
}

fn one_if(b: bool) -> (n: usize)
    ensures
        n == flag(b),
{
    if b {
        1
    } else {
        0
    }
}

/// Which entries are listed.
#[derive(Debug, Clone)]
pub struct FilterOpts {
    /// Glob patterns, separated by pipes, of files to leave out.
    pub ignore_patterns: Option<String>,
    /// Show hidden files.
    pub all: bool,
    /// Reverse the sort order.
    pub reverse: bool,
}

} // verus!
