//! What is shown of a directory, and in which order.

use vstd::prelude::*;

use crate::entry::Entry;
use crate::opts::Opts;

verus! {

/// Patterns of names to leave out.
#[derive(Debug, Clone, Copy, PartialEq, Eq, Structural)]
pub struct IgnorePatterns;

/// The property by which the entries are sorted.
#[derive(Debug, Clone, Copy, PartialEq, Eq, Structural)]
pub enum SortField {
    Unsorted,
    Name,
    Extension,
    Size,
    Inode,
    ModifiedDate,
    AccessedDate,
    CreatedDate,
    FileType,
    ModifiedAge,
}

/// The choices that decide which entries are listed and in which order.
#[derive(Debug, Clone, Copy, PartialEq, Eq, Structural)]
pub struct FileFilter {
    /// Whether hidden files, those whose name starts with a dot, are
    /// shown. `.` and `..` never are.
    pub show_all: bool,
    /// The names to leave out.
    pub ignore_patterns: IgnorePatterns,
    /// Whether all directories come first.
    pub list_dirs_first: bool,
    /// Whether the sort order is reversed.
    pub reverse: bool,
    /// The property to sort by.
    pub sort_field: SortField,
}

/// Leaves out the entries that the options hide. No option hides any yet:
/// every entry stays, in its place.
pub fn filter(data: Vec<Entry>, opts: &Opts) -> (out: Vec<Entry>)
    ensures
        out == data,
{
    data
}

/// Puts the entries into the order that the options ask for. No option
/// orders them yet: they stay in the order in which the directory gave them.
pub fn sort(data: Vec<Entry>, opts: &Opts) -> (out: Vec<Entry>)
    ensures
        out == data,
{
    data
}

} // verus!
