//! One row of listing data, and how it is made from what the file system
//! reports about a directory entry.

use std::fmt::Write;
use vstd::prelude::*;
use vstd::std_specs::convert::FromSpecImpl;

use crate::error::Error;
use crate::text::{decimal, decimal_string, pad_left, pad_left_string};

verus! {

/// The kind of object a directory entry names.
#[derive(Debug, Clone, Copy, PartialEq, Eq, Structural)]
pub enum FileType {
    File,
    Dir,
    Symlink,
    BlockDevice,
    CharDevice,
    Pipe,
    Socket,
    Unknown,
}

/// The answers of the file system's type tag to the seven type tests.
/// On a real file system at most one of them is true.
#[derive(Debug, Clone, Copy, PartialEq, Eq, Structural)]
pub struct TypeTag {
    pub is_file: bool,
    pub is_dir: bool,
    pub is_symlink: bool,
    pub is_block_device: bool,
    pub is_char_device: bool,
    pub is_fifo: bool,
    pub is_socket: bool,
}

impl FileType {
    /// The first test that succeeds, in the fixed order file, directory,
    /// symlink, block device, character device, pipe, socket, decides the
    /// type; `Unknown` if none does.
    pub open spec fn of(tag: TypeTag) -> FileType {
        if tag.is_file {
            FileType::File
        } else if tag.is_dir {
            FileType::Dir
        } else if tag.is_symlink {
            FileType::Symlink
        } else if tag.is_block_device {
            FileType::BlockDevice
        } else if tag.is_char_device {
            FileType::CharDevice
        } else if tag.is_fifo {
            FileType::Pipe
        } else if tag.is_socket {
            FileType::Socket
        } else {
            FileType::Unknown
        }
    }

    /// The one-character tag that stands in front of the permissions.
    pub open spec fn symbol_of(self) -> char {
        match self {
            FileType::File => '-',
            FileType::Dir => 'd',
            FileType::Symlink => 'l',
            FileType::BlockDevice => 'b',
            FileType::CharDevice => 'c',
            FileType::Pipe => 'p',
            FileType::Socket => 's',
            FileType::Unknown => ' ',
        }
    }

    pub fn symbol(&self) -> (c: char)
        ensures
            c == self.symbol_of(),
    {
        match self {
            FileType::File => '-',
            FileType::Dir => 'd',
            FileType::Symlink => 'l',
            FileType::BlockDevice => 'b',
            FileType::CharDevice => 'c',
            FileType::Pipe => 'p',
            FileType::Socket => 's',
            FileType::Unknown => ' ',
        }
    }

    /// The tag as a string of one character.
    pub fn to_string(&self) -> (s: String)
        ensures
            s@ == seq![self.symbol_of()],
    {
        let symbol = match self {
            FileType::File => "-",
            FileType::Dir => "d",
            FileType::Symlink => "l",
            FileType::BlockDevice => "b",
            FileType::CharDevice => "c",
            FileType::Pipe => "p",
            FileType::Socket => "s",
            FileType::Unknown => " ",
        };
        proof {
            reveal_strlit("-");
            reveal_strlit("d");
            reveal_strlit("l");
            reveal_strlit("b");
            reveal_strlit("c");
            reveal_strlit("p");
            reveal_strlit("s");
            reveal_strlit(" ");
            assert(symbol@ =~= seq![self.symbol_of()]);
        }
        String::from_str(symbol)
    }
}

impl From<TypeTag> for FileType {
    fn from(tag: TypeTag) -> (ft: FileType)
    {
        if tag.is_file {
            FileType::File
        } else if tag.is_dir {
            FileType::Dir
        } else if tag.is_symlink {
            FileType::Symlink
        } else if tag.is_block_device {
            FileType::BlockDevice
        } else if tag.is_char_device {
            FileType::CharDevice
        } else if tag.is_fifo {
            FileType::Pipe
        } else if tag.is_socket {
            FileType::Socket
        } else {
            FileType::Unknown
        }
    }
}

impl FromSpecImpl<TypeTag> for FileType {
    open spec fn obeys_from_spec() -> bool {
        true
    }

    open spec fn from_spec(tag: TypeTag) -> FileType {
        FileType::of(tag)
    }
}

/// The read, write and execute flags of one permission class.
#[derive(Debug, Clone, Copy, PartialEq, Eq, Structural)]
pub struct PermissionTriad {
    pub r: bool,
    pub w: bool,
    pub x: bool,
}

impl PermissionTriad {
    /// Each flag is set exactly when `mode` has a bit in common with the
    /// mask given for it.
    pub fn parse(mode: u32, read: u32, write: u32, execute: u32) -> (triad: Self)
        ensures
            triad.r == ((mode & read) != 0),
            triad.w == ((mode & write) != 0),
            triad.x == ((mode & execute) != 0),
    {
        let r = (mode & read) != 0;
        let w = (mode & write) != 0;
        let x = (mode & execute) != 0;
        PermissionTriad { r, w, x }
    }

    /// Three characters: `r`, `w`, `x` for a flag that is set, `-` for one
    /// that is not.
    pub open spec fn text(self) -> Seq<char> {
        seq![
            if self.r { 'r' } else { '-' },
            if self.w { 'w' } else { '-' },
            if self.x { 'x' } else { '-' },
        ]
    }

    pub fn to_string(&self) -> (s: String)
        ensures
            s@ == self.text(),
    {
        let r = if self.r { "r" } else { "-" };
        let w = if self.w { "w" } else { "-" };
        let x = if self.x { "x" } else { "-" };
        proof {
            reveal_strlit("r");
            reveal_strlit("w");
            reveal_strlit("x");
            reveal_strlit("-");
        }
        let mut s = String::from_str(r);
        s.append(w);
        s.append(x);
        assert(s@ =~= self.text());
        s
    }
}

/// The mode bit that lets the owner read.
pub const OWNER_READ: u32 = 0o400;

/// The mode bit that lets the owner write.
pub const OWNER_WRITE: u32 = 0o200;

/// The mode bit that lets the owner execute.
pub const OWNER_EXECUTE: u32 = 0o100;

/// The mode bit that lets the group read.
pub const GROUP_READ: u32 = 0o040;

/// The mode bit that lets the group write.
pub const GROUP_WRITE: u32 = 0o020;

/// The mode bit that lets the group execute.
pub const GROUP_EXECUTE: u32 = 0o010;

/// The mode bit that lets everyone else read.
pub const OTHERS_READ: u32 = 0o004;

/// The mode bit that lets everyone else write.
pub const OTHERS_WRITE: u32 = 0o002;

/// The mode bit that lets everyone else execute.
pub const OTHERS_EXECUTE: u32 = 0o001;

/// `libc::S_IRUSR`, which libc defines as octal 400.
#[verifier::external_body]
fn s_irusr() -> (bit: u32)
    ensures
        bit == OWNER_READ,
{
    libc::S_IRUSR as u32
}

/// `libc::S_IWUSR`, which libc defines as octal 200.
#[verifier::external_body]
fn s_iwusr() -> (bit: u32)
    ensures
        bit == OWNER_WRITE,
{
    libc::S_IWUSR as u32
}

/// `libc::S_IXUSR`, which libc defines as octal 100.
#[verifier::external_body]
fn s_ixusr() -> (bit: u32)
    ensures
        bit == OWNER_EXECUTE,
{
    libc::S_IXUSR as u32
}

/// `libc::S_IRGRP`, which libc defines as octal 40.
#[verifier::external_body]
fn s_irgrp() -> (bit: u32)
    ensures
        bit == GROUP_READ,
{
    libc::S_IRGRP as u32
}

/// `libc::S_IWGRP`, which libc defines as octal 20.
#[verifier::external_body]
fn s_iwgrp() -> (bit: u32)
    ensures
        bit == GROUP_WRITE,
{
    libc::S_IWGRP as u32
}

/// `libc::S_IXGRP`, which libc defines as octal 10.
#[verifier::external_body]
fn s_ixgrp() -> (bit: u32)
    ensures
        bit == GROUP_EXECUTE,
{
    libc::S_IXGRP as u32
}

/// `libc::S_IROTH`, which libc defines as octal 4.
#[verifier::external_body]
fn s_iroth() -> (bit: u32)
    ensures
        bit == OTHERS_READ,
{
    libc::S_IROTH as u32
}

/// `libc::S_IWOTH`, which libc defines as octal 2.
#[verifier::external_body]
fn s_iwoth() -> (bit: u32)
    ensures
        bit == OTHERS_WRITE,
{
    libc::S_IWOTH as u32
}

/// `libc::S_IXOTH`, which libc defines as octal 1.
#[verifier::external_body]
fn s_ixoth() -> (bit: u32)
    ensures
        bit == OTHERS_EXECUTE,
{
    libc::S_IXOTH as u32
}

/// The permission flags of the three classes, always in the order owner,
/// group, others.
#[derive(Debug, Clone, Copy, PartialEq, Eq, Structural)]
pub struct Permissions {
    pub owner: PermissionTriad,
    pub group: PermissionTriad,
    pub others: PermissionTriad,
}

impl Permissions {
    /// What a mode decodes to: each of the nine flags is the test of its
    /// own bit.
    pub open spec fn decode(mode: u32) -> Permissions {
        Permissions {
            owner: PermissionTriad {
                r: (mode & OWNER_READ) != 0,
                w: (mode & OWNER_WRITE) != 0,
                x: (mode & OWNER_EXECUTE) != 0,
            },
            group: PermissionTriad {
                r: (mode & GROUP_READ) != 0,
                w: (mode & GROUP_WRITE) != 0,
                x: (mode & GROUP_EXECUTE) != 0,
            },
            others: PermissionTriad {
                r: (mode & OTHERS_READ) != 0,
                w: (mode & OTHERS_WRITE) != 0,
                x: (mode & OTHERS_EXECUTE) != 0,
            },
        }
    }

    pub fn from_file_mode(mode: u32) -> (p: Self)
        ensures
            p == Permissions::decode(mode),
            p.owner.r == ((mode & OWNER_READ) != 0),
            p.owner.w == ((mode & OWNER_WRITE) != 0),
            p.owner.x == ((mode & OWNER_EXECUTE) != 0),
            p.group.r == ((mode & GROUP_READ) != 0),
            p.group.w == ((mode & GROUP_WRITE) != 0),
            p.group.x == ((mode & GROUP_EXECUTE) != 0),
            p.others.r == ((mode & OTHERS_READ) != 0),
            p.others.w == ((mode & OTHERS_WRITE) != 0),
            p.others.x == ((mode & OTHERS_EXECUTE) != 0),
    {
        let owner = PermissionTriad::parse(mode, s_irusr(), s_iwusr(), s_ixusr());
        let group = PermissionTriad::parse(mode, s_irgrp(), s_iwgrp(), s_ixgrp());
        let others = PermissionTriad::parse(mode, s_iroth(), s_iwoth(), s_ixoth());
        Permissions { owner, group, others }
    }

    /// Nine characters: the owner's three, then the group's, then the
    /// others'.
    pub open spec fn text(self) -> Seq<char> {
        self.owner.text() + self.group.text() + self.others.text()
    }

    pub fn to_string(&self) -> (s: String)
        ensures
            s@ == self.text(),
    {
        let mut s = self.owner.to_string();
        let group = self.group.to_string();
        let others = self.others.to_string();
        s.append(group.as_str());
        s.append(others.as_str());
        s
    }
}

/// A point in time of an entry: the seconds and nanoseconds since the
/// start of 1970 in universal time, and the same instant written in local
/// time as the listing shows it.
#[derive(Debug, Clone, PartialEq, Eq)]
pub struct Timestamp {
    pub secs: i64,
    pub nanos: u32,
    pub local: String,
}

/// A timestamp as a value of mathematics.
pub struct TimestampView {
    pub secs: i64,
    pub nanos: u32,
    pub local: Seq<char>,
}

impl View for Timestamp {
    type V = TimestampView;

    open spec fn view(&self) -> TimestampView {
        TimestampView { secs: self.secs, nanos: self.nanos, local: self.local@ }
    }
}

/// The nanoseconds in a second.
pub const NANOS_PER_SEC: u32 = 1_000_000_000;

/// A point in time as the file system reports it: its distance from the
/// start of 1970 in universal time, before or after. The nanoseconds are
/// below a second.
#[derive(Debug, Clone, Copy, PartialEq, Eq, Structural)]
pub struct RawTime {
    pub before_epoch: bool,
    pub secs: u64,
    pub nanos: u32,
}

impl RawTime {
    /// The point in time in nanoseconds since the start of 1970, negative
    /// before it.
    pub open spec fn nanos_since_epoch(self) -> int {
        if self.before_epoch {
            -(self.secs * NANOS_PER_SEC + self.nanos)
        } else {
            self.secs * NANOS_PER_SEC + self.nanos
        }
    }

    /// The whole seconds since the start of 1970, rounded down.
    pub open spec fn unix_secs(self) -> int {
        if !self.before_epoch {
            self.secs as int
        } else if self.nanos == 0 {
            -(self.secs as int)
        } else {
            -(self.secs as int) - 1
        }
    }

    /// The nanoseconds after the whole second.
    pub open spec fn unix_nanos(self) -> int {
        if !self.before_epoch || self.nanos == 0 {
            self.nanos as int
        } else {
            NANOS_PER_SEC - self.nanos
        }
    }

    /// Whether the time can be counted in the machine's seconds: its
    /// nanoseconds are below a second and its whole seconds fit.
    pub open spec fn representable(self) -> bool {
        self.nanos < NANOS_PER_SEC && i64::MIN <= self.unix_secs() <= i64::MAX
    }

    /// The time as whole seconds since the start of 1970, rounded down,
    /// and the nanoseconds after them; `None` where it cannot be counted so.
    pub fn unix_time(&self) -> (time: Option<(i64, u32)>)
        ensures
            time is Some <==> self.representable(),
            time matches Some((secs, nanos)) ==> {
                &&& secs == self.unix_secs()
                &&& nanos == self.unix_nanos()
                &&& nanos < NANOS_PER_SEC
                &&& secs * NANOS_PER_SEC + nanos == self.nanos_since_epoch()
            },
    {
        if self.nanos >= NANOS_PER_SEC {
            return None;
        }
        if !self.before_epoch {
            if self.secs > 0x7fff_ffff_ffff_ffff {
                return None;
            }
            Some((self.secs as i64, self.nanos))
        } else if self.nanos == 0 {
            if self.secs > 0x8000_0000_0000_0000 {
                return None;
            }
            if self.secs == 0x8000_0000_0000_0000 {
                return Some((i64::MIN, 0));
            }
            Some((-(self.secs as i64), 0))
        } else {
            if self.secs > 0x7fff_ffff_ffff_ffff {
                return None;
            }
            Some((-(self.secs as i64) - 1, NANOS_PER_SEC - self.nanos))
        }
    }
}

/// What the file system reports about one directory entry.
#[derive(Debug, Clone, PartialEq, Eq)]
pub struct RawEntry {
    /// The file name, or `None` where it is not valid UTF-8.
    pub name: Option<String>,
    pub type_tag: TypeTag,
    pub mode: u32,
    pub size: u64,
    pub inode: u64,
    pub blocks: u64,
    pub modified: RawTime,
    /// The time of the last access, or `None` where the file system keeps
    /// none.
    pub accessed: Option<RawTime>,
    /// The time of creation, or `None` where the file system keeps none.
    pub created: Option<RawTime>,
    pub num_hardlinks: u64,
    pub uid: u32,
    pub gid: u32,
}

/// What the lookups for one entry found: the owner's name, the group's
/// name, and each of the entry's times written in local time. `None` stands
/// for a lookup that found nothing.
#[derive(Debug, Clone, PartialEq, Eq)]
pub struct Resolved {
    pub user: Option<String>,
    pub group: Option<String>,
    pub modified_time: Option<String>,
    pub accessed_time: Option<String>,
    pub created_time: Option<String>,
}

/// One row of listing data. It is made once and not changed afterwards.
#[derive(Debug, Clone, PartialEq, Eq)]
pub struct Entry {
    pub name: String,
    pub file_type: FileType,
    pub permissions: Permissions,
    pub size: u64,
    pub inode: u64,
    pub blocks: u64,
    pub modified: Timestamp,
    /// The time of the last access, where the file system keeps one that
    /// has a local form.
    pub accessed: Option<Timestamp>,
    /// The time of creation, where the file system keeps one that has a
    /// local form.
    pub created: Option<Timestamp>,
    pub num_hardlinks: u64,
    pub user: String,
    pub group: String,
}

/// An entry as a value of mathematics: every field, with texts as
/// sequences of characters.
pub struct EntryView {
    pub name: Seq<char>,
    pub file_type: FileType,
    pub permissions: Permissions,
    pub size: u64,
    pub inode: u64,
    pub blocks: u64,
    pub modified: TimestampView,
    pub accessed: Option<TimestampView>,
    pub created: Option<TimestampView>,
    pub num_hardlinks: u64,
    pub user: Seq<char>,
    pub group: Seq<char>,
}

impl View for Entry {
    type V = EntryView;

    open spec fn view(&self) -> EntryView {
        EntryView {
            name: self.name@,
            file_type: self.file_type,
            permissions: self.permissions,
            size: self.size,
            inode: self.inode,
            blocks: self.blocks,
            modified: self.modified@,
            accessed: match self.accessed {
                Some(time) => Some(time@),
                None => None,
            },
            created: match self.created {
                Some(time) => Some(time@),
                None => None,
            },
            num_hardlinks: self.num_hardlinks,
            user: self.user@,
            group: self.group@,
        }
    }
}

/// `users::get_user_by_uid` and, of the user found, `User::name`. What
/// comes back depends on the machine's user database, so nothing is claimed
/// of it.
#[verifier::external_body]
fn user_name(uid: u32) -> (name: Option<String>)
{
    users::get_user_by_uid(uid).map(|user| user.name().to_string())
}

/// `users::get_group_by_gid` and, of the group found, `Group::name`. What
/// comes back depends on the machine's group database, so nothing is claimed
/// of it.
#[verifier::external_body]
fn group_name(gid: u32) -> (name: Option<String>)
{
    users::get_group_by_gid(gid).map(|group| group.name().to_string())
}

/// `chrono::TimeZone::timestamp_opt` on `chrono::Local`, and of the one
/// local time it gives `DateTime::format`, written out. `None` where chrono
/// has no single local time for the instant or cannot write it in the
/// pattern. What comes back depends on the machine's time zone, so nothing is
/// claimed of it.
#[verifier::external_body]
fn local_time_text(secs: i64, nanos: u32, pattern: &str) -> (text: Option<String>)
{
    let time = chrono::TimeZone::timestamp_opt(&chrono::Local, secs, nanos).single()?;
    let mut text = String::new();
    write!(text, "{}", time.format(pattern)).ok()?;
    Some(text)
}

/// The pattern in which the listing writes a time: the day in a field of
/// two, the month's short name, and hour and minute.
pub fn time_pattern() -> (pattern: &'static str)
    ensures
        pattern@ == "%_d %b %H:%M"@,
{
    "%_d %b %H:%M"
}

/// Looks up the local form of a time; `None` where the time cannot be
/// counted in seconds or has no local form.
fn local_text(time: &RawTime) -> (text: Option<String>)
    ensures
        !time.representable() ==> text is None,
{
    match time.unix_time() {
        Some((secs, nanos)) => local_time_text(secs, nanos, time_pattern()),
        None => None,
    }
}

/// The name shown for a raw entry: its own, or three question marks where
/// it has none that can be shown.
pub open spec fn shown_name(name: Option<String>) -> Seq<char> {
    match name {
        Some(name) => name@,
        None => seq!['?', '?', '?'],
    }
}

/// The timestamp that a raw time and its local form make: none where the
/// time cannot be counted in seconds or has no local form.
pub open spec fn stamped(time: RawTime, local: Option<String>) -> Option<TimestampView> {
    if time.representable() && local is Some {
        Some(
            TimestampView {
                secs: time.unix_secs() as i64,
                nanos: time.unix_nanos() as u32,
                local: local->0@,
            },
        )
    } else {
        None
    }
}

/// The timestamp of a time that an entry may lack: none where the entry
/// has no such time, or the time cannot be counted in seconds, or it has no
/// local form.
pub open spec fn stamped_if_kept(time: Option<RawTime>, local: Option<String>) -> Option<
    TimestampView,
> {
    match time {
        Some(time) => stamped(time, local),
        None => None,
    }
}

/// Makes a timestamp of a raw time and its local form.
pub fn stamp(time: &RawTime, local: &Option<String>) -> (made: Option<Timestamp>)
    ensures
        match stamped(*time, *local) {
            Some(view) => made matches Some(timestamp) && timestamp@ == view,
            None => made is None,
        },
{
    let (secs, nanos) = match time.unix_time() {
        Some(counted) => counted,
        None => {
            return None;
        },
    };
    match local {
        Some(text) => Some(Timestamp { secs, nanos, local: text.clone() }),
        None => None,
    }
}

impl Entry {
    /// What normalising a raw entry gives, for given results of the
    /// lookups. A modification time that cannot be counted in seconds, or has
    /// no local form, is a `TimeConversionFailed`; after that an owner without
    /// name, and after that a group without name, is a `ParseIdError`.
    /// Otherwise every field of the entry is fixed by the raw entry and what
    /// was found. The times of access and creation fail no entry: one that the
    /// file system does not keep, or that does not convert, is absent.
    pub open spec fn normalized(raw: RawEntry, found: Resolved) -> Result<EntryView, Error> {
        let modified = stamped(raw.modified, found.modified_time);
        if modified is None {
            Err(Error::TimeConversionFailed)
        } else if found.user is None {
            Err(Error::ParseIdError)
        } else if found.group is None {
            Err(Error::ParseIdError)
        } else {
            Ok(
                EntryView {
                    name: shown_name(raw.name),
                    file_type: FileType::of(raw.type_tag),
                    permissions: Permissions::decode(raw.mode),
                    size: raw.size,
                    inode: raw.inode,
                    blocks: raw.blocks,
                    modified: modified->0,
                    accessed: stamped_if_kept(raw.accessed, found.accessed_time),
                    created: stamped_if_kept(raw.created, found.created_time),
                    num_hardlinks: raw.num_hardlinks,
                    user: found.user->0@,
                    group: found.group->0@,
                },
            )
        }
    }

    /// Whether `result` is what normalising `raw` gives for the lookup
    /// results `found`.
    pub open spec fn is_outcome(raw: RawEntry, found: Resolved, result: Result<Entry, Error>) -> bool {
        match Entry::normalized(raw, found) {
            Ok(view) => result matches Ok(entry) && entry@ == view,
            Err(error) => result matches Err(e) && e == error,
        }
    }

    /// Whether the fields that do not depend on a lookup are those of
    /// `raw`.
    pub open spec fn agrees_with(self, raw: RawEntry) -> bool {
        &&& self.name@ == shown_name(raw.name)
        &&& self.file_type == FileType::of(raw.type_tag)
        &&& self.permissions == Permissions::decode(raw.mode)
        &&& self.size == raw.size
        &&& self.inode == raw.inode
        &&& self.blocks == raw.blocks
        &&& self.num_hardlinks == raw.num_hardlinks
        &&& raw.modified.representable()
        &&& self.modified.secs == raw.modified.unix_secs()
        &&& self.modified.nanos == raw.modified.unix_nanos()
        &&& (self.accessed matches Some(time) ==> raw.accessed matches Some(read)
            && read.representable() && time.secs == read.unix_secs() && time.nanos
            == read.unix_nanos())
        &&& (self.created matches Some(time) ==> raw.created matches Some(read)
            && read.representable() && time.secs == read.unix_secs() && time.nanos
            == read.unix_nanos())
    }

    /// Normalises a raw entry with lookup results that the caller supplies.
    pub fn from_parts(raw: &RawEntry, found: &Resolved) -> (result: Result<Entry, Error>)
        ensures
            Entry::is_outcome(*raw, *found, result),
    {
        let modified = match stamp(&raw.modified, &found.modified_time) {
            Some(time) => time,
            None => {
                return Err(Error::TimeConversionFailed);
            },
        };
        let accessed = match &raw.accessed {
            Some(time) => stamp(time, &found.accessed_time),
            None => None,
        };
        let created = match &raw.created {
            Some(time) => stamp(time, &found.created_time),
            None => None,
        };
        let user = match &found.user {
            Some(name) => name.clone(),
            None => {
                return Err(Error::ParseIdError);
            },
        };
        let group = match &found.group {
            Some(name) => name.clone(),
            None => {
                return Err(Error::ParseIdError);
            },
        };
        let name = match &raw.name {
            Some(name) => name.clone(),
            None => {
                proof {
                    reveal_strlit("???");
                    assert("???"@ =~= seq!['?', '?', '?']);
                }
                String::from_str("???")
            },
        };
        Ok(
            Entry {
                name,
                file_type: FileType::from(raw.type_tag),
                permissions: Permissions::from_file_mode(raw.mode),
                size: raw.size,
                inode: raw.inode,
                blocks: raw.blocks,
                modified,
                accessed,
                created,
                num_hardlinks: raw.num_hardlinks,
                user,
                group,
            },
        )
    }

    /// Normalises a raw entry: looks up the names of its owner and group
    /// and the local form of its times, and builds the entry from what was
    /// found. The result is the outcome for whatever the lookups gave; a
    /// modification time that cannot be counted in seconds fails the entry
    /// whatever they give.
    pub fn from_raw(raw: &RawEntry) -> (result: Result<Entry, Error>)
        ensures
            exists|found: Resolved| Entry::is_outcome(*raw, found, result),
            !raw.modified.representable() ==> result matches Err(Error::TimeConversionFailed),
            result matches Ok(entry) ==> entry.agrees_with(*raw),
            result matches Err(error) ==> error is TimeConversionFailed || error is ParseIdError,
    {
        let accessed_time = match &raw.accessed {
            Some(time) => local_text(time),
            None => None,
        };
        let created_time = match &raw.created {
            Some(time) => local_text(time),
            None => None,
        };
        let found = Resolved {
            user: user_name(raw.uid),
            group: group_name(raw.gid),
            modified_time: local_text(&raw.modified),
            accessed_time,
            created_time,
        };
        let result = Entry::from_parts(raw, &found);
        assert(Entry::is_outcome(*raw, found, result));
        result
    }

    /// The entry as one line: the type tag and the nine permission
    /// characters, then the link count, the owner, the group, the size moved
    /// to the right end of five characters, the modification time and the
    /// name, with one space before each.
    pub open spec fn line(self) -> Seq<char> {
        seq![self.file_type.symbol_of()] + self.permissions.text() + seq![' '] + decimal(
            self.num_hardlinks as nat,
        ) + seq![' '] + self.user@ + seq![' '] + self.group@ + seq![' '] + pad_left(
            decimal(self.size as nat),
            5,
        ) + seq![' '] + self.modified.local@ + seq![' '] + self.name@
    }

    /// Writes the entry as one line.
    pub fn to_string(&self) -> (s: String)
        ensures
            s@ == self.line(),
    {
        proof {
            reveal_strlit(" ");
            assert(" "@ =~= seq![' ']);
        }
        let mut s = self.file_type.to_string();
        let permissions = self.permissions.to_string();
        let links = decimal_string(self.num_hardlinks);
        let digits = decimal_string(self.size);
        let size = pad_left_string(digits.as_str(), 5);
        s.append(permissions.as_str());
        s.append(" ");
        s.append(links.as_str());
        s.append(" ");
        s.append(self.user.as_str());
        s.append(" ");
        s.append(self.group.as_str());
        s.append(" ");
        s.append(size.as_str());
        s.append(" ");
        s.append(self.modified.local.as_str());
        s.append(" ");
        s.append(self.name.as_str());
        s
    }
}

/// Normalising the same raw entry twice with the same lookup results gives
/// the same: two entries equal in every field, or the same error.
pub proof fn lemma_normalize_idempotent(
    raw: RawEntry,
    found: Resolved,
    first: Result<Entry, Error>,
    second: Result<Entry, Error>,
)
    requires
        Entry::is_outcome(raw, found, first),
        Entry::is_outcome(raw, found, second),
    ensures
        first is Ok <==> second is Ok,
        first is Ok ==> first->Ok_0@ == second->Ok_0@,
        first is Err ==> first->Err_0 == second->Err_0,
{
}

/// Normalises every raw entry with the lookup results beside it. One
/// entry that cannot be normalised fails the whole listing, with the error of
/// the first such entry; there is no partial result.
pub fn normalize_with(items: &Vec<(RawEntry, Resolved)>) -> (result: Result<Vec<Entry>, Error>)
    ensures
        result is Ok <==> forall|i: int|
            0 <= i < items.len() ==> (#[trigger] Entry::normalized(items[i].0, items[i].1)) is Ok,
        result matches Ok(entries) ==> {
            &&& entries.len() == items.len()
            &&& forall|i: int|
                0 <= i < items.len() ==> Entry::normalized(items[i].0, items[i].1) == Ok::<
                    EntryView,
                    Error,
                >((#[trigger] entries[i])@)
        },
        result matches Err(error) ==> exists|k: int|
            {
                &&& 0 <= k < items.len()
                &&& #[trigger] Entry::normalized(items[k].0, items[k].1) == Err::<EntryView, Error>(
                    error,
                )
                &&& forall|i: int|
                    0 <= i < k ==> (#[trigger] Entry::normalized(items[i].0, items[i].1)) is Ok
            },
{
    let mut entries: Vec<Entry> = Vec::new();
    let mut i: usize = 0;
    while i < items.len()
        invariant
            i <= items.len(),
            entries.len() == i,
            forall|k: int|
                0 <= k < i ==> Entry::normalized(items[k].0, items[k].1) == Ok::<EntryView, Error>(
                    (#[trigger] entries[k])@,
                ),
        decreases items.len() - i,
    {
        match Entry::from_parts(&items[i].0, &items[i].1) {
            Ok(entry) => {
                entries.push(entry);
            },
            Err(error) => {
                assert(Entry::normalized(items[i as int].0, items[i as int].1) == Err::<
                    EntryView,
                    Error,
                >(error));
                assert forall|k: int| 0 <= k < i implies (#[trigger] Entry::normalized(
                    items[k].0,
                    items[k].1,
                )) is Ok by {
                    assert(Entry::normalized(items[k].0, items[k].1) == Ok::<EntryView, Error>(
                        entries[k]@,
                    ));
                }
                return Err(error);
            },
        }
        i = i + 1;
    }
    assert forall|k: int| 0 <= k < items.len() implies (#[trigger] Entry::normalized(
        items[k].0,
        items[k].1,
    )) is Ok by {
        assert(Entry::normalized(items[k].0, items[k].1) == Ok::<EntryView, Error>(entries[k]@));
    }
    Ok(entries)
}

/// Normalises every raw entry, making the lookups for each. The first
/// entry that cannot be normalised fails the whole listing, with its error:
/// the error is what normalising that entry gives for some lookup results,
/// and every entry before it has a modification time that can be counted.
pub fn normalize_all(raws: &Vec<RawEntry>) -> (result: Result<Vec<Entry>, Error>)
    ensures
        result matches Ok(entries) ==> {
            &&& entries.len() == raws.len()
            &&& forall|i: int| 0 <= i < raws.len() ==> (#[trigger] entries[i]).agrees_with(raws[i])
        },
        result matches Err(error) ==> raws.len() > 0 && (error is TimeConversionFailed
            || error is ParseIdError),
        result matches Err(error) ==> exists|k: int, found: Resolved|
            {
                &&& 0 <= k < raws.len()
                &&& #[trigger] Entry::normalized(raws[k], found) == Err::<EntryView, Error>(error)
                &&& forall|i: int| 0 <= i < k ==> (#[trigger] raws[i]).modified.representable()
            },
{
    let mut entries: Vec<Entry> = Vec::new();
    let mut i: usize = 0;
    while i < raws.len()
        invariant
            i <= raws.len(),
            entries.len() == i,
            forall|k: int| 0 <= k < i ==> (#[trigger] entries[k]).agrees_with(raws[k]),
        decreases raws.len() - i,
    {
        match Entry::from_raw(&raws[i]) {
            Ok(entry) => {
                entries.push(entry);
            },
            Err(error) => {
                proof {
                    let found = choose|found: Resolved|
                        Entry::is_outcome(raws[i as int], found, Err::<Entry, Error>(error));
                    assert(Entry::normalized(raws[i as int], found) == Err::<EntryView, Error>(
                        error,
                    ));
                    assert forall|j: int| 0 <= j < i implies (
                    #[trigger] raws[j]).modified.representable() by {
                        assert(entries[j].agrees_with(raws[j]));
                    }
                }
                return Err(error);
            },
        }
        i = i + 1;
    }
    Ok(entries)
}

} // verus!
