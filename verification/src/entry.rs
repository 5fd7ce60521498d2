//! The entry model: one filesystem object with its kind, permission bits and
//! optional metadata, decoded from the raw `st_mode` word that the directory
//! reader hands over.

use vstd::prelude::*;

verus! {

use vstd::string::StringExecFns;

/// The kind of a filesystem entry, as far as the browser distinguishes them.
#[derive(Debug, Clone, Copy, PartialEq, Eq, Structural)]
pub enum FileType {
    Directory,
    RegularFile,
    Other,
}

/// The nine permission bits of an entry, owner/group/other by
/// read/write/execute.
#[derive(Debug, Clone, Copy, PartialEq, Eq, Structural)]
pub struct FilePermissions {
    pub owner_read: bool,
    pub owner_write: bool,
    pub owner_exec: bool,
    pub group_read: bool,
    pub group_write: bool,
    pub group_exec: bool,
    pub other_read: bool,
    pub other_write: bool,
    pub other_exec: bool,
}

impl FileType {
    /// What kind the `st_mode` word of a stat call encodes: the file-type
    /// field is the topmost four of its lower sixteen bits.
    pub open spec fn of_mode(mode: u32) -> FileType {
        if mode & 0o170000 == 0o040000 {
            FileType::Directory
        } else if mode & 0o170000 == 0o100000 {
            FileType::RegularFile
        } else {
            FileType::Other
        }
    }

    pub fn new(mode: u32) -> (r: FileType)
        ensures
            r == FileType::of_mode(mode),
    {
        let masked = mode & 0o170000;
        if masked == 0o040000 {
            FileType::Directory
        } else if masked == 0o100000 {
            FileType::RegularFile
        } else {
            FileType::Other
        }
    }

    /// The one-character symbol that a long listing shows for this kind.
    pub open spec fn symbol_view(self) -> char {
        match self {
            FileType::Directory => 'd',
            FileType::RegularFile => '-',
            FileType::Other => '?',
        }
    }

    pub fn symbol(&self) -> (c: char)
        ensures
            c == self.symbol_view(),
    {
        match self {
            FileType::Directory => 'd',
            FileType::RegularFile => '-',
            FileType::Other => '?',
        }
    }
}

impl FilePermissions {
    /// Which permission flags the `st_mode` word of a stat call encodes, one
    /// bit per flag in the conventional octal positions.
    pub open spec fn of_mode(mode: u32) -> FilePermissions {
        FilePermissions {
            owner_read: mode & 0o400 != 0,
            owner_write: mode & 0o200 != 0,
            owner_exec: mode & 0o100 != 0,
            group_read: mode & 0o040 != 0,
            group_write: mode & 0o020 != 0,
            group_exec: mode & 0o010 != 0,
            other_read: mode & 0o004 != 0,
            other_write: mode & 0o002 != 0,
            other_exec: mode & 0o001 != 0,
        }
    }

    /// The nine-character `rwxrwxrwx` rendering of the flags, a dash for
    /// each flag that is off.
    pub open spec fn symbolic_view(self) -> Seq<char> {
        seq![
            if self.owner_read { 'r' } else { '-' },
            if self.owner_write { 'w' } else { '-' },
            if self.owner_exec { 'x' } else { '-' },
            if self.group_read { 'r' } else { '-' },
            if self.group_write { 'w' } else { '-' },
            if self.group_exec { 'x' } else { '-' },
            if self.other_read { 'r' } else { '-' },
            if self.other_write { 'w' } else { '-' },
            if self.other_exec { 'x' } else { '-' },
        ]
    }

    pub fn symbolic(&self) -> (r: String)
        ensures
            r@ == self.symbolic_view(),
    {
        let mut s = String::new();
        s.push(if self.owner_read { 'r' } else { '-' });
        s.push(if self.owner_write { 'w' } else { '-' });
        s.push(if self.owner_exec { 'x' } else { '-' });
        s.push(if self.group_read { 'r' } else { '-' });
        s.push(if self.group_write { 'w' } else { '-' });
        s.push(if self.group_exec { 'x' } else { '-' });
        s.push(if self.other_read { 'r' } else { '-' });
        s.push(if self.other_write { 'w' } else { '-' });
        s.push(if self.other_exec { 'x' } else { '-' });
        proof {
            assert(s@ =~= self.symbolic_view());
        }
        s
    }

    pub fn new(mode: u32) -> (r: FilePermissions)
        ensures
            r == FilePermissions::of_mode(mode),
    {
        FilePermissions {
            owner_read: mode & 0o400 != 0,
            owner_write: mode & 0o200 != 0,
            owner_exec: mode & 0o100 != 0,
            group_read: mode & 0o040 != 0,
            group_write: mode & 0o020 != 0,
            group_exec: mode & 0o010 != 0,
            other_read: mode & 0o004 != 0,
            other_write: mode & 0o002 != 0,
            other_exec: mode & 0o001 != 0,
        }
    }
}

/// The human-readable rendering of a byte count that the size formatter
/// produces: a function of the count alone.
pub uninterp spec fn human_size_of(n: u64) -> Seq<char>;

/// Relies on humansize's `FileSize::file_size` with the decimal options: the
/// rendering is computed from the byte count alone, and on an unsigned count
/// the call always succeeds.
#[verifier::external_body]
fn human_size(n: u64) -> (r: String)
    ensures
        r@ == human_size_of(n),
{
    match humansize::FileSize::file_size(&n, humansize::file_size_opts::DECIMAL) {
        Ok(s) => s,
        Err(_) => String::new(),
    }
}

/// Relies on chrono's `TimeZone::timestamp_opt` on the local zone and
/// `DateTime::format` with `"%b %e %T"`: renders seconds since the Unix
/// epoch as a local calendar time. The rendering depends on the machine's
/// time zone, so nothing is promised of the result.
#[verifier::external_body]
fn format_mod_time(secs: u64) -> (r: String) {
    match chrono::TimeZone::timestamp_opt(&chrono::Local, secs as i64, 0) {
        chrono::LocalResult::Single(dt) => format!("{}", dt.format("%b %e %T")),
        chrono::LocalResult::Ambiguous(dt, _) => format!("{}", dt.format("%b %e %T")),
        chrono::LocalResult::None => String::new(),
    }
}

/// The size line of the info panel: the formatter's rendering, or blank
/// where the reader got no size.
pub open spec fn size_view(s: Option<u64>) -> Seq<char> {
    match s {
        Option::Some(n) => human_size_of(n),
        Option::None => Seq::<char>::empty(),
    }
}

/// The mime line of the info panel: the detected type, or blank where no
/// detector supplied one.
pub open spec fn mime_view(m: Option<String>) -> Seq<char> {
    match m {
        Option::Some(s) => s@,
        Option::None => Seq::<char>::empty(),
    }
}

/// The first `k` lines joined for the preview panel, each followed by a
/// newline.
pub open spec fn joined_head(lines: Seq<Seq<char>>, k: int) -> Seq<char>
    decreases k,
{
    if k <= 0 {
        Seq::<char>::empty()
    } else {
        joined_head(lines, k - 1) + lines[k - 1] + seq!['\n']
    }
}

/// How many lines the preview shows of a file: its first ten.
pub open spec fn preview_line_count(total: int) -> int {
    if total > 10 {
        10
    } else {
        total
    }
}

/// One filesystem entry of the current listing: its name, kind, permission
/// bits, and the optional metadata the reader could retrieve. Listings are
/// produced fresh on every directory read and never mutated in place.
#[derive(Debug, Clone)]
pub struct FileData {
    pub name: String,
    pub file_type: FileType,
    pub permissions: FilePermissions,
    /// Modification time, as whole seconds since the Unix epoch.
    pub mod_time: Option<u64>,
    /// Size in bytes.
    pub file_size: Option<u64>,
    /// Mime type, where a detector supplied one.
    pub mime_type: Option<String>,
}

impl FileData {
    /// Builds the entry from the plain values a directory reader hands over:
    /// the name, the raw `st_mode` word, and whatever metadata it could get.
    pub fn new(
        name: String,
        mode: u32,
        mod_time: Option<u64>,
        file_size: Option<u64>,
        mime_type: Option<String>,
    ) -> (r: FileData)
        ensures
            r.name == name,
            r.file_type == FileType::of_mode(mode),
            r.permissions == FilePermissions::of_mode(mode),
            r.mod_time == mod_time,
            r.file_size == file_size,
            r.mime_type == mime_type,
    {
        FileData {
            name,
            file_type: FileType::new(mode),
            permissions: FilePermissions::new(mode),
            mod_time,
            file_size,
            mime_type,
        }
    }

    /// The info panel's text for this entry, around an already rendered
    /// modification-time string: the kind symbol and the permission flags,
    /// then the size, the time and the mime type on a line each.
    pub open spec fn info_view(self, time_str: Seq<char>) -> Seq<char> {
        seq![self.file_type.symbol_view()] + self.permissions.symbolic_view() + seq!['\n']
            + size_view(self.file_size) + seq!['\n'] + time_str + seq!['\n'] + mime_view(
            self.mime_type,
        )
    }

    /// Builds the info panel's text around the given modification-time
    /// string.
    pub fn info_with(&self, time_str: &str) -> (r: String)
        ensures
            r@ == self.info_view(time_str@),
    {
        let mut s = String::new();
        s.push(self.file_type.symbol());
        s.append(self.permissions.symbolic().as_str());
        s.push('\n');
        match &self.file_size {
            Some(n) => s.append(human_size(*n).as_str()),
            None => {},
        }
        s.push('\n');
        s.append(time_str);
        s.push('\n');
        match &self.mime_type {
            Some(m) => s.append(m.as_str()),
            None => {},
        }
        proof {
            assert(s@ =~= self.info_view(time_str@));
        }
        s
    }

    /// The info panel's text for this entry. The modification time is
    /// rendered in the machine's local time zone, so only the shape around
    /// it is pinned down; an entry without a time gets a blank time line.
    pub fn info(&self) -> (r: String)
        ensures
            exists|t: Seq<char>| r@ == self.info_view(t),
    {
        let time_str = match &self.mod_time {
            Some(secs) => format_mod_time(*secs),
            None => String::new(),
        };
        let r = self.info_with(time_str.as_str());
        proof {
            assert(r@ == self.info_view(time_str@));
        }
        r
    }

    /// The preview panel's text for this entry, from the lines a reader got
    /// of its content: a directory previews as a single blank, anything else
    /// as its first ten lines, each followed by a newline.
    pub fn preview(&self, lines: &Vec<String>) -> (r: String)
        ensures
            self.file_type == FileType::Directory ==> r@ == seq![' '],
            self.file_type != FileType::Directory ==> r@ == joined_head(
                lines.deep_view(),
                preview_line_count(lines@.len() as int),
            ),
    {
        if self.is_dir() {
            let mut s = String::new();
            s.push(' ');
            proof {
                assert(s@ =~= seq![' ']);
            }
            s
        } else {
            let k: usize = if lines.len() > 10 {
                10
            } else {
                lines.len()
            };
            let mut out = String::new();
            let mut i: usize = 0;
            while i < k
                invariant
                    i <= k,
                    k == preview_line_count(lines@.len() as int),
                    k <= lines@.len(),
                    out@ == joined_head(lines.deep_view(), i as int),
                decreases k - i,
            {
                out.append(lines[i].as_str());
                out.push('\n');
                proof {
                    assert(lines.deep_view()[i as int] == lines@[i as int]@);
                    assert(out@ =~= joined_head(lines.deep_view(), i as int + 1));
                }
                i = i + 1;
            }
            out
        }
    }

    pub fn is_dir(&self) -> (r: bool)
        ensures
            r == (self.file_type == FileType::Directory),
    {
        self.file_type == FileType::Directory
    }

    pub fn is_file(&self) -> (r: bool)
        ensures
            r == (self.file_type == FileType::RegularFile),
    {
        self.file_type == FileType::RegularFile
    }
}

} // verus!
