//! Hosted filesystem action DTOs and their transfer and collection bounds.
use vstd::prelude::*;
use vstd::string::StrSliceExecFns;

use crate::error::{fault, outcome, outcome_of, first_failure, scan, then, ActorError, ErrorCode, Outcome, Fault};
use crate::text::{appended, byte_len, decimal, owned, with_number};

verus! {

pub const MAX_PATH_BYTES: usize = 4 * 1024;
pub const MAX_BATCH_PATHS: usize = 128;
pub const MAX_TRANSFER_BYTES: usize = 768 * 1024;
pub const MAX_DIRECTORY_ENTRIES: usize = 4_096;
pub const MAX_DIRECTORY_RESULT_BYTES: usize = 512 * 1024;
pub const MAX_RECURSION_DEPTH: u32 = 64;

/// Raw bytes carried as a binary string on the wire.
#[derive(Debug, Clone, PartialEq, Eq)]
pub struct FileBytes(pub Vec<u8>);

/// File content supplied by a caller: UTF-8 text or raw bytes.
#[derive(Debug, Clone, PartialEq, Eq)]
pub enum FileContentInput {
    Text(String),
    Bytes(Vec<u8>),
}

/// Number of bytes the content occupies once written.
pub open spec fn content_bytes(content: FileContentInput) -> nat {
    match content {
        FileContentInput::Text(value) => byte_len(value@),
        FileContentInput::Bytes(value) => value@.len(),
    }
}

/// The bytes of content: the UTF-8 encoding of text, or the bytes given.
pub open spec fn content_data(content: FileContentInput) -> Seq<u8> {
    match content {
        FileContentInput::Text(value) => vstd::utf8::encode_utf8(value@),
        FileContentInput::Bytes(value) => value@,
    }
}

impl FileContentInput {
    /// The content as bytes.
    pub fn into_bytes(self) -> (b: Vec<u8>)
        ensures
            b@ == content_data(self),
    {
        match self {
            FileContentInput::Text(value) => value.as_str().as_bytes_vec(),
            FileContentInput::Bytes(value) => value,
        }
    }

    /// Number of bytes the content occupies once written.
    pub fn byte_len(&self) -> (n: usize)
        ensures
            n == content_bytes(*self),
    {
        match self {
            FileContentInput::Text(value) => value.as_str().len(),
            FileContentInput::Bytes(value) => value.len(),
        }
    }
}


// ---------------------------------------------------------------------------
// DTOs
// ---------------------------------------------------------------------------

/// Read one file, up to `max_bytes` (the transfer limit when omitted).
#[derive(Debug, Clone, PartialEq, Eq)]
pub struct FilesystemReadFile {
    pub path: String,
    pub max_bytes: Option<usize>,
}

/// Write one file.
#[derive(Debug, Clone, PartialEq, Eq)]
pub struct FilesystemWriteFile {
    pub path: String,
    pub content: FileContentInput,
}

/// Read several files, together up to `max_bytes`.
#[derive(Debug, Clone, PartialEq, Eq)]
pub struct FilesystemReadFiles {
    pub paths: Vec<String>,
    pub max_bytes: Option<usize>,
}

/// One file of a batch read: its content or why it could not be read.
#[derive(Debug, Clone, PartialEq, Eq)]
pub struct FilesystemReadResult {
    pub path: String,
    pub content: Option<FileBytes>,
    pub error: Option<String>,
}

/// Write several files.
#[derive(Debug, Clone, PartialEq, Eq)]
pub struct FilesystemWriteFiles {
    pub entries: Vec<FilesystemWriteEntry>,
}

/// One file of a batch write.
#[derive(Debug, Clone, PartialEq, Eq)]
pub struct FilesystemWriteEntry {
    pub path: String,
    pub content: FileContentInput,
}

/// One file of a batch write: whether it was written.
#[derive(Debug, Clone, PartialEq, Eq)]
pub struct FilesystemWriteResult {
    pub path: String,
    pub success: bool,
    pub error: Option<String>,
}

/// Create a directory.
#[derive(Debug, Clone, PartialEq, Eq)]
pub struct FilesystemMkdir {
    pub path: String,
    pub recursive: bool,
}

/// One entry of a directory listing.
#[derive(Debug, Clone, PartialEq, Eq)]
pub struct FilesystemDirectoryEntry {
    pub name: String,
    pub is_directory: bool,
    pub is_symbolic_link: bool,
}

/// List a directory tree, down to `max_depth`, skipping `exclude`.
#[derive(Debug, Clone, PartialEq, Eq)]
pub struct FilesystemReaddirRecursive {
    pub path: String,
    pub max_depth: Option<u32>,
    pub exclude: Vec<String>,
}

/// What a directory tree entry is.
#[derive(Debug, Clone, Copy, PartialEq, Eq, Structural)]
pub enum DirEntryType {
    File,
    Directory,
    Symlink,
}

/// One entry of a directory tree, with its size in bytes.
#[derive(Debug, Clone, PartialEq, Eq)]
pub struct ActorDirectoryEntry {
    pub path: String,
    pub entry_type: DirEntryType,
    pub size_bytes: u64,
}

/// One directory tree entry as the VM reports it.
#[derive(Debug, Clone, PartialEq, Eq)]
pub struct DirEntry {
    pub path: String,
    pub entry_type: DirEntryType,
    pub size: u64,
}

impl From<DirEntry> for ActorDirectoryEntry {
    fn from(entry: DirEntry) -> (r: Self) {
        ActorDirectoryEntry { path: entry.path, entry_type: entry.entry_type, size_bytes: entry.size }
    }
}

impl vstd::std_specs::convert::FromSpecImpl<DirEntry> for ActorDirectoryEntry {
    open spec fn obeys_from_spec() -> bool {
        true
    }

    open spec fn from_spec(entry: DirEntry) -> Self {
        ActorDirectoryEntry { path: entry.path, entry_type: entry.entry_type, size_bytes: entry.size }
    }
}

/// File metadata as the VM reports it. Times are milliseconds, carried as
/// the bit patterns of their IEEE-754 values.
#[derive(Debug, Clone, Copy, PartialEq, Eq, Structural)]
pub struct VirtualStat {
    pub mode: u32,
    pub size: u64,
    pub blocks: u64,
    pub dev: u64,
    pub rdev: u64,
    pub is_directory: bool,
    pub is_symbolic_link: bool,
    pub atime_ms: u64,
    pub mtime_ms: u64,
    pub ctime_ms: u64,
    pub birthtime_ms: u64,
    pub ino: u64,
    pub nlink: u64,
    pub uid: u32,
    pub gid: u32,
}

/// File metadata returned to the caller, with its size in bytes. Times are
/// milliseconds, carried as the bit patterns of their IEEE-754 values.
#[derive(Debug, Clone, Copy, PartialEq, Eq, Structural)]
pub struct ActorFileStat {
    pub mode: u32,
    pub size_bytes: u64,
    pub blocks: u64,
    pub dev: u64,
    pub rdev: u64,
    pub is_directory: bool,
    pub is_symbolic_link: bool,
    pub atime_ms: u64,
    pub mtime_ms: u64,
    pub ctime_ms: u64,
    pub birthtime_ms: u64,
    pub ino: u64,
    pub nlink: u64,
    pub uid: u32,
    pub gid: u32,
}

/// The public metadata of reported metadata: every field carried over, the
/// size named in bytes.
pub open spec fn public_stat(stat: VirtualStat) -> ActorFileStat {
    ActorFileStat {
        mode: stat.mode,
        size_bytes: stat.size,
        blocks: stat.blocks,
        dev: stat.dev,
        rdev: stat.rdev,
        is_directory: stat.is_directory,
        is_symbolic_link: stat.is_symbolic_link,
        atime_ms: stat.atime_ms,
        mtime_ms: stat.mtime_ms,
        ctime_ms: stat.ctime_ms,
        birthtime_ms: stat.birthtime_ms,
        ino: stat.ino,
        nlink: stat.nlink,
        uid: stat.uid,
        gid: stat.gid,
    }
}

impl From<VirtualStat> for ActorFileStat {
    fn from(stat: VirtualStat) -> (r: Self) {
        ActorFileStat {
            mode: stat.mode,
            size_bytes: stat.size,
            blocks: stat.blocks,
            dev: stat.dev,
            rdev: stat.rdev,
            is_directory: stat.is_directory,
            is_symbolic_link: stat.is_symbolic_link,
            atime_ms: stat.atime_ms,
            mtime_ms: stat.mtime_ms,
            ctime_ms: stat.ctime_ms,
            birthtime_ms: stat.birthtime_ms,
            ino: stat.ino,
            nlink: stat.nlink,
            uid: stat.uid,
            gid: stat.gid,
        }
    }
}

impl vstd::std_specs::convert::FromSpecImpl<VirtualStat> for ActorFileStat {
    open spec fn obeys_from_spec() -> bool {
        true
    }

    open spec fn from_spec(stat: VirtualStat) -> Self {
        public_stat(stat)
    }
}

/// Move a path.
#[derive(Debug, Clone, PartialEq, Eq)]
pub struct FilesystemMove {
    pub from: String,
    pub to: String,
}

/// Remove a path.
#[derive(Debug, Clone, PartialEq, Eq)]
pub struct FilesystemRemove {
    pub path: String,
    pub recursive: bool,
}

/// Export the filesystem, up to `max_bytes`.
#[derive(Debug, Clone, PartialEq, Eq)]
pub struct FilesystemExport {
    pub max_bytes: Option<usize>,
}

/// List the mounts; it takes no input.
#[derive(Debug, Clone, Copy, PartialEq, Eq, Structural)]
pub struct FilesystemListMounts {}

// ---------------------------------------------------------------------------
// Bounds
// ---------------------------------------------------------------------------

/// A transfer limit: the requested one, or the maximum when none is requested.
pub open spec fn transfer_limit_spec(requested: Option<usize>) -> Result<usize, Fault> {
    let limit = match requested { Some(l) => l, None => MAX_TRANSFER_BYTES };
    if limit == 0 || limit > MAX_TRANSFER_BYTES {
        Err(fault(ErrorCode::LimitExceeded, "maxBytes must be between 1 and 786432; large-file streaming is not implemented"@))
    } else {
        Ok(limit)
    }
}

/// A path or name of 1 to 4096 bytes.
pub open spec fn check_string(label: Seq<char>, value: Seq<char>) -> Outcome {
    if value.len() == 0 || byte_len(value) > MAX_PATH_BYTES {
        Err(fault(ErrorCode::LimitExceeded, label + " must contain 1..=4096 bytes; reduce the value"@))
    } else {
        Ok(())
    }
}

/// A collection of at most `limit` items.
pub open spec fn check_count(label: Seq<char>, actual: nat, limit: nat) -> Outcome {
    if actual > limit {
        Err(fault(ErrorCode::LimitExceeded, label + " is "@ + decimal(actual) + ", limit is "@ + decimal(limit) + "; reduce the collection"@))
    } else {
        Ok(())
    }
}

/// A payload of at most `limit` bytes.
pub open spec fn check_bytes(label: Seq<char>, actual: nat, limit: nat) -> Outcome {
    if actual > limit {
        Err(fault(ErrorCode::LimitExceeded, label + " is "@ + decimal(actual) + " bytes, limit is "@ + decimal(limit) + "; reduce the payload"@))
    } else {
        Ok(())
    }
}

/// A batch of at most 128 paths, each of 1 to 4096 bytes.
pub open spec fn check_paths(paths: Seq<String>) -> Outcome {
    then(check_count("filesystem path count"@, paths.len(), MAX_BATCH_PATHS as nat),
        first_failure(paths.len() as int, |i: int| check_string("filesystem path"@, paths[i]@)))
}

/// The transfer limit a request asks for: the requested one, or the maximum.
pub fn transfer_limit(requested: Option<usize>) -> (r: Result<usize, ActorError>)
    ensures
        outcome_of(r, |n: usize| n) == transfer_limit_spec(requested),
{
    let limit = match requested {
        Some(l) => l,
        None => MAX_TRANSFER_BYTES,
    };
    if limit == 0 || limit > MAX_TRANSFER_BYTES {
        return Err(ActorError::new(ErrorCode::LimitExceeded, owned("maxBytes must be between 1 and 786432; large-file streaming is not implemented")));
    }
    Ok(limit)
}

/// Rejects an empty or oversized path or name.
pub fn validate_string(label: &str, value: &str) -> (r: Result<(), ActorError>)
    ensures
        outcome(r) == check_string(label@, value@),
{
    if value.unicode_len() == 0 || value.len() > MAX_PATH_BYTES {
        let body = appended(owned(label), " must contain 1..=4096 bytes; reduce the value");
        return Err(ActorError::new(ErrorCode::LimitExceeded, body));
    }
    Ok(())
}

/// Rejects an empty or oversized path.
pub fn validate_path(path: &str) -> (r: Result<(), ActorError>)
    ensures
        outcome(r) == check_string("filesystem path"@, path@),
{
    validate_string("filesystem path", path)
}

/// Rejects a collection larger than `limit`.
pub fn validate_count(label: &str, actual: usize, limit: usize) -> (r: Result<(), ActorError>)
    ensures
        outcome(r) == check_count(label@, actual as nat, limit as nat),
{
    if actual > limit {
        let head = with_number(appended(owned(label), " is "), actual, ", limit is ");
        let body = with_number(head, limit, "; reduce the collection");
        return Err(ActorError::new(ErrorCode::LimitExceeded, body));
    }
    Ok(())
}

/// Rejects a payload larger than `limit` bytes.
pub fn validate_bytes(label: &str, actual: usize, limit: usize) -> (r: Result<(), ActorError>)
    ensures
        outcome(r) == check_bytes(label@, actual as nat, limit as nat),
{
    if actual > limit {
        let head = with_number(appended(owned(label), " is "), actual, " bytes, limit is ");
        let body = with_number(head, limit, "; reduce the payload");
        return Err(ActorError::new(ErrorCode::LimitExceeded, body));
    }
    Ok(())
}

/// Rejects a batch of more than 128 paths or with an empty or oversized path.
pub fn validate_paths(paths: &[String]) -> (r: Result<(), ActorError>)
    ensures
        outcome(r) == check_paths(paths@),
{
    let c = validate_count("filesystem path count", paths.len(), MAX_BATCH_PATHS);
    if c.is_err() {
        return c;
    }
    let ghost check = |i: int| check_string("filesystem path"@, paths@[i]@);
    let n = paths.len();
    let mut i: usize = 0;
    while i < n
        invariant
            n == paths@.len(),
            i <= n,
            check == (|i: int| check_string("filesystem path"@, paths@[i]@)),
            check_paths(paths@) == first_failure(n as int, check),
            first_failure(n as int, check) == scan(n as int, check, i as int),
        decreases n - i,
    {
        let r = validate_path(paths[i].as_str());
        if r.is_err() {
            return r;
        }
        i += 1;
    }
    Ok(())
}

/// A directory result of at most 4096 entries whose paths hold at most
/// 512 KiB together.
pub open spec fn check_directory_output(entry_count: nat, encoded_name_bytes: nat) -> Outcome {
    then(check_count("filesystem directory result entries"@, entry_count, MAX_DIRECTORY_ENTRIES as nat),
        check_bytes("filesystem directory result paths"@, encoded_name_bytes, MAX_DIRECTORY_RESULT_BYTES as nat))
}

/// Rejects a directory result with too many entries or too many path bytes.
pub fn validate_directory_output(entry_count: usize, encoded_name_bytes: usize) -> (r: Result<(), ActorError>)
    ensures
        outcome(r) == check_directory_output(entry_count as nat, encoded_name_bytes as nat),
{
    let c = validate_count("filesystem directory result entries", entry_count, MAX_DIRECTORY_ENTRIES);
    if c.is_err() {
        return c;
    }
    validate_bytes("filesystem directory result paths", encoded_name_bytes, MAX_DIRECTORY_RESULT_BYTES)
}

/// A recursive listing request: a valid root, a depth within 64, and at most
/// 128 valid exclusions.
pub open spec fn check_readdir_recursive(path: Seq<char>, max_depth: Option<u32>, exclude: Seq<String>) -> Outcome {
    then(check_string("filesystem path"@, path),
    if max_depth matches Some(d) && d > MAX_RECURSION_DEPTH {
        Err(fault(ErrorCode::LimitExceeded, "filesystem.readdirRecursive maxDepth exceeds 64; lower maxDepth"@))
    } else {
        then(check_count("filesystem.readdirRecursive exclude"@, exclude.len(), MAX_BATCH_PATHS as nat),
            first_failure(exclude.len() as int, |i: int| check_string("filesystem.readdirRecursive exclude entry"@, exclude[i]@)))
    })
}

impl FilesystemReaddirRecursive {
    /// Checks the request before the tree is listed.
    pub fn validate(&self) -> (r: Result<(), ActorError>)
        ensures
            outcome(r) == check_readdir_recursive(self.path@, self.max_depth, self.exclude@),
    {
        let r = validate_path(self.path.as_str());
        if r.is_err() {
            return r;
        }
        if let Some(d) = self.max_depth {
            if d > MAX_RECURSION_DEPTH {
                return Err(ActorError::new(ErrorCode::LimitExceeded, owned("filesystem.readdirRecursive maxDepth exceeds 64; lower maxDepth")));
            }
        }
        let c = validate_count("filesystem.readdirRecursive exclude", self.exclude.len(), MAX_BATCH_PATHS);
        if c.is_err() {
            return c;
        }
        let ghost check = |i: int| check_string("filesystem.readdirRecursive exclude entry"@, self.exclude@[i]@);
        let n = self.exclude.len();
        let mut i: usize = 0;
        while i < n
            invariant
                n == self.exclude@.len(),
                i <= n,
                check == (|i: int| check_string("filesystem.readdirRecursive exclude entry"@, self.exclude@[i]@)),
                check_readdir_recursive(self.path@, self.max_depth, self.exclude@) == first_failure(n as int, check),
                first_failure(n as int, check) == scan(n as int, check, i as int),
            decreases n - i,
        {
            let r = validate_string("filesystem.readdirRecursive exclude entry", self.exclude[i].as_str());
            if r.is_err() {
                return r;
            }
            i += 1;
        }
        Ok(())
    }
}

/// The entries of a batch write from `i` on, checked in order: each path
/// must be valid and the running content total, starting at `total`, must fit
/// a `usize`; the result is the final total.
pub open spec fn write_scan(entries: Seq<FilesystemWriteEntry>, i: int, total: nat) -> Result<nat, Fault>
    decreases entries.len() - i,
{
    if i < 0 || i >= entries.len() {
        Ok(total)
    } else {
        match check_string("filesystem path"@, entries[i].path@) {
            Err(f) => Err(f),
            Ok(()) => if total + content_bytes(entries[i].content) > usize::MAX {
                Err(fault(ErrorCode::LimitExceeded, "filesystem.writeFiles byte count overflow"@))
            } else {
                write_scan(entries, i + 1, total + content_bytes(entries[i].content))
            },
        }
    }
}

/// A batch write: at most 128 entries, each with a valid path, whose content
/// fits the transfer limit together.
pub open spec fn check_write_entries(entries: Seq<FilesystemWriteEntry>) -> Outcome {
    then(check_count("filesystem.writeFiles entries"@, entries.len(), MAX_BATCH_PATHS as nat),
        match write_scan(entries, 0, 0) {
            Err(f) => Err(f),
            Ok(total) => check_bytes("filesystem.writeFiles content"@, total, MAX_TRANSFER_BYTES as nat),
        })
}

impl FilesystemWriteFiles {
    /// Checks a batch write before any file is written.
    #[verifier::loop_isolation(false)]
    pub fn validate(&self) -> (r: Result<(), ActorError>)
        ensures
            outcome(r) == check_write_entries(self.entries@),
    {
        let c = validate_count("filesystem.writeFiles entries", self.entries.len(), MAX_BATCH_PATHS);
        if c.is_err() {
            return c;
        }
        let n = self.entries.len();
        let mut total: usize = 0;
        let mut i: usize = 0;
        while i < n
            invariant
                n == self.entries@.len(),
                i <= n,
                write_scan(self.entries@, 0, 0) == write_scan(self.entries@, i as int, total as nat),
            decreases n - i,
        {
            let r = validate_path(self.entries[i].path.as_str());
            if r.is_err() {
                return r;
            }
            let add = self.entries[i].content.byte_len();
            match total.checked_add(add) {
                None => {
                    return Err(ActorError::new(ErrorCode::LimitExceeded, owned("filesystem.writeFiles byte count overflow")));
                },
                Some(t) => {
                    total = t;
                },
            }
            i += 1;
        }
        validate_bytes("filesystem.writeFiles content", total, MAX_TRANSFER_BYTES)
    }
}

} // verus!
