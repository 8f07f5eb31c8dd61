//! Filesystem action DTOs of the public contract.
pub use crate::actor::filesystem::{
    ActorDirectoryEntry, DirEntryType, FileBytes, FileContentInput, FilesystemDirectoryEntry,
    FilesystemExport, FilesystemListMounts, FilesystemMkdir, FilesystemMove, FilesystemReadFile,
    FilesystemReadFiles, FilesystemReadResult, FilesystemReaddirRecursive, FilesystemRemove,
    FilesystemWriteEntry, FilesystemWriteFile, FilesystemWriteFiles, FilesystemWriteResult,
};
