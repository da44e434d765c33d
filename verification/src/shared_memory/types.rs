//! The plain values that the shared-memory protocols work on: modes and
//! permissions, the failures, what is asked of the operating system and what
//! it answers.

use vstd::prelude::*;
use crate::errno::Errno;

verus! {

/// How a segment may be accessed through a mapping.
#[derive(Clone, Copy, Debug, PartialEq, Eq, Structural)]
pub enum AccessMode {
    NoAccess,
    Read,
    Write,
    ReadWrite,
}

/// How `create` treats a segment that already exists.
#[derive(Clone, Copy, Debug, PartialEq, Eq, Structural)]
pub enum CreationMode {
    /// Create the segment; fail where one of that name exists.
    CreateExclusive,
    /// Remove a segment of that name, then create the segment.
    PurgeAndCreate,
    /// Open the segment of that name; create it where there is none.
    OpenOrCreate,
}

/// The permission bits of a file.
#[derive(Clone, Copy, Debug, PartialEq, Eq, Structural)]
pub struct Permission {
    pub bits: u32,
}

impl Permission {
    /// No permission at all.
    pub open spec fn spec_none() -> Permission {
        Permission { bits: 0 }
    }

    /// Read, write and execute for the owner, nothing for anyone else.
    pub open spec fn spec_owner_all() -> Permission {
        Permission { bits: 0o700 }
    }

    #[verifier::when_used_as_spec(spec_none)]
    pub fn none() -> (permission: Permission)
        ensures
            permission == Permission::spec_none(),
    {
        Permission { bits: 0 }
    }

    #[verifier::when_used_as_spec(spec_owner_all)]
    pub fn owner_all() -> (permission: Permission)
        ensures
            permission == Permission::spec_owner_all(),
    {
        Permission { bits: 0o700 }
    }
}

/// What the platform at hand is able to do.
#[derive(Clone, Copy, Debug, PartialEq, Eq, Structural)]
pub struct PlatformSupport {
    /// A segment outlives the last handle to it.
    pub persistent_shared_memory: bool,
    /// A signal raised by a memory access can be caught and reported.
    pub advanced_signal_handling: bool,
}

/// The size of a file could not be set.
#[derive(Clone, Copy, Debug, PartialEq, Eq, Structural)]
pub struct FileTruncateError {
    pub errno: Errno,
}

/// The attributes of a file could not be read.
#[derive(Clone, Copy, Debug, PartialEq, Eq, Structural)]
pub struct FileStatError {
    pub errno: Errno,
}

/// A range of memory could not be locked.
#[derive(Clone, Copy, Debug, PartialEq, Eq, Structural)]
pub struct MemoryLockCreationError {
    pub errno: Errno,
}

/// Why a segment could not be removed.
#[derive(Clone, Copy, Debug, PartialEq, Eq, Structural)]
pub enum SharedMemoryRemoveError {
    InsufficientPermissions,
    DoesNotExist,
    UnknownError(i32),
}

/// Why a segment could not be created or opened.
#[derive(Clone, Copy, Debug, PartialEq, Eq, Structural)]
pub enum SharedMemoryCreationError {
    SizeDoesNotFit,
    InsufficientMemory,
    InsufficientMemoryToBeMemoryLocked,
    UnsupportedSizeOfZero,
    InsufficientPermissions,
    MappedRegionLimitReached,
    PerProcessFileHandleLimitReached,
    SystemWideFileHandleLimitReached,
    NameTooLong,
    InvalidName,
    AlreadyExist,
    DoesNotExist,
    UnableToMapAtEnforcedBaseAddress,
    UnknownError(i32),
    FileTruncateError(FileTruncateError),
    FileStatError(FileStatError),
    MemoryLockCreationError(MemoryLockCreationError),
    SharedMemoryRemoveError(SharedMemoryRemoveError),
}

/// Whether the removal of a segment that is not there is a failure.
#[derive(Clone, Copy, Debug, PartialEq, Eq, Structural)]
pub enum UnlinkMode {
    QuietWhenNotExisting,
    PrintErrorWhenNotExisting,
}

/// One call that a protocol asks its driver to make. `Open` and `Unlink` act
/// on the path of the segment that the protocol is about.
#[derive(Clone, Copy, Debug, PartialEq, Eq, Structural)]
pub enum OsRequest {
    /// Open the segment; with `create_exclusive`, create it and fail where it
    /// exists.
    Open { access_mode: AccessMode, create_exclusive: bool, permission: Permission },
    /// Remove the name of the segment.
    Unlink,
    /// Map the first `size` bytes of the file, shared, wherever the system
    /// sees fit.
    MapMemory { file_descriptor: i32, size: usize, access_mode: AccessMode },
    /// Read the size of the file.
    Stat { file_descriptor: i32 },
    /// Set the size of the file.
    Truncate { file_descriptor: i32, size: usize },
    /// Lock the range into main memory.
    Lock { base_address: usize, size: usize },
    /// Fill the range with zeros; with `catch_signals`, report a signal that
    /// the access raises in place of dying of it.
    Zero { base_address: usize, size: usize, catch_signals: bool },
}

/// What the system made of a request.
#[allow(inconsistent_fields)]
#[derive(Clone, Copy, Debug, PartialEq, Eq, Structural)]
pub enum OsReply {
    Opened { file_descriptor: i32 },
    OpenFailed { errno: Errno },
    Unlinked,
    UnlinkFailed { errno: Errno },
    Mapped { base_address: usize },
    MapFailed { errno: Errno },
    Size { size: u64 },
    StatFailed { error: FileStatError },
    Truncated,
    TruncateFailed { error: FileTruncateError },
    Locked,
    LockFailed { error: MemoryLockCreationError },
    Zeroed,
    ZeroingInterrupted { signal: i32 },
}

/// Whether `reply` is an answer that `request` can get: the outcome of that
/// very call, a descriptor that is none of the invalid ones, an address that
/// is not null, a signal only where signals were to be caught.
pub open spec fn answers(request: OsRequest, reply: OsReply) -> bool {
    match request {
        OsRequest::Open { .. } => match reply {
            OsReply::Opened { file_descriptor } => file_descriptor >= 0,
            OsReply::OpenFailed { .. } => true,
            _ => false,
        },
        OsRequest::Unlink => reply is Unlinked || reply is UnlinkFailed,
        OsRequest::MapMemory { .. } => match reply {
            OsReply::Mapped { base_address } => base_address != 0,
            OsReply::MapFailed { .. } => true,
            _ => false,
        },
        OsRequest::Stat { .. } => reply is Size || reply is StatFailed,
        OsRequest::Truncate { .. } => reply is Truncated || reply is TruncateFailed,
        OsRequest::Lock { .. } => reply is Locked || reply is LockFailed,
        OsRequest::Zero { catch_signals, .. } => reply is Zeroed || (catch_signals
            && reply is ZeroingInterrupted),
    }
}

/// Tells whether `reply` is an answer that `request` can get.
pub fn is_answer(request: &OsRequest, reply: &OsReply) -> (fits: bool)
    ensures
        fits == answers(*request, *reply),
{
    match request {
        OsRequest::Open { .. } => match reply {
            OsReply::Opened { file_descriptor } => *file_descriptor >= 0,
            OsReply::OpenFailed { .. } => true,
            _ => false,
        },
        OsRequest::Unlink => match reply {
            OsReply::Unlinked => true,
            OsReply::UnlinkFailed { .. } => true,
            _ => false,
        },
        OsRequest::MapMemory { .. } => match reply {
            OsReply::Mapped { base_address } => *base_address != 0,
            OsReply::MapFailed { .. } => true,
            _ => false,
        },
        OsRequest::Stat { .. } => match reply {
            OsReply::Size { .. } => true,
            OsReply::StatFailed { .. } => true,
            _ => false,
        },
        OsRequest::Truncate { .. } => match reply {
            OsReply::Truncated => true,
            OsReply::TruncateFailed { .. } => true,
            _ => false,
        },
        OsRequest::Lock { .. } => match reply {
            OsReply::Locked => true,
            OsReply::LockFailed { .. } => true,
            _ => false,
        },
        OsRequest::Zero { catch_signals, .. } => match reply {
            OsReply::Zeroed => true,
            OsReply::ZeroingInterrupted { .. } => *catch_signals,
            _ => false,
        },
    }
}

} // verus!
