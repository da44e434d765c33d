//! From what a system call answered to the failure that the caller is told.
//! Each table belongs to one call.

use vstd::prelude::*;
use crate::errno::{Errno, ErrnoKind};
use crate::shared_memory::types::{
    AccessMode,
    OsReply,
    OsRequest,
    Permission,
    SharedMemoryCreationError,
    SharedMemoryRemoveError,
    UnlinkMode,
};

verus! {

/// Why opening an existing segment failed.
pub open spec fn open_failure(errno: Errno) -> SharedMemoryCreationError {
    match errno.kind {
        ErrnoKind::ENOENT => SharedMemoryCreationError::DoesNotExist,
        ErrnoKind::EACCES => SharedMemoryCreationError::InsufficientPermissions,
        ErrnoKind::EINVAL => SharedMemoryCreationError::InvalidName,
        ErrnoKind::EMFILE => SharedMemoryCreationError::PerProcessFileHandleLimitReached,
        ErrnoKind::ENFILE => SharedMemoryCreationError::SystemWideFileHandleLimitReached,
        ErrnoKind::ENAMETOOLONG => SharedMemoryCreationError::NameTooLong,
        _ => SharedMemoryCreationError::UnknownError(errno.code),
    }
}

/// Why creating a segment that must not exist yet failed.
pub open spec fn create_failure(errno: Errno) -> SharedMemoryCreationError {
    match errno.kind {
        ErrnoKind::EACCES => SharedMemoryCreationError::InsufficientPermissions,
        ErrnoKind::EINVAL => SharedMemoryCreationError::InvalidName,
        ErrnoKind::EEXIST => SharedMemoryCreationError::AlreadyExist,
        ErrnoKind::EMFILE => SharedMemoryCreationError::PerProcessFileHandleLimitReached,
        ErrnoKind::ENFILE => SharedMemoryCreationError::SystemWideFileHandleLimitReached,
        ErrnoKind::ENAMETOOLONG => SharedMemoryCreationError::NameTooLong,
        _ => SharedMemoryCreationError::UnknownError(errno.code),
    }
}

/// Why mapping a segment failed. `EAGAIN` tells that all mappings of the
/// process are to be locked and this one cannot be; `EINVAL` that the size
/// is zero.
pub open spec fn map_failure(errno: Errno) -> SharedMemoryCreationError {
    match errno.kind {
        ErrnoKind::EAGAIN => SharedMemoryCreationError::InsufficientMemoryToBeMemoryLocked,
        ErrnoKind::EINVAL => SharedMemoryCreationError::UnsupportedSizeOfZero,
        ErrnoKind::EMFILE => SharedMemoryCreationError::MappedRegionLimitReached,
        _ => SharedMemoryCreationError::UnknownError(errno.code),
    }
}

/// What the removal of a name comes to. That the name is not there is a
/// failure only in the mode that says so.
pub open spec fn unlink_outcome(reply: OsReply, mode: UnlinkMode) -> Result<
    (),
    SharedMemoryRemoveError,
> {
    match reply {
        OsReply::UnlinkFailed { errno } => match errno.kind {
            ErrnoKind::EACCES => Err(SharedMemoryRemoveError::InsufficientPermissions),
            ErrnoKind::ENOENT => if mode == UnlinkMode::PrintErrorWhenNotExisting {
                Err(SharedMemoryRemoveError::DoesNotExist)
            } else {
                Ok(())
            },
            _ => Err(SharedMemoryRemoveError::UnknownError(errno.code)),
        },
        _ => Ok(()),
    }
}

/// The request that opens an existing segment.
pub open spec fn open_request(access_mode: AccessMode) -> OsRequest {
    OsRequest::Open { access_mode, create_exclusive: false, permission: Permission::none() }
}

/// The request that creates a segment that must not exist yet.
pub open spec fn create_request(access_mode: AccessMode, permission: Permission) -> OsRequest {
    OsRequest::Open { access_mode, create_exclusive: true, permission }
}

/// The descriptor of the opened segment, or why there is none.
pub fn shm_open(reply: OsReply) -> (result: Result<i32, SharedMemoryCreationError>)
    requires
        reply is Opened || reply is OpenFailed,
    ensures
        reply matches OsReply::Opened { file_descriptor } ==> result == Ok::<
            i32,
            SharedMemoryCreationError,
        >(file_descriptor),
        reply matches OsReply::OpenFailed { errno } ==> result == Err::<
            i32,
            SharedMemoryCreationError,
        >(open_failure(errno)),
{
    match reply {
        OsReply::Opened { file_descriptor } => Ok(file_descriptor),
        OsReply::OpenFailed { errno } => Err(
            match errno.kind {
                ErrnoKind::ENOENT => SharedMemoryCreationError::DoesNotExist,
                ErrnoKind::EACCES => SharedMemoryCreationError::InsufficientPermissions,
                ErrnoKind::EINVAL => SharedMemoryCreationError::InvalidName,
                ErrnoKind::EMFILE => SharedMemoryCreationError::PerProcessFileHandleLimitReached,
                ErrnoKind::ENFILE => SharedMemoryCreationError::SystemWideFileHandleLimitReached,
                ErrnoKind::ENAMETOOLONG => SharedMemoryCreationError::NameTooLong,
                _ => SharedMemoryCreationError::UnknownError(errno.code),
            },
        ),
        _ => Err(SharedMemoryCreationError::UnknownError(0)),
    }
}

/// The descriptor of the created segment, or why there is none.
pub fn shm_create(reply: OsReply) -> (result: Result<i32, SharedMemoryCreationError>)
    requires
        reply is Opened || reply is OpenFailed,
    ensures
        reply matches OsReply::Opened { file_descriptor } ==> result == Ok::<
            i32,
            SharedMemoryCreationError,
        >(file_descriptor),
        reply matches OsReply::OpenFailed { errno } ==> result == Err::<
            i32,
            SharedMemoryCreationError,
        >(create_failure(errno)),
{
    match reply {
        OsReply::Opened { file_descriptor } => Ok(file_descriptor),
        OsReply::OpenFailed { errno } => Err(
            match errno.kind {
                ErrnoKind::EACCES => SharedMemoryCreationError::InsufficientPermissions,
                ErrnoKind::EINVAL => SharedMemoryCreationError::InvalidName,
                ErrnoKind::EEXIST => SharedMemoryCreationError::AlreadyExist,
                ErrnoKind::EMFILE => SharedMemoryCreationError::PerProcessFileHandleLimitReached,
                ErrnoKind::ENFILE => SharedMemoryCreationError::SystemWideFileHandleLimitReached,
                ErrnoKind::ENAMETOOLONG => SharedMemoryCreationError::NameTooLong,
                _ => SharedMemoryCreationError::UnknownError(errno.code),
            },
        ),
        _ => Err(SharedMemoryCreationError::UnknownError(0)),
    }
}

/// The address of the mapping, or why there is none.
pub fn mmap(reply: OsReply) -> (result: Result<usize, SharedMemoryCreationError>)
    requires
        reply is Mapped || reply is MapFailed,
    ensures
        reply matches OsReply::Mapped { base_address } ==> result == Ok::<
            usize,
            SharedMemoryCreationError,
        >(base_address),
        reply matches OsReply::MapFailed { errno } ==> result == Err::<
            usize,
            SharedMemoryCreationError,
        >(map_failure(errno)),
{
    match reply {
        OsReply::Mapped { base_address } => Ok(base_address),
        OsReply::MapFailed { errno } => Err(
            match errno.kind {
                ErrnoKind::EAGAIN => SharedMemoryCreationError::InsufficientMemoryToBeMemoryLocked,
                ErrnoKind::EINVAL => SharedMemoryCreationError::UnsupportedSizeOfZero,
                ErrnoKind::EMFILE => SharedMemoryCreationError::MappedRegionLimitReached,
                _ => SharedMemoryCreationError::UnknownError(errno.code),
            },
        ),
        _ => Err(SharedMemoryCreationError::UnknownError(0)),
    }
}

/// What the removal of a name comes to.
pub fn shm_unlink(reply: OsReply, mode: UnlinkMode) -> (result: Result<
    (),
    SharedMemoryRemoveError,
>)
    requires
        reply is Unlinked || reply is UnlinkFailed,
    ensures
        result == unlink_outcome(reply, mode),
{
    match reply {
        OsReply::UnlinkFailed { errno } => match errno.kind {
            ErrnoKind::EACCES => Err(SharedMemoryRemoveError::InsufficientPermissions),
            ErrnoKind::ENOENT => match mode {
                UnlinkMode::PrintErrorWhenNotExisting => Err(
                    SharedMemoryRemoveError::DoesNotExist,
                ),
                UnlinkMode::QuietWhenNotExisting => Ok(()),
            },
            _ => Err(SharedMemoryRemoveError::UnknownError(errno.code)),
        },
        _ => Ok(()),
    }
}

} // verus!
