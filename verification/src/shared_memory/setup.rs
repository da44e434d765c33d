//! The protocol that leads to a mapped segment. It is a state machine: the
//! driver makes the call that the state asks for and hands the answer back,
//! until the state is a handle or a failure.

use vstd::prelude::*;
use crate::errno::ErrnoKind;
use crate::file_name::FileName;
use crate::shared_memory::handle::{MappedRange, SharedMemory, Teardown};
use crate::shared_memory::translate::{
    create_failure,
    create_request,
    map_failure,
    mmap,
    open_failure,
    open_request,
    shm_create,
    shm_open,
    shm_unlink,
    unlink_outcome,
};
use crate::shared_memory::types::{
    answers,
    is_answer,
    AccessMode,
    OsReply,
    OsRequest,
    Permission,
    SharedMemoryCreationError,
    UnlinkMode,
};

verus! {

/// The call whose answer the protocol waits for.
#[derive(Clone, Copy, Debug, PartialEq, Eq, Structural)]
pub enum Phase {
    /// An existing segment is being opened.
    Opening,
    /// The size of the opened segment is being read.
    Sizing,
    /// A segment of the name is being removed before the creation.
    Purging,
    /// A segment of the name is being looked for before the creation.
    Probing,
    /// The segment is being created.
    Creating,
    /// The segment is being mapped.
    Mapping,
    /// The size of the new segment is being set.
    Truncating,
    /// The size of the segment is being held against the configured one.
    Verifying,
    /// The mapping is being locked into main memory.
    Locking,
    /// The mapping is being filled with zeros.
    Zeroing,
}

/// A protocol under way: what was configured, and what has been reached.
#[derive(Debug)]
pub struct SegmentSetup {
    pub name: FileName,
    pub access_mode: AccessMode,
    pub permission: Permission,
    pub size: usize,
    pub is_memory_locked: bool,
    pub has_ownership: bool,
    pub zero_memory: bool,
    pub enforce_base_address: Option<u64>,
    /// A signal raised while the memory is zeroed is caught.
    pub catch_signals: bool,
    /// That the segment does not exist is not worth a report.
    pub quiet: bool,
    /// The protocol creates; it only opens otherwise.
    pub creating: bool,
    pub phase: Phase,
    /// The segment was created by this protocol.
    pub created: bool,
    pub file_descriptor: i32,
    pub base_address: usize,
    pub memory_locked: bool,
}

/// Where a protocol stands after an answer.
#[derive(Debug)]
pub enum SetupStep {
    /// The next call is to be made: `request` says which.
    Perform(SegmentSetup),
    /// The segment is mapped.
    Ready(SharedMemory),
    /// The protocol failed. `cleanup` is to be carried out; with `silent` the
    /// failure is not worth a report.
    Failed { error: SharedMemoryCreationError, cleanup: Teardown, silent: bool },
}

impl SegmentSetup {
    /// The call that the protocol waits for.
    pub open spec fn request_of(self) -> OsRequest {
        match self.phase {
            Phase::Opening | Phase::Probing => open_request(self.access_mode),
            Phase::Creating => create_request(self.access_mode, self.permission),
            Phase::Purging => OsRequest::Unlink,
            Phase::Sizing | Phase::Verifying => OsRequest::Stat {
                file_descriptor: self.file_descriptor,
            },
            Phase::Mapping => OsRequest::MapMemory {
                file_descriptor: self.file_descriptor,
                size: self.size,
                access_mode: self.access_mode,
            },
            Phase::Truncating => OsRequest::Truncate {
                file_descriptor: self.file_descriptor,
                size: self.size,
            },
            Phase::Locking => OsRequest::Lock { base_address: self.base_address, size: self.size },
            Phase::Zeroing => OsRequest::Zero {
                base_address: self.base_address,
                size: self.size,
                catch_signals: self.catch_signals,
            },
        }
    }

    /// Whether `reply` answers the call that the protocol waits for.
    pub open spec fn expects(self, reply: OsReply) -> bool {
        answers(self.request_of(), reply)
    }

    /// The handle that the protocol has built up.
    pub open spec fn handle_of(self) -> SharedMemory {
        SharedMemory {
            name: self.name,
            size: self.size,
            base_address: self.base_address,
            has_ownership: self.has_ownership,
            file_descriptor: self.file_descriptor,
            memory_locked: self.memory_locked,
        }
    }

    /// The failure `error` of a protocol whose segment is mapped: the handle
    /// that was built up is given up.
    pub open spec fn failed(self, error: SharedMemoryCreationError) -> SetupStep {
        SetupStep::Failed { error, cleanup: self.handle_of().teardown_of(), silent: false }
    }

    /// The failure `error` of a protocol that holds an open descriptor and no
    /// mapping yet.
    pub open spec fn failed_unmapped(self, error: SharedMemoryCreationError) -> SetupStep {
        SetupStep::Failed {
            error,
            cleanup: Teardown {
                unmap: None,
                unlink: false,
                close: Some(self.file_descriptor),
                unlock: false,
            },
            silent: false,
        }
    }

    /// What follows once the segment has its size: the lock where one was
    /// asked for, else the zeros where they were asked for, else the handle.
    pub open spec fn after_verified(self) -> SetupStep {
        if !self.created {
            SetupStep::Ready(self.handle_of())
        } else if self.is_memory_locked {
            SetupStep::Perform(SegmentSetup { phase: Phase::Locking, ..self })
        } else {
            self.after_locked()
        }
    }

    /// What follows once the lock is settled: the zeros where they were asked
    /// for, else the handle.
    pub open spec fn after_locked(self) -> SetupStep {
        if self.zero_memory {
            SetupStep::Perform(SegmentSetup { phase: Phase::Zeroing, ..self })
        } else {
            SetupStep::Ready(self.handle_of())
        }
    }

    /// What follows once the segment is mapped at `base_address`.
    pub open spec fn after_mapped(self, base_address: usize) -> SetupStep {
        let mapped = SegmentSetup { base_address, ..self };
        if self.enforce_base_address is Some && self.enforce_base_address->Some_0
            != base_address as u64 {
            SetupStep::Failed {
                error: SharedMemoryCreationError::UnableToMapAtEnforcedBaseAddress,
                cleanup: Teardown {
                    unmap: Some(MappedRange { base_address, size: self.size }),
                    unlink: false,
                    close: Some(self.file_descriptor),
                    unlock: false,
                },
                silent: false,
            }
        } else if !self.creating {
            SetupStep::Ready(mapped.handle_of())
        } else if self.created {
            SetupStep::Perform(SegmentSetup { phase: Phase::Truncating, ..mapped })
        } else {
            SetupStep::Perform(SegmentSetup { phase: Phase::Verifying, ..mapped })
        }
    }

    /// The protocol after `reply`. An answer to another call than the one the
    /// protocol waits for leaves it where it is.
    pub open spec fn next(self, reply: OsReply) -> SetupStep {
        if !self.expects(reply) {
            SetupStep::Perform(self)
        } else {
            match self.phase {
                Phase::Opening => match reply {
                    OsReply::OpenFailed { errno } => SetupStep::Failed {
                        error: open_failure(errno),
                        cleanup: Teardown::nothing(),
                        silent: self.quiet && errno.kind == ErrnoKind::ENOENT,
                    },
                    OsReply::Opened { file_descriptor } => SetupStep::Perform(
                        SegmentSetup { phase: Phase::Sizing, file_descriptor, ..self },
                    ),
                    _ => SetupStep::Perform(self),
                },
                Phase::Sizing => match reply {
                    OsReply::StatFailed { error } => self.failed_unmapped(
                        SharedMemoryCreationError::FileStatError(error),
                    ),
                    OsReply::Size { size } => SetupStep::Perform(
                        SegmentSetup { phase: Phase::Mapping, size: size as usize, ..self },
                    ),
                    _ => SetupStep::Perform(self),
                },
                Phase::Purging => match unlink_outcome(reply, UnlinkMode::QuietWhenNotExisting) {
                    Err(error) => SetupStep::Failed {
                        error: SharedMemoryCreationError::SharedMemoryRemoveError(error),
                        cleanup: Teardown::nothing(),
                        silent: false,
                    },
                    Ok(_) => SetupStep::Perform(SegmentSetup { phase: Phase::Creating, ..self }),
                },
                Phase::Probing => match reply {
                    OsReply::OpenFailed { errno } => if errno.kind == ErrnoKind::ENOENT {
                        SetupStep::Perform(SegmentSetup { phase: Phase::Creating, ..self })
                    } else {
                        SetupStep::Failed {
                            error: open_failure(errno),
                            cleanup: Teardown::nothing(),
                            silent: false,
                        }
                    },
                    OsReply::Opened { file_descriptor } => SetupStep::Perform(
                        SegmentSetup {
                            phase: Phase::Mapping,
                            file_descriptor,
                            created: false,
                            has_ownership: false,
                            ..self
                        },
                    ),
                    _ => SetupStep::Perform(self),
                },
                Phase::Creating => match reply {
                    OsReply::OpenFailed { errno } => SetupStep::Failed {
                        error: create_failure(errno),
                        cleanup: Teardown::nothing(),
                        silent: false,
                    },
                    OsReply::Opened { file_descriptor } => SetupStep::Perform(
                        SegmentSetup {
                            phase: Phase::Mapping,
                            file_descriptor,
                            created: true,
                            ..self
                        },
                    ),
                    _ => SetupStep::Perform(self),
                },
                Phase::Mapping => match reply {
                    OsReply::MapFailed { errno } => self.failed_unmapped(map_failure(errno)),
                    OsReply::Mapped { base_address } => self.after_mapped(base_address),
                    _ => SetupStep::Perform(self),
                },
                Phase::Truncating => match reply {
                    OsReply::TruncateFailed { error } => self.failed(
                        SharedMemoryCreationError::FileTruncateError(error),
                    ),
                    _ => SetupStep::Perform(SegmentSetup { phase: Phase::Verifying, ..self }),
                },
                Phase::Verifying => match reply {
                    OsReply::StatFailed { error } => self.failed(
                        SharedMemoryCreationError::FileStatError(error),
                    ),
                    OsReply::Size { size } => if size != self.size as u64 {
                        self.failed(SharedMemoryCreationError::SizeDoesNotFit)
                    } else {
                        self.after_verified()
                    },
                    _ => SetupStep::Perform(self),
                },
                Phase::Locking => match reply {
                    OsReply::LockFailed { error } => self.failed(
                        SharedMemoryCreationError::MemoryLockCreationError(error),
                    ),
                    _ => (SegmentSetup { memory_locked: true, ..self }).after_locked(),
                },
                Phase::Zeroing => match reply {
                    OsReply::ZeroingInterrupted { .. } => self.failed(
                        SharedMemoryCreationError::InsufficientMemory,
                    ),
                    _ => SetupStep::Ready(self.handle_of()),
                },
            }
        }
    }

    /// The call that the protocol waits for.
    pub fn request(&self) -> (request: OsRequest)
        ensures
            request == self.request_of(),
    {
        match self.phase {
            Phase::Opening | Phase::Probing => OsRequest::Open {
                access_mode: self.access_mode,
                create_exclusive: false,
                permission: Permission::none(),
            },
            Phase::Creating => OsRequest::Open {
                access_mode: self.access_mode,
                create_exclusive: true,
                permission: self.permission,
            },
            Phase::Purging => OsRequest::Unlink,
            Phase::Sizing | Phase::Verifying => OsRequest::Stat {
                file_descriptor: self.file_descriptor,
            },
            Phase::Mapping => OsRequest::MapMemory {
                file_descriptor: self.file_descriptor,
                size: self.size,
                access_mode: self.access_mode,
            },
            Phase::Truncating => OsRequest::Truncate {
                file_descriptor: self.file_descriptor,
                size: self.size,
            },
            Phase::Locking => OsRequest::Lock { base_address: self.base_address, size: self.size },
            Phase::Zeroing => OsRequest::Zero {
                base_address: self.base_address,
                size: self.size,
                catch_signals: self.catch_signals,
            },
        }
    }

    fn into_handle(self) -> (shm: SharedMemory)
        ensures
            shm == self.handle_of(),
    {
        SharedMemory {
            name: self.name,
            size: self.size,
            base_address: self.base_address,
            has_ownership: self.has_ownership,
            file_descriptor: self.file_descriptor,
            memory_locked: self.memory_locked,
        }
    }

    fn fail(self, error: SharedMemoryCreationError) -> (step: SetupStep)
        ensures
            step == self.failed(error),
    {
        let cleanup = Teardown {
            unmap: Some(MappedRange { base_address: self.base_address, size: self.size }),
            unlink: self.has_ownership,
            close: Some(self.file_descriptor),
            unlock: self.memory_locked,
        };
        SetupStep::Failed { error, cleanup, silent: false }
    }

    fn fail_unmapped(self, error: SharedMemoryCreationError) -> (step: SetupStep)
        ensures
            step == self.failed_unmapped(error),
    {
        let cleanup = Teardown {
            unmap: None,
            unlink: false,
            close: Some(self.file_descriptor),
            unlock: false,
        };
        SetupStep::Failed { error, cleanup, silent: false }
    }

    fn proceed_locked(self) -> (step: SetupStep)
        ensures
            step == self.after_locked(),
    {
        if self.zero_memory {
            let mut setup = self;
            setup.phase = Phase::Zeroing;
            SetupStep::Perform(setup)
        } else {
            SetupStep::Ready(self.into_handle())
        }
    }

    fn proceed_verified(self) -> (step: SetupStep)
        ensures
            step == self.after_verified(),
    {
        if !self.created {
            SetupStep::Ready(self.into_handle())
        } else if self.is_memory_locked {
            let mut setup = self;
            setup.phase = Phase::Locking;
            SetupStep::Perform(setup)
        } else {
            self.proceed_locked()
        }
    }

    fn proceed_mapped(self, base_address: usize) -> (step: SetupStep)
        ensures
            step == self.after_mapped(base_address),
    {
        let mismatch = match self.enforce_base_address {
            Some(enforced) => enforced != base_address as u64,
            None => false,
        };
        if mismatch {
            let cleanup = Teardown {
                unmap: Some(MappedRange { base_address, size: self.size }),
                unlink: false,
                close: Some(self.file_descriptor),
                unlock: false,
            };
            return SetupStep::Failed {
                error: SharedMemoryCreationError::UnableToMapAtEnforcedBaseAddress,
                cleanup,
                silent: false,
            };
        }
        let mut setup = self;
        setup.base_address = base_address;
        if !setup.creating {
            SetupStep::Ready(setup.into_handle())
        } else if setup.created {
            setup.phase = Phase::Truncating;
            SetupStep::Perform(setup)
        } else {
            setup.phase = Phase::Verifying;
            SetupStep::Perform(setup)
        }
    }

    /// Takes the answer to the pending call and says what is next: another
    /// call, the handle, or the failure with what is to be undone.
    pub fn advance(self, reply: OsReply) -> (step: SetupStep)
        ensures
            step == self.next(reply),
    {
        let request = self.request();
        if !is_answer(&request, &reply) {
            return SetupStep::Perform(self);
        }
        let mut setup = self;
        match setup.phase {
            Phase::Opening => match shm_open(reply) {
                Err(error) => {
                    let silent = setup.quiet && matches!(
                        error,
                        SharedMemoryCreationError::DoesNotExist
                    );
                    SetupStep::Failed { error, cleanup: Teardown::nothing(), silent }
                },
                Ok(file_descriptor) => {
                    setup.phase = Phase::Sizing;
                    setup.file_descriptor = file_descriptor;
                    SetupStep::Perform(setup)
                },
            },
            Phase::Sizing => match reply {
                OsReply::StatFailed { error } => setup.fail_unmapped(
                    SharedMemoryCreationError::FileStatError(error),
                ),
                OsReply::Size { size } => {
                    setup.phase = Phase::Mapping;
                    setup.size = #[verifier::truncate]
                    (size as usize);
                    SetupStep::Perform(setup)
                },
                _ => SetupStep::Perform(setup),
            },
            Phase::Purging => match shm_unlink(reply, UnlinkMode::QuietWhenNotExisting) {
                Err(error) => SetupStep::Failed {
                    error: SharedMemoryCreationError::SharedMemoryRemoveError(error),
                    cleanup: Teardown::nothing(),
                    silent: false,
                },
                Ok(_) => {
                    setup.phase = Phase::Creating;
                    SetupStep::Perform(setup)
                },
            },
            Phase::Probing => match shm_open(reply) {
                Err(SharedMemoryCreationError::DoesNotExist) => {
                    setup.phase = Phase::Creating;
                    SetupStep::Perform(setup)
                },
                Err(error) => SetupStep::Failed {
                    error,
                    cleanup: Teardown::nothing(),
                    silent: false,
                },
                Ok(file_descriptor) => {
                    setup.phase = Phase::Mapping;
                    setup.file_descriptor = file_descriptor;
                    setup.created = false;
                    setup.has_ownership = false;
                    SetupStep::Perform(setup)
                },
            },
            Phase::Creating => match shm_create(reply) {
                Err(error) => SetupStep::Failed {
                    error,
                    cleanup: Teardown::nothing(),
                    silent: false,
                },
                Ok(file_descriptor) => {
                    setup.phase = Phase::Mapping;
                    setup.file_descriptor = file_descriptor;
                    setup.created = true;
                    SetupStep::Perform(setup)
                },
            },
            Phase::Mapping => match mmap(reply) {
                Err(error) => setup.fail_unmapped(error),
                Ok(base_address) => setup.proceed_mapped(base_address),
            },
            Phase::Truncating => match reply {
                OsReply::TruncateFailed { error } => setup.fail(
                    SharedMemoryCreationError::FileTruncateError(error),
                ),
                _ => {
                    setup.phase = Phase::Verifying;
                    SetupStep::Perform(setup)
                },
            },
            Phase::Verifying => match reply {
                OsReply::StatFailed { error } => setup.fail(
                    SharedMemoryCreationError::FileStatError(error),
                ),
                OsReply::Size { size } => {
                    if size != setup.size as u64 {
                        setup.fail(SharedMemoryCreationError::SizeDoesNotFit)
                    } else {
                        setup.proceed_verified()
                    }
                },
                _ => SetupStep::Perform(setup),
            },
            Phase::Locking => match reply {
                OsReply::LockFailed { error } => setup.fail(
                    SharedMemoryCreationError::MemoryLockCreationError(error),
                ),
                _ => {
                    setup.memory_locked = true;
                    setup.proceed_locked()
                },
            },
            Phase::Zeroing => match reply {
                OsReply::ZeroingInterrupted { .. } => setup.fail(
                    SharedMemoryCreationError::InsufficientMemory,
                ),
                _ => SetupStep::Ready(setup.into_handle()),
            },
        }
    }
}

} // verus!
