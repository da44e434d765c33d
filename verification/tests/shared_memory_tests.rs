use std::collections::HashMap;

use posix_shm::errno::{Errno, ErrnoKind};
use posix_shm::file_name::FileName;
use posix_shm::shared_memory::builder::SharedMemoryBuilder;
use posix_shm::shared_memory::handle::{MappedRange, SharedMemory, Teardown};
use posix_shm::shared_memory::setup::{Phase, SegmentSetup, SetupStep};
use posix_shm::shared_memory::translate::{mmap, shm_create, shm_open, shm_unlink};
use posix_shm::shared_memory::types::{
    is_answer, AccessMode, CreationMode, FileStatError, FileTruncateError,
    MemoryLockCreationError, OsReply, OsRequest, Permission, PlatformSupport,
    SharedMemoryCreationError, SharedMemoryRemoveError, UnlinkMode,
};

const ENOENT: Errno = Errno { kind: ErrnoKind::ENOENT, code: 2 };
const EACCES: Errno = Errno { kind: ErrnoKind::EACCES, code: 13 };
const EEXIST: Errno = Errno { kind: ErrnoKind::EEXIST, code: 17 };
const EINVAL: Errno = Errno { kind: ErrnoKind::EINVAL, code: 22 };
const ENFILE: Errno = Errno { kind: ErrnoKind::ENFILE, code: 23 };
const EMFILE: Errno = Errno { kind: ErrnoKind::EMFILE, code: 24 };
const EAGAIN: Errno = Errno { kind: ErrnoKind::EAGAIN, code: 11 };
const ENAMETOOLONG: Errno = Errno { kind: ErrnoKind::ENAMETOOLONG, code: 36 };
const EIO: Errno = Errno { kind: ErrnoKind::Other, code: 5 };

const SUPPORT: PlatformSupport =
    PlatformSupport { persistent_shared_memory: true, advanced_signal_handling: true };

/// A system of segments that lives in the test: names, sizes and contents.
struct Os {
    segments: HashMap<Vec<u8>, Vec<u8>>,
    descriptors: Vec<Vec<u8>>,
    mappings: HashMap<usize, Vec<u8>>,
    next_address: usize,
    calls: Vec<OsRequest>,
}

impl Os {
    fn new() -> Os {
        Os {
            segments: HashMap::new(),
            descriptors: Vec::new(),
            mappings: HashMap::new(),
            next_address: 0x7000_0000,
            calls: Vec::new(),
        }
    }

    fn perform(&mut self, path: &[u8], request: OsRequest) -> OsReply {
        self.calls.push(request);
        match request {
            OsRequest::Open { create_exclusive, .. } => {
                if create_exclusive {
                    if self.segments.contains_key(path) {
                        return OsReply::OpenFailed { errno: EEXIST };
                    }
                    self.segments.insert(path.to_vec(), Vec::new());
                } else if !self.segments.contains_key(path) {
                    return OsReply::OpenFailed { errno: ENOENT };
                }
                self.descriptors.push(path.to_vec());
                OsReply::Opened { file_descriptor: self.descriptors.len() as i32 + 2 }
            }
            OsRequest::Unlink => match self.segments.remove(path) {
                Some(_) => OsReply::Unlinked,
                None => OsReply::UnlinkFailed { errno: ENOENT },
            },
            OsRequest::MapMemory { file_descriptor, size, .. } => {
                if size == 0 {
                    return OsReply::MapFailed { errno: EINVAL };
                }
                let base_address = self.next_address;
                self.next_address += 0x10_0000;
                self.mappings
                    .insert(base_address, self.descriptors[file_descriptor as usize - 3].clone());
                OsReply::Mapped { base_address }
            }
            OsRequest::Stat { file_descriptor } => {
                let path = &self.descriptors[file_descriptor as usize - 3];
                OsReply::Size { size: self.segments[path].len() as u64 }
            }
            OsRequest::Truncate { file_descriptor, size } => {
                let path = self.descriptors[file_descriptor as usize - 3].clone();
                self.segments.get_mut(&path).unwrap().resize(size, 0xAA);
                OsReply::Truncated
            }
            OsRequest::Lock { .. } => OsReply::Locked,
            OsRequest::Zero { base_address, size, .. } => {
                let path = self.mappings[&base_address].clone();
                for byte in self.segments.get_mut(&path).unwrap().iter_mut().take(size) {
                    *byte = 0;
                }
                OsReply::Zeroed
            }
        }
    }

    fn memory(&mut self, shm: &SharedMemory) -> &mut Vec<u8> {
        let path = self.mappings[&shm.base_address()].clone();
        self.segments.get_mut(&path).unwrap()
    }

    fn undo(&mut self, path: &[u8], teardown: Teardown) {
        if let Some(range) = teardown.unmap {
            self.mappings.remove(&range.base_address);
        }
        if teardown.unlink {
            self.segments.remove(path);
        }
    }

    fn run(&mut self, setup: SegmentSetup) -> Result<SharedMemory, SharedMemoryCreationError> {
        let path = setup.name.shm_path();
        let mut step = SetupStep::Perform(setup);
        loop {
            match step {
                SetupStep::Perform(setup) => {
                    let reply = self.perform(&path, setup.request());
                    step = setup.advance(reply);
                }
                SetupStep::Ready(shm) => return Ok(shm),
                SetupStep::Failed { error, cleanup, .. } => {
                    self.undo(&path, cleanup);
                    return Err(error);
                }
            }
        }
    }

    fn drop_handle(&mut self, shm: SharedMemory) {
        let path = shm.name().shm_path();
        self.undo(&path, shm.teardown());
    }
}

fn name(value: &[u8]) -> FileName {
    FileName::new(value).unwrap()
}

/// Feeds the protocol the given answers and returns where it stands.
fn feed(setup: SegmentSetup, replies: &[OsReply]) -> SetupStep {
    let mut step = SetupStep::Perform(setup);
    for reply in replies {
        step = match step {
            SetupStep::Perform(setup) => setup.advance(*reply),
            done => done,
        };
    }
    step
}

fn failure(step: SetupStep) -> (SharedMemoryCreationError, Teardown, bool) {
    match step {
        SetupStep::Failed { error, cleanup, silent } => (error, cleanup, silent),
        other => panic!("the protocol did not fail: {:?}", other),
    }
}

fn pending(step: SetupStep) -> SegmentSetup {
    match step {
        SetupStep::Perform(setup) => setup,
        other => panic!("the protocol is over: {:?}", other),
    }
}

fn ready(step: SetupStep) -> SharedMemory {
    match step {
        SetupStep::Ready(shm) => shm,
        other => panic!("the protocol yields no handle: {:?}", other),
    }
}

fn creation(mode: CreationMode, size: usize) -> SegmentSetup {
    SharedMemoryBuilder::new(&name(b"segment")).creation_mode(mode).size(size).create(SUPPORT)
}

#[test]
fn shared_memory_create_write_and_open_again() {
    let mut os = Os::new();
    let mut shm = os
        .run(
            SharedMemoryBuilder::new(&name(b"someShmName"))
                .is_memory_locked(false)
                .creation_mode(CreationMode::PurgeAndCreate)
                .size(1024)
                .permission(Permission::owner_all())
                .zero_memory(true)
                .create(SUPPORT),
        )
        .expect("failed to create shared memory");
    assert_eq!(shm.name().as_bytes(), b"someShmName");
    assert_eq!(shm.size(), 1024);
    assert!(shm.has_ownership());
    assert!(os.memory(&shm).iter().all(|byte| *byte == 0));
    os.memory(&shm)[0] = 0xFF;

    let opened = os
        .run(
            SharedMemoryBuilder::new(&name(b"someShmName"))
                .is_memory_locked(false)
                .open_existing(AccessMode::Read),
        )
        .expect("failed to open shared memory");
    assert_eq!(opened.size(), 1024);
    assert_eq!(os.memory(&opened)[0], 0xFF);
    assert!(!opened.has_ownership());
    assert_ne!(opened.base_address(), shm.base_address());
    shm.release_ownership();
    assert!(!shm.has_ownership());
}

#[test]
fn shared_memory_size_survives_create_and_open() {
    for size in [1usize, 4096, 1024, 1024 * 1024, 128 * 1024 * 1024] {
        let mut os = Os::new();
        let created = os
            .run(
                SharedMemoryBuilder::new(&name(b"sized"))
                    .creation_mode(CreationMode::CreateExclusive)
                    .size(size)
                    .zero_memory(false)
                    .create(SUPPORT),
            )
            .unwrap();
        assert_eq!(created.size(), size);
        let opened = os
            .run(SharedMemoryBuilder::new(&name(b"sized")).open_existing(AccessMode::ReadWrite))
            .unwrap();
        assert_eq!(opened.size(), size);
    }
}

#[test]
fn shared_memory_create_exclusive_twice_fails() {
    let mut os = Os::new();
    let first = os.run(
        SharedMemoryBuilder::new(&name(b"X"))
            .creation_mode(CreationMode::CreateExclusive)
            .size(64)
            .create(SUPPORT),
    );
    assert!(first.is_ok());
    let second = os.run(
        SharedMemoryBuilder::new(&name(b"X"))
            .creation_mode(CreationMode::CreateExclusive)
            .size(64)
            .create(SUPPORT),
    );
    assert_eq!(second.err(), Some(SharedMemoryCreationError::AlreadyExist));
}

#[test]
fn shared_memory_open_or_create_owns_only_what_it_created() {
    let mut os = Os::new();
    let path = name(b"Y").shm_path();
    let owner = os
        .run(
            SharedMemoryBuilder::new(&name(b"Y"))
                .creation_mode(CreationMode::OpenOrCreate)
                .size(256)
                .create(SUPPORT),
        )
        .unwrap();
    assert!(owner.has_ownership());
    let opener = os
        .run(
            SharedMemoryBuilder::new(&name(b"Y"))
                .creation_mode(CreationMode::OpenOrCreate)
                .size(256)
                .has_ownership(true)
                .create(SUPPORT),
        )
        .unwrap();
    assert!(!opener.has_ownership());
    assert_eq!(opener.size(), 256);

    os.drop_handle(opener);
    assert!(os.segments.contains_key(&path));
    os.drop_handle(owner);
    assert!(!os.segments.contains_key(&path));
}

#[test]
fn shared_memory_enforced_base_address_is_checked() {
    let mut os = Os::new();
    let result = os.run(
        SharedMemoryBuilder::new(&name(b"based"))
            .enforce_base_address(0xDEAD0000)
            .creation_mode(CreationMode::PurgeAndCreate)
            .size(128)
            .create(SUPPORT),
    );
    assert_eq!(result.err(), Some(SharedMemoryCreationError::UnableToMapAtEnforcedBaseAddress));
    // the mapping that was made at the other address is gone again
    assert!(os.mappings.is_empty());

    let mut os = Os::new();
    os.next_address = 0xDEAD0000;
    let shm = os
        .run(
            SharedMemoryBuilder::new(&name(b"based"))
                .enforce_base_address(0xDEAD0000)
                .creation_mode(CreationMode::PurgeAndCreate)
                .size(128)
                .create(SUPPORT),
        )
        .unwrap();
    assert_eq!(shm.base_address(), 0xDEAD0000);
}

#[test]
fn shared_memory_enforced_base_address_is_checked_on_open() {
    let step = feed(
        SharedMemoryBuilder::new(&name(b"based"))
            .enforce_base_address(0xDEAD0000)
            .open_existing(AccessMode::Read),
        &[
            OsReply::Opened { file_descriptor: 4 },
            OsReply::Size { size: 100 },
            OsReply::Mapped { base_address: 0xBEEF0000 },
        ],
    );
    let (error, cleanup, silent) = failure(step);
    assert_eq!(error, SharedMemoryCreationError::UnableToMapAtEnforcedBaseAddress);
    assert_eq!(
        cleanup,
        Teardown {
            unmap: Some(MappedRange { base_address: 0xBEEF0000, size: 100 }),
            unlink: false,
            close: Some(4),
            unlock: false,
        }
    );
    assert!(!silent);
}

#[test]
fn shared_memory_purge_and_create_makes_the_expected_calls() {
    let mut os = Os::new();
    os.segments.insert(b"/calls".to_vec(), vec![1, 2, 3]);
    let shm = os
        .run(
            SharedMemoryBuilder::new(&name(b"calls"))
                .is_memory_locked(true)
                .creation_mode(CreationMode::PurgeAndCreate)
                .size(16)
                .permission(Permission { bits: 0o640 })
                .create(SUPPORT),
        )
        .unwrap();
    assert!(shm.memory_locked);
    let base_address = shm.base_address();
    assert_eq!(
        os.calls,
        vec![
            OsRequest::Unlink,
            OsRequest::Open {
                access_mode: AccessMode::ReadWrite,
                create_exclusive: true,
                permission: Permission { bits: 0o640 },
            },
            OsRequest::MapMemory { file_descriptor: 3, size: 16, access_mode: AccessMode::ReadWrite },
            OsRequest::Truncate { file_descriptor: 3, size: 16 },
            OsRequest::Stat { file_descriptor: 3 },
            OsRequest::Lock { base_address, size: 16 },
            OsRequest::Zero { base_address, size: 16, catch_signals: true },
        ]
    );
    assert_eq!(os.segments[&b"/calls".to_vec()], vec![0u8; 16]);
}

#[test]
fn shared_memory_open_makes_the_expected_calls() {
    let mut os = Os::new();
    os.segments.insert(b"/calls".to_vec(), vec![7; 48]);
    let shm = os
        .run(SharedMemoryBuilder::new(&name(b"calls")).try_open_existing(AccessMode::Read))
        .unwrap();
    assert_eq!(shm.size(), 48);
    assert_eq!(shm.file_descriptor(), 3);
    assert_eq!(
        os.calls,
        vec![
            OsRequest::Open {
                access_mode: AccessMode::Read,
                create_exclusive: false,
                permission: Permission::none(),
            },
            OsRequest::Stat { file_descriptor: 3 },
            OsRequest::MapMemory { file_descriptor: 3, size: 48, access_mode: AccessMode::Read },
        ]
    );
}

#[test]
fn shared_memory_without_locking_and_zeroing_stops_after_the_size_check() {
    let step = feed(
        SharedMemoryBuilder::new(&name(b"plain"))
            .creation_mode(CreationMode::CreateExclusive)
            .size(32)
            .zero_memory(false)
            .has_ownership(false)
            .create(SUPPORT),
        &[
            OsReply::Opened { file_descriptor: 9 },
            OsReply::Mapped { base_address: 0x1000 },
            OsReply::Truncated,
            OsReply::Size { size: 32 },
        ],
    );
    let shm = ready(step);
    assert_eq!(shm.size(), 32);
    assert_eq!(shm.base_address(), 0x1000);
    assert_eq!(shm.file_descriptor(), 9);
    assert!(!shm.has_ownership());
    assert!(!shm.memory_locked);
}

#[test]
fn shared_memory_signal_handling_follows_the_platform() {
    let without = PlatformSupport { persistent_shared_memory: true, advanced_signal_handling: false };
    let setup = pending(feed(
        SharedMemoryBuilder::new(&name(b"zero"))
            .creation_mode(CreationMode::CreateExclusive)
            .size(8)
            .create(without),
        &[
            OsReply::Opened { file_descriptor: 3 },
            OsReply::Mapped { base_address: 0x2000 },
            OsReply::Truncated,
            OsReply::Size { size: 8 },
        ],
    ));
    assert_eq!(setup.phase, Phase::Zeroing);
    assert_eq!(
        setup.request(),
        OsRequest::Zero { base_address: 0x2000, size: 8, catch_signals: false }
    );
    // no signal is caught, so none can be reported: the request stands
    let setup = pending(setup.advance(OsReply::ZeroingInterrupted { signal: 7 }));
    assert_eq!(setup.phase, Phase::Zeroing);
    assert!(matches!(setup.advance(OsReply::Zeroed), SetupStep::Ready(_)));
}

#[test]
fn shared_memory_signal_while_zeroing_is_insufficient_memory() {
    let step = feed(
        creation(CreationMode::CreateExclusive, 8),
        &[
            OsReply::Opened { file_descriptor: 3 },
            OsReply::Mapped { base_address: 0x2000 },
            OsReply::Truncated,
            OsReply::Size { size: 8 },
            OsReply::ZeroingInterrupted { signal: 7 },
        ],
    );
    let (error, cleanup, _) = failure(step);
    assert_eq!(error, SharedMemoryCreationError::InsufficientMemory);
    assert_eq!(
        cleanup,
        Teardown {
            unmap: Some(MappedRange { base_address: 0x2000, size: 8 }),
            unlink: true,
            close: Some(3),
            unlock: false,
        }
    );
}

#[test]
fn shared_memory_size_mismatch_is_size_does_not_fit() {
    let created = feed(
        creation(CreationMode::CreateExclusive, 8),
        &[
            OsReply::Opened { file_descriptor: 3 },
            OsReply::Mapped { base_address: 0x2000 },
            OsReply::Truncated,
            OsReply::Size { size: 9 },
        ],
    );
    assert_eq!(failure(created).0, SharedMemoryCreationError::SizeDoesNotFit);

    let opened = feed(
        creation(CreationMode::OpenOrCreate, 8),
        &[
            OsReply::Opened { file_descriptor: 3 },
            OsReply::Mapped { base_address: 0x2000 },
            OsReply::Size { size: 4096 },
        ],
    );
    let (error, cleanup, _) = failure(opened);
    assert_eq!(error, SharedMemoryCreationError::SizeDoesNotFit);
    // what was only opened is not removed
    assert!(!cleanup.unlink);
    assert_eq!(cleanup.unmap, Some(MappedRange { base_address: 0x2000, size: 8 }));
}

#[test]
fn shared_memory_size_of_zero_is_unsupported() {
    let mut os = Os::new();
    let result = os.run(creation(CreationMode::CreateExclusive, 0));
    assert_eq!(result.err(), Some(SharedMemoryCreationError::UnsupportedSizeOfZero));
}

#[test]
fn shared_memory_nested_failures_are_handed_on() {
    let before_map = [OsReply::Opened { file_descriptor: 3 }, OsReply::Mapped { base_address: 64 }];
    let truncate = FileTruncateError { errno: EIO };
    let step = feed(
        creation(CreationMode::CreateExclusive, 8),
        &[before_map[0], before_map[1], OsReply::TruncateFailed { error: truncate }],
    );
    assert_eq!(failure(step).0, SharedMemoryCreationError::FileTruncateError(truncate));

    let stat = FileStatError { errno: EIO };
    let step = feed(
        creation(CreationMode::CreateExclusive, 8),
        &[before_map[0], before_map[1], OsReply::Truncated, OsReply::StatFailed { error: stat }],
    );
    assert_eq!(failure(step).0, SharedMemoryCreationError::FileStatError(stat));

    let lock = MemoryLockCreationError { errno: EAGAIN };
    let step = feed(
        SharedMemoryBuilder::new(&name(b"locked"))
            .is_memory_locked(true)
            .creation_mode(CreationMode::CreateExclusive)
            .size(8)
            .create(SUPPORT),
        &[
            before_map[0],
            before_map[1],
            OsReply::Truncated,
            OsReply::Size { size: 8 },
            OsReply::LockFailed { error: lock },
        ],
    );
    assert_eq!(failure(step).0, SharedMemoryCreationError::MemoryLockCreationError(lock));

    let step = feed(
        creation(CreationMode::PurgeAndCreate, 8),
        &[OsReply::UnlinkFailed { errno: EACCES }],
    );
    let (error, cleanup, _) = failure(step);
    assert_eq!(
        error,
        SharedMemoryCreationError::SharedMemoryRemoveError(
            SharedMemoryRemoveError::InsufficientPermissions
        )
    );
    assert_eq!(cleanup, Teardown::nothing());

    let step = feed(
        SharedMemoryBuilder::new(&name(b"opened")).open_existing(AccessMode::Read),
        &[OsReply::Opened { file_descriptor: 5 }, OsReply::StatFailed { error: stat }],
    );
    let (error, cleanup, _) = failure(step);
    assert_eq!(error, SharedMemoryCreationError::FileStatError(stat));
    assert_eq!(cleanup, Teardown { unmap: None, unlink: false, close: Some(5), unlock: false });
}

#[test]
fn shared_memory_purge_of_a_missing_segment_goes_on() {
    let setup = pending(feed(
        creation(CreationMode::PurgeAndCreate, 8),
        &[OsReply::UnlinkFailed { errno: ENOENT }],
    ));
    assert_eq!(setup.phase, Phase::Creating);
}

#[test]
fn shared_memory_open_or_create_probe_failures() {
    let setup = pending(feed(
        creation(CreationMode::OpenOrCreate, 8),
        &[OsReply::OpenFailed { errno: ENOENT }],
    ));
    assert_eq!(setup.phase, Phase::Creating);
    let step =
        feed(creation(CreationMode::OpenOrCreate, 8), &[OsReply::OpenFailed { errno: EACCES }]);
    assert_eq!(failure(step).0, SharedMemoryCreationError::InsufficientPermissions);
}

#[test]
fn shared_memory_missing_segment_is_silent_only_when_tried() {
    let tried = feed(
        SharedMemoryBuilder::new(&name(b"none")).try_open_existing(AccessMode::Read),
        &[OsReply::OpenFailed { errno: ENOENT }],
    );
    assert_eq!(
        failure(tried),
        (SharedMemoryCreationError::DoesNotExist, Teardown::nothing(), true)
    );
    let opened = feed(
        SharedMemoryBuilder::new(&name(b"none")).open_existing(AccessMode::Read),
        &[OsReply::OpenFailed { errno: ENOENT }],
    );
    assert_eq!(
        failure(opened),
        (SharedMemoryCreationError::DoesNotExist, Teardown::nothing(), false)
    );
    let denied = feed(
        SharedMemoryBuilder::new(&name(b"none")).try_open_existing(AccessMode::Read),
        &[OsReply::OpenFailed { errno: EACCES }],
    );
    assert!(!failure(denied).2);
}

#[test]
fn shared_memory_stray_answers_change_nothing() {
    let setup = creation(CreationMode::CreateExclusive, 8);
    let setup = pending(setup.advance(OsReply::Zeroed));
    assert_eq!(setup.phase, Phase::Creating);
    let setup = pending(setup.advance(OsReply::Opened { file_descriptor: -1 }));
    assert_eq!(setup.phase, Phase::Creating);
    let setup = pending(setup.advance(OsReply::Opened { file_descriptor: 3 }));
    assert_eq!(setup.phase, Phase::Mapping);
    let setup = pending(setup.advance(OsReply::Mapped { base_address: 0 }));
    assert_eq!(setup.phase, Phase::Mapping);
}

#[test]
fn shm_open_translates_each_error() {
    let open = |errno| shm_open(OsReply::OpenFailed { errno });
    assert_eq!(open(ENOENT), Err(SharedMemoryCreationError::DoesNotExist));
    assert_eq!(open(EACCES), Err(SharedMemoryCreationError::InsufficientPermissions));
    assert_eq!(open(EINVAL), Err(SharedMemoryCreationError::InvalidName));
    assert_eq!(open(EMFILE), Err(SharedMemoryCreationError::PerProcessFileHandleLimitReached));
    assert_eq!(open(ENFILE), Err(SharedMemoryCreationError::SystemWideFileHandleLimitReached));
    assert_eq!(open(ENAMETOOLONG), Err(SharedMemoryCreationError::NameTooLong));
    assert_eq!(open(EEXIST), Err(SharedMemoryCreationError::UnknownError(17)));
    assert_eq!(open(EIO), Err(SharedMemoryCreationError::UnknownError(5)));
    assert_eq!(shm_open(OsReply::Opened { file_descriptor: 11 }), Ok(11));
}

#[test]
fn shm_create_translates_each_error() {
    let create = |errno| shm_create(OsReply::OpenFailed { errno });
    assert_eq!(create(EACCES), Err(SharedMemoryCreationError::InsufficientPermissions));
    assert_eq!(create(EINVAL), Err(SharedMemoryCreationError::InvalidName));
    assert_eq!(create(EEXIST), Err(SharedMemoryCreationError::AlreadyExist));
    assert_eq!(create(EMFILE), Err(SharedMemoryCreationError::PerProcessFileHandleLimitReached));
    assert_eq!(create(ENFILE), Err(SharedMemoryCreationError::SystemWideFileHandleLimitReached));
    assert_eq!(create(ENAMETOOLONG), Err(SharedMemoryCreationError::NameTooLong));
    assert_eq!(create(ENOENT), Err(SharedMemoryCreationError::UnknownError(2)));
    assert_eq!(shm_create(OsReply::Opened { file_descriptor: 0 }), Ok(0));
}

#[test]
fn mmap_translates_each_error() {
    let map = |errno| mmap(OsReply::MapFailed { errno });
    assert_eq!(map(EAGAIN), Err(SharedMemoryCreationError::InsufficientMemoryToBeMemoryLocked));
    assert_eq!(map(EINVAL), Err(SharedMemoryCreationError::UnsupportedSizeOfZero));
    assert_eq!(map(EMFILE), Err(SharedMemoryCreationError::MappedRegionLimitReached));
    assert_eq!(map(EACCES), Err(SharedMemoryCreationError::UnknownError(13)));
    assert_eq!(mmap(OsReply::Mapped { base_address: 4096 }), Ok(4096));
}

#[test]
fn shm_unlink_translates_each_error() {
    let loud = UnlinkMode::PrintErrorWhenNotExisting;
    let quiet = UnlinkMode::QuietWhenNotExisting;
    assert_eq!(shm_unlink(OsReply::Unlinked, loud), Ok(()));
    assert_eq!(
        shm_unlink(OsReply::UnlinkFailed { errno: EACCES }, quiet),
        Err(SharedMemoryRemoveError::InsufficientPermissions)
    );
    assert_eq!(
        shm_unlink(OsReply::UnlinkFailed { errno: ENOENT }, loud),
        Err(SharedMemoryRemoveError::DoesNotExist)
    );
    assert_eq!(shm_unlink(OsReply::UnlinkFailed { errno: ENOENT }, quiet), Ok(()));
    assert_eq!(
        shm_unlink(OsReply::UnlinkFailed { errno: EIO }, quiet),
        Err(SharedMemoryRemoveError::UnknownError(5))
    );
}

#[test]
fn shared_memory_remove_reports_a_missing_segment() {
    assert_eq!(SharedMemory::remove(OsReply::Unlinked), Ok(()));
    assert_eq!(
        SharedMemory::remove(OsReply::UnlinkFailed { errno: ENOENT }),
        Err(SharedMemoryRemoveError::DoesNotExist)
    );
}

#[test]
fn shared_memory_does_exist_probes_by_opening_for_reading() {
    assert_eq!(
        SharedMemory::does_exist(),
        OsRequest::Open {
            access_mode: AccessMode::Read,
            create_exclusive: false,
            permission: Permission::none(),
        }
    );
    assert!(SharedMemory::does_exist_reply(OsReply::Opened { file_descriptor: 3 }));
    assert!(!SharedMemory::does_exist_reply(OsReply::OpenFailed { errno: ENOENT }));
    assert!(!SharedMemory::does_exist_reply(OsReply::OpenFailed { errno: EACCES }));
}

#[test]
fn shared_memory_persistency_is_a_matter_of_the_platform() {
    assert!(SharedMemory::does_support_persistency(SUPPORT));
    assert!(!SharedMemory::does_support_persistency(PlatformSupport {
        persistent_shared_memory: false,
        advanced_signal_handling: false,
    }));
}

#[test]
fn shared_memory_ownership_transfer_is_idempotent() {
    let mut os = Os::new();
    let mut shm = os.run(creation(CreationMode::CreateExclusive, 8)).unwrap();
    assert!(shm.has_ownership());
    shm.release_ownership();
    let once = shm.teardown();
    shm.release_ownership();
    assert_eq!(shm.teardown(), once);
    assert!(!shm.has_ownership());
    shm.acquire_ownership();
    let once = shm.teardown();
    shm.acquire_ownership();
    assert_eq!(shm.teardown(), once);
    assert!(shm.has_ownership());
    assert_eq!(shm.size(), 8);
}

#[test]
fn shared_memory_teardown_names_all_that_is_held() {
    let shm = ready(feed(
        SharedMemoryBuilder::new(&name(b"locked"))
            .is_memory_locked(true)
            .creation_mode(CreationMode::CreateExclusive)
            .size(8)
            .zero_memory(false)
            .create(SUPPORT),
        &[
            OsReply::Opened { file_descriptor: 6 },
            OsReply::Mapped { base_address: 0x3000 },
            OsReply::Truncated,
            OsReply::Size { size: 8 },
            OsReply::Locked,
        ],
    ));
    assert_eq!(
        shm.teardown(),
        Teardown {
            unmap: Some(MappedRange { base_address: 0x3000, size: 8 }),
            unlink: true,
            close: Some(6),
            unlock: true,
        }
    );
}

#[test]
fn shared_memory_list_keeps_the_file_names() {
    let raw = |value: &[u8]| {
        let mut buffer = [0u8; 256];
        buffer[..value.len()].copy_from_slice(value);
        buffer
    };
    let names = SharedMemory::list(&[
        raw(b"."),
        raw(b".."),
        raw(b"first"),
        raw(b""),
        raw(b"with/slash"),
        raw(b"second\0hidden"),
        [b'x'; 256],
    ]);
    let names: Vec<&[u8]> = names.iter().map(|name| name.as_bytes()).collect();
    assert_eq!(names, vec![&b"first"[..], &b"second"[..]]);
}

#[test]
fn is_answer_matches_calls_and_answers() {
    let open = SharedMemory::does_exist();
    assert!(is_answer(&open, &OsReply::Opened { file_descriptor: 0 }));
    assert!(!is_answer(&open, &OsReply::Opened { file_descriptor: -1 }));
    assert!(is_answer(&open, &OsReply::OpenFailed { errno: ENOENT }));
    assert!(!is_answer(&open, &OsReply::Unlinked));
    assert!(is_answer(&OsRequest::Unlink, &OsReply::Unlinked));
    let map = OsRequest::MapMemory { file_descriptor: 3, size: 1, access_mode: AccessMode::Read };
    assert!(is_answer(&map, &OsReply::Mapped { base_address: 8 }));
    assert!(!is_answer(&map, &OsReply::Mapped { base_address: 0 }));
    let zero = OsRequest::Zero { base_address: 8, size: 1, catch_signals: false };
    assert!(is_answer(&zero, &OsReply::Zeroed));
    assert!(!is_answer(&zero, &OsReply::ZeroingInterrupted { signal: 11 }));
}
