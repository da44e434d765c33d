//! The two builders. The first holds what opening and creating share and can
//! open; choosing a creation mode turns it into the second, which alone knows
//! a size, a permission, and whether to zero and to own.

use vstd::prelude::*;
use crate::file_name::FileName;
use crate::shared_memory::setup::{Phase, SegmentSetup};
use crate::shared_memory::types::{AccessMode, CreationMode, Permission, PlatformSupport};

verus! {

/// The builder of a segment handle, before it is known whether the segment
/// is to be opened or created.
#[derive(Debug)]
pub struct SharedMemoryBuilder {
    pub name: FileName,
    pub is_memory_locked: bool,
    pub enforce_base_address: Option<u64>,
}

/// The builder of a segment that is to be created.
#[derive(Debug)]
pub struct SharedMemoryCreationBuilder {
    pub name: FileName,
    pub is_memory_locked: bool,
    pub enforce_base_address: Option<u64>,
    pub creation_mode: CreationMode,
    pub size: usize,
    pub permission: Permission,
    pub zero_memory: bool,
    pub has_ownership: bool,
}

impl SharedMemoryBuilder {
    /// The protocol that opens the segment with `access_mode`. The handle it
    /// leads to does not own the segment.
    pub open spec fn opening(self, access_mode: AccessMode, quiet: bool) -> SegmentSetup {
        SegmentSetup {
            name: self.name,
            access_mode,
            permission: Permission::none(),
            size: 0,
            is_memory_locked: self.is_memory_locked,
            has_ownership: false,
            zero_memory: false,
            enforce_base_address: self.enforce_base_address,
            catch_signals: false,
            quiet,
            creating: false,
            phase: Phase::Opening,
            created: false,
            file_descriptor: -1i32,
            base_address: 0,
            memory_locked: false,
        }
    }

    /// A builder for the segment `name`: nothing is locked, no address is
    /// enforced.
    pub fn new(name: &FileName) -> (builder: SharedMemoryBuilder)
        ensures
            builder.name@ == name@,
            !builder.is_memory_locked,
            builder.enforce_base_address is None,
    {
        SharedMemoryBuilder {
            name: name.clone(),
            is_memory_locked: false,
            enforce_base_address: None,
        }
    }

    /// Whether the memory of a created segment is locked into main memory.
    pub fn is_memory_locked(self, value: bool) -> (builder: SharedMemoryBuilder)
        ensures
            builder == (SharedMemoryBuilder { is_memory_locked: value, ..self }),
    {
        let mut builder = self;
        builder.is_memory_locked = value;
        builder
    }

    /// The address at which the segment must be mapped, or the protocol
    /// fails.
    pub fn enforce_base_address(self, value: u64) -> (builder: SharedMemoryBuilder)
        ensures
            builder == (SharedMemoryBuilder { enforce_base_address: Some(value), ..self }),
    {
        let mut builder = self;
        builder.enforce_base_address = Some(value);
        builder
    }

    /// Starts the protocol that opens the segment. That the segment does not
    /// exist is a failure that is not worth a report.
    pub fn try_open_existing(self, access_mode: AccessMode) -> (setup: SegmentSetup)
        ensures
            setup == self.opening(access_mode, true),
    {
        self.open(access_mode, true)
    }

    /// Starts the protocol that opens the segment.
    pub fn open_existing(self, access_mode: AccessMode) -> (setup: SegmentSetup)
        ensures
            setup == self.opening(access_mode, false),
    {
        self.open(access_mode, false)
    }

    fn open(self, access_mode: AccessMode, quiet: bool) -> (setup: SegmentSetup)
        ensures
            setup == self.opening(access_mode, quiet),
    {
        SegmentSetup {
            name: self.name,
            access_mode,
            permission: Permission::none(),
            size: 0,
            is_memory_locked: self.is_memory_locked,
            has_ownership: false,
            zero_memory: false,
            enforce_base_address: self.enforce_base_address,
            catch_signals: false,
            quiet,
            creating: false,
            phase: Phase::Opening,
            created: false,
            file_descriptor: -1i32,
            base_address: 0,
            memory_locked: false,
        }
    }

    /// Turns to the creation of the segment: of size zero until a size is
    /// given, for its owner alone, zeroed, and owned by the handle.
    pub fn creation_mode(self, creation_mode: CreationMode) -> (builder:
        SharedMemoryCreationBuilder)
        ensures
            builder == (SharedMemoryCreationBuilder {
                name: self.name,
                is_memory_locked: self.is_memory_locked,
                enforce_base_address: self.enforce_base_address,
                creation_mode,
                size: 0,
                permission: Permission::owner_all(),
                zero_memory: true,
                has_ownership: true,
            }),
    {
        SharedMemoryCreationBuilder {
            name: self.name,
            is_memory_locked: self.is_memory_locked,
            enforce_base_address: self.enforce_base_address,
            creation_mode,
            size: 0,
            permission: Permission::owner_all(),
            zero_memory: true,
            has_ownership: true,
        }
    }
}

impl SharedMemoryCreationBuilder {
    /// The call that the creation begins with: the removal of the name where
    /// the segment is to be purged, the attempt to open it where it may
    /// exist, its creation otherwise.
    pub open spec fn first_phase(self) -> Phase {
        match self.creation_mode {
            CreationMode::CreateExclusive => Phase::Creating,
            CreationMode::PurgeAndCreate => Phase::Purging,
            CreationMode::OpenOrCreate => Phase::Probing,
        }
    }

    /// The protocol that creates the segment. It reads and writes, whatever
    /// else was asked for.
    pub open spec fn creating(self, support: PlatformSupport) -> SegmentSetup {
        SegmentSetup {
            name: self.name,
            access_mode: AccessMode::ReadWrite,
            permission: self.permission,
            size: self.size,
            is_memory_locked: self.is_memory_locked,
            has_ownership: self.has_ownership,
            zero_memory: self.zero_memory,
            enforce_base_address: self.enforce_base_address,
            catch_signals: support.advanced_signal_handling,
            quiet: true,
            creating: true,
            phase: self.first_phase(),
            created: false,
            file_descriptor: -1i32,
            base_address: 0,
            memory_locked: false,
        }
    }

    /// The permissions of the new segment.
    pub fn permission(self, value: Permission) -> (builder: SharedMemoryCreationBuilder)
        ensures
            builder == (SharedMemoryCreationBuilder { permission: value, ..self }),
    {
        let mut builder = self;
        builder.permission = value;
        builder
    }

    /// Whether the memory of the new segment is filled with zeros, which
    /// also shows that the memory is really there.
    pub fn zero_memory(self, value: bool) -> (builder: SharedMemoryCreationBuilder)
        ensures
            builder == (SharedMemoryCreationBuilder { zero_memory: value, ..self }),
    {
        let mut builder = self;
        builder.zero_memory = value;
        builder
    }

    /// The size of the segment in bytes.
    pub fn size(self, size: usize) -> (builder: SharedMemoryCreationBuilder)
        ensures
            builder == (SharedMemoryCreationBuilder { size, ..self }),
    {
        let mut builder = self;
        builder.size = size;
        builder
    }

    /// Whether the handle owns the segment it created, and removes it when
    /// it goes.
    pub fn has_ownership(self, value: bool) -> (builder: SharedMemoryCreationBuilder)
        ensures
            builder == (SharedMemoryCreationBuilder { has_ownership: value, ..self }),
    {
        let mut builder = self;
        builder.has_ownership = value;
        builder
    }

    /// Starts the protocol that creates the segment.
    pub fn create(self, support: PlatformSupport) -> (setup: SegmentSetup)
        ensures
            setup == self.creating(support),
    {
        let phase = match self.creation_mode {
            CreationMode::CreateExclusive => Phase::Creating,
            CreationMode::PurgeAndCreate => Phase::Purging,
            CreationMode::OpenOrCreate => Phase::Probing,
        };
        SegmentSetup {
            name: self.name,
            access_mode: AccessMode::ReadWrite,
            permission: self.permission,
            size: self.size,
            is_memory_locked: self.is_memory_locked,
            has_ownership: self.has_ownership,
            zero_memory: self.zero_memory,
            enforce_base_address: self.enforce_base_address,
            catch_signals: support.advanced_signal_handling,
            quiet: true,
            creating: true,
            phase,
            created: false,
            file_descriptor: -1i32,
            base_address: 0,
            memory_locked: false,
        }
    }
}

} // verus!
