//! The handle to a mapped segment, and what giving it up takes.

use vstd::prelude::*;
use crate::bytes::c_str_prefix;
use crate::file_name::{is_file_name, FileName};
use crate::shared_memory::types::{
    answers,
    AccessMode,
    OsReply,
    OsRequest,
    PlatformSupport,
    SharedMemoryRemoveError,
    UnlinkMode,
};
use crate::shared_memory::translate::{open_request, shm_unlink, unlink_outcome};

verus! {

/// A range of mapped memory.
#[derive(Clone, Copy, Debug, PartialEq, Eq, Structural)]
pub struct MappedRange {
    pub base_address: usize,
    pub size: usize,
}

/// What is to be undone, in this order: the mapping, the name of the
/// segment, the open descriptor, the lock on the memory.
#[derive(Clone, Copy, Debug, PartialEq, Eq, Structural)]
pub struct Teardown {
    pub unmap: Option<MappedRange>,
    pub unlink: bool,
    pub close: Option<i32>,
    pub unlock: bool,
}

impl Teardown {
    /// Nothing is to be undone.
    pub open spec fn spec_nothing() -> Teardown {
        Teardown { unmap: None, unlink: false, close: None, unlock: false }
    }

    #[verifier::when_used_as_spec(spec_nothing)]
    pub fn nothing() -> (teardown: Teardown)
        ensures
            teardown == Teardown::spec_nothing(),
    {
        Teardown { unmap: None, unlink: false, close: None, unlock: false }
    }
}

/// A segment that is mapped into this process.
#[derive(Debug)]
pub struct SharedMemory {
    pub name: FileName,
    pub size: usize,
    pub base_address: usize,
    pub has_ownership: bool,
    pub file_descriptor: i32,
    pub memory_locked: bool,
}

impl SharedMemory {
    /// A handle that can be observed: its memory is mapped, so the base
    /// address is not null, and its descriptor is open.
    pub open spec fn wf(&self) -> bool {
        self.base_address != 0 && self.file_descriptor >= 0
    }

    /// The handle after it gave the ownership up.
    pub open spec fn released(self) -> SharedMemory {
        SharedMemory { has_ownership: false, ..self }
    }

    /// The handle after it took the ownership.
    pub open spec fn acquired(self) -> SharedMemory {
        SharedMemory { has_ownership: true, ..self }
    }

    /// What giving the handle up takes: the mapping goes, the name goes where
    /// the handle owns the segment, the descriptor is closed, the lock goes
    /// where there is one.
    pub open spec fn teardown_of(self) -> Teardown {
        Teardown {
            unmap: Some(MappedRange { base_address: self.base_address, size: self.size }),
            unlink: self.has_ownership,
            close: Some(self.file_descriptor),
            unlock: self.memory_locked,
        }
    }

    /// The request that probes whether the segment of some name exists: it is
    /// opened for reading.
    pub fn does_exist() -> (request: OsRequest)
        ensures
            request == open_request(AccessMode::Read),
    {
        OsRequest::Open {
            access_mode: AccessMode::Read,
            create_exclusive: false,
            permission: crate::shared_memory::types::Permission::none(),
        }
    }

    /// Whether the probe found the segment: it exists and is accessible
    /// where, and only where, it could be opened.
    pub fn does_exist_reply(reply: OsReply) -> (exists: bool)
        requires
            answers(open_request(AccessMode::Read), reply),
        ensures
            exists == (reply is Opened),
    {
        match reply {
            OsReply::Opened { .. } => true,
            _ => false,
        }
    }

    /// Whether a segment stays when the last handle to it is gone.
    pub fn does_support_persistency(support: PlatformSupport) -> (persistent: bool)
        ensures
            persistent == support.persistent_shared_memory,
    {
        support.persistent_shared_memory
    }

    /// Whether giving this handle up removes the segment.
    pub fn has_ownership(&self) -> (owning: bool)
        ensures
            owning == self.has_ownership,
    {
        self.has_ownership
    }

    /// Gives the ownership up: the segment stays when the handle goes.
    pub fn release_ownership(&mut self)
        ensures
            *final(self) == old(self).released(),
    {
        self.has_ownership = false;
    }

    /// Takes the ownership: the segment goes when the handle goes.
    pub fn acquire_ownership(&mut self)
        ensures
            *final(self) == old(self).acquired(),
    {
        self.has_ownership = true;
    }

    /// What the removal of a segment by its name comes to, from what the
    /// system answered to the request `OsRequest::Unlink`. That the segment is
    /// not there is a failure.
    pub fn remove(reply: OsReply) -> (result: Result<(), SharedMemoryRemoveError>)
        requires
            answers(OsRequest::Unlink, reply),
        ensures
            result == unlink_outcome(reply, UnlinkMode::PrintErrorWhenNotExisting),
    {
        shm_unlink(reply, UnlinkMode::PrintErrorWhenNotExisting)
    }

    /// The names of the segments among `raw_names`, each of which holds a
    /// name and the NUL that ends it: what is no file name is left out.
    pub fn list(raw_names: &[[u8; 256]]) -> (names: Vec<FileName>)
        ensures
            names@.len() == listed_names(raw_names@).len(),
            forall|i: int|
                0 <= i < names@.len() ==> (#[trigger] names@[i])@ == listed_names(raw_names@)[i],
    {
        let mut names: Vec<FileName> = Vec::new();
        let n: usize = raw_names.len();
        let mut i: usize = 0;
        while i < n
            invariant
                n == raw_names@.len(),
                i <= n,
                names@.len() == listed_names(raw_names@.take(i as int)).len(),
                forall|k: int|
                    0 <= k < names@.len() ==> (#[trigger] names@[k])@ == listed_names(
                        raw_names@.take(i as int),
                    )[k],
            decreases n - i,
        {
            proof {
                assert(raw_names@.take(i + 1).drop_last() =~= raw_names@.take(i as int));
                assert(raw_names@.take(i + 1).last() == raw_names@[i as int]);
            }
            match FileName::from_c_str(raw_names[i].as_slice()) {
                Ok(name) => {
                    names.push(name);
                },
                Err(_) => {},
            }
            i += 1;
        }
        assert(raw_names@.take(n as int) =~= raw_names@);
        names
    }

    /// The name of the segment.
    pub fn name(&self) -> (name: &FileName)
        ensures
            *name == self.name,
    {
        &self.name
    }

    /// The address of the first byte of the mapping. It is never null.
    pub fn base_address(&self) -> (address: usize)
        requires
            self.wf(),
        ensures
            address == self.base_address,
            address != 0,
    {
        self.base_address
    }

    /// The length of the mapping in bytes.
    pub fn size(&self) -> (size: usize)
        ensures
            size == self.size,
    {
        self.size
    }

    /// The descriptor that keeps the segment open.
    pub fn file_descriptor(&self) -> (file_descriptor: i32)
        ensures
            file_descriptor == self.file_descriptor,
    {
        self.file_descriptor
    }

    /// What giving the handle up takes.
    pub fn teardown(&self) -> (teardown: Teardown)
        ensures
            teardown == self.teardown_of(),
    {
        Teardown {
            unmap: Some(MappedRange { base_address: self.base_address, size: self.size }),
            unlink: self.has_ownership,
            close: Some(self.file_descriptor),
            unlock: self.memory_locked,
        }
    }
}

/// The file names among the names in `raw_names`, in their order.
pub open spec fn listed_names(raw_names: Seq<[u8; 256]>) -> Seq<Seq<u8>>
    decreases raw_names.len(),
{
    if raw_names.len() == 0 {
        Seq::empty()
    } else {
        let name = c_str_prefix(raw_names.last()@);
        if is_file_name(name) {
            listed_names(raw_names.drop_last()).push(name)
        } else {
            listed_names(raw_names.drop_last())
        }
    }
}

/// Giving the ownership up twice is giving it up once.
pub proof fn lemma_release_is_idempotent(shm: SharedMemory)
    ensures
        shm.released().released() == shm.released(),
        !shm.released().has_ownership,
{
}

/// Taking the ownership twice is taking it once.
pub proof fn lemma_acquire_is_idempotent(shm: SharedMemory)
    ensures
        shm.acquired().acquired() == shm.acquired(),
        shm.acquired().has_ownership,
{
}

/// The ownership is all that `release_ownership` and `acquire_ownership`
/// change, and the last of them decides.
pub proof fn lemma_ownership_transfer(shm: SharedMemory)
    ensures
        shm.released().acquired() == shm.acquired(),
        shm.acquired().released() == shm.released(),
        shm.released().name == shm.name && shm.released().size == shm.size
            && shm.released().base_address == shm.base_address && shm.released().file_descriptor
            == shm.file_descriptor && shm.released().memory_locked == shm.memory_locked,
        shm.acquired().name == shm.name && shm.acquired().size == shm.size
            && shm.acquired().base_address == shm.base_address && shm.acquired().file_descriptor
            == shm.file_descriptor && shm.acquired().memory_locked == shm.memory_locked,
{
}

} // verus!
