//! The directory from port numbers to the names of the sockets that stand
//! behind them. Each port has a slot of two name buffers and a counter that
//! says which of them holds the name: a writer fills the other one and then
//! moves the counter on, so that a reader is never handed half a name.

use vstd::prelude::*;
use crate::bytes::{c_str_prefix, lemma_c_str_prefix, zeros};

verus! {

/// What `init_check` holds once the directory is ready for use.
pub const IS_INITIALIZED: u64 = 0xaffedeadbeef;

/// What `init_check` holds while one process initializes the directory.
pub const INITIALIZATION_IN_PROGRESS: u64 = 0xbebebebebebebebe;

/// The name under which all processes find the directory, with the NUL that
/// ends it.
pub const SHM_SEGMENT_NAME: [u8; 22] = [
    0x2f, 0x70, 0x6f, 0x72, 0x74, 0x5f, 0x74, 0x6f, 0x5f, 0x75, 0x64, 0x73, 0x5f, 0x6e, 0x61,
    0x6d, 0x65, 0x5f, 0x6d, 0x61, 0x70, 0x00,
];

/// The length of a name buffer.
pub const MAX_UDS_NAME_LEN: usize = 108;

/// The number of slots: one for each port below this number.
pub const NUMBER_OF_PORTS: usize = 65535;

/// The bytes that one slot takes: the counter and the two buffers.
pub const ENTRY_SIZE: usize = 224;

/// The bytes that the directory takes: `init_check` and the slots.
pub const SHM_SIZE: usize = 14679848;

/// The constant `ERROR_ALREADY_EXISTS` of `windows_sys::Win32::Foundation`,
/// which is 183: the last error after a mapping was asked for and one of
/// that name was there.
#[verifier::external_body]
fn error_already_exists() -> (code: u32)
    ensures
        code == 183,
{
    windows_sys::Win32::Foundation::ERROR_ALREADY_EXISTS
}

/// Whether the mapping that the system just handed out is a new one, by the
/// last error that the system recorded: the process that made the mapping is
/// the one to initialize the directory.
pub fn has_created_shm(last_error: u32) -> (created: bool)
    ensures
        created == (last_error != 183),
{
    last_error != error_already_exists()
}

/// `value` in a name buffer: the value, then zeros.
pub open spec fn padded(value: Seq<u8>) -> Seq<u8>
    recommends
        value.len() <= MAX_UDS_NAME_LEN,
{
    value + zeros((MAX_UDS_NAME_LEN - value.len()) as nat)
}

/// The buffer that a writer fills when the counter stands at `counter`.
pub open spec fn write_index(counter: u64) -> int {
    counter as int % 2
}

/// The buffer that holds the name when the counter stands at `counter`: the
/// one that the last writer filled.
pub open spec fn read_index(counter: u64) -> int {
    (counter as int + 1) % 2
}

/// The index of the buffer that a writer fills when the counter stands at
/// `counter`.
pub fn write_slot(counter: u64) -> (index: usize)
    ensures
        index == write_index(counter),
        index < 2,
{
    (counter % 2) as usize
}

/// The index of the buffer that holds the name when the counter stands at
/// `counter`.
pub fn read_slot(counter: u64) -> (index: usize)
    ensures
        index == read_index(counter),
        index < 2,
        index != write_index(counter),
{
    (counter.wrapping_sub(1) % 2) as usize
}

/// Where in the directory the counter of `port` stands: behind `init_check`
/// and the slots of the lower ports.
pub open spec fn counter_offset_of(port: int) -> int {
    8 + port * ENTRY_SIZE
}

/// Where in the directory the buffer `index` of `port` begins: behind the
/// counter of the slot and, for the second buffer, the first.
pub open spec fn buffer_offset_of(port: int, index: int) -> int {
    counter_offset_of(port) + 8 + index * MAX_UDS_NAME_LEN
}

/// Where in the directory the counter of `port` stands.
pub fn counter_offset(port: u16) -> (offset: usize)
    requires
        port < NUMBER_OF_PORTS,
    ensures
        offset == counter_offset_of(port as int),
        offset + ENTRY_SIZE <= SHM_SIZE,
        offset % 8 == 0,
{
    8 + port as usize * ENTRY_SIZE
}

/// Where in the directory the buffer `index` of `port` begins.
pub fn buffer_offset(port: u16, index: usize) -> (offset: usize)
    requires
        port < NUMBER_OF_PORTS,
        index < 2,
    ensures
        offset == buffer_offset_of(port as int, index as int),
        counter_offset_of(port as int) + 8 <= offset,
        offset + MAX_UDS_NAME_LEN <= counter_offset_of(port as int) + ENTRY_SIZE,
        offset + MAX_UDS_NAME_LEN <= SHM_SIZE,
{
    counter_offset(port) + 8 + index * MAX_UDS_NAME_LEN
}

/// Whether the name in the buffer `stored` is `name`. A buffer that begins
/// with NUL holds no name, one without any NUL is not looked at, and the name
/// ends where the first NUL stands.
pub open spec fn holds_name(stored: Seq<u8>, name: Seq<u8>) -> bool {
    0 < name.len() < stored.len() && c_str_prefix(stored) == name
}

/// The slot of one port.
#[derive(Clone, Copy, Debug)]
pub struct Entry {
    pub aba_counter: u64,
    pub even: [u8; 108],
    pub odd: [u8; 108],
}

impl Entry {
    /// The buffer of the given index.
    pub open spec fn buffer(self, index: int) -> Seq<u8> {
        if index == 0 {
            self.even@
        } else {
            self.odd@
        }
    }

    /// The name that a reader finds in the slot.
    pub open spec fn current(self) -> Seq<u8> {
        self.buffer(read_index(self.aba_counter))
    }

    /// The slot holds nothing but zeros but for its counter, which stands at
    /// `counter`.
    pub open spec fn is_empty_at(self, counter: u64) -> bool {
        &&& self.aba_counter == counter
        &&& self.even@ == zeros(MAX_UDS_NAME_LEN as nat)
        &&& self.odd@ == zeros(MAX_UDS_NAME_LEN as nat)
    }

    /// `after` is the slot once `value` was stored in it: the buffer that
    /// writers fill holds the value, the other one is as it was, and the
    /// counter has moved on by one, starting over behind its last number.
    pub open spec fn stored(self, value: Seq<u8>, after: Entry) -> bool {
        &&& after.buffer(write_index(self.aba_counter)) == padded(value)
        &&& after.buffer(read_index(self.aba_counter)) == self.buffer(
            read_index(self.aba_counter),
        )
        &&& after.aba_counter as int == (self.aba_counter as int + 1) % 0x1_0000_0000_0000_0000
    }

    /// A slot as the system hands it out: all zero.
    pub fn new() -> (entry: Entry)
        ensures
            entry.is_empty_at(0),
    {
        let entry = Entry { aba_counter: 0, even: [0u8; 108], odd: [0u8; 108] };
        assert(entry.even@ =~= zeros(MAX_UDS_NAME_LEN as nat));
        assert(entry.odd@ =~= zeros(MAX_UDS_NAME_LEN as nat));
        entry
    }

    /// Makes the slot ready for use: it holds no name, and the counter
    /// stands at one.
    pub fn initialize(&mut self)
        ensures
            final(self).is_empty_at(1),
            final(self).current() == zeros(MAX_UDS_NAME_LEN as nat),
    {
        self.aba_counter = 1;
        self.even = [0u8; 108];
        self.odd = [0u8; 108];
        assert(self.even@ =~= zeros(MAX_UDS_NAME_LEN as nat));
        assert(self.odd@ =~= zeros(MAX_UDS_NAME_LEN as nat));
    }

    /// Stores `value` as the name of the slot. The buffer that readers are
    /// referred to until the counter moves is left as it is.
    pub fn set(&mut self, value: &[u8])
        requires
            value@.len() <= MAX_UDS_NAME_LEN,
        ensures
            old(self).stored(value@, *final(self)),
            final(self).current() == padded(value@),
    {
        let current: u64 = self.aba_counter;
        let filled = fill(value);
        if write_slot(current) == 0 {
            self.even = filled;
        } else {
            self.odd = filled;
        }
        self.aba_counter = current.wrapping_add(1);
    }

    /// The name of the slot, in a buffer of its own.
    pub fn get(&self) -> (name: [u8; 108])
        ensures
            name@ == self.current(),
    {
        let current: u64 = self.aba_counter;
        if read_slot(current) == 0 {
            self.even
        } else {
            self.odd
        }
    }
}

/// A name buffer that holds `value`.
fn fill(value: &[u8]) -> (filled: [u8; 108])
    requires
        value@.len() <= MAX_UDS_NAME_LEN,
    ensures
        filled@ == padded(value@),
{
    let mut filled: [u8; 108] = [0u8; 108];
    let n: usize = value.len();
    let mut i: usize = 0;
    while i < n
        invariant
            n == value@.len(),
            n <= 108,
            i <= n,
            forall|j: int| 0 <= j < i ==> filled@[j] == value@[j],
            forall|j: int| i <= j < 108 ==> filled@[j] == 0,
        decreases n - i,
    {
        filled[i] = value[i];
        i += 1;
    }
    assert(filled@ =~= padded(value@));
    filled
}

/// Tells whether the name in the buffer `stored` is `name`.
pub fn is_name(stored: &[u8; 108], name: &[u8]) -> (same: bool)
    ensures
        same == holds_name(stored@, name@),
{
    let n: usize = name.len();
    proof {
        lemma_c_str_prefix(stored@);
    }
    if n == 0 || n >= MAX_UDS_NAME_LEN {
        return false;
    }
    if stored[n] != 0 {
        assert(c_str_prefix(stored@).len() != n);
        return false;
    }
    let mut i: usize = 0;
    while i < n
        invariant
            n == name@.len(),
            0 < n < 108,
            i <= n,
            forall|j: int| 0 <= j < i ==> stored@[j] == name@[j] && stored@[j] != 0,
        decreases n - i,
    {
        if stored[i] == 0 || stored[i] != name[i] {
            proof {
                lemma_c_str_prefix(stored@);
                let p = c_str_prefix(stored@);
                if p == name@ {
                    assert(p[i as int] == stored@.subrange(0, p.len() as int)[i as int]);
                }
            }
            return false;
        }
        i += 1;
    }
    proof {
        lemma_c_str_prefix(stored@);
        let p = c_str_prefix(stored@);
        if p.len() < n {
            assert(stored@[p.len() as int] == 0);
        }
        assert(p =~= name@);
    }
    true
}

/// The directory.
#[derive(Debug)]
pub struct PortToUdsNameMap {
    pub init_check: u64,
    pub uds_names: Vec<Entry>,
}

impl PortToUdsNameMap {
    /// A directory has a slot for each port.
    pub open spec fn wf(&self) -> bool {
        self.uds_names@.len() == NUMBER_OF_PORTS
    }

    /// The name that a reader finds for each port.
    pub open spec fn names(&self) -> Seq<Seq<u8>> {
        Seq::new(self.uds_names@.len(), |port: int| self.uds_names@[port].current())
    }

    /// The directory has been made ready for use.
    pub open spec fn is_ready(&self) -> bool {
        self.init_check == IS_INITIALIZED
    }

    /// Every slot holds nothing but zeros but for its counter, which stands
    /// at `counter`.
    pub open spec fn all_empty_at(&self, counter: u64) -> bool {
        forall|port: int|
            0 <= port < self.uds_names@.len() ==> (#[trigger] self.uds_names@[port]).is_empty_at(
                counter,
            )
    }

    /// The port that a search for `name` from the port `from` on comes to:
    /// the lowest whose slot holds the name, and zero where none does.
    pub open spec fn port_of(names: Seq<Seq<u8>>, name: Seq<u8>, from: int) -> int
        decreases names.len() - from,
    {
        if from < 0 || from >= names.len() {
            0
        } else if holds_name(names[from], name) {
            from
        } else {
            Self::port_of(names, name, from + 1)
        }
    }

    /// A directory as the system hands it out to the process that comes
    /// first: all zero, and not ready for use.
    pub fn new() -> (map: PortToUdsNameMap)
        ensures
            map.wf(),
            map.init_check == 0,
            map.all_empty_at(0),
    {
        let mut uds_names: Vec<Entry> = Vec::with_capacity(NUMBER_OF_PORTS);
        let mut i: usize = 0;
        while i < NUMBER_OF_PORTS
            invariant
                i <= NUMBER_OF_PORTS,
                uds_names@.len() == i,
                forall|port: int| 0 <= port < i ==> (#[trigger] uds_names@[port]).is_empty_at(0),
            decreases NUMBER_OF_PORTS - i,
        {
            uds_names.push(Entry::new());
            i += 1;
        }
        PortToUdsNameMap { init_check: 0, uds_names }
    }

    /// Makes the directory ready for use where no one has begun to: every
    /// slot is initialized, then the directory is marked. Tells whether the
    /// directory is ready; where it is not, another process is at work on it
    /// and the caller is to ask again.
    pub fn initialize(&mut self) -> (ready: bool)
        requires
            old(self).wf(),
        ensures
            final(self).wf(),
            ready == final(self).is_ready(),
            old(self).init_check == 0 ==> ready && final(self).all_empty_at(1) && final(self).names() == Seq::new(
                NUMBER_OF_PORTS as nat,
                |port: int| zeros(MAX_UDS_NAME_LEN as nat),
            ),
            old(self).init_check != 0 ==> *final(self) == *old(self),
    {
        if self.init_check != 0 {
            return self.init_check == IS_INITIALIZED;
        }
        self.init_check = INITIALIZATION_IN_PROGRESS;
        let mut i: usize = 0;
        while i < NUMBER_OF_PORTS
            invariant
                i <= NUMBER_OF_PORTS,
                self.uds_names@.len() == NUMBER_OF_PORTS,
                forall|port: int|
                    0 <= port < i ==> (#[trigger] self.uds_names@[port]).is_empty_at(1),
            decreases NUMBER_OF_PORTS - i,
        {
            let mut entry = self.uds_names[i];
            entry.initialize();
            self.uds_names.set(i, entry);
            i += 1;
        }
        self.init_check = IS_INITIALIZED;
        assert(self.names() =~= Seq::new(
            NUMBER_OF_PORTS as nat,
            |port: int| zeros(MAX_UDS_NAME_LEN as nat),
        ));
        true
    }

    /// Stores `name` as the name of `port`. No other port is touched.
    pub fn set(&mut self, port: u16, name: &[u8])
        requires
            old(self).wf(),
            port < NUMBER_OF_PORTS,
            name@.len() <= MAX_UDS_NAME_LEN,
        ensures
            final(self).wf(),
            final(self).init_check == old(self).init_check,
            final(self).names() == old(self).names().update(port as int, padded(name@)),
            old(self).uds_names@[port as int].stored(name@, final(self).uds_names@[port as int]),
            forall|other: int|
                0 <= other < NUMBER_OF_PORTS && other != port ==> #[trigger] final(self).uds_names@[other] == old(self).uds_names@[other],
    {
        let mut entry = self.uds_names[port as usize];
        entry.set(name);
        self.uds_names.set(port as usize, entry);
        assert(self.names() =~= old(self).names().update(port as int, padded(name@)));
    }

    /// The name of `port`.
    pub fn get(&self, port: u16) -> (name: [u8; 108])
        requires
            self.wf(),
            port < NUMBER_OF_PORTS,
        ensures
            name@ == self.names()[port as int],
    {
        self.uds_names[port as usize].get()
    }

    /// The port of `name`: the lowest port whose slot holds the name, and
    /// zero where no slot does or the name is empty.
    pub fn get_port(&self, name: &[u8]) -> (port: u16)
        requires
            self.wf(),
        ensures
            port == Self::port_of(self.names(), name@, 0),
            port < NUMBER_OF_PORTS,
            forall|lower: int| 0 <= lower < port ==> !holds_name(self.names()[lower], name@),
            holds_name(self.names()[port as int], name@) || (port == 0 && forall|other: int|
                0 <= other < NUMBER_OF_PORTS ==> !holds_name(self.names()[other], name@)),
    {
        let mut i: usize = 0;
        while i < NUMBER_OF_PORTS
            invariant
                i <= NUMBER_OF_PORTS,
                self.wf(),
                forall|lower: int| 0 <= lower < i ==> !holds_name(self.names()[lower], name@),
                Self::port_of(self.names(), name@, 0) == Self::port_of(self.names(), name@, i as int),
            decreases NUMBER_OF_PORTS - i,
        {
            let entry_name = self.uds_names[i].get();
            assert(entry_name@ == self.names()[i as int]);
            if is_name(&entry_name, name) {
                return i as u16;
            }
            i += 1;
        }
        0
    }

    /// Takes the name of `port` away: its slot holds no name.
    pub fn reset(&mut self, port: u16)
        requires
            old(self).wf(),
            port < NUMBER_OF_PORTS,
        ensures
            final(self).wf(),
            final(self).init_check == old(self).init_check,
            final(self).names() == old(self).names().update(
                port as int,
                zeros(MAX_UDS_NAME_LEN as nat),
            ),
            old(self).uds_names@[port as int].stored(
                zeros(MAX_UDS_NAME_LEN as nat),
                final(self).uds_names@[port as int],
            ),
            forall|other: int|
                0 <= other < NUMBER_OF_PORTS && other != port ==> #[trigger] final(self).uds_names@[other] == old(self).uds_names@[other],
    {
        let empty: [u8; 108] = [0u8; 108];
        assert(padded(empty@) =~= zeros(MAX_UDS_NAME_LEN as nat));
        self.set(port, empty.as_slice());
    }
}

} // verus!
