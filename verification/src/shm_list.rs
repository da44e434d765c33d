//! The list of the live segments as the kernel hands it out on request: a
//! buffer of records of varying length, each with its own size in front and
//! the path of a segment at a fixed place.

use vstd::prelude::*;
use crate::bytes::{c_str_prefix, le_u32_at, lemma_c_str_prefix, read_le_u32, zeros};
use crate::math::aligned;

verus! {

/// Where in a record the path of the segment begins.
pub const RECORD_PATH_OFFSET: usize = 368;

/// The alignment of a record: the next one begins at the next multiple.
pub const RECORD_ALIGNMENT: usize = 8;

/// The length of the buffer that a name is handed out in.
pub const NAME_BUFFER_LENGTH: usize = 256;

/// The length of the buffer to ask the kernel with, given the length the
/// kernel said the list has: a third more, for the list may grow meanwhile.
pub fn shm_list_buffer_length(reported: usize) -> (length: usize)
    requires
        reported * 4 <= usize::MAX,
    ensures
        length == reported * 4 / 3,
{
    reported * 4 / 3
}

/// The size that the record at `at` gives for itself: its first four bytes,
/// the lowest first, as a signed number.
pub open spec fn record_size(buffer: Seq<u8>, at: int) -> int {
    let unsigned = le_u32_at(buffer, at);
    if unsigned >= 0x8000_0000 {
        unsigned - 0x1_0000_0000
    } else {
        unsigned
    }
}

/// Whether a record stands at `at`: the buffer holds it up to the first byte
/// of its path, its size is positive, and its path is not empty.
pub open spec fn has_record(buffer: Seq<u8>, at: int) -> bool {
    &&& 0 <= at
    &&& at + RECORD_PATH_OFFSET < buffer.len()
    &&& record_size(buffer, at) > 0
    &&& buffer[at + RECORD_PATH_OFFSET] != 0
}

/// The name buffer filled from `source`: the bytes before the first NUL, at
/// most as many as the buffer takes, and zeros behind them.
pub open spec fn name_buffer(source: Seq<u8>) -> Seq<u8> {
    let bounded = source.take(
        if source.len() < NAME_BUFFER_LENGTH {
            source.len() as int
        } else {
            NAME_BUFFER_LENGTH as int
        },
    );
    let name = c_str_prefix(bounded);
    name + zeros((NAME_BUFFER_LENGTH - name.len()) as nat)
}

/// The name in the record at `at`: its path without the separator that the
/// path begins with.
pub open spec fn record_name(buffer: Seq<u8>, at: int) -> Seq<u8> {
    name_buffer(buffer.skip(at + RECORD_PATH_OFFSET + 1))
}

/// The names in the records from `at` on. The list ends where no record
/// stands.
pub open spec fn record_names(buffer: Seq<u8>, at: int) -> Seq<Seq<u8>>
    decreases
            (if at < buffer.len() {
                buffer.len() - at
            } else {
                0
            }),
    via record_names_come_to_an_end
{
    if !has_record(buffer, at) {
        Seq::empty()
    } else {
        seq![record_name(buffer, at)] + record_names(
            buffer,
            at + aligned(record_size(buffer, at), RECORD_ALIGNMENT as int),
        )
    }
}

#[via_fn]
proof fn record_names_come_to_an_end(buffer: Seq<u8>, at: int) {
    if has_record(buffer, at) {
        let size = record_size(buffer, at);
        crate::math::lemma_aligned_is_least_multiple(size, RECORD_ALIGNMENT as int);
        assert(aligned(size, RECORD_ALIGNMENT as int) >= size);
    }
}

fn read_record_size(buffer: &[u8], at: usize) -> (size: Option<usize>)
    requires
        at + 3 < buffer@.len(),
    ensures
        match size {
            Some(size) => size == record_size(buffer@, at as int) && 0 < size < 0x8000_0000,
            None => record_size(buffer@, at as int) <= 0,
        },
{
    let unsigned: u32 = read_le_u32(buffer, at);
    if unsigned == 0 || unsigned >= 0x8000_0000 {
        None
    } else {
        Some(unsigned as usize)
    }
}

fn copy_name(buffer: &[u8], from: usize) -> (name: [u8; 256])
    requires
        from <= buffer@.len(),
    ensures
        name@ == name_buffer(buffer@.skip(from as int)),
{
    let mut name: [u8; 256] = [0u8; 256];
    let n: usize = buffer.len();
    let ghost source = buffer@.skip(from as int);
    let ghost bounded = source.take(
        if source.len() < NAME_BUFFER_LENGTH {
            source.len() as int
        } else {
            NAME_BUFFER_LENGTH as int
        },
    );
    let mut i: usize = 0;
    proof {
        lemma_c_str_prefix(bounded);
    }
    while i < 256 && from + i < n && buffer[from + i] != 0
        invariant
            n == buffer@.len(),
            from <= n,
            i <= 256,
            from + i <= n,
            source == buffer@.skip(from as int),
            forall|j: int| 0 <= j < i ==> name@[j] == source[j] && source[j] != 0,
            forall|j: int| i <= j < 256 ==> name@[j] == 0,
        decreases 256 - i,
    {
        name[i] = buffer[from + i];
        i += 1;
    }
    proof {
        let p = c_str_prefix(bounded);
        if p.len() < i {
            assert(bounded[p.len() as int] == source[p.len() as int]);
        }
        if i < p.len() {
            assert(bounded[i as int] == source[i as int]);
        }
        assert(name@ =~= name_buffer(source));
    }
    name
}

/// The names of the segments that the buffer lists, each in a buffer of its
/// own and in the order of the records.
pub fn shm_list(buffer: &[u8]) -> (names: Vec<[u8; 256]>)
    ensures
        names@.len() == record_names(buffer@, 0).len(),
        forall|i: int| 0 <= i < names@.len() ==> (#[trigger] names@[i])@ == record_names(buffer@, 0)[i],
{
    let mut names: Vec<[u8; 256]> = Vec::new();
    let n: usize = buffer.len();
    let mut at: usize = 0;
    loop
        invariant_except_break
            record_names(buffer@, 0).len() == names@.len() + record_names(buffer@, at as int).len(),
            forall|i: int|
                0 <= i < record_names(buffer@, at as int).len() ==> record_names(buffer@, 0)[names@.len()
                    + i] == #[trigger] record_names(buffer@, at as int)[i],
        invariant
            n == buffer@.len(),
            at <= n,
            forall|i: int| 0 <= i < names@.len() ==> (#[trigger] names@[i])@ == record_names(buffer@, 0)[i],
        ensures
            record_names(buffer@, 0).len() == names@.len(),
            forall|i: int| 0 <= i < names@.len() ==> (#[trigger] names@[i])@ == record_names(buffer@, 0)[i],
        decreases n - at,
    {
        if n - at <= RECORD_PATH_OFFSET {
            break ;
        }
        let size = match read_record_size(buffer, at) {
            Some(size) => size,
            None => {
                break ;
            },
        };
        if buffer[at + RECORD_PATH_OFFSET] == 0 {
            break ;
        }
        let name = copy_name(buffer, at + RECORD_PATH_OFFSET + 1);
        let rest: usize = size % RECORD_ALIGNMENT;
        let step: usize = if rest == 0 {
            size
        } else {
            size + (RECORD_ALIGNMENT - rest)
        };
        let ghost here = record_names(buffer@, at as int);
        let ghost there = record_names(buffer@, at + step);
        assert(here =~= seq![record_name(buffer@, at as int)] + there);
        assert(record_names(buffer@, 0)[names@.len() as int] == here[0]);
        assert forall|i: int| 0 <= i < there.len() implies record_names(buffer@, 0)[names@.len() + 1
            + i] == #[trigger] there[i] by {
            assert(here[i + 1] == there[i]);
        }
        names.push(name);
        if step >= n - at {
            assert(!has_record(buffer@, at + step));
            break ;
        }
        at = at + step;
    }
    names
}

} // verus!
