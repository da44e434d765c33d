//! The arithmetic of control messages: a buffer of messages, each with a
//! header that begins with the length of the message, and each beginning at
//! a multiple of the machine word.

use vstd::prelude::*;
use vstd::layout::size_of;
use crate::bytes::{le_u32_at, read_le_u32};
use crate::math::{aligned, lemma_aligned_is_least_multiple};

verus! {

/// The size of the header of a control message: its length, its level and
/// its type, four bytes each.
pub const CMSG_HEADER_SIZE: usize = 12;

/// `len` rounded up to the next multiple of the machine word.
pub open spec fn cmsg_aligned(len: int) -> int {
    aligned(len, size_of::<usize>() as int)
}

/// The length that the message at `at` gives for itself: the first four
/// bytes of its header, the lowest first.
pub open spec fn cmsg_len_at(control: Seq<u8>, at: int) -> int {
    le_u32_at(control, at)
}

/// Where the message behind the one at `at` begins, if the buffer holds one:
/// the header at `at` is whole, and the next message lies in the buffer with
/// its header and with all that its length announces.
pub open spec fn next_header(control: Seq<u8>, at: int) -> Option<int> {
    let next = at + cmsg_aligned(cmsg_len_at(control, at));
    if cmsg_len_at(control, at) < CMSG_HEADER_SIZE {
        None
    } else if next + CMSG_HEADER_SIZE > control.len() {
        None
    } else if next + cmsg_aligned(cmsg_len_at(control, next)) > control.len() {
        None
    } else {
        Some(next)
    }
}

proof fn lemma_word_size()
    ensures
        size_of::<usize>() == 4 || size_of::<usize>() == 8,
        size_of::<usize>() * 8 == usize::BITS,
{
    broadcast use vstd::layout::layout_of_primitives;

}

proof fn lemma_mask_aligns_4(len: usize)
    by (bit_vector)
    requires
        (len + 3) as usize >= len,
    ensures
        ((len + 3) as usize) & !3usize == (if len % 4 == 0 {
            len as int
        } else {
            len + 4 - len % 4
        }),
{
}

proof fn lemma_mask_aligns_8(len: usize)
    by (bit_vector)
    requires
        (len + 7) as usize >= len,
    ensures
        ((len + 7) as usize) & !7usize == (if len % 8 == 0 {
            len as int
        } else {
            len + 8 - len % 8
        }),
{
}

/// Rounds `len` up to the next multiple of the machine word.
#[allow(non_snake_case)]
pub fn CMSG_ALIGN(len: usize) -> (result: usize)
    requires
        len + size_of::<usize>() - 1 <= usize::MAX,
    ensures
        result == cmsg_aligned(len as int),
        result >= len,
        result as int % size_of::<usize>() as int == 0,
        result - len < size_of::<usize>(),
{
    let word: usize = core::mem::size_of::<usize>();
    proof {
        lemma_word_size();
        lemma_aligned_is_least_multiple(len as int, word as int);
        if word == 4 {
            lemma_mask_aligns_4(len);
        } else {
            lemma_mask_aligns_8(len);
        }
    }
    (len + (word - 1)) & !(word - 1)
}

/// The space that a control message with `length` bytes of data takes in a
/// buffer: the header and the data, each rounded up to the machine word. The
/// sum is cut down to 32 bits.
#[allow(non_snake_case)]
pub fn CMSG_SPACE_NON_CONST(length: u32) -> (result: u32)
    requires
        cmsg_aligned(length as int) + cmsg_aligned(CMSG_HEADER_SIZE as int) <= usize::MAX,
    ensures
        result == (cmsg_aligned(length as int) + cmsg_aligned(CMSG_HEADER_SIZE as int))
            % 0x1_0000_0000,
{
    proof {
        lemma_word_size();
        lemma_aligned_is_least_multiple(length as int, size_of::<usize>() as int);
    }
    let space: usize = CMSG_ALIGN(length as usize) + CMSG_ALIGN(CMSG_HEADER_SIZE);
    let wide: u64 = space as u64;
    let result: u32 = #[verifier::truncate]
    (wide as u32);
    assert(result == wide % 0x1_0000_0000) by (bit_vector)
        requires
            result == wide as u32,
    ;
    result
}

/// The space that a control message with `length` bytes of data takes in a
/// buffer.
#[allow(non_snake_case)]
pub fn CMSG_SPACE(length: u32) -> (result: u32)
    requires
        cmsg_aligned(length as int) + cmsg_aligned(CMSG_HEADER_SIZE as int) <= usize::MAX,
    ensures
        result == (cmsg_aligned(length as int) + cmsg_aligned(CMSG_HEADER_SIZE as int))
            % 0x1_0000_0000,
{
    CMSG_SPACE_NON_CONST(length)
}

/// The length to write into the header of a control message with `length`
/// bytes of data: the header rounded up to the machine word, and the data.
#[allow(non_snake_case)]
pub fn CMSG_LEN(length: u32) -> (result: u32)
    requires
        cmsg_aligned(CMSG_HEADER_SIZE as int) + length <= u32::MAX,
    ensures
        result == cmsg_aligned(CMSG_HEADER_SIZE as int) + length,
{
    proof {
        lemma_word_size();
    }
    CMSG_ALIGN(CMSG_HEADER_SIZE) as u32 + length
}

/// Where in the control buffer of `controllen` bytes the first message
/// begins: at its start, if the buffer can hold a header at all.
#[allow(non_snake_case)]
pub fn CMSG_FIRSTHDR(controllen: usize) -> (first: Option<usize>)
    ensures
        first == (if controllen < CMSG_HEADER_SIZE {
            None
        } else {
            Some(0usize)
        }),
{
    if controllen < CMSG_HEADER_SIZE {
        None
    } else {
        Some(0)
    }
}

/// Where in the control buffer the message behind the one at `at` begins, if
/// the buffer holds one.
#[allow(non_snake_case)]
pub fn CMSG_NXTHDR(control: &[u8], at: usize) -> (next: Option<usize>)
    requires
        at + CMSG_HEADER_SIZE <= control@.len(),
    ensures
        match next {
            Some(next) => next_header(control@, at as int) == Some(next as int),
            None => next_header(control@, at as int) is None,
        },
{
    proof {
        lemma_word_size();
    }
    let n: usize = control.len();
    let len: usize = read_le_u32(control, at) as usize;
    if len < CMSG_HEADER_SIZE {
        return None;
    }
    proof {
        lemma_aligned_is_least_multiple(len as int, size_of::<usize>() as int);
    }
    if len > n - at || len > usize::MAX - 7 {
        return None;
    }
    let step: usize = CMSG_ALIGN(len);
    if step > n - at || n - at - step < CMSG_HEADER_SIZE {
        return None;
    }
    let next: usize = at + step;
    let next_len: usize = read_le_u32(control, next) as usize;
    proof {
        lemma_aligned_is_least_multiple(next_len as int, size_of::<usize>() as int);
    }
    if next_len > n - next || next_len > usize::MAX - 7 {
        return None;
    }
    if CMSG_ALIGN(next_len) > n - next {
        return None;
    }
    Some(next)
}

/// Where the data of the control message at `at` begins: behind its header,
/// rounded up to the machine word.
#[allow(non_snake_case)]
pub fn CMSG_DATA(at: usize) -> (data: usize)
    requires
        at + cmsg_aligned(CMSG_HEADER_SIZE as int) <= usize::MAX,
    ensures
        data == at + cmsg_aligned(CMSG_HEADER_SIZE as int),
{
    proof {
        lemma_word_size();
    }
    at + CMSG_ALIGN(CMSG_HEADER_SIZE)
}

} // verus!
