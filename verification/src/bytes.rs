//! Bytes as the system lays them out: strings that end with NUL, numbers
//! with the lowest byte first, and padding.

use vstd::prelude::*;

verus! {

/// `count` zeros.
pub open spec fn zeros(count: nat) -> Seq<u8> {
    Seq::new(count, |i: int| 0u8)
}

/// The bytes of `bytes` before its first NUL; all of them where it holds none.
pub open spec fn c_str_prefix(bytes: Seq<u8>) -> Seq<u8>
    decreases bytes.len(),
{
    if bytes.len() == 0 || bytes[0] == 0 {
        Seq::empty()
    } else {
        seq![bytes[0]] + c_str_prefix(bytes.subrange(1, bytes.len() as int))
    }
}

/// `c_str_prefix` is a prefix without NUL, and it ends where the first NUL
/// stands or where the bytes end.
pub proof fn lemma_c_str_prefix(bytes: Seq<u8>)
    ensures
        c_str_prefix(bytes).len() <= bytes.len(),
        c_str_prefix(bytes) =~= bytes.subrange(0, c_str_prefix(bytes).len() as int),
        forall|i: int| 0 <= i < c_str_prefix(bytes).len() ==> #[trigger] bytes[i] != 0,
        c_str_prefix(bytes).len() < bytes.len() ==> bytes[c_str_prefix(bytes).len() as int] == 0,
    decreases bytes.len(),
{
    if bytes.len() == 0 || bytes[0] == 0 {
    } else {
        let rest = bytes.subrange(1, bytes.len() as int);
        lemma_c_str_prefix(rest);
        let p = c_str_prefix(rest);
        assert forall|i: int| 0 <= i < c_str_prefix(bytes).len() implies #[trigger] bytes[i] != 0 by {
            if i > 0 {
                assert(rest[i - 1] == bytes[i]);
            }
        }
        assert forall|i: int| 0 <= i < c_str_prefix(bytes).len() implies c_str_prefix(bytes)[i]
            == bytes[i] by {
            if i > 0 {
                assert(p[i - 1] == rest.subrange(0, p.len() as int)[i - 1]);
            }
        }
        if c_str_prefix(bytes).len() < bytes.len() {
            assert(rest[p.len() as int] == bytes[p.len() as int + 1]);
        }
    }
}

/// The number that the four bytes at `at` stand for, the lowest byte first.
pub open spec fn le_u32_at(bytes: Seq<u8>, at: int) -> int {
    bytes[at] + 0x100 * bytes[at + 1] + 0x1_0000 * bytes[at + 2] + 0x100_0000 * bytes[at + 3]
}

/// Reads the number that the four bytes at `at` stand for, the lowest byte
/// first.
pub fn read_le_u32(bytes: &[u8], at: usize) -> (value: u32)
    requires
        at + 3 < bytes@.len(),
    ensures
        value == le_u32_at(bytes@, at as int),
{
    let value: u64 = bytes[at] as u64 + 0x100 * (bytes[at + 1] as u64) + 0x1_0000 * (bytes[at
        + 2] as u64) + 0x100_0000 * (bytes[at + 3] as u64);
    value as u32
}

} // verus!
