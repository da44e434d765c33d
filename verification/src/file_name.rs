//! Names of shared-memory segments.

use vstd::prelude::*;
use crate::bytes::{c_str_prefix, lemma_c_str_prefix};

verus! {

/// The longest file name, in bytes.
pub const FILE_NAME_LENGTH: usize = 255;

/// The separator between the components of a path.
pub const PATH_SEPARATOR: u8 = 0x2f;

/// A byte that no file name may hold: NUL and the other control characters,
/// the path separators of either family of systems, and the characters that
/// one of them reserves (`:`, `<`, `>`, `"`, `|`, `?`, `*`).
pub open spec fn is_invalid_character(byte: u8) -> bool {
    byte <= 31 || byte == 0x2f || byte == 0x5c || byte == 0x3a || byte == 0x3c || byte == 0x3e
        || byte == 0x22 || byte == 0x7c || byte == 0x3f || byte == 0x2a
}

/// Content that is no file name although each byte is acceptable: the empty
/// name and the two directory links `.` and `..`.
pub open spec fn is_invalid_content(bytes: Seq<u8>) -> bool {
    bytes.len() == 0 || bytes =~= seq![0x2eu8] || bytes =~= seq![0x2eu8, 0x2eu8]
}

/// What makes a sequence of bytes a file name.
pub open spec fn is_file_name(bytes: Seq<u8>) -> bool {
    &&& bytes.len() <= FILE_NAME_LENGTH
    &&& !is_invalid_content(bytes)
    &&& forall|i: int| 0 <= i < bytes.len() ==> !is_invalid_character(#[trigger] bytes[i])
}

/// Why a sequence of bytes is no file name.
#[derive(Clone, Copy, Debug, PartialEq, Eq, Structural)]
pub enum FileNameError {
    InvalidContent,
    ExceedsMaximumLength,
}

/// The name of a file without any directory in front of it.
#[derive(Debug)]
pub struct FileName {
    bytes: Vec<u8>,
}

impl View for FileName {
    type V = Seq<u8>;

    closed spec fn view(&self) -> Seq<u8> {
        self.bytes@
    }
}

fn is_invalid_byte(byte: u8) -> (invalid: bool)
    ensures
        invalid == is_invalid_character(byte),
{
    byte <= 31 || byte == 0x2f || byte == 0x5c || byte == 0x3a || byte == 0x3c || byte == 0x3e
        || byte == 0x22 || byte == 0x7c || byte == 0x3f || byte == 0x2a
}

impl Clone for FileName {
    fn clone(&self) -> (copy: FileName)
        ensures
            copy@ == self@,
    {
        proof {
            use_type_invariant(self);
        }
        FileName { bytes: self.bytes.clone() }
    }
}

impl FileName {
    #[verifier::type_invariant]
    spec fn well_formed(self) -> bool {
        is_file_name(self.bytes@)
    }

    /// Checks `bytes` and makes a name of them. A name that is too long is
    /// reported as such, whatever it holds.
    pub fn new(bytes: &[u8]) -> (result: Result<FileName, FileNameError>)
        ensures
            is_file_name(bytes@) <==> result is Ok,
            result is Ok ==> result->Ok_0@ == bytes@,
            bytes@.len() > FILE_NAME_LENGTH <==> result == Err::<FileName, FileNameError>(
                FileNameError::ExceedsMaximumLength,
            ),
    {
        let n: usize = bytes.len();
        if n > FILE_NAME_LENGTH {
            return Err(FileNameError::ExceedsMaximumLength);
        }
        if n == 0 || (n == 1 && bytes[0] == 0x2e) || (n == 2 && bytes[0] == 0x2e && bytes[1]
            == 0x2e) {
            return Err(FileNameError::InvalidContent);
        }
        let mut copy: Vec<u8> = Vec::with_capacity(n);
        let mut i: usize = 0;
        while i < n
            invariant
                n == bytes@.len(),
                n <= FILE_NAME_LENGTH,
                i <= n,
                copy@ =~= bytes@.subrange(0, i as int),
                forall|j: int| 0 <= j < i ==> !is_invalid_character(#[trigger] bytes@[j]),
            decreases n - i,
        {
            let byte: u8 = bytes[i];
            if is_invalid_byte(byte) {
                return Err(FileNameError::InvalidContent);
            }
            copy.push(byte);
            i += 1;
        }
        assert(copy@ =~= bytes@);
        Ok(FileName { bytes: copy })
    }

    /// Makes a name of the bytes that stand before the first NUL of `buffer`.
    pub fn from_c_str(buffer: &[u8]) -> (result: Result<FileName, FileNameError>)
        ensures
            is_file_name(c_str_prefix(buffer@)) <==> result is Ok,
            result is Ok ==> result->Ok_0@ == c_str_prefix(buffer@),
            c_str_prefix(buffer@).len() > FILE_NAME_LENGTH <==> result == Err::<
                FileName,
                FileNameError,
            >(FileNameError::ExceedsMaximumLength),
    {
        let n: usize = buffer.len();
        let mut end: usize = 0;
        proof {
            lemma_c_str_prefix(buffer@);
        }
        while end < n && buffer[end] != 0
            invariant
                n == buffer@.len(),
                end <= n,
                forall|j: int| 0 <= j < end ==> #[trigger] buffer@[j] != 0,
            decreases n - end,
        {
            end += 1;
        }
        proof {
            let p = c_str_prefix(buffer@).len();
            if p < end {
                assert(buffer@[p as int] == 0);
            }
            if end < p {
                assert(buffer@[end as int] != 0);
            }
            assert(buffer@.subrange(0, end as int) =~= c_str_prefix(buffer@));
        }
        FileName::new(vstd::slice::slice_subrange(buffer, 0, end))
    }

    /// The bytes of the name.
    pub fn as_bytes(&self) -> (bytes: &[u8])
        ensures
            bytes@ == self@,
            is_file_name(self@),
    {
        proof {
            use_type_invariant(self);
        }
        self.bytes.as_slice()
    }

    /// The length of the name in bytes.
    pub fn len(&self) -> (length: usize)
        ensures
            length == self@.len(),
            0 < length <= FILE_NAME_LENGTH,
    {
        proof {
            use_type_invariant(self);
        }
        self.bytes.len()
    }

    /// Whether two names hold the same bytes.
    pub fn equals(&self, other: &FileName) -> (same: bool)
        ensures
            same == (self@ == other@),
    {
        let n: usize = self.bytes.len();
        if n != other.bytes.len() {
            return false;
        }
        let mut i: usize = 0;
        while i < n
            invariant
                n == self.bytes@.len(),
                n == other.bytes@.len(),
                i <= n,
                forall|j: int| 0 <= j < i ==> self.bytes@[j] == other.bytes@[j],
            decreases n - i,
        {
            if self.bytes[i] != other.bytes[i] {
                return false;
            }
            i += 1;
        }
        assert(self.bytes@ =~= other.bytes@);
        true
    }

    /// The path under which the system knows the segment of this name: the
    /// separator, then the name.
    pub fn shm_path(&self) -> (path: Vec<u8>)
        ensures
            path@ == shm_path_of(self@),
    {
        let mut path: Vec<u8> = Vec::new();
        path.push(PATH_SEPARATOR);
        let n: usize = self.bytes.len();
        let mut i: usize = 0;
        while i < n
            invariant
                n == self.bytes@.len(),
                i <= n,
                path@ =~= seq![PATH_SEPARATOR] + self.bytes@.subrange(0, i as int),
            decreases n - i,
        {
            path.push(self.bytes[i]);
            i += 1;
        }
        assert(path@ =~= shm_path_of(self@));
        path
    }
}

/// The path of the segment named `name`.
pub open spec fn shm_path_of(name: Seq<u8>) -> Seq<u8> {
    seq![PATH_SEPARATOR] + name
}

} // verus!
