//! The mode of a file on a system that knows attributes in place of modes.

use vstd::prelude::*;

verus! {

/// The file is a directory.
pub const S_IFDIR: u64 = 0x4000;

/// The file is a regular file.
pub const S_IFREG: u64 = 0x8000;

/// The attribute of a directory.
pub const FILE_ATTRIBUTE_DIRECTORY: u32 = 16;

/// What the system answers where it cannot tell the attributes of a file.
pub const INVALID_FILE_ATTRIBUTES: u32 = 0xffff_ffff;

/// The constant `FILE_ATTRIBUTE_DIRECTORY` of
/// `windows_sys::Win32::Storage::FileSystem`, which is 16: the bit that the
/// attributes of a directory have set.
#[verifier::external_body]
fn file_attribute_directory() -> (attribute: u32)
    ensures
        attribute == 16,
{
    windows_sys::Win32::Storage::FileSystem::FILE_ATTRIBUTE_DIRECTORY
}

/// The constant `INVALID_FILE_ATTRIBUTES` of
/// `windows_sys::Win32::Storage::FileSystem`, which is 4294967295: what
/// `GetFileAttributesA` returns where it fails.
#[verifier::external_body]
fn invalid_file_attributes() -> (attributes: u32)
    ensures
        attributes == 0xffff_ffff,
{
    windows_sys::Win32::Storage::FileSystem::INVALID_FILE_ATTRIBUTES
}

/// Why the mode of a file cannot be told.
#[derive(Clone, Copy, Debug, PartialEq, Eq, Structural)]
pub enum StatError {
    /// The system does not know the attributes of the file.
    InvalidAttributes,
    /// The permissions of the file cannot be told in a mode; the error
    /// number to report is `EOVERFLOW`.
    Overflow,
}

/// The kind of file that the attributes tell of.
pub open spec fn file_type(attributes: u32) -> u64 {
    if attributes & FILE_ATTRIBUTE_DIRECTORY != 0 {
        S_IFDIR
    } else {
        S_IFREG
    }
}

/// The mode of a file, from its attributes and from the permissions that
/// were found for its path: the kind of the file and the permissions
/// together.
pub fn stat(attributes: u32, permissions: Option<u64>) -> (result: Result<u64, StatError>)
    ensures
        result == (if attributes == INVALID_FILE_ATTRIBUTES {
            Err::<u64, StatError>(StatError::InvalidAttributes)
        } else {
            match permissions {
                None => Err(StatError::Overflow),
                Some(permissions) => Ok(file_type(attributes) | permissions),
            }
        }),
{
    if attributes == invalid_file_attributes() {
        return Err(StatError::InvalidAttributes);
    }
    let kind: u64 = if attributes & file_attribute_directory() != 0 {
        S_IFDIR
    } else {
        S_IFREG
    };
    match permissions {
        None => Err(StatError::Overflow),
        Some(permissions) => Ok(kind | permissions),
    }
}

/// The mask that new files are created with is not known here: every bit
/// is reported as set.
pub fn umask(mask: u64) -> (previous: u64)
    ensures
        previous == u64::MAX,
{
    u64::MAX
}

} // verus!
