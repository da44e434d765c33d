//! Error numbers as the operating system reports them.

use vstd::prelude::*;

verus! {

/// The error conditions that the tables of this library tell apart. Every
/// other error number is `Other`.
#[allow(non_camel_case_types)]
#[derive(Clone, Copy, Debug, PartialEq, Eq, Structural)]
pub enum ErrnoKind {
    EACCES,
    EAGAIN,
    EEXIST,
    EINVAL,
    EMFILE,
    ENFILE,
    ENOENT,
    ENAMETOOLONG,
    ENOBUFS,
    EOVERFLOW,
    Other,
}

/// The families of systems that number their errors alike.
#[derive(Clone, Copy, Debug, PartialEq, Eq, Structural)]
pub enum Platform {
    Linux,
    FreeBsd,
    MacOs,
    Windows,
}

/// An error number: the condition it stands for, and the number itself as
/// the platform at hand encodes it.
#[derive(Clone, Copy, Debug, PartialEq, Eq, Structural)]
pub struct Errno {
    pub kind: ErrnoKind,
    pub code: i32,
}

/// The number that `platform` gives to the condition `kind`, for the
/// conditions that have a name here.
pub open spec fn number_of(platform: Platform, kind: ErrnoKind) -> Option<i32> {
    match kind {
        ErrnoKind::ENOENT => Some(2i32),
        ErrnoKind::EACCES => Some(13i32),
        ErrnoKind::EEXIST => Some(17i32),
        ErrnoKind::EINVAL => Some(22i32),
        ErrnoKind::ENFILE => Some(23i32),
        ErrnoKind::EMFILE => Some(24i32),
        ErrnoKind::EAGAIN => match platform {
            Platform::Linux | Platform::Windows => Some(11i32),
            Platform::FreeBsd | Platform::MacOs => Some(35i32),
        },
        ErrnoKind::ENAMETOOLONG => match platform {
            Platform::Linux => Some(36i32),
            Platform::FreeBsd | Platform::MacOs => Some(63i32),
            Platform::Windows => Some(38i32),
        },
        ErrnoKind::ENOBUFS => match platform {
            Platform::Linux => Some(105i32),
            Platform::FreeBsd | Platform::MacOs => Some(55i32),
            Platform::Windows => Some(119i32),
        },
        ErrnoKind::EOVERFLOW => match platform {
            Platform::Linux => Some(75i32),
            Platform::FreeBsd | Platform::MacOs => Some(84i32),
            Platform::Windows => Some(132i32),
        },
        ErrnoKind::Other => None,
    }
}

/// The condition that the number `code` stands for on `platform`.
pub open spec fn kind_of(platform: Platform, code: i32) -> ErrnoKind {
    if number_of(platform, ErrnoKind::ENOENT) == Some(code) {
        ErrnoKind::ENOENT
    } else if number_of(platform, ErrnoKind::EACCES) == Some(code) {
        ErrnoKind::EACCES
    } else if number_of(platform, ErrnoKind::EEXIST) == Some(code) {
        ErrnoKind::EEXIST
    } else if number_of(platform, ErrnoKind::EINVAL) == Some(code) {
        ErrnoKind::EINVAL
    } else if number_of(platform, ErrnoKind::ENFILE) == Some(code) {
        ErrnoKind::ENFILE
    } else if number_of(platform, ErrnoKind::EMFILE) == Some(code) {
        ErrnoKind::EMFILE
    } else if number_of(platform, ErrnoKind::EAGAIN) == Some(code) {
        ErrnoKind::EAGAIN
    } else if number_of(platform, ErrnoKind::ENAMETOOLONG) == Some(code) {
        ErrnoKind::ENAMETOOLONG
    } else if number_of(platform, ErrnoKind::ENOBUFS) == Some(code) {
        ErrnoKind::ENOBUFS
    } else if number_of(platform, ErrnoKind::EOVERFLOW) == Some(code) {
        ErrnoKind::EOVERFLOW
    } else {
        ErrnoKind::Other
    }
}

/// On every platform the named conditions have numbers of their own: the
/// number of a condition stands for that condition and for no other.
pub proof fn lemma_numbers_tell_conditions_apart(platform: Platform, kind: ErrnoKind)
    ensures
        number_of(platform, kind) matches Some(code) ==> kind_of(platform, code) == kind,
        number_of(platform, kind) is None <==> kind == ErrnoKind::Other,
{
}

/// A number stands for a named condition only where it is the number of
/// that condition.
pub proof fn lemma_condition_has_its_number(platform: Platform, code: i32)
    ensures
        kind_of(platform, code) != ErrnoKind::Other ==> number_of(
            platform,
            kind_of(platform, code),
        ) == Some(code),
{
}

impl Errno {
    pub fn new(kind: ErrnoKind, code: i32) -> (errno: Errno)
        ensures
            errno == (Errno { kind, code }),
    {
        Errno { kind, code }
    }

    /// The error that the number `code` is on `platform`.
    pub fn from_raw(platform: Platform, code: i32) -> (errno: Errno)
        ensures
            errno == (Errno { kind: kind_of(platform, code), code }),
    {
        let bsd = match platform {
            Platform::FreeBsd | Platform::MacOs => true,
            _ => false,
        };
        let windows = match platform {
            Platform::Windows => true,
            _ => false,
        };
        let kind = if code == 2 {
            ErrnoKind::ENOENT
        } else if code == 13 {
            ErrnoKind::EACCES
        } else if code == 17 {
            ErrnoKind::EEXIST
        } else if code == 22 {
            ErrnoKind::EINVAL
        } else if code == 23 {
            ErrnoKind::ENFILE
        } else if code == 24 {
            ErrnoKind::EMFILE
        } else if code == (if bsd {
            35
        } else {
            11
        }) {
            ErrnoKind::EAGAIN
        } else if code == (if bsd {
            63
        } else if windows {
            38
        } else {
            36
        }) {
            ErrnoKind::ENAMETOOLONG
        } else if code == (if bsd {
            55
        } else if windows {
            119
        } else {
            105
        }) {
            ErrnoKind::ENOBUFS
        } else if code == (if bsd {
            84
        } else if windows {
            132
        } else {
            75
        }) {
            ErrnoKind::EOVERFLOW
        } else {
            ErrnoKind::Other
        };
        Errno { kind, code }
    }

    /// The number that `platform` gives to the condition `kind`, if the
    /// condition has a name here.
    pub fn number(platform: Platform, kind: ErrnoKind) -> (code: Option<i32>)
        ensures
            code == number_of(platform, kind),
    {
        let bsd = match platform {
            Platform::FreeBsd | Platform::MacOs => true,
            _ => false,
        };
        let windows = match platform {
            Platform::Windows => true,
            _ => false,
        };
        match kind {
            ErrnoKind::ENOENT => Some(2),
            ErrnoKind::EACCES => Some(13),
            ErrnoKind::EEXIST => Some(17),
            ErrnoKind::EINVAL => Some(22),
            ErrnoKind::ENFILE => Some(23),
            ErrnoKind::EMFILE => Some(24),
            ErrnoKind::EAGAIN => Some(
                if bsd {
                    35
                } else {
                    11
                },
            ),
            ErrnoKind::ENAMETOOLONG => Some(
                if bsd {
                    63
                } else if windows {
                    38
                } else {
                    36
                },
            ),
            ErrnoKind::ENOBUFS => Some(
                if bsd {
                    55
                } else if windows {
                    119
                } else {
                    105
                },
            ),
            ErrnoKind::EOVERFLOW => Some(
                if bsd {
                    84
                } else if windows {
                    132
                } else {
                    75
                },
            ),
            ErrnoKind::Other => None,
        }
    }
}

} // verus!
