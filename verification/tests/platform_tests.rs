use posix_shm::errno::{Errno, ErrnoKind, Platform};
use posix_shm::port_to_uds::has_created_shm;
use posix_shm::select::{
    CMSG_ALIGN, CMSG_DATA, CMSG_FIRSTHDR, CMSG_HEADER_SIZE, CMSG_LEN, CMSG_NXTHDR, CMSG_SPACE,
    CMSG_SPACE_NON_CONST,
};
use posix_shm::socket::sendto;
use posix_shm::stat::umask;
use posix_shm::time::{clock_nanosleep, CLOCK_REALTIME};

const WORD: usize = std::mem::size_of::<usize>();

#[test]
fn cmsg_align_rounds_up_to_the_machine_word() {
    assert_eq!(CMSG_ALIGN(0), 0);
    assert_eq!(CMSG_ALIGN(1), WORD);
    assert_eq!(CMSG_ALIGN(WORD), WORD);
    assert_eq!(CMSG_ALIGN(WORD + 1), 2 * WORD);
    assert_eq!(CMSG_ALIGN(12), (12 + WORD - 1) / WORD * WORD);
    assert_eq!(CMSG_ALIGN(usize::MAX - WORD + 1), usize::MAX - WORD + 1);
}

#[test]
fn cmsg_space_adds_header_and_data() {
    let header = CMSG_ALIGN(CMSG_HEADER_SIZE) as u32;
    assert_eq!(CMSG_SPACE_NON_CONST(0), header);
    assert_eq!(CMSG_SPACE_NON_CONST(4), header + WORD as u32);
    assert_eq!(CMSG_SPACE_NON_CONST(17), header + CMSG_ALIGN(17) as u32);
    assert_eq!(CMSG_SPACE(17), CMSG_SPACE_NON_CONST(17));
    assert_eq!(CMSG_LEN(17), header + 17);
    assert_eq!(CMSG_DATA(40), 40 + header as usize);
}

#[test]
fn cmsg_space_is_cut_down_to_32_bits() {
    if WORD == 8 {
        assert_eq!(CMSG_SPACE_NON_CONST(u32::MAX), 16);
        assert_eq!(CMSG_SPACE_NON_CONST(u32::MAX - 16), 0xffff_fff0u32.wrapping_add(16));
    }
}

fn message(length: u32, space: usize) -> Vec<u8> {
    let mut bytes = vec![0u8; space];
    bytes[..4].copy_from_slice(&length.to_le_bytes());
    bytes
}

#[test]
fn cmsg_headers_are_walked() {
    assert_eq!(CMSG_FIRSTHDR(0), None);
    assert_eq!(CMSG_FIRSTHDR(11), None);
    assert_eq!(CMSG_FIRSTHDR(12), Some(0));

    let mut control = message(20, 24);
    control.extend(message(16, 16));
    assert_eq!(CMSG_NXTHDR(&control, 0), Some(24));
    // behind the last message there is none
    assert_eq!(CMSG_NXTHDR(&control, 24), None);
    // a message that announces more than the buffer holds is none
    let mut control = message(20, 24);
    control.extend(message(17, 16));
    assert_eq!(CMSG_NXTHDR(&control, 0), None);
    // a header that is not whole ends the walk
    let control = message(11, 48);
    assert_eq!(CMSG_NXTHDR(&control, 0), None);
}

#[test]
fn sendto_asks_to_try_again_where_no_buffer_is_left() {
    assert_eq!(sendto(-1, ErrnoKind::ENOBUFS), ErrnoKind::EAGAIN);
    assert_eq!(sendto(-1, ErrnoKind::EACCES), ErrnoKind::EACCES);
    assert_eq!(sendto(-1, ErrnoKind::EAGAIN), ErrnoKind::EAGAIN);
    assert_eq!(sendto(10, ErrnoKind::ENOBUFS), ErrnoKind::ENOBUFS);
}

#[test]
fn clock_nanosleep_knows_the_wall_clock_only() {
    assert_eq!(clock_nanosleep(CLOCK_REALTIME), Ok(()));
    assert_eq!(clock_nanosleep(1), Err(ErrnoKind::EINVAL));
    assert_eq!(clock_nanosleep(-1), Err(ErrnoKind::EINVAL));
}

#[test]
fn umask_reports_every_bit() {
    assert_eq!(umask(0o022), u64::MAX);
}

#[test]
fn has_created_shm_goes_by_the_last_error() {
    assert!(has_created_shm(0));
    assert!(!has_created_shm(183));
    assert!(has_created_shm(2));
}

#[test]
fn errno_from_raw_knows_the_numbers_of_each_platform() {
    let kind = |platform, code| Errno::from_raw(platform, code).kind;
    for platform in [Platform::Linux, Platform::FreeBsd, Platform::MacOs, Platform::Windows] {
        assert_eq!(kind(platform, 2), ErrnoKind::ENOENT);
        assert_eq!(kind(platform, 13), ErrnoKind::EACCES);
        assert_eq!(kind(platform, 17), ErrnoKind::EEXIST);
        assert_eq!(kind(platform, 22), ErrnoKind::EINVAL);
        assert_eq!(kind(platform, 23), ErrnoKind::ENFILE);
        assert_eq!(kind(platform, 24), ErrnoKind::EMFILE);
        assert_eq!(kind(platform, 5), ErrnoKind::Other);
        assert_eq!(kind(platform, 0), ErrnoKind::Other);
        assert_eq!(kind(platform, -1), ErrnoKind::Other);
        assert_eq!(Errno::from_raw(platform, 5).code, 5);
    }
    assert_eq!(kind(Platform::Linux, 11), ErrnoKind::EAGAIN);
    assert_eq!(kind(Platform::Linux, 35), ErrnoKind::Other);
    assert_eq!(kind(Platform::Linux, 36), ErrnoKind::ENAMETOOLONG);
    assert_eq!(kind(Platform::Linux, 75), ErrnoKind::EOVERFLOW);
    assert_eq!(kind(Platform::Linux, 105), ErrnoKind::ENOBUFS);
    assert_eq!(kind(Platform::FreeBsd, 35), ErrnoKind::EAGAIN);
    assert_eq!(kind(Platform::FreeBsd, 11), ErrnoKind::Other);
    assert_eq!(kind(Platform::MacOs, 63), ErrnoKind::ENAMETOOLONG);
    assert_eq!(kind(Platform::MacOs, 55), ErrnoKind::ENOBUFS);
    assert_eq!(kind(Platform::FreeBsd, 84), ErrnoKind::EOVERFLOW);
    assert_eq!(kind(Platform::Windows, 11), ErrnoKind::EAGAIN);
    assert_eq!(kind(Platform::Windows, 38), ErrnoKind::ENAMETOOLONG);
    assert_eq!(kind(Platform::Windows, 119), ErrnoKind::ENOBUFS);
    assert_eq!(kind(Platform::Windows, 132), ErrnoKind::EOVERFLOW);
}

#[test]
fn errno_number_is_the_inverse_of_from_raw() {
    let kinds = [
        ErrnoKind::EACCES,
        ErrnoKind::EAGAIN,
        ErrnoKind::EEXIST,
        ErrnoKind::EINVAL,
        ErrnoKind::EMFILE,
        ErrnoKind::ENFILE,
        ErrnoKind::ENOENT,
        ErrnoKind::ENAMETOOLONG,
        ErrnoKind::ENOBUFS,
        ErrnoKind::EOVERFLOW,
    ];
    for platform in [Platform::Linux, Platform::FreeBsd, Platform::MacOs, Platform::Windows] {
        for kind in kinds {
            let code = Errno::number(platform, kind).unwrap();
            assert_eq!(Errno::from_raw(platform, code), Errno { kind, code });
        }
        assert_eq!(Errno::number(platform, ErrnoKind::Other), None);
    }
}

#[test]
fn errno_keeps_kind_and_code() {
    let errno = Errno::new(ErrnoKind::ENOENT, 2);
    assert_eq!(errno.kind, ErrnoKind::ENOENT);
    assert_eq!(errno.code, 2);
}
