use posix_shm::file_name::{FileName, FileNameError, FILE_NAME_LENGTH};

#[test]
fn file_name_accepts_ordinary_names() {
    let name = FileName::new(b"someShmName").unwrap();
    assert_eq!(name.as_bytes(), b"someShmName");
    assert_eq!(name.len(), 11);
    assert!(FileName::new(b"...").is_ok());
    assert!(FileName::new(b"a.b-c_d 1").is_ok());
    assert!(FileName::new(&[b'a'; FILE_NAME_LENGTH]).is_ok());
}

#[test]
fn file_name_rejects_invalid_content() {
    for invalid in [&b""[..], b".", b"..", b"a/b", b"a\\b", b"nul\0", b"a:b", b"a*b", b"a?b",
        b"a<b", b"a>b", b"a|b", b"a\"b", b"tab\t", b"\x1f"]
    {
        assert_eq!(FileName::new(invalid).err(), Some(FileNameError::InvalidContent));
    }
}

#[test]
fn file_name_rejects_what_is_too_long() {
    assert_eq!(
        FileName::new(&[b'a'; FILE_NAME_LENGTH + 1]).err(),
        Some(FileNameError::ExceedsMaximumLength)
    );
    assert_eq!(
        FileName::new(&[b'/'; 300]).err(),
        Some(FileNameError::ExceedsMaximumLength)
    );
}

#[test]
fn file_name_from_c_str_ends_at_the_first_nul() {
    assert_eq!(FileName::from_c_str(b"abc\0def\0").unwrap().as_bytes(), b"abc");
    assert_eq!(FileName::from_c_str(b"abc").unwrap().as_bytes(), b"abc");
    assert_eq!(FileName::from_c_str(b"\0abc").err(), Some(FileNameError::InvalidContent));
    assert_eq!(
        FileName::from_c_str(&[b'a'; 256]).err(),
        Some(FileNameError::ExceedsMaximumLength)
    );
}

#[test]
fn file_name_shm_path_puts_the_separator_in_front() {
    assert_eq!(FileName::new(b"someShmName").unwrap().shm_path(), b"/someShmName".to_vec());
    assert_eq!(FileName::new(b"x").unwrap().shm_path(), b"/x".to_vec());
}

#[test]
fn file_name_equals_compares_the_bytes() {
    let name = FileName::new(b"one").unwrap();
    assert!(name.equals(&name.clone()));
    assert!(name.equals(&FileName::new(b"one").unwrap()));
    assert!(!name.equals(&FileName::new(b"two").unwrap()));
    assert!(!name.equals(&FileName::new(b"one1").unwrap()));
}
