//! The user-namespace probe's buffer rendering and errno judgement.

use boxlite::credentials::{check_clone_new_user_errno, format_id_map, write_u32_to_buf};

#[test]
fn test_write_u32_to_buf() {
    let mut buf = vec![0u8; 16];
    let len = write_u32_to_buf(&mut buf, 12345);
    assert_eq!(&buf[..len], b"12345");
}

#[test]
fn test_write_u32_to_buf_zero() {
    let mut buf = vec![0u8; 16];
    let len = write_u32_to_buf(&mut buf, 0);
    assert_eq!(&buf[..len], b"0");
}

#[test]
fn test_write_u32_to_buf_max() {
    let mut buf = vec![0u8; 16];
    let len = write_u32_to_buf(&mut buf, u32::MAX);
    assert_eq!(&buf[..len], b"4294967295");
}

#[test]
fn test_format_id_map_line() {
    let mut buf = vec![0u8; 32];
    let len = format_id_map(&mut buf, 1000, 1000);
    assert_eq!(&buf[..len], b"1000 1000 1\n");
}

#[test]
fn test_format_id_map_zero() {
    let mut buf = vec![0u8; 32];
    let len = format_id_map(&mut buf, 0, 0);
    assert_eq!(&buf[..len], b"0 0 1\n");
}

#[test]
fn test_check_clone_new_user_errno_expected() {
    // EPERM, EUSERS, EINVAL, ENOSPC are the errnos the kernel is known to
    // return for refused user namespaces.
    assert_eq!(check_clone_new_user_errno(1), (1, true));
    assert_eq!(check_clone_new_user_errno(87), (87, true));
    assert_eq!(check_clone_new_user_errno(22), (22, true));
    assert_eq!(check_clone_new_user_errno(28), (28, true));
}

#[test]
fn test_check_clone_new_user_errno_unexpected() {
    // EACCES is not among them.
    assert_eq!(check_clone_new_user_errno(13), (13, false));
}
