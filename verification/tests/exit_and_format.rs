//! Exit-code mapping and metric formatting.

use boxlite::fmtutil::{format_bytes, format_duration_ms, format_optional_u64};
use boxlite::to_shell_exit_code;

#[test]
fn test_to_shell_exit_code_success() {
    assert_eq!(to_shell_exit_code(0), 0);
}

#[test]
fn test_to_shell_exit_code_normal_failure() {
    assert_eq!(to_shell_exit_code(1), 1);
    assert_eq!(to_shell_exit_code(127), 127);
}

#[test]
fn test_to_shell_exit_code_signal_termination() {
    assert_eq!(to_shell_exit_code(-9), 137);
    assert_eq!(to_shell_exit_code(-15), 143);
    assert_eq!(to_shell_exit_code(-2), 130);
}

#[test]
fn test_format_bytes() {
    assert_eq!(format_bytes(Some(1024)), "1.0 KiB".to_string());
    assert_eq!(format_bytes(Some(1024 * 1024)), "1.0 MiB".to_string());
    assert_eq!(format_bytes(Some(1024 * 1024 * 1024)), "1.0 GiB".to_string());
    assert_eq!(format_bytes(None), "N/A".to_string());
}

#[test]
fn test_format_bytes_small_and_fractional() {
    assert_eq!(format_bytes(Some(0)), "0 B".to_string());
    assert_eq!(format_bytes(Some(1023)), "1023 B".to_string());
    assert_eq!(format_bytes(Some(1536)), "1.5 KiB".to_string());
}

#[test]
fn test_format_duration_ms() {
    assert_eq!(format_duration_ms(Some(450)), "450 ms".to_string());
    assert_eq!(format_duration_ms(None), "N/A".to_string());
}

#[test]
fn test_format_optional_u64() {
    assert_eq!(format_optional_u64(Some(42)), "42".to_string());
    assert_eq!(format_optional_u64(None), "N/A".to_string());
}

#[test]
fn test_format_bytes_rounds_half_to_even() {
    // 1280 bytes is exactly 1.25 KiB; one decimal place rounds to even.
    assert_eq!(format_bytes(Some(1280)), "1.2 KiB".to_string());
    // 1331.2 is not representable; 1332 bytes is 1.30078... KiB.
    assert_eq!(format_bytes(Some(1332)), "1.3 KiB".to_string());
}
