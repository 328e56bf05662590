use keyz::command::close_command;
use keyz::command::delete_command;
use keyz::command::expires_in_command;
use keyz::command::get_command;
use keyz::command::set_command;
use keyz::decimal::format_u64;
use keyz::decimal::parse_u64;

#[test]
fn set_command_without_expiration() {
    let cmd = set_command(&b"test".to_vec(), &b"1".to_vec(), None);
    assert_eq!(cmd, b"SET test 1".to_vec());
}

#[test]
fn set_command_with_expiration() {
    let cmd = set_command(&b"test".to_vec(), &b"1".to_vec(), Some(20));
    assert_eq!(cmd, b"SET test 1 EX 20".to_vec());
}

#[test]
fn get_command_text() {
    assert_eq!(get_command(&b"test".to_vec()), b"GET test".to_vec());
}

#[test]
fn delete_command_text() {
    assert_eq!(delete_command(&b"test".to_vec()), b"DEL test".to_vec());
}

#[test]
fn expires_in_command_text() {
    assert_eq!(expires_in_command(&b"test".to_vec()), b"EXIN test".to_vec());
}

#[test]
fn close_command_text() {
    assert_eq!(close_command(), b"CLOSE".to_vec());
}

#[test]
fn formats_decimal_seconds() {
    assert_eq!(format_u64(0), b"0".to_vec());
    assert_eq!(format_u64(20), b"20".to_vec());
    assert_eq!(format_u64(1234567890), b"1234567890".to_vec());
    assert_eq!(format_u64(u64::MAX), b"18446744073709551615".to_vec());
}

#[test]
fn parses_decimal_seconds() {
    assert_eq!(parse_u64(&b"0".to_vec()), Some(0));
    assert_eq!(parse_u64(&b"20".to_vec()), Some(20));
    assert_eq!(parse_u64(&b"007".to_vec()), Some(7));
    assert_eq!(parse_u64(&b"18446744073709551615".to_vec()), Some(u64::MAX));
}

#[test]
fn rejects_non_decimal_text() {
    assert_eq!(parse_u64(&b"".to_vec()), None);
    assert_eq!(parse_u64(&b"12a".to_vec()), None);
    assert_eq!(parse_u64(&b"-5".to_vec()), None);
    assert_eq!(parse_u64(&b" 5".to_vec()), None);
    // One past u64::MAX.
    assert_eq!(parse_u64(&b"18446744073709551616".to_vec()), None);
}
