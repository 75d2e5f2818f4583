use bitfun_logic::clock::{system_time_to_unix_secs, Timestamp};
use bitfun_logic::ids::remove_hyphens;
use bitfun_logic::paths::decimal_text;
use bitfun_logic::text::{is_present, trim};
use std::time::{Duration, UNIX_EPOCH};

#[test]
fn trimming_removes_unicode_white_space_only() {
    assert_eq!(trim(" \t\u{3000}a b\u{85}\n"), "a b");
    assert_eq!(trim("\u{200b}x"), "\u{200b}x");
    assert!(!is_present(" \u{a0}\u{2028} "));
    assert!(is_present(" . "));
}

#[test]
fn hyphens_are_removed() {
    assert_eq!(remove_hyphens("a-b--c-"), "abc");
    assert_eq!(remove_hyphens("6f1c2b1e-0c1d-4e5f-8a9b-0c1d2e3f4a5b"), "6f1c2b1e0c1d4e5f8a9b0c1d2e3f4a5b");
}

#[test]
fn decimal_text_has_no_leading_zeros() {
    assert_eq!(decimal_text(0), "0");
    assert_eq!(decimal_text(7), "7");
    assert_eq!(decimal_text(1000), "1000");
    assert_eq!(decimal_text(u32::MAX), "4294967295");
}

#[test]
fn timestamps_convert_to_unix_seconds() {
    let t = Timestamp::from_system_time(UNIX_EPOCH + Duration::new(1_700_000_000, 999_999_999));
    assert_eq!(t, Timestamp { before_epoch: false, nanos: 1_700_000_000_999_999_999 });
    assert_eq!(system_time_to_unix_secs(t), 1_700_000_000);
    let before = Timestamp::from_system_time(UNIX_EPOCH - Duration::from_secs(3));
    assert_eq!(before, Timestamp { before_epoch: true, nanos: 3_000_000_000 });
    assert_eq!(system_time_to_unix_secs(before), 0);
    assert!(!Timestamp::now().before_epoch);
}
