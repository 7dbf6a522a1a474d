use fov_zoom::input::{key_is_down, wheel_delta, WM_MOUSEWHEEL};

#[test]
fn key_down_reads_high_bit() {
    assert!(key_is_down(i16::MIN));
    assert!(key_is_down(-32767));
    assert!(key_is_down(-1));
    assert!(!key_is_down(0));
    assert!(!key_is_down(1));
    assert!(!key_is_down(0x7FFF));
}

#[test]
fn wheel_delta_from_high_word() {
    assert_eq!(wheel_delta(0, WM_MOUSEWHEEL, 120 << 16), Some(120));
    assert_eq!(wheel_delta(0, WM_MOUSEWHEEL, 0xFF88_0000), Some(-120));
    assert_eq!(wheel_delta(3, WM_MOUSEWHEEL, 0x0078_FFFF), Some(120));
}

#[test]
fn wheel_delta_only_for_processed_wheel_messages() {
    assert_eq!(wheel_delta(-1, WM_MOUSEWHEEL, 120 << 16), None);
    assert_eq!(wheel_delta(0, 0x0200, 120 << 16), None);
}
