use fov_zoom::config::ZoomConfig;
use fov_zoom::zoom::{adjust_zoom_level, next_multiplier, scroll_plan, ScrollPlan, ZoomRuntime};

fn config(smooth: bool, speed: u32, level: u32, scroll: bool, step: i32) -> ZoomConfig {
    ZoomConfig {
        zoom_key: 0x43,
        smooth_animation: smooth,
        animation_speed: speed,
        zoom_level: level,
        scroll_adjustment: scroll,
        scroll_step: step,
    }
}

#[test]
fn smooth_multiplier_rises_to_target_without_overshoot() {
    let mut m: u32 = 1000;
    let mut steps = 0;
    while m != 10000 {
        let next = next_multiplier(m, 10000, true, 100);
        assert!(next > m);
        assert!(next <= 10000);
        m = next;
        steps += 1;
        assert!(steps <= 9000);
    }
    assert_eq!(next_multiplier(10000, 10000, true, 100), 10000);
}

#[test]
fn smooth_first_step_covers_a_tenth() {
    assert_eq!(next_multiplier(1000, 10000, true, 100), 1900);
    assert_eq!(next_multiplier(10000, 1000, true, 100), 9100);
}

#[test]
fn smooth_step_rounds_toward_target() {
    assert_eq!(next_multiplier(1000, 1001, true, 10), 1001);
    assert_eq!(next_multiplier(1001, 1000, true, 10), 1000);
}

#[test]
fn full_speed_is_instantaneous() {
    assert_eq!(next_multiplier(1000, 37000, true, 1000), 37000);
}

#[test]
fn snap_sets_target_exactly() {
    assert_eq!(next_multiplier(3000, 10000, false, 100), 10000);
    assert_eq!(next_multiplier(42000, 1000, false, 10), 1000);
}

#[test]
fn scroll_clamps_at_maximum() {
    assert_eq!(adjust_zoom_level(49000, 120, 2000), 50000);
}

#[test]
fn scroll_clamps_at_minimum() {
    assert_eq!(adjust_zoom_level(2000, -360, 1000), 1000);
}

#[test]
fn scroll_moves_by_step_per_notch() {
    assert_eq!(adjust_zoom_level(10000, 240, 1000), 12000);
    assert_eq!(adjust_zoom_level(10000, -120, 500), 9500);
}

#[test]
fn scroll_partial_notch_truncates_toward_zero() {
    assert_eq!(adjust_zoom_level(10000, 60, 1001), 10500);
    assert_eq!(adjust_zoom_level(10000, -60, 1001), 9500);
}

#[test]
fn scroll_plan_cases() {
    assert_eq!(scroll_plan(true, true), ScrollPlan::Consume);
    assert_eq!(scroll_plan(true, false), ScrollPlan::Keep);
    assert_eq!(scroll_plan(false, true), ScrollPlan::Discard);
    assert_eq!(scroll_plan(false, false), ScrollPlan::Discard);
}

#[test]
fn key_release_targets_identity() {
    let c = config(false, 100, 10000, true, 1000);
    let mut rt = ZoomRuntime { multiplier: 10000 };
    let persist = rt.on_frame(&c, false, 0);
    assert_eq!(persist, None);
    assert_eq!(rt.multiplier, 1000);
    assert_eq!(scroll_plan(false, c.scroll_adjustment), ScrollPlan::Discard);
}

#[test]
fn key_release_ignores_wheel() {
    let c = config(true, 100, 10000, true, 1000);
    let mut rt = ZoomRuntime { multiplier: 10000 };
    let persist = rt.on_frame(&c, false, 240);
    assert_eq!(persist, None);
    assert_eq!(rt.multiplier, 9100);
}

#[test]
fn held_key_eases_toward_level() {
    let c = config(true, 100, 10000, false, 1000);
    let mut rt = ZoomRuntime::new();
    assert_eq!(rt.multiplier, 1000);
    assert_eq!(rt.on_frame(&c, true, 0), None);
    assert_eq!(rt.multiplier, 1900);
    assert_eq!(rt.on_frame(&c, true, 0), None);
    assert_eq!(rt.multiplier, 2710);
}

#[test]
fn held_key_with_wheel_persists_level() {
    let c = config(false, 100, 49000, true, 2000);
    let mut rt = ZoomRuntime::new();
    assert_eq!(rt.on_frame(&c, true, 120), Some(50000));
    assert_eq!(rt.multiplier, 50000);
}

#[test]
fn held_key_without_wheel_persists_nothing() {
    let c = config(false, 100, 12000, true, 2000);
    let mut rt = ZoomRuntime::new();
    assert_eq!(rt.on_frame(&c, true, 0), None);
    assert_eq!(rt.multiplier, 12000);
}

#[test]
fn wheel_ignored_when_adjustment_off() {
    let c = config(false, 100, 12000, false, 2000);
    let mut rt = ZoomRuntime::new();
    assert_eq!(rt.on_frame(&c, true, 120), None);
    assert_eq!(rt.multiplier, 12000);
}
