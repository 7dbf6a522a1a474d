use fov_zoom::config::{
    clamp_i64, default_animation_speed, default_smooth_animation, default_zoom_key,
    default_zoom_level, needs_reload, ZoomConfig, ZoomConfigYaml,
};

fn yaml(key: &str, speed: i64, level: i64) -> ZoomConfigYaml {
    ZoomConfigYaml {
        zoom_key: key.to_string(),
        smooth_animation: false,
        animation_speed: speed,
        zoom_level: level,
        scroll_adjustment: true,
        scroll_step: 1500,
    }
}

#[test]
fn defaults() {
    assert_eq!(default_zoom_key(), "C");
    assert!(default_smooth_animation());
    assert_eq!(default_animation_speed(), 100);
    assert_eq!(default_zoom_level(), 10000);
    let c = ZoomConfig::default();
    assert_eq!(c.zoom_key, 0x43);
    assert!(c.smooth_animation);
    assert_eq!(c.animation_speed, 100);
    assert_eq!(c.zoom_level, 10000);
    let y = ZoomConfigYaml::default();
    assert_eq!(y.zoom_key, "C");
    assert_eq!(ZoomConfig::from(y), c);
}

#[test]
fn record_values_are_clamped_on_read() {
    let c = ZoomConfig::from(yaml("F5", 5000, 60000));
    assert_eq!(c.animation_speed, 1000);
    assert_eq!(c.zoom_level, 50000);
    assert_eq!(c.zoom_key, 0x74);
    assert!(!c.smooth_animation);
    assert!(c.scroll_adjustment);
    assert_eq!(c.scroll_step, 1500);
    let low = ZoomConfig::from(yaml("C", 0, -3));
    assert_eq!(low.animation_speed, 10);
    assert_eq!(low.zoom_level, 1000);
}

#[test]
fn out_of_range_speed_written_as_given_then_clamped() {
    let written = yaml("C", 5000, 10000);
    assert_eq!(written.animation_speed, 5000);
    let read = ZoomConfig::from(written.clone());
    assert_eq!(read.animation_speed, 1000);
    assert_eq!(read.to_yaml().animation_speed, 1000);
}

#[test]
fn config_round_trip() {
    let c = ZoomConfig {
        zoom_key: 0x11,
        smooth_animation: false,
        animation_speed: 250,
        zoom_level: 32500,
        scroll_adjustment: false,
        scroll_step: -2000,
    };
    let y = c.to_yaml();
    assert_eq!(y.zoom_key, "CTRL");
    assert_eq!(y.zoom_level, 32500);
    assert_eq!(ZoomConfig::from(y), c);
}

#[test]
fn out_of_range_snapshot_written_as_given() {
    let c = ZoomConfig {
        zoom_key: 0x35,
        smooth_animation: true,
        animation_speed: 5000,
        zoom_level: 60000,
        scroll_adjustment: true,
        scroll_step: 1000,
    };
    let y = c.to_yaml();
    assert_eq!(y.animation_speed, 5000);
    assert_eq!(y.zoom_level, 60000);
    assert_eq!(y.zoom_key, "5");
    let (back, write) = ZoomConfig::from_loaded(Some(y));
    assert!(!write);
    assert_eq!(back.zoom_key, 0x35);
    assert_eq!(back.animation_speed, 1000);
    assert_eq!(back.zoom_level, 50000);
}

#[test]
fn largest_values_written_as_given() {
    let c = ZoomConfig {
        zoom_key: 0x43,
        smooth_animation: false,
        animation_speed: u32::MAX,
        zoom_level: u32::MAX,
        scroll_adjustment: false,
        scroll_step: i32::MIN,
    };
    let y = c.to_yaml();
    assert_eq!(y.animation_speed, u32::MAX as i64);
    assert_eq!(y.zoom_level, u32::MAX as i64);
    let back = ZoomConfig::from(y);
    assert_eq!(back.animation_speed, 1000);
    assert_eq!(back.zoom_level, 50000);
    assert_eq!(back.scroll_step, i32::MIN);
}

#[test]
fn with_zoom_level_changes_only_level() {
    let c = ZoomConfig::default();
    let d = c.with_zoom_level(20000);
    assert_eq!(d.zoom_level, 20000);
    assert_eq!(d.with_zoom_level(10000), c);
}

#[test]
fn clamp_cases() {
    assert_eq!(clamp_i64(5, 10, 20), 10);
    assert_eq!(clamp_i64(15, 10, 20), 15);
    assert_eq!(clamp_i64(25, 10, 20), 20);
    assert_eq!(clamp_i64(-7, 10, 20), 10);
}

#[test]
fn reload_decisions() {
    assert!(needs_reload(Some(5), Some(6)));
    assert!(!needs_reload(Some(6), Some(6)));
    assert!(!needs_reload(Some(7), Some(6)));
    assert!(needs_reload(None, Some(1)));
    assert!(!needs_reload(Some(1), None));
    assert!(!needs_reload(None, None));
}

#[test]
fn loaded_record_or_defaults() {
    let (c, write) = ZoomConfig::from_loaded(Some(yaml("Z", 300, 2000)));
    assert!(!write);
    assert_eq!(c.zoom_key, 0x5A);
    assert_eq!(c.zoom_level, 2000);
    let (d, write) = ZoomConfig::from_loaded(None);
    assert!(write);
    assert_eq!(d, ZoomConfig::default());
}
