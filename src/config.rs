//! The zoom settings snapshot and its document record.
//!
//! Fractional settings are held in thousandths: a zoom level of `10.0` is
//! stored as `10_000`, an animation speed of `0.1` as `100`.

use vstd::prelude::*;

use crate::keys::{key_name_of, key_of_setting, law_key_name_round_trip};

verus! {

/// Number of stored units per whole unit of a fractional setting.
pub const SCALE: u32 = 1000;

/// Lowest zoom level: the unzoomed view.
pub const MIN_ZOOM_LEVEL: u32 = 1000;

/// Highest zoom level.
pub const MAX_ZOOM_LEVEL: u32 = 50000;

/// Slowest animation speed.
pub const MIN_ANIMATION_SPEED: u32 = 10;

/// Fastest animation speed: the multiplier reaches its target in one step.
pub const MAX_ANIMATION_SPEED: u32 = 1000;

/// Virtual-key code of the letter C, the default trigger key.
pub const VK_C: i32 = 0x43;

/// `v` limited to the closed range `[lo, hi]`.
pub open spec fn clamp(v: int, lo: int, hi: int) -> int {
    if v < lo {
        lo
    } else if v > hi {
        hi
    } else {
        v
    }
}

/// Limits `v` to `[lo, hi]`.
pub fn clamp_i64(v: i64, lo: u32, hi: u32) -> (r: u32)
    requires
        lo <= hi,
    ensures
        r == clamp(v as int, lo as int, hi as int),
{
    if v < lo as i64 {
        lo
    } else if v > hi as i64 {
        hi
    } else {
        v as u32
    }
}

/// A validated settings snapshot, as the zoom handler consumes it.
#[derive(Clone, Copy, Debug, PartialEq, Eq, Structural)]
pub struct ZoomConfig {
    /// Virtual-key code of the key that triggers the zoom.
    pub zoom_key: i32,
    /// Whether the multiplier eases toward its target instead of snapping.
    pub smooth_animation: bool,
    /// Fraction of the remaining distance covered per frame, in thousandths.
    pub animation_speed: u32,
    /// Zoom factor applied while the key is held, in thousandths.
    pub zoom_level: u32,
    /// Whether the mouse wheel adjusts the zoom level while zoomed.
    pub scroll_adjustment: bool,
    /// Zoom level change per wheel notch, in thousandths.
    pub scroll_step: i32,
}

impl ZoomConfig {
    /// The clamping ranges hold.
    pub open spec fn wf(&self) -> bool {
        &&& MIN_ANIMATION_SPEED <= self.animation_speed <= MAX_ANIMATION_SPEED
        &&& MIN_ZOOM_LEVEL <= self.zoom_level <= MAX_ZOOM_LEVEL
    }

    /// The same settings with another zoom level.
    pub fn with_zoom_level(&self, zoom_level: u32) -> (r: ZoomConfig)
        ensures
            r == (ZoomConfig { zoom_level, ..*self }),
    {
        ZoomConfig { zoom_level, ..*self }
    }
}

/// Default trigger-key name.
pub fn default_zoom_key() -> (r: String)
    ensures
        r@ == seq!['C'],
{
    proof {
        reveal_strlit("C");
    }
    String::from_str("C")
}

/// Smooth animation is on by default.
pub fn default_smooth_animation() -> (r: bool)
    ensures
        r,
{
    true
}

/// Default animation speed: a tenth of the distance per frame.
pub fn default_animation_speed() -> (r: i64)
    ensures
        r == 100,
{
    100
}

/// Default zoom level: ten times.
pub fn default_zoom_level() -> (r: i64)
    ensures
        r == 10000,
{
    10000
}

/// Scroll adjustment is on by default.
pub fn default_scroll_adjustment() -> (r: bool)
    ensures
        r,
{
    true
}

/// Default zoom change per wheel notch: one whole unit.
pub fn default_scroll_step() -> (r: i32)
    ensures
        r == 1000,
{
    1000
}

/// The settings record as the settings file holds it: the key by name and
/// the numbers as written, before any clamping.
#[derive(Clone, Debug)]
pub struct ZoomConfigYaml {
    /// Trigger-key name, e.g. `C`, `F5`, `CTRL` or `0x43`.
    pub zoom_key: String,
    pub smooth_animation: bool,
    /// Animation speed in thousandths, as written.
    pub animation_speed: i64,
    /// Zoom level in thousandths, as written.
    pub zoom_level: i64,
    pub scroll_adjustment: bool,
    /// Zoom change per wheel notch in thousandths.
    pub scroll_step: i32,
}

/// The value a settings record stands for.
pub struct ZoomDocument {
    pub zoom_key: Seq<char>,
    pub smooth_animation: bool,
    pub animation_speed: int,
    pub zoom_level: int,
    pub scroll_adjustment: bool,
    pub scroll_step: int,
}

impl View for ZoomConfigYaml {
    type V = ZoomDocument;

    open spec fn view(&self) -> ZoomDocument {
        ZoomDocument {
            zoom_key: self.zoom_key@,
            smooth_animation: self.smooth_animation,
            animation_speed: self.animation_speed as int,
            zoom_level: self.zoom_level as int,
            scroll_adjustment: self.scroll_adjustment,
            scroll_step: self.scroll_step as int,
        }
    }
}

/// The snapshot a settings record yields: the key name resolved, speed and
/// level clamped to their ranges.
pub open spec fn config_of(d: ZoomDocument) -> ZoomConfig {
    ZoomConfig {
        zoom_key: key_of_setting(d.zoom_key),
        smooth_animation: d.smooth_animation,
        animation_speed: clamp(
            d.animation_speed,
            MIN_ANIMATION_SPEED as int,
            MAX_ANIMATION_SPEED as int,
        ) as u32,
        zoom_level: clamp(d.zoom_level, MIN_ZOOM_LEVEL as int, MAX_ZOOM_LEVEL as int) as u32,
        scroll_adjustment: d.scroll_adjustment,
        scroll_step: d.scroll_step as i32,
    }
}

/// The settings record a snapshot is written as.
pub open spec fn document_of(c: ZoomConfig) -> ZoomDocument {
    ZoomDocument {
        zoom_key: key_name_of(c.zoom_key),
        smooth_animation: c.smooth_animation,
        animation_speed: c.animation_speed as int,
        zoom_level: c.zoom_level as int,
        scroll_adjustment: c.scroll_adjustment,
        scroll_step: c.scroll_step as int,
    }
}

impl Default for ZoomConfigYaml {
    fn default() -> (r: ZoomConfigYaml)
        ensures
            r@ == (ZoomDocument {
                zoom_key: seq!['C'],
                smooth_animation: true,
                animation_speed: 100,
                zoom_level: 10000,
                scroll_adjustment: true,
                scroll_step: 1000,
            }),
    {
        ZoomConfigYaml {
            zoom_key: default_zoom_key(),
            smooth_animation: default_smooth_animation(),
            animation_speed: default_animation_speed(),
            zoom_level: default_zoom_level(),
            scroll_adjustment: default_scroll_adjustment(),
            scroll_step: default_scroll_step(),
        }
    }
}

impl Default for ZoomConfig {
    fn default() -> (r: ZoomConfig)
        ensures
            r == (ZoomConfig {
                zoom_key: VK_C,
                smooth_animation: true,
                animation_speed: 100,
                zoom_level: 10000,
                scroll_adjustment: true,
                scroll_step: 1000,
            }),
            r.wf(),
    {
        ZoomConfig {
            zoom_key: VK_C,
            smooth_animation: true,
            animation_speed: 100,
            zoom_level: 10000,
            scroll_adjustment: true,
            scroll_step: 1000,
        }
    }
}

impl From<ZoomConfigYaml> for ZoomConfig {
    fn from(yaml: ZoomConfigYaml) -> (r: ZoomConfig) {
        let r = ZoomConfig {
            zoom_key: ZoomConfig::parse_key(yaml.zoom_key.as_str()),
            smooth_animation: yaml.smooth_animation,
            animation_speed: clamp_i64(yaml.animation_speed, MIN_ANIMATION_SPEED, MAX_ANIMATION_SPEED),
            zoom_level: clamp_i64(yaml.zoom_level, MIN_ZOOM_LEVEL, MAX_ZOOM_LEVEL),
            scroll_adjustment: yaml.scroll_adjustment,
            scroll_step: yaml.scroll_step,
        };
        assert(r == config_of(yaml@));
        r
    }
}

impl vstd::std_specs::convert::FromSpecImpl<ZoomConfigYaml> for ZoomConfig {
    open spec fn obeys_from_spec() -> bool {
        true
    }

    open spec fn from_spec(v: ZoomConfigYaml) -> ZoomConfig {
        config_of(v@)
    }
}

impl ZoomConfig {
    /// The settings record this snapshot is written as, with speed and
    /// level as they are (clamping happens on reading).
    pub fn to_yaml(&self) -> (r: ZoomConfigYaml)
        ensures
            r@ == document_of(*self),
    {
        ZoomConfigYaml {
            zoom_key: ZoomConfig::key_to_string(self.zoom_key),
            smooth_animation: self.smooth_animation,
            animation_speed: self.animation_speed as i64,
            zoom_level: self.zoom_level as i64,
            scroll_adjustment: self.scroll_adjustment,
            scroll_step: self.scroll_step,
        }
    }
}

/// Writing a snapshot as a settings record and reading the record back
/// gives the same snapshot, field for field, after speed and level are
/// clamped to their ranges; a well-formed snapshot comes back unchanged.
pub proof fn law_config_round_trip(c: ZoomConfig)
    ensures
        config_of(document_of(c)) == (ZoomConfig {
            animation_speed: clamp(
                c.animation_speed as int,
                MIN_ANIMATION_SPEED as int,
                MAX_ANIMATION_SPEED as int,
            ) as u32,
            zoom_level: clamp(c.zoom_level as int, MIN_ZOOM_LEVEL as int, MAX_ZOOM_LEVEL as int) as u32,
            ..c
        }),
        c.wf() ==> config_of(document_of(c)) == c,
{
    law_key_name_round_trip(c.zoom_key);
}

/// Whether the settings file must be read again: it has a modification
/// time now, and either none was recorded at the last load or the new one is
/// later.
pub open spec fn needs_reload_spec(last: Option<u128>, current: Option<u128>) -> bool {
    match (last, current) {
        (Some(l), Some(c)) => c > l,
        (None, Some(_)) => true,
        _ => false,
    }
}

/// Decides whether to reload the settings, from the modification time
/// recorded at the last load and the file's modification time now.
pub fn needs_reload(last: Option<u128>, current: Option<u128>) -> (r: bool)
    ensures
        r == needs_reload_spec(last, current),
{
    match (last, current) {
        (Some(l), Some(c)) => c > l,
        (None, Some(_)) => true,
        _ => false,
    }
}

impl ZoomConfig {
    /// The snapshot to use after reading the settings file: the record's
    /// values when it was read and parsed, else the defaults. The flag says
    /// whether the defaults must be written out as a fresh file.
    pub fn from_loaded(parsed: Option<ZoomConfigYaml>) -> (r: (ZoomConfig, bool))
        ensures
            r.0.wf(),
            match parsed {
                Some(y) => r == (config_of(y@), false),
                None => r.1 && r.0 == (ZoomConfig {
                    zoom_key: VK_C,
                    smooth_animation: true,
                    animation_speed: 100,
                    zoom_level: 10000,
                    scroll_adjustment: true,
                    scroll_step: 1000,
                }),
            },
    {
        match parsed {
            Some(yaml) => (ZoomConfig::from(yaml), false),
            None => (ZoomConfig::default(), true),
        }
    }
}

} // verus!
