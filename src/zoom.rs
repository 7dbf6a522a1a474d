//! The per-frame zoom state machine.
//!
//! Each intercepted render call hands the handler the key state and the
//! wheel movement collected since the last frame; the handler decides the
//! zoom level, eases the multiplier toward its target and says whether the
//! adjusted level must be written back to the settings file.

use vstd::prelude::*;

use crate::config::{clamp, ZoomConfig, MAX_ANIMATION_SPEED, MAX_ZOOM_LEVEL, MIN_ZOOM_LEVEL, SCALE};

verus! {

/// Wheel units in one notch of the mouse wheel.
pub const WHEEL_NOTCH: i64 = 120;

/// What the handler does with the accumulated wheel delta this frame.
#[derive(Clone, Copy, Debug, PartialEq, Eq, Structural)]
pub enum ScrollPlan {
    /// Take the delta, leaving zero behind, and apply it to the zoom level.
    Consume,
    /// Set the delta to zero without applying it.
    Discard,
    /// Leave the delta as it is.
    Keep,
}

/// The wheel plan for a frame.
pub open spec fn scroll_plan_spec(key_held: bool, scroll_adjustment: bool) -> ScrollPlan {
    if key_held && scroll_adjustment {
        ScrollPlan::Consume
    } else if !key_held {
        ScrollPlan::Discard
    } else {
        ScrollPlan::Keep
    }
}

/// Decides what happens to the accumulated wheel delta: it is consumed while
/// the key is held with scroll adjustment on, and discarded once the key is
/// released.
pub fn scroll_plan(key_held: bool, scroll_adjustment: bool) -> (r: ScrollPlan)
    ensures
        r == scroll_plan_spec(key_held, scroll_adjustment),
{
    if key_held && scroll_adjustment {
        ScrollPlan::Consume
    } else if !key_held {
        ScrollPlan::Discard
    } else {
        ScrollPlan::Keep
    }
}

/// `a / b` rounded toward zero.
pub open spec fn div_trunc(a: int, b: int) -> int {
    if a >= 0 {
        a / b
    } else {
        -((-a) / b)
    }
}

/// Zoom level change, in thousandths, for `delta` wheel units at `step`
/// thousandths per notch, rounded toward zero.
pub open spec fn scroll_change(delta: int, step: int) -> int {
    div_trunc(delta * step, WHEEL_NOTCH as int)
}

/// The zoom level after a wheel movement, kept within the allowed range.
pub open spec fn adjusted_level(level: int, delta: int, step: int) -> int {
    clamp(level + scroll_change(delta, step), MIN_ZOOM_LEVEL as int, MAX_ZOOM_LEVEL as int)
}

/// Applies `delta` wheel units to `level`: each notch changes the level by
/// `step`, and the result is clamped to the zoom range.
pub fn adjust_zoom_level(level: u32, delta: i32, step: i32) -> (r: u32)
    requires
        level <= MAX_ZOOM_LEVEL,
    ensures
        r == adjusted_level(level as int, delta as int, step as int),
        MIN_ZOOM_LEVEL <= r <= MAX_ZOOM_LEVEL,
{
    assert(-0x4000_0000_0000_0000 <= delta as int * step as int <= 0x4000_0000_0000_0000)
        by (nonlinear_arith)
        requires
            -0x8000_0000 <= delta <= 0x7fff_ffff,
            -0x8000_0000 <= step <= 0x7fff_ffff,
    ;
    let product: i64 = delta as i64 * step as i64;
    let change: i64 = if product >= 0 {
        product / WHEEL_NOTCH
    } else {
        -((-product) / WHEEL_NOTCH)
    };
    let level_now: i64 = level as i64 + change;
    if level_now < MIN_ZOOM_LEVEL as i64 {
        MIN_ZOOM_LEVEL
    } else if level_now > MAX_ZOOM_LEVEL as i64 {
        MAX_ZOOM_LEVEL
    } else {
        level_now as u32
    }
}

/// `a / b` rounded up, for non-negative `a` and positive `b`.
pub open spec fn div_ceil(a: int, b: int) -> int {
    (a + b - 1) / b
}

/// One easing step from `m` toward `target`: the distance shrinks by the
/// fraction `speed` (in thousandths), rounded so that the step is never
/// smaller than the exact one and never passes the target.
pub open spec fn approach(m: int, target: int, speed: int) -> int {
    if m < target {
        m + div_ceil((target - m) * speed, SCALE as int)
    } else if m > target {
        m - div_ceil((m - target) * speed, SCALE as int)
    } else {
        m
    }
}

/// The multiplier after one update: eased when smoothing is on, else the
/// target itself.
pub open spec fn next_multiplier_spec(m: int, target: int, smooth: bool, speed: int) -> int {
    if smooth {
        approach(m, target, speed)
    } else {
        target
    }
}

proof fn lemma_ceil_step(d: int, speed: int)
    requires
        d >= 0,
        0 <= speed <= SCALE,
    ensures
        0 <= div_ceil(d * speed, SCALE as int) <= d,
        d > 0 && speed > 0 ==> div_ceil(d * speed, SCALE as int) >= 1,
{
    assert(0 <= d * speed <= d * SCALE) by (nonlinear_arith)
        requires
            d >= 0,
            0 <= speed <= SCALE,
    ;
    assert(d > 0 && speed > 0 ==> d * speed >= 1) by (nonlinear_arith);
    assert((d * 1000 + 999) / 1000 == d);
}

/// An easing step lands between the current value and the target.
proof fn lemma_approach_between(m: int, target: int, speed: int)
    requires
        0 <= speed <= SCALE,
    ensures
        m <= target ==> m <= approach(m, target, speed) <= target,
        target <= m ==> target <= approach(m, target, speed) <= m,
        speed > 0 && m < target ==> m < approach(m, target, speed),
        speed > 0 && target < m ==> approach(m, target, speed) < m,
        speed == SCALE ==> approach(m, target, speed) == target,
{
    if m < target {
        lemma_ceil_step(target - m, speed);
    } else if m > target {
        lemma_ceil_step(m - target, speed);
    }
    if speed == SCALE {
        assert(((target - m) * 1000 + 999) / 1000 == target - m);
        assert(((m - target) * 1000 + 999) / 1000 == m - target);
    }
}

/// Advances the multiplier `m` toward `target`.
pub fn next_multiplier(m: u32, target: u32, smooth: bool, speed: u32) -> (r: u32)
    requires
        speed <= MAX_ANIMATION_SPEED,
    ensures
        r == next_multiplier_spec(m as int, target as int, smooth, speed as int),
{
    if !smooth {
        return target;
    }
    proof {
        lemma_approach_between(m as int, target as int, speed as int);
    }
    if m < target {
        let d: u64 = (target - m) as u64;
        assert(d * speed as u64 <= 0xffff_ffff * 1000) by (nonlinear_arith)
            requires
                d <= 0xffff_ffff,
                speed <= 1000,
        ;
        let step: u64 = (d * speed as u64 + 999) / 1000;
        (m as u64 + step) as u32
    } else if m > target {
        let d: u64 = (m - target) as u64;
        assert(d * speed as u64 <= 0xffff_ffff * 1000) by (nonlinear_arith)
            requires
                d <= 0xffff_ffff,
                speed <= 1000,
        ;
        let step: u64 = (d * speed as u64 + 999) / 1000;
        (m as u64 - step) as u32
    } else {
        m
    }
}

/// The zoom level in force for a frame: the configured level, moved by the
/// wheel when the delta is consumed and non-zero.
pub open spec fn frame_level(config: ZoomConfig, key_held: bool, delta: int) -> int {
    if key_held && config.scroll_adjustment && delta != 0 {
        adjusted_level(config.zoom_level as int, delta, config.scroll_step as int)
    } else {
        config.zoom_level as int
    }
}

/// The multiplier the frame eases toward: the zoom level while the key is
/// held, the identity otherwise.
pub open spec fn frame_target(config: ZoomConfig, key_held: bool, delta: int) -> int {
    if key_held {
        frame_level(config, key_held, delta)
    } else {
        SCALE as int
    }
}

/// The zoom level to persist after a frame, if the wheel changed it.
pub open spec fn frame_persist(config: ZoomConfig, key_held: bool, delta: int) -> Option<u32> {
    if key_held && config.scroll_adjustment && delta != 0 {
        Some(frame_level(config, key_held, delta) as u32)
    } else {
        None
    }
}

/// Smoothing state that lives across intercepted calls.
#[derive(Clone, Copy, Debug, PartialEq, Eq, Structural)]
pub struct ZoomRuntime {
    /// Factor applied to both field-of-view values, in thousandths.
    pub multiplier: u32,
}

impl ZoomRuntime {
    /// The multiplier stays within the zoom range.
    pub open spec fn wf(&self) -> bool {
        MIN_ZOOM_LEVEL <= self.multiplier <= MAX_ZOOM_LEVEL
    }

    /// The unzoomed starting state.
    pub fn new() -> (r: ZoomRuntime)
        ensures
            r.multiplier == SCALE,
            r.wf(),
    {
        ZoomRuntime { multiplier: SCALE }
    }

    /// Runs the zoom logic for one frame. `delta` is the wheel delta taken
    /// under the frame's `scroll_plan` (zero when it is not `Consume`).
    /// Returns the new zoom level when the wheel changed it, for the caller
    /// to persist.
    pub fn on_frame(&mut self, config: &ZoomConfig, key_held: bool, delta: i32) -> (persist:
        Option<u32>)
        requires
            old(self).wf(),
            config.wf(),
        ensures
            final(self).wf(),
            persist == frame_persist(*config, key_held, delta as int),
            final(self).multiplier as int == next_multiplier_spec(
                old(self).multiplier as int,
                frame_target(*config, key_held, delta as int),
                config.smooth_animation,
                config.animation_speed as int,
            ),
    {
        let mut level = config.zoom_level;
        let mut persist: Option<u32> = None;
        if key_held && config.scroll_adjustment && delta != 0 {
            level = adjust_zoom_level(level, delta, config.scroll_step);
            persist = Some(level);
        }
        let target = if key_held {
            level
        } else {
            SCALE
        };
        proof {
            lemma_approach_between(
                self.multiplier as int,
                target as int,
                config.animation_speed as int,
            );
        }
        self.multiplier = next_multiplier(
            self.multiplier,
            target,
            config.smooth_animation,
            config.animation_speed,
        );
        persist
    }
}

/// `n` easing steps from `m` toward `target`.
pub open spec fn approach_n(m: int, target: int, speed: int, n: nat) -> int
    decreases n,
{
    if n == 0 {
        m
    } else {
        approach_n(approach(m, target, speed), target, speed, (n - 1) as nat)
    }
}

/// Easing from below with a positive speed rises strictly at every step,
/// never passes the target, and reaches it after at most as many steps as
/// the distance in stored units.
pub proof fn law_smooth_convergence(m: int, target: int, speed: int)
    requires
        m < target,
        0 < speed <= SCALE,
    ensures
        m < approach(m, target, speed) <= target,
        forall|n: nat| #![trigger approach_n(m, target, speed, n)]
            m <= approach_n(m, target, speed, n) <= target,
        approach_n(m, target, speed, (target - m) as nat) == target,
    decreases target - m,
{
    lemma_approach_between(m, target, speed);
    let next = approach(m, target, speed);
    assert forall|n: nat| #![trigger approach_n(m, target, speed, n)]
        m <= approach_n(m, target, speed, n) <= target by {
        lemma_approach_n_bounded(m, target, speed, n);
    };
    if next < target {
        law_smooth_convergence(next, target, speed);
        lemma_approach_n_stays(target, speed, (next - m - 1) as nat);
        lemma_approach_n_split(next, target, speed, (target - next) as nat, (next - m - 1) as nat);
    } else {
        lemma_approach_n_stays(target, speed, (target - m - 1) as nat);
    }
}

proof fn lemma_approach_n_bounded(m: int, target: int, speed: int, n: nat)
    requires
        m <= target,
        0 <= speed <= SCALE,
    ensures
        m <= approach_n(m, target, speed, n) <= target,
    decreases n,
{
    if n > 0 {
        lemma_approach_between(m, target, speed);
        lemma_approach_n_bounded(approach(m, target, speed), target, speed, (n - 1) as nat);
    }
}

proof fn lemma_approach_n_stays(target: int, speed: int, n: nat)
    ensures
        approach_n(target, target, speed, n) == target,
    decreases n,
{
    if n > 0 {
        lemma_approach_n_stays(target, speed, (n - 1) as nat);
    }
}

proof fn lemma_approach_n_split(m: int, target: int, speed: int, a: nat, b: nat)
    ensures
        approach_n(m, target, speed, a + b) == approach_n(
            approach_n(m, target, speed, a),
            target,
            speed,
            b,
        ),
    decreases a,
{
    if a > 0 {
        lemma_approach_n_split(approach(m, target, speed), target, speed, (a - 1) as nat, b);
        assert((a + b - 1) as nat == ((a - 1) as nat + b));
    }
}

/// With smoothing off, one update sets the multiplier to the target,
/// whatever it was before.
pub proof fn law_snap(m: int, target: int, speed: int)
    ensures
        next_multiplier_spec(m, target, false, speed) == target,
{
}

/// A frame with the key released discards the accumulated wheel delta,
/// persists nothing and moves the multiplier `m` toward the identity: all
/// the way without smoothing, else by the speed's share of the distance
/// (rounded up to a whole thousandth), never below the identity.
pub proof fn law_key_release(config: ZoomConfig, delta: int, m: int)
    requires
        config.wf(),
        SCALE <= m,
    ensures
        scroll_plan_spec(false, config.scroll_adjustment) == ScrollPlan::Discard,
        frame_target(config, false, delta) == SCALE,
        frame_persist(config, false, delta) is None,
        next_multiplier_spec(
            m,
            frame_target(config, false, delta),
            config.smooth_animation,
            config.animation_speed as int,
        ) == if config.smooth_animation {
            m - div_ceil((m - SCALE) * config.animation_speed, SCALE as int)
        } else {
            SCALE as int
        },
        SCALE <= next_multiplier_spec(
            m,
            frame_target(config, false, delta),
            config.smooth_animation,
            config.animation_speed as int,
        ) <= m,
        SCALE < m ==> next_multiplier_spec(
            m,
            frame_target(config, false, delta),
            config.smooth_animation,
            config.animation_speed as int,
        ) < m,
{
    lemma_approach_between(m, SCALE as int, config.animation_speed as int);
    if m == SCALE {
        assert(div_ceil(0, SCALE as int) == 0);
        assert((0 * config.animation_speed) == 0);
    }
}

} // verus!
