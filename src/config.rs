use vstd::prelude::*;

verus! {

/// When a run ends on its own.
#[derive(Clone, Copy, Debug, PartialEq, Eq, Structural)]
pub enum Mode {
    UntilStopped,
    Repeat,
}

/// The mouse button pressed by each click.
#[derive(Clone, Copy, Debug, PartialEq, Eq, Structural)]
pub enum Button {
    Left,
    Right,
    Middle,
}

/// How many button presses make up one logical click.
#[derive(Clone, Copy, Debug, PartialEq, Eq, Structural)]
pub enum ClickType {
    Single,
    Double,
}

/// Where each click lands.
#[derive(Clone, Copy, Debug, PartialEq, Eq, Structural)]
pub enum LocationMode {
    Cursor,
    Fixed,
}

/// How successive clicks are spaced in time.
#[derive(Clone, Copy, Debug, PartialEq, Eq, Structural)]
pub enum ClickPattern {
    Constant,
    Jitter,
}

/// A run's configuration, fixed once the worker starts.
#[derive(Clone, Copy, Debug, PartialEq, Eq, Structural)]
pub struct StartConfig {
    pub pattern: ClickPattern,
    pub clicks_per_second: u64,
    pub jitter_min_ms: u64,
    pub jitter_max_ms: u64,
    pub mode: Mode,
    pub repeat_count: u64,
    pub button: Button,
    pub click_type: ClickType,
    pub location_mode: LocationMode,
    pub fixed_x: i32,
    pub fixed_y: i32,
    pub start_delay_sec: u64,
}

/// The spacing rule a configuration comes down to.
#[derive(Clone, Copy, Debug, PartialEq, Eq, Structural)]
pub enum Pacing {
    /// Click, then wait `interval_ms`.
    Fixed { interval_ms: u64 },
    /// Wait a delay drawn from `min_ms..=max_ms`, then click.
    Jitter { min_ms: u64, max_ms: u64 },
}

pub open spec fn at_least_one(v: u64) -> u64 {
    if v == 0 { 1 } else { v }
}

/// The wait between constant-rate clicks: `max(10, 1000 / max(1, cps))`.
pub open spec fn interval_of(clicks_per_second: u64) -> u64 {
    let q = 1000int / (at_least_one(clicks_per_second) as int);
    if q < 10 { 10 } else { q as u64 }
}

/// The jitter bounds, each floored to 1, swapped when given in the wrong order.
pub open spec fn jitter_bounds_of(min_ms: u64, max_ms: u64) -> (u64, u64) {
    let lo = at_least_one(min_ms);
    let hi = at_least_one(max_ms);
    if lo > hi { (hi, lo) } else { (lo, hi) }
}

pub open spec fn pacing_of(c: StartConfig) -> Pacing {
    match c.pattern {
        ClickPattern::Constant => Pacing::Fixed { interval_ms: interval_of(c.clicks_per_second) },
        ClickPattern::Jitter => {
            let (lo, hi) = jitter_bounds_of(c.jitter_min_ms, c.jitter_max_ms);
            Pacing::Jitter { min_ms: lo, max_ms: hi }
        },
    }
}

impl StartConfig {
    /// The reduced profile, without pattern or jitter fields: it always clicks
    /// at a constant rate.
    pub fn constant_profile(
        clicks_per_second: u64,
        mode: Mode,
        repeat_count: u64,
        button: Button,
        click_type: ClickType,
        location_mode: LocationMode,
        fixed_x: i32,
        fixed_y: i32,
        start_delay_sec: u64,
    ) -> (r: StartConfig)
        ensures
            r.pattern == ClickPattern::Constant,
            r.clicks_per_second == clicks_per_second,
            r.mode == mode,
            r.repeat_count == repeat_count,
            r.button == button,
            r.click_type == click_type,
            r.location_mode == location_mode,
            r.fixed_x == fixed_x,
            r.fixed_y == fixed_y,
            r.start_delay_sec == start_delay_sec,
            pacing_of(r) == (Pacing::Fixed { interval_ms: interval_of(clicks_per_second) }),
    {
        StartConfig {
            pattern: ClickPattern::Constant,
            clicks_per_second,
            jitter_min_ms: 1,
            jitter_max_ms: 1,
            mode,
            repeat_count,
            button,
            click_type,
            location_mode,
            fixed_x,
            fixed_y,
            start_delay_sec,
        }
    }
}

/// The wait after each constant-rate click. A rate of 0 counts as 1, so no
/// division by zero can happen, and the wait never drops below 10 ms.
pub fn interval_ms(clicks_per_second: u64) -> (r: u64)
    ensures
        r == interval_of(clicks_per_second),
        10 <= r <= 1000,
        clicks_per_second == 0 ==> r == 1000,
        clicks_per_second <= 100 ==> r == 1000int / (at_least_one(clicks_per_second) as int),
{
    let cps: u64 = if clicks_per_second == 0 { 1 } else { clicks_per_second };
    let q: u64 = 1000 / cps;
    assert(q <= 1000) by (nonlinear_arith) requires q == 1000int / (cps as int), cps >= 1;
    assert(cps <= 100 ==> q >= 10) by (nonlinear_arith) requires q == 1000int / (cps as int), cps >= 1;
    if q < 10 { 10 } else { q }
}

/// The effective jitter bounds: each floored to 1, and swapped when the
/// minimum exceeds the maximum, so that the first never exceeds the second.
pub fn jitter_bounds(min_ms: u64, max_ms: u64) -> (r: (u64, u64))
    ensures
        r == jitter_bounds_of(min_ms, max_ms),
        1 <= r.0 <= r.1,
        r.0 == vstd::math::min(at_least_one(min_ms) as int, at_least_one(max_ms) as int),
        r.1 == vstd::math::max(at_least_one(min_ms) as int, at_least_one(max_ms) as int),
{
    let lo: u64 = if min_ms == 0 { 1 } else { min_ms };
    let hi: u64 = if max_ms == 0 { 1 } else { max_ms };
    if lo > hi { (hi, lo) } else { (lo, hi) }
}

/// The spacing rule of a configuration.
pub fn pacing(c: &StartConfig) -> (r: Pacing)
    ensures
        r == pacing_of(*c),
{
    match c.pattern {
        ClickPattern::Constant => Pacing::Fixed { interval_ms: interval_ms(c.clicks_per_second) },
        ClickPattern::Jitter => {
            let (lo, hi) = jitter_bounds(c.jitter_min_ms, c.jitter_max_ms);
            Pacing::Jitter { min_ms: lo, max_ms: hi }
        },
    }
}

} // verus!
