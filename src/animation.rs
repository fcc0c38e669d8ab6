//! Step planning for smooth colour transitions.

use vstd::prelude::*;
use crate::color::Color;

verus! {

/// Bounds on the size of one animation step, in the property's own units.
#[derive(Clone, Copy, Debug, PartialEq, Eq, Structural)]
pub struct Bound {
    pub min: i64,
    pub max: i64,
}

/// Smallest temperature step, in Kelvin.
pub const TEMPERATURE_STEP_MIN: i64 = 50;

/// Largest temperature step, in Kelvin.
pub const TEMPERATURE_STEP_MAX: i64 = 100;

/// Smallest brightness step, in ten-thousandths.
pub const BRIGHTNESS_STEP_MIN: i64 = 50;

/// Largest brightness step, in ten-thousandths.
pub const BRIGHTNESS_STEP_MAX: i64 = 100;

/// A colour property that transitions animate.
#[derive(Clone, Copy, Debug, PartialEq, Eq, Structural)]
pub enum ColorProperty {
    Temperature,
    Brightness,
}

impl ColorProperty {
    pub open spec fn spec_bound(self) -> Bound {
        match self {
            ColorProperty::Temperature => Bound { min: TEMPERATURE_STEP_MIN, max: TEMPERATURE_STEP_MAX },
            ColorProperty::Brightness => Bound { min: BRIGHTNESS_STEP_MIN, max: BRIGHTNESS_STEP_MAX },
        }
    }

    /// The step bounds of this property.
    pub fn bound(&self) -> (r: Bound)
        ensures
            r == self.spec_bound(),
    {
        match self {
            ColorProperty::Temperature => Bound { min: TEMPERATURE_STEP_MIN, max: TEMPERATURE_STEP_MAX },
            ColorProperty::Brightness => Bound { min: BRIGHTNESS_STEP_MIN, max: BRIGHTNESS_STEP_MAX },
        }
    }

    pub open spec fn spec_value(self, c: Color) -> int {
        match self {
            ColorProperty::Temperature => c.temperature as int,
            ColorProperty::Brightness => c.brightness as int,
        }
    }

    /// This property's value in `c`.
    pub fn value(&self, c: &Color) -> (r: i64)
        ensures
            r == self.spec_value(*c),
    {
        match self {
            ColorProperty::Temperature => c.temperature as i64,
            ColorProperty::Brightness => c.brightness as i64,
        }
    }
}

/// Largest property value an animation handles.
pub const MAX_VALUE: i64 = 4294967296;

/// How a property moves from its current value to a target: `count`
/// intervals of `wait_ms` milliseconds, adding `step` at the end of each
/// interval but the last.
#[derive(Clone, Copy, Debug, PartialEq, Eq, Structural)]
pub struct Interval {
    pub count: u64,
    pub step: i64,
    pub wait_ms: u64,
}

impl Interval {
    /// Whether the tick that ends interval `tick` (counted from zero) adds a
    /// step: every one but the last, which is left to the exact final write.
    pub fn step_due(&self, tick: u64) -> (r: bool)
        ensures
            r == (tick + 1 < self.count),
    {
        tick < self.count && tick + 1 < self.count
    }
}

pub open spec fn abs(x: int) -> int {
    if x < 0 { -x } else { x }
}

pub open spec fn clamp(x: int, lo: int, hi: int) -> int {
    if x < lo { lo } else if x > hi { hi } else { x }
}

/// The step size per second that the transition asks for, held inside the
/// bounds and never below one unit.
pub open spec fn spec_rate(diff: int, bound: Bound, transition_ms: int) -> int {
    let r = clamp(abs(diff) * 1000 / transition_ms, bound.min as int, bound.max as int);
    if r < 1 { 1 } else { r }
}

/// The plan for moving a property from `old` to `new` within `transition_ms`.
pub open spec fn spec_interval(new: int, old: int, bound: Bound, transition_ms: int) -> Interval {
    let diff = new - old;
    let rate = spec_rate(diff, bound, transition_ms);
    let count = (2 * abs(diff) + rate) / (2 * rate);
    if count == 0 {
        Interval { count: 0, step: 0, wait_ms: 0 }
    } else {
        let magnitude = abs(diff) / count;
        Interval {
            count: count as u64,
            step: (if diff < 0 { -magnitude } else { magnitude }) as i64,
            wait_ms: (transition_ms / count) as u64,
        }
    }
}

pub open spec fn interval_inputs(new: i64, old: i64, bound: Bound, transition_ms: u64) -> bool {
    &&& 0 <= old <= MAX_VALUE
    &&& 0 <= new <= MAX_VALUE
    &&& 0 <= bound.min <= bound.max
    &&& 0 < transition_ms
}

/// Plans the steps that move a property from `old` to `new` within
/// `transition_ms` milliseconds, with steps held inside `bound`.
pub fn calculate_interval(new: i64, old: i64, bound: Bound, transition_ms: u64) -> (r: Interval)
    requires
        interval_inputs(new, old, bound, transition_ms),
    ensures
        r == spec_interval(new as int, old as int, bound, transition_ms as int),
{
    let diff: i64 = new - old;
    let magnitude: u64 = if diff < 0 { (0 - diff) as u64 } else { diff as u64 };
    assert(magnitude == abs(diff as int));
    assert(magnitude * 1000 <= MAX_VALUE * 1000) by (nonlinear_arith)
        requires magnitude <= MAX_VALUE;
    let raw: u64 = magnitude * 1000 / transition_ms;
    let lo = bound.min as u64;
    let hi = bound.max as u64;
    let clamped: u64 = if raw < lo { lo } else if raw > hi { hi } else { raw };
    let rate: u64 = if clamped < 1 { 1 } else { clamped };
    assert(rate == spec_rate(diff as int, bound, transition_ms as int));
    assert(2 * rate <= 2 * (MAX_VALUE * 1000 + bound.max)) by {
        assert(raw <= magnitude * 1000) by (nonlinear_arith)
            requires raw as int == (magnitude as int * 1000) / (transition_ms as int), transition_ms >= 1;
    }
    let count: u64 = (2 * magnitude + rate) / (2 * rate);
    if count == 0 {
        Interval { count: 0, step: 0, wait_ms: 0 }
    } else {
        let step_magnitude: u64 = magnitude / count;
        assert(step_magnitude <= magnitude) by (nonlinear_arith)
            requires step_magnitude == magnitude / count, count >= 1;
        let step: i64 = if diff < 0 { 0 - step_magnitude as i64 } else { step_magnitude as i64 };
        Interval { count, step, wait_ms: transition_ms / count }
    }
}

/// A planned transition never overshoots: all `count` steps together move a
/// property no further than the distance to its target, and in its direction.
pub proof fn law_interval_no_overshoot(new: i64, old: i64, bound: Bound, transition_ms: u64)
    requires
        interval_inputs(new, old, bound, transition_ms),
    ensures
        ({
            let iv = spec_interval(new as int, old as int, bound, transition_ms as int);
            &&& iv.count * abs(iv.step as int) <= abs(new - old)
            &&& iv.step * (new - old) >= 0
        }),
{
    let diff = new - old;
    let rate = spec_rate(diff, bound, transition_ms as int);
    let count = (2 * abs(diff) + rate) / (2 * rate);
    if count != 0 {
        let magnitude = abs(diff) / count;
        assert(count * magnitude <= abs(diff)) by (nonlinear_arith)
            requires magnitude == abs(diff) / count, count > 0, abs(diff) >= 0;
        assert(count >= 1 && count <= abs(diff) + 1) by (nonlinear_arith)
            requires count == (2 * abs(diff) + rate) / (2 * rate), rate >= 1, count != 0, abs(diff) >= 0;
        assert(magnitude <= abs(diff)) by (nonlinear_arith)
            requires magnitude == abs(diff) / count, count >= 1, abs(diff) >= 0;
        let iv = spec_interval(new as int, old as int, bound, transition_ms as int);
        assert(iv.count == count);
        assert(abs(iv.step as int) == magnitude);
        let st = iv.step as int;
        if diff < 0 {
            assert(st * diff >= 0) by (nonlinear_arith)
                requires st <= 0, diff < 0;
        } else {
            assert(st * diff >= 0) by (nonlinear_arith)
                requires st >= 0, diff >= 0;
        }
    }
}

} // verus!
