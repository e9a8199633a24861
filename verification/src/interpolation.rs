//! Visual smoothing for the fixed timestep.
//!
//! The fixed timestep changes the simulation in whole steps, which seldom
//! line up with rendered frames. What is rendered is therefore blended from
//! the state before the latest batch of steps and the state after it, by a
//! weight taken from the time that the accumulator carries. Weights and
//! blended values are exact ratios over the denominator of the overstep
//! fraction.

use crate::configuration::Timestep;
use crate::timestep::{Fraction, Steps};
use vstd::prelude::*;

verus! {

/// How the state of a fixed-timestep entity is turned into what is rendered.
#[derive(Clone, Copy, Debug, PartialEq, Eq, Structural, Hash)]
pub enum InterpolationMode {
    /// No smoothing: the current state is rendered as it is.
    Off,
    /// Blend from the previous state towards the current one; what is
    /// rendered lags behind the simulation by up to a step.
    Interpolate,
    /// Project beyond the current state by the way it has last moved; what is
    /// rendered may overshoot.
    Extrapolate,
}

impl Default for InterpolationMode {
    fn default() -> (r: InterpolationMode)
        ensures
            r == InterpolationMode::Interpolate,
    {
        InterpolationMode::Interpolate
    }
}

/// The numerator of the blend weight, over the denominator of `overstep`:
/// one without smoothing, the overstep fraction when interpolating, and one
/// more than it when extrapolating.
pub open spec fn weight_numer(mode: InterpolationMode, overstep: Fraction) -> nat {
    match mode {
        InterpolationMode::Off => overstep.denom as nat,
        InterpolationMode::Interpolate => overstep.numer as nat,
        InterpolationMode::Extrapolate => (overstep.numer + overstep.denom) as nat,
    }
}

/// The mode by which an entity of the given timestep is rendered: only the
/// fixed timestep is smoothed, every other one updates in each frame and is
/// shown as it is.
pub open spec fn spec_render_mode(timestep: Timestep, mode: InterpolationMode) -> InterpolationMode {
    if timestep == Timestep::Fixed {
        mode
    } else {
        InterpolationMode::Off
    }
}

/// The blend of two values at weight `numer / denom`, times `denom`.
pub open spec fn blend(previous: int, current: int, numer: int, denom: int) -> int {
    previous * denom + (current - previous) * numer
}

/// What is rendered for a value that the simulation has moved from `previous`
/// to `current`, times the denominator of `overstep`.
pub open spec fn rendered(
    previous: int,
    current: int,
    mode: InterpolationMode,
    overstep: Fraction,
) -> int {
    blend(previous, current, weight_numer(mode, overstep) as int, overstep.denom as int)
}

/// The numerator of the blend weight; its denominator is that of `overstep`.
pub fn blend_weight(mode: InterpolationMode, overstep: Fraction) -> (numer: u128)
    ensures
        numer == weight_numer(mode, overstep),
{
    match mode {
        InterpolationMode::Off => overstep.denom as u128,
        InterpolationMode::Interpolate => overstep.numer as u128,
        InterpolationMode::Extrapolate => overstep.numer as u128 + overstep.denom as u128,
    }
}

/// The mode by which an entity of the given timestep is rendered.
pub fn render_mode(timestep: Timestep, mode: InterpolationMode) -> (r: InterpolationMode)
    ensures
        r == spec_render_mode(timestep, mode),
{
    match timestep {
        Timestep::Fixed => mode,
        _ => InterpolationMode::Off,
    }
}

/// What is rendered for one coordinate, as the numerator of a ratio whose
/// denominator is that of `overstep`.
pub fn render_scaled(previous: i32, current: i32, mode: InterpolationMode, overstep: Fraction) -> (r:
    i128)
    ensures
        r == rendered(previous as int, current as int, mode, overstep),
        mode == InterpolationMode::Off || previous == current ==> r == current * overstep.denom,
        mode == InterpolationMode::Interpolate && overstep.numer == 0 ==> r == previous
            * overstep.denom,
        mode == InterpolationMode::Interpolate && overstep.numer == overstep.denom ==> r == current
            * overstep.denom,
{
    proof {
        lemma_off_renders_current(previous as int, current as int, overstep);
        lemma_rest_renders_unchanged(current as int, mode, overstep);
        lemma_interpolate_boundaries(previous as int, current as int, overstep);
    }
    let numer: i128 = blend_weight(mode, overstep) as i128;
    let denom: i128 = overstep.denom as i128;
    let base: i128 = previous as i128;
    let moved: i128 = current as i128 - previous as i128;
    assert(-0x8000_0000_0000_0000_0000_0000 <= base * denom <= 0x8000_0000_0000_0000_0000_0000)
        by (nonlinear_arith)
        requires
            -0x8000_0000 <= base <= 0x8000_0000,
            0 <= denom <= 0x1_0000_0000_0000_0000,
    ;
    assert(-0x2_0000_0000_0000_0000_0000_0000 <= moved * numer
        <= 0x2_0000_0000_0000_0000_0000_0000) by (nonlinear_arith)
        requires
            -0x1_0000_0000 <= moved <= 0x1_0000_0000,
            0 <= numer <= 0x2_0000_0000_0000_0000,
    ;
    base * denom + moved * numer
}

/// The two states of a fixed-timestep entity that rendering blends: the
/// state before the latest batch of fixed steps, and the state now.
#[derive(Debug)]
pub struct Interpolated<T> {
    pub previous: T,
    pub simulation: T,
}

impl<T: Copy> Interpolated<T> {
    /// A new entity: its previous state is its first state.
    pub fn new(initial: T) -> (r: Interpolated<T>)
        ensures
            r.previous == initial,
            r.simulation == initial,
    {
        Interpolated { previous: initial, simulation: initial }
    }

    /// To be called once per frame, before the frame's fixed steps change the
    /// simulation state: keeps the state as the previous one if at least one
    /// step is about to run. In a frame without a fixed step nothing changes,
    /// so that the blend goes on between the same two states.
    pub fn update_previous(&mut self, steps: &Steps)
        ensures
            final(self).simulation == old(self).simulation,
            steps@.len() > 0 ==> final(self).previous == old(self).simulation,
            steps@.len() == 0 ==> final(self).previous == old(self).previous,
    {
        if !steps.is_empty() {
            self.previous = self.simulation;
        }
    }
}

impl Interpolated<i32> {
    /// What is rendered for a coordinate of an entity with the given
    /// timestep, as the numerator of a ratio whose denominator is that of
    /// `overstep`.
    pub fn render(&self, timestep: Timestep, mode: InterpolationMode, overstep: Fraction) -> (r:
        i128)
        ensures
            r == rendered(
                self.previous as int,
                self.simulation as int,
                spec_render_mode(timestep, mode),
                overstep,
            ),
            timestep != Timestep::Fixed ==> r == self.simulation * overstep.denom,
    {
        render_scaled(self.previous, self.simulation, render_mode(timestep, mode), overstep)
    }
}

/// The blend weight stays within its range: at an overstep of at most one it
/// is at most one when interpolating, and between one and two when
/// extrapolating. Without smoothing it is one.
pub proof fn lemma_weight_ranges(overstep: Fraction)
    requires
        overstep.numer <= overstep.denom,
    ensures
        weight_numer(InterpolationMode::Off, overstep) == overstep.denom,
        weight_numer(InterpolationMode::Interpolate, overstep) <= overstep.denom,
        overstep.denom <= weight_numer(InterpolationMode::Extrapolate, overstep) <= 2
            * overstep.denom,
{
}

/// Without smoothing the current state is rendered, whatever the overstep.
pub proof fn lemma_off_renders_current(previous: int, current: int, overstep: Fraction)
    ensures
        rendered(previous, current, InterpolationMode::Off, overstep) == current * overstep.denom,
{
    assert(previous * overstep.denom + (current - previous) * overstep.denom == current
        * overstep.denom) by (nonlinear_arith);
}

/// What has not moved is rendered where it is, in every mode and at every
/// overstep.
pub proof fn lemma_rest_renders_unchanged(value: int, mode: InterpolationMode, overstep: Fraction)
    ensures
        rendered(value, value, mode, overstep) == value * overstep.denom,
{
    assert((value - value) * weight_numer(mode, overstep) == 0) by (nonlinear_arith);
}

/// Interpolation starts at the previous state and ends at the current one:
/// at an overstep of zero the previous state is rendered, at an overstep of
/// one the current state.
pub proof fn lemma_interpolate_boundaries(previous: int, current: int, overstep: Fraction)
    ensures
        overstep.numer == 0 ==> rendered(previous, current, InterpolationMode::Interpolate, overstep)
            == previous * overstep.denom,
        overstep.numer == overstep.denom ==> rendered(
            previous,
            current,
            InterpolationMode::Interpolate,
            overstep,
        ) == current * overstep.denom,
{
    if overstep.numer == 0 {
        assert((current - previous) * 0 == 0) by (nonlinear_arith);
    }
    if overstep.numer == overstep.denom {
        lemma_off_renders_current(previous, current, overstep);
    }
}

/// Interpolation stays between the two states: at an overstep of at most one
/// the rendered value lies between the previous and the current state.
pub proof fn lemma_interpolate_between(previous: int, current: int, overstep: Fraction)
    requires
        overstep.numer <= overstep.denom,
    ensures
        previous <= current ==> previous * overstep.denom <= rendered(
            previous,
            current,
            InterpolationMode::Interpolate,
            overstep,
        ) <= current * overstep.denom,
        current <= previous ==> current * overstep.denom <= rendered(
            previous,
            current,
            InterpolationMode::Interpolate,
            overstep,
        ) <= previous * overstep.denom,
{
    let n = overstep.numer as int;
    let d = overstep.denom as int;
    if previous <= current {
        assert(previous * d <= previous * d + (current - previous) * n <= current * d)
            by (nonlinear_arith)
            requires
                0 <= n <= d,
                previous <= current,
        ;
    }
    if current <= previous {
        assert(current * d <= previous * d + (current - previous) * n <= previous * d)
            by (nonlinear_arith)
            requires
                0 <= n <= d,
                current <= previous,
        ;
    }
}

/// Extrapolation overshoots: where the state has moved and the overstep is
/// above zero, the current state lies strictly between the previous state and
/// what is rendered. At an overstep of zero the current state is rendered.
pub proof fn lemma_extrapolate_overshoots(previous: int, current: int, overstep: Fraction)
    requires
        overstep.denom > 0,
    ensures
        overstep.numer == 0 ==> rendered(previous, current, InterpolationMode::Extrapolate, overstep)
            == current * overstep.denom,
        overstep.numer > 0 && previous < current ==> previous * overstep.denom < current
            * overstep.denom < rendered(previous, current, InterpolationMode::Extrapolate, overstep),
        overstep.numer > 0 && current < previous ==> rendered(
            previous,
            current,
            InterpolationMode::Extrapolate,
            overstep,
        ) < current * overstep.denom < previous * overstep.denom,
{
    let n = overstep.numer as int;
    let d = overstep.denom as int;
    assert(previous * d + (current - previous) * (n + d) == current * d + (current - previous) * n)
        by (nonlinear_arith);
    if n == 0 {
        assert((current - previous) * 0 == 0) by (nonlinear_arith);
    } else {
        if previous < current {
            assert(previous * d < current * d && (current - previous) * n > 0) by (nonlinear_arith)
                requires
                    n > 0,
                    d > 0,
                    previous < current,
            ;
        }
        if current < previous {
            assert(current * d < previous * d && (current - previous) * n < 0) by (nonlinear_arith)
                requires
                    n > 0,
                    d > 0,
                    current < previous,
            ;
        }
    }
}

} // verus!
