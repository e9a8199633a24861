use timesteps::configuration::Timestep;
use timesteps::interpolation::{
    blend_weight, render_mode, render_scaled, Interpolated, InterpolationMode,
};
use timesteps::timestep::{fixed, Accumulator, Fraction, SimulationDelta};

const MODES: [InterpolationMode; 3] =
    [InterpolationMode::Off, InterpolationMode::Interpolate, InterpolationMode::Extrapolate];

fn fraction(numer: u64, denom: u64) -> Fraction {
    Fraction { numer, denom }
}

#[test]
fn default_mode_interpolates() {
    assert_eq!(InterpolationMode::default(), InterpolationMode::Interpolate);
}

#[test]
fn blend_weight_by_mode() {
    let overstep = fraction(1, 4);
    assert_eq!(blend_weight(InterpolationMode::Off, overstep), 4);
    assert_eq!(blend_weight(InterpolationMode::Interpolate, overstep), 1);
    assert_eq!(blend_weight(InterpolationMode::Extrapolate, overstep), 5);
    let widest = fraction(u64::MAX, u64::MAX);
    assert_eq!(blend_weight(InterpolationMode::Extrapolate, widest), 2 * (u64::MAX as u128));
}

#[test]
fn without_smoothing_the_current_state_is_rendered() {
    for numer in [0, 1, 3, 8] {
        let overstep = fraction(numer, 8);
        assert_eq!(render_scaled(-40, 100, InterpolationMode::Off, overstep), 100 * 8);
    }
}

#[test]
fn what_has_not_moved_renders_unchanged() {
    for mode in MODES {
        for numer in [0, 1, 5, 10] {
            assert_eq!(render_scaled(-7, -7, mode, fraction(numer, 10)), -7 * 10);
        }
    }
}

#[test]
fn interpolation_runs_from_previous_to_current() {
    let mode = InterpolationMode::Interpolate;
    assert_eq!(render_scaled(10, 30, mode, fraction(0, 4)), 10 * 4);
    assert_eq!(render_scaled(10, 30, mode, fraction(1, 4)), 15 * 4);
    assert_eq!(render_scaled(10, 30, mode, fraction(2, 4)), 20 * 4);
    assert_eq!(render_scaled(10, 30, mode, fraction(4, 4)), 30 * 4);
    assert_eq!(render_scaled(30, 10, mode, fraction(1, 4)), 25 * 4);
    // One third of the way from 0 to 1 is exact as a ratio: 1/3.
    assert_eq!(render_scaled(0, 1, mode, fraction(1, 3)), 1);
}

#[test]
fn extrapolation_goes_beyond_the_current_state() {
    let mode = InterpolationMode::Extrapolate;
    assert_eq!(render_scaled(10, 30, mode, fraction(1, 4)), 35 * 4);
    assert_eq!(render_scaled(30, 10, mode, fraction(1, 4)), 5 * 4);
    assert_eq!(render_scaled(10, 30, mode, fraction(4, 4)), 50 * 4);
    for (previous, current) in [(0, 1), (1, 0), (-5, 5), (i32::MIN, i32::MAX)] {
        for numer in [1, 2, 7] {
            let denom = 7;
            let lo = (previous.min(current) as i128) * denom;
            let hi = (previous.max(current) as i128) * denom;
            let at = render_scaled(previous, current, mode, fraction(numer, denom as u64));
            if previous < current {
                assert!(lo < hi && hi < at);
            } else {
                assert!(at < lo && lo < hi);
            }
        }
    }
}

#[test]
fn extrapolation_at_no_overstep_renders_the_current_state() {
    let at = render_scaled(10, 30, InterpolationMode::Extrapolate, fraction(0, 4));
    assert_eq!(at, 30 * 4);
}

#[test]
fn rendering_holds_the_widest_coordinates() {
    let overstep = fraction(u64::MAX, u64::MAX);
    let at = render_scaled(i32::MIN, i32::MAX, InterpolationMode::Extrapolate, overstep);
    let denom = u64::MAX as i128;
    let moved = i32::MAX as i128 - i32::MIN as i128;
    assert_eq!(at, (i32::MIN as i128) * denom + moved * 2 * denom);
    let at = render_scaled(i32::MAX, i32::MIN, InterpolationMode::Extrapolate, overstep);
    assert_eq!(at, (i32::MAX as i128) * denom - moved * 2 * denom);
}

#[test]
fn only_the_fixed_timestep_is_smoothed() {
    for mode in MODES {
        assert_eq!(render_mode(Timestep::Fixed, mode), mode);
        assert_eq!(render_mode(Timestep::NoDelta, mode), InterpolationMode::Off);
        assert_eq!(render_mode(Timestep::VariableDelta, mode), InterpolationMode::Off);
        assert_eq!(render_mode(Timestep::SemiFixed, mode), InterpolationMode::Off);
    }
    let entity = Interpolated { previous: 10, simulation: 30 };
    let overstep = fraction(1, 4);
    let mode = InterpolationMode::Interpolate;
    assert_eq!(entity.render(Timestep::Fixed, mode, overstep), 15 * 4);
    assert_eq!(entity.render(Timestep::SemiFixed, mode, overstep), 30 * 4);
}

#[test]
fn a_new_entity_has_not_moved() {
    let entity = Interpolated::new(42);
    assert_eq!(entity.previous, 42);
    assert_eq!(entity.simulation, 42);
}

#[test]
fn previous_state_is_kept_only_when_a_step_runs() {
    let step = SimulationDelta::new(10).unwrap();
    let mut accumulator = Accumulator::new();
    let mut entity = Interpolated::new(0);

    let mut steps = fixed(&mut accumulator, 12, step);
    entity.update_previous(&steps);
    while let Some(_) = steps.next() {
        entity.simulation += 5;
    }
    assert_eq!((entity.previous, entity.simulation), (0, 5));

    // A frame too short for a step leaves both states alone.
    let steps = fixed(&mut accumulator, 3, step);
    assert!(steps.is_empty());
    entity.update_previous(&steps);
    assert_eq!((entity.previous, entity.simulation), (0, 5));
    let overstep = accumulator.overstep_fraction(step);
    assert_eq!((overstep.numer, overstep.denom), (5, 10));
    let at = entity.render(Timestep::Fixed, InterpolationMode::Interpolate, overstep);
    assert_eq!(at, 25);

    // Two steps in one frame: the state before the batch is the previous one.
    let mut steps = fixed(&mut accumulator, 15, step);
    assert_eq!(steps.len(), 2);
    entity.update_previous(&steps);
    while let Some(_) = steps.next() {
        entity.simulation += 5;
    }
    assert_eq!((entity.previous, entity.simulation), (5, 15));
}
