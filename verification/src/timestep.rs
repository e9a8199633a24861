//! The per-frame scheduler: how many steps each timestep mode runs in a
//! frame, and how long each of them is.

use crate::configuration::{ActiveTimesteps, Timestep};
use vstd::arithmetic::div_mod::{lemma_fundamental_div_mod, lemma_fundamental_div_mod_converse};
use vstd::prelude::*;

verus! {

/// A run of `count` steps that are each `delta` long.
pub open spec fn repeated(count: nat, delta: nat) -> Seq<nat> {
    Seq::new(count, |i: int| delta)
}

/// The time that a sequence of steps covers: the sum of their lengths.
pub open spec fn total(deltas: Seq<nat>) -> nat
    decreases deltas.len(),
{
    if deltas.len() == 0 {
        0
    } else {
        total(deltas.drop_last()) + deltas.last()
    }
}

/// The steps of a frame without delta time: one step of the nominal size.
pub open spec fn no_delta_steps(step: nat) -> Seq<nat> {
    seq![step]
}

/// The steps of a frame with variable delta time: one step of the elapsed time.
pub open spec fn variable_delta_steps(wall_delta: nat) -> Seq<nat> {
    seq![wall_delta]
}

/// The steps of a semi-fixed frame: as many nominal-size steps as fit into the
/// elapsed time, then one step for what is left, which may be empty.
pub open spec fn semi_fixed_steps(wall_delta: nat, step: nat) -> Seq<nat> {
    repeated(wall_delta / step, step).push(wall_delta % step)
}

/// How many steps a fixed frame runs: as many nominal-size steps as fit into
/// the carried time plus the elapsed time.
pub open spec fn fixed_step_count(carried: nat, wall_delta: nat, step: nat) -> nat {
    (carried + wall_delta) as nat / step
}

/// The time that a fixed frame carries into the next one.
pub open spec fn fixed_carry(carried: nat, wall_delta: nat, step: nat) -> nat {
    (carried + wall_delta) as nat % step
}

/// The steps of a fixed frame: nominal-size steps only.
pub open spec fn fixed_steps(carried: nat, wall_delta: nat, step: nat) -> Seq<nat> {
    repeated(fixed_step_count(carried, wall_delta, step), step)
}

/// The steps that a mode runs in a frame that starts with `carried` in the
/// accumulator.
pub open spec fn scheduled_steps(timestep: Timestep, carried: nat, wall_delta: nat, step: nat) -> Seq<
    nat,
> {
    match timestep {
        Timestep::NoDelta => no_delta_steps(step),
        Timestep::VariableDelta => variable_delta_steps(wall_delta),
        Timestep::SemiFixed => semi_fixed_steps(wall_delta, step),
        Timestep::Fixed => fixed_steps(carried, wall_delta, step),
    }
}

/// What the accumulator holds after a mode has run a frame: only the fixed
/// timestep touches it.
pub open spec fn carried_after(timestep: Timestep, carried: nat, wall_delta: nat, step: nat) -> nat {
    match timestep {
        Timestep::Fixed => fixed_carry(carried, wall_delta, step),
        _ => carried,
    }
}

/// The outcome of running the fixed timestep over several frames in a row,
/// the accumulator going from each frame into the next: the number of steps
/// that ran in all, and the time carried at the end.
pub open spec fn fixed_frames(carried: nat, wall_deltas: Seq<nat>, step: nat) -> (nat, nat)
    decreases wall_deltas.len(),
{
    if wall_deltas.len() == 0 {
        (0, carried)
    } else {
        let (count, rest) = fixed_frames(carried, wall_deltas.drop_last(), step);
        (
            count + fixed_step_count(rest, wall_deltas.last(), step),
            fixed_carry(rest, wall_deltas.last(), step),
        )
    }
}

/// A run of equal steps covers the step length times their number.
pub proof fn lemma_total_repeated(count: nat, delta: nat)
    ensures
        total(repeated(count, delta)) == count * delta,
    decreases count,
{
    if count > 0 {
        assert(repeated(count, delta).drop_last() =~= repeated((count - 1) as nat, delta));
        assert(repeated(count, delta).last() == delta);
        lemma_total_repeated((count - 1) as nat, delta);
        assert((count - 1) * delta + delta == count * delta) by (nonlinear_arith);
    } else {
        assert(repeated(count, delta).len() == 0);
        assert(count * delta == 0) by (nonlinear_arith)
            requires
                count == 0,
        ;
    }
}

/// A frame without delta time and a frame with variable delta time run exactly
/// one step each, whatever time has elapsed.
pub proof fn lemma_single_step_modes(carried: nat, wall_delta: nat, step: nat)
    ensures
        scheduled_steps(Timestep::NoDelta, carried, wall_delta, step).len() == 1,
        scheduled_steps(Timestep::VariableDelta, carried, wall_delta, step).len() == 1,
{
}

/// The steps of a semi-fixed frame cover exactly the time that has elapsed,
/// and every step but the last is of the nominal size.
pub proof fn lemma_semi_fixed_conserves_time(wall_delta: nat, step: nat)
    requires
        step > 0,
    ensures
        total(semi_fixed_steps(wall_delta, step)) == wall_delta,
        semi_fixed_steps(wall_delta, step).len() >= 1,
        semi_fixed_steps(wall_delta, step).last() < step,
        forall|i: int|
            0 <= i < semi_fixed_steps(wall_delta, step).len() - 1 ==> semi_fixed_steps(
                wall_delta,
                step,
            )[i] == step,
{
    let full = repeated(wall_delta / step, step);
    assert(semi_fixed_steps(wall_delta, step).drop_last() =~= full);
    lemma_total_repeated(wall_delta / step, step);
    lemma_fundamental_div_mod(wall_delta as int, step as int);
    assert((wall_delta / step) * step == step * (wall_delta / step)) by (nonlinear_arith);
}

/// A fixed frame neither loses nor invents time: the steps it runs and what
/// it carries on add up to what it was given, and it carries less than a step.
pub proof fn lemma_fixed_conserves_time(carried: nat, wall_delta: nat, step: nat)
    requires
        step > 0,
    ensures
        total(fixed_steps(carried, wall_delta, step)) + fixed_carry(carried, wall_delta, step)
            == carried + wall_delta,
        fixed_carry(carried, wall_delta, step) < step,
{
    let budget = (carried + wall_delta) as int;
    let s = step as int;
    lemma_total_repeated(fixed_step_count(carried, wall_delta, step), step);
    lemma_fundamental_div_mod(budget, s);
    assert((budget / s) * s == s * (budget / s)) by (nonlinear_arith);
}

/// The fixed timestep carries time without loss: over one or more frames it
/// runs as many steps, and is left with as much, as in one frame that is as
/// long as all of them together. Over no frame at all the same holds of an
/// accumulator that carries less than a step.
pub proof fn lemma_fixed_frames_compose(carried: nat, wall_deltas: Seq<nat>, step: nat)
    requires
        step > 0,
        wall_deltas.len() > 0 || carried < step,
    ensures
        fixed_frames(carried, wall_deltas, step) == (
            fixed_step_count(carried, total(wall_deltas), step),
            fixed_carry(carried, total(wall_deltas), step),
        ),
    decreases wall_deltas.len(),
{
    if wall_deltas.len() == 0 {
        lemma_fundamental_div_mod_converse(carried as int, step as int, 0, carried as int);
    } else if wall_deltas.len() == 1 {
        assert(total(wall_deltas.drop_last()) == 0);
        assert(fixed_frames(carried, wall_deltas.drop_last(), step) == (0nat, carried));
    } else {
        let earlier = wall_deltas.drop_last();
        let delta = wall_deltas.last();
        lemma_fixed_frames_compose(carried, earlier, step);
        let (count, rest) = fixed_frames(carried, earlier, step);
        let before = (carried + total(earlier)) as int;
        let later = (rest + delta) as int;
        let s = step as int;
        lemma_fundamental_div_mod(before, s);
        lemma_fundamental_div_mod(later, s);
        let q = count as int + later / s;
        let r = later % s;
        assert(before + delta == q * s + r) by (nonlinear_arith)
            requires
                before == s * (count as int) + rest,
                later == rest + delta,
                later == s * (later / s) + r,
                q == count + later / s,
        ;
        lemma_fundamental_div_mod_converse(before + delta, s, q, r);
        assert(total(wall_deltas) == total(earlier) + delta);
    }
}

/// The nominal step size: a positive number of nanoseconds.
#[derive(Clone, Copy, Debug)]
pub struct SimulationDelta {
    nanos: u64,
}

impl View for SimulationDelta {
    type V = nat;

    closed spec fn view(&self) -> nat {
        self.nanos as nat
    }
}

impl SimulationDelta {
    #[verifier::type_invariant]
    spec fn positive(self) -> bool {
        self.nanos > 0
    }

    /// A nominal step of `nanos` nanoseconds; `None` if `nanos` is zero, which
    /// no schedule can be built on.
    pub fn new(nanos: u64) -> (r: Option<SimulationDelta>)
        ensures
            r is Some <==> nanos > 0,
            r is Some ==> r->0@ == nanos,
    {
        if nanos == 0 {
            None
        } else {
            Some(SimulationDelta { nanos })
        }
    }

    /// The step size in nanoseconds, which is never zero.
    pub fn nanos(&self) -> (n: u64)
        ensures
            n == self@,
            n > 0,
    {
        proof {
            use_type_invariant(self);
        }
        self.nanos
    }
}

impl Default for SimulationDelta {
    /// One sixty-fourth of a second.
    fn default() -> (r: SimulationDelta)
        ensures
            r@ == 15_625_000,
    {
        SimulationDelta { nanos: 15_625_000 }
    }
}

/// The steps that one timestep mode runs in one frame, handed out one at a
/// time, earliest first. Its view is the sequence of step lengths that are
/// still to come.
#[derive(Clone, Copy, Debug)]
pub struct Steps {
    full: u128,
    step: u64,
    last: Option<u64>,
}

impl View for Steps {
    type V = Seq<nat>;

    closed spec fn view(&self) -> Seq<nat> {
        match self.last {
            Some(rest) => repeated(self.full as nat, self.step as nat).push(rest as nat),
            None => repeated(self.full as nat, self.step as nat),
        }
    }
}

impl Steps {
    #[verifier::type_invariant]
    spec fn bounded(self) -> bool {
        self.full <= 2 * u64::MAX
    }

    /// How many steps are still to come.
    pub fn len(&self) -> (n: u128)
        ensures
            n == self@.len(),
    {
        proof {
            use_type_invariant(self);
        }
        match self.last {
            Some(_) => self.full + 1,
            None => self.full,
        }
    }

    /// Whether no step is left.
    pub fn is_empty(&self) -> (b: bool)
        ensures
            b == (self@.len() == 0),
    {
        self.full == 0 && self.last.is_none()
    }

    /// Hands out the next step's length, or `None` when all steps have run.
    pub fn next(&mut self) -> (delta: Option<u64>)
        ensures
            old(self)@.len() == 0 ==> delta is None && final(self)@ == old(self)@,
            old(self)@.len() > 0 ==> delta is Some && delta->0 == old(self)@.first()
                && final(self)@ == old(self)@.drop_first(),
    {
        proof {
            use_type_invariant(&*self);
        }
        if self.full > 0 {
            self.full = self.full - 1;
            proof {
                assert(final(self)@ =~= old(self)@.drop_first());
            }
            Some(self.step)
        } else {
            let rest = self.last;
            self.last = None;
            proof {
                assert(final(self)@ =~= if old(self)@.len() == 0 {
                    old(self)@
                } else {
                    old(self)@.drop_first()
                });
            }
            rest
        }
    }
}

/// A ratio of two whole numbers, `numer / denom`. It says how far the frame
/// being rendered lies between the last fixed step and the next one.
#[derive(Clone, Copy, Debug, PartialEq, Eq, Structural)]
pub struct Fraction {
    pub numer: u64,
    pub denom: u64,
}

/// The time that the fixed timestep has left over from earlier frames.
#[derive(Clone, Copy, Debug)]
pub struct Accumulator {
    carried: u64,
}

impl View for Accumulator {
    type V = nat;

    closed spec fn view(&self) -> nat {
        self.carried as nat
    }
}

impl Accumulator {
    /// An accumulator that carries nothing.
    pub fn new() -> (r: Accumulator)
        ensures
            r@ == 0,
    {
        Accumulator { carried: 0 }
    }

    /// The carried time in nanoseconds.
    pub fn carried(&self) -> (n: u64)
        ensures
            n == self@,
    {
        self.carried
    }

    /// The carried time as a fraction of the nominal step. Right after a fixed
    /// frame with the same nominal step it is below one.
    pub fn overstep_fraction(&self, step: SimulationDelta) -> (fraction: Fraction)
        ensures
            fraction.numer == self@,
            fraction.denom == step@,
            fraction.denom > 0,
    {
        Fraction { numer: self.carried, denom: step.nanos() }
    }
}

impl Default for Accumulator {
    /// An accumulator that carries nothing.
    fn default() -> (r: Accumulator)
        ensures
            r@ == 0,
    {
        Accumulator::new()
    }
}

/// One frame without delta time: a single step of the nominal size, however
/// much time has elapsed.
pub fn no_delta(step: SimulationDelta) -> (steps: Steps)
    ensures
        steps@ == no_delta_steps(step@),
        steps@.len() == 1,
{
    let steps = Steps { full: 1, step: step.nanos(), last: None };
    assert(steps@ =~= no_delta_steps(step@));
    steps
}

/// One frame with variable delta time: a single step of the elapsed time,
/// even where that is zero.
pub fn variable_delta(wall_delta: u64) -> (steps: Steps)
    ensures
        steps@ == variable_delta_steps(wall_delta as nat),
        steps@.len() == 1,
{
    let steps = Steps { full: 0, step: wall_delta, last: Some(wall_delta) };
    assert(steps@ =~= variable_delta_steps(wall_delta as nat));
    steps
}

/// One semi-fixed frame: nominal-size steps while the elapsed time holds one,
/// then a final step for the rest. Nothing is carried into the next frame.
pub fn semi_fixed(wall_delta: u64, step: SimulationDelta) -> (steps: Steps)
    ensures
        steps@ == semi_fixed_steps(wall_delta as nat, step@),
        steps@.len() == wall_delta as nat / step@ + 1,
        total(steps@) == wall_delta,
{
    let nominal = step.nanos();
    proof {
        lemma_semi_fixed_conserves_time(wall_delta as nat, step@);
    }
    let steps = Steps {
        full: (wall_delta / nominal) as u128,
        step: nominal,
        last: Some(wall_delta % nominal),
    };
    assert(steps@ =~= semi_fixed_steps(wall_delta as nat, step@));
    steps
}

/// One fixed frame: the elapsed time is added to the accumulator, a
/// nominal-size step runs for each full step that the accumulator then holds,
/// and the rest stays in the accumulator for the next frame.
pub fn fixed(accumulator: &mut Accumulator, wall_delta: u64, step: SimulationDelta) -> (steps:
    Steps)
    ensures
        steps@ == fixed_steps(old(accumulator)@, wall_delta as nat, step@),
        steps@.len() == fixed_step_count(old(accumulator)@, wall_delta as nat, step@),
        final(accumulator)@ == fixed_carry(old(accumulator)@, wall_delta as nat, step@),
        final(accumulator)@ < step@,
        total(steps@) + final(accumulator)@ == old(accumulator)@ + wall_delta,
{
    let nominal = step.nanos();
    proof {
        lemma_fixed_conserves_time(old(accumulator)@, wall_delta as nat, step@);
    }
    let budget: u128 = accumulator.carried as u128 + wall_delta as u128;
    let full: u128 = budget / (nominal as u128);
    let rest: u128 = budget % (nominal as u128);
    accumulator.carried = rest as u64;
    let steps = Steps { full, step: nominal, last: None };
    assert(steps@ =~= fixed_steps(old(accumulator)@, wall_delta as nat, step@));
    steps
}

/// One frame of the given mode. Only the fixed timestep reads and changes the
/// accumulator.
pub fn schedule(
    timestep: Timestep,
    accumulator: &mut Accumulator,
    wall_delta: u64,
    step: SimulationDelta,
) -> (steps: Steps)
    ensures
        steps@ == scheduled_steps(timestep, old(accumulator)@, wall_delta as nat, step@),
        final(accumulator)@ == carried_after(timestep, old(accumulator)@, wall_delta as nat, step@),
{
    match timestep {
        Timestep::NoDelta => no_delta(step),
        Timestep::VariableDelta => variable_delta(wall_delta),
        Timestep::SemiFixed => semi_fixed(wall_delta, step),
        Timestep::Fixed => fixed(accumulator, wall_delta, step),
    }
}

/// What one frame runs: for each active mode its steps, and nothing for a
/// mode that is not active.
#[derive(Clone, Copy, Debug)]
pub struct FrameSchedule {
    pub no_delta: Option<Steps>,
    pub variable_delta: Option<Steps>,
    pub semi_fixed: Option<Steps>,
    pub fixed: Option<Steps>,
}

impl FrameSchedule {
    /// The steps of a mode in this frame, if the mode is active.
    pub open spec fn spec_steps(self, timestep: Timestep) -> Option<Steps> {
        match timestep {
            Timestep::NoDelta => self.no_delta,
            Timestep::VariableDelta => self.variable_delta,
            Timestep::SemiFixed => self.semi_fixed,
            Timestep::Fixed => self.fixed,
        }
    }

    /// The steps of a mode in this frame, if the mode is active.
    pub fn steps(&self, timestep: Timestep) -> (r: Option<Steps>)
        ensures
            r == self.spec_steps(timestep),
    {
        match timestep {
            Timestep::NoDelta => self.no_delta,
            Timestep::VariableDelta => self.variable_delta,
            Timestep::SemiFixed => self.semi_fixed,
            Timestep::Fixed => self.fixed,
        }
    }
}

/// Schedules one frame: every active mode gets the steps that it runs in a
/// frame of `wall_delta` nanoseconds, and the accumulator takes up the frame
/// if the fixed timestep is active.
pub fn schedule_frame(
    active: ActiveTimesteps,
    accumulator: &mut Accumulator,
    wall_delta: u64,
    step: SimulationDelta,
) -> (frame: FrameSchedule)
    ensures
        forall|timestep: Timestep|
            #![trigger frame.spec_steps(timestep)]
            frame.spec_steps(timestep) is Some <==> active@.contains(timestep),
        forall|timestep: Timestep|
            #![trigger frame.spec_steps(timestep)]
            active@.contains(timestep) ==> frame.spec_steps(timestep)->0@ == scheduled_steps(
                timestep,
                old(accumulator)@,
                wall_delta as nat,
                step@,
            ),
        active@.contains(Timestep::Fixed) ==> final(accumulator)@ == fixed_carry(
            old(accumulator)@,
            wall_delta as nat,
            step@,
        ),
        !active@.contains(Timestep::Fixed) ==> final(accumulator)@ == old(accumulator)@,
{
    let no_delta = if active.contains(Timestep::NoDelta) {
        Some(self::no_delta(step))
    } else {
        None
    };
    let variable_delta = if active.contains(Timestep::VariableDelta) {
        Some(self::variable_delta(wall_delta))
    } else {
        None
    };
    let semi_fixed = if active.contains(Timestep::SemiFixed) {
        Some(self::semi_fixed(wall_delta, step))
    } else {
        None
    };
    let fixed = if active.contains(Timestep::Fixed) {
        Some(self::fixed(accumulator, wall_delta, step))
    } else {
        None
    };
    FrameSchedule { no_delta, variable_delta, semi_fixed, fixed }
}

} // verus!
