//! The timestep modes and the set of modes that are currently active.

use vstd::arithmetic::power2::{lemma2_to64, pow2};
use vstd::prelude::*;
use vstd::std_specs::convert::FromSpec;

verus! {

/// One of the four strategies by which a simulation is advanced.
#[derive(Clone, Copy, Debug, PartialEq, Eq, Structural, Hash)]
pub enum Timestep {
    /// One step per frame, always of the nominal step size.
    NoDelta,
    /// One step per frame, of the time that actually elapsed.
    VariableDelta,
    /// Nominal-size steps, then one shorter step for what is left of the frame.
    SemiFixed,
    /// Nominal-size steps only; what is left is carried into the next frame.
    Fixed,
}

impl Timestep {
    /// The position of the mode among the four, counted from zero.
    pub open spec fn spec_index(self) -> nat {
        match self {
            Timestep::NoDelta => 0,
            Timestep::VariableDelta => 1,
            Timestep::SemiFixed => 2,
            Timestep::Fixed => 3,
        }
    }

    /// The single-bit flag value of the mode.
    pub open spec fn spec_bits(self) -> nat {
        match self {
            Timestep::NoDelta => 1,
            Timestep::VariableDelta => 2,
            Timestep::SemiFixed => 4,
            Timestep::Fixed => 8,
        }
    }

    /// The position of the mode among the four: the base-two logarithm of its
    /// flag value.
    pub fn index(self) -> (i: usize)
        ensures
            i == self.spec_index(),
            i < 4,
    {
        match self {
            Timestep::NoDelta => 0,
            Timestep::VariableDelta => 1,
            Timestep::SemiFixed => 2,
            Timestep::Fixed => 3,
        }
    }

    /// The single-bit flag value of the mode: 1, 2, 4 or 8.
    pub fn bits(self) -> (b: u8)
        ensures
            b == self.spec_bits(),
    {
        match self {
            Timestep::NoDelta => 1,
            Timestep::VariableDelta => 2,
            Timestep::SemiFixed => 4,
            Timestep::Fixed => 8,
        }
    }

    /// The mode whose flag value is `bits`; `None` unless `bits` is exactly
    /// one of 1, 2, 4 and 8.
    pub fn from_bits(bits: u8) -> (r: Option<Timestep>)
        ensures
            r is Some <==> (bits == 1 || bits == 2 || bits == 4 || bits == 8),
            r is Some ==> r->0.spec_bits() == bits,
    {
        if bits == 1 {
            Some(Timestep::NoDelta)
        } else if bits == 2 {
            Some(Timestep::VariableDelta)
        } else if bits == 4 {
            Some(Timestep::SemiFixed)
        } else if bits == 8 {
            Some(Timestep::Fixed)
        } else {
            None
        }
    }
}

/// The flag value of a mode is two to the power of its position, so that the
/// position is the base-two logarithm of the flag value.
pub proof fn lemma_bits_are_powers_of_two(timestep: Timestep)
    ensures
        timestep.spec_bits() == pow2(timestep.spec_index()),
{
    lemma2_to64();
}

/// The set of timestep modes that are currently active. Any number of the
/// four may be active at once.
#[derive(Clone, Copy, Debug, PartialEq, Eq, Structural, Hash)]
pub struct ActiveTimesteps {
    pub no_delta: bool,
    pub variable_delta: bool,
    pub semi_fixed: bool,
    pub fixed: bool,
}

/// One if the mode is in the set, else zero.
pub open spec fn indicator(set: Set<Timestep>, timestep: Timestep) -> nat {
    if set.contains(timestep) {
        1
    } else {
        0
    }
}

/// The flag value of a set of modes: the sum of its members' flag values.
pub open spec fn bits_of(set: Set<Timestep>) -> nat {
    indicator(set, Timestep::NoDelta) + 2 * indicator(set, Timestep::VariableDelta) + 4
        * indicator(set, Timestep::SemiFixed) + 8 * indicator(set, Timestep::Fixed)
}

/// How many modes a set holds.
pub open spec fn count_of(set: Set<Timestep>) -> nat {
    indicator(set, Timestep::NoDelta) + indicator(set, Timestep::VariableDelta) + indicator(
        set,
        Timestep::SemiFixed,
    ) + indicator(set, Timestep::Fixed)
}

/// The modes of `set` that come before `timestep` among the four.
pub open spec fn below(set: Set<Timestep>, timestep: Timestep) -> Set<Timestep> {
    set.filter(|other: Timestep| other.spec_index() < timestep.spec_index())
}

/// The mode alone if it is in the set, else nothing.
pub open spec fn member_seq(set: Set<Timestep>, timestep: Timestep) -> Seq<Timestep> {
    if set.contains(timestep) {
        seq![timestep]
    } else {
        seq![]
    }
}

/// The members of a set in the order of their flag values.
pub open spec fn timesteps_of(set: Set<Timestep>) -> Seq<Timestep> {
    member_seq(set, Timestep::NoDelta) + member_seq(set, Timestep::VariableDelta) + member_seq(
        set,
        Timestep::SemiFixed,
    ) + member_seq(set, Timestep::Fixed)
}

impl View for ActiveTimesteps {
    type V = Set<Timestep>;

    open spec fn view(&self) -> Set<Timestep> {
        Set::new(
            |timestep: Timestep|
                match timestep {
                    Timestep::NoDelta => self.no_delta,
                    Timestep::VariableDelta => self.variable_delta,
                    Timestep::SemiFixed => self.semi_fixed,
                    Timestep::Fixed => self.fixed,
                },
        )
    }
}

impl ActiveTimesteps {
    /// The set with no mode in it.
    pub fn empty() -> (r: ActiveTimesteps)
        ensures
            r@ == Set::<Timestep>::empty(),
    {
        let r = ActiveTimesteps {
            no_delta: false,
            variable_delta: false,
            semi_fixed: false,
            fixed: false,
        };
        assert(r@ =~= Set::<Timestep>::empty());
        r
    }

    /// The set of all four modes.
    pub fn all() -> (r: ActiveTimesteps)
        ensures
            r@ == Set::<Timestep>::full(),
    {
        let r = ActiveTimesteps { no_delta: true, variable_delta: true, semi_fixed: true, fixed: true };
        assert(r@ =~= Set::<Timestep>::full());
        r
    }

    /// The set whose flag value is `bits`; `None` if `bits` has a bit set
    /// that belongs to no mode.
    pub fn from_bits(bits: u8) -> (r: Option<ActiveTimesteps>)
        ensures
            r is Some <==> bits < 16,
            r is Some ==> bits_of(r->0@) == bits,
    {
        if bits < 16 {
            Some(
                ActiveTimesteps {
                    no_delta: bits % 2 == 1,
                    variable_delta: (bits / 2) % 2 == 1,
                    semi_fixed: (bits / 4) % 2 == 1,
                    fixed: bits / 8 == 1,
                },
            )
        } else {
            None
        }
    }

    /// The flag value of the set: the sum of its members' flag values.
    pub fn bits(&self) -> (b: u8)
        ensures
            b == bits_of(self@),
            b < 16,
    {
        let mut b: u8 = 0;
        if self.no_delta {
            b = b + 1;
        }
        if self.variable_delta {
            b = b + 2;
        }
        if self.semi_fixed {
            b = b + 4;
        }
        if self.fixed {
            b = b + 8;
        }
        b
    }

    /// Whether no mode is active.
    pub fn is_empty(&self) -> (b: bool)
        ensures
            b == (self@ == Set::<Timestep>::empty()),
    {
        let b = !self.no_delta && !self.variable_delta && !self.semi_fixed && !self.fixed;
        proof {
            if b {
                assert(self@ =~= Set::<Timestep>::empty());
            } else {
                assert(self@.contains(Timestep::NoDelta) || self@.contains(Timestep::VariableDelta)
                    || self@.contains(Timestep::SemiFixed) || self@.contains(Timestep::Fixed));
            }
        }
        b
    }

    /// Whether the mode is active.
    pub fn contains(&self, timestep: Timestep) -> (b: bool)
        ensures
            b == self@.contains(timestep),
    {
        match timestep {
            Timestep::NoDelta => self.no_delta,
            Timestep::VariableDelta => self.variable_delta,
            Timestep::SemiFixed => self.semi_fixed,
            Timestep::Fixed => self.fixed,
        }
    }

    /// Makes the mode active.
    pub fn insert(&mut self, timestep: Timestep)
        ensures
            final(self)@ == old(self)@.insert(timestep),
    {
        match timestep {
            Timestep::NoDelta => self.no_delta = true,
            Timestep::VariableDelta => self.variable_delta = true,
            Timestep::SemiFixed => self.semi_fixed = true,
            Timestep::Fixed => self.fixed = true,
        }
        assert(final(self)@ =~= old(self)@.insert(timestep));
    }

    /// Makes the mode inactive.
    pub fn remove(&mut self, timestep: Timestep)
        ensures
            final(self)@ == old(self)@.remove(timestep),
    {
        match timestep {
            Timestep::NoDelta => self.no_delta = false,
            Timestep::VariableDelta => self.variable_delta = false,
            Timestep::SemiFixed => self.semi_fixed = false,
            Timestep::Fixed => self.fixed = false,
        }
        assert(final(self)@ =~= old(self)@.remove(timestep));
    }

    /// Makes every mode of `other` active if `value` is true, and inactive if
    /// it is false; the other modes stay as they are.
    pub fn set(&mut self, other: ActiveTimesteps, value: bool)
        ensures
            value ==> final(self)@ == old(self)@.union(other@),
            !value ==> final(self)@ == old(self)@.difference(other@),
    {
        if other.no_delta {
            self.no_delta = value;
        }
        if other.variable_delta {
            self.variable_delta = value;
        }
        if other.semi_fixed {
            self.semi_fixed = value;
        }
        if other.fixed {
            self.fixed = value;
        }
        proof {
            if value {
                assert(final(self)@ =~= old(self)@.union(other@));
            } else {
                assert(final(self)@ =~= old(self)@.difference(other@));
            }
        }
    }

    /// How many modes are active.
    pub fn count(&self) -> (n: u32)
        ensures
            n == count_of(self@),
            n <= 4,
    {
        let mut n: u32 = 0;
        if self.no_delta {
            n = n + 1;
        }
        if self.variable_delta {
            n = n + 1;
        }
        if self.semi_fixed {
            n = n + 1;
        }
        if self.fixed {
            n = n + 1;
        }
        n
    }

    /// How many active modes come before `timestep` among the four.
    pub fn count_below(&self, timestep: Timestep) -> (n: u32)
        ensures
            n == count_of(below(self@, timestep)),
            n <= timestep.spec_index(),
    {
        let index = timestep.index();
        let mut n: u32 = 0;
        if self.no_delta && index > 0 {
            n = n + 1;
        }
        if self.variable_delta && index > 1 {
            n = n + 1;
        }
        if self.semi_fixed && index > 2 {
            n = n + 1;
        }
        n
    }

    /// The active modes, in the order of their flag values.
    pub fn iter_timesteps(&self) -> (r: Vec<Timestep>)
        ensures
            r@ == timesteps_of(self@),
    {
        let mut r: Vec<Timestep> = Vec::new();
        if self.no_delta {
            r.push(Timestep::NoDelta);
        }
        if self.variable_delta {
            r.push(Timestep::VariableDelta);
        }
        if self.semi_fixed {
            r.push(Timestep::SemiFixed);
        }
        if self.fixed {
            r.push(Timestep::Fixed);
        }
        assert(r@ =~= timesteps_of(self@));
        r
    }
}

impl Default for ActiveTimesteps {
    /// The semi-fixed timestep alone.
    fn default() -> (r: ActiveTimesteps)
        ensures
            r@ == set![Timestep::SemiFixed],
    {
        let r = ActiveTimesteps {
            no_delta: false,
            variable_delta: false,
            semi_fixed: true,
            fixed: false,
        };
        assert(r@ =~= set![Timestep::SemiFixed]);
        r
    }
}

impl From<Timestep> for ActiveTimesteps {
    /// The set that holds the one mode.
    fn from(timestep: Timestep) -> (r: ActiveTimesteps) {
        ActiveTimesteps {
            no_delta: timestep == Timestep::NoDelta,
            variable_delta: timestep == Timestep::VariableDelta,
            semi_fixed: timestep == Timestep::SemiFixed,
            fixed: timestep == Timestep::Fixed,
        }
    }
}

impl vstd::std_specs::convert::FromSpecImpl<Timestep> for ActiveTimesteps {
    open spec fn obeys_from_spec() -> bool {
        true
    }

    open spec fn from_spec(timestep: Timestep) -> ActiveTimesteps {
        ActiveTimesteps {
            no_delta: timestep == Timestep::NoDelta,
            variable_delta: timestep == Timestep::VariableDelta,
            semi_fixed: timestep == Timestep::SemiFixed,
            fixed: timestep == Timestep::Fixed,
        }
    }
}

/// The set made from one mode holds that mode and no other.
pub proof fn lemma_from_is_singleton(timestep: Timestep)
    ensures
        ActiveTimesteps::from_spec(timestep)@ == set![timestep],
{
    assert(ActiveTimesteps::from_spec(timestep)@ =~= set![timestep]);
}

} // verus!
