//! Brightness as a whole percentage, and the direction a fade moves in.

use core::cmp::Ordering;
use core::ops::{Add, Mul, Neg};
use vstd::prelude::*;
use vstd::std_specs::cmp::PartialOrdSpecImpl;
use vstd::std_specs::convert::FromSpecImpl;
use vstd::std_specs::ops::{AddSpecImpl, MulSpecImpl, NegSpec};

verus! {

/// The nearest brightness to `v` that an LED can show: `v` itself between 0
/// and 100, otherwise the end of that range it lies beyond.
pub open spec fn clamp_percent(v: int) -> int {
    if v < 0 {
        0
    } else if v > 100 {
        100
    } else {
        v
    }
}

/// A brightness between 0 and 100 percent.
///
/// A level starts at one of the two ends and is moved by clamped addition, so
/// no level outside the range ever exists.
#[derive(Debug, PartialEq, Eq, Structural, Clone, Copy)]
pub struct LedLevel {
    level: i8,
}

impl View for LedLevel {
    type V = int;

    /// The brightness in percent.
    closed spec fn view(&self) -> int {
        self.level as int
    }
}

impl LedLevel {
    /// The level lies between 0 and 100. Every level that executable code
    /// holds satisfies this.
    #[verifier::type_invariant]
    pub closed spec fn wf(self) -> bool {
        0 <= self.level <= 100
    }

    /// The level that shows `p` percent, for `p` between 0 and 100.
    pub closed spec fn of_percent(p: int) -> LedLevel {
        LedLevel { level: p as i8 }
    }

    /// `of_percent` and the view are inverse to each other on 0..=100.
    pub proof fn lemma_of_percent(p: int)
        requires
            0 <= p <= 100,
        ensures
            Self::of_percent(p)@ == p,
            Self::of_percent(p).wf(),
    {
    }

    /// Two levels that show the same percentage are the same level.
    pub proof fn lemma_view_injective(a: LedLevel, b: LedLevel)
        requires
            a@ == b@,
        ensures
            a == b,
    {
    }

    /// A well-formed level lies between the two ends.
    pub proof fn lemma_wf_range(self)
        ensures
            self.wf() <==> 0 <= self@ <= 100,
    {
    }

    /// The level `delta` percent further on, stopping at either end of the
    /// range.
    pub open spec fn plus(self, delta: int) -> LedLevel {
        Self::of_percent(clamp_percent(self@ + delta))
    }

    /// Clamped addition lands where it says, which is inside the range.
    pub proof fn lemma_plus(self, delta: int)
        ensures
            self.plus(delta)@ == clamp_percent(self@ + delta),
            self.plus(delta).wf(),
    {
        Self::lemma_of_percent(clamp_percent(self@ + delta));
    }

    /// Fully lit.
    pub fn max() -> (r: LedLevel)
        ensures
            r@ == 100,
            r == Self::of_percent(100),
    {
        LedLevel { level: 100 }
    }

    /// Dark.
    pub fn min() -> (r: LedLevel)
        ensures
            r@ == 0,
            r == Self::of_percent(0),
    {
        LedLevel { level: 0 }
    }

    /// The brightness in percent.
    pub fn percent(&self) -> (p: u8)
        ensures
            p as int == self@,
            p <= 100,
    {
        proof {
            use_type_invariant(self);
        }
        self.level as u8
    }
}

impl Add<i8> for LedLevel {
    type Output = Self;

    /// Moves the level by `rhs` percent, stopping at either end of the range.
    fn add(self, rhs: i8) -> (r: LedLevel)
        ensures
            r@ == clamp_percent(self@ + rhs),
    {
        proof {
            use_type_invariant(self);
        }
        let sum: i16 = self.level as i16 + rhs as i16;
        let level: i8 = if sum < 0 {
            0
        } else if sum > 100 {
            100
        } else {
            sum as i8
        };
        LedLevel { level }
    }
}

impl AddSpecImpl<i8> for LedLevel {
    open spec fn obeys_add_spec() -> bool {
        true
    }

    open spec fn add_req(self, rhs: i8) -> bool {
        true
    }

    open spec fn add_spec(self, rhs: i8) -> LedLevel {
        self.plus(rhs as int)
    }
}

/// The level reached from `start` by adding the `deltas` one after another,
/// each addition clamped.
pub open spec fn add_all(start: LedLevel, deltas: Seq<i8>) -> LedLevel
    decreases deltas.len(),
{
    if deltas.len() == 0 {
        start
    } else {
        add_all(start, deltas.drop_last()).plus(deltas.last() as int)
    }
}

/// However many steps are added to a level, and whatever their sizes and
/// signs, the level stays between 0 and 100.
pub proof fn lemma_additions_stay_in_range(start: LedLevel, deltas: Seq<i8>)
    requires
        start.wf(),
    ensures
        add_all(start, deltas).wf(),
        0 <= add_all(start, deltas)@ <= 100,
    decreases deltas.len(),
{
    if deltas.len() == 0 {
        start.lemma_wf_range();
    } else {
        let before = add_all(start, deltas.drop_last());
        before.lemma_plus(deltas.last() as int);
    }
}

impl From<bool> for LedLevel {
    /// Fully lit for `true`, dark for `false`.
    fn from(l: bool) -> (r: LedLevel)
        ensures
            r@ == (if l { 100int } else { 0int }),
    {
        if l {
            LedLevel::max()
        } else {
            LedLevel::min()
        }
    }
}

impl FromSpecImpl<bool> for LedLevel {
    open spec fn obeys_from_spec() -> bool {
        true
    }

    open spec fn from_spec(l: bool) -> LedLevel {
        LedLevel::of_percent(if l { 100int } else { 0int })
    }
}

impl From<LedLevel> for u8 {
    /// The brightness in percent.
    fn from(l: LedLevel) -> (p: u8)
        ensures
            p <= 100,
    {
        l.percent()
    }
}

impl FromSpecImpl<LedLevel> for u8 {
    open spec fn obeys_from_spec() -> bool {
        true
    }

    open spec fn from_spec(l: LedLevel) -> u8 {
        l@ as u8
    }
}

impl PartialOrd for LedLevel {
    /// Levels are ordered by brightness.
    fn partial_cmp(&self, other: &LedLevel) -> (r: Option<Ordering>) {
        let mine: u8 = self.percent();
        let theirs: u8 = other.percent();
        if mine < theirs {
            Some(Ordering::Less)
        } else if mine > theirs {
            Some(Ordering::Greater)
        } else {
            proof {
                Self::lemma_view_injective(*self, *other);
            }
            Some(Ordering::Equal)
        }
    }
}

impl PartialOrdSpecImpl for LedLevel {
    open spec fn obeys_partial_cmp_spec() -> bool {
        true
    }

    open spec fn partial_cmp_spec(&self, other: &LedLevel) -> Option<Ordering> {
        if self@ < other@ {
            Some(Ordering::Less)
        } else if self@ > other@ {
            Some(Ordering::Greater)
        } else {
            Some(Ordering::Equal)
        }
    }
}

impl Default for LedLevel {
    /// A level is dark until something lights it.
    fn default() -> (r: LedLevel)
        ensures
            r@ == 0,
    {
        LedLevel::min()
    }
}

/// Which way a fade is moving.
#[derive(Debug, PartialEq, Eq, Structural, Clone, Copy)]
pub enum FadeDirection {
    /// Towards fully lit.
    Up,
    /// Towards dark.
    Down,
}

impl FadeDirection {
    /// The direction as a factor: 1 going up, -1 going down.
    pub open spec fn sign(self) -> int {
        match self {
            FadeDirection::Up => 1,
            FadeDirection::Down => -1,
        }
    }
}

impl<T: Neg<Output = T>> Mul<T> for FadeDirection {
    type Output = T;

    /// The step `rhs` taken in this direction: `rhs` itself going up, its
    /// negation going down.
    fn mul(self, rhs: T) -> (r: T) {
        match self {
            FadeDirection::Up => rhs,
            FadeDirection::Down => rhs.neg(),
        }
    }
}

impl<T: Neg<Output = T>> MulSpecImpl<T> for FadeDirection {
    open spec fn obeys_mul_spec() -> bool {
        T::obeys_neg_spec()
    }

    open spec fn mul_req(self, rhs: T) -> bool {
        self is Down ==> rhs.neg_req()
    }

    open spec fn mul_spec(self, rhs: T) -> T {
        match self {
            FadeDirection::Up => rhs,
            FadeDirection::Down => rhs.neg_spec(),
        }
    }
}

} // verus!
