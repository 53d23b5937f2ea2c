use vstd::prelude::*;

use crate::params::Gamma;

verus! {

/// One of the five brightness levels a cell can have.  The top level takes
/// every step count of four and above.
#[derive(Debug, Clone, Copy, PartialEq, Eq, Structural)]
pub enum Brightness {
    Zero,
    One,
    Two,
    Three,
    Bright,
}

impl Brightness {
    /// The level as a number from 0 to 4.
    pub open spec fn spec_level(self) -> nat {
        match self {
            Brightness::Zero => 0,
            Brightness::One => 1,
            Brightness::Two => 2,
            Brightness::Three => 3,
            Brightness::Bright => 4,
        }
    }

    /// The level that a step count saturates to.
    pub open spec fn spec_from_steps(steps: u8) -> Brightness {
        if steps == 0 {
            Brightness::Zero
        } else if steps == 1 {
            Brightness::One
        } else if steps == 2 {
            Brightness::Two
        } else if steps == 3 {
            Brightness::Three
        } else {
            Brightness::Bright
        }
    }

    /// The level as a number from 0 to 4.
    pub fn level(&self) -> (n: u8)
        ensures
            n == self.spec_level(),
            n <= 4,
    {
        match self {
            Brightness::Zero => 0,
            Brightness::One => 1,
            Brightness::Two => 2,
            Brightness::Three => 3,
            Brightness::Bright => 4,
        }
    }

    /// Saturates a step count to a level: counts up to three keep their
    /// value, and every count from four on is the top level.
    pub fn from_steps(steps: u8) -> (b: Brightness)
        ensures
            b == Brightness::spec_from_steps(steps),
            b.spec_level() == if steps < 4 { steps as nat } else { 4 },
    {
        match steps {
            0 => Brightness::Zero,
            1 => Brightness::One,
            2 => Brightness::Two,
            3 => Brightness::Three,
            _ => Brightness::Bright,
        }
    }
}

/// How many steps lie between black and white before the top is saturated:
/// the step count of white under every gamma.
pub const STEPS: u8 = 5;

/// The step count of a luma under gamma 1.0: five times the luma's share of
/// 255, rounded to the nearest whole number.
pub open spec fn linear_steps(luma: int) -> int {
    (10 * luma + 255) / 510
}

/// `linear_steps` lies within a half of `5 * luma / 255`, and never exactly a
/// half away: no luma stands midway between two step counts.  Black has no
/// step and white has all of them.
pub proof fn lemma_linear_steps_nearest(luma: int)
    requires
        0 <= luma <= 255,
    ensures
        0 <= linear_steps(luma) <= STEPS,
        linear_steps(0) == 0,
        linear_steps(255) == STEPS,
        -255 < 2 * (5 * luma - 255 * linear_steps(luma)) < 255,
{
}

/// No other whole number is within a half of `5 * luma / 255`.
pub proof fn lemma_linear_steps_unique(luma: int, other: int)
    requires
        0 <= luma <= 255,
        -255 <= 2 * (5 * luma - 255 * other) <= 255,
    ensures
        other == linear_steps(luma),
{
}

/// A brighter luma never has fewer steps under gamma 1.0.
pub proof fn lemma_linear_steps_monotone(darker: int, brighter: int)
    requires
        darker <= brighter,
    ensures
        linear_steps(darker) <= linear_steps(brighter),
{
}

/// The step counts of all 256 lumas under gamma 1.0.
pub open spec fn linear_curve() -> Seq<u8> {
    Seq::new(256, |luma: int| linear_steps(luma) as u8)
}

/// A tone curve: for each of the 256 lumas, the number of brightness steps it
/// reaches once gamma is applied.
#[derive(Debug, Clone, Copy, PartialEq, Eq)]
pub struct ToneCurve {
    steps: [u8; 256],
}

impl View for ToneCurve {
    type V = Seq<u8>;

    closed spec fn view(&self) -> Seq<u8> {
        self.steps@
    }
}

impl ToneCurve {
    /// The brightness level of a luma on a curve given as its step counts.
    pub open spec fn brightness_on(curve: Seq<u8>, luma: u8) -> Brightness {
        Brightness::spec_from_steps(curve[luma as int])
    }

    /// The brightness level of a luma on this curve.
    pub open spec fn spec_brightness(&self, luma: u8) -> Brightness {
        Self::brightness_on(self@, luma)
    }

    /// A curve always has one entry per luma.
    pub proof fn lemma_len(&self)
        ensures
            self@.len() == 256,
    {
    }

    /// The curve of gamma 1.0, computed in whole numbers.
    pub fn linear() -> (curve: ToneCurve)
        ensures
            curve@ == linear_curve(),
    {
        let mut steps = [0u8; 256];
        let mut luma: usize = 0;
        while luma < 256
            invariant
                luma <= 256,
                forall|k: int| 0 <= k < luma ==> steps@[k] == linear_steps(k),
            decreases 256 - luma,
        {
            let step: usize = (10 * luma + 255) / 510;
            steps[luma] = step as u8;
            luma += 1;
        }
        ToneCurve { steps }
    }

    /// The curve of a gamma whose power law needs no floating-point
    /// arithmetic.  Gamma 1.0 leaves every luma as it is, so its curve is the
    /// linear one; no other gamma has an exact curve.
    pub fn exact(gamma: &Gamma) -> (curve: Option<ToneCurve>)
        ensures
            curve is Some <==> gamma.spec_is_unit(),
            curve matches Some(c) ==> c@ == linear_curve(),
    {
        if gamma.is_unit() {
            Some(ToneCurve::linear())
        } else {
            None
        }
    }

    /// A curve from step counts that the caller worked out, one per luma.
    pub fn from_steps(steps: [u8; 256]) -> (curve: ToneCurve)
        ensures
            curve@ == steps@,
    {
        ToneCurve { steps }
    }

    /// The step count of a luma on this curve.
    pub fn steps_at(&self, luma: u8) -> (steps: u8)
        ensures
            steps == self@[luma as int],
    {
        self.steps[luma as usize]
    }

    /// The brightness level of a luma on this curve.
    pub fn brightness(&self, luma: u8) -> (b: Brightness)
        ensures
            b == self.spec_brightness(luma),
    {
        Brightness::from_steps(self.steps[luma as usize])
    }
}

/// Whatever the curve, and so whatever the gamma, a luma's level is one of
/// 0, 1, 2, 3 and 4.
pub proof fn lemma_level_in_range(curve: Seq<u8>, luma: u8)
    ensures
        ToneCurve::brightness_on(curve, luma).spec_level() <= 4,
{
}

/// Under gamma 1.0 a brighter luma never gets a lower level.
pub proof fn lemma_linear_level_monotone(darker: u8, brighter: u8)
    requires
        darker <= brighter,
    ensures
        ToneCurve::brightness_on(linear_curve(), darker).spec_level() <= ToneCurve::brightness_on(
            linear_curve(),
            brighter,
        ).spec_level(),
{
    lemma_linear_steps_nearest(darker as int);
    lemma_linear_steps_nearest(brighter as int);
    lemma_linear_steps_monotone(darker as int, brighter as int);
}

/// Under gamma 1.0 the level comes straight from the luma: it is the luma's
/// own rounded step count, capped at 4.
pub proof fn lemma_linear_level(luma: u8)
    ensures
        ToneCurve::brightness_on(linear_curve(), luma).spec_level() == if linear_steps(luma as int)
            < 4 {
            linear_steps(luma as int)
        } else {
            4
        },
{
    lemma_linear_steps_nearest(luma as int);
}

} // verus!
