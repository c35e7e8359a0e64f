//! Ability scores and their modifiers.
//!
//! A score is always kept between [`Ability::MIN_SCORE`] and
//! [`Ability::MAX_SCORE`]; every constructor clamps into that range.

use vstd::prelude::*;

verus! {

/// A score clamped into the valid range.
pub open spec fn clamp_score(score: int) -> int {
    if score < 1 {
        1
    } else if score > 30 {
        30
    } else {
        score
    }
}

/// One ability score of a character sheet.
#[derive(Clone, Copy, Debug)]
pub struct Ability {
    score: isize,
}

impl Ability {
    pub const MIN_SCORE: isize = 1;

    pub const MAX_SCORE: isize = 30;

    pub closed spec fn spec_score(&self) -> int {
        self.score as int
    }

    #[verifier::type_invariant]
    spec fn score_in_range(self) -> bool {
        1 <= self.score <= 30
    }

    /// Returns the ability score.
    pub fn score(&self) -> (r: isize)
        ensures
            r == self.spec_score(),
            1 <= r <= 30,
    {
        proof {
            use_type_invariant(self);
        }
        self.score
    }

    /// Calculates the modifier for the score.
    /// Modifier is score minus 10 divided by 2, rounded down.
    pub fn modifier(&self) -> (r: isize)
        ensures
            r == (self.spec_score() - 10) / 2,
    {
        proof {
            use_type_invariant(self);
        }
        let d: isize = self.score - 10;
        if d >= 0 {
            d / 2
        } else {
            -((-d + 1) / 2)
        }
    }

    /// Creates an `Ability` from a given score.
    /// The score will be clamped between `MIN_SCORE` and `MAX_SCORE`.
    pub fn from_score(score: isize) -> (r: Self)
        ensures
            r.spec_score() == clamp_score(score as int),
    {
        let clamped: isize = if score < 1 {
            1
        } else if score > 30 {
            30
        } else {
            score
        };
        Self { score: clamped }
    }

    /// Calculates the lowest score that would produce the specified modifier.
    pub fn from_modifier_down(modifier: isize) -> (r: Self)
        ensures
            r.spec_score() == clamp_score(2 * modifier + 10),
    {
        if modifier >= 10 {
            Self::from_score(30)
        } else if modifier <= -5 {
            Self::from_score(1)
        } else {
            Self::from_score(2 * modifier + 10)
        }
    }

    /// Calculates the highest score that would produce the specified modifier.
    pub fn from_modifier_up(modifier: isize) -> (r: Self)
        ensures
            r.spec_score() == clamp_score(2 * modifier + 11),
    {
        if modifier >= 10 {
            Self::from_score(30)
        } else if modifier <= -6 {
            Self::from_score(1)
        } else {
            Self::from_score(2 * modifier + 11)
        }
    }

    /// The ability whose score is the sum of the two scores, clamped back
    /// into the valid range.
    pub fn plus(self, rhs: Ability) -> (r: Ability)
        ensures
            r.spec_score() == clamp_score(self.spec_score() + rhs.spec_score()),
    {
        proof {
            use_type_invariant(self);
            use_type_invariant(rhs);
        }
        Ability::from_score(self.score + rhs.score)
    }

    /// The ability whose score is the difference of the two scores, clamped
    /// back into the valid range.
    pub fn minus(self, rhs: Ability) -> (r: Ability)
        ensures
            r.spec_score() == clamp_score(self.spec_score() - rhs.spec_score()),
    {
        proof {
            use_type_invariant(self);
            use_type_invariant(rhs);
        }
        Ability::from_score(self.score - rhs.score)
    }
}

impl Default for Ability {
    /// The default score is the middle of the range, with modifier zero.
    fn default() -> (r: Self)
        ensures
            r.spec_score() == 10,
    {
        Self::from_score(10)
    }
}

/// Every ability of one character, gathered in a block.
#[derive(Clone, Copy, Debug)]
pub struct AbilityBlock {
    /// Strength measures bodily power and athletic training.
    pub strenght: Ability,
    /// Dexterity measures agility, reflexes, and balance.
    pub dexterity: Ability,
    /// Constitution measures health, stamina, and vital force.
    pub constitution: Ability,
    /// Intelligence measures mental acuity and the ability to reason.
    pub intellignce: Ability,
    /// Wisdom represents perceptiveness and intuition.
    pub wisdom: Ability,
    /// Charisma measures the ability to interact effectively with others.
    pub charisma: Ability,
}

impl Default for AbilityBlock {
    /// Every ability of the default block carries the default score.
    fn default() -> (r: Self)
        ensures
            r.strenght.spec_score() == 10,
            r.dexterity.spec_score() == 10,
            r.constitution.spec_score() == 10,
            r.intellignce.spec_score() == 10,
            r.wisdom.spec_score() == 10,
            r.charisma.spec_score() == 10,
    {
        Self {
            strenght: Ability::from_score(10),
            dexterity: Ability::from_score(10),
            constitution: Ability::from_score(10),
            intellignce: Ability::from_score(10),
            wisdom: Ability::from_score(10),
            charisma: Ability::from_score(10),
        }
    }
}

} // verus!
