//! Player-authored sheet records: the plain documents the sheet store and the
//! single-file persistence carry. A sheet's identity is the pair of its kind
//! and its `name` field.

use vstd::prelude::*;
use crate::ability::AbilityBlock;

verus! {

/// A race sheet.
#[derive(Clone, Debug)]
pub struct Race {
    pub name: String,
}

impl Default for Race {
    fn default() -> (r: Self)
        ensures
            r.name@ == "Unknown"@,
    {
        Self { name: "Unknown".to_owned() }
    }
}

/// A class sheet: a class a character has taken, at some level.
#[derive(Clone, Debug)]
pub struct Class {
    pub name: String,
    pub level: usize,
}

impl Default for Class {
    fn default() -> (r: Self)
        ensures
            r.name@ == "Unknown"@,
            r.level == 0,
    {
        Self { name: "Unknown".to_owned(), level: 0 }
    }
}

/// A character sheet, with its race, abilities and classes nested.
#[derive(Clone, Debug)]
pub struct Character {
    pub name: String,
    pub description: String,
    pub speed: usize,
    pub race: Race,
    pub ability: AbilityBlock,
    pub class: Vec<Class>,
}

/// The sum of the class levels of a sheet.
pub open spec fn spec_levels_sum(classes: Seq<Class>) -> int
    decreases classes.len(),
{
    if classes.len() == 0 {
        0
    } else {
        spec_levels_sum(classes.drop_last()) + classes.last().level
    }
}

impl Character {
    /// The character's total level: the sum of its class levels, saturating
    /// at the machine limit.
    pub fn level(&self) -> (r: usize)
        ensures
            r == if spec_levels_sum(self.class@) > usize::MAX {
                usize::MAX as int
            } else {
                spec_levels_sum(self.class@)
            },
    {
        let mut total: usize = 0;
        let mut i: usize = 0;
        proof {
            assert(self.class@.take(0) =~= Seq::<Class>::empty());
        }
        while i < self.class.len()
            invariant
                i <= self.class@.len(),
                total == if spec_levels_sum(self.class@.take(i as int)) > usize::MAX {
                    usize::MAX as int
                } else {
                    spec_levels_sum(self.class@.take(i as int))
                },
            decreases self.class@.len() - i,
        {
            let level = self.class[i].level;
            if total <= usize::MAX - level {
                total = total + level;
            } else {
                total = usize::MAX;
            }
            proof {
                assert(self.class@.take(i + 1).drop_last() =~= self.class@.take(i as int));
                assert(self.class@.take(i + 1).last() == self.class@[i as int]);
            }
            i = i + 1;
        }
        proof {
            assert(self.class@.take(self.class@.len() as int) =~= self.class@);
        }
        total
    }
}

impl Default for Character {
    fn default() -> (r: Self)
        ensures
            r.name@ == "Unknown"@,
            r.description@.len() == 0,
            r.speed == 30,
            r.race.name@ == "Unknown"@,
            r.class@.len() == 0,
            r.ability.strenght.spec_score() == 10,
            r.ability.dexterity.spec_score() == 10,
            r.ability.constitution.spec_score() == 10,
            r.ability.intellignce.spec_score() == 10,
            r.ability.wisdom.spec_score() == 10,
            r.ability.charisma.spec_score() == 10,
    {
        Self {
            name: "Unknown".to_owned(),
            description: String::new(),
            speed: 30,
            race: Race::default(),
            ability: AbilityBlock::default(),
            class: Vec::new(),
        }
    }
}

/// One class a character has taken from a content pack, with the balance it
/// was taken under.
#[derive(Clone, Debug)]
pub struct CharacterClass {
    pub name: String,
    pub balance: String,
    pub level: usize,
}

impl Default for CharacterClass {
    fn default() -> (r: Self)
        ensures
            r.name@.len() == 0,
            r.balance@.len() == 0,
            r.level == 0,
    {
        Self { name: String::new(), balance: String::new(), level: 0 }
    }
}

} // verus!
