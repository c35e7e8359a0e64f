//! The player sheet: a small standalone record saved to one file of its own,
//! with a fixed extension.

use vstd::prelude::*;
use crate::archive::spec_with_extension;

verus! {

/// The fixed file extension of a player sheet file.
pub open spec fn spec_extension() -> Seq<char> {
    "playersheet"@
}

pub fn extension() -> (r: &'static str)
    ensures
        r@ == spec_extension(),
{
    "playersheet"
}

/// A standalone player sheet.
#[derive(Clone, Debug)]
pub struct PlayerSheet {
    pub name: String,
    pub race: Race,
    pub class: Class,
}

/// The race named on a player sheet.
#[derive(Clone, Debug)]
pub struct Race {
    pub name: String,
}

/// The class named on a player sheet.
#[derive(Clone, Debug)]
pub struct Class {
    pub name: String,
}

impl Default for PlayerSheet {
    fn default() -> (r: Self)
        ensures
            r.name@ == "Hero"@,
            r.race.name@ == "Unknown"@,
            r.class.name@ == "Classless"@,
    {
        Self { name: "Hero".to_owned(), race: Race::default(), class: Class::default() }
    }
}

impl Default for Race {
    fn default() -> (r: Self)
        ensures
            r.name@ == "Unknown"@,
    {
        Self { name: "Unknown".to_owned() }
    }
}

impl Default for Class {
    fn default() -> (r: Self)
        ensures
            r.name@ == "Classless"@,
    {
        Self { name: "Classless".to_owned() }
    }
}

/// The path a player sheet is read from and written to: the given path with
/// the extension forced to the player sheet's own. A path whose file name can
/// take no extension is returned unchanged.
pub fn path_with_extension(path: &str) -> (r: String)
    ensures
        match spec_with_extension(path@, spec_extension()) {
            Some(s) => r@ == s,
            None => r@ == path@,
        },
{
    match crate::archive::with_extension(path, extension()) {
        Some(s) => s,
        None => path.to_owned(),
    }
}

} // verus!
