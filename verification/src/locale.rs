//! The two sides of a game.

use vstd::prelude::*;
use vstd::string::*;
use crate::error::GameError;

verus! {

/// One of the two players, named by the language that player speaks.
#[derive(Clone, Copy, Debug, PartialEq, Eq, Structural)]
pub enum Locale {
    /// The player who is learning Chinese.
    English,
    /// The player who is learning English.
    Chinese,
}

/// Whether `name` begins with the two letters `first` and `second`.
pub open spec fn begins_with(name: Seq<char>, first: char, second: char) -> bool {
    name.len() >= 2 && name[0] == first && name[1] == second
}

/// The locale that a route's name stands for, if any: `English` for a name
/// that begins with "en", `Chinese` for one that begins with "zh".
pub open spec fn locale_named(name: Seq<char>) -> Option<Locale> {
    if begins_with(name, 'e', 'n') {
        Some(Locale::English)
    } else if begins_with(name, 'z', 'h') {
        Some(Locale::Chinese)
    } else {
        None
    }
}

impl Locale {
    /// The opposite side.
    pub open spec fn spec_other(&self) -> Locale {
        match *self {
            Locale::English => Locale::Chinese,
            Locale::Chinese => Locale::English,
        }
    }

    /// The opposite side.
    #[verifier::when_used_as_spec(spec_other)]
    pub fn other(&self) -> (peer: Locale)
        ensures
            peer == self.spec_other(),
            peer != *self,
            peer.spec_other() == *self,
    {
        match self {
            Locale::English => Locale::Chinese,
            Locale::Chinese => Locale::English,
        }
    }

    /// Reads a locale from the name in a connection's route. Only the first
    /// two letters count; any other name is refused, and the error holds it.
    pub fn from_str(locale: &str) -> (found: Result<Locale, GameError>)
        ensures
            match locale_named(locale@) {
                Some(side) => found == Ok::<Locale, GameError>(side),
                None => found matches Err(GameError::UnsupportedLocale(name)) && name@ == locale@,
            },
    {
        if locale.unicode_len() >= 2 {
            let first = locale.get_char(0);
            let second = locale.get_char(1);
            if first == 'e' && second == 'n' {
                return Ok(Locale::English);
            }
            if first == 'z' && second == 'h' {
                return Ok(Locale::Chinese);
            }
        }
        Err(GameError::UnsupportedLocale(locale.to_owned()))
    }
}

/// Turning to the other side twice leads back.
pub proof fn lemma_other_is_involution(side: Locale)
    ensures
        side.other().other() == side,
        side.other() != side,
{
}

} // verus!
