//! Resolution of the user's home directory from two environment lookups.
//!
//! The library does not read the environment. A caller looks up the variables
//! named by [`PRIMARY_HOME_VARIABLE`] and [`SECONDARY_HOME_VARIABLE`] and
//! passes what it found: `Some` with the value, `None` where the variable is
//! not set.

use vstd::prelude::*;

verus! {

/// The variable that is consulted first.
pub const PRIMARY_HOME_VARIABLE: &'static str = "USERPROFILE";

/// The variable that is consulted when the first one is not set.
pub const SECONDARY_HOME_VARIABLE: &'static str = "HOME";

/// The home directory that stands in when neither variable is set.
pub const DEFAULT_HOME: &'static str = "C:\\Users\\User";

/// The default home directory as a sequence of characters.
pub open spec fn default_home() -> Seq<char> {
    "C:\\Users\\User"@
}

/// The home directory that two lookups resolve to: the primary value where
/// there is one, else the secondary value, else the default.
pub open spec fn resolved_home(
    primary: Option<Seq<char>>,
    secondary: Option<Seq<char>>,
) -> Seq<char> {
    match primary {
        Some(value) => value,
        None => match secondary {
            Some(value) => value,
            None => default_home(),
        },
    }
}

/// What a lookup found, as a sequence of characters.
pub open spec fn lookup_text(found: Option<String>) -> Option<Seq<char>> {
    match found {
        Some(value) => Some(value@),
        None => None,
    }
}

/// Resolves the home directory from the outcome of the two lookups. The
/// value is taken as it is: an empty one is a home directory like any other.
pub fn resolve_home(primary: Option<String>, secondary: Option<String>) -> (home: String)
    ensures
        home@ == resolved_home(lookup_text(primary), lookup_text(secondary)),
{
    match primary {
        Some(value) => value,
        None => match secondary {
            Some(value) => value,
            None => String::from_str(DEFAULT_HOME),
        },
    }
}

/// With neither variable set, the home directory is the default.
pub proof fn lemma_home_defaults()
    ensures
        resolved_home(None, None) == default_home(),
{
}

/// A primary value is the home directory, whatever the secondary lookup found.
pub proof fn lemma_primary_wins(value: Seq<char>, secondary: Option<Seq<char>>)
    ensures
        resolved_home(Some(value), secondary) == value,
{
}

/// With the primary variable not set, a secondary value is the home directory.
pub proof fn lemma_secondary_stands_in(value: Seq<char>)
    ensures
        resolved_home(None, Some(value)) == value,
{
}

} // verus!
