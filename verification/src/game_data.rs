//! Game lookups.
//!
//! A [`GameData`] describes one game request: the name (or abbreviation) to
//! look up and the sub-resource modifiers the service recognizes.  The
//! modifiers are mutually compatible and append path segments in a fixed
//! order: categories, levels, variables, derived games, records.  Their
//! projections are explicitly unimplemented; only the base record is
//! projected, under [`ResourceKind::Game`](crate::schema::ResourceKind).

use vstd::prelude::*;
use vstd::string::*;

verus! {

/// The descriptor of one game lookup.
#[derive(Debug)]
pub struct GameData {
    /// The game name or abbreviation to look up.
    pub name: String,
    categories: bool,
    levels: bool,
    variables: bool,
    derived_games: bool,
    records: bool,
}

impl GameData {
    /// The lookup name the descriptor carries.
    pub closed spec fn spec_name(&self) -> Seq<char> {
        self.name@
    }

    /// Whether any sub-resource modifier is set, in which case the
    /// response is fetched but not projected.
    pub closed spec fn wants_sub_resource(&self) -> bool {
        self.categories || self.levels || self.variables || self.derived_games || self.records
    }

    /// The suffix the modifiers append to the base path, in their fixed
    /// order.
    pub closed spec fn spec_suffix(&self) -> Seq<char> {
        (if self.categories {
            "/categories"@
        } else {
            Seq::empty()
        }) + (if self.levels {
            "/levels"@
        } else {
            Seq::empty()
        }) + (if self.variables {
            "/variables"@
        } else {
            Seq::empty()
        }) + (if self.derived_games {
            "/derived-games"@
        } else {
            Seq::empty()
        }) + (if self.records {
            "/records"@
        } else {
            Seq::empty()
        })
    }

    /// The URL the descriptor requests.
    pub open spec fn spec_url(&self) -> Seq<char> {
        "https://www.speedrun.com/api/v1/games/"@ + self.spec_name() + self.spec_suffix()
    }

    /// A descriptor for the base record of `game`, with no modifier set.
    pub fn new(game: &str) -> (r: GameData)
        ensures
            r.spec_name() == game@,
            !r.wants_sub_resource(),
            r.spec_url() == "https://www.speedrun.com/api/v1/games/"@ + game@,
    {
        let r = GameData {
            name: String::from_str(game),
            categories: false,
            levels: false,
            variables: false,
            derived_games: false,
            records: false,
        };
        proof {
            assert(r.spec_suffix() =~= Seq::<char>::empty());
            assert(r.spec_url() =~= "https://www.speedrun.com/api/v1/games/"@ + game@);
        }
        r
    }

    /// Whether any sub-resource modifier is set.
    pub fn is_sub_resource(&self) -> (r: bool)
        ensures
            r == self.wants_sub_resource(),
    {
        self.categories || self.levels || self.variables || self.derived_games || self.records
    }

    /// Builds the request URL, appending the modifier segments in their
    /// fixed order.
    pub fn url(&self) -> (r: String)
        ensures
            r@ == self.spec_url(),
    {
        let mut u = String::from_str("https://www.speedrun.com/api/v1/games/");
        u.append(self.name.as_str());
        if self.categories {
            u.append("/categories");
        }
        if self.levels {
            u.append("/levels");
        }
        if self.variables {
            u.append("/variables");
        }
        if self.derived_games {
            u.append("/derived-games");
        }
        if self.records {
            u.append("/records");
        }
        proof {
            assert(u@ =~= self.spec_url());
        }
        u
    }
}

} // verus!
