//! Game-type lookups.
//!
//! Game types are classifications for unofficial games (ROM hacks,
//! fangames, modifications).  A [`GameTypeData`] describes one lookup by
//! name or id; base records project under
//! [`ResourceKind::GameType`](crate::schema::ResourceKind).

use vstd::prelude::*;
use vstd::string::*;

verus! {

/// The descriptor of one game-type lookup.
#[derive(Debug)]
pub struct GameTypeData {
    /// The game-type name or id to look up.
    pub gametype: String,
}

impl GameTypeData {
    /// The URL the descriptor requests.
    pub open spec fn spec_url(&self) -> Seq<char> {
        "https://www.speedrun.com/api/v1/gametypes/"@ + self.gametype@
    }

    /// A descriptor for the record of `gametype`.
    pub fn new(gametype: &str) -> (r: GameTypeData)
        ensures
            r.gametype@ == gametype@,
    {
        GameTypeData { gametype: String::from_str(gametype) }
    }

    /// Builds the request URL.
    pub fn url(&self) -> (r: String)
        ensures
            r@ == self.spec_url(),
    {
        let mut u = String::from_str("https://www.speedrun.com/api/v1/gametypes/");
        u.append(self.gametype.as_str());
        u
    }
}

} // verus!
