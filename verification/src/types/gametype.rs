//! The typed view of a game-type record.

use vstd::prelude::*;
use crate::project::{Projection, text_of};

verus! {

/// One related link: a relation name and a URI.
#[derive(Debug)]
pub struct Link {
    pub rel: String,
    pub uri: String,
}

/// A game type: a classification for unofficial games.
#[derive(Debug)]
pub struct GameType {
    pub id: String,
    pub name: String,
    pub links: Vec<Link>,
}

/// A game-type record as fetched: the record under its `data` wrapper.
#[derive(Debug)]
pub struct GameTypeData {
    pub data: GameType,
}

impl GameTypeData {
    /// Builds the typed view of a game-type projection; `None` when the
    /// projection is not shaped like one.
    pub fn from_projection(p: &Projection) -> (r: Option<GameTypeData>)
        ensures
            r matches Some(g) ==> {
                &&& p@.values.len() >= 2
                &&& p@.values[0] is Text
                &&& p@.values[1] is Text
                &&& g.data.name@ == text_of(p@.values[0])
                &&& g.data.id@ == text_of(p@.values[1])
                &&& g.data.links@.len() == p@.links.len()
                &&& forall|i: int|
                    0 <= i < p@.links.len() ==> (#[trigger] g.data.links@[i]).rel@
                        == p@.links[i].0 && g.data.links@[i].uri@ == p@.links[i].1
            },
            r is None ==> (p@.values.len() < 2 || !(p@.values[0] is Text) || !(p@.values[1]
                is Text)),
    {
        if p.len() < 2 {
            return None;
        }
        let name = match p.value_at(0).text() {
            Some(s) => s.clone(),
            None => {
                return None;
            },
        };
        let id = match p.value_at(1).text() {
            Some(s) => s.clone(),
            None => {
                return None;
            },
        };
        let ls = p.links();
        let n = ls.len();
        let mut links: Vec<Link> = Vec::new();
        let mut i: usize = 0;
        while i < n
            invariant
                i <= n,
                n == ls@.len(),
                crate::project::pair_views(ls@) == p@.links,
                links@.len() == i,
                forall|k: int|
                    0 <= k < i ==> (#[trigger] links@[k]).rel@ == p@.links[k].0
                        && links@[k].uri@ == p@.links[k].1,
            decreases n - i,
        {
            proof {
                assert(crate::project::pair_views(ls@)[i as int] == (
                    ls@[i as int].0@,
                    ls@[i as int].1@,
                ));
            }
            links.push(Link { rel: ls[i].0.clone(), uri: ls[i].1.clone() });
            i += 1;
        }
        Some(GameTypeData { data: GameType { id, name, links } })
    }
}

} // verus!
