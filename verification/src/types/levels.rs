//! The typed view of a level record.

use vstd::prelude::*;
use crate::project::{Projection, text_of};

verus! {

/// One related link: a relation name and a URI.
#[derive(Debug)]
pub struct Links {
    pub rel: String,
    pub uri: String,
}

/// A level: a subcategory of a game.  The rules text is already
/// normalized: every double CRLF pair is collapsed to one space.
#[derive(Debug)]
pub struct Level {
    pub id: String,
    pub name: String,
    pub weblink: String,
    pub rules: String,
    pub links: Vec<Links>,
}

/// A level record as fetched: the record under its `data` wrapper.
#[derive(Debug)]
pub struct LevelData {
    pub data: Level,
}

impl LevelData {
    /// Builds the typed view of a level projection; `None` when the
    /// projection is not shaped like one.
    pub fn from_projection(p: &Projection) -> (r: Option<LevelData>)
        ensures
            r matches Some(l) ==> {
                &&& p@.values.len() >= 4
                &&& p@.values[0] is Text
                &&& p@.values[1] is Text
                &&& p@.values[2] is Text
                &&& p@.values[3] is Text
                &&& l.data.id@ == text_of(p@.values[0])
                &&& l.data.name@ == text_of(p@.values[1])
                &&& l.data.weblink@ == text_of(p@.values[2])
                &&& l.data.rules@ == text_of(p@.values[3])
                &&& l.data.links@.len() == p@.links.len()
                &&& forall|i: int|
                    0 <= i < p@.links.len() ==> (#[trigger] l.data.links@[i]).rel@
                        == p@.links[i].0 && l.data.links@[i].uri@ == p@.links[i].1
            },
            r is None ==> (p@.values.len() < 4 || !(p@.values[0] is Text) || !(p@.values[1]
                is Text) || !(p@.values[2] is Text) || !(p@.values[3] is Text)),
    {
        if p.len() < 4 {
            return None;
        }
        let id = match p.value_at(0).text() {
            Some(s) => s.clone(),
            None => {
                return None;
            },
        };
        let name = match p.value_at(1).text() {
            Some(s) => s.clone(),
            None => {
                return None;
            },
        };
        let weblink = match p.value_at(2).text() {
            Some(s) => s.clone(),
            None => {
                return None;
            },
        };
        let rules = match p.value_at(3).text() {
            Some(s) => s.clone(),
            None => {
                return None;
            },
        };
        let ls = p.links();
        let n = ls.len();
        let mut links: Vec<Links> = Vec::new();
        let mut i: usize = 0;
        while i < n
            invariant
                i <= n,
                n == ls@.len(),
                crate::project::pair_views(ls@) == p@.links,
                links@.len() == i,
                forall|k: int|
                    0 <= k < i ==> (#[trigger] links@[k]).rel@ == p@.links[k].0
                        && links@[k].uri@ == p@.links[k].1,
            decreases n - i,
        {
            proof {
                assert(crate::project::pair_views(ls@)[i as int] == (
                    ls@[i as int].0@,
                    ls@[i as int].1@,
                ));
            }
            links.push(Links { rel: ls[i].0.clone(), uri: ls[i].1.clone() });
            i += 1;
        }
        Some(LevelData { data: Level { id, name, weblink, rules, links } })
    }
}

} // verus!
