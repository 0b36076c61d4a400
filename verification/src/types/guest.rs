//! The typed view of a guest record.

use vstd::prelude::*;
use crate::project::{Projection, text_of};

verus! {

/// A guest's single link: a relation name and a URI.
#[derive(Debug)]
pub struct Links {
    pub rel: String,
    pub uri: String,
}

/// A guest: a runner without an account, with a name and one link.
#[derive(Debug)]
pub struct Guest {
    pub name: String,
    pub links: Links,
}

/// A guest record as fetched: the record under its `data` wrapper.
#[derive(Debug)]
pub struct GuestData {
    pub data: Guest,
}

impl GuestData {
    /// Builds the typed view of a guest projection; `None` when the
    /// projection is not shaped like one.
    pub fn from_projection(p: &Projection) -> (r: Option<GuestData>)
        ensures
            r matches Some(g) ==> {
                &&& p@.values.len() >= 1
                &&& p@.values[0] is Text
                &&& p@.links.len() >= 1
                &&& g.data.name@ == text_of(p@.values[0])
                &&& g.data.links.rel@ == p@.links[0].0
                &&& g.data.links.uri@ == p@.links[0].1
            },
            r is None ==> (p@.values.len() < 1 || !(p@.values[0] is Text) || p@.links.len() < 1),
    {
        if p.len() < 1 {
            return None;
        }
        let name = match p.value_at(0).text() {
            Some(s) => s.clone(),
            None => {
                return None;
            },
        };
        let ls = p.links();
        if ls.len() < 1 {
            return None;
        }
        proof {
            assert(crate::project::pair_views(ls@)[0] == (ls@[0].0@, ls@[0].1@));
        }
        let links = Links { rel: ls[0].0.clone(), uri: ls[0].1.clone() };
        Some(GuestData { data: Guest { name, links } })
    }
}

} // verus!
