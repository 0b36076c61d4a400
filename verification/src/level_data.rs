//! Level lookups.
//!
//! A [`LevelData`] describes one level request by id, with one modifier:
//! the categories sub-resource, whose projection is explicitly
//! unimplemented.  Base records project under
//! [`ResourceKind::Level`](crate::schema::ResourceKind).

use vstd::prelude::*;
use vstd::string::*;

verus! {

/// The descriptor of one level lookup.
#[derive(Debug)]
pub struct LevelData {
    /// The level id to look up.
    pub name: String,
    categories: bool,
}

impl LevelData {
    /// Whether the categories sub-resource is requested instead of the
    /// base record.
    pub closed spec fn wants_categories(&self) -> bool {
        self.categories
    }

    /// The lookup id the descriptor carries.
    pub closed spec fn spec_name(&self) -> Seq<char> {
        self.name@
    }

    /// The URL the descriptor requests.
    pub open spec fn spec_url(&self) -> Seq<char> {
        if self.wants_categories() {
            "https://www.speedrun.com/api/v1/levels/"@ + self.spec_name() + "/categories"@
        } else {
            "https://www.speedrun.com/api/v1/levels/"@ + self.spec_name()
        }
    }

    /// A descriptor for the base record of the level.
    pub fn new(name: &str) -> (r: LevelData)
        ensures
            r.spec_name() == name@,
            !r.wants_categories(),
    {
        LevelData { name: String::from_str(name), categories: false }
    }

    /// Switches the descriptor to the categories sub-resource, whose
    /// projection is explicitly unimplemented: the response is fetched and
    /// discarded.
    pub fn categories(self) -> (r: LevelData)
        ensures
            r.spec_name() == self.spec_name(),
            r.wants_categories(),
    {
        LevelData { name: self.name, categories: true }
    }

    /// Whether the descriptor asks for the categories sub-resource.
    pub fn is_categories(&self) -> (r: bool)
        ensures
            r == self.wants_categories(),
    {
        self.categories
    }

    /// Builds the request URL.
    pub fn url(&self) -> (r: String)
        ensures
            r@ == self.spec_url(),
    {
        let mut u = String::from_str("https://www.speedrun.com/api/v1/levels/");
        u.append(self.name.as_str());
        if self.categories {
            u.append("/categories");
        }
        u
    }
}

} // verus!
