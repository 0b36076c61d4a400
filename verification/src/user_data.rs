//! User lookups.
//!
//! A [`UserData`] describes one user request: the name (or id) to look up
//! and whether the personal-bests sub-resource is wanted instead of the
//! base record.  The descriptor builds the request URL; the caller fetches
//! it and classifies the response with
//! [`classify`](crate::fetch::classify) under
//! [`ResourceKind::User`](crate::schema::ResourceKind).

use vstd::prelude::*;
use vstd::string::*;

verus! {

/// The descriptor of one user lookup.
#[derive(Debug)]
pub struct UserData {
    /// The user name (or id) to look up.
    pub name: String,
    personal_bests: bool,
}

impl UserData {
    /// Whether the personal-bests sub-resource is requested instead of the
    /// base record.
    pub closed spec fn wants_personal_bests(&self) -> bool {
        self.personal_bests
    }

    /// The lookup name the descriptor carries.
    pub closed spec fn spec_name(&self) -> Seq<char> {
        self.name@
    }

    /// The URL the descriptor requests.
    pub open spec fn spec_url(&self) -> Seq<char> {
        if self.wants_personal_bests() {
            "https://www.speedrun.com/api/v1/users/"@ + self.spec_name() + "/personal_bests"@
        } else {
            "https://www.speedrun.com/api/v1/users/"@ + self.spec_name()
        }
    }

    /// A descriptor for the base record of `name`.
    pub fn new(name: &str) -> (r: UserData)
        ensures
            r.spec_name() == name@,
            !r.wants_personal_bests(),
    {
        UserData { name: String::from_str(name), personal_bests: false }
    }

    /// Switches the descriptor to the personal-bests sub-resource, whose
    /// projection is explicitly unimplemented: the response is fetched and
    /// discarded.
    pub fn personal_bests(self) -> (r: UserData)
        ensures
            r.spec_name() == self.spec_name(),
            r.wants_personal_bests(),
    {
        UserData { name: self.name, personal_bests: true }
    }

    /// The URL of a lookup by display name: the service answers such a
    /// query with a list of matching records, of which projection takes
    /// the first.
    pub open spec fn spec_lookup_url(&self) -> Seq<char> {
        "https://www.speedrun.com/api/v1/users?lookup="@ + self.spec_name()
    }

    /// Builds the URL of a lookup by display name.
    pub fn lookup_url(&self) -> (r: String)
        ensures
            r@ == self.spec_lookup_url(),
    {
        let mut u = String::from_str("https://www.speedrun.com/api/v1/users?lookup=");
        u.append(self.name.as_str());
        u
    }

    /// Whether the descriptor asks for the personal-bests sub-resource.
    pub fn is_personal_bests(&self) -> (r: bool)
        ensures
            r == self.wants_personal_bests(),
    {
        self.personal_bests
    }

    /// Builds the request URL.
    pub fn url(&self) -> (r: String)
        ensures
            r@ == self.spec_url(),
    {
        let mut u = String::from_str("https://www.speedrun.com/api/v1/users/");
        u.append(self.name.as_str());
        if self.personal_bests {
            u.append("/personal_bests");
        }
        u
    }
}

} // verus!
