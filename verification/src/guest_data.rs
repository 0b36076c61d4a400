//! Guest lookups.
//!
//! Guests are runners without an account: a guest record holds only a name
//! and one link.  [`guest_url`] builds the request URL for a name, and
//! [`guest_data`] flattens the fetched body into its three data points:
//! name, link relation, link URI.

use vstd::prelude::*;
use vstd::string::*;
use vstd::pervasive::unreached;
use crate::json::{decode, json_of};
use crate::project::{
    ProjectError, ProjectionModel, data_record, lemma_positional_coverage, lemma_single_link,
    lemma_text_value, pair_views, project, spec_project_kind, text_of,
};
use crate::schema::ResourceKind;

verus! {

/// The URL a guest lookup requests.
pub open spec fn spec_guest_url(name: Seq<char>) -> Seq<char> {
    "https://www.speedrun.com/api/v1/guests/"@ + name
}

/// Builds the request URL of a guest lookup.
pub fn guest_url(name: &str) -> (r: String)
    ensures
        r@ == spec_guest_url(name@),
{
    let mut u = String::from_str("https://www.speedrun.com/api/v1/guests/");
    u.append(name);
    u
}

/// What projecting a guest body yields.
pub open spec fn spec_guest_result(body: Seq<char>) -> Result<ProjectionModel, ProjectError> {
    match json_of(body) {
        None => Err(ProjectError::BadJson),
        Some(j) => spec_project_kind(ResourceKind::Guest, j),
    }
}

/// The flat form of a guest projection: name, link relation, link URI.
pub open spec fn guest_flat(m: ProjectionModel) -> Seq<Seq<char>> {
    seq![text_of(m.values[0]), m.links[0].0, m.links[0].1]
}

/// Flattens a fetched guest body into its data points: the guest's name,
/// then the relation and URI of its single link.
pub fn guest_data(body: &str) -> (r: Result<Vec<String>, ProjectError>)
    ensures
        r matches Ok(v) ==> (spec_guest_result(body@) matches Ok(m) && v.deep_view() == guest_flat(
            m,
        )),
        r matches Err(e) ==> spec_guest_result(body@) == Err::<ProjectionModel, ProjectError>(e),
{
    let j = match decode(body) {
        Some(j) => j,
        None => {
            return Err(ProjectError::BadJson);
        },
    };
    let p = match project(ResourceKind::Guest, &j) {
        Ok(p) => p,
        Err(e) => {
            return Err(e);
        },
    };
    proof {
        lemma_positional_coverage(ResourceKind::Guest, j);
        lemma_text_value(ResourceKind::Guest, j, 0);
        lemma_single_link(data_record(j)->Ok_0);
    }
    let mut out: Vec<String> = Vec::new();
    let name = match p.value_at(0).text() {
        Some(s) => s,
        None => unreached(),
    };
    out.push(name.clone());
    let ls = p.links();
    proof {
        assert(pair_views(ls@).len() == 1);
    }
    out.push(ls[0].0.clone());
    out.push(ls[0].1.clone());
    proof {
        assert(out.deep_view() =~= guest_flat(p@));
    }
    Ok(out)
}

} // verus!
