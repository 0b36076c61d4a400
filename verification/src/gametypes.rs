//! Flat game-type accessors.
//!
//! These functions take the body text of a fetched game-type response and
//! hand back plain values: the whole record flattened to a vector of
//! strings, or its name or id alone.  The flat order is the record's name,
//! its id, then every link relation, then every link URI.

use vstd::prelude::*;
use vstd::pervasive::unreached;
use crate::json::{decode, json_of};
use crate::project::{
    ProjectError, ProjectionModel, firsts, lemma_positional_coverage, lemma_text_value,
    pair_views, project, seconds, spec_project_kind, text_of,
};
use crate::schema::{ResourceKind, kind_fields};

verus! {

/// What projecting a game-type body yields.
pub open spec fn spec_gametype_result(body: Seq<char>) -> Result<ProjectionModel, ProjectError> {
    match json_of(body) {
        None => Err(ProjectError::BadJson),
        Some(j) => spec_project_kind(ResourceKind::GameType, j),
    }
}

/// The flat form of a game-type projection: name, id, every link relation,
/// every link URI.
pub open spec fn gametype_flat(m: ProjectionModel) -> Seq<Seq<char>> {
    seq![text_of(m.values[0]), text_of(m.values[1])] + firsts(m.links) + seconds(m.links)
}

/// Flattens a fetched game-type body into its data points: name, id, link
/// relations, link URIs.
pub fn gametype_data(body: &str) -> (r: Result<Vec<String>, ProjectError>)
    ensures
        r matches Ok(v) ==> (spec_gametype_result(body@) matches Ok(m) && v.deep_view()
            == gametype_flat(m)),
        r matches Err(e) ==> spec_gametype_result(body@) == Err::<ProjectionModel, ProjectError>(
            e,
        ),
{
    let j = match decode(body) {
        Some(j) => j,
        None => {
            return Err(ProjectError::BadJson);
        },
    };
    let p = match project(ResourceKind::GameType, &j) {
        Ok(p) => p,
        Err(e) => {
            return Err(e);
        },
    };
    proof {
        lemma_positional_coverage(ResourceKind::GameType, j);
        lemma_text_value(ResourceKind::GameType, j, 0);
        lemma_text_value(ResourceKind::GameType, j, 1);
    }
    let mut out: Vec<String> = Vec::new();
    let s0 = match p.value_at(0).text() {
        Some(s) => s,
        None => unreached(),
    };
    out.push(s0.clone());
    let s1 = match p.value_at(1).text() {
        Some(s) => s,
        None => unreached(),
    };
    out.push(s1.clone());
    proof {
        assert(out.deep_view() =~= seq![text_of(p@.values[0]), text_of(p@.values[1])]);
    }
    let ghost base = out.deep_view();
    let ls = p.links();
    let n = ls.len();
    let mut i: usize = 0;
    proof {
        assert(base + firsts(p@.links).take(0) =~= base);
    }
    while i < n
        invariant
            i <= n,
            n == ls@.len(),
            pair_views(ls@) == p@.links,
            out.deep_view() == base + firsts(p@.links).take(i as int),
        decreases n - i,
    {
        let ghost prev = out.deep_view();
        out.push(ls[i].0.clone());
        proof {
            assert(pair_views(ls@)[i as int] == (ls@[i as int].0@, ls@[i as int].1@));
            assert(out.deep_view() =~= prev.push(ls@[i as int].0@));
            assert(firsts(p@.links).take(i + 1) =~= firsts(p@.links).take(i as int).push(
                p@.links[i as int].0,
            ));
            assert(out.deep_view() =~= base + firsts(p@.links).take(i + 1));
        }
        i += 1;
    }
    proof {
        assert(firsts(p@.links).take(n as int) =~= firsts(p@.links));
    }
    let ghost base2 = out.deep_view();
    let mut k: usize = 0;
    proof {
        assert(base2 + seconds(p@.links).take(0) =~= base2);
    }
    while k < n
        invariant
            k <= n,
            n == ls@.len(),
            pair_views(ls@) == p@.links,
            out.deep_view() == base2 + seconds(p@.links).take(k as int),
        decreases n - k,
    {
        let ghost prev = out.deep_view();
        out.push(ls[k].1.clone());
        proof {
            assert(pair_views(ls@)[k as int] == (ls@[k as int].0@, ls@[k as int].1@));
            assert(out.deep_view() =~= prev.push(ls@[k as int].1@));
            assert(seconds(p@.links).take(k + 1) =~= seconds(p@.links).take(k as int).push(
                p@.links[k as int].1,
            ));
            assert(out.deep_view() =~= base2 + seconds(p@.links).take(k + 1));
        }
        k += 1;
    }
    proof {
        assert(seconds(p@.links).take(n as int) =~= seconds(p@.links));
        assert(out.deep_view() =~= gametype_flat(p@));
    }
    Ok(out)
}

/// The name of a fetched game type: the first data point of the record.
pub fn gametype_name(body: &str) -> (r: Result<String, ProjectError>)
    ensures
        r matches Ok(s) ==> (spec_gametype_result(body@) matches Ok(m) && s@ == text_of(
            m.values[0],
        )),
        r matches Err(e) ==> spec_gametype_result(body@) == Err::<ProjectionModel, ProjectError>(
            e,
        ),
{
    let j = match decode(body) {
        Some(j) => j,
        None => {
            return Err(ProjectError::BadJson);
        },
    };
    let p = match project(ResourceKind::GameType, &j) {
        Ok(p) => p,
        Err(e) => {
            return Err(e);
        },
    };
    proof {
        lemma_positional_coverage(ResourceKind::GameType, j);
        lemma_text_value(ResourceKind::GameType, j, 0);
    }
    match p.value_at(0).text() {
        Some(s) => Ok(s.clone()),
        None => unreached(),
    }
}

/// The id of a fetched game type: the second data point of the record.
pub fn gametype_id(body: &str) -> (r: Result<String, ProjectError>)
    ensures
        r matches Ok(s) ==> (spec_gametype_result(body@) matches Ok(m) && s@ == text_of(
            m.values[1],
        )),
        r matches Err(e) ==> spec_gametype_result(body@) == Err::<ProjectionModel, ProjectError>(
            e,
        ),
{
    let j = match decode(body) {
        Some(j) => j,
        None => {
            return Err(ProjectError::BadJson);
        },
    };
    let p = match project(ResourceKind::GameType, &j) {
        Ok(p) => p,
        Err(e) => {
            return Err(e);
        },
    };
    proof {
        lemma_positional_coverage(ResourceKind::GameType, j);
        lemma_text_value(ResourceKind::GameType, j, 1);
    }
    match p.value_at(1).text() {
        Some(s) => Ok(s.clone()),
        None => unreached(),
    }
}

} // verus!
