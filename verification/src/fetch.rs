//! Classification of fetched responses.
//!
//! The transport is the caller's: it performs one GET per lookup and hands
//! the plain outcome — status code and body text — to [`classify`], which
//! turns it into the typed [`FetchOutcome`] the rest of the library works
//! with.  A not-found status is reported as such; a body that does not
//! decode or project is a malformed response; an empty lookup result reads
//! as not found.

use vstd::prelude::*;
use crate::json::{decode, json_of};
use crate::project::{
    ProjectError, Projection, ProjectionModel, project, spec_project_kind,
};
use crate::schema::ResourceKind;

verus! {

/// The typed outcome of one fetch.
#[derive(Debug)]
pub enum FetchOutcome {
    /// The record was fetched and projected.
    Success(Projection),
    /// The resource is absent upstream (a 404, or an empty lookup result).
    NotFound,
    /// The body was not a record of the expected wire shape.
    MalformedResponse,
    /// The transport failed before a response arrived; the detail is the
    /// transport's own description.
    TransportError(String),
    /// A sub-resource variant was fetched; its projection is explicitly
    /// unimplemented, so the response is not interpreted.
    Unprojected,
}

/// The mathematical image of a [`FetchOutcome`].
pub ghost enum OutcomeModel {
    Success(ProjectionModel),
    NotFound,
    MalformedResponse,
    TransportError(Seq<char>),
    Unprojected,
}

impl View for FetchOutcome {
    type V = OutcomeModel;

    open spec fn view(&self) -> OutcomeModel {
        match self {
            FetchOutcome::Success(p) => OutcomeModel::Success(p@),
            FetchOutcome::NotFound => OutcomeModel::NotFound,
            FetchOutcome::MalformedResponse => OutcomeModel::MalformedResponse,
            FetchOutcome::TransportError(s) => OutcomeModel::TransportError(s@),
            FetchOutcome::Unprojected => OutcomeModel::Unprojected,
        }
    }
}

/// What classifying a response yields: not-found for a 404 status, a
/// malformed response for a body that does not decode or project, not-found
/// again for an empty lookup list, and otherwise the projection itself.
pub open spec fn spec_classify(kind: ResourceKind, status: u16, body: Seq<char>) -> OutcomeModel {
    if status == 404 {
        OutcomeModel::NotFound
    } else {
        match json_of(body) {
            None => OutcomeModel::MalformedResponse,
            Some(j) => match spec_project_kind(kind, j) {
                Ok(m) => OutcomeModel::Success(m),
                Err(e) => if e == ProjectError::EmptyData {
                    OutcomeModel::NotFound
                } else {
                    OutcomeModel::MalformedResponse
                },
            },
        }
    }
}

/// Classifies one fetched response: the status code and body text of a
/// completed request.  Transport failures never reach this function; the
/// caller reports them as [`FetchOutcome::TransportError`] directly.
pub fn classify(kind: ResourceKind, status: u16, body: &str) -> (r: FetchOutcome)
    ensures
        r@ == spec_classify(kind, status, body@),
{
    if status == 404 {
        return FetchOutcome::NotFound;
    }
    match decode(body) {
        None => FetchOutcome::MalformedResponse,
        Some(j) => match project(kind, &j) {
            Ok(p) => FetchOutcome::Success(p),
            Err(e) => {
                if matches!(e, ProjectError::EmptyData) {
                    FetchOutcome::NotFound
                } else {
                    FetchOutcome::MalformedResponse
                }
            },
        },
    }
}

} // verus!
