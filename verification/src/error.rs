//! Why a request is turned away.

use vstd::prelude::*;

verus! {

/// The ways in which a request fails before or during authorization. The four are
/// kept apart: a store failure is never reported as a missing permission or a
/// missing entity.
#[derive(Clone, Copy, Debug, PartialEq, Eq, Hash, Structural)]
pub enum Rejection {
    /// No valid credential: no session cookie, or an unknown or disabled session.
    /// Only resolving the caller ends this way, never an authorization.
    Unauthorized,
    /// The caller is known but lacks the permission that the operation asks for.
    Forbidden,
    /// The entity that the operation is about does not exist.
    NotFound,
    /// The store failed.
    InternalError,
}

/// The HTTP status that stands for `r`.
pub open spec fn status_of(r: Rejection) -> u16 {
    match r {
        Rejection::Unauthorized => 401,
        Rejection::Forbidden => 403,
        Rejection::NotFound => 404,
        Rejection::InternalError => 500,
    }
}

impl Rejection {
    /// The HTTP status with which the request is answered.
    pub fn status_code(&self) -> (code: u16)
        ensures
            code == status_of(*self),
    {
        match self {
            Rejection::Unauthorized => 401,
            Rejection::Forbidden => 403,
            Rejection::NotFound => 404,
            Rejection::InternalError => 500,
        }
    }
}

/// What the store answered when asked for one entity.
#[derive(Clone, Debug)]
pub enum Fetched<T> {
    /// The store failed.
    StoreError,
    /// The store holds no such entity.
    Missing,
    /// The store holds this entity.
    Found(T),
}

/// What the store answered when asked for something that it always has an answer
/// to, such as a page of rows or a count.
#[derive(Clone, Debug)]
pub enum StoreAnswer<T> {
    /// The store failed.
    StoreError,
    /// The store answered with this.
    Answered(T),
}

/// The entity that the store answered with, or the rejection that its answer leads
/// to: a failure of the store is an internal error, never a missing entity.
pub fn entity_outcome<T>(fetched: Fetched<T>) -> (r: Result<T, Rejection>)
    ensures
        r == match fetched {
            Fetched::StoreError => Err::<T, Rejection>(Rejection::InternalError),
            Fetched::Missing => Err::<T, Rejection>(Rejection::NotFound),
            Fetched::Found(entity) => Ok::<T, Rejection>(entity),
        },
{
    match fetched {
        Fetched::StoreError => Err(Rejection::InternalError),
        Fetched::Missing => Err(Rejection::NotFound),
        Fetched::Found(entity) => Ok(entity),
    }
}

} // verus!
