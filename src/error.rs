//! Errors of the board operations and the status they map to.
use vstd::prelude::*;

use crate::board::RelationKind;

verus! {

/// Board-level refusals.
#[derive(Clone, Debug)]
pub enum BoardErrorCode {
    /// The actor is not a member of the board with this identifier.
    NoMembership(String),
    /// A reply declared a relation with a concrete kind.
    WrongRelation(RelationKind),
}

pub open spec fn status_code_spec(e: BoardErrorCode) -> u16 {
    match e {
        BoardErrorCode::WrongRelation(_) => 400,
        BoardErrorCode::NoMembership(_) => 403,
    }
}

pub open spec fn error_code_spec(e: BoardErrorCode) -> Seq<char> {
    match e {
        BoardErrorCode::WrongRelation(_) => "BAD_REQUEST"@,
        BoardErrorCode::NoMembership(_) => "FORBIDDEN"@,
    }
}

impl BoardErrorCode {
    /// The HTTP status of this refusal: a client error for a wrong
    /// relation, forbidden for a missing membership.
    pub fn status_code(&self) -> (r: u16)
        ensures
            r == status_code_spec(*self),
    {
        match self {
            BoardErrorCode::WrongRelation(_) => 400,
            BoardErrorCode::NoMembership(_) => 403,
        }
    }

    /// The machine-readable code of this refusal.
    pub fn error_code(&self) -> (r: &'static str)
        ensures
            r@ == error_code_spec(*self),
    {
        match self {
            BoardErrorCode::WrongRelation(_) => "BAD_REQUEST",
            BoardErrorCode::NoMembership(_) => "FORBIDDEN",
        }
    }
}

/// Errors of the event service. A transport failure is opaque to the
/// caller: its detail is logged where the request was made.
#[derive(Clone, Debug)]
pub enum Error {
    Unknown,
    Board(BoardErrorCode),
}

} // verus!
