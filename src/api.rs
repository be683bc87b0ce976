//! What the REST surface decides on its own: how an identifier in a path is
//! read, and which status each outcome gets.

use vstd::prelude::*;
use crate::ids::{parsed_uuid, Id};
use crate::models::{NewOrganization, Organization};
use crate::upload::now_micros;

verus! {

/// Why a request did not succeed.
#[derive(Clone, Copy, PartialEq, Eq, Structural, Debug)]
pub enum ApiError {
    /// The identifier in the path is not a UUID; nothing was touched.
    MalformedId,
    /// The identifier is well formed but names no record.
    NotFound,
    /// The database or the file store failed.
    Unavailable,
    /// File content was stored but its record could not be saved.
    Inconsistent,
}

/// The HTTP status of an error.
pub open spec fn status_of(e: ApiError) -> u16 {
    match e {
        ApiError::MalformedId => 400,
        ApiError::NotFound => 404,
        ApiError::Unavailable => 500,
        ApiError::Inconsistent => 500,
    }
}

/// A status in the client-error class.
pub open spec fn is_client_error(status: u16) -> bool {
    400 <= status < 500
}

/// How the identifier `raw` in a path is read.
pub open spec fn identifier_outcome(raw: Seq<char>) -> Result<Id, ApiError> {
    match parsed_uuid(raw) {
        Some(b) => Ok(Id { bits: b }),
        None => Err(ApiError::MalformedId),
    }
}

impl ApiError {
    /// The HTTP status of this error.
    pub fn status(&self) -> (r: u16)
        ensures
            r == status_of(*self),
    {
        match self {
            ApiError::MalformedId => 400,
            ApiError::NotFound => 404,
            ApiError::Unavailable => 500,
            ApiError::Inconsistent => 500,
        }
    }
}

/// Reads the identifier in a path: `MalformedId` where it is not a UUID.
pub fn parse_identifier(raw: &str) -> (r: Result<Id, ApiError>)
    ensures
        r == identifier_outcome(raw@),
{
    match Id::parse(raw) {
        Some(id) => Ok(id),
        None => Err(ApiError::MalformedId),
    }
}

/// The HTTP status of the outcome of a request: 200 on success.
pub fn response_status<T>(outcome: &Result<T, ApiError>) -> (r: u16)
    ensures
        r == match outcome {
            Ok(_) => 200,
            Err(e) => status_of(*e),
        },
{
    match outcome {
        Ok(_) => 200,
        Err(e) => e.status(),
    }
}

/// A syntactically invalid identifier, in a read, an update or a delete, is
/// answered with a client error, never a server error.
pub proof fn law_malformed_identifier_is_client_error(raw: Seq<char>)
    requires
        parsed_uuid(raw) is None,
    ensures
        identifier_outcome(raw) == Err::<Id, ApiError>(ApiError::MalformedId),
        is_client_error(status_of(ApiError::MalformedId)),
{
}

impl Organization {
    /// The organization that a create request makes: a fresh identifier, the
    /// requested name, and the current time.
    pub fn create(request: NewOrganization) -> (r: Organization)
        ensures
            r.name@ == request.name@,
            (r.id.bits >> 76u128) & 0xfu128 == 4,
    {
        let id = Id::generate();
        let created_at = now_micros();
        Organization::from_request(request, id, created_at)
    }
}

} // verus!
