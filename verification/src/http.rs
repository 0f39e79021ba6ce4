//! HTTP status outcomes that the service's decisions produce.
use vstd::prelude::*;

verus! {

/// The HTTP statuses that the API answers with.
#[derive(Clone, Copy, Debug, PartialEq, Eq, Structural)]
pub enum HttpStatus {
    Success,
    Created,
    NoContent,
    BadRequest,
    Unauthorized,
    Forbidden,
    NotFound,
    Conflict,
    TooManyRequests,
    InternalServerError,
    NotImplemented,
    BadGateway,
    ServiceUnavailable,
}

impl HttpStatus {
    pub open spec fn spec_code(self) -> u16 {
        match self {
            HttpStatus::Success => 200,
            HttpStatus::Created => 201,
            HttpStatus::NoContent => 204,
            HttpStatus::BadRequest => 400,
            HttpStatus::Unauthorized => 401,
            HttpStatus::Forbidden => 403,
            HttpStatus::NotFound => 404,
            HttpStatus::Conflict => 409,
            HttpStatus::TooManyRequests => 429,
            HttpStatus::InternalServerError => 500,
            HttpStatus::NotImplemented => 501,
            HttpStatus::BadGateway => 502,
            HttpStatus::ServiceUnavailable => 503,
        }
    }

    /// The numeric status code.
    pub fn code(&self) -> (r: u16)
        ensures
            r == self.spec_code(),
    {
        match self {
            HttpStatus::Success => 200,
            HttpStatus::Created => 201,
            HttpStatus::NoContent => 204,
            HttpStatus::BadRequest => 400,
            HttpStatus::Unauthorized => 401,
            HttpStatus::Forbidden => 403,
            HttpStatus::NotFound => 404,
            HttpStatus::Conflict => 409,
            HttpStatus::TooManyRequests => 429,
            HttpStatus::InternalServerError => 500,
            HttpStatus::NotImplemented => 501,
            HttpStatus::BadGateway => 502,
            HttpStatus::ServiceUnavailable => 503,
        }
    }
}

/// Status of a soft delete: `204` when a row was affected, `404` otherwise.
pub fn deletion_status(rows_affected: u64) -> (r: HttpStatus)
    ensures
        r == (if rows_affected > 0 { HttpStatus::NoContent } else { HttpStatus::NotFound }),
{
    if rows_affected > 0 {
        HttpStatus::NoContent
    } else {
        HttpStatus::NotFound
    }
}

/// Status of an update addressed by id: `404` when no row was affected, `200` otherwise.
pub fn update_status(rows_affected: u64) -> (r: HttpStatus)
    ensures
        r == (if rows_affected == 0 { HttpStatus::NotFound } else { HttpStatus::Success }),
{
    if rows_affected == 0 {
        HttpStatus::NotFound
    } else {
        HttpStatus::Success
    }
}

/// How a failed repository call is answered: a missing row is `404`, anything else `500`.
pub fn repository_error_status(row_not_found: bool) -> (r: HttpStatus)
    ensures
        r == (if row_not_found { HttpStatus::NotFound } else { HttpStatus::InternalServerError }),
{
    if row_not_found {
        HttpStatus::NotFound
    } else {
        HttpStatus::InternalServerError
    }
}

/// Limit and offset of a paginated listing, with the listing's default limit.
pub fn page_window(limit: Option<i64>, offset: Option<i64>, default_limit: i64) -> (r: (i64, i64))
    ensures
        r.0 == (match limit { Some(l) => l, None => default_limit }),
        r.1 == (match offset { Some(o) => o, None => 0 }),
{
    let l = match limit {
        Some(l) => l,
        None => default_limit,
    };
    let o = match offset {
        Some(o) => o,
        None => 0,
    };
    (l, o)
}

} // verus!
