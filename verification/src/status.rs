use vstd::prelude::*;

verus! {

/// The HTTP statuses that the archive's handlers answer with.
#[derive(Debug, Clone, Copy, PartialEq, Eq, Structural)]
pub enum ApiStatus {
    Success,
    Created,
    Accepted,
    NoContent,
    PartialContent,
    BadRequest,
    Unauthorized,
    Forbidden,
    NotFound,
    Conflict,
    PayloadTooLarge,
    RangeNotSatisfiable,
    UnprocessableEntity,
    InternalServerError,
}

/// The numeric HTTP code of a status.
pub open spec fn status_code(s: ApiStatus) -> u16 {
    match s {
        ApiStatus::Success => 200,
        ApiStatus::Created => 201,
        ApiStatus::Accepted => 202,
        ApiStatus::NoContent => 204,
        ApiStatus::PartialContent => 206,
        ApiStatus::BadRequest => 400,
        ApiStatus::Unauthorized => 401,
        ApiStatus::Forbidden => 403,
        ApiStatus::NotFound => 404,
        ApiStatus::Conflict => 409,
        ApiStatus::PayloadTooLarge => 413,
        ApiStatus::RangeNotSatisfiable => 416,
        ApiStatus::UnprocessableEntity => 422,
        ApiStatus::InternalServerError => 500,
    }
}

impl ApiStatus {
    /// The numeric HTTP code of this status.
    pub fn code(&self) -> (c: u16)
        ensures
            c == status_code(*self),
    {
        match self {
            ApiStatus::Success => 200,
            ApiStatus::Created => 201,
            ApiStatus::Accepted => 202,
            ApiStatus::NoContent => 204,
            ApiStatus::PartialContent => 206,
            ApiStatus::BadRequest => 400,
            ApiStatus::Unauthorized => 401,
            ApiStatus::Forbidden => 403,
            ApiStatus::NotFound => 404,
            ApiStatus::Conflict => 409,
            ApiStatus::PayloadTooLarge => 413,
            ApiStatus::RangeNotSatisfiable => 416,
            ApiStatus::UnprocessableEntity => 422,
            ApiStatus::InternalServerError => 500,
        }
    }
}

} // verus!
