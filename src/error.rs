use vstd::prelude::*;

verus! {

/// The three outcomes a failed service operation is reported as.
#[derive(PartialEq, Eq, Structural, Debug, Clone, Copy)]
pub enum UserError {
    BadRequest,
    NotFound,
    InternalServerError,
}

impl UserError {
    /// The HTTP status that reports the error.
    pub fn status_code(&self) -> (r: u16)
        ensures
            *self == UserError::BadRequest ==> r == 400,
            *self == UserError::NotFound ==> r == 404,
            *self == UserError::InternalServerError ==> r == 500,
    {
        match self {
            UserError::BadRequest => 400,
            UserError::NotFound => 404,
            UserError::InternalServerError => 500,
        }
    }

    /// The body of the error response.
    pub fn body(&self) -> (r: &'static str) {
        match self {
            UserError::BadRequest => "Bad Request",
            UserError::NotFound => "Resource Not Found",
            UserError::InternalServerError => "Internal Server Error",
        }
    }
}

} // verus!
