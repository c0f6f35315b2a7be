use vstd::prelude::*;

verus! {

/// Application-level failure taxonomy. Each variant carries a
/// human-readable message; the variant alone decides the HTTP status
/// and the machine-readable code of the boundary response.
#[derive(Debug, Clone)]
pub enum AppError {
    BadRequest(String),
    ProcessingError(String),
    InternalError(String),
    NotFound(String),
}

/// Error response record sent to clients on any failure.
#[derive(Debug, Clone)]
pub struct ApiError {
    pub success: bool,
    pub error: String,
    pub code: String,
    pub timestamp: String,
}

impl AppError {
    /// HTTP status that the variant maps to.
    pub open spec fn spec_status(self) -> u16 {
        match self {
            AppError::BadRequest(_) => 400,
            AppError::ProcessingError(_) => 422,
            AppError::InternalError(_) => 500,
            AppError::NotFound(_) => 404,
        }
    }

    /// Stable machine-readable code that the variant maps to.
    pub open spec fn spec_code(self) -> Seq<char> {
        match self {
            AppError::BadRequest(_) => "BAD_REQUEST"@,
            AppError::ProcessingError(_) => "PROCESSING_ERROR"@,
            AppError::InternalError(_) => "INTERNAL_ERROR"@,
            AppError::NotFound(_) => "NOT_FOUND"@,
        }
    }

    /// The human-readable message carried by the variant.
    pub open spec fn spec_message(self) -> Seq<char> {
        match self {
            AppError::BadRequest(m) => m@,
            AppError::ProcessingError(m) => m@,
            AppError::InternalError(m) => m@,
            AppError::NotFound(m) => m@,
        }
    }

    pub fn status_code(&self) -> (r: u16)
        ensures
            r == self.spec_status(),
    {
        match self {
            AppError::BadRequest(_) => 400,
            AppError::ProcessingError(_) => 422,
            AppError::InternalError(_) => 500,
            AppError::NotFound(_) => 404,
        }
    }

    pub fn code(&self) -> (r: &'static str)
        ensures
            r@ == self.spec_code(),
    {
        match self {
            AppError::BadRequest(_) => "BAD_REQUEST",
            AppError::ProcessingError(_) => "PROCESSING_ERROR",
            AppError::InternalError(_) => "INTERNAL_ERROR",
            AppError::NotFound(_) => "NOT_FOUND",
        }
    }

    /// Splits the error into the status, message and code of the
    /// boundary response, exhaustively over the four variants.
    pub fn into_parts(self) -> (r: (u16, String, String))
        ensures
            r.0 == self.spec_status(),
            r.1@ == self.spec_message(),
            r.2@ == self.spec_code(),
    {
        match self {
            AppError::BadRequest(m) => (400, m, "BAD_REQUEST".to_owned()),
            AppError::ProcessingError(m) => (422, m, "PROCESSING_ERROR".to_owned()),
            AppError::InternalError(m) => (500, m, "INTERNAL_ERROR".to_owned()),
            AppError::NotFound(m) => (404, m, "NOT_FOUND".to_owned()),
        }
    }

    /// Builds the uniform error record for the response body; the
    /// timestamp is supplied by the caller at the boundary.
    pub fn to_api_error(self, timestamp: String) -> (r: ApiError)
        ensures
            r.success == false,
            r.error@ == self.spec_message(),
            r.code@ == self.spec_code(),
            r.timestamp@ == timestamp@,
    {
        let (_, message, code) = self.into_parts();
        ApiError { success: false, error: message, code, timestamp }
    }
}

} // verus!
