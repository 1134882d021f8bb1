//! The errors of a submission, and the error that the service reports.
use vstd::prelude::*;
use crate::api_response::ApiResponse;

verus! {

/// Why a submission failed.
#[derive(Debug, Clone, Copy, PartialEq, Eq, Structural)]
pub enum SubmitError {
    /// The user already has an application.
    DuplicateSubmission,
    /// Every number of the category's band has been handed out.
    AllocationExhausted,
    /// The store could not be read or written.
    PersistenceFailure,
    /// The track is none of the known tracks.
    InvalidTrack,
}

/// An error as the service reports it: a kind and a message.
#[derive(Debug, Clone)]
pub enum AppError {
    BadRequest(String),
    Unauthorized(String),
    Forbidden(String),
    NotFound(String),
    InternalServerError(String),
}

impl AppError {
    pub open spec fn spec_code(&self) -> Seq<char> {
        match self {
            AppError::BadRequest(_) => "BAD_REQUEST"@,
            AppError::Unauthorized(_) => "UNAUTHORIZED"@,
            AppError::Forbidden(_) => "FORBIDDEN"@,
            AppError::NotFound(_) => "NOT_FOUND"@,
            AppError::InternalServerError(_) => "INTERNAL_SERVER_ERROR"@,
        }
    }

    pub open spec fn spec_message(&self) -> String {
        match self {
            AppError::BadRequest(message) => *message,
            AppError::Unauthorized(message) => *message,
            AppError::Forbidden(message) => *message,
            AppError::NotFound(message) => *message,
            AppError::InternalServerError(message) => *message,
        }
    }

    /// The HTTP status that stands for the kind of error.
    pub open spec fn spec_status(&self) -> u16 {
        match self {
            AppError::BadRequest(_) => 400,
            AppError::Unauthorized(_) => 401,
            AppError::Forbidden(_) => 403,
            AppError::NotFound(_) => 404,
            AppError::InternalServerError(_) => 500,
        }
    }

    #[verifier::when_used_as_spec(spec_status)]
    pub fn status(&self) -> (status: u16)
        ensures
            status == self.spec_status(),
    {
        match self {
            AppError::BadRequest(_) => 400,
            AppError::Unauthorized(_) => 401,
            AppError::Forbidden(_) => 403,
            AppError::NotFound(_) => 404,
            AppError::InternalServerError(_) => 500,
        }
    }

    pub fn code(&self) -> (code: &'static str)
        ensures
            code@ == self.spec_code(),
    {
        match self {
            AppError::BadRequest(_) => "BAD_REQUEST",
            AppError::Unauthorized(_) => "UNAUTHORIZED",
            AppError::Forbidden(_) => "FORBIDDEN",
            AppError::NotFound(_) => "NOT_FOUND",
            AppError::InternalServerError(_) => "INTERNAL_SERVER_ERROR",
        }
    }

    #[verifier::when_used_as_spec(spec_message)]
    pub fn message(&self) -> (message: String)
        ensures
            message == self.spec_message(),
    {
        match self {
            AppError::BadRequest(msg) => msg.clone(),
            AppError::Unauthorized(msg) => msg.clone(),
            AppError::Forbidden(msg) => msg.clone(),
            AppError::NotFound(msg) => msg.clone(),
            AppError::InternalServerError(msg) => msg.clone(),
        }
    }
}

impl AppError {
    /// The answer that reports the error: its code and its message, and
    /// no data.
    pub fn to_response(&self) -> (response: ApiResponse<()>)
        ensures
            response.code@ == self.spec_code(),
            response.message == self.spec_message(),
            response.data is None,
    {
        ApiResponse { code: self.code().to_owned(), message: self.message(), data: None }
    }
}

impl SubmitError {
    /// What the error says.
    pub open spec fn spec_message(&self) -> Seq<char> {
        match self {
            SubmitError::DuplicateSubmission => "form already submitted"@,
            SubmitError::AllocationExhausted => "no examination number left in the band"@,
            SubmitError::PersistenceFailure => "the form could not be stored"@,
            SubmitError::InvalidTrack => "unknown form type"@,
        }
    }

    pub fn message(&self) -> (message: String)
        ensures
            message@ == self.spec_message(),
    {
        match self {
            SubmitError::DuplicateSubmission => "form already submitted".to_owned(),
            SubmitError::AllocationExhausted => "no examination number left in the band".to_owned(),
            SubmitError::PersistenceFailure => "the form could not be stored".to_owned(),
            SubmitError::InvalidTrack => "unknown form type".to_owned(),
        }
    }

    /// The error as the service reports it: a duplicate submission is the
    /// user's to correct and so a bad request; every other failure is an
    /// internal error.
    pub fn to_app_error(&self) -> (error: AppError)
        ensures
            match self {
                SubmitError::DuplicateSubmission => error matches AppError::BadRequest(text)
                    && text@ == self.spec_message(),
                _ => error matches AppError::InternalServerError(text) && text@
                    == self.spec_message(),
            },
    {
        match self {
            SubmitError::DuplicateSubmission => AppError::BadRequest(self.message()),
            _ => AppError::InternalServerError(self.message()),
        }
    }
}

} // verus!
