use vstd::prelude::*;

verus! {

/// The failures an API request can end in, each with its message.
pub enum AppError {
    ValidationError(String),
    AuthError(String),
    Forbidden(String),
    NotFound(String),
    /// A database failure, with its description; never shown to clients.
    DatabaseError(String),
    ExternalServiceError(String),
    InternalServerError(String),
}

/// The message shown to clients in place of a database failure.
pub const DATABASE_ERROR_MESSAGE: &'static str = "A database error occurred";

/// The HTTP status of each kind of failure.
pub open spec fn status_of(e: AppError) -> u16 {
    match e {
        AppError::ValidationError(_) => 400,
        AppError::AuthError(_) => 401,
        AppError::Forbidden(_) => 403,
        AppError::NotFound(_) => 404,
        _ => 500,
    }
}

/// The machine-readable code of each kind of failure.
pub open spec fn code_of(e: AppError) -> Seq<char> {
    match e {
        AppError::ValidationError(_) => "VALIDATION_ERROR"@,
        AppError::AuthError(_) => "AUTH_ERROR"@,
        AppError::Forbidden(_) => "FORBIDDEN"@,
        AppError::NotFound(_) => "NOT_FOUND"@,
        AppError::DatabaseError(_) => "DATABASE_ERROR"@,
        AppError::ExternalServiceError(_) => "EXTERNAL_SERVICE_ERROR"@,
        AppError::InternalServerError(_) => "INTERNAL_SERVER_ERROR"@,
    }
}

/// What a client is told: the message, except for database failures.
pub open spec fn public_message_of(e: AppError) -> Seq<char> {
    match e {
        AppError::ValidationError(m) => m@,
        AppError::AuthError(m) => m@,
        AppError::Forbidden(m) => m@,
        AppError::NotFound(m) => m@,
        AppError::DatabaseError(_) => DATABASE_ERROR_MESSAGE@,
        AppError::ExternalServiceError(m) => m@,
        AppError::InternalServerError(m) => m@,
    }
}

impl AppError {
    /// The HTTP status code answered for this failure.
    pub fn status_code(&self) -> (r: u16)
        ensures
            r == status_of(*self),
    {
        match self {
            AppError::ValidationError(_) => 400,
            AppError::AuthError(_) => 401,
            AppError::Forbidden(_) => 403,
            AppError::NotFound(_) => 404,
            AppError::DatabaseError(_) => 500,
            AppError::ExternalServiceError(_) => 500,
            AppError::InternalServerError(_) => 500,
        }
    }

    /// The code reported with this failure.
    pub fn code(&self) -> (r: &'static str)
        ensures
            r@ == code_of(*self),
    {
        match self {
            AppError::ValidationError(_) => "VALIDATION_ERROR",
            AppError::AuthError(_) => "AUTH_ERROR",
            AppError::Forbidden(_) => "FORBIDDEN",
            AppError::NotFound(_) => "NOT_FOUND",
            AppError::DatabaseError(_) => "DATABASE_ERROR",
            AppError::ExternalServiceError(_) => "EXTERNAL_SERVICE_ERROR",
            AppError::InternalServerError(_) => "INTERNAL_SERVER_ERROR",
        }
    }

    /// The message a client is shown for this failure.
    pub fn public_message(&self) -> (r: String)
        ensures
            r@ == public_message_of(*self),
    {
        match self {
            AppError::ValidationError(m) => m.clone(),
            AppError::AuthError(m) => m.clone(),
            AppError::Forbidden(m) => m.clone(),
            AppError::NotFound(m) => m.clone(),
            AppError::DatabaseError(_) => String::from_str(DATABASE_ERROR_MESSAGE),
            AppError::ExternalServiceError(m) => m.clone(),
            AppError::InternalServerError(m) => m.clone(),
        }
    }
}

} // verus!
