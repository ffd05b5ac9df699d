//! The errors of the REST API and the responses they become. Internal details
//! are never shown to clients.
use vstd::prelude::*;

verus! {

/// An error of the REST API.
#[derive(Debug)]
pub enum AppError {
    InvalidCredentials,
    UsernameConflict,
    UserNotFound,
    GroupNotFound,
    Forbidden,
    RateLimited,
    TokenExpired,
    TokenInvalid,
    ContactExists,
    Validation(String),
    InternalError,
}

/// The HTTP status of each error.
pub open spec fn error_status(e: AppError) -> u16 {
    match e {
        AppError::InvalidCredentials => 401,
        AppError::UsernameConflict => 409,
        AppError::UserNotFound => 404,
        AppError::GroupNotFound => 404,
        AppError::Forbidden => 403,
        AppError::RateLimited => 429,
        AppError::TokenExpired => 401,
        AppError::TokenInvalid => 401,
        AppError::ContactExists => 409,
        AppError::Validation(_) => 400,
        AppError::InternalError => 500,
    }
}

/// The machine-readable code of each error, as sent in the `error` field.
pub open spec fn error_code_text(e: AppError) -> Seq<char> {
    match e {
        AppError::InvalidCredentials => "INVALID_CREDENTIALS"@,
        AppError::UsernameConflict => "USERNAME_CONFLICT"@,
        AppError::UserNotFound => "USER_NOT_FOUND"@,
        AppError::GroupNotFound => "GROUP_NOT_FOUND"@,
        AppError::Forbidden => "FORBIDDEN"@,
        AppError::RateLimited => "RATE_LIMITED"@,
        AppError::TokenExpired => "TOKEN_EXPIRED"@,
        AppError::TokenInvalid => "TOKEN_INVALID"@,
        AppError::ContactExists => "CONTACT_EXISTS"@,
        AppError::Validation(_) => "VALIDATION_ERROR"@,
        AppError::InternalError => "INTERNAL_ERROR"@,
    }
}

/// The human-readable message of each error, as sent in the `message` field;
/// a validation error carries its own.
pub open spec fn error_message_text(e: AppError) -> Seq<char> {
    match e {
        AppError::InvalidCredentials => "Invalid username or password"@,
        AppError::UsernameConflict => "Username is already taken"@,
        AppError::UserNotFound => "User not found"@,
        AppError::GroupNotFound => "Group not found"@,
        AppError::Forbidden => "Insufficient permissions"@,
        AppError::RateLimited => "Too many requests"@,
        AppError::TokenExpired => "Token has expired"@,
        AppError::TokenInvalid => "Invalid token"@,
        AppError::ContactExists => "Contact already exists or request pending"@,
        AppError::Validation(m) => m@,
        AppError::InternalError => "An internal error occurred"@,
    }
}

/// The text each error displays as inside the server (for logs).
pub open spec fn error_display_text(e: AppError) -> Seq<char> {
    match e {
        AppError::InvalidCredentials => "Invalid credentials"@,
        AppError::UsernameConflict => "Username already taken"@,
        AppError::UserNotFound => "User not found"@,
        AppError::GroupNotFound => "Group not found"@,
        AppError::Forbidden => "Forbidden"@,
        AppError::RateLimited => "Rate limited"@,
        AppError::TokenExpired => "Token expired"@,
        AppError::TokenInvalid => "Token invalid"@,
        AppError::ContactExists => "Contact already exists"@,
        AppError::Validation(m) => "Validation failed: "@ + m@,
        AppError::InternalError => "Internal error"@,
    }
}

impl AppError {
    /// The HTTP status this error is answered with.
    pub fn status_code(&self) -> (s: u16)
        ensures
            s == error_status(*self),
    {
        match self {
            AppError::InvalidCredentials => 401,
            AppError::UsernameConflict => 409,
            AppError::UserNotFound => 404,
            AppError::GroupNotFound => 404,
            AppError::Forbidden => 403,
            AppError::RateLimited => 429,
            AppError::TokenExpired => 401,
            AppError::TokenInvalid => 401,
            AppError::ContactExists => 409,
            AppError::Validation(_) => 400,
            AppError::InternalError => 500,
        }
    }

    /// The code sent in the response's `error` field.
    pub fn error_code(&self) -> (c: &'static str)
        ensures
            c@ == error_code_text(*self),
    {
        match self {
            AppError::InvalidCredentials => "INVALID_CREDENTIALS",
            AppError::UsernameConflict => "USERNAME_CONFLICT",
            AppError::UserNotFound => "USER_NOT_FOUND",
            AppError::GroupNotFound => "GROUP_NOT_FOUND",
            AppError::Forbidden => "FORBIDDEN",
            AppError::RateLimited => "RATE_LIMITED",
            AppError::TokenExpired => "TOKEN_EXPIRED",
            AppError::TokenInvalid => "TOKEN_INVALID",
            AppError::ContactExists => "CONTACT_EXISTS",
            AppError::Validation(_) => "VALIDATION_ERROR",
            AppError::InternalError => "INTERNAL_ERROR",
        }
    }

    /// The message sent in the response's `message` field.
    pub fn client_message(&self) -> (m: String)
        ensures
            m@ == error_message_text(*self),
    {
        match self {
            AppError::InvalidCredentials => String::from_str("Invalid username or password"),
            AppError::UsernameConflict => String::from_str("Username is already taken"),
            AppError::UserNotFound => String::from_str("User not found"),
            AppError::GroupNotFound => String::from_str("Group not found"),
            AppError::Forbidden => String::from_str("Insufficient permissions"),
            AppError::RateLimited => String::from_str("Too many requests"),
            AppError::TokenExpired => String::from_str("Token has expired"),
            AppError::TokenInvalid => String::from_str("Invalid token"),
            AppError::ContactExists => String::from_str("Contact already exists or request pending"),
            AppError::Validation(m) => m.clone(),
            AppError::InternalError => String::from_str("An internal error occurred"),
        }
    }

    /// The text this error displays as inside the server.
    pub fn to_display_string(&self) -> (m: String)
        ensures
            m@ == error_display_text(*self),
    {
        match self {
            AppError::InvalidCredentials => String::from_str("Invalid credentials"),
            AppError::UsernameConflict => String::from_str("Username already taken"),
            AppError::UserNotFound => String::from_str("User not found"),
            AppError::GroupNotFound => String::from_str("Group not found"),
            AppError::Forbidden => String::from_str("Forbidden"),
            AppError::RateLimited => String::from_str("Rate limited"),
            AppError::TokenExpired => String::from_str("Token expired"),
            AppError::TokenInvalid => String::from_str("Token invalid"),
            AppError::ContactExists => String::from_str("Contact already exists"),
            AppError::Validation(m) => {
                let mut s = String::from_str("Validation failed: ");
                s.append(m.as_str());
                s
            },
            AppError::InternalError => String::from_str("Internal error"),
        }
    }
}

/// Every error is answered with a client-error or server-error status; only
/// the internal error is a server error, and it always carries the same fixed
/// message, so no internal detail reaches a client; credential and token
/// failures are all 401.
pub proof fn errors_never_expose_internals(e: AppError)
    ensures
        400 <= error_status(e) < 600,
        error_status(e) >= 500 <==> e is InternalError,
        e is InternalError ==> error_message_text(e) == "An internal error occurred"@,
        (e is InvalidCredentials || e is TokenExpired || e is TokenInvalid) <==> error_status(e) == 401,
{
}

} // verus!
