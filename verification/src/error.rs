//! Subsonic API errors: the numeric codes of the OpenSubsonic specification
//! and the error value that handlers return.

use vstd::prelude::*;

verus! {

/// The Subsonic API version this server speaks.
pub const API_VERSION: &'static str = "1.16.1";

/// The server type reported in every response envelope.
pub const SERVER_TYPE: &'static str = "subsonic-nexus";

/// Subsonic API error codes as defined by the OpenSubsonic spec.
#[derive(Debug, Clone, Copy, PartialEq, Eq, Structural)]
pub enum ErrorCode {
    Generic,
    MissingParameter,
    ClientMustUpgrade,
    ServerMustUpgrade,
    WrongCredentials,
    TokenAuthNotSupported,
    AuthMechanismNotSupported,
    ConflictingAuthentication,
    InvalidApiKey,
    NotAuthorized,
    TrialExpired,
    NotFound,
}

/// The number that the wire format carries for each code.
pub open spec fn error_code_value(c: ErrorCode) -> i32 {
    match c {
        ErrorCode::Generic => 0,
        ErrorCode::MissingParameter => 10,
        ErrorCode::ClientMustUpgrade => 20,
        ErrorCode::ServerMustUpgrade => 30,
        ErrorCode::WrongCredentials => 40,
        ErrorCode::TokenAuthNotSupported => 41,
        ErrorCode::AuthMechanismNotSupported => 42,
        ErrorCode::ConflictingAuthentication => 43,
        ErrorCode::InvalidApiKey => 44,
        ErrorCode::NotAuthorized => 50,
        ErrorCode::TrialExpired => 60,
        ErrorCode::NotFound => 70,
    }
}

impl ErrorCode {
    /// The numeric value of the code.
    pub fn code(self) -> (r: i32)
        ensures
            r == error_code_value(self),
    {
        match self {
            ErrorCode::Generic => 0,
            ErrorCode::MissingParameter => 10,
            ErrorCode::ClientMustUpgrade => 20,
            ErrorCode::ServerMustUpgrade => 30,
            ErrorCode::WrongCredentials => 40,
            ErrorCode::TokenAuthNotSupported => 41,
            ErrorCode::AuthMechanismNotSupported => 42,
            ErrorCode::ConflictingAuthentication => 43,
            ErrorCode::InvalidApiKey => 44,
            ErrorCode::NotAuthorized => 50,
            ErrorCode::TrialExpired => 60,
            ErrorCode::NotFound => 70,
        }
    }
}

/// Distinct codes carry distinct numbers, so a client can always tell them apart.
pub proof fn law_error_codes_distinct(a: ErrorCode, b: ErrorCode)
    ensures
        error_code_value(a) == error_code_value(b) <==> a == b,
{
}

/// The numbers are those of the OpenSubsonic specification: 0 generic, 10
/// missing parameter, 20 and 30 for versions, 40 wrong username or password,
/// 41 to 44 for the unsupported or conflicting kinds of authentication and
/// the invalid API key, 50 not authorized, 60 trial expired, 70 not found.
/// The codes of failed authentication are exactly those from 40 to 49.
pub proof fn law_error_code_numbers(c: ErrorCode)
    ensures
        error_code_value(ErrorCode::Generic) == 0,
        error_code_value(ErrorCode::MissingParameter) == 10,
        error_code_value(ErrorCode::ClientMustUpgrade) == 20,
        error_code_value(ErrorCode::ServerMustUpgrade) == 30,
        error_code_value(ErrorCode::WrongCredentials) == 40,
        error_code_value(ErrorCode::TokenAuthNotSupported) == 41,
        error_code_value(ErrorCode::AuthMechanismNotSupported) == 42,
        error_code_value(ErrorCode::ConflictingAuthentication) == 43,
        error_code_value(ErrorCode::InvalidApiKey) == 44,
        error_code_value(ErrorCode::NotAuthorized) == 50,
        error_code_value(ErrorCode::TrialExpired) == 60,
        error_code_value(ErrorCode::NotFound) == 70,
        40 <= error_code_value(c) < 50 <==> (c == ErrorCode::WrongCredentials || c
            == ErrorCode::TokenAuthNotSupported || c == ErrorCode::AuthMechanismNotSupported || c
            == ErrorCode::ConflictingAuthentication || c == ErrorCode::InvalidApiKey),
{
}

/// The `error` object of a failed response.
#[derive(Debug)]
pub struct ApiError {
    pub code: i32,
    pub message: String,
}

/// A Subsonic API error response, ready to be returned from handlers.
pub struct SubsonicError {
    pub code: ErrorCode,
    pub message: String,
}

impl SubsonicError {
    pub fn new(code: ErrorCode, message: &str) -> (r: Self)
        ensures
            r.code == code,
            r.message@ == message@,
    {
        SubsonicError { code, message: String::from_str(message) }
    }

    pub fn not_found(message: &str) -> (r: Self)
        ensures
            r.code == ErrorCode::NotFound,
            r.message@ == message@,
    {
        Self::new(ErrorCode::NotFound, message)
    }

    pub fn not_authorized(message: &str) -> (r: Self)
        ensures
            r.code == ErrorCode::NotAuthorized,
            r.message@ == message@,
    {
        Self::new(ErrorCode::NotAuthorized, message)
    }

    pub fn generic(message: &str) -> (r: Self)
        ensures
            r.code == ErrorCode::Generic,
            r.message@ == message@,
    {
        Self::new(ErrorCode::Generic, message)
    }

    /// The `error` object that the failed response carries.
    pub fn api_error(&self) -> (r: ApiError)
        ensures
            r.code == error_code_value(self.code),
            r.message@ == self.message@,
    {
        ApiError { code: self.code.code(), message: self.message.clone() }
    }
}

} // verus!
