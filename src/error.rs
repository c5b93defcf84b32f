use vstd::prelude::*;
use vstd::string::StrSliceExecFns;

use crate::text::{decimal_text, usize_text};

verus! {

/// The wire body of every failure: `{"status": "fail", "message": ...}`.
pub struct ErrorResponse {
    pub status: String,
    pub message: String,
}

/// The closed set of domain error causes.
#[derive(PartialEq, Eq, Structural, Debug, Clone, Copy)]
pub enum ErrorMesaage {
    EmptyPassword,
    ExceededMaxPasswordLength(usize),
    InvalidHashFormat,
    HashError,
    InvalidToken,
    ServerError,
    WrongCredentials,
    EmailExists,
    UserNolongerExists,
    TokenNotProvided,
    PermissionDenied,
    UserNotAuthenticated,
}

/// The user-facing text of each cause.
pub open spec fn cause_text(e: ErrorMesaage) -> Seq<char> {
    match e {
        ErrorMesaage::EmptyPassword => "Password cannot be empty"@,
        ErrorMesaage::ExceededMaxPasswordLength(n) => "Password length exceeded. Max length is "@
            + decimal_text(n as nat),
        ErrorMesaage::InvalidHashFormat => "Invalid hash format"@,
        ErrorMesaage::HashError => "Error hashing password"@,
        ErrorMesaage::InvalidToken => "Invalid token"@,
        ErrorMesaage::ServerError => "Internal server error"@,
        ErrorMesaage::WrongCredentials => "Wrong credentials"@,
        ErrorMesaage::EmailExists => "Email already exists"@,
        ErrorMesaage::UserNolongerExists => "User no longer exists"@,
        ErrorMesaage::TokenNotProvided => "Token not provided"@,
        ErrorMesaage::PermissionDenied => "Permission denied"@,
        ErrorMesaage::UserNotAuthenticated => "User not authenticated"@,
    }
}

impl ErrorMesaage {
    /// Renders the cause as its user-facing message.
    pub fn to_str(&self) -> (r: String)
        ensures
            r@ == cause_text(*self),
    {
        match self {
            ErrorMesaage::EmptyPassword => String::from_str("Password cannot be empty"),
            ErrorMesaage::ExceededMaxPasswordLength(length) => {
                let head = String::from_str("Password length exceeded. Max length is ");
                let digits = usize_text(*length);
                head.concat(digits.as_str())
            },
            ErrorMesaage::HashError => String::from_str("Error hashing password"),
            ErrorMesaage::InvalidToken => String::from_str("Invalid token"),
            ErrorMesaage::ServerError => String::from_str("Internal server error"),
            ErrorMesaage::WrongCredentials => String::from_str("Wrong credentials"),
            ErrorMesaage::EmailExists => String::from_str("Email already exists"),
            ErrorMesaage::UserNolongerExists => String::from_str("User no longer exists"),
            ErrorMesaage::TokenNotProvided => String::from_str("Token not provided"),
            ErrorMesaage::PermissionDenied => String::from_str("Permission denied"),
            ErrorMesaage::UserNotAuthenticated => String::from_str("User not authenticated"),
            ErrorMesaage::InvalidHashFormat => String::from_str("Invalid hash format"),
        }
    }

    /// Same as `to_str`.
    pub fn to_string(&self) -> (r: String)
        ensures
            r@ == cause_text(*self),
    {
        self.to_str()
    }
}

/// HTTP status of a malformed request.
pub const BAD_REQUEST: u16 = 400;

/// HTTP status of a failed authentication or authorization.
pub const UNAUTHORIZED: u16 = 401;

/// HTTP status of a uniqueness conflict.
pub const CONFLICT: u16 = 409;

/// HTTP status of an internal failure.
pub const INTERNAL_SERVER_ERROR: u16 = 500;

/// Whether `s` is a three-digit HTTP status code.
pub open spec fn is_status_code(s: u16) -> bool {
    100 <= s <= 999
}

/// The status word that every error body carries.
pub open spec fn fail_word() -> Seq<char> {
    "fail"@
}

/// What a failure puts on the wire: its status, and the body's `status` and
/// `message` fields.
pub open spec fn wire_error(status: u16, message: Seq<char>) -> (u16, Seq<char>, Seq<char>) {
    (status, fail_word(), message)
}

/// An error envelope: a user-safe message and the HTTP status it is sent with.
pub struct HttpError {
    pub message: String,
    pub status: u16,
}

impl HttpError {
    /// Whether the status is a three-digit HTTP status code.
    pub open spec fn wf(&self) -> bool {
        is_status_code(self.status)
    }

    /// An envelope with an explicit status.
    pub fn new(message: String, status: u16) -> (r: HttpError)
        requires
            is_status_code(status),
        ensures
            r.wf(),
            r.message@ == message@,
            r.status == status,
    {
        HttpError { message, status }
    }

    /// An internal failure (500).
    pub fn serve_error(message: String) -> (r: HttpError)
        ensures
            r.wf(),
            r.message@ == message@,
            r.status == INTERNAL_SERVER_ERROR,
    {
        HttpError { message, status: INTERNAL_SERVER_ERROR }
    }

    /// A malformed request (400).
    pub fn bad_request(message: String) -> (r: HttpError)
        ensures
            r.wf(),
            r.message@ == message@,
            r.status == BAD_REQUEST,
    {
        HttpError { message, status: BAD_REQUEST }
    }

    /// A uniqueness conflict (409).
    pub fn unique_constraint_violation(message: String) -> (r: HttpError)
        ensures
            r.wf(),
            r.message@ == message@,
            r.status == CONFLICT,
    {
        HttpError { message, status: CONFLICT }
    }

    /// A failed authentication or authorization (401).
    pub fn unauthorized(message: String) -> (r: HttpError)
        ensures
            r.wf(),
            r.message@ == message@,
            r.status == UNAUTHORIZED,
    {
        HttpError { message, status: UNAUTHORIZED }
    }

    /// Consumes the envelope into the status and body sent to the client.
    pub fn into_parts(self) -> (r: (u16, ErrorResponse))
        ensures
            (r.0, r.1.status@, r.1.message@) == wire_error(self.status, self.message@),
    {
        let body = ErrorResponse { status: String::from_str("fail"), message: self.message };
        (self.status, body)
    }
}

/// Each named constructor, followed by the conversion, puts on the wire
/// exactly its status class, the word `fail` and the message it was given.
pub proof fn lemma_envelope_on_wire(message: Seq<char>)
    ensures
        wire_error(BAD_REQUEST, message) == (400u16, "fail"@, message),
        wire_error(UNAUTHORIZED, message) == (401u16, "fail"@, message),
        wire_error(CONFLICT, message) == (409u16, "fail"@, message),
        wire_error(INTERNAL_SERVER_ERROR, message) == (500u16, "fail"@, message),
{
}

} // verus!
