use user_api::error::{ErrorMesaage, HttpError};

fn wire(e: HttpError) -> (u16, String, String) {
    let (status, body) = e.into_parts();
    (status, body.status, body.message)
}

#[test]
fn bad_request_envelope() {
    let w = wire(HttpError::bad_request("Name is required".to_string()));
    assert_eq!(w, (400, "fail".to_string(), "Name is required".to_string()));
}

#[test]
fn unauthorized_envelope() {
    let w = wire(HttpError::unauthorized("Invalid token".to_string()));
    assert_eq!(w, (401, "fail".to_string(), "Invalid token".to_string()));
}

#[test]
fn conflict_envelope() {
    let w = wire(HttpError::unique_constraint_violation("Email already exists".to_string()));
    assert_eq!(w, (409, "fail".to_string(), "Email already exists".to_string()));
}

#[test]
fn server_error_envelope() {
    let w = wire(HttpError::serve_error("Internal server error".to_string()));
    assert_eq!(w, (500, "fail".to_string(), "Internal server error".to_string()));
}

#[test]
fn explicit_status_envelope() {
    let e = HttpError::new("gone".to_string(), 404);
    assert_eq!(e.status, 404);
    assert_eq!(wire(e), (404, "fail".to_string(), "gone".to_string()));
}

#[test]
fn cause_texts() {
    let cases = vec![
        (ErrorMesaage::EmptyPassword, "Password cannot be empty"),
        (ErrorMesaage::InvalidHashFormat, "Invalid hash format"),
        (ErrorMesaage::HashError, "Error hashing password"),
        (ErrorMesaage::InvalidToken, "Invalid token"),
        (ErrorMesaage::ServerError, "Internal server error"),
        (ErrorMesaage::WrongCredentials, "Wrong credentials"),
        (ErrorMesaage::EmailExists, "Email already exists"),
        (ErrorMesaage::UserNolongerExists, "User no longer exists"),
        (ErrorMesaage::TokenNotProvided, "Token not provided"),
        (ErrorMesaage::PermissionDenied, "Permission denied"),
        (ErrorMesaage::UserNotAuthenticated, "User not authenticated"),
    ];
    for (e, text) in cases {
        assert_eq!(e.to_str(), text);
        assert_eq!(e.to_string(), text);
    }
}

#[test]
fn exceeded_length_interpolates_bound() {
    assert_eq!(
        ErrorMesaage::ExceededMaxPasswordLength(64).to_str(),
        "Password length exceeded. Max length is 64"
    );
    assert_eq!(
        ErrorMesaage::ExceededMaxPasswordLength(0).to_string(),
        "Password length exceeded. Max length is 0"
    );
}
