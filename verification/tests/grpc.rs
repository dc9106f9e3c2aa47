use session_service::facade::{summarize, TokenStatus};
use session_service::grpc::{SessionService, VerifyResponse};
use session_service::token::{create, create_at, VerifyError};

const EMAIL: &str = "john@doe.com";
const SECRET: &str = "secret";

fn make_test_service() -> SessionService {
    SessionService { secret: SECRET.to_string(), granted_emails: vec![EMAIL.to_string()] }
}

fn verify(token: &str, status: TokenStatus) {
    let service = make_test_service();

    let resp = service.verify(token);
    assert_eq!(resp.status, status.code());
}

#[test]
fn invalid() {
    verify("wrong_token", TokenStatus::Invalid);
}

#[test]
fn not_grunted() {
    let token = create("john@example.com".into(), SECRET.as_bytes(), 60).unwrap();
    verify(&token, TokenStatus::NotGrunted);
}

#[test]
fn expired() {
    let token = create(EMAIL.into(), SECRET.as_bytes(), -60).unwrap();
    verify(&token, TokenStatus::Expired);
}

#[test]
fn valid() {
    let token = create(EMAIL.into(), SECRET.as_bytes(), 60).unwrap();
    verify(&token, TokenStatus::Valid);
}

#[test]
fn scenario_of_one_granted_email() {
    let service = make_test_service();
    let token = create(EMAIL, SECRET.as_bytes(), 60).unwrap();
    assert_eq!(service.verify(&token), VerifyResponse { status: 0, email: EMAIL.to_string() });
    let token = create(EMAIL, SECRET.as_bytes(), -60).unwrap();
    assert_eq!(service.verify(&token), VerifyResponse { status: 2, email: String::new() });
}

#[test]
fn status_codes_are_fixed() {
    assert_eq!(TokenStatus::Valid.code(), 0);
    assert_eq!(TokenStatus::Invalid.code(), 1);
    assert_eq!(TokenStatus::Expired.code(), 2);
    assert_eq!(TokenStatus::NotGrunted.code(), 3);
}

#[test]
fn email_goes_out_only_with_a_valid_token() {
    assert_eq!(summarize(Ok(EMAIL.to_string())), (TokenStatus::Valid, EMAIL.to_string()));
    assert_eq!(summarize(Err(VerifyError::Parse)), (TokenStatus::Invalid, String::new()));
    assert_eq!(summarize(Err(VerifyError::Expired)), (TokenStatus::Expired, String::new()));
    assert_eq!(summarize(Err(VerifyError::NotGrunted)), (TokenStatus::NotGrunted, String::new()));
}

#[test]
fn service_answers_as_of_the_second_given() {
    let service = make_test_service();
    let token = create_at(EMAIL, SECRET.as_bytes(), 60, 1_000).unwrap();
    assert_eq!(service.verify_at(&token, 1_059).status, 0);
    assert_eq!(service.verify_at(&token, 1_059).email, EMAIL);
    assert_eq!(service.verify_at(&token, 1_060).status, 2);
    let stranger = create_at("john@example.com", SECRET.as_bytes(), 60, 1_000).unwrap();
    assert_eq!(service.verify_at(&stranger, 1_059).status, 3);
    assert_eq!(service.verify_at(&stranger, 2_000).status, 3);
    let forged = create_at(EMAIL, b"guess", 60, 1_000).unwrap();
    assert_eq!(service.verify_at(&forged, 1_059).status, 1);
}
