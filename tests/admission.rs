use atomic_server::commit::{admit_commit, client_commit_options, is_within_authority};
use atomic_server::error::{ErrorKind, ServerError};
use atomic_lib::{AtomicError, AtomicErrorType};

#[test]
fn own_subject_is_admitted_with_client_validations() {
    let opts = admit_commit(
        "https://localhost/res1",
        "https://localhost/agents/a1",
        Some("https://localhost"),
    )
    .unwrap();
    assert!(opts.validate_schema);
    assert!(opts.validate_signature);
    assert!(opts.validate_timestamp);
    assert!(opts.validate_rights);
    assert!(!opts.validate_previous_commit);
    assert!(opts.update_index);
    assert_eq!(opts.validate_for_agent, Some("https://localhost/agents/a1".to_string()));
}

#[test]
fn foreign_subject_is_not_owned() {
    let err = admit_commit(
        "https://other.example/res1",
        "https://localhost/agents/a1",
        Some("https://localhost"),
    )
    .unwrap_err();
    assert_eq!(err.kind, ErrorKind::SubjectNotOwned);
    let again = admit_commit(
        "https://other.example/res1",
        "https://other.example/agents/b",
        Some("https://localhost"),
    )
    .unwrap_err();
    assert_eq!(again.kind, ErrorKind::SubjectNotOwned);
    assert_eq!(err.message, again.message);
}

#[test]
fn store_without_url_owns_nothing() {
    let err = admit_commit("https://localhost/res1", "https://localhost/agents/a1", None).unwrap_err();
    assert_eq!(err.kind, ErrorKind::NoSelfUrl);
}

#[test]
fn client_options_name_the_signer() {
    let opts = client_commit_options("https://localhost/agents/x");
    assert_eq!(opts.validate_for_agent, Some("https://localhost/agents/x".to_string()));
}

fn atomic_error(error_type: AtomicErrorType, message: &str) -> AtomicError {
    AtomicError { message: message.to_string(), error_type, subject: None }
}

#[test]
fn store_errors_keep_their_class() {
    let e = ServerError::from_atomic(atomic_error(AtomicErrorType::NotFoundError, "gone"));
    assert_eq!(e.kind, ErrorKind::NotFound);
    assert_eq!(e.message, "gone");
    let e = ServerError::from_atomic(atomic_error(AtomicErrorType::ParseError, "bad json"));
    assert_eq!(e.kind, ErrorKind::Parse);
    let e = ServerError::from_atomic(atomic_error(AtomicErrorType::MethodNotAllowed, "no"));
    assert_eq!(e.kind, ErrorKind::MethodNotAllowed);
    let e = ServerError::from_atomic(atomic_error(AtomicErrorType::OtherError, "Incorrect signature"));
    assert_eq!(e.kind, ErrorKind::Rejected);
    assert_eq!(e.message, "Incorrect signature");
}

#[test]
fn denials_carry_no_content() {
    let a = ServerError::from_atomic(atomic_error(AtomicErrorType::UnauthorizedError, "secret title"));
    let b = ServerError::from_atomic(atomic_error(AtomicErrorType::UnauthorizedError, "other"));
    assert_eq!(a.kind, ErrorKind::RightsDenied);
    assert_eq!(a.message, b.message);
    assert!(!a.message.contains("secret"));
}

#[test]
fn authority_is_a_url_prefix_at_a_boundary() {
    assert!(is_within_authority("https://srv.example", "https://srv.example"));
    assert!(is_within_authority("https://srv.example/a", "https://srv.example"));
    assert!(is_within_authority("https://srv.example?x=1", "https://srv.example"));
    assert!(is_within_authority("https://srv.example#top", "https://srv.example"));
    assert!(is_within_authority("https://srv.example/a", "https://srv.example/"));
    assert!(!is_within_authority("https://other.example/https://srv.example", "https://srv.example"));
    assert!(!is_within_authority("https://other.example/res1", "https://other.ex"));
    assert!(!is_within_authority("https://srv.example.org/a", "https://srv.example"));
    assert!(!is_within_authority("https://srv", "https://srv.example"));
}

#[test]
fn embedded_store_url_is_not_owned() {
    let err = admit_commit(
        "https://other.example/https://srv.example",
        "https://srv.example/agents/a1",
        Some("https://srv.example"),
    )
    .unwrap_err();
    assert_eq!(err.kind, ErrorKind::SubjectNotOwned);
}
