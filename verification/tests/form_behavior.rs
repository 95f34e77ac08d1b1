use person_form::form::{FetchOutcome, Field, FormState};
use person_form::model::NotificationStatus;

fn filled_form(last: &str, first: &str, phone: &str) -> FormState {
    let mut f = FormState::new();
    f.set_field(Field::LastName, last.to_string());
    f.set_field(Field::FirstName, first.to_string());
    f.set_field(Field::PhoneNumber, phone.to_string());
    f
}

fn expect_error(f: &FormState, expected: &str) {
    match &f.notification {
        NotificationStatus::Error(m) => assert_eq!(m, expected),
        _ => panic!("expected an error notification"),
    }
}

#[test]
fn empty_last_name_blocks_submission() {
    let mut f = filled_form("", "Jean", "0600000000");
    let r = f.on_submit();
    assert!(r.is_none());
    assert!(!f.submitting);
    expect_error(&f, "all fields are required");
}

#[test]
fn empty_first_name_blocks_submission() {
    let mut f = filled_form("Dupont", "", "0600000000");
    assert!(f.on_submit().is_none());
    expect_error(&f, "all fields are required");
}

#[test]
fn empty_phone_number_blocks_submission() {
    let mut f = filled_form("Dupont", "Jean", "");
    assert!(f.on_submit().is_none());
    expect_error(&f, "all fields are required");
}

#[test]
fn whitespace_only_field_blocks_submission() {
    let mut f = filled_form(" \t\r\n", "Jean", "0600000000");
    assert!(f.on_submit().is_none());
    expect_error(&f, "all fields are required");
}

#[test]
fn unicode_whitespace_field_blocks_submission() {
    // U+00A0 (no-break space) is whitespace though it is not ASCII: the
    // blank test really trims Unicode whitespace, not just spaces.
    let mut f = filled_form("\u{00A0}\u{2003}", "Jean", "0600000000");
    assert!(f.on_submit().is_none());
    expect_error(&f, "all fields are required");
}

#[test]
fn valid_fields_submit_and_raise_guard() {
    let mut f = filled_form("Dupont", "Jean", "0600000000");
    let p = f.on_submit().expect("a valid form must hand out a person");
    assert!(f.submitting);
    assert!(matches!(f.notification, NotificationStatus::Silent));
    assert_eq!(p.last_name, "Dupont");
    assert_eq!(p.first_name, "Jean");
    assert_eq!(p.phone_number, "0600000000");
}

#[test]
fn submitted_body_has_exactly_the_three_keys() {
    let mut f = filled_form("Dupont", "Jean", "0600000000");
    let p = f.on_submit().unwrap();
    let body = person_form::json::encode_person(&p);
    assert_eq!(
        body,
        "{\"lastName\":\"Dupont\",\"firstName\":\"Jean\",\"phoneNumber\":\"0600000000\"}"
    );
}

#[test]
fn success_response_shows_server_message() {
    let mut f = filled_form("Dupont", "Jean", "0600000000");
    let _ = f.on_submit().unwrap();
    f.on_fetch_outcome(FetchOutcome::Response(
        200,
        "{\"success\":true,\"message\":\"submission succeeded for Jean Dupont\"}".to_string(),
    ));
    assert!(!f.submitting);
    match &f.notification {
        NotificationStatus::Success(m) => assert_eq!(m, "submission succeeded for Jean Dupont"),
        _ => panic!("expected a success notification"),
    }
}

#[test]
fn non_2xx_response_shows_status_code() {
    let mut f = filled_form("Dupont", "Jean", "0600000000");
    let _ = f.on_submit().unwrap();
    f.on_fetch_outcome(FetchOutcome::Response(500, "ignored".to_string()));
    assert!(!f.submitting);
    expect_error(&f, "Error: server error: 500");
}

#[test]
fn not_found_response_shows_status_code() {
    let mut f = filled_form("Dupont", "Jean", "0600000000");
    let _ = f.on_submit().unwrap();
    f.on_fetch_outcome(FetchOutcome::Response(404, String::new()));
    expect_error(&f, "Error: server error: 404");
}

#[test]
fn network_failure_shows_detail() {
    let mut f = filled_form("Dupont", "Jean", "0600000000");
    let _ = f.on_submit().unwrap();
    f.on_fetch_outcome(FetchOutcome::NetworkFailure("connection refused".to_string()));
    assert!(!f.submitting);
    expect_error(&f, "Error: network error: connection refused");
}

#[test]
fn unreadable_success_body_shows_decode_error() {
    let mut f = filled_form("Dupont", "Jean", "0600000000");
    let _ = f.on_submit().unwrap();
    f.on_fetch_outcome(FetchOutcome::Response(200, "not json at all".to_string()));
    assert!(!f.submitting);
    expect_error(&f, "Error: could not decode the response");
}

#[test]
fn set_field_updates_only_its_field() {
    let mut f = filled_form("Dupont", "Jean", "0600000000");
    f.set_field(Field::FirstName, "Marie".to_string());
    assert_eq!(f.last_name, "Dupont");
    assert_eq!(f.first_name, "Marie");
    assert_eq!(f.phone_number, "0600000000");
    assert!(!f.submitting);
}
