use person_form::server::{submit_form, health_check};

const VALID_BODY: &str = "{\"lastName\":\"Dupont\",\"firstName\":\"Jean\",\"phoneNumber\":\"0600000000\"}";

#[test]
fn valid_submission_is_acknowledged() {
    let out = submit_form(VALID_BODY);
    assert_eq!(out.status, 200);
    assert_eq!(
        out.body,
        "{\"success\":true,\"message\":\"submission succeeded for Jean Dupont\"}"
    );
    assert_eq!(
        out.log_line.as_deref(),
        Some("person received: Jean Dupont, phone number: 0600000000")
    );
}

#[test]
fn missing_last_name_is_rejected_without_log() {
    let out = submit_form("{\"firstName\":\"Jean\",\"phoneNumber\":\"0600000000\"}");
    assert_eq!(out.status, 400);
    assert!(out.log_line.is_none());
}

#[test]
fn missing_first_name_is_rejected_without_log() {
    let out = submit_form("{\"lastName\":\"Dupont\",\"phoneNumber\":\"0600000000\"}");
    assert_eq!(out.status, 400);
    assert!(out.log_line.is_none());
}

#[test]
fn missing_phone_number_is_rejected_without_log() {
    let out = submit_form("{\"lastName\":\"Dupont\",\"firstName\":\"Jean\"}");
    assert_eq!(out.status, 400);
    assert!(out.log_line.is_none());
}

#[test]
fn malformed_body_is_rejected_without_log() {
    for body in ["", "null", "[1,2]", "{\"lastName\":", "not json", "{} trailing"] {
        let out = submit_form(body);
        assert_eq!(out.status, 400, "body {:?} must be rejected", body);
        assert!(out.log_line.is_none());
    }
}

#[test]
fn duplicated_required_key_is_rejected() {
    let out = submit_form(
        "{\"lastName\":\"A\",\"lastName\":\"B\",\"firstName\":\"J\",\"phoneNumber\":\"06\"}",
    );
    assert_eq!(out.status, 400);
    assert!(out.log_line.is_none());
}

#[test]
fn non_string_required_value_is_rejected() {
    let out = submit_form(
        "{\"lastName\":true,\"firstName\":\"Jean\",\"phoneNumber\":\"0600000000\"}",
    );
    assert_eq!(out.status, 400);
    assert!(out.log_line.is_none());
}

#[test]
fn unknown_keys_are_ignored() {
    let out = submit_form(
        "{\"lastName\":\"Dupont\",\"extra\":true,\"firstName\":\"Jean\",\"phoneNumber\":\"06\"}",
    );
    assert_eq!(out.status, 200);
    assert_eq!(
        out.log_line.as_deref(),
        Some("person received: Jean Dupont, phone number: 06")
    );
}

#[test]
fn whitespace_between_tokens_is_accepted() {
    let out = submit_form(
        " \t\r\n{ \"lastName\" : \"Dupont\" ,\n\"firstName\":\t\"Jean\" , \"phoneNumber\" : \"06\" } \n",
    );
    assert_eq!(out.status, 200);
}

#[test]
fn escapes_in_fields_are_decoded() {
    let out = submit_form(
        "{\"lastName\":\"Du\\\"pont\\\\\",\"firstName\":\"J\\ne\\tan\\/\",\"phoneNumber\":\"06\"}",
    );
    assert_eq!(out.status, 200);
    assert_eq!(
        out.log_line.as_deref(),
        Some("person received: J\ne\tan/ Du\"pont\\, phone number: 06")
    );
}

#[test]
fn unsupported_escape_is_rejected() {
    let out = submit_form("{\"lastName\":\"\\u0041\",\"firstName\":\"J\",\"phoneNumber\":\"06\"}");
    assert_eq!(out.status, 400);
}

#[test]
fn raw_control_character_is_rejected() {
    let out = submit_form("{\"lastName\":\"a\u{1}b\",\"firstName\":\"J\",\"phoneNumber\":\"06\"}");
    assert_eq!(out.status, 400);
}

#[test]
fn health_is_ok_and_idempotent() {
    let (status1, body1) = health_check();
    let (status2, body2) = health_check();
    assert_eq!(status1, 200);
    assert_eq!(status2, 200);
    assert_eq!(body1, "Service operational");
    assert_eq!(body1, body2);
}

#[test]
fn overlapping_submissions_do_not_cross_talk() {
    // `submit_form` holds no state, so two requests in flight at once
    // cannot observe one another; each is answered from its own body.
    let body_a = VALID_BODY;
    let body_b = "{\"lastName\":\"Curie\",\"firstName\":\"Marie\",\"phoneNumber\":\"0700000000\"}";
    let out_a = submit_form(body_a);
    let out_b = submit_form(body_b);
    assert_eq!(out_a.status, 200);
    assert_eq!(out_b.status, 200);
    assert_eq!(
        out_a.body,
        "{\"success\":true,\"message\":\"submission succeeded for Jean Dupont\"}"
    );
    assert_eq!(
        out_b.body,
        "{\"success\":true,\"message\":\"submission succeeded for Marie Curie\"}"
    );
}
