use person_form::form::{FetchOutcome, Field, FormState};
use person_form::json::encode_person;
use person_form::model::NotificationStatus;
use person_form::server::submit_form;

#[test]
fn full_submission_flow() {
    let mut form = FormState::new();
    form.set_field(Field::LastName, "Dupont".to_string());
    form.set_field(Field::FirstName, "Jean".to_string());
    form.set_field(Field::PhoneNumber, "0600000000".to_string());

    let person = form.on_submit().expect("the filled form must submit");
    assert!(form.submitting);

    let request_body = encode_person(&person);
    let outcome = submit_form(&request_body);
    assert_eq!(outcome.status, 200);
    assert_eq!(
        outcome.log_line.as_deref(),
        Some("person received: Jean Dupont, phone number: 0600000000")
    );

    form.on_fetch_outcome(FetchOutcome::Response(outcome.status, outcome.body));
    assert!(!form.submitting);
    match &form.notification {
        NotificationStatus::Success(m) => assert_eq!(m, "submission succeeded for Jean Dupont"),
        _ => panic!("expected a success notification"),
    }
}

#[test]
fn full_flow_with_characters_needing_escapes() {
    let mut form = FormState::new();
    form.set_field(Field::LastName, "O\"Brien\\".to_string());
    form.set_field(Field::FirstName, "Anne\tMarie".to_string());
    form.set_field(Field::PhoneNumber, "06 00".to_string());

    let person = form.on_submit().expect("the filled form must submit");
    let outcome = submit_form(&encode_person(&person));
    assert_eq!(outcome.status, 200);
    assert_eq!(
        outcome.log_line.as_deref(),
        Some("person received: Anne\tMarie O\"Brien\\, phone number: 06 00")
    );

    form.on_fetch_outcome(FetchOutcome::Response(outcome.status, outcome.body));
    match &form.notification {
        NotificationStatus::Success(m) => {
            assert_eq!(m, "submission succeeded for Anne\tMarie O\"Brien\\")
        },
        _ => panic!("expected a success notification"),
    }
}
