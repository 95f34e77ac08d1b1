use person_form::json::{encode_person, encode_success, parse_person, parse_success};
use person_form::model::{Person, SuccessResponse};

fn person(last: &str, first: &str, phone: &str) -> Person {
    Person {
        last_name: last.to_string(),
        first_name: first.to_string(),
        phone_number: phone.to_string(),
    }
}

#[test]
fn encode_person_plain() {
    let body = encode_person(&person("Dupont", "Jean", "0600000000"));
    assert_eq!(
        body,
        "{\"lastName\":\"Dupont\",\"firstName\":\"Jean\",\"phoneNumber\":\"0600000000\"}"
    );
}

#[test]
fn encode_person_escapes_specials() {
    let body = encode_person(&person("a\"b", "c\\d", "1\n2\t3\r4\u{8}5\u{c}6\u{1}7"));
    assert_eq!(
        body,
        "{\"lastName\":\"a\\\"b\",\"firstName\":\"c\\\\d\",\"phoneNumber\":\"1\\n2\\t3\\r4\\b5\\f6\\u00017\"}"
    );
}

#[test]
fn encode_then_parse_returns_the_same_person() {
    let p = person("Du\"po\\nt", "Je\tan", "06 00");
    let body = encode_person(&p);
    let q = parse_person(&body).expect("an encoded person must parse back");
    assert_eq!(q.last_name, p.last_name);
    assert_eq!(q.first_name, p.first_name);
    assert_eq!(q.phone_number, p.phone_number);
}

#[test]
fn parse_person_accepts_any_key_order() {
    let p = parse_person(
        "{\"phoneNumber\":\"06\",\"lastName\":\"Dupont\",\"firstName\":\"Jean\"}",
    )
    .unwrap();
    assert_eq!(p.last_name, "Dupont");
    assert_eq!(p.first_name, "Jean");
    assert_eq!(p.phone_number, "06");
}

#[test]
fn parse_person_rejects_empty_object_and_rejects_non_object() {
    assert!(parse_person("{}").is_none());
    assert!(parse_person("\"lastName\"").is_none());
    assert!(parse_person("true").is_none());
    assert!(parse_person("").is_none());
    assert!(parse_person("   ").is_none());
}

#[test]
fn parse_person_rejects_trailing_content() {
    assert!(parse_person(
        "{\"lastName\":\"D\",\"firstName\":\"J\",\"phoneNumber\":\"06\"}x"
    )
    .is_none());
    assert!(parse_person(
        "{\"lastName\":\"D\",\"firstName\":\"J\",\"phoneNumber\":\"06\"},"
    )
    .is_none());
}

#[test]
fn parse_person_rejects_trailing_comma_and_missing_colon() {
    assert!(parse_person("{\"lastName\":\"D\",}").is_none());
    assert!(parse_person("{\"lastName\" \"D\"}").is_none());
}

#[test]
fn encode_success_true_and_false() {
    let ok = SuccessResponse { success: true, message: "done".to_string() };
    assert_eq!(encode_success(&ok), "{\"success\":true,\"message\":\"done\"}");
    let ko = SuccessResponse { success: false, message: "no".to_string() };
    assert_eq!(encode_success(&ko), "{\"success\":false,\"message\":\"no\"}");
}

#[test]
fn parse_success_reads_both_fields() {
    let sr = parse_success("{\"success\":true,\"message\":\"all good\"}").unwrap();
    assert!(sr.success);
    assert_eq!(sr.message, "all good");
    let sr = parse_success(" { \"message\" : \"hm\" , \"success\" : false } ").unwrap();
    assert!(!sr.success);
    assert_eq!(sr.message, "hm");
}

#[test]
fn parse_success_rejects_missing_or_mistyped_fields() {
    assert!(parse_success("{\"success\":true}").is_none());
    assert!(parse_success("{\"message\":\"m\"}").is_none());
    assert!(parse_success("{\"success\":\"true\",\"message\":\"m\"}").is_none());
    assert!(parse_success("{\"success\":true,\"message\":false}").is_none());
    assert!(parse_success("{\"success\":tru,\"message\":\"m\"}").is_none());
    assert!(parse_success("{\"success\":true,\"message\":\"m\",\"success\":true}").is_none());
}

#[test]
fn parse_success_round_trip() {
    let sr = SuccessResponse {
        success: true,
        message: "submission succeeded for Jean Dupont".to_string(),
    };
    let body = encode_success(&sr);
    let back = parse_success(&body).unwrap();
    assert_eq!(back.success, sr.success);
    assert_eq!(back.message, sr.message);
}
