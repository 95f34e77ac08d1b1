//! The submission service's request handling.
//!
//! The HTTP layer around it only reads a request body, hands it here, and
//! writes the outcome back: the status, the response body and the log line
//! (when one is owed) are all decided and assembled in this module.

use vstd::prelude::*;
use crate::model::{Person, PersonView, SuccessResponse, SuccessResponseView};
use crate::json::{
    doc_pairs, encode_success, parse_person, person_of_doc, success_json, unique_entry,
    ScalarView,
};

verus! {

/// The acknowledgement message for an accepted person.
pub open spec fn success_message(p: PersonView) -> Seq<char> {
    "submission succeeded for "@ + p.first_name + " "@ + p.last_name
}

/// The log line recorded for an accepted person.
pub open spec fn log_line(p: PersonView) -> Seq<char> {
    "person received: "@ + p.first_name + " "@ + p.last_name + ", phone number: "@
        + p.phone_number
}

/// The body answered to a request whose body is not a valid submission.
pub open spec fn bad_request_body() -> Seq<char> {
    "invalid request body"@
}

/// The health endpoint's body.
pub open spec fn health_body() -> Seq<char> {
    "Service operational"@
}

/// The status a submission body is answered with.
pub open spec fn submit_status(body: Seq<char>) -> int {
    if person_of_doc(body) is Some {
        200
    } else {
        400
    }
}

/// The response body a submission body is answered with: the encoded
/// acknowledgement naming the submitted person, or the rejection body.
pub open spec fn submit_response_body(body: Seq<char>) -> Seq<char> {
    match person_of_doc(body) {
        Some(p) => success_json(
            SuccessResponseView { success: true, message: success_message(p) },
        ),
        None => bad_request_body(),
    }
}

/// The log line a submission body gives rise to: one line for an accepted
/// person, none for a rejected body.
pub open spec fn submit_log(body: Seq<char>) -> Option<Seq<char>> {
    match person_of_doc(body) {
        Some(p) => Some(log_line(p)),
        None => None,
    }
}

/// Everything the HTTP layer needs to answer one submission request.
pub struct SubmitOutcome {
    /// The HTTP status to answer with.
    pub status: u16,
    /// The response body to answer with.
    pub body: String,
    /// The line to log at info level, when the submission was accepted.
    pub log_line: Option<String>,
}

/// Handles one `POST /api/submit` body. A body carrying a valid person is
/// acknowledged with 200, the success document naming that person, and a
/// log line with the three fields; any other body is rejected with 400 and
/// no log line. The outcome depends on the body alone.
pub fn submit_form(body: &str) -> (r: SubmitOutcome)
    ensures
        r.status as int == submit_status(body@),
        r.body@ == submit_response_body(body@),
        match submit_log(body@) {
            Some(l) => r.log_line matches Some(s) && s@ == l,
            None => r.log_line is None,
        },
{
    match parse_person(body) {
        Some(p) => {
            let mut message = String::from_str("submission succeeded for ");
            message.append(p.first_name.as_str());
            message.append(" ");
            message.append(p.last_name.as_str());

            let mut line = String::from_str("person received: ");
            line.append(p.first_name.as_str());
            line.append(" ");
            line.append(p.last_name.as_str());
            line.append(", phone number: ");
            line.append(p.phone_number.as_str());

            let ack = SuccessResponse { success: true, message };
            SubmitOutcome { status: 200, body: encode_success(&ack), log_line: Some(line) }
        },
        None => SubmitOutcome {
            status: 400,
            body: String::from_str("invalid request body"),
            log_line: None,
        },
    }
}

/// Handles one `GET /health` request: always 200 with the fixed body. The
/// function takes no state and changes none, so repeated calls observe
/// nothing of one another.
pub fn health_check() -> (r: (u16, String))
    ensures
        r.0 == 200,
        r.1@ == health_body(),
{
    (200, String::from_str("Service operational"))
}

/// A submission is only accepted when each of the three required keys is
/// present exactly once, with a string value: an accepted document is never
/// missing a field.
pub proof fn lemma_accepted_has_all_fields(body: Seq<char>)
    ensures
        person_of_doc(body) matches Some(p) ==> doc_pairs(body) matches Some(ps)
            && unique_entry(ps, "lastName"@) == Some(ScalarView::Str(p.last_name))
            && unique_entry(ps, "firstName"@) == Some(ScalarView::Str(p.first_name))
            && unique_entry(ps, "phoneNumber"@) == Some(ScalarView::Str(p.phone_number)),
{
}

/// Concurrent submissions cannot interfere: the whole outcome for a body —
/// status, response and log line — is a function of that body alone, and an
/// accepted body is always answered with the acknowledgement naming the
/// person it itself carries, whatever other bodies are in flight.
pub proof fn lemma_submissions_independent(b1: Seq<char>, b2: Seq<char>)
    ensures
        person_of_doc(b1) matches Some(p1) ==> submit_response_body(b1) == success_json(
            SuccessResponseView { success: true, message: success_message(p1) },
        ),
        person_of_doc(b2) matches Some(p2) ==> submit_response_body(b2) == success_json(
            SuccessResponseView { success: true, message: success_message(p2) },
        ),
{
}

} // verus!
