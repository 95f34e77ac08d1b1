//! The form's local state machine.
//!
//! The browser driver only forwards events to this module: a changed input,
//! a click on the submit control, and the outcome of the one network call.
//! Every decision — whether a submission leaves at all, and what feedback
//! the user sees afterwards — is taken here.

use vstd::prelude::*;
use crate::model::{NotificationStatus, NotificationView, Person, PersonView};
use crate::text::{blank, dec_str, is_blank, u16_to_dec};
use crate::json::{parse_success, success_of_doc};

verus! {

/// The error shown when a field is blank at submission time.
pub open spec fn required_fields_message() -> Seq<char> {
    "all fields are required"@
}

/// The error shown when the network call itself failed.
pub open spec fn network_error_message(detail: Seq<char>) -> Seq<char> {
    "Error: network error: "@ + detail
}

/// The error shown when a successful response carried an unreadable body.
pub open spec fn decode_error_message() -> Seq<char> {
    "Error: could not decode the response"@
}

/// The error shown for a response outside the 2xx range.
pub open spec fn server_error_message(status: int) -> Seq<char> {
    "Error: server error: "@ + dec_str(status)
}

/// The three text inputs of the form.
pub enum Field {
    LastName,
    FirstName,
    PhoneNumber,
}

/// What the driver reports back after performing the network call: the
/// response's status and raw body, or the failure to reach the service.
pub enum FetchOutcome {
    Response(u16, String),
    NetworkFailure(String),
}

/// The mathematical value of a [`FormState`].
#[verifier::ext_equal]
pub ghost struct FormView {
    pub last_name: Seq<char>,
    pub first_name: Seq<char>,
    pub phone_number: Seq<char>,
    pub submitting: bool,
    pub notification: NotificationView,
}

/// The form's local state: the three field contents, the guard that
/// disables the submit control while a request is outstanding, and the
/// feedback currently shown.
pub struct FormState {
    pub last_name: String,
    pub first_name: String,
    pub phone_number: String,
    pub submitting: bool,
    pub notification: NotificationStatus,
}

impl View for FormState {
    type V = FormView;

    open spec fn view(&self) -> FormView {
        FormView {
            last_name: self.last_name@,
            first_name: self.first_name@,
            phone_number: self.phone_number@,
            submitting: self.submitting,
            notification: self.notification@,
        }
    }
}

/// All three fields are non-blank: the submission may leave.
pub open spec fn fields_valid(f: FormView) -> bool {
    !blank(f.last_name) && !blank(f.first_name) && !blank(f.phone_number)
}

impl FormState {
    /// The initial form: empty fields, nothing in flight, no feedback.
    pub fn new() -> (r: FormState)
        ensures
            r@.last_name == Seq::<char>::empty(),
            r@.first_name == Seq::<char>::empty(),
            r@.phone_number == Seq::<char>::empty(),
            !r@.submitting,
            r@.notification == NotificationView::Silent,
    {
        FormState {
            last_name: String::new(),
            first_name: String::new(),
            phone_number: String::new(),
            submitting: false,
            notification: NotificationStatus::Silent,
        }
    }

    /// A change event on one input: that field takes the input's value,
    /// everything else stays.
    pub fn set_field(&mut self, field: Field, value: String)
        ensures
            final(self)@.submitting == old(self)@.submitting,
            final(self)@.notification == old(self)@.notification,
            match field {
                Field::LastName => final(self)@ == (FormView { last_name: value@, ..old(self)@ }),
                Field::FirstName => final(self)@ == (FormView { first_name: value@, ..old(self)@ }),
                Field::PhoneNumber => final(self)@ == (FormView { phone_number: value@, ..old(self)@ }),
            },
    {
        match field {
            Field::LastName => self.last_name = value,
            Field::FirstName => self.first_name = value,
            Field::PhoneNumber => self.phone_number = value,
        }
    }

    /// The submit event. When some field is blank (empty after trimming
    /// whitespace) the error feedback appears and nothing leaves: no
    /// request is made. Otherwise the in-flight guard is raised and the
    /// person to send is handed out; the driver must perform the call and
    /// report back through [`FormState::on_fetch_outcome`].
    pub fn on_submit(&mut self) -> (r: Option<Person>)
        requires
            !old(self)@.submitting,
        ensures
            final(self)@.last_name == old(self)@.last_name,
            final(self)@.first_name == old(self)@.first_name,
            final(self)@.phone_number == old(self)@.phone_number,
            if fields_valid(old(self)@) {
                r matches Some(p) && p@ == (PersonView {
                    last_name: old(self)@.last_name,
                    first_name: old(self)@.first_name,
                    phone_number: old(self)@.phone_number,
                }) && final(self)@.submitting && final(self)@.notification == old(
                    self,
                )@.notification
            } else {
                r is None && !final(self)@.submitting && final(self)@.notification
                    == NotificationView::Error(required_fields_message())
            },
    {
        if is_blank(self.last_name.as_str()) || is_blank(self.first_name.as_str()) || is_blank(
            self.phone_number.as_str(),
        ) {
            self.notification = NotificationStatus::Error(
                String::from_str("all fields are required"),
            );
            None
        } else {
            self.submitting = true;
            Some(
                Person {
                    last_name: self.last_name.clone(),
                    first_name: self.first_name.clone(),
                    phone_number: self.phone_number.clone(),
                },
            )
        }
    }

    /// The outcome of the network call. The in-flight guard drops in every
    /// case; the feedback becomes: the server's message on a readable 2xx
    /// response, a decoding error on an unreadable 2xx response, an error
    /// naming the status on any other response, and an error naming the
    /// failure when the service could not be reached.
    pub fn on_fetch_outcome(&mut self, outcome: FetchOutcome)
        requires
            old(self)@.submitting,
        ensures
            final(self)@.last_name == old(self)@.last_name,
            final(self)@.first_name == old(self)@.first_name,
            final(self)@.phone_number == old(self)@.phone_number,
            !final(self)@.submitting,
            match outcome {
                FetchOutcome::NetworkFailure(detail) => final(self)@.notification
                    == NotificationView::Error(network_error_message(detail@)),
                FetchOutcome::Response(status, body) => if 200 <= status < 300 {
                    match success_of_doc(body@) {
                        Some(sr) => final(self)@.notification == NotificationView::Success(
                            sr.message,
                        ),
                        None => final(self)@.notification == NotificationView::Error(
                            decode_error_message(),
                        ),
                    }
                } else {
                    final(self)@.notification == NotificationView::Error(
                        server_error_message(status as int),
                    )
                },
            },
    {
        match outcome {
            FetchOutcome::NetworkFailure(detail) => {
                let mut m = String::from_str("Error: network error: ");
                m.append(detail.as_str());
                self.notification = NotificationStatus::Error(m);
            },
            FetchOutcome::Response(status, body) => {
                if 200 <= status && status < 300 {
                    match parse_success(body.as_str()) {
                        Some(sr) => {
                            self.notification = NotificationStatus::Success(sr.message);
                        },
                        None => {
                            self.notification = NotificationStatus::Error(
                                String::from_str("Error: could not decode the response"),
                            );
                        },
                    }
                } else {
                    let mut m = String::from_str("Error: server error: ");
                    let digits = u16_to_dec(status);
                    m.append(digits.as_str());
                    self.notification = NotificationStatus::Error(m);
                }
            },
        }
        self.submitting = false;
    }
}

/// The status code is visible in the feedback for a non-2xx response: the
/// error message ends in exactly the decimal digits of the status.
pub proof fn lemma_server_error_shows_status(status: int)
    ensures
        exists|i: int|
            0 <= i && i + dec_str(status).len() == server_error_message(status).len()
                && server_error_message(status).skip(i) == dec_str(status),
{
    let pre = "Error: server error: "@;
    assert(server_error_message(status).skip(pre.len() as int) =~= dec_str(status));
}

} // verus!
