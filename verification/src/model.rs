//! The two records exchanged over HTTP, and the form's notification state.

use vstd::prelude::*;

verus! {

/// The mathematical value of a [`Person`]: the three field contents as
/// character sequences.
pub ghost struct PersonView {
    pub last_name: Seq<char>,
    pub first_name: Seq<char>,
    pub phone_number: Seq<char>,
}

/// The record the form submits: last name, first name, phone number.
/// All three fields are plain strings; the phone number is not validated
/// beyond being non-blank at submission time.
#[derive(Debug, Clone, PartialEq)]
pub struct Person {
    pub last_name: String,
    pub first_name: String,
    pub phone_number: String,
}

impl View for Person {
    type V = PersonView;

    open spec fn view(&self) -> PersonView {
        PersonView {
            last_name: self.last_name@,
            first_name: self.first_name@,
            phone_number: self.phone_number@,
        }
    }
}

/// The mathematical value of a [`SuccessResponse`].
pub ghost struct SuccessResponseView {
    pub success: bool,
    pub message: Seq<char>,
}

/// The acknowledgement the service returns for an accepted submission.
#[derive(Debug, Clone, PartialEq)]
pub struct SuccessResponse {
    pub success: bool,
    pub message: String,
}

impl View for SuccessResponse {
    type V = SuccessResponseView;

    open spec fn view(&self) -> SuccessResponseView {
        SuccessResponseView { success: self.success, message: self.message@ }
    }
}

/// The feedback the form shows: nothing yet, a success banner, or an error
/// banner. A single tagged value keeps the three outcomes mutually
/// exclusive by construction.
#[derive(Debug, Clone, PartialEq)]
pub enum NotificationStatus {
    Silent,
    Success(String),
    Error(String),
}

/// The mathematical value of a [`NotificationStatus`].
pub ghost enum NotificationView {
    Silent,
    Success(Seq<char>),
    Error(Seq<char>),
}

impl View for NotificationStatus {
    type V = NotificationView;

    open spec fn view(&self) -> NotificationView {
        match self {
            NotificationStatus::Silent => NotificationView::Silent,
            NotificationStatus::Success(m) => NotificationView::Success(m@),
            NotificationStatus::Error(m) => NotificationView::Error(m@),
        }
    }
}

} // verus!
