//! Why an operation did not succeed.

use crate::text::{decimal, decimal_string};
use vstd::prelude::*;

verus! {

/// The ways an operation fails.
#[derive(Debug, Clone, PartialEq, Eq)]
pub enum Failure {
    /// A required setting is missing; nothing was sent.
    Configuration { variable: String },
    /// The request did not get through, or no reply came back.
    Transport { detail: String },
    /// The API refused the request and said why in its error envelope.
    Api { status: u32, message: String },
    /// The API refused the request and its body holds no error envelope.
    Status { code: u16 },
    /// The API reported success, but the body is not the record that was expected.
    Deserialization,
}

/// Mathematical model of [`Failure`].
pub enum FailureView {
    Configuration { variable: Seq<char> },
    Transport { detail: Seq<char> },
    Api { status: u32, message: Seq<char> },
    Status { code: u16 },
    Deserialization,
}

impl DeepView for Failure {
    type V = FailureView;

    open spec fn deep_view(&self) -> FailureView {
        match self {
            Failure::Configuration { variable } => FailureView::Configuration {
                variable: variable@,
            },
            Failure::Transport { detail } => FailureView::Transport { detail: detail@ },
            Failure::Api { status, message } => FailureView::Api {
                status: *status,
                message: message@,
            },
            Failure::Status { code } => FailureView::Status { code: *code },
            Failure::Deserialization => FailureView::Deserialization,
        }
    }
}

impl FailureView {
    /// The line that reports the failure to a person.
    pub open spec fn message(self) -> Seq<char> {
        match self {
            FailureView::Configuration { variable } => "Failed to fetch configuration: missing "@
                + variable,
            FailureView::Transport { detail } => detail,
            FailureView::Api { status, message } => "Request failed: "@ + message,
            FailureView::Status { code } => "Request failed: "@ + decimal(code as nat),
            FailureView::Deserialization => "Failed to parse response"@,
        }
    }
}

impl Failure {
    /// The line that reports the failure to a person.
    pub fn message(&self) -> (text: String)
        ensures
            text@ == self.deep_view().message(),
    {
        match self {
            Failure::Configuration { variable } => {
                let mut text = String::from_str("Failed to fetch configuration: missing ");
                text.append(variable.as_str());
                text
            },
            Failure::Transport { detail } => detail.clone(),
            Failure::Api { status: _, message } => {
                let mut text = String::from_str("Request failed: ");
                text.append(message.as_str());
                text
            },
            Failure::Status { code } => {
                let mut text = String::from_str("Request failed: ");
                let digits = decimal_string(*code as u64);
                text.append(digits.as_str());
                text
            },
            Failure::Deserialization => String::from_str("Failed to parse response"),
        }
    }
}

} // verus!
