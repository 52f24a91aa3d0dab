//! The status that every reply of the service carries.

use vstd::prelude::*;
use crate::tag::{str_eq, FromLabel, SetItem, Tagged};

verus! {

/// The status of a reply.
#[derive(Clone, Copy, Debug, PartialEq, Eq, Hash, Structural)]
pub enum StatusCode {
    /// No error occurred and at least one result was returned.
    Okay,
    /// The search succeeded and found nothing.
    ZeroResults,
    /// The caller is over its quota.
    OverQueryLimit,
    /// The request was denied.
    RequestDenied,
    /// The query lacks its address, components or coordinates.
    InvalidRequest,
    /// The server failed; the same request may succeed later.
    UnknownError,
}

impl StatusCode {
    /// Whether a reply with this status is an answer rather than a failure.
    pub open spec fn is_success(self) -> bool {
        self == StatusCode::Okay || self == StatusCode::ZeroResults
    }

    /// Whether a reply with this status is an answer rather than a failure.
    #[verifier::when_used_as_spec(is_success)]
    pub fn succeeded(self) -> (b: bool)
        ensures
            b == self.is_success(),
    {
        match self {
            StatusCode::Okay => true,
            StatusCode::ZeroResults => true,
            _ => false,
        }
    }

    /// What the status means, in words.
    pub open spec fn description(self) -> Seq<char> {
        match self {
            StatusCode::Okay => "No errors occurred"@,
            StatusCode::ZeroResults => "Geocode was successful but returned no results."@,
            StatusCode::OverQueryLimit => "You are over your quota"@,
            StatusCode::RequestDenied => "Request denied"@,
            StatusCode::InvalidRequest => "Query component missing"@,
            StatusCode::UnknownError => "Unknown error"@,
        }
    }

    /// What the status means, in words.
    pub fn to_string(&self) -> (text: String)
        ensures
            text@ == self.description(),
    {
        let words = match self {
            StatusCode::Okay => "No errors occurred",
            StatusCode::ZeroResults => "Geocode was successful but returned no results.",
            StatusCode::OverQueryLimit => "You are over your quota",
            StatusCode::RequestDenied => "Request denied",
            StatusCode::InvalidRequest => "Query component missing",
            StatusCode::UnknownError => "Unknown error",
        };
        String::from_str(words)
    }
}

impl Tagged for StatusCode {
    open spec fn label(&self) -> Seq<char> {
        match self {
            StatusCode::Okay => "OK"@,
            StatusCode::ZeroResults => "ZERO_RESULTS"@,
            StatusCode::OverQueryLimit => "OVER_QUERY_LIMIT"@,
            StatusCode::RequestDenied => "REQUEST_DENIED"@,
            StatusCode::InvalidRequest => "INVALID_REQUEST"@,
            StatusCode::UnknownError => "UNKNOWN_ERROR"@,
        }
    }

    fn variant_name(&self) -> (name: &'static str) {
        match self {
            StatusCode::Okay => "OK",
            StatusCode::ZeroResults => "ZERO_RESULTS",
            StatusCode::OverQueryLimit => "OVER_QUERY_LIMIT",
            StatusCode::RequestDenied => "REQUEST_DENIED",
            StatusCode::InvalidRequest => "INVALID_REQUEST",
            StatusCode::UnknownError => "UNKNOWN_ERROR",
        }
    }
}

impl SetItem for StatusCode {
    open spec fn payload(&self) -> Option<Seq<char>> {
        None
    }

    fn value(&self) -> (v: Option<&str>) {
        None
    }

    proof fn lemma_label_has_no_colon(&self) {
        reveal_strlit("OK");
        reveal_strlit("ZERO_RESULTS");
        reveal_strlit("OVER_QUERY_LIMIT");
        reveal_strlit("REQUEST_DENIED");
        reveal_strlit("INVALID_REQUEST");
        reveal_strlit("UNKNOWN_ERROR");
    }
}

impl FromLabel for StatusCode {
    fn from_label(label: &str) -> (tag: Option<Self>) {
        if str_eq(label, "OK") {
            Some(StatusCode::Okay)
        } else if str_eq(label, "ZERO_RESULTS") {
            Some(StatusCode::ZeroResults)
        } else if str_eq(label, "OVER_QUERY_LIMIT") {
            Some(StatusCode::OverQueryLimit)
        } else if str_eq(label, "REQUEST_DENIED") {
            Some(StatusCode::RequestDenied)
        } else if str_eq(label, "INVALID_REQUEST") {
            Some(StatusCode::InvalidRequest)
        } else if str_eq(label, "UNKNOWN_ERROR") {
            Some(StatusCode::UnknownError)
        } else {
            None
        }
    }
}

/// Two statuses with the same label are the same.
pub proof fn lemma_status_label_injective(a: StatusCode, b: StatusCode)
    requires
        a.label() == b.label(),
    ensures
        a == b,
{
    reveal_strlit("OK");
    reveal_strlit("ZERO_RESULTS");
    reveal_strlit("OVER_QUERY_LIMIT");
    reveal_strlit("REQUEST_DENIED");
    reveal_strlit("INVALID_REQUEST");
    reveal_strlit("UNKNOWN_ERROR");
    // The lengths tell most labels apart; one character settles the rest.
    assert("OK"@.len() == 2);
    assert("ZERO_RESULTS"@.len() == 12);
    assert("OVER_QUERY_LIMIT"@.len() == 16);
    assert("REQUEST_DENIED"@.len() == 14);
    assert("INVALID_REQUEST"@.len() == 15);
    assert("UNKNOWN_ERROR"@.len() == 13);
}

} // verus!
