//! What can go wrong in the service itself.

use vstd::prelude::*;

verus! {

/// What is said where the API key is missing.
pub const MISSING_API_KEY_TEXT: &'static str = "No Fauna API key!";

/// What is said where the backend's answer does not have the shape that the
/// operation calls for.
pub const MALFORMED_ANSWER_TEXT: &'static str = "The backend's answer is malformed";

/// A failure that ends the handling of a request. None of them can be
/// recovered from, and none is retried.
#[derive(Clone, Copy, Debug, PartialEq, Eq, Structural)]
pub enum Fault {
    /// The configuration holds no API key for the backend.
    MissingApiKey,
    /// The backend's answer does not have the shape that the operation
    /// calls for: a list where one product was asked for, or the other way
    /// round.
    MalformedAnswer,
}

impl Fault {
    /// The text that describes the failure.
    pub open spec fn text(self) -> Seq<char> {
        match self {
            Fault::MissingApiKey => MISSING_API_KEY_TEXT@,
            Fault::MalformedAnswer => MALFORMED_ANSWER_TEXT@,
        }
    }

    /// The text that describes the failure.
    pub fn message(&self) -> (message: String)
        ensures
            message@ == self.text(),
    {
        match self {
            Fault::MissingApiKey => MISSING_API_KEY_TEXT.to_owned(),
            Fault::MalformedAnswer => MALFORMED_ANSWER_TEXT.to_owned(),
        }
    }
}

} // verus!
