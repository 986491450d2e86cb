//! The errors that loading and submitting tickets can end in.

use vstd::prelude::*;

verus! {

/// Every failure that aborts the processing of a ticket file.
#[derive(Debug)]
pub enum IssueError {
    /// The path does not name a readable file.
    FileNotFound,
    /// The file was opened but could not be read as text.
    FileReadError,
    /// The document does not have the parent/children shape.
    MalformedInput(String),
    /// No response, or a status outside 2xx; holds the server's text.
    RequestFailed(String),
    /// A 2xx response without the expected `issue` structure.
    ResponseParseError(String),
    /// The authorization token is absent.
    MissingCredential,
}

impl IssueError {
    /// A human-readable description of the error.
    pub fn message(&self) -> (r: String)
        ensures
            self is MalformedInput ==> r@ == self->MalformedInput_0@,
            self is RequestFailed ==> r@ == self->RequestFailed_0@,
            self is ResponseParseError ==> r@ == self->ResponseParseError_0@,
    {
        match self {
            IssueError::FileNotFound => "Could not find file".to_owned(),
            IssueError::FileReadError => "Could not read to string".to_owned(),
            IssueError::MalformedInput(m) => m.clone(),
            IssueError::RequestFailed(m) => m.clone(),
            IssueError::ResponseParseError(m) => m.clone(),
            IssueError::MissingCredential => "The authorization token is not set".to_owned(),
        }
    }
}

} // verus!
