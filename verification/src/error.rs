//! The failures that the launcher reports.

use vstd::prelude::*;

verus! {

/// Why an operation failed. Every variant carries the text shown to the user.
#[derive(Debug, PartialEq, Eq)]
pub enum BedrockError {
    /// The file system, or the user's data directory, could not be used.
    Io(String),
    /// Structured data was malformed.
    Parse(String),
    /// No record is stored under the identifier.
    NotFound(String),
    /// A helper script could not be run, or ended with a failure status.
    Script(String),
    /// Neither launch command started the game.
    Launch(String),
}

/// A `BedrockError` with its text as a sequence of characters.
pub enum ErrorView {
    Io(Seq<char>),
    Parse(Seq<char>),
    NotFound(Seq<char>),
    Script(Seq<char>),
    Launch(Seq<char>),
}

impl ErrorView {
    /// The text carried by the error, whatever its kind.
    pub open spec fn message(self) -> Seq<char> {
        match self {
            ErrorView::Io(m) => m,
            ErrorView::Parse(m) => m,
            ErrorView::NotFound(m) => m,
            ErrorView::Script(m) => m,
            ErrorView::Launch(m) => m,
        }
    }
}

impl View for BedrockError {
    type V = ErrorView;

    open spec fn view(&self) -> ErrorView {
        match self {
            BedrockError::Io(m) => ErrorView::Io(m@),
            BedrockError::Parse(m) => ErrorView::Parse(m@),
            BedrockError::NotFound(m) => ErrorView::NotFound(m@),
            BedrockError::Script(m) => ErrorView::Script(m@),
            BedrockError::Launch(m) => ErrorView::Launch(m@),
        }
    }
}

impl BedrockError {
    /// The text shown to the user.
    pub fn message(&self) -> (r: &String)
        ensures
            r@ == self@.message(),
    {
        match self {
            BedrockError::Io(m) => m,
            BedrockError::Parse(m) => m,
            BedrockError::NotFound(m) => m,
            BedrockError::Script(m) => m,
            BedrockError::Launch(m) => m,
        }
    }

    /// The text shown to the user, as an owned value.
    pub fn to_string(&self) -> (r: String)
        ensures
            r@ == self@.message(),
    {
        self.message().clone()
    }
}

/// An outcome without a payload, its error taken by its view.
pub open spec fn outcome_view(r: Result<(), BedrockError>) -> Result<(), ErrorView> {
    match r {
        Ok(()) => Ok(()),
        Err(e) => Err(e@),
    }
}

/// An outcome with its payload and its error taken by their views.
pub open spec fn viewed<T: View>(r: Result<T, BedrockError>) -> Result<T::V, ErrorView> {
    match r {
        Ok(v) => Ok(v@),
        Err(e) => Err(e@),
    }
}

/// An outcome that carries a text, as sequences of characters.
pub open spec fn text_outcome_view(r: Result<String, BedrockError>) -> Result<Seq<char>, ErrorView> {
    viewed(r)
}

} // verus!
