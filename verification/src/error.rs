//! The ways in which revealing a file fails.

use vstd::prelude::*;

verus! {

/// Why a file was not revealed.
#[derive(Clone, Debug, PartialEq, Eq)]
pub enum RevealError {
    /// The path names nothing on the filesystem.
    NotFound,
    /// The path has no parent directory that could be opened.
    NoParentDirectory,
    /// The operating system did not start the program. The text is the
    /// system's own description of what went wrong.
    SpawnFailed(String),
}

/// A [`RevealError`] as a mathematical value: the text of a spawn failure is
/// a sequence of characters.
pub enum RevealErrorView {
    NotFound,
    NoParentDirectory,
    SpawnFailed(Seq<char>),
}

impl View for RevealError {
    type V = RevealErrorView;

    open spec fn view(&self) -> RevealErrorView {
        match self {
            RevealError::NotFound => RevealErrorView::NotFound,
            RevealError::NoParentDirectory => RevealErrorView::NoParentDirectory,
            RevealError::SpawnFailed(reason) => RevealErrorView::SpawnFailed(reason@),
        }
    }
}

impl DeepView for RevealError {
    type V = RevealErrorView;

    open spec fn deep_view(&self) -> RevealErrorView {
        self.view()
    }
}

impl RevealErrorView {
    /// The sentence that tells a user about this error.
    pub open spec fn message(self) -> Seq<char> {
        match self {
            RevealErrorView::NotFound => "The specified file does not exist."@,
            RevealErrorView::NoParentDirectory => "File has no parent directory"@,
            RevealErrorView::SpawnFailed(reason) => reason,
        }
    }
}

impl RevealError {
    /// The sentence that tells a user about this error. For a spawn failure
    /// it is the operating system's text, unchanged.
    pub fn message(&self) -> (text: String)
        ensures
            text@ == self@.message(),
    {
        match self {
            RevealError::NotFound => "The specified file does not exist.".to_owned(),
            RevealError::NoParentDirectory => "File has no parent directory".to_owned(),
            RevealError::SpawnFailed(reason) => reason.clone(),
        }
    }
}

} // verus!
