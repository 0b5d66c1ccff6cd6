//! The failures that the clipboard context reports to its caller.

use vstd::prelude::*;

verus! {

/// A failure of a clipboard operation.
///
/// Empty-like conditions of the transport (no seats, an empty clipboard, no
/// text format on offer) never appear here: a read absorbs them.
#[derive(Debug, PartialEq, Eq)]
pub enum ClipboardError {
    /// The capability check at construction failed: there is no usable
    /// session. Carries the transport's description.
    EnvironmentUnavailable(String),
    /// The transport failed a paste, copy or clear request. Carries the
    /// transport's description.
    Transport(String),
    /// The byte stream of a paste could not be drained. Carries the
    /// description of the I/O failure.
    Stream(String),
    /// The pasted bytes are not valid UTF-8.
    InvalidUtf8,
}

/// What a [`ClipboardError`] stands for in contracts.
pub enum ErrorModel {
    EnvironmentUnavailable(Seq<char>),
    Transport(Seq<char>),
    Stream(Seq<char>),
    InvalidUtf8,
}

impl View for ClipboardError {
    type V = ErrorModel;

    open spec fn view(&self) -> ErrorModel {
        match self {
            ClipboardError::EnvironmentUnavailable(m) => ErrorModel::EnvironmentUnavailable(m@),
            ClipboardError::Transport(m) => ErrorModel::Transport(m@),
            ClipboardError::Stream(m) => ErrorModel::Stream(m@),
            ClipboardError::InvalidUtf8 => ErrorModel::InvalidUtf8,
        }
    }
}

/// The outcome of a read in contracts: the text, or the failure.
pub type TextModel = Result<Seq<char>, ErrorModel>;

/// The model of an executable read outcome.
pub open spec fn text_model(r: Result<String, ClipboardError>) -> TextModel {
    match r {
        Ok(s) => Ok(s@),
        Err(e) => Err(e@),
    }
}

/// The model of an executable outcome that carries no value.
pub open spec fn unit_model(r: Result<(), ClipboardError>) -> Result<(), ErrorModel> {
    match r {
        Ok(_) => Ok(()),
        Err(e) => Err(e@),
    }
}

} // verus!
