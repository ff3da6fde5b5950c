//! The ways a run can fail, and the message each failure carries.

use vstd::prelude::*;

verus! {

/// The broad class of a failure.
#[derive(Clone, Copy, Debug, PartialEq, Eq, Structural)]
pub enum ErrorKind {
    /// A required argument is missing or empty.
    Argument,
    /// A path does not name what it has to name.
    Validation,
    /// The object-copy tool failed, or its diagnostics are not text.
    Conversion,
    /// A condition that the flow itself should have excluded.
    Internal,
    /// The file system or the process launcher reported an error.
    Io,
}

/// A failure of the run. Every failure is final: nothing is retried.
#[derive(Debug, PartialEq, Eq)]
pub enum CpyError {
    /// The argument called `name` was not given, or was given empty.
    MissingArgument { name: String },
    /// The output location is not an existing directory.
    OutputNotDirectory,
    /// The input is not an existing regular file.
    InputNotFile,
    /// The object-copy tool exited with a failure status; `stderr` is what
    /// it wrote to its error stream.
    ConversionFailed { stderr: String },
    /// The error stream of the object-copy tool is not UTF-8; `cause`
    /// describes where decoding stopped.
    StderrNotText { cause: String },
    /// The derived binary path has no final component.
    MissingFileName,
    /// An operation on a file or a process failed; `cause` is the
    /// description that the operating system gave.
    Io { cause: String },
    /// An event arrived that does not answer the pending action.
    UnexpectedEvent,
}

/// The mathematical value of a [`CpyError`]: the same variants over
/// character sequences.
pub enum CpyErrorView {
    MissingArgument { name: Seq<char> },
    OutputNotDirectory,
    InputNotFile,
    ConversionFailed { stderr: Seq<char> },
    StderrNotText { cause: Seq<char> },
    MissingFileName,
    Io { cause: Seq<char> },
    UnexpectedEvent,
}

impl View for CpyError {
    type V = CpyErrorView;

    open spec fn view(&self) -> CpyErrorView {
        match self {
            CpyError::MissingArgument { name } => CpyErrorView::MissingArgument { name: name@ },
            CpyError::OutputNotDirectory => CpyErrorView::OutputNotDirectory,
            CpyError::InputNotFile => CpyErrorView::InputNotFile,
            CpyError::ConversionFailed { stderr } => CpyErrorView::ConversionFailed {
                stderr: stderr@,
            },
            CpyError::StderrNotText { cause } => CpyErrorView::StderrNotText { cause: cause@ },
            CpyError::MissingFileName => CpyErrorView::MissingFileName,
            CpyError::Io { cause } => CpyErrorView::Io { cause: cause@ },
            CpyError::UnexpectedEvent => CpyErrorView::UnexpectedEvent,
        }
    }
}

/// The value of a text that may have failed to come about: the characters
/// of the text, or the value of the failure.
pub open spec fn text_or_error(result: Result<String, CpyError>) -> Result<
    Seq<char>,
    CpyErrorView,
> {
    match result {
        Ok(text) => Ok(text@),
        Err(error) => Err(error@),
    }
}

impl CpyErrorView {
    /// The class of the failure.
    pub open spec fn kind(self) -> ErrorKind {
        match self {
            CpyErrorView::MissingArgument { .. } => ErrorKind::Argument,
            CpyErrorView::OutputNotDirectory => ErrorKind::Validation,
            CpyErrorView::InputNotFile => ErrorKind::Validation,
            CpyErrorView::ConversionFailed { .. } => ErrorKind::Conversion,
            CpyErrorView::StderrNotText { .. } => ErrorKind::Conversion,
            CpyErrorView::MissingFileName => ErrorKind::Internal,
            CpyErrorView::Io { .. } => ErrorKind::Io,
            CpyErrorView::UnexpectedEvent => ErrorKind::Internal,
        }
    }

    /// The text shown to the user for the failure.
    pub open spec fn message(self) -> Seq<char> {
        match self {
            CpyErrorView::MissingArgument { name } => name + " is empty"@,
            CpyErrorView::OutputNotDirectory => "Output path must be a directory!"@,
            CpyErrorView::InputNotFile => "Input path must be a file!"@,
            CpyErrorView::ConversionFailed { stderr } => "Obj copy failed: "@ + stderr,
            CpyErrorView::StderrNotText { cause } => cause,
            CpyErrorView::MissingFileName => "Binary does not have a name"@,
            CpyErrorView::Io { cause } => cause,
            CpyErrorView::UnexpectedEvent => "Event does not answer the pending action"@,
        }
    }
}

impl CpyError {
    /// The class of the failure.
    pub fn kind(&self) -> (kind: ErrorKind)
        ensures
            kind == self@.kind(),
    {
        match self {
            CpyError::MissingArgument { .. } => ErrorKind::Argument,
            CpyError::OutputNotDirectory => ErrorKind::Validation,
            CpyError::InputNotFile => ErrorKind::Validation,
            CpyError::ConversionFailed { .. } => ErrorKind::Conversion,
            CpyError::StderrNotText { .. } => ErrorKind::Conversion,
            CpyError::MissingFileName => ErrorKind::Internal,
            CpyError::Io { .. } => ErrorKind::Io,
            CpyError::UnexpectedEvent => ErrorKind::Internal,
        }
    }

    /// The text shown to the user for the failure.
    pub fn message(&self) -> (text: String)
        ensures
            text@ == self@.message(),
    {
        match self {
            CpyError::MissingArgument { name } => {
                let mut text = name.clone();
                text.append(" is empty");
                text
            },
            CpyError::OutputNotDirectory => String::from_str("Output path must be a directory!"),
            CpyError::InputNotFile => String::from_str("Input path must be a file!"),
            CpyError::ConversionFailed { stderr } => {
                let mut text = String::from_str("Obj copy failed: ");
                text.append(stderr.as_str());
                text
            },
            CpyError::StderrNotText { cause } => cause.clone(),
            CpyError::MissingFileName => String::from_str("Binary does not have a name"),
            CpyError::Io { cause } => cause.clone(),
            CpyError::UnexpectedEvent => String::from_str(
                "Event does not answer the pending action",
            ),
        }
    }

}

impl Clone for CpyError {
    fn clone(&self) -> (copy: CpyError)
        ensures
            copy == *self,
    {
        match self {
            CpyError::MissingArgument { name } => CpyError::MissingArgument { name: name.clone() },
            CpyError::OutputNotDirectory => CpyError::OutputNotDirectory,
            CpyError::InputNotFile => CpyError::InputNotFile,
            CpyError::ConversionFailed { stderr } => CpyError::ConversionFailed {
                stderr: stderr.clone(),
            },
            CpyError::StderrNotText { cause } => CpyError::StderrNotText { cause: cause.clone() },
            CpyError::MissingFileName => CpyError::MissingFileName,
            CpyError::Io { cause } => CpyError::Io { cause: cause.clone() },
            CpyError::UnexpectedEvent => CpyError::UnexpectedEvent,
        }
    }
}

} // verus!
