//! The errors that decoding and the conversation engine report.

use vstd::prelude::*;

verus! {

/// What can go wrong between the service and the caller.
#[derive(Debug, PartialEq, Eq)]
pub enum Error {
    /// The transport failed; the text is the transport's own account.
    TransportError(String),
    /// Something received or stored could not be read.
    ParsingError(String),
    /// The service answered with an error of its own.
    BackendError { message: String, error_type: String },
}

/// What an [`Error`] holds.
pub enum ErrorView {
    TransportError(Seq<char>),
    ParsingError(Seq<char>),
    BackendError { message: Seq<char>, error_type: Seq<char> },
}

impl View for Error {
    type V = ErrorView;

    open spec fn view(&self) -> ErrorView {
        match self {
            Error::TransportError(text) => ErrorView::TransportError(text@),
            Error::ParsingError(text) => ErrorView::ParsingError(text@),
            Error::BackendError { message, error_type } => ErrorView::BackendError {
                message: message@,
                error_type: error_type@,
            },
        }
    }
}

/// The text that describes an error to a reader.
pub open spec fn error_text(error: ErrorView) -> Seq<char> {
    match error {
        ErrorView::TransportError(text) => "Transport error: "@ + text,
        ErrorView::ParsingError(text) => "Error while parsing: "@ + text,
        ErrorView::BackendError { message, error_type } => "Backend error ("@ + error_type
            + "): "@ + message,
    }
}

impl Clone for Error {
    fn clone(&self) -> (copy: Self)
        ensures
            copy@ == self@,
    {
        match self {
            Error::TransportError(text) => Error::TransportError(text.clone()),
            Error::ParsingError(text) => Error::ParsingError(text.clone()),
            Error::BackendError { message, error_type } => Error::BackendError {
                message: message.clone(),
                error_type: error_type.clone(),
            },
        }
    }
}

impl Error {
    /// Describes the error in one line.
    pub fn describe(&self) -> (text: String)
        ensures
            text@ == error_text(self@),
    {
        match self {
            Error::TransportError(detail) => "Transport error: ".to_owned().concat(
                detail.as_str(),
            ),
            Error::ParsingError(detail) => "Error while parsing: ".to_owned().concat(
                detail.as_str(),
            ),
            Error::BackendError { message, error_type } => "Backend error (".to_owned().concat(
                error_type.as_str(),
            ).concat("): ").concat(message.as_str()),
        }
    }
}

} // verus!
