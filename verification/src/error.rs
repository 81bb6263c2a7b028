//! What can go wrong, as values that the caller can tell apart.

use vstd::prelude::*;
use crate::config::api::Api;

verus! {

/// Every failure of the library. None of them ends the process: the caller
/// decides what to print and how to exit.
#[derive(Clone, Debug, PartialEq, Eq)]
pub enum Error {
    /// Neither an explicit configuration directory nor a home directory is
    /// known.
    ConfigPathUnresolvable,
    /// A configuration file cannot be read as what it should hold; `detail`
    /// names the entry at fault, or carries the parser's message.
    ConfigParseError { detail: String },
    /// Neither the prompt nor the provider's configuration names a model,
    /// and the provider needs one.
    MissingModel { provider: Api },
    /// No message of the prompt holds the placeholder, and the caller asked
    /// for that to be an error.
    MissingPlaceholder,
    /// The provider's configuration has neither a key nor a command that
    /// prints one.
    NoCredentialConfigured,
    /// The command that should print the key failed or printed nothing.
    CredentialExecutionFailed,
    /// No request can be built for the provider.
    UnsupportedProvider { requested: Api, supported: Vec<Api> },
    /// The request did not lead to a successful answer.
    TransportError { status: Option<u16>, detail: String },
    /// The provider's answer lacks `field`, or holds something else there;
    /// `field` is empty where the answer as a whole is at fault.
    MalformedResponse { field: String },
}

/// What an `Error` holds, as mathematical values.
pub ghost enum ErrorView {
    ConfigPathUnresolvable,
    ConfigParseError { detail: Seq<char> },
    MissingModel { provider: Api },
    MissingPlaceholder,
    NoCredentialConfigured,
    CredentialExecutionFailed,
    UnsupportedProvider { requested: Api, supported: Seq<Api> },
    TransportError { status: Option<u16>, detail: Seq<char> },
    MalformedResponse { field: Seq<char> },
}

impl View for Error {
    type V = ErrorView;

    open spec fn view(&self) -> ErrorView {
        match self {
            Error::ConfigPathUnresolvable => ErrorView::ConfigPathUnresolvable,
            Error::ConfigParseError { detail } => ErrorView::ConfigParseError { detail: detail@ },
            Error::MissingModel { provider } => ErrorView::MissingModel { provider: *provider },
            Error::MissingPlaceholder => ErrorView::MissingPlaceholder,
            Error::NoCredentialConfigured => ErrorView::NoCredentialConfigured,
            Error::CredentialExecutionFailed => ErrorView::CredentialExecutionFailed,
            Error::UnsupportedProvider { requested, supported } => ErrorView::UnsupportedProvider {
                requested: *requested,
                supported: supported@,
            },
            Error::TransportError { status, detail } => ErrorView::TransportError {
                status: *status,
                detail: detail@,
            },
            Error::MalformedResponse { field } => ErrorView::MalformedResponse { field: field@ },
        }
    }
}

impl DeepView for Error {
    type V = ErrorView;

    open spec fn deep_view(&self) -> ErrorView {
        self@
    }
}

/// An outcome with both sides as mathematical values.
pub open spec fn view_result<T: View, E: View>(result: Result<T, E>) -> Result<T::V, E::V> {
    match result {
        Ok(value) => Ok(value@),
        Err(error) => Err(error@),
    }
}

} // verus!
