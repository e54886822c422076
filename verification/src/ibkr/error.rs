//! The failures of a session.

use vstd::prelude::*;
use vstd::string::StringExecFns;

verus! {

/// Why an operation on the session failed.
#[derive(Debug, Clone)]
pub enum IbkrError {
    /// An attempt to open a session was rejected or timed out.
    ConnectionFailed(String),
    /// The gateway reported a failure on a session that is open.
    ApiError(String),
    /// There is no session.
    NotConnected,
    /// The request cannot be made in this form.
    RequestFailed(String),
    /// A value could not be written or read.
    SerializationError(String),
    /// The work could not be handed over or did not come back.
    Unknown(String),
}

/// An [`IbkrError`] as plain values.
pub enum IbkrErrorView {
    ConnectionFailed(Seq<char>),
    ApiError(Seq<char>),
    NotConnected,
    RequestFailed(Seq<char>),
    SerializationError(Seq<char>),
    Unknown(Seq<char>),
}

impl View for IbkrError {
    type V = IbkrErrorView;

    open spec fn view(&self) -> IbkrErrorView {
        match self {
            IbkrError::ConnectionFailed(m) => IbkrErrorView::ConnectionFailed(m@),
            IbkrError::ApiError(m) => IbkrErrorView::ApiError(m@),
            IbkrError::NotConnected => IbkrErrorView::NotConnected,
            IbkrError::RequestFailed(m) => IbkrErrorView::RequestFailed(m@),
            IbkrError::SerializationError(m) => IbkrErrorView::SerializationError(m@),
            IbkrError::Unknown(m) => IbkrErrorView::Unknown(m@),
        }
    }
}

/// The error as one line for display.
pub open spec fn error_text(e: IbkrErrorView) -> Seq<char> {
    match e {
        IbkrErrorView::ConnectionFailed(m) => "Connection failed: "@ + m,
        IbkrErrorView::ApiError(m) => "API error: "@ + m,
        IbkrErrorView::NotConnected => "Not connected"@,
        IbkrErrorView::RequestFailed(m) => "Request failed: "@ + m,
        IbkrErrorView::SerializationError(m) => "Serialization error: "@ + m,
        IbkrErrorView::Unknown(m) => "Unknown error: "@ + m,
    }
}

impl IbkrError {
    /// The error as one line for display.
    pub fn to_string(&self) -> (r: String)
        ensures
            r@ == error_text(self@),
    {
        match self {
            IbkrError::ConnectionFailed(m) => String::from_str("Connection failed: ").concat(
                m.as_str(),
            ),
            IbkrError::ApiError(m) => String::from_str("API error: ").concat(m.as_str()),
            IbkrError::NotConnected => String::from_str("Not connected"),
            IbkrError::RequestFailed(m) => String::from_str("Request failed: ").concat(m.as_str()),
            IbkrError::SerializationError(m) => String::from_str("Serialization error: ").concat(
                m.as_str(),
            ),
            IbkrError::Unknown(m) => String::from_str("Unknown error: ").concat(m.as_str()),
        }
    }

    /// Whether this is the failure of an operation that found no session.
    pub fn is_not_connected(&self) -> (r: bool)
        ensures
            r == (self@ == IbkrErrorView::NotConnected),
    {
        match self {
            IbkrError::NotConnected => true,
            _ => false,
        }
    }
}

} // verus!
