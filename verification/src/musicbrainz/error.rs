//! The failures that an operation of the client can end in.

use vstd::prelude::*;
use vstd::std_specs::convert::FromSpecImpl;

use super::text::{decimal_text, push_decimal};

verus! {

#[verifier::external_type_specification]
#[verifier::external_body]
pub struct ExTransportError(reqwest::Error);

/// A failure of a catalog operation. Every one of them is final: the client
/// reports it and substitutes nothing.
#[derive(Debug)]
pub enum MbError {
    /// The transport failed: no connection, no name, no answer in time.
    Request(reqwest::Error),
    /// The service kept answering that it is overloaded.
    RateLimited,
    /// The service knows nothing under the requested address.
    NotFound(String),
    /// A text that should be a catalog identifier is none.
    InvalidMbid(String),
    /// The service answered with success, and the body is not what the
    /// operation expects.
    ParseError(String),
    /// The service answered with another failure status.
    ApiError { status: u16, message: String },
}

/// The result of a catalog operation.
pub type MbResult<T> = Result<T, MbError>;

/// A failure with its texts as sequences of characters.
pub enum MbErrorView {
    Request(reqwest::Error),
    RateLimited,
    NotFound(Seq<char>),
    InvalidMbid(Seq<char>),
    ParseError(Seq<char>),
    ApiError { status: u16, message: Seq<char> },
}

impl MbErrorView {
    /// The message of a failure. `detail` is what the transport says of its
    /// own failure; the other failures do not look at it.
    pub open spec fn message(self, detail: Seq<char>) -> Seq<char> {
        match self {
            MbErrorView::Request(_) => "HTTP request error: "@ + detail,
            MbErrorView::RateLimited => "Rate limited by MusicBrainz API"@,
            MbErrorView::NotFound(what) => "Resource not found: "@ + what,
            MbErrorView::InvalidMbid(what) => "Invalid MBID format: "@ + what,
            MbErrorView::ParseError(what) => "API response parse error: "@ + what,
            MbErrorView::ApiError { status, message } => "API error: "@ + decimal_text(
                status as nat,
            ) + " - "@ + message,
        }
    }
}

impl View for MbError {
    type V = MbErrorView;

    open spec fn view(&self) -> MbErrorView {
        match self {
            MbError::Request(e) => MbErrorView::Request(*e),
            MbError::RateLimited => MbErrorView::RateLimited,
            MbError::NotFound(what) => MbErrorView::NotFound(what@),
            MbError::InvalidMbid(what) => MbErrorView::InvalidMbid(what@),
            MbError::ParseError(what) => MbErrorView::ParseError(what@),
            MbError::ApiError { status, message } => MbErrorView::ApiError {
                status: *status,
                message: message@,
            },
        }
    }
}

impl From<reqwest::Error> for MbError {
    fn from(e: reqwest::Error) -> (failure: MbError) {
        MbError::Request(e)
    }
}

impl FromSpecImpl<reqwest::Error> for MbError {
    open spec fn obeys_from_spec() -> bool {
        true
    }

    open spec fn from_spec(e: reqwest::Error) -> MbError {
        MbError::Request(e)
    }
}

/// What a transport failure says of itself, through `reqwest::Error`'s
/// `Display`.
///
/// Trusted: nothing is claimed of the text.
#[verifier::external_body]
pub(crate) fn transport_detail(e: &reqwest::Error) -> (detail: String) {
    e.to_string()
}

impl MbError {
    /// The message of a failure, given what the transport says of its own
    /// failure.
    pub fn message_with(&self, detail: &str) -> (message: String)
        ensures
            message@ == self@.message(detail@),
    {
        match self {
            MbError::Request(_) => String::from_str("HTTP request error: ").concat(detail),
            MbError::RateLimited => String::from_str("Rate limited by MusicBrainz API"),
            MbError::NotFound(what) => String::from_str("Resource not found: ").concat(
                what.as_str(),
            ),
            MbError::InvalidMbid(what) => String::from_str("Invalid MBID format: ").concat(
                what.as_str(),
            ),
            MbError::ParseError(what) => String::from_str("API response parse error: ").concat(
                what.as_str(),
            ),
            MbError::ApiError { status, message } => {
                let mut text = String::from_str("API error: ");
                push_decimal(&mut text, *status as u64);
                text.append(" - ");
                text.append(message.as_str());
                text
            },
        }
    }

    /// The message of a failure. For a transport failure it ends in what the
    /// transport says of it, for every other failure it is fixed by the
    /// failure alone.
    pub fn message(&self) -> (message: String)
        ensures
            exists|detail: Seq<char>| message@ == self@.message(detail),
            !(self@ is Request) ==> message@ == self@.message(Seq::empty()),
    {
        match self {
            MbError::Request(e) => {
                let detail = transport_detail(e);
                self.message_with(detail.as_str())
            },
            _ => self.message_with(""),
        }
    }
}

} // verus!
