//! The response classifier: from a status code, and from what came of
//! reading or decoding a body, to a decoded value or a typed failure.

use vstd::prelude::*;

use super::error::{transport_detail, MbError, MbErrorView, MbResult};

verus! {

/// The four ways in which the client treats a status code.
#[derive(Debug, Clone, Copy, PartialEq, Eq, Structural)]
pub enum StatusClass {
    /// 200 to 299: the body holds the answer.
    Success,
    /// 404: the catalog has no such entity.
    NotFound,
    /// 503: the service is overloaded for the moment. The only class that
    /// is tried again.
    Overloaded,
    /// Any other status: a failure of the service, reported with its body.
    Failure,
}

/// The class of a status code.
pub open spec fn status_class(status: u16) -> StatusClass {
    if 200 <= status <= 299 {
        StatusClass::Success
    } else if status == 404 {
        StatusClass::NotFound
    } else if status == 503 {
        StatusClass::Overloaded
    } else {
        StatusClass::Failure
    }
}

/// Classifies a status code.
pub fn classify(status: u16) -> (class: StatusClass)
    ensures
        class == status_class(status),
{
    if 200 <= status && status <= 299 {
        StatusClass::Success
    } else if status == 404 {
        StatusClass::NotFound
    } else if status == 503 {
        StatusClass::Overloaded
    } else {
        StatusClass::Failure
    }
}

/// The failure for a successful response whose body could not be decoded,
/// given what the decoder says of it.
pub fn parse_failure(detail: &str) -> (failure: MbError)
    ensures
        failure@ == MbErrorView::ParseError("Failed to parse response: "@ + detail@),
{
    MbError::ParseError(String::from_str("Failed to parse response: ").concat(detail))
}

/// Concludes a successful response from what decoding its body gave: the
/// decoded value, or a parse failure that quotes the decoder.
pub fn decoded<T>(body: Result<T, reqwest::Error>) -> (outcome: MbResult<T>)
    ensures
        match body {
            Ok(value) => outcome == Ok::<T, MbError>(value),
            Err(_) => outcome matches Err(failure) && exists|detail: Seq<char>|
                failure@ == MbErrorView::ParseError("Failed to parse response: "@ + detail),
        },
{
    match body {
        Ok(value) => Ok(value),
        Err(e) => {
            let detail = transport_detail(&e);
            Err(parse_failure(detail.as_str()))
        },
    }
}

/// The failure for a response with a failure status other than 404 and 503,
/// given what reading its body gave. The message is the body as it came, or
/// `Unknown error` where it could not be read.
pub fn api_failure(status: u16, body: Result<String, reqwest::Error>) -> (failure: MbError)
    ensures
        failure@ == (MbErrorView::ApiError {
            status,
            message: match body {
                Ok(text) => text@,
                Err(_) => "Unknown error"@,
            },
        }),
{
    let message = match body {
        Ok(text) => text,
        Err(_) => String::from_str("Unknown error"),
    };
    MbError::ApiError { status, message }
}

} // verus!
