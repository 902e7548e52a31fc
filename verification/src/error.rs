//! The one error type that every operation of the client reports.

use vstd::prelude::*;
use vstd::std_specs::convert::FromSpecImpl;
use vstd::string::*;

verus! {

/// A failure of the network exchange itself, as the transport describes it.
#[derive(Debug, PartialEq, Eq)]
pub struct TransportError {
    pub message: String,
}

/// Why an operation of the client failed.
#[derive(Debug)]
pub enum PixelaClientError {
    /// The exchange with the service failed before a response body was there.
    HttpClientError(TransportError),
    /// The response body has neither the shape of the service's result
    /// envelope nor that of the payload asked for.
    ResponseParseFailed(serde_json::Error),
    /// The service itself reported a failure, with this message.
    RequestNotSuccess(String),
}

/// An error as a mathematical value: its kind, and the text that came with
/// it from the transport or from the service.
pub enum ErrorModel {
    HttpClient(Seq<char>),
    ResponseParse,
    RequestNotSuccess(Seq<char>),
}

impl View for PixelaClientError {
    type V = ErrorModel;

    open spec fn view(&self) -> ErrorModel {
        match self {
            PixelaClientError::HttpClientError(error) => ErrorModel::HttpClient(error.message@),
            PixelaClientError::ResponseParseFailed(_) => ErrorModel::ResponseParse,
            PixelaClientError::RequestNotSuccess(message) => ErrorModel::RequestNotSuccess(
                message@,
            ),
        }
    }
}

/// A result as a mathematical value: the model of what was returned, or of
/// the error.
pub open spec fn outcome<T: DeepView>(result: Result<T, PixelaClientError>) -> Result<
    T::V,
    ErrorModel,
> {
    match result {
        Ok(value) => Ok(value.deep_view()),
        Err(error) => Err(error@),
    }
}

impl From<TransportError> for PixelaClientError {
    fn from(error: TransportError) -> (converted: Self) {
        PixelaClientError::HttpClientError(error)
    }
}

impl FromSpecImpl<TransportError> for PixelaClientError {
    open spec fn obeys_from_spec() -> bool {
        true
    }

    open spec fn from_spec(error: TransportError) -> Self {
        PixelaClientError::HttpClientError(error)
    }
}

impl From<serde_json::Error> for PixelaClientError {
    fn from(error: serde_json::Error) -> (converted: Self) {
        PixelaClientError::ResponseParseFailed(error)
    }
}

impl FromSpecImpl<serde_json::Error> for PixelaClientError {
    open spec fn obeys_from_spec() -> bool {
        true
    }

    open spec fn from_spec(error: serde_json::Error) -> Self {
        PixelaClientError::ResponseParseFailed(error)
    }
}

impl PixelaClientError {
    /// One line for a person to read: what failed, then the text that came
    /// with the failure.
    pub fn describe(&self) -> (text: String)
        ensures
            match self@ {
                ErrorModel::HttpClient(message) => text@ == "request failed: "@ + message,
                ErrorModel::ResponseParse => exists|detail: Seq<char>|
                    text@ == "failed parse json: "@ + detail,
                ErrorModel::RequestNotSuccess(message) => text@ == "request is not success: "@
                    + message,
            },
    {
        match self {
            PixelaClientError::HttpClientError(error) => {
                let mut text = String::from_str("request failed: ");
                text.append(error.message.as_str());
                text
            },
            PixelaClientError::ResponseParseFailed(error) => {
                let detail = error.to_string();
                let mut text = String::from_str("failed parse json: ");
                text.append(detail.as_str());
                text
            },
            PixelaClientError::RequestNotSuccess(message) => {
                let mut text = String::from_str("request is not success: ");
                text.append(message.as_str());
                text
            },
        }
    }
}

} // verus!
