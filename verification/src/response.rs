//! Reading a response body: the service's result envelope, and the rule by
//! which an envelope takes precedence over any payload.

use vstd::prelude::*;
use vstd::string::*;

use crate::error::{outcome, ErrorModel, PixelaClientError, TransportError};
use crate::http_client::{response_model, HttpClient, RequestContext};
use crate::json::{json_document, parse, shape_error, Json, JsonModel};

verus! {

/// The envelope in which the service reports the outcome of an operation
/// that returns no payload, and the failure of any operation.
#[derive(Debug, PartialEq, Eq)]
pub struct ApiRequestResult {
    pub message: String,
    pub is_success: bool,
}

/// An envelope as a mathematical value.
pub struct EnvelopeModel {
    pub message: Seq<char>,
    pub is_success: bool,
}

impl View for ApiRequestResult {
    type V = EnvelopeModel;

    open spec fn view(&self) -> EnvelopeModel {
        EnvelopeModel { message: self.message@, is_success: self.is_success }
    }
}

/// The envelope that a document holds: it is an object whose member
/// `message` is a string and whose member `isSuccess` is a boolean. Other
/// members do not matter.
pub open spec fn envelope_of(doc: JsonModel) -> Option<EnvelopeModel> {
    match (doc.member("message"@), doc.member("isSuccess"@)) {
        (Some(JsonModel::Text(message)), Some(JsonModel::Bool(is_success))) => Some(
            EnvelopeModel { message, is_success },
        ),
        _ => None,
    }
}

/// The envelope of a body that was read, if it was accepted and holds one.
pub open spec fn envelope_in(document: Option<JsonModel>) -> Option<EnvelopeModel> {
    match document {
        Some(doc) => envelope_of(doc),
        None => None,
    }
}

/// What a body means where no payload is expected: success, the failure
/// that the envelope reports, or a body that is no envelope.
pub open spec fn envelope_outcome(document: Option<JsonModel>) -> Result<(), ErrorModel> {
    match envelope_in(document) {
        Some(envelope) => if envelope.is_success {
            Ok(())
        } else {
            Err(ErrorModel::RequestNotSuccess(envelope.message))
        },
        None => Err(ErrorModel::ResponseParse),
    }
}

/// What a body means where a payload is expected. An envelope counts as the
/// service's report of a failure whatever else the body holds, and whatever
/// the envelope says of success; only a body without one is read as
/// `payload`.
pub open spec fn payload_outcome<P>(document: Option<JsonModel>, payload: Option<P>) -> Result<
    P,
    ErrorModel,
> {
    match envelope_in(document) {
        Some(envelope) => Err(ErrorModel::RequestNotSuccess(envelope.message)),
        None => match payload {
            Some(p) => Ok(p),
            None => Err(ErrorModel::ResponseParse),
        },
    }
}

/// A body that holds an envelope never yields a payload: it reports the
/// failure that the envelope speaks of, whatever the envelope says of
/// success and whether or not the body could also be read as the payload.
pub proof fn envelope_takes_precedence<P>(document: Option<JsonModel>, payload: Option<P>)
    requires
        envelope_in(document) is Some,
    ensures
        payload_outcome(document, payload) == Err::<P, ErrorModel>(
            ErrorModel::RequestNotSuccess(envelope_in(document)->0.message),
        ),
{
}

/// A body without an envelope is read as the payload alone: the payload
/// where it is there, a parse failure where it is not.
pub proof fn payload_without_envelope<P>(document: Option<JsonModel>, payload: Option<P>)
    requires
        envelope_in(document) is None,
    ensures
        payload_outcome(document, payload) == match payload {
            Some(p) => Ok::<P, ErrorModel>(p),
            None => Err::<P, ErrorModel>(ErrorModel::ResponseParse),
        },
{
}

/// A failure that a body reports where no payload is expected, it reports
/// in the same words where one is.
pub proof fn failure_is_uniform<P>(
    document: Option<JsonModel>,
    payload: Option<P>,
    message: Seq<char>,
)
    requires
        envelope_outcome(document) == Err::<(), ErrorModel>(ErrorModel::RequestNotSuccess(message)),
    ensures
        payload_outcome(document, payload) == Err::<P, ErrorModel>(
            ErrorModel::RequestNotSuccess(message),
        ),
{
}

/// The document of a body that was read; `None` of a rejected body.
pub open spec fn document_of(parsed: Result<Json, serde_json::Error>) -> Option<JsonModel> {
    match parsed {
        Ok(doc) => Some(doc@),
        Err(_) => None,
    }
}

impl ApiRequestResult {
    /// The envelope that `doc` holds, if it holds one.
    pub fn from_json(doc: &Json) -> (decoded: Option<ApiRequestResult>)
        ensures
            match decoded {
                Some(envelope) => envelope_of(doc@) == Some(envelope@),
                None => envelope_of(doc@) is None,
            },
    {
        match (doc.member("message"), doc.member("isSuccess")) {
            (Some(Json::Text(message)), Some(Json::Bool(is_success))) => Some(
                ApiRequestResult { message: message.clone(), is_success: *is_success },
            ),
            _ => None,
        }
    }
}

/// The failure that a body reports by holding an envelope, for an operation
/// that expects a payload.
pub fn reported_failure(parsed: &Result<Json, serde_json::Error>) -> (failure: Option<
    PixelaClientError,
>)
    ensures
        match failure {
            Some(error) => envelope_in(document_of(*parsed)) is Some && error@
                == ErrorModel::RequestNotSuccess(envelope_in(document_of(*parsed))->0.message),
            None => envelope_in(document_of(*parsed)) is None,
        },
{
    match parsed {
        Ok(doc) => match ApiRequestResult::from_json(doc) {
            Some(envelope) => Some(PixelaClientError::RequestNotSuccess(envelope.message)),
            None => None,
        },
        Err(_) => None,
    }
}

/// The outcome of an operation without payload, from its body as it was
/// read. Where the body was rejected, the failure holds the reader's own
/// error.
pub fn read_result(parsed: Result<Json, serde_json::Error>) -> (result: Result<
    (),
    PixelaClientError,
>)
    ensures
        outcome(result) == envelope_outcome(document_of(parsed)),
        parsed matches Err(error) ==> result == Err::<(), PixelaClientError>(
            PixelaClientError::ResponseParseFailed(error),
        ),
{
    match parsed {
        Ok(doc) => match ApiRequestResult::from_json(&doc) {
            Some(envelope) => {
                if envelope.is_success {
                    Ok(())
                } else {
                    Err(PixelaClientError::RequestNotSuccess(envelope.message))
                }
            },
            None => Err(
                PixelaClientError::ResponseParseFailed(shape_error("not a result envelope")),
            ),
        },
        Err(error) => Err(PixelaClientError::from(error)),
    }
}

/// The outcome of an operation without payload, from its response body.
pub fn build_result(json: &str) -> (result: Result<(), PixelaClientError>)
    ensures
        outcome(result) == envelope_outcome(json_document(json@)),
{
    read_result(parse(json))
}

/// What the response to a request without payload means: the failure of the
/// transport, or what the body means.
pub open spec fn result_outcome(response: Result<Seq<char>, Seq<char>>) -> Result<(), ErrorModel> {
    match response {
        Ok(body) => envelope_outcome(json_document(body)),
        Err(message) => Err(ErrorModel::HttpClient(message)),
    }
}

/// The outcome of an operation without payload, from what the transport
/// handed back.
pub fn result_response(response: Result<String, TransportError>) -> (result: Result<
    (),
    PixelaClientError,
>)
    ensures
        outcome(result) == result_outcome(response_model(response)),
{
    match response {
        Ok(body) => build_result(body.as_str()),
        Err(error) => Err(PixelaClientError::from(error)),
    }
}

/// Hands `context` to the transport and reads the response as the outcome
/// of an operation without payload.
pub fn exchange<T: HttpClient>(transport: &T, context: &RequestContext) -> (result: Result<
    (),
    PixelaClientError,
>)
    ensures
        exists|response: Result<Seq<char>, Seq<char>>|
            #[trigger] transport.answers(context@, response) && outcome(result) == result_outcome(
                response,
            ),
{
    let response = transport.do_request(context);
    result_response(response)
}

} // verus!
