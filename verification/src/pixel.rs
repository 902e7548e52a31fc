//! Pixels: the quantity that a graph holds for one day.

use vstd::prelude::*;
use vstd::string::*;

use crate::endpoint;
use crate::error::{outcome, ErrorModel, PixelaClientError, TransportError};
use crate::http_client::{
    response_model, HeaderType, HttpClient, MethodType, RequestContext, RequestModel,
};
use crate::json::{json_document, json_string, parse, quote, shape_error, Json, JsonModel};
use crate::response::{
    document_of, envelope_in, exchange, payload_outcome, reported_failure, result_outcome,
};
use crate::Authentication;

verus! {

/// Data representing the quantity of each day.
#[derive(Debug, PartialEq, Eq)]
pub struct Pixel {
    /// The day of the quantity, as `yyyyMMdd`.
    pub date: String,
    /// The quantity, as the text of a number: digits with an optional
    /// leading minus for a graph of integers, with a decimal point and more
    /// digits for a graph of floats. The client sends the text as it is.
    pub quantity: String,
}

/// A pixel as a mathematical value.
pub struct PixelModel {
    pub date: Seq<char>,
    pub quantity: Seq<char>,
}

impl View for Pixel {
    type V = PixelModel;

    open spec fn view(&self) -> PixelModel {
        PixelModel { date: self.date@, quantity: self.quantity@ }
    }
}

impl DeepView for Pixel {
    type V = PixelModel;

    open spec fn deep_view(&self) -> PixelModel {
        self@
    }
}

/// The payload with which the service answers a request for one pixel: the
/// quantity, as the text that prints the number.
#[derive(Debug, PartialEq, Eq)]
pub struct PixelQuantity {
    pub quantity: String,
}

/// The JSON text of a pixel.
pub open spec fn pixel_json(pixel: PixelModel) -> Seq<char> {
    "{\"date\":"@ + json_string(pixel.date) + ",\"quantity\":"@ + json_string(pixel.quantity)
        + "}"@
}

/// The JSON text that sets the quantity of a pixel.
pub open spec fn quantity_json(quantity: Seq<char>) -> Seq<char> {
    "{\"quantity\":"@ + json_string(quantity) + "}"@
}

/// The quantity that a document holds: it is an object whose member
/// `quantity` is a number.
pub open spec fn quantity_of(doc: JsonModel) -> Option<Seq<char>> {
    match doc.member("quantity"@) {
        Some(JsonModel::Number(text)) => Some(text),
        _ => None,
    }
}

/// The pixel of `date` that a body which was read holds.
pub open spec fn pixel_in(document: Option<JsonModel>, date: Seq<char>) -> Option<PixelModel> {
    match document {
        Some(doc) => match quantity_of(doc) {
            Some(quantity) => Some(PixelModel { date, quantity }),
            None => None,
        },
        None => None,
    }
}

impl Pixel {
    /// The JSON text of this pixel: its date, then its quantity.
    pub fn to_json(&self) -> (text: String)
        ensures
            text@ == pixel_json(self@),
    {
        let mut text = String::from_str("{\"date\":");
        text.append(quote(self.date.as_str()).as_str());
        text.append(",\"quantity\":");
        text.append(quote(self.quantity.as_str()).as_str());
        text.append("}");
        text
    }
}

impl PixelQuantity {
    /// The quantity that `doc` holds, if it holds one.
    pub fn from_json(doc: &Json) -> (decoded: Option<PixelQuantity>)
        ensures
            match decoded {
                Some(payload) => quantity_of(doc@) == Some(payload.quantity@),
                None => quantity_of(doc@) is None,
            },
    {
        match doc.member("quantity") {
            Some(Json::Number(text)) => Some(PixelQuantity { quantity: text.clone() }),
            _ => None,
        }
    }
}

/// The request that records `pixel` in the graph `graph_id`.
pub open spec fn create_request_model(
    username: Seq<char>,
    token: Seq<char>,
    graph_id: Seq<char>,
    pixel: PixelModel,
) -> RequestModel {
    RequestModel {
        uri: endpoint::graph_url(username, graph_id),
        method: MethodType::Post,
        body: Some(pixel_json(pixel)),
        headers: Map::empty().insert(HeaderType::UserToken, token),
    }
}

/// The request that sets the quantity of the pixel of `pixel.date`.
pub open spec fn update_request_model(
    username: Seq<char>,
    token: Seq<char>,
    graph_id: Seq<char>,
    pixel: PixelModel,
) -> RequestModel {
    RequestModel {
        uri: endpoint::pixel_url(username, graph_id, pixel.date),
        method: MethodType::Put,
        body: Some(quantity_json(pixel.quantity)),
        headers: Map::empty().insert(HeaderType::UserToken, token),
    }
}

/// The request that deletes the pixel of `date`.
pub open spec fn delete_request_model(
    username: Seq<char>,
    token: Seq<char>,
    graph_id: Seq<char>,
    date: Seq<char>,
) -> RequestModel {
    RequestModel {
        uri: endpoint::pixel_url(username, graph_id, date),
        method: MethodType::Delete,
        body: None,
        headers: Map::empty().insert(HeaderType::UserToken, token),
    }
}

/// The request that asks for the pixel of `date`.
pub open spec fn get_request_model(
    username: Seq<char>,
    token: Seq<char>,
    graph_id: Seq<char>,
    date: Seq<char>,
) -> RequestModel {
    RequestModel {
        uri: endpoint::pixel_url(username, graph_id, date),
        method: MethodType::Get,
        body: None,
        headers: Map::empty().insert(HeaderType::UserToken, token),
    }
}

/// A request that changes today's pixel by one step: a `PUT` to `uri`
/// without a body, which declares its length of zero beside the token.
pub open spec fn step_request_model(uri: Seq<char>, token: Seq<char>) -> RequestModel {
    RequestModel {
        uri,
        method: MethodType::Put,
        body: None,
        headers: Map::empty().insert(HeaderType::UserToken, token).insert(
            HeaderType::ContentLength,
            "0"@,
        ),
    }
}

/// The request that increments today's pixel.
pub open spec fn increment_request_model(
    username: Seq<char>,
    token: Seq<char>,
    graph_id: Seq<char>,
) -> RequestModel {
    step_request_model(endpoint::increment_url(username, graph_id), token)
}

/// The request that decrements today's pixel.
pub open spec fn decrement_request_model(
    username: Seq<char>,
    token: Seq<char>,
    graph_id: Seq<char>,
) -> RequestModel {
    step_request_model(endpoint::decrement_url(username, graph_id), token)
}

/// A request that changes today's pixel by one step carries exactly two
/// headers, the token and a content length of `0`, and no body.
pub proof fn step_request_declares_empty_body(uri: Seq<char>, token: Seq<char>)
    ensures
        step_request_model(uri, token).body is None,
        step_request_model(uri, token).headers.dom() =~= set![
            HeaderType::UserToken,
            HeaderType::ContentLength,
        ],
        step_request_model(uri, token).headers[HeaderType::UserToken] == token,
        step_request_model(uri, token).headers[HeaderType::ContentLength] == "0"@,
{
}

/// The request that records `pixel` in the graph `graph_id`.
pub fn create_request(auth: &Authentication, graph_id: &str, pixel: &Pixel) -> (context:
    RequestContext)
    ensures
        context@ == create_request_model(auth.username@, auth.token@, graph_id@, pixel@),
{
    let body = pixel.to_json();
    let uri = endpoint::graph(auth.username.as_str(), graph_id);
    RequestContext::new(
        uri.as_str(),
        MethodType::Post,
        Some(body.as_str()),
        Some(auth.token.as_str()),
    )
}

/// The request that sets the quantity of the pixel of `pixel.date`.
pub fn update_request(auth: &Authentication, graph_id: &str, pixel: &Pixel) -> (context:
    RequestContext)
    ensures
        context@ == update_request_model(auth.username@, auth.token@, graph_id@, pixel@),
{
    let mut body = String::from_str("{\"quantity\":");
    body.append(quote(pixel.quantity.as_str()).as_str());
    body.append("}");
    let uri = endpoint::pixel(auth.username.as_str(), graph_id, pixel.date.as_str());
    RequestContext::new(
        uri.as_str(),
        MethodType::Put,
        Some(body.as_str()),
        Some(auth.token.as_str()),
    )
}

/// The request that deletes the pixel of `date`.
pub fn delete_request(auth: &Authentication, graph_id: &str, date: &str) -> (context:
    RequestContext)
    ensures
        context@ == delete_request_model(auth.username@, auth.token@, graph_id@, date@),
{
    let uri = endpoint::pixel(auth.username.as_str(), graph_id, date);
    RequestContext::new(uri.as_str(), MethodType::Delete, None, Some(auth.token.as_str()))
}

/// The request that asks for the pixel of `date`.
pub fn get_request(auth: &Authentication, graph_id: &str, date: &str) -> (context: RequestContext)
    ensures
        context@ == get_request_model(auth.username@, auth.token@, graph_id@, date@),
{
    let uri = endpoint::pixel(auth.username.as_str(), graph_id, date);
    RequestContext::new(uri.as_str(), MethodType::Get, None, Some(auth.token.as_str()))
}

/// A request that changes today's pixel by one step.
fn step_request(uri: &str, token: &str) -> (context: RequestContext)
    ensures
        context@ == step_request_model(uri@, token@),
{
    let mut context = RequestContext::new(uri, MethodType::Put, None, Some(token));
    context.insert_header(HeaderType::ContentLength, "0");
    context
}

/// The request that increments today's pixel.
pub fn increment_request(auth: &Authentication, graph_id: &str) -> (context: RequestContext)
    ensures
        context@ == increment_request_model(auth.username@, auth.token@, graph_id@),
{
    let uri = endpoint::increment(auth.username.as_str(), graph_id);
    step_request(uri.as_str(), auth.token.as_str())
}

/// The request that decrements today's pixel.
pub fn decrement_request(auth: &Authentication, graph_id: &str) -> (context: RequestContext)
    ensures
        context@ == decrement_request_model(auth.username@, auth.token@, graph_id@),
{
    let uri = endpoint::decrement(auth.username.as_str(), graph_id);
    step_request(uri.as_str(), auth.token.as_str())
}

/// The pixel of `date` from the body of the response, as it was read. A
/// body that holds an envelope reports a failure, whatever else it holds;
/// where the body was rejected, the failure holds the reader's own error.
pub fn read_pixel(parsed: Result<Json, serde_json::Error>, date: &str) -> (result: Result<
    Pixel,
    PixelaClientError,
>)
    ensures
        outcome(result) == payload_outcome(
            document_of(parsed),
            pixel_in(document_of(parsed), date@),
        ),
        parsed matches Err(error) ==> result == Err::<Pixel, PixelaClientError>(
            PixelaClientError::ResponseParseFailed(error),
        ),
{
    if let Some(failure) = reported_failure(&parsed) {
        return Err(failure);
    }
    match parsed {
        Ok(doc) => match PixelQuantity::from_json(&doc) {
            Some(payload) => Ok(Pixel { date: String::from_str(date), quantity: payload.quantity }),
            None => Err(PixelaClientError::ResponseParseFailed(shape_error("not a pixel quantity"))),
        },
        Err(error) => Err(PixelaClientError::from(error)),
    }
}

/// What the response to a request for the pixel of `date` means.
pub open spec fn pixel_outcome(response: Result<Seq<char>, Seq<char>>, date: Seq<char>) -> Result<
    PixelModel,
    ErrorModel,
> {
    match response {
        Ok(body) => payload_outcome(json_document(body), pixel_in(json_document(body), date)),
        Err(message) => Err(ErrorModel::HttpClient(message)),
    }
}

/// A response whose body holds an envelope never yields a pixel, even where
/// the body holds a quantity as well.
pub proof fn refused_pixel(body: Seq<char>, date: Seq<char>)
    requires
        envelope_in(json_document(body)) is Some,
    ensures
        pixel_outcome(Ok(body), date) == Err::<PixelModel, ErrorModel>(
            ErrorModel::RequestNotSuccess(envelope_in(json_document(body))->0.message),
        ),
{
}

/// The pixel of `date` from what the transport handed back.
pub fn pixel_response(response: Result<String, TransportError>, date: &str) -> (result: Result<
    Pixel,
    PixelaClientError,
>)
    ensures
        outcome(result) == pixel_outcome(response_model(response), date@),
{
    match response {
        Ok(body) => read_pixel(parse(body.as_str()), date),
        Err(error) => Err(PixelaClientError::from(error)),
    }
}

/// Records `pixel` in the graph `graph_id`.
pub fn create<T: HttpClient>(
    transport: &T,
    auth: &Authentication,
    graph_id: &str,
    pixel: &Pixel,
) -> (result: Result<(), PixelaClientError>)
    ensures
        exists|response: Result<Seq<char>, Seq<char>>|
            #[trigger] transport.answers(
                create_request_model(auth.username@, auth.token@, graph_id@, pixel@),
                response,
            ) && outcome(result) == result_outcome(response),
{
    let context = create_request(auth, graph_id, pixel);
    exchange(transport, &context)
}

/// Sets the quantity of the pixel that `graph_id` holds for `pixel.date`.
pub fn update<T: HttpClient>(
    transport: &T,
    auth: &Authentication,
    graph_id: &str,
    pixel: &Pixel,
) -> (result: Result<(), PixelaClientError>)
    ensures
        exists|response: Result<Seq<char>, Seq<char>>|
            #[trigger] transport.answers(
                update_request_model(auth.username@, auth.token@, graph_id@, pixel@),
                response,
            ) && outcome(result) == result_outcome(response),
{
    let context = update_request(auth, graph_id, pixel);
    exchange(transport, &context)
}

/// Deletes the pixel that `graph_id` holds for `date`.
pub fn delete<T: HttpClient>(
    transport: &T,
    auth: &Authentication,
    graph_id: &str,
    date: &str,
) -> (result: Result<(), PixelaClientError>)
    ensures
        exists|response: Result<Seq<char>, Seq<char>>|
            #[trigger] transport.answers(
                delete_request_model(auth.username@, auth.token@, graph_id@, date@),
                response,
            ) && outcome(result) == result_outcome(response),
{
    let context = delete_request(auth, graph_id, date);
    exchange(transport, &context)
}

/// Asks the service for the pixel that `graph_id` holds for `date`.
pub fn get<T: HttpClient>(transport: &T, auth: &Authentication, graph_id: &str, date: &str) -> (result:
    Result<Pixel, PixelaClientError>)
    ensures
        exists|response: Result<Seq<char>, Seq<char>>|
            #[trigger] transport.answers(
                get_request_model(auth.username@, auth.token@, graph_id@, date@),
                response,
            ) && outcome(result) == pixel_outcome(response, date@),
{
    let context = get_request(auth, graph_id, date);
    let response = transport.do_request(&context);
    pixel_response(response, date)
}

/// Increments today's pixel of `graph_id`.
pub fn increment<T: HttpClient>(transport: &T, auth: &Authentication, graph_id: &str) -> (result:
    Result<(), PixelaClientError>)
    ensures
        exists|response: Result<Seq<char>, Seq<char>>|
            #[trigger] transport.answers(
                increment_request_model(auth.username@, auth.token@, graph_id@),
                response,
            ) && outcome(result) == result_outcome(response),
{
    let context = increment_request(auth, graph_id);
    exchange(transport, &context)
}

/// Decrements today's pixel of `graph_id`.
pub fn decrement<T: HttpClient>(transport: &T, auth: &Authentication, graph_id: &str) -> (result:
    Result<(), PixelaClientError>)
    ensures
        exists|response: Result<Seq<char>, Seq<char>>|
            #[trigger] transport.answers(
                decrement_request_model(auth.username@, auth.token@, graph_id@),
                response,
            ) && outcome(result) == result_outcome(response),
{
    let context = decrement_request(auth, graph_id);
    exchange(transport, &context)
}

} // verus!
