//! Graphs: their definition, its JSON form, and the operations on them.

use vstd::prelude::*;
use vstd::string::*;

use crate::endpoint;
use crate::error::{outcome, ErrorModel, PixelaClientError, TransportError};
use crate::http_client::{
    response_model, HeaderType, HttpClient, MethodType, RequestContext, RequestModel,
};
use crate::json::{
    json_document, json_string, parse, quote, same_text, shape_error, Json, JsonModel,
};
use crate::response::{
    document_of, envelope_in, exchange, payload_outcome, reported_failure, result_outcome,
};
use crate::Authentication;

verus! {

/// It is the type of quantity to be handled in the graph.
#[derive(Clone, Copy, Debug, PartialEq, Eq, Structural)]
pub enum GraphType {
    Int,
    Float,
}

/// Defines the display color of the pixel in the pixelation graph.
#[derive(Clone, Copy, Debug, PartialEq, Eq, Structural)]
pub enum GraphColor {
    Shibafu,
    Emoji,
    Sora,
    Ichou,
    Ajisai,
    Kuro,
}

impl GraphType {
    /// The word that stands for a type on the wire.
    pub open spec fn token_spec(self) -> Seq<char> {
        match self {
            GraphType::Int => "int"@,
            GraphType::Float => "float"@,
        }
    }

    /// The type that a word of the wire stands for.
    pub open spec fn of_token(token: Seq<char>) -> Option<GraphType> {
        if token == "int"@ {
            Some(GraphType::Int)
        } else if token == "float"@ {
            Some(GraphType::Float)
        } else {
            None
        }
    }

    /// The JSON text of a type: its word as a string literal.
    pub open spec fn json_spec(self) -> Seq<char> {
        match self {
            GraphType::Int => "\"int\""@,
            GraphType::Float => "\"float\""@,
        }
    }

    /// The type that `token` stands for, if it is the word of one.
    pub fn from_token(token: &str) -> (decoded: Option<GraphType>)
        ensures
            decoded == GraphType::of_token(token@),
    {
        if same_text(token, "int") {
            Some(GraphType::Int)
        } else if same_text(token, "float") {
            Some(GraphType::Float)
        } else {
            None
        }
    }

    /// The JSON text of this type.
    pub fn to_json(self) -> (text: &'static str)
        ensures
            text@ == self.json_spec(),
    {
        match self {
            GraphType::Int => "\"int\"",
            GraphType::Float => "\"float\"",
        }
    }
}

impl GraphColor {
    /// The word that stands for a color on the wire.
    pub open spec fn token_spec(self) -> Seq<char> {
        match self {
            GraphColor::Shibafu => "shibafu"@,
            GraphColor::Emoji => "emoji"@,
            GraphColor::Sora => "sora"@,
            GraphColor::Ichou => "ichou"@,
            GraphColor::Ajisai => "ajisai"@,
            GraphColor::Kuro => "kuro"@,
        }
    }

    /// The color that a word of the wire stands for.
    pub open spec fn of_token(token: Seq<char>) -> Option<GraphColor> {
        if token == "shibafu"@ {
            Some(GraphColor::Shibafu)
        } else if token == "emoji"@ {
            Some(GraphColor::Emoji)
        } else if token == "sora"@ {
            Some(GraphColor::Sora)
        } else if token == "ichou"@ {
            Some(GraphColor::Ichou)
        } else if token == "ajisai"@ {
            Some(GraphColor::Ajisai)
        } else if token == "kuro"@ {
            Some(GraphColor::Kuro)
        } else {
            None
        }
    }

    /// The JSON text of a color: its word as a string literal.
    pub open spec fn json_spec(self) -> Seq<char> {
        match self {
            GraphColor::Shibafu => "\"shibafu\""@,
            GraphColor::Emoji => "\"emoji\""@,
            GraphColor::Sora => "\"sora\""@,
            GraphColor::Ichou => "\"ichou\""@,
            GraphColor::Ajisai => "\"ajisai\""@,
            GraphColor::Kuro => "\"kuro\""@,
        }
    }

    /// The color that `token` stands for, if it is the word of one.
    pub fn from_token(token: &str) -> (decoded: Option<GraphColor>)
        ensures
            decoded == GraphColor::of_token(token@),
    {
        if same_text(token, "shibafu") {
            Some(GraphColor::Shibafu)
        } else if same_text(token, "emoji") {
            Some(GraphColor::Emoji)
        } else if same_text(token, "sora") {
            Some(GraphColor::Sora)
        } else if same_text(token, "ichou") {
            Some(GraphColor::Ichou)
        } else if same_text(token, "ajisai") {
            Some(GraphColor::Ajisai)
        } else if same_text(token, "kuro") {
            Some(GraphColor::Kuro)
        } else {
            None
        }
    }

    /// The JSON text of this color.
    pub fn to_json(self) -> (text: &'static str)
        ensures
            text@ == self.json_spec(),
    {
        match self {
            GraphColor::Shibafu => "\"shibafu\"",
            GraphColor::Emoji => "\"emoji\"",
            GraphColor::Sora => "\"sora\"",
            GraphColor::Ichou => "\"ichou\"",
            GraphColor::Ajisai => "\"ajisai\"",
            GraphColor::Kuro => "\"kuro\"",
        }
    }
}

/// Each type is read back from its own word, and its JSON text is that word
/// in quotes.
pub proof fn graph_type_round_trip(graph_type: GraphType)
    ensures
        GraphType::of_token(graph_type.token_spec()) == Some(graph_type),
        graph_type.json_spec() == "\""@ + graph_type.token_spec() + "\""@,
{
    reveal_strlit("int");
    reveal_strlit("float");
    reveal_strlit("\"int\"");
    reveal_strlit("\"float\"");
    reveal_strlit("\"");
    assert(graph_type.json_spec() =~= "\""@ + graph_type.token_spec() + "\""@);
}

/// Each color is read back from its own word, and its JSON text is that
/// word in quotes.
pub proof fn graph_color_round_trip(color: GraphColor)
    ensures
        GraphColor::of_token(color.token_spec()) == Some(color),
        color.json_spec() == "\""@ + color.token_spec() + "\""@,
{
    reveal_strlit("shibafu");
    reveal_strlit("emoji");
    reveal_strlit("sora");
    reveal_strlit("ichou");
    reveal_strlit("ajisai");
    reveal_strlit("kuro");
    reveal_strlit("\"shibafu\"");
    reveal_strlit("\"emoji\"");
    reveal_strlit("\"sora\"");
    reveal_strlit("\"ichou\"");
    reveal_strlit("\"ajisai\"");
    reveal_strlit("\"kuro\"");
    reveal_strlit("\"");
    assert("shibafu"@.len() == 7 && "ajisai"@.len() == 6);
    assert("emoji"@.len() == 5 && "emoji"@[0] == 'e');
    assert("ichou"@.len() == 5 && "ichou"@[0] == 'i');
    assert("sora"@.len() == 4 && "sora"@[0] == 's');
    assert("kuro"@.len() == 4 && "kuro"@[0] == 'k');
    assert(color.json_spec() =~= "\""@ + color.token_spec() + "\""@);
}

/// Graph definition in Pixela.
#[derive(Debug, PartialEq, Eq)]
pub struct Graph {
    /// It is an ID for identifying the pixelation graph. The service asks
    /// for a lower-case letter followed by up to sixteen lower-case
    /// letters, digits and hyphens; the client sends the text as it is.
    pub id: String,
    /// It is the name of the pixelation graph.
    pub name: String,
    /// It is a unit of the quantity recorded in the pixelation graph.
    pub unit: String,
    /// It is the type of quantity to be handled in the graph.
    pub graph_type: GraphType,
    /// Defines the display color of the pixel in the pixelation graph.
    pub color: GraphColor,
}

/// A graph definition as a mathematical value.
pub struct GraphModel {
    pub id: Seq<char>,
    pub name: Seq<char>,
    pub unit: Seq<char>,
    pub graph_type: GraphType,
    pub color: GraphColor,
}

impl View for Graph {
    type V = GraphModel;

    open spec fn view(&self) -> GraphModel {
        GraphModel {
            id: self.id@,
            name: self.name@,
            unit: self.unit@,
            graph_type: self.graph_type,
            color: self.color,
        }
    }
}

impl DeepView for Graph {
    type V = GraphModel;

    open spec fn deep_view(&self) -> GraphModel {
        self@
    }
}

/// What of a graph definition can be changed after its creation.
#[derive(Debug, PartialEq, Eq)]
pub struct UpdateGraphParam {
    pub name: String,
    pub unit: String,
    pub color: GraphColor,
}

/// An update of a graph definition as a mathematical value.
pub struct UpdateGraphModel {
    pub name: Seq<char>,
    pub unit: Seq<char>,
    pub color: GraphColor,
}

impl View for UpdateGraphParam {
    type V = UpdateGraphModel;

    open spec fn view(&self) -> UpdateGraphModel {
        UpdateGraphModel { name: self.name@, unit: self.unit@, color: self.color }
    }
}

/// The payload with which the service answers a request for all graphs.
#[derive(Debug, PartialEq, Eq)]
pub struct GraphDefinitions {
    pub graphs: Vec<Graph>,
}

/// The JSON text of a graph definition: its members in the order `id`,
/// `name`, `unit`, `type`, `color`.
pub open spec fn graph_json(graph: GraphModel) -> Seq<char> {
    "{\"id\":"@ + json_string(graph.id) + ",\"name\":"@ + json_string(graph.name) + ",\"unit\":"@
        + json_string(graph.unit) + ",\"type\":"@ + graph.graph_type.json_spec() + ",\"color\":"@
        + graph.color.json_spec() + "}"@
}

/// The JSON text of an update: its members in the order `name`, `unit`,
/// `color`.
pub open spec fn update_json(param: UpdateGraphModel) -> Seq<char> {
    "{\"name\":"@ + json_string(param.name) + ",\"unit\":"@ + json_string(param.unit)
        + ",\"color\":"@ + param.color.json_spec() + "}"@
}

/// The graph definition that a document holds: it is an object whose
/// members `id`, `name` and `unit` are strings, whose member `type` is the
/// word of a type and whose member `color` is the word of a color.
pub open spec fn graph_of(doc: JsonModel) -> Option<GraphModel> {
    match (
        doc.member("id"@),
        doc.member("name"@),
        doc.member("unit"@),
        doc.member("type"@),
        doc.member("color"@),
    ) {
        (
            Some(JsonModel::Text(id)),
            Some(JsonModel::Text(name)),
            Some(JsonModel::Text(unit)),
            Some(JsonModel::Text(type_token)),
            Some(JsonModel::Text(color_token)),
        ) => match (GraphType::of_token(type_token), GraphColor::of_token(color_token)) {
            (Some(graph_type), Some(color)) => Some(GraphModel { id, name, unit, graph_type, color }),
            _ => None,
        },
        _ => None,
    }
}

/// The graph definitions that a document holds: it is an object whose
/// member `graphs` is an array, each item of which holds a graph definition.
pub open spec fn graphs_of(doc: JsonModel) -> Option<Seq<GraphModel>> {
    match doc.member("graphs"@) {
        Some(JsonModel::Array(items)) => if forall|i: int|
            0 <= i < items.len() ==> (#[trigger] graph_of(items[i])) is Some {
            Some(Seq::new(items.len(), |i: int| graph_of(items[i])->0))
        } else {
            None
        },
        _ => None,
    }
}

/// The graph definitions that a body which was read holds.
pub open spec fn graphs_in(document: Option<JsonModel>) -> Option<Seq<GraphModel>> {
    match document {
        Some(doc) => graphs_of(doc),
        None => None,
    }
}

impl Graph {
    /// The JSON text of this graph definition.
    pub fn to_json(&self) -> (text: String)
        ensures
            text@ == graph_json(self@),
    {
        let mut text = String::from_str("{\"id\":");
        text.append(quote(self.id.as_str()).as_str());
        text.append(",\"name\":");
        text.append(quote(self.name.as_str()).as_str());
        text.append(",\"unit\":");
        text.append(quote(self.unit.as_str()).as_str());
        text.append(",\"type\":");
        text.append(self.graph_type.to_json());
        text.append(",\"color\":");
        text.append(self.color.to_json());
        text.append("}");
        text
    }

    /// The graph definition that `doc` holds, if it holds one.
    pub fn from_json(doc: &Json) -> (decoded: Option<Graph>)
        ensures
            match decoded {
                Some(graph) => graph_of(doc@) == Some(graph@),
                None => graph_of(doc@) is None,
            },
    {
        match (
            doc.member("id"),
            doc.member("name"),
            doc.member("unit"),
            doc.member("type"),
            doc.member("color"),
        ) {
            (
                Some(Json::Text(id)),
                Some(Json::Text(name)),
                Some(Json::Text(unit)),
                Some(Json::Text(type_token)),
                Some(Json::Text(color_token)),
            ) => match (
                GraphType::from_token(type_token.as_str()),
                GraphColor::from_token(color_token.as_str()),
            ) {
                (Some(graph_type), Some(color)) => Some(
                    Graph {
                        id: id.clone(),
                        name: name.clone(),
                        unit: unit.clone(),
                        graph_type,
                        color,
                    },
                ),
                _ => None,
            },
            _ => None,
        }
    }
}

impl UpdateGraphParam {
    /// The JSON text of this update.
    pub fn to_json(&self) -> (text: String)
        ensures
            text@ == update_json(self@),
    {
        let mut text = String::from_str("{\"name\":");
        text.append(quote(self.name.as_str()).as_str());
        text.append(",\"unit\":");
        text.append(quote(self.unit.as_str()).as_str());
        text.append(",\"color\":");
        text.append(self.color.to_json());
        text.append("}");
        text
    }
}

impl GraphDefinitions {
    /// The graph definitions that `doc` holds, if it holds a list of them.
    pub fn from_json(doc: &Json) -> (decoded: Option<GraphDefinitions>)
        ensures
            match decoded {
                Some(payload) => graphs_of(doc@) == Some(payload.graphs.deep_view()),
                None => graphs_of(doc@) is None,
            },
    {
        match doc.member("graphs") {
            Some(Json::Array(items)) => {
                let ghost models = doc@.member("graphs"@)->0->Array_0;
                let mut graphs: Vec<Graph> = Vec::new();
                let mut i: usize = 0;
                while i < items.len()
                    invariant
                        i <= items.len(),
                        graphs@.len() == i,
                        doc@.member("graphs"@) == Some(JsonModel::Array(models)),
                        models.len() == items@.len(),
                        forall|k: int| 0 <= k < models.len() ==> #[trigger] models[k] == items@[k]@,
                        forall|k: int| 0 <= k < i ==> graph_of(#[trigger] models[k]) == Some(graphs@[k]@),
                    decreases items.len() - i,
                {
                    match Graph::from_json(&items[i]) {
                        Some(graph) => {
                            graphs.push(graph);
                        },
                        None => {
                            assert(graph_of(models[i as int]) is None);
                            return None;
                        },
                    }
                    i += 1;
                }
                assert(graphs_of(doc@)->0 =~= graphs.deep_view());
                Some(GraphDefinitions { graphs })
            },
            _ => None,
        }
    }
}

/// The request that creates the graph `graph`.
pub open spec fn create_request_model(
    username: Seq<char>,
    token: Seq<char>,
    graph: GraphModel,
) -> RequestModel {
    RequestModel {
        uri: endpoint::graphs_url(username),
        method: MethodType::Post,
        body: Some(graph_json(graph)),
        headers: Map::empty().insert(HeaderType::UserToken, token),
    }
}

/// The request that changes the definition of the graph `graph_id`.
pub open spec fn update_request_model(
    username: Seq<char>,
    token: Seq<char>,
    graph_id: Seq<char>,
    param: UpdateGraphModel,
) -> RequestModel {
    RequestModel {
        uri: endpoint::graph_url(username, graph_id),
        method: MethodType::Put,
        body: Some(update_json(param)),
        headers: Map::empty().insert(HeaderType::UserToken, token),
    }
}

/// The request that deletes the graph `graph_id`.
pub open spec fn delete_request_model(
    username: Seq<char>,
    token: Seq<char>,
    graph_id: Seq<char>,
) -> RequestModel {
    RequestModel {
        uri: endpoint::graph_url(username, graph_id),
        method: MethodType::Delete,
        body: None,
        headers: Map::empty().insert(HeaderType::UserToken, token),
    }
}

/// The request that asks for all graph definitions of a user.
pub open spec fn get_all_request_model(username: Seq<char>, token: Seq<char>) -> RequestModel {
    RequestModel {
        uri: endpoint::graphs_url(username),
        method: MethodType::Get,
        body: None,
        headers: Map::empty().insert(HeaderType::UserToken, token),
    }
}

/// The request that asks for the SVG rendering of the graph `graph_id`.
pub open spec fn get_graph_svg_request_model(
    username: Seq<char>,
    token: Seq<char>,
    graph_id: Seq<char>,
    date: Option<Seq<char>>,
) -> RequestModel {
    RequestModel {
        uri: endpoint::graph_svg_url(username, graph_id, date),
        method: MethodType::Get,
        body: None,
        headers: Map::empty().insert(HeaderType::UserToken, token),
    }
}

/// The request that creates the graph `param`.
pub fn create_request(auth: &Authentication, param: &Graph) -> (context: RequestContext)
    ensures
        context@ == create_request_model(auth.username@, auth.token@, param@),
{
    let uri = endpoint::graphs(auth.username.as_str());
    let body = param.to_json();
    RequestContext::new(
        uri.as_str(),
        MethodType::Post,
        Some(body.as_str()),
        Some(auth.token.as_str()),
    )
}

/// The request that changes the definition of the graph `graph_id`.
pub fn update_request(auth: &Authentication, graph_id: &str, param: &UpdateGraphParam) -> (context:
    RequestContext)
    ensures
        context@ == update_request_model(auth.username@, auth.token@, graph_id@, param@),
{
    let uri = endpoint::graph(auth.username.as_str(), graph_id);
    let body = param.to_json();
    RequestContext::new(
        uri.as_str(),
        MethodType::Put,
        Some(body.as_str()),
        Some(auth.token.as_str()),
    )
}

/// The request that deletes the graph `graph_id`.
pub fn delete_request(auth: &Authentication, graph_id: &str) -> (context: RequestContext)
    ensures
        context@ == delete_request_model(auth.username@, auth.token@, graph_id@),
{
    let uri = endpoint::graph(auth.username.as_str(), graph_id);
    RequestContext::new(uri.as_str(), MethodType::Delete, None, Some(auth.token.as_str()))
}

/// The request that asks for all graph definitions of the caller.
pub fn get_all_request(auth: &Authentication) -> (context: RequestContext)
    ensures
        context@ == get_all_request_model(auth.username@, auth.token@),
{
    let uri = endpoint::graphs(auth.username.as_str());
    RequestContext::new(uri.as_str(), MethodType::Get, None, Some(auth.token.as_str()))
}

/// The request that asks for the SVG rendering of the graph `graph_id`, as
/// of `date` where one is given.
pub fn get_graph_svg_request(auth: &Authentication, graph_id: &str, date: Option<&str>) -> (context:
    RequestContext)
    ensures
        context@ == get_graph_svg_request_model(
            auth.username@,
            auth.token@,
            graph_id@,
            endpoint::date_text(date),
        ),
{
    let uri = endpoint::graph_svg(auth.username.as_str(), graph_id, date);
    RequestContext::new(uri.as_str(), MethodType::Get, None, Some(auth.token.as_str()))
}

/// The graph definitions from the body of the response, as it was read. A
/// body that holds an envelope reports a failure, whatever else it holds;
/// where the body was rejected, the failure holds the reader's own error.
pub fn read_graphs(parsed: Result<Json, serde_json::Error>) -> (result: Result<
    Vec<Graph>,
    PixelaClientError,
>)
    ensures
        outcome(result) == payload_outcome(document_of(parsed), graphs_in(document_of(parsed))),
        parsed matches Err(error) ==> result == Err::<Vec<Graph>, PixelaClientError>(
            PixelaClientError::ResponseParseFailed(error),
        ),
{
    if let Some(failure) = reported_failure(&parsed) {
        return Err(failure);
    }
    match parsed {
        Ok(doc) => match GraphDefinitions::from_json(&doc) {
            Some(payload) => Ok(payload.graphs),
            None => Err(PixelaClientError::ResponseParseFailed(shape_error("not a list of graphs"))),
        },
        Err(error) => Err(PixelaClientError::from(error)),
    }
}

/// The SVG text from the body of the response and from what reading it as
/// JSON gave. A body that holds an envelope reports a failure; any other
/// body is the SVG text itself.
pub fn read_svg(parsed: &Result<Json, serde_json::Error>, body: String) -> (result: Result<
    String,
    PixelaClientError,
>)
    ensures
        outcome(result) == payload_outcome(document_of(*parsed), Some(body@)),
{
    match reported_failure(parsed) {
        Some(failure) => Err(failure),
        None => Ok(body),
    }
}

/// What the response to a request for all graph definitions means.
pub open spec fn graphs_outcome(response: Result<Seq<char>, Seq<char>>) -> Result<
    Seq<GraphModel>,
    ErrorModel,
> {
    match response {
        Ok(body) => payload_outcome(json_document(body), graphs_in(json_document(body))),
        Err(message) => Err(ErrorModel::HttpClient(message)),
    }
}

/// What the response to a request for an SVG rendering means.
pub open spec fn svg_outcome(response: Result<Seq<char>, Seq<char>>) -> Result<
    Seq<char>,
    ErrorModel,
> {
    match response {
        Ok(body) => payload_outcome(json_document(body), Some(body)),
        Err(message) => Err(ErrorModel::HttpClient(message)),
    }
}

/// A response whose body holds an envelope yields neither graph definitions
/// nor an SVG text, whatever else the body holds.
pub proof fn refused_graphs(body: Seq<char>)
    requires
        envelope_in(json_document(body)) is Some,
    ensures
        graphs_outcome(Ok(body)) == Err::<Seq<GraphModel>, ErrorModel>(
            ErrorModel::RequestNotSuccess(envelope_in(json_document(body))->0.message),
        ),
        svg_outcome(Ok(body)) == Err::<Seq<char>, ErrorModel>(
            ErrorModel::RequestNotSuccess(envelope_in(json_document(body))->0.message),
        ),
{
}

/// A response whose body holds no envelope is the SVG text itself, be it
/// JSON or not.
pub proof fn svg_is_the_body(body: Seq<char>)
    requires
        envelope_in(json_document(body)) is None,
    ensures
        svg_outcome(Ok(body)) == Ok::<Seq<char>, ErrorModel>(body),
{
}

/// The graph definitions from what the transport handed back.
pub fn graphs_response(response: Result<String, TransportError>) -> (result: Result<
    Vec<Graph>,
    PixelaClientError,
>)
    ensures
        outcome(result) == graphs_outcome(response_model(response)),
{
    match response {
        Ok(body) => read_graphs(parse(body.as_str())),
        Err(error) => Err(PixelaClientError::from(error)),
    }
}

/// The SVG text from what the transport handed back.
pub fn svg_response(response: Result<String, TransportError>) -> (result: Result<
    String,
    PixelaClientError,
>)
    ensures
        outcome(result) == svg_outcome(response_model(response)),
{
    match response {
        Ok(body) => {
            let parsed = parse(body.as_str());
            read_svg(&parsed, body)
        },
        Err(error) => Err(PixelaClientError::from(error)),
    }
}

/// Creates the graph `param`.
pub fn create<T: HttpClient>(transport: &T, auth: &Authentication, param: &Graph) -> (result:
    Result<(), PixelaClientError>)
    ensures
        exists|response: Result<Seq<char>, Seq<char>>|
            #[trigger] transport.answers(
                create_request_model(auth.username@, auth.token@, param@),
                response,
            ) && outcome(result) == result_outcome(response),
{
    let context = create_request(auth, param);
    exchange(transport, &context)
}

/// Changes the definition of the graph `graph_id`.
pub fn update<T: HttpClient>(
    transport: &T,
    auth: &Authentication,
    graph_id: &str,
    param: &UpdateGraphParam,
) -> (result: Result<(), PixelaClientError>)
    ensures
        exists|response: Result<Seq<char>, Seq<char>>|
            #[trigger] transport.answers(
                update_request_model(auth.username@, auth.token@, graph_id@, param@),
                response,
            ) && outcome(result) == result_outcome(response),
{
    let context = update_request(auth, graph_id, param);
    exchange(transport, &context)
}

/// Deletes the graph `graph_id`.
pub fn delete<T: HttpClient>(transport: &T, auth: &Authentication, graph_id: &str) -> (result:
    Result<(), PixelaClientError>)
    ensures
        exists|response: Result<Seq<char>, Seq<char>>|
            #[trigger] transport.answers(
                delete_request_model(auth.username@, auth.token@, graph_id@),
                response,
            ) && outcome(result) == result_outcome(response),
{
    let context = delete_request(auth, graph_id);
    exchange(transport, &context)
}

/// Asks the service for all graph definitions of the caller.
pub fn get_all<T: HttpClient>(transport: &T, auth: &Authentication) -> (result: Result<
    Vec<Graph>,
    PixelaClientError,
>)
    ensures
        exists|response: Result<Seq<char>, Seq<char>>|
            #[trigger] transport.answers(
                get_all_request_model(auth.username@, auth.token@),
                response,
            ) && outcome(result) == graphs_outcome(response),
{
    let context = get_all_request(auth);
    let response = transport.do_request(&context);
    graphs_response(response)
}

/// Asks the service for the SVG rendering of the graph `graph_id`, as of
/// `date` where one is given.
pub fn get_graph_svg<T: HttpClient>(
    transport: &T,
    auth: &Authentication,
    graph_id: &str,
    date: Option<&str>,
) -> (result: Result<String, PixelaClientError>)
    ensures
        exists|response: Result<Seq<char>, Seq<char>>|
            #[trigger] transport.answers(
                get_graph_svg_request_model(
                    auth.username@,
                    auth.token@,
                    graph_id@,
                    endpoint::date_text(date),
                ),
                response,
            ) && outcome(result) == svg_outcome(response),
{
    let context = get_graph_svg_request(auth, graph_id, date);
    let response = transport.do_request(&context);
    svg_response(response)
}

} // verus!
