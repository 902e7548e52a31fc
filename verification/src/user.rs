//! Users: what creating one takes, and the operations on them.

use vstd::prelude::*;
use vstd::string::*;

use crate::endpoint;
use crate::error::{outcome, PixelaClientError};
use crate::http_client::{HeaderType, HttpClient, MethodType, RequestContext, RequestModel};
use crate::json::{json_string, quote};
use crate::response::{exchange, result_outcome};
use crate::Authentication;

verus! {

/// Answer to the consent from. yes or no.
#[derive(Clone, Copy, Debug, PartialEq, Eq, Structural)]
pub enum ConsentAnswer {
    Yes,
    No,
}

impl ConsentAnswer {
    /// The JSON text of an answer: its word as a string literal.
    pub open spec fn json_spec(self) -> Seq<char> {
        match self {
            ConsentAnswer::Yes => "\"yes\""@,
            ConsentAnswer::No => "\"no\""@,
        }
    }

    /// The JSON text of this answer.
    pub fn to_json(self) -> (text: &'static str)
        ensures
            text@ == self.json_spec(),
    {
        match self {
            ConsentAnswer::Yes => "\"yes\"",
            ConsentAnswer::No => "\"no\"",
        }
    }
}

/// What the service asks of someone who registers.
#[derive(Debug, PartialEq, Eq)]
pub struct CreateUserParam {
    pub token: String,
    pub username: String,
    pub agree_terms_of_service: ConsentAnswer,
    pub not_minor: ConsentAnswer,
}

/// A registration as a mathematical value.
pub struct CreateUserModel {
    pub token: Seq<char>,
    pub username: Seq<char>,
    pub agree_terms_of_service: ConsentAnswer,
    pub not_minor: ConsentAnswer,
}

impl View for CreateUserParam {
    type V = CreateUserModel;

    open spec fn view(&self) -> CreateUserModel {
        CreateUserModel {
            token: self.token@,
            username: self.username@,
            agree_terms_of_service: self.agree_terms_of_service,
            not_minor: self.not_minor,
        }
    }
}

/// The JSON text of a registration: its members in the order `token`,
/// `username`, `agreeTermsOfService`, `notMinor`.
pub open spec fn create_user_json(param: CreateUserModel) -> Seq<char> {
    "{\"token\":"@ + json_string(param.token) + ",\"username\":"@ + json_string(param.username)
        + ",\"agreeTermsOfService\":"@ + param.agree_terms_of_service.json_spec()
        + ",\"notMinor\":"@ + param.not_minor.json_spec() + "}"@
}

/// The JSON text that sets a new token.
pub open spec fn new_token_json(new_token: Seq<char>) -> Seq<char> {
    "{\"newToken\":"@ + json_string(new_token) + "}"@
}

impl CreateUserParam {
    /// The JSON text of this registration.
    pub fn to_json(&self) -> (text: String)
        ensures
            text@ == create_user_json(self@),
    {
        let mut text = String::from_str("{\"token\":");
        text.append(quote(self.token.as_str()).as_str());
        text.append(",\"username\":");
        text.append(quote(self.username.as_str()).as_str());
        text.append(",\"agreeTermsOfService\":");
        text.append(self.agree_terms_of_service.to_json());
        text.append(",\"notMinor\":");
        text.append(self.not_minor.to_json());
        text.append("}");
        text
    }
}

/// The request that registers a user: the one request that carries no
/// token header.
pub open spec fn create_request_model(param: CreateUserModel) -> RequestModel {
    RequestModel {
        uri: endpoint::users_url(),
        method: MethodType::Post,
        body: Some(create_user_json(param)),
        headers: Map::empty(),
    }
}

/// The request that replaces the token of a user by `new_token`.
pub open spec fn update_request_model(
    username: Seq<char>,
    token: Seq<char>,
    new_token: Seq<char>,
) -> RequestModel {
    RequestModel {
        uri: endpoint::user_url(username),
        method: MethodType::Put,
        body: Some(new_token_json(new_token)),
        headers: Map::empty().insert(HeaderType::UserToken, token),
    }
}

/// The request that deletes a user.
pub open spec fn delete_request_model(username: Seq<char>, token: Seq<char>) -> RequestModel {
    RequestModel {
        uri: endpoint::user_url(username),
        method: MethodType::Delete,
        body: None,
        headers: Map::empty().insert(HeaderType::UserToken, token),
    }
}

/// The request that registers the user `param`.
pub fn create_request(param: &CreateUserParam) -> (context: RequestContext)
    ensures
        context@ == create_request_model(param@),
{
    let uri = endpoint::users();
    let body = param.to_json();
    RequestContext::new(uri.as_str(), MethodType::Post, Some(body.as_str()), None)
}

/// The request that replaces the caller's token by `new_token`.
pub fn update_request(auth: &Authentication, new_token: &str) -> (context: RequestContext)
    ensures
        context@ == update_request_model(auth.username@, auth.token@, new_token@),
{
    let mut body = String::from_str("{\"newToken\":");
    body.append(quote(new_token).as_str());
    body.append("}");
    let uri = endpoint::user(auth.username.as_str());
    RequestContext::new(
        uri.as_str(),
        MethodType::Put,
        Some(body.as_str()),
        Some(auth.token.as_str()),
    )
}

/// The request that deletes the caller.
pub fn delete_request(auth: &Authentication) -> (context: RequestContext)
    ensures
        context@ == delete_request_model(auth.username@, auth.token@),
{
    let uri = endpoint::user(auth.username.as_str());
    RequestContext::new(uri.as_str(), MethodType::Delete, None, Some(auth.token.as_str()))
}

/// Registers the user `param`.
pub fn create<T: HttpClient>(transport: &T, param: &CreateUserParam) -> (result: Result<
    (),
    PixelaClientError,
>)
    ensures
        exists|response: Result<Seq<char>, Seq<char>>|
            #[trigger] transport.answers(create_request_model(param@), response) && outcome(result)
                == result_outcome(response),
{
    let context = create_request(param);
    exchange(transport, &context)
}

/// Replaces the caller's token by `new_token`.
pub fn update<T: HttpClient>(transport: &T, auth: &Authentication, new_token: &str) -> (result:
    Result<(), PixelaClientError>)
    ensures
        exists|response: Result<Seq<char>, Seq<char>>|
            #[trigger] transport.answers(
                update_request_model(auth.username@, auth.token@, new_token@),
                response,
            ) && outcome(result) == result_outcome(response),
{
    let context = update_request(auth, new_token);
    exchange(transport, &context)
}

/// Deletes the caller.
pub fn delete<T: HttpClient>(transport: &T, auth: &Authentication) -> (result: Result<
    (),
    PixelaClientError,
>)
    ensures
        exists|response: Result<Seq<char>, Seq<char>>|
            #[trigger] transport.answers(
                delete_request_model(auth.username@, auth.token@),
                response,
            ) && outcome(result) == result_outcome(response),
{
    let context = delete_request(auth);
    exchange(transport, &context)
}

} // verus!
