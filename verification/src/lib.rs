//! A typed client for the Pixela pixel-tracking service.
//!
//! Every resource operation builds a URL, bundles it with a method, a body
//! and headers into a [`http_client::RequestContext`], hands that to a
//! transport chosen by the caller, and interprets the raw response body
//! uniformly: a body that holds the service's result envelope is the
//! service's own word on success or failure, and takes precedence over any
//! payload.
//!
//! [`PixelaClient`] holds the caller's identity and a transport, and offers
//! one method per operation.
//!
//! # Example
//!
//! ```rust,ignore
//! use pixelast::{GraphColor, GraphType, PixelaClient};
//!
//! // `transport` is any value of a type that implements `HttpClient`.
//! let client = PixelaClient::new("username", "usertoken", transport);
//! client.create_graph("graphid", "graphname", "cal", GraphType::Int, GraphColor::Shibafu)?;
//! client.record_pixel("graphid", "20181016", "10")?;
//! client.increment("graphid")?;
//!
//! let pixel = client.get_pixel("graphid", "20181016")?;
//! println!("{:?}", pixel);
//!
//! let svg = client.get_graph_svg("graphid", Some("20181020"))?;
//! println!("{}", svg);
//! ```

pub mod endpoint;
pub mod error;
pub mod graph;
pub mod http_client;
pub mod json;
pub mod pixel;
pub mod response;
pub mod user;

pub use self::error::{PixelaClientError, TransportError};
pub use self::graph::{Graph, GraphColor, GraphType};
pub use self::http_client::HttpClient;
pub use self::pixel::Pixel;
pub use self::user::ConsentAnswer;

use self::error::outcome;
use self::graph::UpdateGraphParam;
use self::response::result_outcome;
use self::user::CreateUserParam;
use vstd::prelude::*;
use vstd::string::*;

verus! {

/// Who is calling: the name of a user of the service and the token that
/// authenticates them.
#[derive(Debug, PartialEq, Eq)]
pub struct Authentication {
    pub username: String,
    pub token: String,
}

/// A `PixelaClient` to request to Pixela with: the caller's identity, and
/// the transport that carries its requests.
pub struct PixelaClient<T: HttpClient> {
    auth: Authentication,
    transport: T,
}

impl<T: HttpClient> PixelaClient<T> {
    /// The name of the user that this client acts for.
    pub closed spec fn username(&self) -> Seq<char> {
        self.auth.username@
    }

    /// The token that this client authenticates with.
    pub closed spec fn token(&self) -> Seq<char> {
        self.auth.token@
    }

    /// The transport that carries the requests of this client.
    pub closed spec fn transport(&self) -> T {
        self.transport
    }

    /// What the three functions above say of the fields.
    proof fn parts(&self)
        ensures
            self.username() == self.auth.username@,
            self.token() == self.auth.token@,
            self.transport() == self.transport,
    {
    }

    /// Constructs a new `PixelaClient`.
    ///
    /// This method does not verify authentication.
    pub fn new(username: &str, token: &str, transport: T) -> (client: Self)
        ensures
            client.username() == username@,
            client.token() == token@,
            client.transport() == transport,
    {
        Self {
            auth: Authentication {
                username: String::from_str(username),
                token: String::from_str(token),
            },
            transport,
        }
    }

    /// Create a new Pixela user.
    pub fn create_new_user(
        transport: &T,
        username: &str,
        token: &str,
        agree_terms_of_service: ConsentAnswer,
        not_minor: ConsentAnswer,
    ) -> (result: Result<(), PixelaClientError>)
        ensures
            exists|response: Result<Seq<char>, Seq<char>>|
                #[trigger] transport.answers(
                    user::create_request_model(
                        user::CreateUserModel {
                            token: token@,
                            username: username@,
                            agree_terms_of_service,
                            not_minor,
                        },
                    ),
                    response,
                ) && outcome(result) == result_outcome(response),
    {
        let param = CreateUserParam {
            username: String::from_str(username),
            token: String::from_str(token),
            agree_terms_of_service,
            not_minor,
        };
        user::create(transport, &param)
    }

    /// Updates the authentication token for the specified user.
    pub fn update_user_token(&self, new_token: &str) -> (result: Result<(), PixelaClientError>)
        ensures
            exists|response: Result<Seq<char>, Seq<char>>|
                #[trigger] self.transport().answers(
                    user::update_request_model(self.username(), self.token(), new_token@),
                    response,
                ) && outcome(result) == result_outcome(response),
    {
        proof {
            self.parts();
        }
        user::update(&self.transport, &self.auth, new_token)
    }

    /// Deletes the specified registered user.
    pub fn delete_user(&self) -> (result: Result<(), PixelaClientError>)
        ensures
            exists|response: Result<Seq<char>, Seq<char>>|
                #[trigger] self.transport().answers(
                    user::delete_request_model(self.username(), self.token()),
                    response,
                ) && outcome(result) == result_outcome(response),
    {
        proof {
            self.parts();
        }
        user::delete(&self.transport, &self.auth)
    }

    /// Create a new pixelation graph definition.
    pub fn create_graph(
        &self,
        id: &str,
        name: &str,
        unit: &str,
        graph_type: GraphType,
        color: GraphColor,
    ) -> (result: Result<(), PixelaClientError>)
        ensures
            exists|response: Result<Seq<char>, Seq<char>>|
                #[trigger] self.transport().answers(
                    graph::create_request_model(
                        self.username(),
                        self.token(),
                        graph::GraphModel { id: id@, name: name@, unit: unit@, graph_type, color },
                    ),
                    response,
                ) && outcome(result) == result_outcome(response),
    {
        proof {
            self.parts();
        }
        let param = Graph {
            id: String::from_str(id),
            name: String::from_str(name),
            unit: String::from_str(unit),
            graph_type,
            color,
        };
        graph::create(&self.transport, &self.auth, &param)
    }

    /// Get all predefined pixelation graph definitions.
    pub fn get_graphs(&self) -> (result: Result<Vec<Graph>, PixelaClientError>)
        ensures
            exists|response: Result<Seq<char>, Seq<char>>|
                #[trigger] self.transport().answers(
                    graph::get_all_request_model(self.username(), self.token()),
                    response,
                ) && outcome(result) == graph::graphs_outcome(response),
    {
        proof {
            self.parts();
        }
        graph::get_all(&self.transport, &self.auth)
    }

    /// Based on the registered information, express the graph in SVG format
    /// diagram.
    pub fn get_graph_svg(&self, graph_id: &str, date: Option<&str>) -> (result: Result<
        String,
        PixelaClientError,
    >)
        ensures
            exists|response: Result<Seq<char>, Seq<char>>|
                #[trigger] self.transport().answers(
                    graph::get_graph_svg_request_model(
                        self.username(),
                        self.token(),
                        graph_id@,
                        endpoint::date_text(date),
                    ),
                    response,
                ) && outcome(result) == graph::svg_outcome(response),
    {
        proof {
            self.parts();
        }
        graph::get_graph_svg(&self.transport, &self.auth, graph_id, date)
    }

    /// Update predefined pixelation graph definitions. The items that can be
    /// updated are limited as compared with the pixelation graph definition
    /// creation.
    pub fn update_graph(&self, graph_id: &str, name: &str, unit: &str, color: GraphColor) -> (result:
        Result<(), PixelaClientError>)
        ensures
            exists|response: Result<Seq<char>, Seq<char>>|
                #[trigger] self.transport().answers(
                    graph::update_request_model(
                        self.username(),
                        self.token(),
                        graph_id@,
                        graph::UpdateGraphModel { name: name@, unit: unit@, color },
                    ),
                    response,
                ) && outcome(result) == result_outcome(response),
    {
        proof {
            self.parts();
        }
        let param = UpdateGraphParam {
            name: String::from_str(name),
            unit: String::from_str(unit),
            color,
        };
        graph::update(&self.transport, &self.auth, graph_id, &param)
    }

    /// Delete the predefined pixelation graph definition.
    pub fn delete_graph(&self, graph_id: &str) -> (result: Result<(), PixelaClientError>)
        ensures
            exists|response: Result<Seq<char>, Seq<char>>|
                #[trigger] self.transport().answers(
                    graph::delete_request_model(self.username(), self.token(), graph_id@),
                    response,
                ) && outcome(result) == result_outcome(response),
    {
        proof {
            self.parts();
        }
        graph::delete(&self.transport, &self.auth, graph_id)
    }

    /// It records the quantity of the specified date as a "Pixel".
    pub fn record_pixel(&self, graph_id: &str, date: &str, quantity: &str) -> (result: Result<
        (),
        PixelaClientError,
    >)
        ensures
            exists|response: Result<Seq<char>, Seq<char>>|
                #[trigger] self.transport().answers(
                    pixel::create_request_model(
                        self.username(),
                        self.token(),
                        graph_id@,
                        pixel::PixelModel { date: date@, quantity: quantity@ },
                    ),
                    response,
                ) && outcome(result) == result_outcome(response),
    {
        proof {
            self.parts();
        }
        let param = Pixel { date: String::from_str(date), quantity: String::from_str(quantity) };
        pixel::create(&self.transport, &self.auth, graph_id, &param)
    }

    /// Get registered quantity as "Pixel".
    pub fn get_pixel(&self, graph_id: &str, date: &str) -> (result: Result<
        Pixel,
        PixelaClientError,
    >)
        ensures
            exists|response: Result<Seq<char>, Seq<char>>|
                #[trigger] self.transport().answers(
                    pixel::get_request_model(self.username(), self.token(), graph_id@, date@),
                    response,
                ) && outcome(result) == pixel::pixel_outcome(response, date@),
    {
        proof {
            self.parts();
        }
        pixel::get(&self.transport, &self.auth, graph_id, date)
    }

    /// Update the quantity already registered as a "Pixel".
    pub fn update_pixel(&self, graph_id: &str, date: &str, quantity: &str) -> (result: Result<
        (),
        PixelaClientError,
    >)
        ensures
            exists|response: Result<Seq<char>, Seq<char>>|
                #[trigger] self.transport().answers(
                    pixel::update_request_model(
                        self.username(),
                        self.token(),
                        graph_id@,
                        pixel::PixelModel { date: date@, quantity: quantity@ },
                    ),
                    response,
                ) && outcome(result) == result_outcome(response),
    {
        proof {
            self.parts();
        }
        let param = Pixel { date: String::from_str(date), quantity: String::from_str(quantity) };
        pixel::update(&self.transport, &self.auth, graph_id, &param)
    }

    /// Delete the registered "Pixel".
    pub fn delete_pixel(&self, graph_id: &str, date: &str) -> (result: Result<
        (),
        PixelaClientError,
    >)
        ensures
            exists|response: Result<Seq<char>, Seq<char>>|
                #[trigger] self.transport().answers(
                    pixel::delete_request_model(self.username(), self.token(), graph_id@, date@),
                    response,
                ) && outcome(result) == result_outcome(response),
    {
        proof {
            self.parts();
        }
        pixel::delete(&self.transport, &self.auth, graph_id, date)
    }

    /// Increment quantity "Pixel" of the day (UTC).
    pub fn increment(&self, graph_id: &str) -> (result: Result<(), PixelaClientError>)
        ensures
            exists|response: Result<Seq<char>, Seq<char>>|
                #[trigger] self.transport().answers(
                    pixel::increment_request_model(self.username(), self.token(), graph_id@),
                    response,
                ) && outcome(result) == result_outcome(response),
    {
        proof {
            self.parts();
        }
        pixel::increment(&self.transport, &self.auth, graph_id)
    }

    /// Decrement quantity "Pixel" of the day (UTC).
    pub fn decrement(&self, graph_id: &str) -> (result: Result<(), PixelaClientError>)
        ensures
            exists|response: Result<Seq<char>, Seq<char>>|
                #[trigger] self.transport().answers(
                    pixel::decrement_request_model(self.username(), self.token(), graph_id@),
                    response,
                ) && outcome(result) == result_outcome(response),
    {
        proof {
            self.parts();
        }
        pixel::decrement(&self.transport, &self.auth, graph_id)
    }
}

} // verus!
