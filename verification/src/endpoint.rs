//! Resource URLs of the service, all below one fixed base.
//!
//! The builders insert their arguments verbatim: nothing is escaped.

use vstd::prelude::*;
use vstd::string::*;

verus! {

/// The base below which every resource of the service lives.
pub const BASE_URL: &'static str = "https://pixe.la/v1/";

/// URL of the user collection.
pub open spec fn users_url() -> Seq<char> {
    BASE_URL@ + "users"@
}

/// URL of one user.
pub open spec fn user_url(username: Seq<char>) -> Seq<char> {
    BASE_URL@ + "users/"@ + username
}

/// URL of the graph collection of a user.
pub open spec fn graphs_url(username: Seq<char>) -> Seq<char> {
    BASE_URL@ + "users/"@ + username + "/graphs"@
}

/// URL of one graph.
pub open spec fn graph_url(username: Seq<char>, graph_id: Seq<char>) -> Seq<char> {
    BASE_URL@ + "users/"@ + username + "/graphs/"@ + graph_id
}

/// URL of the SVG rendering of a graph: that of the graph, followed by the
/// query `?date=` and the date where a date is given.
pub open spec fn graph_svg_url(
    username: Seq<char>,
    graph_id: Seq<char>,
    date: Option<Seq<char>>,
) -> Seq<char> {
    match date {
        Some(day) => graph_url(username, graph_id) + "?date="@ + day,
        None => graph_url(username, graph_id),
    }
}

/// URL of the pixel of one day.
pub open spec fn pixel_url(username: Seq<char>, graph_id: Seq<char>, date: Seq<char>) -> Seq<char> {
    BASE_URL@ + "users/"@ + username + "/graphs/"@ + graph_id + "/"@ + date
}

/// URL that increments today's pixel.
pub open spec fn increment_url(username: Seq<char>, graph_id: Seq<char>) -> Seq<char> {
    BASE_URL@ + "users/"@ + username + "/graphs/"@ + graph_id + "/increment"@
}

/// URL that decrements today's pixel.
pub open spec fn decrement_url(username: Seq<char>, graph_id: Seq<char>) -> Seq<char> {
    BASE_URL@ + "users/"@ + username + "/graphs/"@ + graph_id + "/decrement"@
}

/// The text of a date that may be absent.
pub open spec fn date_text(date: Option<&str>) -> Option<Seq<char>> {
    match date {
        Some(day) => Some(day@),
        None => None,
    }
}

/// The URL of an SVG rendering is that of the graph exactly when no date is
/// given: with a date it is longer by the query.
pub proof fn graph_svg_query_iff_date(
    username: Seq<char>,
    graph_id: Seq<char>,
    date: Option<Seq<char>>,
)
    ensures
        date is None <==> graph_svg_url(username, graph_id, date) == graph_url(username, graph_id),
{
    reveal_strlit("?date=");
    if let Some(day) = date {
        assert(graph_svg_url(username, graph_id, date).len() == graph_url(username, graph_id).len()
            + 6 + day.len());
    }
}

/// URL of the user collection: the target of user creation.
pub fn users() -> (url: String)
    ensures
        url@ == users_url(),
{
    let mut url = String::from_str(BASE_URL);
    url.append("users");
    url
}

/// URL of the user `username`.
pub fn user(username: &str) -> (url: String)
    ensures
        url@ == user_url(username@),
{
    let mut url = String::from_str(BASE_URL);
    url.append("users/");
    url.append(username);
    url
}

/// URL of the graph collection of `username`.
pub fn graphs(username: &str) -> (url: String)
    ensures
        url@ == graphs_url(username@),
{
    let mut url = user(username);
    url.append("/graphs");
    url
}

/// URL of the graph `graph_id` of `username`.
pub fn graph(username: &str, graph_id: &str) -> (url: String)
    ensures
        url@ == graph_url(username@, graph_id@),
{
    let mut url = user(username);
    url.append("/graphs/");
    url.append(graph_id);
    url
}

/// URL of the SVG rendering of a graph. The query `?date=` is there exactly
/// when a date is given.
pub fn graph_svg(username: &str, graph_id: &str, date: Option<&str>) -> (url: String)
    ensures
        url@ == graph_svg_url(username@, graph_id@, date_text(date)),
{
    let mut url = graph(username, graph_id);
    if let Some(day) = date {
        url.append("?date=");
        url.append(day);
    }
    url
}

/// URL of the pixel that `graph_id` holds for `date`.
pub fn pixel(username: &str, graph_id: &str, date: &str) -> (url: String)
    ensures
        url@ == pixel_url(username@, graph_id@, date@),
{
    let mut url = graph(username, graph_id);
    url.append("/");
    url.append(date);
    url
}

/// URL that increments today's pixel of `graph_id`.
pub fn increment(username: &str, graph_id: &str) -> (url: String)
    ensures
        url@ == increment_url(username@, graph_id@),
{
    let mut url = graph(username, graph_id);
    url.append("/increment");
    url
}

/// URL that decrements today's pixel of `graph_id`.
pub fn decrement(username: &str, graph_id: &str) -> (url: String)
    ensures
        url@ == decrement_url(username@, graph_id@),
{
    let mut url = graph(username, graph_id);
    url.append("/decrement");
    url
}

} // verus!
