use std::cell::RefCell;

use pixelast::error::TransportError;
use pixelast::http_client::{HeaderType, HttpClient, MethodType, RequestContext};
use pixelast::{ConsentAnswer, Graph, GraphColor, GraphType, Pixel, PixelaClient, PixelaClientError};

const SUCCESS: &str = r#"{"message":"Success.","isSuccess":true}"#;

#[derive(Debug, PartialEq)]
struct Seen {
    uri: String,
    method: MethodType,
    body: Option<String>,
    token: Option<String>,
    content_length: Option<String>,
    headers: usize,
}

struct Fake {
    response: Result<String, String>,
    seen: RefCell<Vec<Seen>>,
}

impl Fake {
    fn answering(body: &str) -> Fake {
        Fake {
            response: Ok(String::from(body)),
            seen: RefCell::new(Vec::new()),
        }
    }

    fn failing(message: &str) -> Fake {
        Fake {
            response: Err(String::from(message)),
            seen: RefCell::new(Vec::new()),
        }
    }
}

impl HttpClient for Fake {
    fn do_request(&self, context: &RequestContext) -> Result<String, TransportError> {
        self.seen.borrow_mut().push(Seen {
            uri: context.uri().to_owned(),
            method: context.method(),
            body: context.body().map(|text| text.to_owned()),
            token: context
                .header(HeaderType::UserToken)
                .map(|text| text.to_owned()),
            content_length: context
                .header(HeaderType::ContentLength)
                .map(|text| text.to_owned()),
            headers: context.headers().len(),
        });
        match &self.response {
            Ok(body) => Ok(body.clone()),
            Err(message) => Err(TransportError {
                message: message.clone(),
            }),
        }
    }
}

impl HttpClient for &Fake {
    fn do_request(&self, context: &RequestContext) -> Result<String, TransportError> {
        (**self).do_request(context)
    }
}

fn authenticated(uri: &str, method: MethodType, body: Option<&str>) -> Seen {
    Seen {
        uri: String::from(uri),
        method,
        body: body.map(String::from),
        token: Some(String::from("testtoken")),
        content_length: None,
        headers: 1,
    }
}

#[test]
fn create_graph_issues_one_post_and_reads_the_envelope() {
    let fake = Fake::answering(SUCCESS);
    let client = PixelaClient::new("testuser", "testtoken", &fake);
    let result = client.create_graph(
        "testid",
        "testname",
        "testunit",
        GraphType::Int,
        GraphColor::Kuro,
    );
    assert!(matches!(result, Ok(())));
    assert_eq!(
        *fake.seen.borrow(),
        vec![authenticated(
            "https://pixe.la/v1/users/testuser/graphs",
            MethodType::Post,
            Some(
                r#"{"id":"testid","name":"testname","unit":"testunit","type":"int","color":"kuro"}"#
            ),
        )]
    );
}

#[test]
fn create_graph_reports_the_failure_of_the_service() {
    let fake = Fake::answering(r#"{"message":"This graphID already exist.","isSuccess":false}"#);
    let client = PixelaClient::new("testuser", "testtoken", &fake);
    let result = client.create_graph("testid", "n", "u", GraphType::Float, GraphColor::Sora);
    match result {
        Err(PixelaClientError::RequestNotSuccess(message)) => {
            assert_eq!(message, "This graphID already exist.")
        }
        other => panic!("unexpected {:?}", other),
    }
    assert_eq!(fake.seen.borrow().len(), 1);
}

#[test]
fn every_operation_reports_the_failure_of_the_transport() {
    let fake = Fake::failing("connection refused");
    let client = PixelaClient::new("testuser", "testtoken", &fake);
    let refused = |error: PixelaClientError| match error {
        PixelaClientError::HttpClientError(inner) => {
            assert_eq!(inner.message, "connection refused")
        }
        other => panic!("unexpected {:?}", other),
    };
    refused(client.update_user_token("new").unwrap_err());
    refused(client.delete_user().unwrap_err());
    refused(
        client
            .create_graph("g", "n", "u", GraphType::Int, GraphColor::Kuro)
            .unwrap_err(),
    );
    refused(client.get_graphs().unwrap_err());
    refused(client.get_graph_svg("g", None).unwrap_err());
    refused(client.update_graph("g", "n", "u", GraphColor::Kuro).unwrap_err());
    refused(client.delete_graph("g").unwrap_err());
    refused(client.record_pixel("g", "20181016", "10").unwrap_err());
    refused(client.get_pixel("g", "20181016").unwrap_err());
    refused(client.update_pixel("g", "20181016", "10").unwrap_err());
    refused(client.delete_pixel("g", "20181016").unwrap_err());
    refused(client.increment("g").unwrap_err());
    refused(client.decrement("g").unwrap_err());
    refused(
        PixelaClient::create_new_user(&&fake, "u", "t", ConsentAnswer::Yes, ConsentAnswer::Yes)
            .unwrap_err(),
    );
    assert_eq!(fake.seen.borrow().len(), 14);
}

#[test]
fn create_new_user_posts_without_a_token() {
    let fake = Fake::answering(SUCCESS);
    let result = PixelaClient::create_new_user(
        &&fake,
        "testuser",
        "testtoken",
        ConsentAnswer::Yes,
        ConsentAnswer::No,
    );
    assert!(matches!(result, Ok(())));
    assert_eq!(
        *fake.seen.borrow(),
        vec![Seen {
            uri: String::from("https://pixe.la/v1/users"),
            method: MethodType::Post,
            body: Some(String::from(
                r#"{"token":"testtoken","username":"testuser","agreeTermsOfService":"yes","notMinor":"no"}"#
            )),
            token: None,
            content_length: None,
            headers: 0,
        }]
    );
}

#[test]
fn user_operations_issue_their_requests() {
    let fake = Fake::answering(SUCCESS);
    let client = PixelaClient::new("testuser", "testtoken", &fake);
    assert!(client.update_user_token("newtoken").is_ok());
    assert!(client.delete_user().is_ok());
    assert_eq!(
        *fake.seen.borrow(),
        vec![
            authenticated(
                "https://pixe.la/v1/users/testuser",
                MethodType::Put,
                Some(r#"{"newToken":"newtoken"}"#),
            ),
            authenticated("https://pixe.la/v1/users/testuser", MethodType::Delete, None),
        ]
    );
}

#[test]
fn graph_operations_issue_their_requests() {
    let fake = Fake::answering(SUCCESS);
    let client = PixelaClient::new("testuser", "testtoken", &fake);
    assert!(client
        .update_graph("graphid", "graphname", "cal", GraphColor::Shibafu)
        .is_ok());
    assert!(client.delete_graph("graphid").is_ok());
    assert_eq!(
        *fake.seen.borrow(),
        vec![
            authenticated(
                "https://pixe.la/v1/users/testuser/graphs/graphid",
                MethodType::Put,
                Some(r#"{"name":"graphname","unit":"cal","color":"shibafu"}"#),
            ),
            authenticated(
                "https://pixe.la/v1/users/testuser/graphs/graphid",
                MethodType::Delete,
                None,
            ),
        ]
    );
}

#[test]
fn get_graphs_reads_the_definitions() {
    let fake = Fake::answering(
        r#"{"graphs":[{"id":"testid","name":"testname","unit":"testunit","type":"int","color":"kuro"}]}"#,
    );
    let client = PixelaClient::new("testuser", "testtoken", &fake);
    let graphs = client.get_graphs().unwrap();
    assert_eq!(
        graphs,
        vec![Graph {
            id: String::from("testid"),
            name: String::from("testname"),
            unit: String::from("testunit"),
            graph_type: GraphType::Int,
            color: GraphColor::Kuro,
        }]
    );
    assert_eq!(
        *fake.seen.borrow(),
        vec![authenticated(
            "https://pixe.la/v1/users/testuser/graphs",
            MethodType::Get,
            None,
        )]
    );
}

#[test]
fn get_graphs_takes_an_envelope_for_a_failure() {
    let fake = Fake::answering(r#"{"message":"User does not exist.","isSuccess":false}"#);
    let client = PixelaClient::new("testuser", "testtoken", &fake);
    match client.get_graphs() {
        Err(PixelaClientError::RequestNotSuccess(message)) => {
            assert_eq!(message, "User does not exist.")
        }
        other => panic!("unexpected {:?}", other),
    }
}

#[test]
fn get_graph_svg_hands_on_the_svg_text() {
    let fake = Fake::answering("<svg></svg>");
    let client = PixelaClient::new("testuser", "testtoken", &fake);
    assert_eq!(client.get_graph_svg("graphid", Some("20181020")).unwrap(), "<svg></svg>");
    assert_eq!(client.get_graph_svg("graphid", None).unwrap(), "<svg></svg>");
    assert_eq!(
        *fake.seen.borrow(),
        vec![
            authenticated(
                "https://pixe.la/v1/users/testuser/graphs/graphid?date=20181020",
                MethodType::Get,
                None,
            ),
            authenticated(
                "https://pixe.la/v1/users/testuser/graphs/graphid",
                MethodType::Get,
                None,
            ),
        ]
    );
}

#[test]
fn get_graph_svg_takes_an_envelope_for_a_failure() {
    let fake = Fake::answering(r#"{"message":"Specified graphID not found.","isSuccess":false}"#);
    let client = PixelaClient::new("testuser", "testtoken", &fake);
    match client.get_graph_svg("graphid", None) {
        Err(PixelaClientError::RequestNotSuccess(message)) => {
            assert_eq!(message, "Specified graphID not found.")
        }
        other => panic!("unexpected {:?}", other),
    }
}

#[test]
fn pixel_operations_issue_their_requests() {
    let fake = Fake::answering(SUCCESS);
    let client = PixelaClient::new("testuser", "testtoken", &fake);
    assert!(client.record_pixel("graphid", "20181016", "10").is_ok());
    assert!(client.update_pixel("graphid", "20181018", "20").is_ok());
    assert!(client.delete_pixel("graphid", "20181016").is_ok());
    assert_eq!(
        *fake.seen.borrow(),
        vec![
            authenticated(
                "https://pixe.la/v1/users/testuser/graphs/graphid",
                MethodType::Post,
                Some(r#"{"date":"20181016","quantity":"10"}"#),
            ),
            authenticated(
                "https://pixe.la/v1/users/testuser/graphs/graphid/20181018",
                MethodType::Put,
                Some(r#"{"quantity":"20"}"#),
            ),
            authenticated(
                "https://pixe.la/v1/users/testuser/graphs/graphid/20181016",
                MethodType::Delete,
                None,
            ),
        ]
    );
}

#[test]
fn get_pixel_reads_the_quantity() {
    let fake = Fake::answering(r#"{"quantity":50}"#);
    let client = PixelaClient::new("testuser", "testtoken", &fake);
    assert_eq!(
        client.get_pixel("graphid", "20181018").unwrap(),
        Pixel {
            date: String::from("20181018"),
            quantity: String::from("50"),
        }
    );
    assert_eq!(
        *fake.seen.borrow(),
        vec![authenticated(
            "https://pixe.la/v1/users/testuser/graphs/graphid/20181018",
            MethodType::Get,
            None,
        )]
    );
}

#[test]
fn get_pixel_takes_an_envelope_for_a_failure_even_beside_a_quantity() {
    let fake = Fake::answering(r#"{"quantity":50,"message":"refused","isSuccess":false}"#);
    let client = PixelaClient::new("testuser", "testtoken", &fake);
    match client.get_pixel("graphid", "20181018") {
        Err(PixelaClientError::RequestNotSuccess(message)) => assert_eq!(message, "refused"),
        other => panic!("unexpected {:?}", other),
    }
}

#[test]
fn increment_and_decrement_declare_an_empty_body() {
    let fake = Fake::answering(SUCCESS);
    let client = PixelaClient::new("testuser", "testtoken", &fake);
    assert!(client.increment("graphid").is_ok());
    assert!(client.decrement("graphid").is_ok());
    let step = |uri: &str| Seen {
        uri: String::from(uri),
        method: MethodType::Put,
        body: None,
        token: Some(String::from("testtoken")),
        content_length: Some(String::from("0")),
        headers: 2,
    };
    assert_eq!(
        *fake.seen.borrow(),
        vec![
            step("https://pixe.la/v1/users/testuser/graphs/graphid/increment"),
            step("https://pixe.la/v1/users/testuser/graphs/graphid/decrement"),
        ]
    );
}

#[test]
fn a_body_that_is_no_envelope_fails_an_operation_without_payload() {
    let fake = Fake::answering("<html>Bad Gateway</html>");
    let client = PixelaClient::new("testuser", "testtoken", &fake);
    assert!(matches!(
        client.increment("graphid"),
        Err(PixelaClientError::ResponseParseFailed(_))
    ));
    assert!(matches!(
        client.get_pixel("graphid", "20181018"),
        Err(PixelaClientError::ResponseParseFailed(_))
    ));
    assert!(matches!(
        client.get_graphs(),
        Err(PixelaClientError::ResponseParseFailed(_))
    ));
}
