use pixelast::http_client::{HeaderType, MethodType};
use pixelast::user::{create_request, delete_request, update_request, ConsentAnswer, CreateUserParam};
use pixelast::Authentication;

fn auth() -> Authentication {
    Authentication {
        username: String::from("testuser"),
        token: String::from("testtoken"),
    }
}

#[test]
fn create_user_param_serialize_test() {
    let param = CreateUserParam {
        token: "testtoken".to_owned(),
        username: "testuser".to_owned(),
        agree_terms_of_service: ConsentAnswer::Yes,
        not_minor: ConsentAnswer::No,
    };

    let v = param.to_json();
    assert_eq!(
        v,
        r#"{"token":"testtoken","username":"testuser","agreeTermsOfService":"yes","notMinor":"no"}"#
    );
}

#[test]
fn consent_answer_to_json() {
    assert_eq!(ConsentAnswer::Yes.to_json(), "\"yes\"");
    assert_eq!(ConsentAnswer::No.to_json(), "\"no\"");
}

#[test]
fn create_request_carries_no_token() {
    let param = CreateUserParam {
        token: "testtoken".to_owned(),
        username: "testuser".to_owned(),
        agree_terms_of_service: ConsentAnswer::Yes,
        not_minor: ConsentAnswer::Yes,
    };
    let context = create_request(&param);
    assert_eq!(context.uri(), "https://pixe.la/v1/users");
    assert_eq!(context.method(), MethodType::Post);
    assert_eq!(
        context.body(),
        Some(r#"{"token":"testtoken","username":"testuser","agreeTermsOfService":"yes","notMinor":"yes"}"#)
    );
    assert_eq!(context.header(HeaderType::UserToken), None);
    assert!(context.headers().is_empty());
}

#[test]
fn update_request_puts_the_new_token() {
    let context = update_request(&auth(), "new\"token");
    assert_eq!(context.uri(), "https://pixe.la/v1/users/testuser");
    assert_eq!(context.method(), MethodType::Put);
    assert_eq!(context.body(), Some(r#"{"newToken":"new\"token"}"#));
    assert_eq!(context.header(HeaderType::UserToken), Some("testtoken"));
    assert_eq!(context.headers().len(), 1);
}

#[test]
fn delete_request_names_the_user() {
    let context = delete_request(&auth());
    assert_eq!(context.uri(), "https://pixe.la/v1/users/testuser");
    assert_eq!(context.method(), MethodType::Delete);
    assert_eq!(context.body(), None);
    assert_eq!(context.header(HeaderType::UserToken), Some("testtoken"));
    assert_eq!(context.headers().len(), 1);
}
