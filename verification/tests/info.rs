use serde_json::{Number, Value};
use vmm::{ApiError, Dispatch, Method, Request, Response, StatusCode, VmInfo};

fn state() -> Value {
    let mut config = serde_json::Map::new();
    config.insert(String::from("cpus"), Value::Number(Number::from(2u64)));
    let mut fields = serde_json::Map::new();
    fields.insert(String::from("config"), Value::Object(config));
    fields.insert(String::from("state"), Value::String(String::from("Created")));
    Value::Object(fields)
}

fn serialize(info: &Value) -> String {
    serde_json::to_string(info).unwrap()
}

fn get() -> Request {
    Request::new(Method::Get, None)
}

#[test]
fn info_get_answers_200_with_the_serialized_state() {
    let mut queries = 0;
    let response = VmInfo {}.handle_request(
        &get(),
        || {
            queries += 1;
            Ok(state())
        },
        serialize,
    );
    assert_eq!(queries, 1);
    assert_eq!(response.status, StatusCode::OK);
    assert_eq!(response.status.code(), 200);
    assert_eq!(response.body, Some(serde_json::to_string(&state()).unwrap().into_bytes()));
    assert_eq!(response.body, Some(b"{\"config\":{\"cpus\":2},\"state\":\"Created\"}".to_vec()));
}

#[test]
fn info_put_answers_400_without_a_query() {
    let mut queries = 0;
    let mut serialized = 0;
    let response = VmInfo {}.handle_request(
        &Request::new(Method::Put, None),
        || {
            queries += 1;
            Ok(state())
        },
        |info| {
            serialized += 1;
            serialize(info)
        },
    );
    assert_eq!(queries, 0);
    assert_eq!(serialized, 0);
    assert_eq!(response, Response { status: StatusCode::BadRequest, body: None });
    assert_eq!(response.status.code(), 400);
}

#[test]
fn info_rejects_every_verb_but_get() {
    for method in [Method::Head, Method::Post, Method::Put, Method::Patch, Method::Delete] {
        let mut queries = 0;
        let response = VmInfo {}.handle_request(
            &Request::new(method, None),
            || {
                queries += 1;
                Ok(state())
            },
            serialize,
        );
        assert_eq!(queries, 0);
        assert_eq!(response, Response { status: StatusCode::BadRequest, body: None });
    }
}

#[test]
fn info_answers_500_when_the_query_fails() {
    let mut serialized = 0;
    let response = VmInfo {}.handle_request(
        &get(),
        || Err::<Value, ApiError>(ApiError::VmInfo(String::from("VmNotCreated"))),
        |info| {
            serialized += 1;
            serialize(info)
        },
    );
    assert_eq!(serialized, 0);
    assert_eq!(response.status, StatusCode::InternalServerError);
    assert_eq!(response.status.code(), 500);
    assert_eq!(response.body, Some(b"VmInfo(VmInfo(VmNotCreated))".to_vec()));
}

#[test]
fn info_reports_a_reply_of_the_wrong_shape() {
    let response =
        VmInfo {}.handle_request(&get(), || Err::<Value, ApiError>(ApiError::ResponsePayloadType), serialize);
    assert_eq!(response.body, Some(b"VmInfo(ResponsePayloadType)".to_vec()));
}

#[test]
fn info_repeated_answers_are_the_same_bytes() {
    let first = VmInfo {}.handle_request(&get(), || Ok(state()), serialize);
    let second = VmInfo {}.handle_request(&get(), || Ok(state()), serialize);
    assert_eq!(first, second);
    assert_eq!(first.body, second.body);
}

#[test]
fn info_body_holds_text_beyond_ascii_as_utf8() {
    let response = VmInfo {}.handle_request(&get(), || Ok(Value::String(String::from("é"))), serialize);
    assert_eq!(response.body, Some(vec![b'"', 0xc3, 0xa9, b'"']));
}

#[test]
fn info_dispatch_sends_the_query_for_get_only() {
    assert_eq!(VmInfo {}.dispatch(&get()), Dispatch::Forward(()));
    assert_eq!(
        VmInfo {}.dispatch(&Request::new(Method::Put, None)),
        Dispatch::Respond(Response { status: StatusCode::BadRequest, body: None })
    );
}

#[test]
fn info_respond_answers_each_reply() {
    assert_eq!(
        VmInfo::respond(Ok(String::from("{}"))),
        Response { status: StatusCode::OK, body: Some(b"{}".to_vec()) }
    );
    assert_eq!(
        VmInfo::respond(Err(ApiError::VmInfo(String::from("x")))),
        Response { status: StatusCode::InternalServerError, body: Some(b"VmInfo(VmInfo(x))".to_vec()) }
    );
}
