use ledbetter_client::json::{decimal_text, JsonFault};
use ledbetter_client::jsonrpc::{Error, Request, Response};

fn raw_number(value: u32) -> String {
    serde_json::value::to_raw_value(&value).unwrap().get().to_string()
}

fn raw_string(value: &str) -> String {
    serde_json::value::to_raw_value(value).unwrap().get().to_string()
}

#[test]
fn test_deserialize_request() {
    let req_str = "{\"jsonrpc\":\"2.0\",\"id\":0,\"method\":\"add\",\"params\":[1,\"2\",null]}";
    let req = Request::from_json(req_str).unwrap();
    req.validate().unwrap();
    assert_eq!(req.id, "0");
    assert_eq!(req.method, "add");
    assert_eq!(req.params, "[1,\"2\",null]");
}

#[test]
fn test_deserialize_invalid_request_jsonrpc_version() {
    let req_str = "{\"jsonrpc\":\"3.0\",\"id\":0,\"method\":\"add\",\"params\":[1,\"2\",null]}";
    let req = Request::from_json(req_str).unwrap();
    assert!(matches!(req.validate(), Err(Error::BadJsonrpcVersion(_))));
}

#[test]
fn test_deserialize_non_error_response() {
    let resp_str = "{\"jsonrpc\":\"2.0\",\"id\":0,\"result\":3}";
    let resp = Response::from_json(resp_str).unwrap();
    resp.validate().unwrap();
    assert_eq!(resp.id, "0");
    assert!(matches!(resp.result, Some(v) if v == "3"));
    assert!(resp.error.is_none());
}

#[test]
fn test_deserialize_error_response() {
    let resp_str = "{\"jsonrpc\":\"2.0\",\"id\":0,\"error\":\"null arg\"}";
    let resp = Response::from_json(resp_str).unwrap();
    resp.validate().unwrap();
    assert_eq!(resp.id, "0");
    assert!(resp.result.is_none());
    assert!(matches!(resp.error, Some(v) if v == "\"null arg\""));
}

#[test]
fn test_deserialize_invalid_response_with_result_and_error() {
    let resp_str = "{\"jsonrpc\":\"2.0\",\"id\":0,\"result\":3,\"error\":\"null arg\"}";
    let resp = Response::from_json(resp_str).unwrap();
    assert!(matches!(resp.validate(), Err(Error::ResponseHasBothResultAndError)));
}

#[test]
fn test_deserialize_invalid_response_with_neither_result_nor_error() {
    let resp_str = "{\"jsonrpc\":\"2.0\",\"id\":0}";
    let resp = Response::from_json(resp_str).unwrap();
    assert!(matches!(resp.validate(), Err(Error::ResponseHasNeitherResultNorError)));
}

#[test]
fn test_deserialize_invalid_response_jsonrpc_version() {
    let resp_str = "{\"jsonrpc\":\"1.0\",\"id\":0,\"result\":3}";
    let resp = Response::from_json(resp_str).unwrap();
    assert!(matches!(resp.validate(), Err(Error::BadJsonrpcVersion(_))));
}

#[test]
fn test_serialize_non_error_response() {
    let resp = Response {
        jsonrpc: "2.0".to_string(),
        id: raw_number(0),
        result: Some(raw_number(3)),
        error: None,
    };
    let expected_str = "{\"jsonrpc\":\"2.0\",\"id\":0,\"result\":3}";
    let resp_str = resp.to_json().unwrap();
    assert_eq!(resp_str, expected_str);
}

#[test]
fn test_serialize_error_response() {
    let resp = Response {
        jsonrpc: "2.0".to_string(),
        id: raw_number(0),
        result: None,
        error: Some(raw_string("null arg")),
    };
    let expected_str = "{\"jsonrpc\":\"2.0\",\"id\":0,\"error\":\"null arg\"}";
    let resp_str = resp.to_json().unwrap();
    assert_eq!(resp_str, expected_str);
}

#[test]
fn responses_go_into_text_and_back() {
    let responses = vec![
        Response {
            jsonrpc: "2.0".to_string(),
            id: raw_string("a-7"),
            result: Some("{\"name\":\"test\"}".to_string()),
            error: None,
        },
        Response {
            jsonrpc: "2.0".to_string(),
            id: raw_number(12),
            result: None,
            error: Some(raw_string("it \"broke\"")),
        },
        Response {
            jsonrpc: "2.0".to_string(),
            id: "null".to_string(),
            result: Some("null".to_string()),
            error: None,
        },
    ];
    for response in responses {
        assert!(response.validate().is_ok());
        let read = Response::from_json(&response.to_json().unwrap()).unwrap();
        assert_eq!(read.jsonrpc, response.jsonrpc);
        assert_eq!(read.id, response.id);
        assert_eq!(read.result, response.result);
        assert_eq!(read.error, response.error);
    }
}

#[test]
fn requests_go_into_text_and_back() {
    let request = Request {
        jsonrpc: "2.0".to_string(),
        id: raw_string("q\\1"),
        method: "say \"hi\"".to_string(),
        params: "{\"a\":[1,{\"b\":null}]}".to_string(),
    };
    let text = request.to_json().unwrap();
    assert_eq!(
        text,
        "{\"jsonrpc\":\"2.0\",\"id\":\"q\\\\1\",\"method\":\"say \\\"hi\\\"\",\"params\":{\"a\":[1,{\"b\":null}]}}"
    );
    let read = Request::from_json(&text).unwrap();
    assert_eq!(read.jsonrpc, request.jsonrpc);
    assert_eq!(read.id, request.id);
    assert_eq!(read.method, request.method);
    assert_eq!(read.params, request.params);
}

#[test]
fn members_are_found_whatever_stands_around_them() {
    let text = " { \"extra\" : [ 1 , 2 ] , \"params\" : { \"k\" : \"v\" } , \"method\" : \"a\\u0062c\" , \"id\" : \"x\" , \"jsonrpc\" : \"2.0\" } ";
    let request = Request::from_json(text).unwrap();
    request.validate().unwrap();
    assert_eq!(request.id, "\"x\"");
    assert_eq!(request.method, "abc");
    assert_eq!(request.params, "{ \"k\" : \"v\" }");
}

#[test]
fn texts_that_are_no_envelopes_are_refused() {
    assert!(matches!(Request::from_json("{\"jsonrpc\":\"2.0\""), Err(JsonFault::Codec(_))));
    assert!(matches!(Request::from_json("[1]"), Err(JsonFault::Codec(_))));
    assert!(matches!(
        Request::from_json("{\"id\":1,\"method\":\"m\",\"params\":[]}"),
        Err(JsonFault::MissingField(name)) if name == "jsonrpc"
    ));
    assert!(matches!(
        Request::from_json("{\"jsonrpc\":\"2.0\",\"method\":\"m\",\"params\":[]}"),
        Err(JsonFault::MissingField(name)) if name == "id"
    ));
    assert!(matches!(
        Request::from_json("{\"jsonrpc\":\"2.0\",\"id\":1,\"method\":\"m\"}"),
        Err(JsonFault::MissingField(name)) if name == "params"
    ));
    assert!(matches!(
        Request::from_json("{\"jsonrpc\":2.0,\"id\":1,\"method\":\"m\",\"params\":[]}"),
        Err(JsonFault::Codec(_))
    ));
    assert!(matches!(
        Response::from_json("{\"id\":1,\"result\":3}"),
        Err(JsonFault::MissingField(name)) if name == "jsonrpc"
    ));
    let null_result =
        Response::from_json("{\"jsonrpc\":\"2.0\",\"id\":1,\"result\":null}").unwrap();
    assert_eq!(null_result.result, Some("null".to_string()));
    assert!(null_result.validate().is_ok());
}

#[test]
fn numbers_are_written_in_decimal_digits() {
    assert_eq!(decimal_text(0), "0");
    assert_eq!(decimal_text(7), "7");
    assert_eq!(decimal_text(10), "10");
    assert_eq!(decimal_text(1_000_000), "1000000");
    assert_eq!(decimal_text(u32::MAX), "4294967295");
}
