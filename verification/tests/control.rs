use ledbetter_client::control::{
    after_session, handle_request, outcome_of_start, process_message, respond, write_bytes,
    CloseData, Controller, Message, Outcome, Request, ReverseAuthParams, ReverseAuthResult,
    RunParams, SessionStep, RETRY_SECS,
};
use ledbetter_client::driver::{Driver, Status};
use ledbetter_client::error::Error;
use ledbetter_client::json::JsonFault;
use ledbetter_client::jsonrpc;

/// A driver that answers as it is told to and keeps a record of what it was
/// asked.
struct MockDriver {
    status: Status,
    start_result: Option<Result<Status, Error>>,
    play_result: Option<Status>,
    pause_result: Option<Status>,
    started_with: Vec<Vec<u8>>,
    calls: Vec<&'static str>,
}

impl MockDriver {
    fn new() -> Self {
        MockDriver {
            status: Status::NotPlaying,
            start_result: None,
            play_result: None,
            pause_result: None,
            started_with: Vec::new(),
            calls: Vec::new(),
        }
    }
}

impl Driver for MockDriver {
    fn shown(&self) -> Status {
        self.status
    }

    fn status(&self) -> Status {
        self.status
    }

    fn start(&mut self, wasm_bin: Vec<u8>) -> Result<Status, Error> {
        self.calls.push("start");
        self.started_with.push(wasm_bin);
        let result = self.start_result.take().expect("start was not expected");
        self.status = *result.as_ref().unwrap_or(&Status::NotPlaying);
        result
    }

    fn stop(&mut self) -> Status {
        self.calls.push("stop");
        self.status = Status::NotPlaying;
        self.status
    }

    fn play(&mut self) -> Status {
        self.calls.push("play");
        self.status = self.play_result.take().expect("play was not expected");
        self.status
    }

    fn pause(&mut self) -> Status {
        self.calls.push("pause");
        self.status = self.pause_result.take().expect("pause was not expected");
        self.status
    }
}

/// What the controller's side does with one request: sends it under the
/// given id and takes the response apart.
fn send_request(
    controller: &mut Controller<MockDriver>,
    request: Request,
    request_id: u32,
) -> Result<Result<serde_json::Value, serde_json::Value>, Error> {
    let jsonrpc_req = request.to_jsonrpc(request_id)?;
    let request_ser = jsonrpc_req.to_json().map_err(Error::RequestSerialization)?;
    let message = process_message(controller, Message::Text(request_ser))?;
    let jsonrpc_resp = match message {
        Message::Text(ref msg) => {
            jsonrpc::Response::from_json(msg).map_err(Error::ResponseDeserialization)?
        }
        _ => return Err(Error::UnexpectedMessage(message)),
    };
    jsonrpc_resp.validate().map_err(Error::BadJsonrpcResponse)?;
    assert_eq!(jsonrpc_resp.id, jsonrpc_req.id);
    if let Some(result) = jsonrpc_resp.result {
        return Ok(Ok(serde_json::from_str(&result).unwrap()));
    }
    if let Some(error) = jsonrpc_resp.error {
        return Ok(Err(serde_json::from_str(&error).unwrap()));
    }
    Err(Error::BadJsonrpcResponse(jsonrpc::Error::ResponseHasNeitherResultNorError))
}

fn name_value(name: &str) -> serde_json::Value {
    let mut object = serde_json::Map::new();
    object.insert("name".to_string(), serde_json::Value::String(name.to_string()));
    serde_json::Value::Object(object)
}

fn status_value(status: Status) -> serde_json::Value {
    serde_json::Value::String(status.name().to_string())
}

#[test]
fn test_connect_process_reverse_auth() {
    let mock_driver = MockDriver::new();
    let mut controller = Controller::new("test", mock_driver);
    let request = Request::ReverseAuth(ReverseAuthParams {
        challenge: "476b76368dbd5028c2f371d2a7018e32".to_string(),
    });
    let result = send_request(&mut controller, request, 0).unwrap();
    let expected = ReverseAuthResult { name: "test".to_string() };
    assert_eq!(result, Ok(name_value(&expected.name)));
    assert!(controller.driver().calls.is_empty());
}

#[test]
fn test_connect_process_run_with_good_wasm() {
    let mut mock_driver = MockDriver::new();
    mock_driver.start_result = Some(Ok(Status::Playing));
    let mut controller = Controller::new("test", mock_driver);
    let request = Request::Run(RunParams { wasm: base64::encode(b"this isn't wasm") });
    let result = send_request(&mut controller, request, 0).unwrap();
    let expected = Status::Playing;
    assert_eq!(result, Ok(status_value(expected)));
    assert_eq!(controller.driver().started_with, vec![b"this isn't wasm".to_vec()]);
}

#[test]
fn test_connect_process_run_with_bad_wasm() {
    let mut mock_driver = MockDriver::new();
    mock_driver.start_result = Some(Err(Error::Wasm3("this Wasm can go to hell".to_string())));
    let mut controller = Controller::new("test", mock_driver);
    let request = Request::Run(RunParams { wasm: base64::encode(b"this isn't wasm") });
    let result = send_request(&mut controller, request, 0).unwrap();
    let expected = Error::Wasm3("this Wasm can go to hell".to_string()).message();
    assert_eq!(expected, "this Wasm can go to hell");
    assert_eq!(result, Err(serde_json::Value::String(expected)));
}

#[test]
fn test_connect_process_play() {
    let mut mock_driver = MockDriver::new();
    mock_driver.play_result = Some(Status::Playing);
    let mut controller = Controller::new("test", mock_driver);
    let request = Request::Play;
    let result = send_request(&mut controller, request, 0).unwrap();
    let expected = Status::Playing;
    assert_eq!(result, Ok(status_value(expected)));
}

#[test]
fn test_parse_null_params() {
    serde_json::from_str::<()>("null").unwrap()
}

#[test]
fn reverse_auth_answers_with_the_exact_text() {
    let mut controller = Controller::new("test", MockDriver::new());
    let request = "{\"jsonrpc\":\"2.0\",\"id\":0,\"method\":\"reverse_auth\",\"params\":{\"challenge\":\"476b76368dbd5028c2f371d2a7018e32\"}}";
    let reply = process_message(&mut controller, Message::Text(request.to_string())).unwrap();
    assert_eq!(
        reply,
        Message::Text("{\"jsonrpc\":\"2.0\",\"id\":0,\"result\":{\"name\":\"test\"}}".to_string())
    );
}

#[test]
fn run_answers_with_the_exact_text() {
    let mut mock_driver = MockDriver::new();
    mock_driver.start_result = Some(Ok(Status::Playing));
    let mut controller = Controller::new("test", mock_driver);
    let request = format!(
        "{{\"jsonrpc\":\"2.0\",\"id\":1,\"method\":\"run\",\"params\":{{\"wasm\":\"{}\"}}}}",
        base64::encode([0u8, 97, 115, 109, 1, 0, 0, 0])
    );
    let reply = process_message(&mut controller, Message::Text(request)).unwrap();
    assert_eq!(
        reply,
        Message::Text("{\"jsonrpc\":\"2.0\",\"id\":1,\"result\":\"Playing\"}".to_string())
    );
    assert_eq!(controller.driver().started_with, vec![vec![0u8, 97, 115, 109, 1, 0, 0, 0]]);
}

#[test]
fn pause_answers_paused() {
    let mut mock_driver = MockDriver::new();
    mock_driver.pause_result = Some(Status::Paused);
    let mut controller = Controller::new("test", mock_driver);
    let result = send_request(&mut controller, Request::Pause, 4).unwrap();
    assert_eq!(result, Ok(serde_json::Value::String("Paused".to_string())));
    assert_eq!(controller.driver().calls, vec!["pause"]);
}

#[test]
fn stop_and_get_status_reach_the_driver() {
    let mut mock_driver = MockDriver::new();
    mock_driver.status = Status::Paused;
    let mut controller = Controller::new("test", mock_driver);
    let result = send_request(&mut controller, Request::GetStatus, 1).unwrap();
    assert_eq!(result, Ok(serde_json::Value::String("Paused".to_string())));
    let result = send_request(&mut controller, Request::Stop, 2).unwrap();
    assert_eq!(result, Ok(serde_json::Value::String("NotPlaying".to_string())));
    assert_eq!(controller.driver().calls, vec!["stop"]);
}

#[test]
fn id_comes_back_byte_for_byte() {
    let mut mock_driver = MockDriver::new();
    mock_driver.play_result = Some(Status::Playing);
    let mut controller = Controller::new("test", mock_driver);
    let request = jsonrpc::Request {
        jsonrpc: "2.0".to_string(),
        id: "\"\\u0041-7\"".to_string(),
        method: "play".to_string(),
        params: "[ ]".to_string(),
    };
    let response = handle_request(&mut controller, &request).unwrap();
    assert_eq!(response.id, "\"\\u0041-7\"");
    assert_eq!(response.result, Some("\"Playing\"".to_string()));
    assert_eq!(response.error, None);
    assert_eq!(
        response.to_json().unwrap(),
        "{\"jsonrpc\":\"2.0\",\"id\":\"\\u0041-7\",\"result\":\"Playing\"}"
    );
}

#[test]
fn run_with_text_that_is_no_base64_is_an_error_response() {
    let mut controller = Controller::new("test", MockDriver::new());
    let request = Request::Run(RunParams { wasm: "not base64!".to_string() });
    let result = send_request(&mut controller, request, 3).unwrap();
    let expected = base64::decode("not base64!").unwrap_err().to_string();
    assert_eq!(result, Err(serde_json::Value::String(expected)));
    assert!(controller.driver().calls.is_empty());
}

#[test]
fn decode_is_the_inverse_of_encode() {
    let bytes: Vec<u8> = (0..=255u8).collect();
    let params = RunParams { wasm: base64::encode(&bytes) };
    assert_eq!(params.decode().unwrap(), bytes);
    let empty = RunParams { wasm: String::new() };
    assert_eq!(empty.decode().unwrap(), Vec::<u8>::new());
    let bad = RunParams { wasm: "a".to_string() };
    assert!(matches!(bad.decode(), Err(Error::BadWasmEncoding(_))));
}

#[test]
fn an_unknown_method_is_answered_with_an_error() {
    let mut mock_driver = MockDriver::new();
    mock_driver.status = Status::Paused;
    let mut controller = Controller::new("test", mock_driver);
    let request = "{\"jsonrpc\":\"2.0\",\"id\":\"r-9\",\"method\":\"dance\",\"params\":[]}";
    let reply = process_message(&mut controller, Message::Text(request.to_string())).unwrap();
    assert_eq!(
        reply,
        Message::Text(
            "{\"jsonrpc\":\"2.0\",\"id\":\"r-9\",\"error\":\"Unknown RPC method from controller: \\\"dance\\\"\"}"
                .to_string()
        )
    );
    assert!(controller.driver().calls.is_empty());
    assert_eq!(controller.driver().status(), Status::Paused);
    assert_eq!(
        Error::UnknownRpcMethod("dance".to_string()).message(),
        "Unknown RPC method from controller: \"dance\""
    );
    // the session goes on
    let reply = process_message(&mut controller, Message::Ping(vec![7])).unwrap();
    assert_eq!(reply, Message::Pong(vec![7]));
}

#[test]
fn parameters_of_the_wrong_shape_are_answered_with_an_error() {
    let ask = |method: &str, params: &str| -> jsonrpc::Response {
        let mut controller = Controller::new("test", MockDriver::new());
        let request = jsonrpc::Request {
            jsonrpc: "2.0".to_string(),
            id: "41".to_string(),
            method: method.to_string(),
            params: params.to_string(),
        };
        let response = handle_request(&mut controller, &request).unwrap();
        assert!(controller.driver().calls.is_empty());
        assert!(response.validate().is_ok());
        assert_eq!(response.id, "41");
        assert_eq!(response.result, None);
        response
    };
    assert_eq!(ask("run", "{}").error, Some("\"missing field `wasm`\"".to_string()));
    assert_eq!(
        ask("reverse_auth", "{\"name\":\"x\"}").error,
        Some("\"missing field `challenge`\"".to_string())
    );
    assert_eq!(
        ask("play", "[1]").error,
        Some("\"expected an empty parameter list\"".to_string())
    );
    assert_eq!(
        ask("stop", "[[], 2]").error,
        Some("\"expected an empty parameter list\"".to_string())
    );
    let codec_account = serde_json::from_str::<Vec<serde_json::Value>>("{}").unwrap_err();
    assert_eq!(
        ask("pause", "{}").error,
        Some(serde_json::to_string(&codec_account.to_string()).unwrap())
    );
    let codec_account = serde_json::from_str::<String>("3").unwrap_err();
    assert_eq!(
        ask("run", "{\"wasm\":3}").error,
        Some(serde_json::to_string(&codec_account.to_string()).unwrap())
    );
}

#[test]
fn an_envelope_of_another_version_ends_the_session() {
    let mut controller = Controller::new("test", MockDriver::new());
    let request = "{\"jsonrpc\":\"1.0\",\"id\":0,\"method\":\"play\",\"params\":[]}";
    match process_message(&mut controller, Message::Text(request.to_string())) {
        Err(Error::BadJsonrpcRequest(jsonrpc::Error::BadJsonrpcVersion(version))) => {
            assert_eq!(version, "1.0")
        }
        other => panic!("unexpected: {:?}", other),
    }
    let request = "{\"jsonrpc\":\"1.0\",\"id\":0,\"method\":\"dance\",\"params\":7}";
    assert!(matches!(
        process_message(&mut controller, Message::Text(request.to_string())),
        Err(Error::BadJsonrpcRequest(_))
    ));
    assert!(controller.driver().calls.is_empty());
}

#[test]
fn a_failed_start_is_answered_with_the_text_of_its_error() {
    let failed = outcome_of_start(Err(Error::Wasm3("this Wasm can go to hell".to_string())));
    assert!(matches!(&failed, Outcome::Failed(text) if text == "this Wasm can go to hell"));
    assert_eq!(
        respond("0", &failed).unwrap().error,
        Some("\"this Wasm can go to hell\"".to_string())
    );
    assert!(matches!(
        outcome_of_start(Err(Error::ThreadPanicked)),
        Outcome::Failed(text) if text == "driver thread panicked"
    ));
    assert!(matches!(outcome_of_start(Ok(Status::Playing)), Outcome::Status(Status::Playing)));
}

#[test]
fn a_call_is_read_only_from_parameters_of_its_shape() {
    let envelope = |method: &str, params: &str| jsonrpc::Request {
        jsonrpc: "2.0".to_string(),
        id: "0".to_string(),
        method: method.to_string(),
        params: params.to_string(),
    };
    assert!(matches!(
        Request::from_jsonrpc(&envelope("play", "[1]")),
        Err(Error::RequestDeserialization(JsonFault::UnexpectedItems))
    ));
    assert!(matches!(
        Request::from_jsonrpc(&envelope("play", "{}")),
        Err(Error::RequestDeserialization(JsonFault::Codec(_)))
    ));
    assert!(matches!(
        Request::from_jsonrpc(&envelope("run", "{}")),
        Err(Error::RequestDeserialization(JsonFault::MissingField(name))) if name == "wasm"
    ));
    assert!(matches!(
        Request::from_jsonrpc(&envelope("run", "{\"wasm\":3}")),
        Err(Error::RequestDeserialization(JsonFault::Codec(_)))
    ));
    assert!(matches!(
        Request::from_jsonrpc(&envelope("reverse_auth", "[]")),
        Err(Error::RequestDeserialization(JsonFault::Codec(_)))
    ));
    assert!(matches!(Request::from_jsonrpc(&envelope("stop", " [ ] ")), Ok(Request::Stop)));
    assert!(matches!(
        Request::from_jsonrpc(&envelope("get_status", "[]")),
        Ok(Request::GetStatus)
    ));
    assert!(matches!(Request::from_jsonrpc(&envelope("pause", "[]")), Ok(Request::Pause)));
}

#[test]
fn a_request_of_another_version_is_refused() {
    let request = jsonrpc::Request {
        jsonrpc: "1.0".to_string(),
        id: "0".to_string(),
        method: "play".to_string(),
        params: "[]".to_string(),
    };
    match Request::from_jsonrpc(&request) {
        Err(Error::BadJsonrpcRequest(jsonrpc::Error::BadJsonrpcVersion(version))) => {
            assert_eq!(version, "1.0")
        }
        other => panic!("unexpected: {:?}", other),
    }
}

#[test]
fn requests_go_into_envelopes_and_back() {
    let requests = vec![
        Request::ReverseAuth(ReverseAuthParams { challenge: "a \"quoted\" one".to_string() }),
        Request::GetStatus,
        Request::Run(RunParams { wasm: "AGFzbQ==".to_string() }),
        Request::Play,
        Request::Pause,
        Request::Stop,
    ];
    let methods = ["reverse_auth", "get_status", "run", "play", "pause", "stop"];
    for (n, request) in requests.iter().enumerate() {
        let envelope = request.to_jsonrpc(4_000_000_000 + n as u32).unwrap();
        assert_eq!(envelope.jsonrpc, "2.0");
        assert_eq!(envelope.id, format!("{}", 4_000_000_000u32 + n as u32));
        assert_eq!(envelope.method, methods[n]);
        let text = envelope.to_json().unwrap();
        let read = jsonrpc::Request::from_json(&text).unwrap();
        assert_eq!(read.id, envelope.id);
        assert_eq!(read.params, envelope.params);
        let back = Request::from_jsonrpc(&read).unwrap();
        assert_eq!(format!("{:?}", back), format!("{:?}", request));
    }
    let run = Request::Run(RunParams { wasm: "AGFzbQ==".to_string() });
    assert_eq!(run.to_jsonrpc(7).unwrap().params, "{\"wasm\":\"AGFzbQ==\"}");
    assert_eq!(Request::Play.to_jsonrpc(7).unwrap().params, "[]");
}

#[test]
fn the_handlers_answer_with_what_the_driver_shows() {
    let mut mock_driver = MockDriver::new();
    mock_driver.status = Status::Playing;
    mock_driver.pause_result = Some(Status::Paused);
    mock_driver.play_result = Some(Status::Playing);
    let mut controller = Controller::new("test", mock_driver);
    assert_eq!(controller.handle_get_status(), Status::Playing);
    assert_eq!(controller.handle_pause(), Status::Paused);
    assert_eq!(controller.handle_get_status(), Status::Paused);
    assert_eq!(controller.driver().status(), Status::Paused);
    assert_eq!(controller.handle_play(), Status::Playing);
    assert_eq!(controller.handle_get_status(), Status::Playing);
    assert_eq!(controller.handle_stop(), Status::NotPlaying);
    assert_eq!(controller.handle_get_status(), Status::NotPlaying);
    assert_eq!(controller.driver().calls, vec!["pause", "play", "stop"]);
}

#[test]
fn ping_is_answered_by_pong() {
    let mut controller = Controller::new("test", MockDriver::new());
    let reply = process_message(&mut controller, Message::Ping(vec![1, 2, 3])).unwrap();
    assert_eq!(reply, Message::Pong(vec![1, 2, 3]));
    let reply = process_message(&mut controller, Message::Ping(vec![])).unwrap();
    assert_eq!(reply, Message::Pong(vec![]));
}

fn owned(message: &Message) -> websocket::OwnedMessage {
    match message.clone() {
        Message::Text(text) => websocket::OwnedMessage::Text(text),
        Message::Binary(bytes) => websocket::OwnedMessage::Binary(bytes),
        Message::Close(data) => websocket::OwnedMessage::Close(data.map(|data| {
            websocket::CloseData { status_code: data.status_code, reason: data.reason }
        })),
        Message::Ping(payload) => websocket::OwnedMessage::Ping(payload),
        Message::Pong(payload) => websocket::OwnedMessage::Pong(payload),
    }
}

#[test]
fn other_frames_end_the_session() {
    let frames = vec![
        (Message::Binary(vec![0]), "Binary([0])"),
        (Message::Binary(vec![]), "Binary([])"),
        (Message::Pong(vec![9, 255, 10]), "Pong([9, 255, 10])"),
        (Message::Close(None), "Close(None)"),
        (
            Message::Close(Some(CloseData { status_code: 1000, reason: "bye".to_string() })),
            "Close(Some(CloseData { status_code: 1000, reason: \"bye\" }))",
        ),
    ];
    for (frame, shown) in frames {
        let mut controller = Controller::new("test", MockDriver::new());
        match process_message(&mut controller, frame.clone()) {
            Err(Error::UnexpectedMessage(message)) => {
                assert_eq!(message, frame);
                assert_eq!(
                    Error::UnexpectedMessage(message).message(),
                    format!("Unexpected message from controller: {}", shown)
                );
            }
            other => panic!("unexpected: {:?}", other),
        }
        assert!(controller.driver().calls.is_empty());
    }
}

#[test]
fn frames_are_shown_as_the_transport_shows_them() {
    let frames = vec![
        Message::Text("say \"hi\"\n".to_string()),
        Message::Text(String::new()),
        Message::Binary(vec![]),
        Message::Binary(vec![0, 1, 99, 100, 255]),
        Message::Ping(vec![7]),
        Message::Pong(vec![10, 20]),
        Message::Close(None),
        Message::Close(Some(CloseData { status_code: 0, reason: String::new() })),
        Message::Close(Some(CloseData { status_code: 65535, reason: "a \\ b".to_string() })),
    ];
    for frame in frames {
        assert_eq!(frame.debug_text(), format!("{:?}", owned(&frame)));
    }
    assert_eq!(write_bytes(&vec![1, 22, 133]), "[1, 22, 133]");
}

#[test]
fn text_that_is_no_request_ends_the_session() {
    let mut controller = Controller::new("test", MockDriver::new());
    assert!(matches!(
        process_message(&mut controller, Message::Text("{".to_string())),
        Err(Error::RequestDeserialization(JsonFault::Codec(_)))
    ));
    assert!(matches!(
        process_message(
            &mut controller,
            Message::Text("{\"jsonrpc\":\"2.0\",\"id\":1}".to_string())
        ),
        Err(Error::RequestDeserialization(JsonFault::MissingField(name))) if name == "method"
    ));
    assert!(matches!(
        process_message(&mut controller, Message::Text("[]".to_string())),
        Err(Error::RequestDeserialization(JsonFault::Codec(_)))
    ));
}

#[test]
fn respond_puts_each_outcome_in_its_place() {
    let named =
        respond("5", &Outcome::Name(ReverseAuthResult { name: "left wall".to_string() })).unwrap();
    assert_eq!(named.result, Some("{\"name\":\"left wall\"}".to_string()));
    assert_eq!(named.error, None);
    assert_eq!(named.id, "5");
    assert_eq!(named.jsonrpc, "2.0");
    let status = respond("\"x\"", &Outcome::Status(Status::NotPlaying)).unwrap();
    assert_eq!(status.result, Some("\"NotPlaying\"".to_string()));
    assert_eq!(status.error, None);
    let failed = respond("6", &Outcome::Failed("it \"broke\"".to_string())).unwrap();
    assert_eq!(failed.result, None);
    assert_eq!(failed.error, Some("\"it \\\"broke\\\"\"".to_string()));
    assert!(failed.validate().is_ok());
}

#[test]
fn a_broken_session_is_retried_after_five_seconds() {
    assert_eq!(RETRY_SECS, 5);
    assert_eq!(after_session(&Ok(())), SessionStep::Finish);
    assert_eq!(
        after_session(&Err(Error::WebSocketError("connection reset".to_string()))),
        SessionStep::Reconnect { delay_secs: 5 }
    );
    assert_eq!(
        after_session(&Err(Error::UnknownRpcMethod("dance".to_string()))),
        SessionStep::Reconnect { delay_secs: 5 }
    );
}

#[test]
fn errors_describe_themselves() {
    assert_eq!(
        Error::UnsupportedOutput { target: "rpi", feature: "rpi" }.message(),
        "output target \"rpi\" is not available unless compiled with \"rpi\" feature"
    );
    assert_eq!(Error::ThreadPanicked.message(), "driver thread panicked");
    assert_eq!(Error::UrlParseError("empty host".to_string()).message(), "empty host");
    assert_eq!(Error::WebSocketError("closed".to_string()).message(), "closed");
    assert_eq!(Error::TerminalOutput("broken pipe".to_string()).message(), "broken pipe");
    assert_eq!(Error::RpiWS2111x("no dma".to_string()).message(), "no dma");
    assert_eq!(
        Error::RequestDeserialization(JsonFault::MissingField("wasm".to_string())).message(),
        "missing field `wasm`"
    );
    assert_eq!(
        Error::RequestSerialization(JsonFault::UnexpectedItems).message(),
        "expected an empty parameter list"
    );
    assert_eq!(
        Error::ResponseDeserialization(JsonFault::Codec("EOF".to_string())).message(),
        "EOF"
    );
    assert_eq!(
        Error::ResponseSerialization(JsonFault::Codec("odd".to_string())).message(),
        "odd"
    );
    assert_eq!(
        Error::BadJsonrpcRequest(jsonrpc::Error::BadJsonrpcVersion("3.0".to_string())).message(),
        "jsonrpc version field is not \"2.0\": 3.0"
    );
    assert_eq!(
        Error::BadJsonrpcResponse(jsonrpc::Error::ResponseHasBothResultAndError).message(),
        "ResponseHasBothResultAndError"
    );
    assert_eq!(
        jsonrpc::Error::ResponseHasNeitherResultNorError.message(),
        "ResponseHasNeitherResultNorError"
    );
    assert_eq!(
        Error::BadWasmEncoding(base64::decode("****").unwrap_err()).message(),
        "Invalid byte 42, offset 0."
    );
    assert_eq!(
        Error::UnknownRpcMethod("a\"b".to_string()).message(),
        "Unknown RPC method from controller: \"a\\\"b\""
    );
}
