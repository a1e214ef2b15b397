//! The control plane: the methods a controller may call, the dispatcher that
//! binds them to a driver, and what the endpoint answers to each frame.

use crate::driver::{permitted, Driver, DriverOp, Status};
use crate::encoding::{base64_decoded, debug_literal, debug_quoted, decode};
use crate::error::{Error, ErrorView};
use crate::json::{
    decimal, decimal_text, empty_array, json_object_members, json_string_literal, parse_object,
    print_string, read_empty_array, read_string_member, string_member, FaultKind,
    JsonFault,
};
use crate::jsonrpc;
use vstd::prelude::*;
use vstd::string::*;

verus! {

/// Parameters of `run`: the program, base64 encoded.
#[derive(Debug, Clone)]
pub struct RunParams {
    pub wasm: String,
}

/// Parameters of `reverse_auth`.
#[derive(Debug, Clone)]
pub struct ReverseAuthParams {
    pub challenge: String,
}

/// Result of `reverse_auth`: the name the driver goes by.
#[derive(Debug, Clone)]
pub struct ReverseAuthResult {
    pub name: String,
}

/// A call that the controller may make.
#[derive(Debug, Clone)]
pub enum Request {
    ReverseAuth(ReverseAuthParams),
    GetStatus,
    Run(RunParams),
    Play,
    Pause,
    Stop,
}

/// What a [`Request`] asks for.
pub enum RequestView {
    ReverseAuth { challenge: Seq<char> },
    GetStatus,
    Run { wasm: Seq<char> },
    Play,
    Pause,
    Stop,
}

impl View for Request {
    type V = RequestView;

    open spec fn view(&self) -> RequestView {
        match self {
            Request::ReverseAuth(params) => RequestView::ReverseAuth {
                challenge: params.challenge@,
            },
            Request::GetStatus => RequestView::GetStatus,
            Request::Run(params) => RequestView::Run { wasm: params.wasm@ },
            Request::Play => RequestView::Play,
            Request::Pause => RequestView::Pause,
            Request::Stop => RequestView::Stop,
        }
    }
}

/// The string member `name` of the JSON object that `params` spells.
pub open spec fn string_param(params: Seq<char>, name: Seq<char>) -> Result<Seq<char>, FaultKind> {
    match json_object_members(params) {
        None => Err(FaultKind::Codec),
        Some(members) => string_member(members, name),
    }
}

/// What a method that takes a single string parameter makes of `params`.
pub open spec fn with_string_param(
    params: Seq<char>,
    name: Seq<char>,
    make: spec_fn(Seq<char>) -> RequestView,
) -> Result<RequestView, ErrorView> {
    match string_param(params, name) {
        Ok(value) => Ok(make(value)),
        Err(kind) => Err(ErrorView::RequestDeserialization(kind)),
    }
}

/// What a method that takes no parameters makes of `params`.
pub open spec fn without_params(params: Seq<char>, request: RequestView) -> Result<
    RequestView,
    ErrorView,
> {
    match empty_array(params) {
        Ok(()) => Ok(request),
        Err(kind) => Err(ErrorView::RequestDeserialization(kind)),
    }
}

/// The call that an envelope holds, or why it holds none: the version is
/// checked first, then the method picks the shape that `params` must have.
pub open spec fn request_of_jsonrpc(envelope: jsonrpc::RequestView) -> Result<
    RequestView,
    ErrorView,
> {
    if envelope.jsonrpc != jsonrpc::version() {
        Err(ErrorView::BadJsonrpcRequest(jsonrpc::ErrorView::BadJsonrpcVersion(envelope.jsonrpc)))
    } else if envelope.method == "reverse_auth"@ {
        with_string_param(
            envelope.params,
            "challenge"@,
            |challenge: Seq<char>| RequestView::ReverseAuth { challenge },
        )
    } else if envelope.method == "get_status"@ {
        without_params(envelope.params, RequestView::GetStatus)
    } else if envelope.method == "run"@ {
        with_string_param(envelope.params, "wasm"@, |wasm: Seq<char>| RequestView::Run { wasm })
    } else if envelope.method == "play"@ {
        without_params(envelope.params, RequestView::Play)
    } else if envelope.method == "pause"@ {
        without_params(envelope.params, RequestView::Pause)
    } else if envelope.method == "stop"@ {
        without_params(envelope.params, RequestView::Stop)
    } else {
        Err(ErrorView::UnknownRpcMethod(envelope.method))
    }
}

/// The method name of a call.
pub open spec fn method_name(request: RequestView) -> Seq<char> {
    match request {
        RequestView::ReverseAuth { .. } => "reverse_auth"@,
        RequestView::GetStatus => "get_status"@,
        RequestView::Run { .. } => "run"@,
        RequestView::Play => "play"@,
        RequestView::Pause => "pause"@,
        RequestView::Stop => "stop"@,
    }
}

/// A JSON object with the single member `name`, given the literal of its
/// string value.
pub open spec fn single_member_text(name: Seq<char>, literal: Seq<char>) -> Seq<char> {
    "{\""@ + name + "\":"@ + literal + "}"@
}

/// The JSON text of a call's parameters.
pub open spec fn params_json(request: RequestView) -> Seq<char> {
    match request {
        RequestView::ReverseAuth { challenge } => single_member_text(
            "challenge"@,
            json_string_literal(challenge),
        ),
        RequestView::Run { wasm } => single_member_text("wasm"@, json_string_literal(wasm)),
        _ => "[]"@,
    }
}

/// The envelope that carries a call under the given id: the id in decimal
/// digits, the method's name, and the parameters.
pub open spec fn jsonrpc_of_request(request: RequestView, id: u32) -> jsonrpc::RequestView {
    jsonrpc::RequestView {
        jsonrpc: jsonrpc::version(),
        id: decimal(id as nat),
        method: method_name(request),
        params: params_json(request),
    }
}

/// Reads the string parameter `name` from the JSON object in `params`.
pub fn read_string_param(params: &str, name: &str) -> (r: Result<String, JsonFault>)
    ensures
        match string_param(params@, name@) {
            Ok(text) => r matches Ok(value) && value@ == text,
            Err(kind) => r matches Err(fault) && fault@ == kind,
        },
{
    match parse_object(params) {
        Err(account) => Err(JsonFault::Codec(account)),
        Ok(members) => read_string_member(&members, name),
    }
}

/// Writes a JSON object with the single member `name`, given the literal of
/// its string value.
pub fn single_member(name: &str, literal: &str) -> (text: String)
    ensures
        text@ == single_member_text(name@, literal@),
{
    let mut text = String::from_str("{\"");
    text.append(name);
    text.append("\":");
    text.append(literal);
    text.append("}");
    text
}

impl Request {
    /// The method name of the call.
    pub fn method(&self) -> (name: &'static str)
        ensures
            name@ == method_name(self@),
    {
        match self {
            Request::ReverseAuth(_) => "reverse_auth",
            Request::GetStatus => "get_status",
            Request::Run(_) => "run",
            Request::Play => "play",
            Request::Pause => "pause",
            Request::Stop => "stop",
        }
    }

    /// Reads the call that an envelope holds. An envelope of another version
    /// is a `BadJsonrpcRequest`, parameters of the wrong shape are a
    /// `RequestDeserialization`, and a method outside the six is an
    /// `UnknownRpcMethod`.
    pub fn from_jsonrpc(jsonrpc_req: &jsonrpc::Request) -> (r: Result<Request, Error>)
        ensures
            match request_of_jsonrpc(jsonrpc_req@) {
                Ok(request) => r matches Ok(read) && read@ == request,
                Err(error) => r matches Err(found) && found@ == error,
            },
    {
        if let Err(error) = jsonrpc_req.validate() {
            return Err(Error::BadJsonrpcRequest(error));
        }
        let params = jsonrpc_req.params.as_str();
        if jsonrpc_req.method == String::from_str("reverse_auth") {
            match read_string_param(params, "challenge") {
                Ok(challenge) => Ok(Request::ReverseAuth(ReverseAuthParams { challenge })),
                Err(fault) => Err(Error::RequestDeserialization(fault)),
            }
        } else if jsonrpc_req.method == String::from_str("get_status") {
            match read_empty_array(params) {
                Ok(()) => Ok(Request::GetStatus),
                Err(fault) => Err(Error::RequestDeserialization(fault)),
            }
        } else if jsonrpc_req.method == String::from_str("run") {
            match read_string_param(params, "wasm") {
                Ok(wasm) => Ok(Request::Run(RunParams { wasm })),
                Err(fault) => Err(Error::RequestDeserialization(fault)),
            }
        } else if jsonrpc_req.method == String::from_str("play") {
            match read_empty_array(params) {
                Ok(()) => Ok(Request::Play),
                Err(fault) => Err(Error::RequestDeserialization(fault)),
            }
        } else if jsonrpc_req.method == String::from_str("pause") {
            match read_empty_array(params) {
                Ok(()) => Ok(Request::Pause),
                Err(fault) => Err(Error::RequestDeserialization(fault)),
            }
        } else if jsonrpc_req.method == String::from_str("stop") {
            match read_empty_array(params) {
                Ok(()) => Ok(Request::Stop),
                Err(fault) => Err(Error::RequestDeserialization(fault)),
            }
        } else {
            Err(Error::UnknownRpcMethod(jsonrpc_req.method.clone()))
        }
    }

    /// Writes the parameters of the call as JSON text.
    pub fn params_to_json(&self) -> (r: Result<String, JsonFault>)
        ensures
            r matches Ok(written) && written@ == params_json(self@),
    {
        match self {
            Request::ReverseAuth(params) => match print_string(params.challenge.as_str()) {
                Ok(literal) => Ok(single_member("challenge", literal.as_str())),
                Err(account) => Err(JsonFault::Codec(account)),
            },
            Request::Run(params) => match print_string(params.wasm.as_str()) {
                Ok(literal) => Ok(single_member("wasm", literal.as_str())),
                Err(account) => Err(JsonFault::Codec(account)),
            },
            _ => Ok(String::from_str("[]")),
        }
    }

    /// Puts the call into an envelope under the given id.
    pub fn to_jsonrpc(&self, id: u32) -> (r: Result<jsonrpc::Request, Error>)
        ensures
            r matches Ok(written) && written@ == jsonrpc_of_request(self@, id),
    {
        let params_result = self.params_to_json();
        let id = decimal_text(id);
        let params = match params_result {
            Ok(text) => text,
            Err(fault) => return Err(Error::RequestSerialization(fault)),
        };
        Ok(
            jsonrpc::Request {
                jsonrpc: String::from_str("2.0"),
                id,
                method: String::from_str(self.method()),
                params,
            },
        )
    }
}

impl RunParams {
    /// The program's bytes, or why there are none.
    pub open spec fn decoded(&self) -> Option<Seq<u8>> {
        base64_decoded(self.wasm@)
    }

    /// Decodes the program's bytes from base64.
    pub fn decode(&self) -> (r: Result<Vec<u8>, Error>)
        ensures
            match self.decoded() {
                Some(bytes) => r matches Ok(decoded) && decoded@ == bytes,
                None => r matches Err(error) && error@ == ErrorView::BadWasmEncoding,
            },
    {
        match decode(self.wasm.as_str()) {
            Ok(bytes) => Ok(bytes),
            Err(error) => Err(Error::BadWasmEncoding(error)),
        }
    }
}

/// What came of a request, before it is put into a response.
#[derive(Debug)]
pub enum Outcome {
    /// The driver's name, in answer to `reverse_auth`.
    Name(ReverseAuthResult),
    /// The status that the driver reported.
    Status(Status),
    /// The request failed; holds the text that describes why.
    Failed(String),
}

/// What an [`Outcome`] holds.
pub enum OutcomeView {
    Name(Seq<char>),
    Status(Status),
    Failed(Seq<char>),
}

impl View for Outcome {
    type V = OutcomeView;

    open spec fn view(&self) -> OutcomeView {
        match self {
            Outcome::Name(result) => OutcomeView::Name(result.name@),
            Outcome::Status(status) => OutcomeView::Status(*status),
            Outcome::Failed(message) => OutcomeView::Failed(message@),
        }
    }
}

/// The payload that reports an outcome, and whether it goes out as `error`.
pub open spec fn payload_of_outcome(outcome: OutcomeView) -> (Seq<char>, bool) {
    match outcome {
        OutcomeView::Name(name) => (single_member_text("name"@, json_string_literal(name)), false),
        OutcomeView::Status(status) => (status.json_spec(), false),
        OutcomeView::Failed(message) => (json_string_literal(message), true),
    }
}

/// The response that carries a payload back under the id of its request.
pub open spec fn response_with(id: Seq<char>, payload: Seq<char>, is_error: bool)
    -> jsonrpc::ResponseView {
    jsonrpc::ResponseView {
        jsonrpc: jsonrpc::version(),
        id,
        result: if is_error {
            None
        } else {
            Some(payload)
        },
        error: if is_error {
            Some(payload)
        } else {
            None
        },
    }
}

/// The response that reports an outcome under the id of its request.
pub open spec fn response_of_outcome(id: Seq<char>, outcome: OutcomeView)
    -> jsonrpc::ResponseView {
    response_with(id, payload_of_outcome(outcome).0, payload_of_outcome(outcome).1)
}

/// The outcome that a call has, for a driver that goes by `name` and shows
/// the status `before` when the call comes and `after` when it is settled.
///
/// - `reverse_auth` is answered with the name, and `get_status` with the
///   status shown; neither changes it.
/// - `play`, `pause` and `stop` are answered with the status shown
///   afterwards, which follows from the one before as [`permitted`].
/// - `run` whose program is no base64 has failed, and nothing has changed.
///   Else the outcome reports what the driver made of the start: `Playing`,
///   which the driver then shows, or the text of the driver's error, after
///   which it shows `NotPlaying`.
pub open spec fn answers(
    call: RequestView,
    name: Seq<char>,
    before: Status,
    after: Status,
    outcome: OutcomeView,
) -> bool {
    match call {
        RequestView::ReverseAuth { .. } => outcome == OutcomeView::Name(name) && after == before,
        RequestView::GetStatus => outcome == OutcomeView::Status(before) && after == before,
        RequestView::Play => outcome == OutcomeView::Status(after) && permitted(
            before,
            DriverOp::Play,
            after,
        ),
        RequestView::Pause => outcome == OutcomeView::Status(after) && permitted(
            before,
            DriverOp::Pause,
            after,
        ),
        RequestView::Stop => outcome == OutcomeView::Status(Status::NotPlaying) && after
            == Status::NotPlaying,
        RequestView::Run { wasm } => match base64_decoded(wasm) {
            None => outcome is Failed && after == before,
            Some(_) => exists|result: Result<Status, Error>| #[trigger]
                reports(outcome, result) && started(before, after, result),
        },
    }
}

/// What holds of a start that the driver was asked for, where it showed the
/// status `before` and shows `after`: a start that succeeds reports
/// `Playing`, which the driver then shows; after one that fails it shows
/// `NotPlaying`.
pub open spec fn started(before: Status, after: Status, result: Result<Status, Error>) -> bool {
    &&& result matches Ok(status) ==> status == Status::Playing && after == Status::Playing
    &&& result is Err ==> after == Status::NotPlaying
    &&& permitted(before, DriverOp::Start, after)
}

/// Whether an outcome reports what the driver made of a start: the status
/// that it reported, or the text of its error.
pub open spec fn reports(outcome: OutcomeView, result: Result<Status, Error>) -> bool {
    match result {
        Ok(status) => outcome == OutcomeView::Status(status),
        Err(error) => {
            &&& outcome is Failed
            &&& error.message_spec() matches Some(text) ==> outcome == OutcomeView::Failed(text)
        },
    }
}

/// Whether a call is settled without the driver being asked to act.
pub open spec fn spares_driver(call: RequestView) -> bool {
    match call {
        RequestView::ReverseAuth { .. } => true,
        RequestView::GetStatus => true,
        RequestView::Run { wasm } => base64_decoded(wasm) is None,
        _ => false,
    }
}

/// Every response that reports an outcome is valid, and bears the id it was
/// made for, unchanged.
pub proof fn lemma_response_echoes_id(id: Seq<char>, outcome: OutcomeView)
    ensures
        response_of_outcome(id, outcome).id == id,
        jsonrpc::response_defect(response_of_outcome(id, outcome)) is None,
{
}

/// Puts an outcome into the response to the request with the given id.
/// There is a response to every outcome.
pub fn respond(id: &str, outcome: &Outcome) -> (r: Result<jsonrpc::Response, Error>)
    ensures
        r matches Ok(made) && made@ == response_of_outcome(id@, outcome@),
{
    let (payload, is_error) = match outcome {
        Outcome::Name(result) => match print_string(result.name.as_str()) {
            Ok(literal) => (single_member("name", literal.as_str()), false),
            Err(account) => return Err(Error::ResponseSerialization(JsonFault::Codec(account))),
        },
        Outcome::Status(status) => (status.to_json(), false),
        Outcome::Failed(message) => match print_string(message.as_str()) {
            Ok(literal) => (literal, true),
            Err(account) => return Err(Error::ResponseSerialization(JsonFault::Codec(account))),
        },
    };
    let mut response = jsonrpc::Response {
        jsonrpc: String::from_str("2.0"),
        id: String::from_str(id),
        result: None,
        error: None,
    };
    if is_error {
        response.error = Some(payload);
    } else {
        response.result = Some(payload);
    }
    Ok(response)
}

/// The outcome of a `run`, given what the driver made of the start: the
/// status it reported, or the text of its error.
pub fn outcome_of_start(started: Result<Status, Error>) -> (outcome: Outcome)
    ensures
        reports(outcome@, started),
        match started {
            Ok(status) => outcome@ == OutcomeView::Status(status),
            Err(error) => {
                &&& outcome@ is Failed
                &&& error.message_spec() matches Some(text) ==> outcome@ == OutcomeView::Failed(
                    text,
                )
            },
        },
{
    match started {
        Ok(status) => Outcome::Status(status),
        Err(error) => Outcome::Failed(error.message()),
    }
}


/// The dispatcher: it owns the driver and the name under which the driver
/// answers `reverse_auth`.
pub struct Controller<D: Driver> {
    driver_name: String,
    driver: D,
}

impl<D: Driver> Controller<D> {
    /// The name the driver goes by.
    pub closed spec fn name(&self) -> Seq<char> {
        self.driver_name@
    }

    /// The driver.
    pub closed spec fn driver_spec(&self) -> D {
        self.driver
    }

    pub fn new(driver_name: &str, driver: D) -> (controller: Self)
        ensures
            controller.name() == driver_name@,
            controller.driver_spec() == driver,
    {
        Controller { driver_name: String::from_str(driver_name), driver }
    }

    /// The driver.
    pub fn driver(&self) -> (driver: &D)
        ensures
            *driver == self.driver_spec(),
    {
        &self.driver
    }

    /// Answers with the driver's name, whatever the challenge.
    pub fn handle_reverse_auth(&self, _params: &ReverseAuthParams) -> (result: ReverseAuthResult)
        ensures
            result.name@ == self.name(),
    {
        ReverseAuthResult { name: self.driver_name.clone() }
    }

    /// Asks the driver for its status: the answer is the status that the
    /// driver shows.
    pub fn handle_get_status(&self) -> (status: Status)
        ensures
            status == self.driver_spec().shown(),
    {
        self.driver.status()
    }

    /// Decodes the program and has the driver start it with the decoded
    /// bytes. Where the program is no base64 the driver is not asked.
    /// Otherwise the result is the driver's: `Playing`, which it then shows,
    /// or its error, after which it shows `NotPlaying`.
    pub fn handle_run(&mut self, params: &RunParams) -> (r: Result<Status, Error>)
        ensures
            final(self).name() == old(self).name(),
            params.decoded() is None ==> final(self).driver_spec() == old(self).driver_spec(),
            params.decoded() is None ==> (r matches Err(error) && error@
                == ErrorView::BadWasmEncoding),
            params.decoded() is Some ==> started(
                old(self).driver_spec().shown(),
                final(self).driver_spec().shown(),
                r,
            ),
    {
        let wasm_bin = match params.decode() {
            Ok(bytes) => bytes,
            Err(error) => return Err(error),
        };
        self.driver.start(wasm_bin)
    }

    /// Has the driver resume. The answer is the status that the driver shows
    /// afterwards: unchanged where nothing ran, else `Playing` or, the worker
    /// being gone, `NotPlaying`.
    pub fn handle_play(&mut self) -> (status: Status)
        ensures
            final(self).name() == old(self).name(),
            status == final(self).driver_spec().shown(),
            permitted(old(self).driver_spec().shown(), DriverOp::Play, status),
    {
        self.driver.play()
    }

    /// Has the driver suspend. The answer is the status that the driver
    /// shows afterwards: unchanged where nothing ran, else `Paused` or, the
    /// worker being gone, `NotPlaying`.
    pub fn handle_pause(&mut self) -> (status: Status)
        ensures
            final(self).name() == old(self).name(),
            status == final(self).driver_spec().shown(),
            permitted(old(self).driver_spec().shown(), DriverOp::Pause, status),
    {
        self.driver.pause()
    }

    /// Has the driver stop. The answer is `NotPlaying`, which is what the
    /// driver shows afterwards.
    pub fn handle_stop(&mut self) -> (status: Status)
        ensures
            final(self).name() == old(self).name(),
            status == Status::NotPlaying,
            final(self).driver_spec().shown() == Status::NotPlaying,
    {
        self.driver.stop()
    }

    /// Carries a call out. A failed `run` is an outcome, not an error: its
    /// text goes back to the controller.
    pub fn dispatch(&mut self, request: &Request) -> (outcome: Outcome)
        ensures
            final(self).name() == old(self).name(),
            answers(
                request@,
                old(self).name(),
                old(self).driver_spec().shown(),
                final(self).driver_spec().shown(),
                outcome@,
            ),
            spares_driver(request@) ==> final(self).driver_spec() == old(self).driver_spec(),
    {
        match request {
            Request::ReverseAuth(params) => Outcome::Name(self.handle_reverse_auth(params)),
            Request::GetStatus => Outcome::Status(self.handle_get_status()),
            Request::Run(params) => {
                let result = self.handle_run(params);
                let ghost made = result;
                let outcome = outcome_of_start(result);
                assert(params.decoded() is Some ==> reports(outcome@, made) && started(
                    old(self).driver_spec().shown(),
                    self.driver_spec().shown(),
                    made,
                ));
                outcome
            },
            Request::Play => Outcome::Status(self.handle_play()),
            Request::Pause => Outcome::Status(self.handle_pause()),
            Request::Stop => Outcome::Status(self.handle_stop()),
        }
    }
}

/// The text that reports an outcome under the id of its request.
pub open spec fn reply_text(id: Seq<char>, outcome: OutcomeView) -> Seq<char> {
    jsonrpc::response_json(response_of_outcome(id, outcome))
}

/// Whether an envelope is turned away unanswered: it is of another version.
pub open spec fn refused(envelope: jsonrpc::RequestView) -> bool {
    envelope.jsonrpc != jsonrpc::version()
}

/// Whether an envelope is settled without the driver being asked to act.
pub open spec fn leaves_driver(envelope: jsonrpc::RequestView) -> bool {
    match request_of_jsonrpc(envelope) {
        Ok(call) => spares_driver(call),
        Err(_) => true,
    }
}

/// The outcome that the request in an envelope of the right version has, for
/// a driver that goes by `name` and shows the status `before` when the
/// request comes and `after` when it is settled.
///
/// Where the envelope holds a call, it is the outcome of the call. Where it
/// holds none, because the method is unknown or the parameters are not of
/// the shape that the method asks for, the request has failed and nothing has
/// changed: the outcome holds the text of the error, which is fixed unless
/// it is the codec's own account.
pub open spec fn replies(
    envelope: jsonrpc::RequestView,
    name: Seq<char>,
    before: Status,
    after: Status,
    outcome: OutcomeView,
) -> bool {
    match request_of_jsonrpc(envelope) {
        Ok(call) => answers(call, name, before, after, outcome),
        Err(error) => {
            &&& after == before
            &&& outcome is Failed
            &&& error.message() matches Some(text) ==> outcome == OutcomeView::Failed(text)
        },
    }
}

/// Answers one request: reads the call, carries it out and reports the
/// outcome under the id of the request.
///
/// An envelope of another version is an error, and there is no response. To
/// every other request there is one. A request that holds no call, or a
/// `run` that fails, is answered with an `error` that holds the text of what
/// went wrong; any other with a `result`.
pub fn handle_request<D: Driver>(controller: &mut Controller<D>, request: &jsonrpc::Request) -> (r:
    Result<jsonrpc::Response, Error>)
    ensures
        final(controller).name() == old(controller).name(),
        leaves_driver(request@) ==> final(controller).driver_spec() == old(
            controller,
        ).driver_spec(),
        if refused(request@) {
            r matches Err(error) && error@ == ErrorView::BadJsonrpcRequest(
                jsonrpc::ErrorView::BadJsonrpcVersion(request.jsonrpc@),
            )
        } else {
            exists|outcome: OutcomeView|
                {
                    &&& #[trigger] replies(
                        request@,
                        old(controller).name(),
                        old(controller).driver_spec().shown(),
                        final(controller).driver_spec().shown(),
                        outcome,
                    )
                    &&& r matches Ok(made) && made@ == response_of_outcome(request.id@, outcome)
                }
        },
        r matches Ok(made) ==> made.id@ == request.id@ && made.valid(),
{
    let outcome = match Request::from_jsonrpc(request) {
        Ok(call) => controller.dispatch(&call),
        Err(Error::BadJsonrpcRequest(error)) => {
            return Err(Error::BadJsonrpcRequest(error));
        },
        Err(error) => Outcome::Failed(error.message()),
    };
    proof {
        lemma_response_echoes_id(request.id@, outcome@);
        assert(replies(
            request@,
            old(controller).name(),
            old(controller).driver_spec().shown(),
            controller.driver_spec().shown(),
            outcome@,
        ));
    }
    respond(request.id.as_str(), &outcome)
}

/// What a frame from the controller calls for.
///
/// A ping is answered by a pong with the same payload. A text frame is read
/// as a request and answered by the text of the response. Any other frame is
/// an `UnexpectedMessage`. An error ends the session: a frame of the wrong
/// kind, a text that is no envelope, an envelope of another version. A
/// request that is turned down, or a `run` that failed, does not, for it has
/// a response.
pub fn process_message<D: Driver>(controller: &mut Controller<D>, message: Message) -> (r: Result<
    Message,
    Error,
>)
    ensures
        final(controller).name() == old(controller).name(),
        match message@ {
            MessageView::Ping(payload) => {
                &&& r matches Ok(reply) && reply@ == MessageView::Pong(payload)
                &&& final(controller).driver_spec() == old(controller).driver_spec()
            },
            MessageView::Text(text) => match jsonrpc::request_of_json(text) {
                Err(kind) => {
                    &&& r matches Err(error) && error@ == ErrorView::RequestDeserialization(kind)
                    &&& final(controller).driver_spec() == old(controller).driver_spec()
                },
                Ok(envelope) => {
                    &&& leaves_driver(envelope) ==> final(controller).driver_spec() == old(
                        controller,
                    ).driver_spec()
                    &&& if refused(envelope) {
                        r matches Err(error) && error@ == ErrorView::BadJsonrpcRequest(
                            jsonrpc::ErrorView::BadJsonrpcVersion(envelope.jsonrpc),
                        )
                    } else {
                        exists|outcome: OutcomeView|
                            {
                                &&& #[trigger] replies(
                                    envelope,
                                    old(controller).name(),
                                    old(controller).driver_spec().shown(),
                                    final(controller).driver_spec().shown(),
                                    outcome,
                                )
                                &&& r matches Ok(reply) && reply@ == MessageView::Text(
                                    reply_text(envelope.id, outcome),
                                )
                            }
                    }
                },
            },
            _ => {
                &&& r matches Err(error) && error@ == ErrorView::UnexpectedMessage(message@)
                &&& final(controller).driver_spec() == old(controller).driver_spec()
            },
        },
{
    match message {
        Message::Text(text) => {
            let request = match jsonrpc::Request::from_json(text.as_str()) {
                Ok(request) => request,
                Err(fault) => return Err(Error::RequestDeserialization(fault)),
            };
            let response = match handle_request(controller, &request) {
                Ok(response) => response,
                Err(error) => return Err(error),
            };
            if let Err(error) = response.validate() {
                return Err(Error::BadJsonrpcResponse(error));
            }
            match response.to_json() {
                Ok(sent) => Ok(Message::Text(sent)),
                Err(fault) => Err(Error::ResponseSerialization(fault)),
            }
        },
        Message::Ping(payload) => Ok(Message::Pong(payload)),
        other => Err(Error::UnexpectedMessage(other)),
    }
}

/// Seconds between the end of a session and the next attempt to connect.
pub const RETRY_SECS: u64 = 5;

/// What to do once a session has ended.
#[derive(Debug, Clone, Copy, PartialEq, Eq, Structural)]
pub enum SessionStep {
    /// The session ended in good order: no further attempt.
    Finish,
    /// The session broke: wait, then connect again.
    Reconnect { delay_secs: u64 },
}

/// Decides what follows a session. An error of any kind calls for another
/// attempt after [`RETRY_SECS`], however many came before.
pub fn after_session(outcome: &Result<(), Error>) -> (step: SessionStep)
    ensures
        step == (if outcome is Ok {
            SessionStep::Finish
        } else {
            SessionStep::Reconnect { delay_secs: RETRY_SECS }
        }),
{
    match outcome {
        Ok(()) => SessionStep::Finish,
        Err(_) => SessionStep::Reconnect { delay_secs: RETRY_SECS },
    }
}

/// What a close frame says.
#[derive(Debug, Clone, PartialEq, Eq)]
pub struct CloseData {
    pub status_code: u16,
    pub reason: String,
}

/// One frame of the transport, as the endpoint receives or sends it.
#[derive(Debug, Clone, PartialEq, Eq)]
pub enum Message {
    Text(String),
    Binary(Vec<u8>),
    Close(Option<CloseData>),
    Ping(Vec<u8>),
    Pong(Vec<u8>),
}

/// What a [`Message`] holds.
pub enum MessageView {
    Text(Seq<char>),
    Binary(Seq<u8>),
    Close(Option<(u16, Seq<char>)>),
    Ping(Seq<u8>),
    Pong(Seq<u8>),
}

impl View for Message {
    type V = MessageView;

    open spec fn view(&self) -> MessageView {
        match self {
            Message::Text(text) => MessageView::Text(text@),
            Message::Binary(bytes) => MessageView::Binary(bytes@),
            Message::Close(None) => MessageView::Close(None),
            Message::Close(Some(data)) => MessageView::Close(
                Some((data.status_code, data.reason@)),
            ),
            Message::Ping(payload) => MessageView::Ping(payload@),
            Message::Pong(payload) => MessageView::Pong(payload@),
        }
    }
}

/// Bytes in decimal, with a comma and a blank between one and the next.
pub open spec fn bytes_listed(bytes: Seq<u8>) -> Seq<char>
    decreases bytes.len(),
{
    if bytes.len() == 0 {
        Seq::empty()
    } else if bytes.len() == 1 {
        decimal(bytes[0] as nat)
    } else {
        bytes_listed(bytes.drop_last()) + ", "@ + decimal(bytes.last() as nat)
    }
}

/// Bytes as a reader of logs sees them: listed in square brackets.
pub open spec fn bytes_text(bytes: Seq<u8>) -> Seq<char> {
    "["@ + bytes_listed(bytes) + "]"@
}

impl MessageView {
    /// The name of the frame's kind.
    pub open spec fn kind_name(self) -> Seq<char> {
        match self {
            MessageView::Text(_) => "Text"@,
            MessageView::Binary(_) => "Binary"@,
            MessageView::Close(_) => "Close"@,
            MessageView::Ping(_) => "Ping"@,
            MessageView::Pong(_) => "Pong"@,
        }
    }

    /// What the frame holds, after the name of its kind.
    pub open spec fn content_text(self) -> Seq<char> {
        match self {
            MessageView::Text(text) => debug_literal(text),
            MessageView::Binary(bytes) => bytes_text(bytes),
            MessageView::Close(None) => "None"@,
            MessageView::Close(Some((status_code, reason))) => "Some(CloseData { status_code: "@
                + decimal(status_code as nat) + ", reason: "@ + debug_literal(reason) + " })"@,
            MessageView::Ping(payload) => bytes_text(payload),
            MessageView::Pong(payload) => bytes_text(payload),
        }
    }

    /// The whole frame as a reader of logs sees it: the name of its kind and,
    /// in round brackets, what it holds.
    pub open spec fn debug_text(self) -> Seq<char> {
        self.kind_name() + "("@ + self.content_text() + ")"@
    }
}

/// Writes bytes as a reader of logs sees them.
pub fn write_bytes(bytes: &Vec<u8>) -> (text: String)
    ensures
        text@ == bytes_text(bytes@),
{
    let mut text = String::from_str("[");
    let mut i: usize = 0;
    while i < bytes.len()
        invariant
            0 <= i <= bytes@.len(),
            text@ == "["@ + bytes_listed(bytes@.take(i as int)),
        decreases bytes@.len() - i,
    {
        if i > 0 {
            text.append(", ");
        }
        let digits = decimal_text(bytes[i] as u32);
        text.append(digits.as_str());
        proof {
            let upto = bytes@.take(i + 1);
            assert(upto.drop_last() =~= bytes@.take(i as int));
            assert(upto.last() == bytes@[i as int]);
        }
        i += 1;
    }
    assert(bytes@.take(bytes@.len() as int) =~= bytes@);
    text.append("]");
    text
}

impl Message {
    /// The name of the frame's kind.
    pub open spec fn kind_name_spec(&self) -> Seq<char> {
        self@.kind_name()
    }

    /// The whole frame as a reader of logs sees it.
    pub fn debug_text(&self) -> (text: String)
        ensures
            text@ == self@.debug_text(),
    {
        let content = match self {
            Message::Text(text) => debug_quoted(text.as_str()),
            Message::Binary(bytes) => write_bytes(bytes),
            Message::Close(None) => String::from_str("None"),
            Message::Close(Some(data)) => {
                let mut content = String::from_str("Some(CloseData { status_code: ");
                content.append(decimal_text(data.status_code as u32).as_str());
                content.append(", reason: ");
                content.append(debug_quoted(data.reason.as_str()).as_str());
                content.append(" })");
                content
            },
            Message::Ping(payload) => write_bytes(payload),
            Message::Pong(payload) => write_bytes(payload),
        };
        let mut text = String::from_str(self.kind_name());
        text.append("(");
        text.append(content.as_str());
        text.append(")");
        text
    }

    /// The name of the frame's kind.
    pub fn kind_name(&self) -> (name: &'static str)
        ensures
            name@ == self.kind_name_spec(),
    {
        match self {
            Message::Text(_) => "Text",
            Message::Binary(_) => "Binary",
            Message::Close(_) => "Close",
            Message::Ping(_) => "Ping",
            Message::Pong(_) => "Pong",
        }
    }
}

} // verus!
