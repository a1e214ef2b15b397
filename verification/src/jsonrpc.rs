//! The JSON-RPC 2.0 envelope: requests and responses whose `id`, `params`,
//! `result` and `error` stay raw JSON text, so that an id goes back exactly as
//! it came and payloads are read only by the method they belong to.

use crate::json::{
    find_member, json_object_members, json_string_literal, member_value, members_view, parse_object,
    print_string, read_member, read_string_member, required_member, string_member, FaultKind,
    JsonFault, Member,
};
use vstd::prelude::*;
use vstd::string::*;

verus! {

/// Why an envelope is not acceptable.
#[derive(Debug, Clone)]
pub enum Error {
    /// The `jsonrpc` member is not `"2.0"`; holds what it was.
    BadJsonrpcVersion(String),
    ResponseHasBothResultAndError,
    ResponseHasNeitherResultNorError,
}

/// What an [`Error`] says.
pub enum ErrorView {
    BadJsonrpcVersion(Seq<char>),
    ResponseHasBothResultAndError,
    ResponseHasNeitherResultNorError,
}

impl View for Error {
    type V = ErrorView;

    open spec fn view(&self) -> ErrorView {
        match self {
            Error::BadJsonrpcVersion(version) => ErrorView::BadJsonrpcVersion(version@),
            Error::ResponseHasBothResultAndError => ErrorView::ResponseHasBothResultAndError,
            Error::ResponseHasNeitherResultNorError => ErrorView::ResponseHasNeitherResultNorError,
        }
    }
}

impl Error {
    /// The text that describes the error to a reader.
    pub open spec fn message_spec(error: ErrorView) -> Seq<char> {
        match error {
            ErrorView::BadJsonrpcVersion(version) => "jsonrpc version field is not \"2.0\": "@
                + version,
            ErrorView::ResponseHasBothResultAndError => "ResponseHasBothResultAndError"@,
            ErrorView::ResponseHasNeitherResultNorError => "ResponseHasNeitherResultNorError"@,
        }
    }

    /// Describes the error to a reader.
    pub fn message(&self) -> (text: String)
        ensures
            text@ == Self::message_spec(self@),
    {
        match self {
            Error::BadJsonrpcVersion(version) => String::from_str(
                "jsonrpc version field is not \"2.0\": ",
            ).concat(version.as_str()),
            Error::ResponseHasBothResultAndError => String::from_str(
                "ResponseHasBothResultAndError",
            ),
            Error::ResponseHasNeitherResultNorError => String::from_str(
                "ResponseHasNeitherResultNorError",
            ),
        }
    }
}

/// The protocol version every envelope has to carry.
pub open spec fn version() -> Seq<char> {
    "2.0"@
}

/// A request as it arrives: who asks (`id`), what for (`method`), and with
/// what (`params`). `id` and `params` are raw JSON text.
#[derive(Debug, Clone)]
pub struct Request {
    pub jsonrpc: String,
    pub id: String,
    pub method: String,
    pub params: String,
}

/// The texts a [`Request`] holds.
pub struct RequestView {
    pub jsonrpc: Seq<char>,
    pub id: Seq<char>,
    pub method: Seq<char>,
    pub params: Seq<char>,
}

impl View for Request {
    type V = RequestView;

    open spec fn view(&self) -> RequestView {
        RequestView {
            jsonrpc: self.jsonrpc@,
            id: self.id@,
            method: self.method@,
            params: self.params@,
        }
    }
}

/// The request that a JSON object with these members spells, or why it spells
/// none. Members are asked for in the order `jsonrpc`, `id`, `method`,
/// `params`, and the first that fails decides; any other member is ignored.
pub open spec fn request_of_members(members: Seq<(Seq<char>, Seq<char>)>) -> Result<
    RequestView,
    FaultKind,
> {
    match string_member(members, "jsonrpc"@) {
        Err(kind) => Err(kind),
        Ok(jsonrpc) => match required_member(members, "id"@) {
            Err(kind) => Err(kind),
            Ok(id) => match string_member(members, "method"@) {
                Err(kind) => Err(kind),
                Ok(method) => match required_member(members, "params"@) {
                    Err(kind) => Err(kind),
                    Ok(params) => Ok(RequestView { jsonrpc, id, method, params }),
                },
            },
        },
    }
}

/// The request that `text` spells, or why it spells none.
pub open spec fn request_of_json(text: Seq<char>) -> Result<RequestView, FaultKind> {
    match json_object_members(text) {
        None => Err(FaultKind::Codec),
        Some(members) => request_of_members(members),
    }
}

/// The JSON object made of the four members of a request, given the literals
/// of its two strings.
pub open spec fn request_text(
    jsonrpc_literal: Seq<char>,
    id: Seq<char>,
    method_literal: Seq<char>,
    params: Seq<char>,
) -> Seq<char> {
    "{\"jsonrpc\":"@ + jsonrpc_literal + ",\"id\":"@ + id + ",\"method\":"@ + method_literal
        + ",\"params\":"@ + params + "}"@
}

/// The JSON text of a request.
pub open spec fn request_json(request: RequestView) -> Seq<char> {
    request_text(
        json_string_literal(request.jsonrpc),
        request.id,
        json_string_literal(request.method),
        request.params,
    )
}

impl Request {
    /// A request is valid when it names version 2.0.
    pub open spec fn valid(&self) -> bool {
        self.jsonrpc@ == version()
    }

    /// Accepts the request if it names version 2.0, and otherwise reports the
    /// version it names.
    pub fn validate(&self) -> (r: Result<(), Error>)
        ensures
            r is Ok <==> self.valid(),
            r matches Err(error) ==> error@ == ErrorView::BadJsonrpcVersion(self.jsonrpc@),
    {
        if self.jsonrpc != String::from_str("2.0") {
            return Err(Error::BadJsonrpcVersion(self.jsonrpc.clone()));
        }
        Ok(())
    }

    /// Reads a request from the members of a JSON object.
    pub fn from_members(members: &Vec<Member>) -> (r: Result<Request, JsonFault>)
        ensures
            match request_of_members(members_view(members@)) {
                Ok(request) => r matches Ok(read) && read@ == request,
                Err(kind) => r matches Err(fault) && fault@ == kind,
            },
    {
        let jsonrpc = match read_string_member(members, "jsonrpc") {
            Ok(value) => value,
            Err(fault) => return Err(fault),
        };
        let id = match read_member(members, "id") {
            Ok(value) => value,
            Err(fault) => return Err(fault),
        };
        let method = match read_string_member(members, "method") {
            Ok(value) => value,
            Err(fault) => return Err(fault),
        };
        let params = match read_member(members, "params") {
            Ok(value) => value,
            Err(fault) => return Err(fault),
        };
        Ok(Request { jsonrpc, id, method, params })
    }

    /// Reads a request from the text of one JSON object.
    pub fn from_json(text: &str) -> (r: Result<Request, JsonFault>)
        ensures
            match request_of_json(text@) {
                Ok(request) => r matches Ok(read) && read@ == request,
                Err(kind) => r matches Err(fault) && fault@ == kind,
            },
    {
        match parse_object(text) {
            Err(error) => Err(JsonFault::Codec(error)),
            Ok(members) => Request::from_members(&members),
        }
    }

    /// Puts the four members of a request together, the two strings given as
    /// the JSON literals that stand for them.
    pub fn assemble(jsonrpc_literal: &str, id: &str, method_literal: &str, params: &str) -> (text:
        String)
        ensures
            text@ == request_text(jsonrpc_literal@, id@, method_literal@, params@),
    {
        let mut text = String::from_str("{\"jsonrpc\":");
        text.append(jsonrpc_literal);
        text.append(",\"id\":");
        text.append(id);
        text.append(",\"method\":");
        text.append(method_literal);
        text.append(",\"params\":");
        text.append(params);
        text.append("}");
        text
    }

    /// Writes the request as the text of one JSON object, members in the
    /// order `jsonrpc`, `id`, `method`, `params`, without white space.
    pub fn to_json(&self) -> (r: Result<String, JsonFault>)
        ensures
            r matches Ok(written) && written@ == request_json(self@),
    {
        let jsonrpc_literal = match print_string(self.jsonrpc.as_str()) {
            Ok(literal) => literal,
            Err(error) => return Err(JsonFault::Codec(error)),
        };
        let method_literal = match print_string(self.method.as_str()) {
            Ok(literal) => literal,
            Err(error) => return Err(JsonFault::Codec(error)),
        };
        Ok(
            Request::assemble(
                jsonrpc_literal.as_str(),
                self.id.as_str(),
                method_literal.as_str(),
                self.params.as_str(),
            ),
        )
    }
}

/// A response as it leaves: the `id` of the request it answers and either a
/// `result` or an `error`. `id`, `result` and `error` are raw JSON text.
#[derive(Debug, Clone)]
pub struct Response {
    pub jsonrpc: String,
    pub id: String,
    pub result: Option<String>,
    pub error: Option<String>,
}

/// The texts a [`Response`] holds.
pub struct ResponseView {
    pub jsonrpc: Seq<char>,
    pub id: Seq<char>,
    pub result: Option<Seq<char>>,
    pub error: Option<Seq<char>>,
}

/// The text of a string that may be absent.
pub open spec fn text_of(value: Option<String>) -> Option<Seq<char>> {
    match value {
        Some(text) => Some(text@),
        None => None,
    }
}

impl View for Response {
    type V = ResponseView;

    open spec fn view(&self) -> ResponseView {
        ResponseView {
            jsonrpc: self.jsonrpc@,
            id: self.id@,
            result: text_of(self.result),
            error: text_of(self.error),
        }
    }
}

/// The response that a JSON object with these members spells, or why it
/// spells none. `jsonrpc` and `id` have to be there; `result` and `error` are
/// taken where they are, whatever their value; any other member is ignored.
pub open spec fn response_of_members(members: Seq<(Seq<char>, Seq<char>)>) -> Result<
    ResponseView,
    FaultKind,
> {
    match string_member(members, "jsonrpc"@) {
        Err(kind) => Err(kind),
        Ok(jsonrpc) => match required_member(members, "id"@) {
            Err(kind) => Err(kind),
            Ok(id) => Ok(
                ResponseView {
                    jsonrpc,
                    id,
                    result: member_value(members, "result"@),
                    error: member_value(members, "error"@),
                },
            ),
        },
    }
}

/// The response that `text` spells, or why it spells none.
pub open spec fn response_of_json(text: Seq<char>) -> Result<ResponseView, FaultKind> {
    match json_object_members(text) {
        None => Err(FaultKind::Codec),
        Some(members) => response_of_members(members),
    }
}

/// A member of the given name, with a comma before it, or nothing where the
/// value is absent.
pub open spec fn optional_member_text(name_part: Seq<char>, value: Option<Seq<char>>) -> Seq<char> {
    match value {
        Some(text) => name_part + text,
        None => Seq::empty(),
    }
}

/// The JSON object made of the members of a response, given the literal of
/// its version string. An absent `result` or `error` leaves no trace.
pub open spec fn response_text(
    jsonrpc_literal: Seq<char>,
    id: Seq<char>,
    result: Option<Seq<char>>,
    error: Option<Seq<char>>,
) -> Seq<char> {
    "{\"jsonrpc\":"@ + jsonrpc_literal + ",\"id\":"@ + id + optional_member_text(
        ",\"result\":"@,
        result,
    ) + optional_member_text(",\"error\":"@, error) + "}"@
}

/// The JSON text of a response.
pub open spec fn response_json(response: ResponseView) -> Seq<char> {
    response_text(
        json_string_literal(response.jsonrpc),
        response.id,
        response.result,
        response.error,
    )
}

/// What validation finds wrong with a response, if anything: first the
/// version, then both payloads present, then neither.
pub open spec fn response_defect(response: ResponseView) -> Option<ErrorView> {
    if response.jsonrpc != version() {
        Some(ErrorView::BadJsonrpcVersion(response.jsonrpc))
    } else if response.result is Some && response.error is Some {
        Some(ErrorView::ResponseHasBothResultAndError)
    } else if response.result is None && response.error is None {
        Some(ErrorView::ResponseHasNeitherResultNorError)
    } else {
        None
    }
}

impl Response {
    /// A response is valid when it names version 2.0 and holds exactly one of
    /// `result` and `error`.
    pub open spec fn valid(&self) -> bool {
        &&& self.jsonrpc@ == version()
        &&& (self.result is Some) != (self.error is Some)
    }

    /// Accepts the response if it is valid, and otherwise reports the first
    /// defect.
    pub fn validate(&self) -> (r: Result<(), Error>)
        ensures
            r is Ok <==> self.valid(),
            match response_defect(self@) {
                Some(defect) => r matches Err(error) && error@ == defect,
                None => r is Ok,
            },
    {
        if self.jsonrpc != String::from_str("2.0") {
            return Err(Error::BadJsonrpcVersion(self.jsonrpc.clone()));
        }
        if self.result.is_some() && self.error.is_some() {
            return Err(Error::ResponseHasBothResultAndError);
        }
        if self.result.is_none() && self.error.is_none() {
            return Err(Error::ResponseHasNeitherResultNorError);
        }
        Ok(())
    }

    /// Reads a response from the members of a JSON object.
    pub fn from_members(members: &Vec<Member>) -> (r: Result<Response, JsonFault>)
        ensures
            match response_of_members(members_view(members@)) {
                Ok(response) => r matches Ok(read) && read@ == response,
                Err(kind) => r matches Err(fault) && fault@ == kind,
            },
    {
        let jsonrpc = match read_string_member(members, "jsonrpc") {
            Ok(value) => value,
            Err(fault) => return Err(fault),
        };
        let id = match read_member(members, "id") {
            Ok(value) => value,
            Err(fault) => return Err(fault),
        };
        let result = find_member(members, "result");
        let error = find_member(members, "error");
        Ok(Response { jsonrpc, id, result, error })
    }

    /// Reads a response from the text of one JSON object.
    pub fn from_json(text: &str) -> (r: Result<Response, JsonFault>)
        ensures
            match response_of_json(text@) {
                Ok(response) => r matches Ok(read) && read@ == response,
                Err(kind) => r matches Err(fault) && fault@ == kind,
            },
    {
        match parse_object(text) {
            Err(error) => Err(JsonFault::Codec(error)),
            Ok(members) => Response::from_members(&members),
        }
    }

    /// Puts the members of a response together, the version given as the
    /// JSON literal that stands for it. Only a payload that is there is
    /// written.
    pub fn assemble(
        jsonrpc_literal: &str,
        id: &str,
        result: &Option<String>,
        error: &Option<String>,
    ) -> (text: String)
        ensures
            text@ == response_text(jsonrpc_literal@, id@, text_of(*result), text_of(*error)),
    {
        let mut text = String::from_str("{\"jsonrpc\":");
        text.append(jsonrpc_literal);
        text.append(",\"id\":");
        text.append(id);
        if let Some(payload) = result {
            text.append(",\"result\":");
            text.append(payload.as_str());
        }
        if let Some(payload) = error {
            text.append(",\"error\":");
            text.append(payload.as_str());
        }
        text.append("}");
        text
    }

    /// Writes the response as the text of one JSON object, members in the
    /// order `jsonrpc`, `id`, `result`, `error`, without white space.
    pub fn to_json(&self) -> (r: Result<String, JsonFault>)
        ensures
            r matches Ok(written) && written@ == response_json(self@),
    {
        match print_string(self.jsonrpc.as_str()) {
            Ok(literal) => Ok(
                Response::assemble(literal.as_str(), self.id.as_str(), &self.result, &self.error),
            ),
            Err(error) => Err(JsonFault::Codec(error)),
        }
    }
}

} // verus!
