//! The one error type of the endpoint, covering transport, codec, sandbox and
//! output.

use crate::control::{Message, MessageView};
use crate::encoding::{debug_literal, debug_quoted, decode_error_text};
use crate::json::{FaultKind, JsonFault};
use crate::jsonrpc;
use vstd::prelude::*;
use vstd::string::*;

verus! {

#[derive(Debug)]
pub enum Error {
    /// The controller's address is no URL; holds the parser's account.
    UrlParseError(String),
    /// The configured output is not part of this build.
    UnsupportedOutput { target: &'static str, feature: &'static str },
    /// The transport failed; holds its account.
    WebSocketError(String),
    /// The LED hardware refused; holds its account.
    RpiWS2111x(String),
    /// The terminal refused; holds its account.
    TerminalOutput(String),
    /// The sandbox failed; holds the engine's message.
    Wasm3(String),
    /// The controller sent a frame that is neither text nor a ping.
    UnexpectedMessage(Message),
    /// The controller asked for a method that does not exist.
    UnknownRpcMethod(String),
    RequestSerialization(JsonFault),
    RequestDeserialization(JsonFault),
    ResponseDeserialization(JsonFault),
    ResponseSerialization(JsonFault),
    BadJsonrpcRequest(jsonrpc::Error),
    BadJsonrpcResponse(jsonrpc::Error),
    /// The program's bytes are not base64.
    BadWasmEncoding(base64::DecodeError),
    /// The worker thread died without saying why.
    ThreadPanicked,
}

/// What an [`Error`] says, as far as the library itself decides it. The
/// accounts of outside parties are not part of it.
pub enum ErrorView {
    UrlParseError(Seq<char>),
    UnsupportedOutput { target: Seq<char>, feature: Seq<char> },
    WebSocketError(Seq<char>),
    RpiWS2111x(Seq<char>),
    TerminalOutput(Seq<char>),
    Wasm3(Seq<char>),
    UnexpectedMessage(MessageView),
    UnknownRpcMethod(Seq<char>),
    RequestSerialization(FaultKind),
    RequestDeserialization(FaultKind),
    ResponseDeserialization(FaultKind),
    ResponseSerialization(FaultKind),
    BadJsonrpcRequest(jsonrpc::ErrorView),
    BadJsonrpcResponse(jsonrpc::ErrorView),
    BadWasmEncoding,
    ThreadPanicked,
}

impl ErrorView {
    /// The text that describes the error to a reader, where the library
    /// decides it; `None` where the text is the codec's or the decoder's.
    pub open spec fn message(self) -> Option<Seq<char>> {
        match self {
            ErrorView::UrlParseError(account) => Some(account),
            ErrorView::UnsupportedOutput { target, feature } => Some(
                "output target \""@ + target + "\" is not available unless compiled with \""@
                    + feature + "\" feature"@,
            ),
            ErrorView::WebSocketError(account) => Some(account),
            ErrorView::RpiWS2111x(account) => Some(account),
            ErrorView::TerminalOutput(account) => Some(account),
            ErrorView::Wasm3(message) => Some(message),
            ErrorView::UnexpectedMessage(message) => Some(
                "Unexpected message from controller: "@ + message.debug_text(),
            ),
            ErrorView::UnknownRpcMethod(method) => Some(
                "Unknown RPC method from controller: "@ + debug_literal(method),
            ),
            ErrorView::RequestSerialization(kind) => kind.message(),
            ErrorView::RequestDeserialization(kind) => kind.message(),
            ErrorView::ResponseDeserialization(kind) => kind.message(),
            ErrorView::ResponseSerialization(kind) => kind.message(),
            ErrorView::BadJsonrpcRequest(error) => Some(jsonrpc::Error::message_spec(error)),
            ErrorView::BadJsonrpcResponse(error) => Some(jsonrpc::Error::message_spec(error)),
            ErrorView::BadWasmEncoding => None,
            ErrorView::ThreadPanicked => Some("driver thread panicked"@),
        }
    }
}

impl View for Error {
    type V = ErrorView;

    open spec fn view(&self) -> ErrorView {
        match self {
            Error::UrlParseError(account) => ErrorView::UrlParseError(account@),
            Error::UnsupportedOutput { target, feature } => ErrorView::UnsupportedOutput {
                target: target@,
                feature: feature@,
            },
            Error::WebSocketError(account) => ErrorView::WebSocketError(account@),
            Error::RpiWS2111x(account) => ErrorView::RpiWS2111x(account@),
            Error::TerminalOutput(account) => ErrorView::TerminalOutput(account@),
            Error::Wasm3(message) => ErrorView::Wasm3(message@),
            Error::UnexpectedMessage(message) => ErrorView::UnexpectedMessage(message@),
            Error::UnknownRpcMethod(method) => ErrorView::UnknownRpcMethod(method@),
            Error::RequestSerialization(fault) => ErrorView::RequestSerialization(fault@),
            Error::RequestDeserialization(fault) => ErrorView::RequestDeserialization(fault@),
            Error::ResponseDeserialization(fault) => ErrorView::ResponseDeserialization(fault@),
            Error::ResponseSerialization(fault) => ErrorView::ResponseSerialization(fault@),
            Error::BadJsonrpcRequest(error) => ErrorView::BadJsonrpcRequest(error@),
            Error::BadJsonrpcResponse(error) => ErrorView::BadJsonrpcResponse(error@),
            Error::BadWasmEncoding(_) => ErrorView::BadWasmEncoding,
            Error::ThreadPanicked => ErrorView::ThreadPanicked,
        }
    }
}

impl Error {
    /// The text that describes the error to a reader, where the library
    /// decides it; `None` where the text is the base64 decoder's.
    pub open spec fn message_spec(&self) -> Option<Seq<char>> {
        match self {
            Error::UrlParseError(account) => Some(account@),
            Error::UnsupportedOutput { target, feature } => Some(
                "output target \""@ + target@ + "\" is not available unless compiled with \""@
                    + feature@ + "\" feature"@,
            ),
            Error::WebSocketError(account) => Some(account@),
            Error::RpiWS2111x(account) => Some(account@),
            Error::TerminalOutput(account) => Some(account@),
            Error::Wasm3(message) => Some(message@),
            Error::UnexpectedMessage(message) => Some(
                "Unexpected message from controller: "@ + message@.debug_text(),
            ),
            Error::UnknownRpcMethod(method) => Some(
                "Unknown RPC method from controller: "@ + debug_literal(method@),
            ),
            Error::RequestSerialization(fault) => Some(fault.message_spec()),
            Error::RequestDeserialization(fault) => Some(fault.message_spec()),
            Error::ResponseDeserialization(fault) => Some(fault.message_spec()),
            Error::ResponseSerialization(fault) => Some(fault.message_spec()),
            Error::BadJsonrpcRequest(error) => Some(jsonrpc::Error::message_spec(error@)),
            Error::BadJsonrpcResponse(error) => Some(jsonrpc::Error::message_spec(error@)),
            Error::BadWasmEncoding(_) => None,
            Error::ThreadPanicked => Some("driver thread panicked"@),
        }
    }

    /// Describes the error to a reader. This is the text that a failed `run`
    /// sends back to the controller.
    pub fn message(&self) -> (text: String)
        ensures
            self.message_spec() matches Some(expected) ==> text@ == expected,
            self@.message() matches Some(expected) ==> text@ == expected,
    {
        match self {
            Error::UrlParseError(account) => account.clone(),
            Error::UnsupportedOutput { target, feature } => String::from_str(
                "output target \"",
            ).concat(target).concat("\" is not available unless compiled with \"").concat(
                feature,
            ).concat("\" feature"),
            Error::WebSocketError(account) => account.clone(),
            Error::RpiWS2111x(account) => account.clone(),
            Error::TerminalOutput(account) => account.clone(),
            Error::Wasm3(message) => message.clone(),
            Error::UnexpectedMessage(message) => {
                let frame = message.debug_text();
                String::from_str("Unexpected message from controller: ").concat(frame.as_str())
            },
            Error::UnknownRpcMethod(method) => {
                let quoted = debug_quoted(method.as_str());
                String::from_str("Unknown RPC method from controller: ").concat(quoted.as_str())
            },
            Error::RequestSerialization(fault) => fault.message(),
            Error::RequestDeserialization(fault) => fault.message(),
            Error::ResponseDeserialization(fault) => fault.message(),
            Error::ResponseSerialization(fault) => fault.message(),
            Error::BadJsonrpcRequest(error) => error.message(),
            Error::BadJsonrpcResponse(error) => error.message(),
            Error::BadWasmEncoding(error) => decode_error_text(error),
            Error::ThreadPanicked => String::from_str("driver thread panicked"),
        }
    }
}

} // verus!
