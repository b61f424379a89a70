//! The error type of the library and the text of each error.

use crate::json::{opt_view, Json, JsonV};
use crate::text::{concat, concat3, decimal, signed_decimal, i64_to_string, u64_to_string};
use vstd::prelude::*;
use vstd::string::*;

verus! {

/// Everything that can go wrong between a tool call and the browser.
#[derive(Debug, PartialEq)]
pub enum ChromeMcpError {
    /// The socket to the browser cannot be opened, or is no longer open.
    CdpConnection(String),
    /// The browser answered something the protocol does not allow.
    CdpProtocol(String),
    /// The browser answered a command with an error object.
    Protocol { code: i32, message: String, data: Option<Json> },
    /// A required domain could not be enabled; the connection is given up.
    Activation(String),
    ElementNotFound(String),
    NavigationTimeout(String),
    JavaScriptError(String),
    Screenshot(String),
    Network(String),
    Accessibility(String),
    NativeInput(String),
    McpProtocol(String),
    Io(String),
    WebSocket(String),
    Json(String),
    Url(String),
    InvalidOperation(String),
    TabNotFound(String),
    /// No reply within the deadline, given in milliseconds.
    Timeout { timeout: u64 },
}

/// The model of a [`ChromeMcpError`].
pub enum ErrorV {
    CdpConnection(Seq<char>),
    CdpProtocol(Seq<char>),
    Protocol { code: i32, message: Seq<char>, data: Option<JsonV> },
    Activation(Seq<char>),
    ElementNotFound(Seq<char>),
    NavigationTimeout(Seq<char>),
    JavaScriptError(Seq<char>),
    Screenshot(Seq<char>),
    Network(Seq<char>),
    Accessibility(Seq<char>),
    NativeInput(Seq<char>),
    McpProtocol(Seq<char>),
    Io(Seq<char>),
    WebSocket(Seq<char>),
    Json(Seq<char>),
    Url(Seq<char>),
    InvalidOperation(Seq<char>),
    TabNotFound(Seq<char>),
    Timeout { timeout: u64 },
}

impl View for ChromeMcpError {
    type V = ErrorV;

    open spec fn view(&self) -> ErrorV {
        match self {
            ChromeMcpError::CdpConnection(m) => ErrorV::CdpConnection(m@),
            ChromeMcpError::CdpProtocol(m) => ErrorV::CdpProtocol(m@),
            ChromeMcpError::Protocol { code, message, data } => ErrorV::Protocol {
                code: *code,
                message: message@,
                data: opt_view(*data),
            },
            ChromeMcpError::Activation(m) => ErrorV::Activation(m@),
            ChromeMcpError::ElementNotFound(m) => ErrorV::ElementNotFound(m@),
            ChromeMcpError::NavigationTimeout(m) => ErrorV::NavigationTimeout(m@),
            ChromeMcpError::JavaScriptError(m) => ErrorV::JavaScriptError(m@),
            ChromeMcpError::Screenshot(m) => ErrorV::Screenshot(m@),
            ChromeMcpError::Network(m) => ErrorV::Network(m@),
            ChromeMcpError::Accessibility(m) => ErrorV::Accessibility(m@),
            ChromeMcpError::NativeInput(m) => ErrorV::NativeInput(m@),
            ChromeMcpError::McpProtocol(m) => ErrorV::McpProtocol(m@),
            ChromeMcpError::Io(m) => ErrorV::Io(m@),
            ChromeMcpError::WebSocket(m) => ErrorV::WebSocket(m@),
            ChromeMcpError::Json(m) => ErrorV::Json(m@),
            ChromeMcpError::Url(m) => ErrorV::Url(m@),
            ChromeMcpError::InvalidOperation(m) => ErrorV::InvalidOperation(m@),
            ChromeMcpError::TabNotFound(m) => ErrorV::TabNotFound(m@),
            ChromeMcpError::Timeout { timeout } => ErrorV::Timeout { timeout: *timeout },
        }
    }
}

/// The text that goes with an error object of the browser.
pub open spec fn peer_error_text(code: i32, message: Seq<char>) -> Seq<char> {
    "CDP error "@ + signed_decimal(code as int) + ": "@ + message
}

impl ErrorV {
    /// The text of the error, as it is shown to the caller of a tool.
    pub open spec fn message(self) -> Seq<char> {
        match self {
            ErrorV::CdpConnection(m) => "CDP connection error: "@ + m,
            ErrorV::CdpProtocol(m) => "CDP protocol error: "@ + m,
            ErrorV::Protocol { code, message, data } => "CDP protocol error: "@ + peer_error_text(
                code,
                message,
            ),
            ErrorV::Activation(m) => "Domain activation error: "@ + m,
            ErrorV::ElementNotFound(m) => "Element not found: "@ + m,
            ErrorV::NavigationTimeout(m) => "Navigation timeout: "@ + m,
            ErrorV::JavaScriptError(m) => "JavaScript evaluation error: "@ + m,
            ErrorV::Screenshot(m) => "Screenshot capture error: "@ + m,
            ErrorV::Network(m) => "Network interception error: "@ + m,
            ErrorV::Accessibility(m) => "Accessibility tree error: "@ + m,
            ErrorV::NativeInput(m) => "Native input error: "@ + m,
            ErrorV::McpProtocol(m) => "MCP protocol error: "@ + m,
            ErrorV::Io(m) => "IO error: "@ + m,
            ErrorV::WebSocket(m) => "WebSocket error: "@ + m,
            ErrorV::Json(m) => "JSON serialization error: "@ + m,
            ErrorV::Url(m) => "URL parsing error: "@ + m,
            ErrorV::InvalidOperation(m) => "Invalid operation: "@ + m,
            ErrorV::TabNotFound(m) => "Tab not found: "@ + m,
            ErrorV::Timeout { timeout } => "Timeout: operation timed out after "@ + decimal(
                timeout as nat,
            ) + "ms"@,
        }
    }
}

impl ChromeMcpError {
    pub fn cdp_connection(msg: &str) -> (r: Self)
        ensures
            r@ == ErrorV::CdpConnection(msg@),
    {
        ChromeMcpError::CdpConnection(String::from_str(msg))
    }

    pub fn cdp_protocol(msg: &str) -> (r: Self)
        ensures
            r@ == ErrorV::CdpProtocol(msg@),
    {
        ChromeMcpError::CdpProtocol(String::from_str(msg))
    }

    pub fn element_not_found(msg: &str) -> (r: Self)
        ensures
            r@ == ErrorV::ElementNotFound(msg@),
    {
        ChromeMcpError::ElementNotFound(String::from_str(msg))
    }

    pub fn navigation_timeout(msg: &str) -> (r: Self)
        ensures
            r@ == ErrorV::NavigationTimeout(msg@),
    {
        ChromeMcpError::NavigationTimeout(String::from_str(msg))
    }

    pub fn javascript_error(msg: &str) -> (r: Self)
        ensures
            r@ == ErrorV::JavaScriptError(msg@),
    {
        ChromeMcpError::JavaScriptError(String::from_str(msg))
    }

    pub fn screenshot_error(msg: &str) -> (r: Self)
        ensures
            r@ == ErrorV::Screenshot(msg@),
    {
        ChromeMcpError::Screenshot(String::from_str(msg))
    }

    pub fn network_error(msg: &str) -> (r: Self)
        ensures
            r@ == ErrorV::Network(msg@),
    {
        ChromeMcpError::Network(String::from_str(msg))
    }

    pub fn accessibility_error(msg: &str) -> (r: Self)
        ensures
            r@ == ErrorV::Accessibility(msg@),
    {
        ChromeMcpError::Accessibility(String::from_str(msg))
    }

    pub fn native_input_error(msg: &str) -> (r: Self)
        ensures
            r@ == ErrorV::NativeInput(msg@),
    {
        ChromeMcpError::NativeInput(String::from_str(msg))
    }

    pub fn mcp_protocol_error(msg: &str) -> (r: Self)
        ensures
            r@ == ErrorV::McpProtocol(msg@),
    {
        ChromeMcpError::McpProtocol(String::from_str(msg))
    }

    pub fn invalid_operation(msg: &str) -> (r: Self)
        ensures
            r@ == ErrorV::InvalidOperation(msg@),
    {
        ChromeMcpError::InvalidOperation(String::from_str(msg))
    }

    pub fn tab_not_found(msg: &str) -> (r: Self)
        ensures
            r@ == ErrorV::TabNotFound(msg@),
    {
        ChromeMcpError::TabNotFound(String::from_str(msg))
    }

    /// The text of the error, as it is shown to the caller of a tool.
    pub fn message(&self) -> (r: String)
        ensures
            r@ == self@.message(),
    {
        match self {
            ChromeMcpError::CdpConnection(m) => concat("CDP connection error: ", m.as_str()),
            ChromeMcpError::CdpProtocol(m) => concat("CDP protocol error: ", m.as_str()),
            ChromeMcpError::Protocol { code, message, data } => {
                let mut out = String::from_str("CDP protocol error: ");
                out.append("CDP error ");
                out.append(i64_to_string(*code as i64).as_str());
                out.append(": ");
                out.append(message.as_str());
                assert(out@ =~= self@.message());
                out
            },
            ChromeMcpError::Activation(m) => concat("Domain activation error: ", m.as_str()),
            ChromeMcpError::ElementNotFound(m) => concat("Element not found: ", m.as_str()),
            ChromeMcpError::NavigationTimeout(m) => concat("Navigation timeout: ", m.as_str()),
            ChromeMcpError::JavaScriptError(m) => concat(
                "JavaScript evaluation error: ",
                m.as_str(),
            ),
            ChromeMcpError::Screenshot(m) => concat("Screenshot capture error: ", m.as_str()),
            ChromeMcpError::Network(m) => concat("Network interception error: ", m.as_str()),
            ChromeMcpError::Accessibility(m) => concat("Accessibility tree error: ", m.as_str()),
            ChromeMcpError::NativeInput(m) => concat("Native input error: ", m.as_str()),
            ChromeMcpError::McpProtocol(m) => concat("MCP protocol error: ", m.as_str()),
            ChromeMcpError::Io(m) => concat("IO error: ", m.as_str()),
            ChromeMcpError::WebSocket(m) => concat("WebSocket error: ", m.as_str()),
            ChromeMcpError::Json(m) => concat("JSON serialization error: ", m.as_str()),
            ChromeMcpError::Url(m) => concat("URL parsing error: ", m.as_str()),
            ChromeMcpError::InvalidOperation(m) => concat("Invalid operation: ", m.as_str()),
            ChromeMcpError::TabNotFound(m) => concat("Tab not found: ", m.as_str()),
            ChromeMcpError::Timeout { timeout } => concat3(
                "Timeout: operation timed out after ",
                u64_to_string(*timeout).as_str(),
                "ms",
            ),
        }
    }
}

} // verus!
