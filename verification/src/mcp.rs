//! The tool-calling side of the bridge: requests and responses of the
//! line-based protocol, the routing of a request by its method, and the
//! table of tools with the reading of their arguments.

use crate::error::{ChromeMcpError, ErrorV};
use crate::frame::{as_i32, field, get_field, json_as_i32};
use crate::json::{
    int_number, json_parse, json_text, members_view, no_items, no_members, opt_str_view, opt_view,
    push_item, push_member, Json, JsonV, NumberV,
};
use crate::text::{concat, str_eq};
pub use crate::tools::{get_available_tools, Tool};
use crate::tools::{available_tools, tool_json, tools_view, ToolV};
use vstd::prelude::*;
use vstd::string::*;

verus! {

/// What the server can do with tools.
#[derive(Clone, Debug, PartialEq)]
pub struct ToolsCapability {
    pub list_changed: Option<bool>,
}

/// What the server can do with logging.
#[derive(Clone, Debug, PartialEq)]
pub struct LoggingCapability {
    pub level: Option<String>,
}

/// What the server can do with prompts.
#[derive(Clone, Debug, PartialEq)]
pub struct PromptsCapability {
    pub list_changed: Option<bool>,
}

/// What the server can do with resources.
#[derive(Clone, Debug, PartialEq)]
pub struct ResourcesCapability {
    pub list_changed: Option<bool>,
    pub subscribe: Option<bool>,
}

/// What the server says it can do.
#[derive(Clone, Debug, PartialEq)]
pub struct ServerCapabilities {
    pub tools: Option<ToolsCapability>,
    pub logging: Option<LoggingCapability>,
    pub prompts: Option<PromptsCapability>,
    pub resources: Option<ResourcesCapability>,
}

/// A member for a flag that may be absent: null where it is.
pub open spec fn flag_or_null(o: Option<bool>) -> JsonV {
    match o {
        Some(b) => JsonV::Bool(b),
        None => JsonV::Null,
    }
}

/// The JSON form of the capabilities: every field is written, an absent one as null.
pub open spec fn capabilities_json(c: ServerCapabilities) -> JsonV {
    JsonV::Object(
        seq![
            (
                "tools"@,
                match c.tools {
                    Some(t) => JsonV::Object(seq![("listChanged"@, flag_or_null(t.list_changed))]),
                    None => JsonV::Null,
                },
            ),
            (
                "logging"@,
                match c.logging {
                    Some(l) => JsonV::Object(
                        seq![
                            (
                                "level"@,
                                match l.level {
                                    Some(s) => JsonV::Str(s@),
                                    None => JsonV::Null,
                                },
                            ),
                        ],
                    ),
                    None => JsonV::Null,
                },
            ),
            (
                "prompts"@,
                match c.prompts {
                    Some(p) => JsonV::Object(seq![("listChanged"@, flag_or_null(p.list_changed))]),
                    None => JsonV::Null,
                },
            ),
            (
                "resources"@,
                match c.resources {
                    Some(r) => JsonV::Object(
                        seq![
                            ("listChanged"@, flag_or_null(r.list_changed)),
                            ("subscribe"@, flag_or_null(r.subscribe)),
                        ],
                    ),
                    None => JsonV::Null,
                },
            ),
        ],
    )
}

fn flag_json(o: Option<bool>) -> (r: Json)
    ensures
        r@ == flag_or_null(o),
{
    match o {
        Some(b) => Json::Bool(b),
        None => Json::Null,
    }
}

impl ServerCapabilities {
    /// The capabilities of this server: tools, whose list may change, and
    /// logging at level `info`.
    pub fn standard() -> (r: ServerCapabilities)
        ensures
            r.tools == Some(ToolsCapability { list_changed: Some(true) }),
            r.logging matches Some(l) && l.level matches Some(level) && level@ == "info"@,
            r.prompts is None,
            r.resources is None,
    {
        ServerCapabilities {
            tools: Some(ToolsCapability { list_changed: Some(true) }),
            logging: Some(LoggingCapability { level: Some(String::from_str("info")) }),
            prompts: None,
            resources: None,
        }
    }

    /// The JSON form of the capabilities.
    pub fn to_json(&self) -> (r: Json)
        ensures
            r@ == capabilities_json(*self),
    {
        let tools = match &self.tools {
            Some(t) => {
                let mut m = no_members();
                push_member(&mut m, "listChanged", flag_json(t.list_changed));
                Json::object(m)
            },
            None => Json::Null,
        };
        let logging = match &self.logging {
            Some(l) => {
                let mut m = no_members();
                push_member(
                    &mut m,
                    "level",
                    match &l.level {
                        Some(s) => Json::string(s.as_str()),
                        None => Json::Null,
                    },
                );
                Json::object(m)
            },
            None => Json::Null,
        };
        let prompts = match &self.prompts {
            Some(p) => {
                let mut m = no_members();
                push_member(&mut m, "listChanged", flag_json(p.list_changed));
                Json::object(m)
            },
            None => Json::Null,
        };
        let resources = match &self.resources {
            Some(r) => {
                let mut m = no_members();
                push_member(&mut m, "listChanged", flag_json(r.list_changed));
                push_member(&mut m, "subscribe", flag_json(r.subscribe));
                let ghost want = seq![
                    ("listChanged"@, flag_or_null(r.list_changed)),
                    ("subscribe"@, flag_or_null(r.subscribe)),
                ];
                assert(members_view(m@) =~= want);
                Json::object(m)
            },
            None => Json::Null,
        };
        let mut all = no_members();
        push_member(&mut all, "tools", tools);
        push_member(&mut all, "logging", logging);
        push_member(&mut all, "prompts", prompts);
        push_member(&mut all, "resources", resources);
        assert(members_view(all@) =~= capabilities_json(*self)->Object_0);
        Json::object(all)
    }
}

/// The error object of a response.
#[derive(Clone, Debug, PartialEq)]
pub struct McpError {
    pub code: i32,
    pub message: String,
    pub data: Option<Json>,
}

/// One message of the tool protocol: a request, a notification or a response.
#[derive(Clone, Debug, PartialEq)]
pub struct McpMessage {
    pub jsonrpc: String,
    pub id: Option<Json>,
    pub method: Option<String>,
    pub params: Option<Json>,
    pub result: Option<Json>,
    pub error: Option<McpError>,
}

/// The model of an [`McpError`].
pub struct McpErrorV {
    pub code: i32,
    pub message: Seq<char>,
    pub data: Option<JsonV>,
}

/// The model of an [`McpMessage`].
pub struct McpMessageV {
    pub jsonrpc: Seq<char>,
    pub id: Option<JsonV>,
    pub method: Option<Seq<char>>,
    pub params: Option<JsonV>,
    pub result: Option<JsonV>,
    pub error: Option<McpErrorV>,
}

impl View for McpError {
    type V = McpErrorV;

    open spec fn view(&self) -> McpErrorV {
        McpErrorV { code: self.code, message: self.message@, data: opt_view(self.data) }
    }
}

impl View for McpMessage {
    type V = McpMessageV;

    open spec fn view(&self) -> McpMessageV {
        McpMessageV {
            jsonrpc: self.jsonrpc@,
            id: opt_view(self.id),
            method: opt_str_view(self.method),
            params: opt_view(self.params),
            result: opt_view(self.result),
            error: match self.error {
                Some(e) => Some(e@),
                None => None,
            },
        }
    }
}

/// A member for a value that may be absent: null where it is.
pub open spec fn or_null(o: Option<JsonV>) -> JsonV {
    match o {
        Some(v) => v,
        None => JsonV::Null,
    }
}

/// The JSON form of an error object.
pub open spec fn mcp_error_json(e: McpErrorV) -> JsonV {
    JsonV::Object(
        seq![
            ("code"@, JsonV::Num(int_number(e.code as int))),
            ("message"@, JsonV::Str(e.message)),
            ("data"@, or_null(e.data)),
        ],
    )
}

/// The JSON form of a message: every field is written, an absent one as null.
pub open spec fn mcp_message_json(m: McpMessageV) -> JsonV {
    JsonV::Object(
        seq![
            ("jsonrpc"@, JsonV::Str(m.jsonrpc)),
            ("id"@, or_null(m.id)),
            (
                "method"@,
                match m.method {
                    Some(s) => JsonV::Str(s),
                    None => JsonV::Null,
                },
            ),
            ("params"@, or_null(m.params)),
            ("result"@, or_null(m.result)),
            (
                "error"@,
                match m.error {
                    Some(e) => mcp_error_json(e),
                    None => JsonV::Null,
                },
            ),
        ],
    )
}

/// Reads an error object: `code` and `message` are required.
pub open spec fn decode_mcp_error(j: JsonV) -> Option<McpErrorV> {
    if !(j is Object) || field(j, "code"@) is None || as_i32(field(j, "code"@)->0) is None || field(
        j,
        "message"@,
    ) is None || field(j, "message"@)->0.as_str() is None {
        None
    } else {
        Some(
            McpErrorV {
                code: as_i32(field(j, "code"@)->0)->0,
                message: field(j, "message"@)->0.as_str()->0,
                data: field(j, "data"@),
            },
        )
    }
}

/// Reads a message: `jsonrpc` is a required text; a member that is missing
/// or null is an absent field.
pub open spec fn decode_mcp_message(j: JsonV) -> Option<McpMessageV> {
    if !(j is Object) || field(j, "jsonrpc"@) is None || field(j, "jsonrpc"@)->0.as_str() is None
        || (field(j, "method"@) is Some && field(j, "method"@)->0.as_str() is None) || (field(
        j,
        "error"@,
    ) is Some && decode_mcp_error(field(j, "error"@)->0) is None) {
        None
    } else {
        Some(
            McpMessageV {
                jsonrpc: field(j, "jsonrpc"@)->0.as_str()->0,
                id: field(j, "id"@),
                method: match field(j, "method"@) {
                    Some(v) => v.as_str(),
                    None => None,
                },
                params: field(j, "params"@),
                result: field(j, "result"@),
                error: match field(j, "error"@) {
                    Some(v) => decode_mcp_error(v),
                    None => None,
                },
            },
        )
    }
}

/// What a line of input is: a message, or text that is none, with the
/// reason where the text is not even JSON.
pub open spec fn read_line(line: Seq<char>) -> Result<McpMessageV, ErrorV> {
    match json_parse(line) {
        Ok(j) => match decode_mcp_message(j) {
            Some(m) => Ok(m),
            None => Err(ErrorV::McpProtocol("Invalid JSON: not a protocol message"@)),
        },
        Err(reason) => Err(ErrorV::McpProtocol("Invalid JSON: "@ + reason)),
    }
}

proof fn lemma_message_keys_distinct()
    ensures
        "jsonrpc"@ != "id"@,
        "jsonrpc"@ != "method"@,
        "jsonrpc"@ != "params"@,
        "jsonrpc"@ != "result"@,
        "jsonrpc"@ != "error"@,
        "id"@ != "method"@,
        "id"@ != "params"@,
        "id"@ != "result"@,
        "id"@ != "error"@,
        "method"@ != "params"@,
        "method"@ != "result"@,
        "method"@ != "error"@,
        "params"@ != "result"@,
        "params"@ != "error"@,
        "result"@ != "error"@,
        "code"@ != "message"@,
        "code"@ != "data"@,
        "message"@ != "data"@,
{
    reveal_strlit("jsonrpc");
    reveal_strlit("id");
    reveal_strlit("method");
    reveal_strlit("params");
    reveal_strlit("result");
    reveal_strlit("error");
    reveal_strlit("code");
    reveal_strlit("message");
    reveal_strlit("data");
    assert("jsonrpc"@.len() == 7);
    assert("id"@.len() == 2);
    assert("error"@.len() == 5);
    assert("method"@.len() == 6);
    assert("code"@.len() == 4);
    assert("message"@.len() == 7);
    assert("method"@[0] != "params"@[0]);
    assert("method"@[0] != "result"@[0]);
    assert("params"@[0] != "result"@[0]);
    assert("code"@[0] != "data"@[0]);
}

/// A lookup in three members of different keys.
proof fn lemma_lookup3(
    a: (Seq<char>, JsonV),
    b: (Seq<char>, JsonV),
    c: (Seq<char>, JsonV),
    key: Seq<char>,
)
    requires
        a.0 != b.0,
        a.0 != c.0,
        b.0 != c.0,
    ensures
        crate::json::lookup(seq![a, b, c], key) == if key == a.0 {
            Some(a.1)
        } else if key == b.0 {
            Some(b.1)
        } else if key == c.0 {
            Some(c.1)
        } else {
            None
        },
{
    assert(seq![a, b, c] =~= seq![a] + seq![b] + seq![c]);
    crate::json::lemma_lookup_concat(seq![a] + seq![b], seq![c], key);
    crate::json::lemma_lookup_concat(seq![a], seq![b], key);
    crate::json::lemma_lookup_one(a.0, a.1, key);
    crate::json::lemma_lookup_one(b.0, b.1, key);
    crate::json::lemma_lookup_one(c.0, c.1, key);
}

/// A message whose optional values, where present, are not JSON null. (A
/// null member reads back as an absent field.)
pub open spec fn no_null_values(m: McpMessageV) -> bool {
    &&& m.id != Some(JsonV::Null)
    &&& m.params != Some(JsonV::Null)
    &&& m.result != Some(JsonV::Null)
    &&& match m.error {
        Some(e) => e.data != Some(JsonV::Null),
        None => true,
    }
}

/// Writing a message to JSON and reading it back gives the message that
/// was written.
pub proof fn lemma_message_round_trip(m: McpMessageV)
    requires
        no_null_values(m),
    ensures
        decode_mcp_message(mcp_message_json(m)) == Some(m),
{
    lemma_message_keys_distinct();
    let method_j = match m.method {
        Some(s) => JsonV::Str(s),
        None => JsonV::Null,
    };
    let error_j = match m.error {
        Some(e) => mcp_error_json(e),
        None => JsonV::Null,
    };
    let first = seq![
        ("jsonrpc"@, JsonV::Str(m.jsonrpc)),
        ("id"@, or_null(m.id)),
        ("method"@, method_j),
    ];
    let second = seq![
        ("params"@, or_null(m.params)),
        ("result"@, or_null(m.result)),
        ("error"@, error_j),
    ];
    let j = mcp_message_json(m);
    assert(j->Object_0 =~= first + second);
    assert forall|k: Seq<char>|
        crate::json::lookup(first + second, k) == if k == "params"@ {
            Some(or_null(m.params))
        } else if k == "result"@ {
            Some(or_null(m.result))
        } else if k == "error"@ {
            Some(error_j)
        } else if k == "jsonrpc"@ {
            Some(JsonV::Str(m.jsonrpc))
        } else if k == "id"@ {
            Some(or_null(m.id))
        } else if k == "method"@ {
            Some(method_j)
        } else {
            None
        } by {
        crate::json::lemma_lookup_concat(first, second, k);
        lemma_lookup3(first[0], first[1], first[2], k);
        lemma_lookup3(second[0], second[1], second[2], k);
    }
    assert(field(j, "jsonrpc"@) == Some(JsonV::Str(m.jsonrpc)));
    assert(field(j, "id"@) == m.id);
    assert(field(j, "params"@) == m.params);
    assert(field(j, "result"@) == m.result);
    match m.error {
        Some(e) => {
            let ej = mcp_error_json(e);
            assert forall|k: Seq<char>|
                crate::json::lookup(ej->Object_0, k) == if k == "code"@ {
                    Some(JsonV::Num(int_number(e.code as int)))
                } else if k == "message"@ {
                    Some(JsonV::Str(e.message))
                } else if k == "data"@ {
                    Some(or_null(e.data))
                } else {
                    None
                } by {
                lemma_lookup3(ej->Object_0[0], ej->Object_0[1], ej->Object_0[2], k);
            }
            assert(field(ej, "code"@) == Some(JsonV::Num(int_number(e.code as int))));
            assert(field(ej, "message"@) == Some(JsonV::Str(e.message)));
            assert(field(ej, "data"@) == e.data);
            assert(as_i32(JsonV::Num(int_number(e.code as int))) == Some(e.code));
            assert(decode_mcp_error(ej) is Some);
            assert(decode_mcp_error(ej)->0 =~= e);
        },
        None => {},
    }
    assert(decode_mcp_message(j) is Some);
    assert(decode_mcp_message(j)->0 =~= m);
}

fn clone_field(j: &Json, key: &str) -> (r: Option<Json>)
    ensures
        opt_view(r) == field(j@, key@),
{
    match get_field(j, key) {
        Some(v) => Some(v.clone()),
        None => None,
    }
}

fn null_or(o: &Option<Json>) -> (r: Json)
    ensures
        r@ == or_null(opt_view(*o)),
{
    match o {
        Some(v) => v.clone(),
        None => Json::Null,
    }
}

impl McpError {
    /// The JSON form of the error object.
    pub fn to_json(&self) -> (r: Json)
        ensures
            r@ == mcp_error_json(self@),
    {
        let mut m = no_members();
        push_member(&mut m, "code", Json::from_i64(self.code as i64));
        push_member(&mut m, "message", Json::string(self.message.as_str()));
        push_member(&mut m, "data", null_or(&self.data));
        assert(members_view(m@) =~= mcp_error_json(self@)->Object_0);
        Json::object(m)
    }

    /// Reads an error object from its JSON form, if it is one.
    pub fn from_json(j: &Json) -> (r: Option<McpError>)
        ensures
            match r {
                Some(e) => decode_mcp_error(j@) == Some(e@),
                None => decode_mcp_error(j@) is None,
            },
    {
        match j {
            Json::Object(_) => {},
            _ => {
                return None;
            },
        }
        let code = match get_field(j, "code") {
            Some(c) => match json_as_i32(c) {
                Some(n) => n,
                None => {
                    return None;
                },
            },
            None => {
                return None;
            },
        };
        let message = match get_field(j, "message") {
            Some(m) => match m.as_str() {
                Some(s) => String::from_str(s),
                None => {
                    return None;
                },
            },
            None => {
                return None;
            },
        };
        Some(McpError { code, message, data: clone_field(j, "data") })
    }
}

impl McpMessage {
    /// The JSON form of the message.
    pub fn to_json(&self) -> (r: Json)
        ensures
            r@ == mcp_message_json(self@),
    {
        let mut m = no_members();
        push_member(&mut m, "jsonrpc", Json::string(self.jsonrpc.as_str()));
        push_member(&mut m, "id", null_or(&self.id));
        push_member(
            &mut m,
            "method",
            match &self.method {
                Some(s) => Json::string(s.as_str()),
                None => Json::Null,
            },
        );
        push_member(&mut m, "params", null_or(&self.params));
        push_member(&mut m, "result", null_or(&self.result));
        push_member(
            &mut m,
            "error",
            match &self.error {
                Some(e) => e.to_json(),
                None => Json::Null,
            },
        );
        assert(members_view(m@) =~= mcp_message_json(self@)->Object_0);
        Json::object(m)
    }

    /// The line that carries the message.
    pub fn encode(&self) -> (r: String)
        ensures
            r@ == json_text(mcp_message_json(self@).meaning()),
    {
        self.to_json().to_text()
    }

    /// Reads a message from its JSON form, if it is one.
    pub fn from_json(j: &Json) -> (r: Option<McpMessage>)
        ensures
            match r {
                Some(m) => decode_mcp_message(j@) == Some(m@),
                None => decode_mcp_message(j@) is None,
            },
    {
        match j {
            Json::Object(_) => {},
            _ => {
                return None;
            },
        }
        let jsonrpc = match get_field(j, "jsonrpc") {
            Some(v) => match v.as_str() {
                Some(s) => String::from_str(s),
                None => {
                    return None;
                },
            },
            None => {
                return None;
            },
        };
        let method = match get_field(j, "method") {
            Some(v) => match v.as_str() {
                Some(s) => Some(String::from_str(s)),
                None => {
                    return None;
                },
            },
            None => None,
        };
        let error = match get_field(j, "error") {
            Some(v) => match McpError::from_json(v) {
                Some(e) => Some(e),
                None => {
                    return None;
                },
            },
            None => None,
        };
        Some(
            McpMessage {
                jsonrpc,
                id: clone_field(j, "id"),
                method,
                params: clone_field(j, "params"),
                result: clone_field(j, "result"),
                error,
            },
        )
    }

    /// Reads a message from a line of input.
    pub fn decode(line: &str) -> (r: Result<McpMessage, ChromeMcpError>)
        ensures
            match r {
                Ok(m) => read_line(line@) == Ok::<McpMessageV, ErrorV>(m@),
                Err(e) => read_line(line@) == Err::<McpMessageV, ErrorV>(e@),
            },
    {
        match Json::parse(line) {
            Ok(j) => match McpMessage::from_json(&j) {
                Some(m) => Ok(m),
                None => Err(
                    ChromeMcpError::mcp_protocol_error("Invalid JSON: not a protocol message"),
                ),
            },
            Err(reason) => Err(
                ChromeMcpError::McpProtocol(concat("Invalid JSON: ", reason.as_str())),
            ),
        }
    }
}

/// A tool call whose arguments were read and found in order.
#[derive(Debug, PartialEq)]
pub enum ToolCall {
    Navigate { url: String },
    Click { target: String },
    Type { text: String, selector: Option<String> },
    Screenshot { format: Option<String>, quality: Option<u32>, full_page: bool },
    Evaluate { javascript: String },
    TabsList,
    TabsCreate { url: Option<String> },
    TabsSwitch { tab_id: String },
    TabsClose { tab_id: String },
    ScrollTo { selector: String },
    ScrollBy { x: i32, y: i32 },
    Hover { target: String },
    Select { selector: String, value: String },
    Wait { condition: crate::browser::WaitCondition, timeout: u64, name: String },
    CookiesGet,
    CookiesSet(crate::browser::Cookie),
    CookiesClear,
    Pdf(Option<crate::screenshot::PdfOptions>),
    AccessibilityTree { summary: bool },
    NativeClick { x: serde_json::Number, y: serde_json::Number },
    Find { query: String },
}

/// The model of a [`ToolCall`].
pub enum ToolCallV {
    Navigate { url: Seq<char> },
    Click { target: Seq<char> },
    Type { text: Seq<char>, selector: Option<Seq<char>> },
    Screenshot { format: Option<Seq<char>>, quality: Option<u32>, full_page: bool },
    Evaluate { javascript: Seq<char> },
    TabsList,
    TabsCreate { url: Option<Seq<char>> },
    TabsSwitch { tab_id: Seq<char> },
    TabsClose { tab_id: Seq<char> },
    ScrollTo { selector: Seq<char> },
    ScrollBy { x: i32, y: i32 },
    Hover { target: Seq<char> },
    Select { selector: Seq<char>, value: Seq<char> },
    Wait { condition: crate::browser::WaitConditionV, timeout: u64, name: Seq<char> },
    CookiesGet,
    CookiesSet(crate::browser::CookieV),
    CookiesClear,
    Pdf(Option<crate::screenshot::PdfOptionsV>),
    AccessibilityTree { summary: bool },
    NativeClick { x: NumberV, y: NumberV },
    Find { query: Seq<char> },
}

impl View for ToolCall {
    type V = ToolCallV;

    open spec fn view(&self) -> ToolCallV {
        match self {
            ToolCall::Navigate { url } => ToolCallV::Navigate { url: url@ },
            ToolCall::Click { target } => ToolCallV::Click { target: target@ },
            ToolCall::Type { text, selector } => ToolCallV::Type {
                text: text@,
                selector: opt_str_view(*selector),
            },
            ToolCall::Screenshot { format, quality, full_page } => ToolCallV::Screenshot {
                format: opt_str_view(*format),
                quality: *quality,
                full_page: *full_page,
            },
            ToolCall::Evaluate { javascript } => ToolCallV::Evaluate { javascript: javascript@ },
            ToolCall::TabsList => ToolCallV::TabsList,
            ToolCall::TabsCreate { url } => ToolCallV::TabsCreate { url: opt_str_view(*url) },
            ToolCall::TabsSwitch { tab_id } => ToolCallV::TabsSwitch { tab_id: tab_id@ },
            ToolCall::TabsClose { tab_id } => ToolCallV::TabsClose { tab_id: tab_id@ },
            ToolCall::ScrollTo { selector } => ToolCallV::ScrollTo { selector: selector@ },
            ToolCall::ScrollBy { x, y } => ToolCallV::ScrollBy { x: *x, y: *y },
            ToolCall::Hover { target } => ToolCallV::Hover { target: target@ },
            ToolCall::Select { selector, value } => ToolCallV::Select {
                selector: selector@,
                value: value@,
            },
            ToolCall::Wait { condition, timeout, name } => ToolCallV::Wait {
                condition: condition@,
                timeout: *timeout,
                name: name@,
            },
            ToolCall::CookiesGet => ToolCallV::CookiesGet,
            ToolCall::CookiesSet(c) => ToolCallV::CookiesSet(c@),
            ToolCall::CookiesClear => ToolCallV::CookiesClear,
            ToolCall::Pdf(o) => ToolCallV::Pdf(crate::screenshot::opt_pdf_view(*o)),
            ToolCall::AccessibilityTree { summary } => ToolCallV::AccessibilityTree {
                summary: *summary,
            },
            ToolCall::NativeClick { x, y } => ToolCallV::NativeClick {
                x: crate::json::number_model(*x),
                y: crate::json::number_model(*y),
            },
            ToolCall::Find { query } => ToolCallV::Find { query: query@ },
        }
    }
}

/// The text argument `key`.
pub open spec fn arg_text(args: JsonV, key: Seq<char>) -> Option<Seq<char>> {
    match args.get(key) {
        Some(JsonV::Str(s)) => Some(s),
        _ => None,
    }
}

/// The flag argument `key`.
pub open spec fn arg_flag(args: JsonV, key: Seq<char>) -> Option<bool> {
    match args.get(key) {
        Some(JsonV::Bool(b)) => Some(b),
        _ => None,
    }
}

/// The number argument `key`.
pub open spec fn arg_number(args: JsonV, key: Seq<char>) -> Option<NumberV> {
    match args.get(key) {
        Some(JsonV::Num(n)) => Some(n),
        _ => None,
    }
}

/// The unsigned integer argument `key`.
pub open spec fn arg_u64(args: JsonV, key: Seq<char>) -> Option<u64> {
    match args.get(key) {
        Some(v) => v.as_u64(),
        None => None,
    }
}

/// The integer argument `key`, cut to 32 bits; zero where there is none.
pub open spec fn arg_offset(args: JsonV, key: Seq<char>) -> i32 {
    match args.get(key) {
        Some(v) => match v.as_i64() {
            Some(n) => n as i32,
            None => 0i32,
        },
        None => 0i32,
    }
}

/// The error of a required argument that is missing.
pub open spec fn missing(key: Seq<char>) -> ErrorV {
    ErrorV::McpProtocol("Missing "@ + key + " parameter"@)
}

/// The condition that a name and a target stand for.
pub open spec fn wait_condition(name: Seq<char>, target: Seq<char>) -> Option<
    crate::browser::WaitConditionV,
> {
    if name == "element_present"@ {
        Some(crate::browser::WaitConditionV::ElementPresent(target))
    } else if name == "element_visible"@ {
        Some(crate::browser::WaitConditionV::ElementVisible(target))
    } else if name == "element_clickable"@ {
        Some(crate::browser::WaitConditionV::ElementClickable(target))
    } else if name == "text_present"@ {
        Some(crate::browser::WaitConditionV::TextPresent(target))
    } else if name == "url_matches"@ {
        Some(crate::browser::WaitConditionV::UrlMatches(target))
    } else if name == "page_load"@ {
        Some(crate::browser::WaitConditionV::PageLoad)
    } else if name == "network_idle"@ {
        Some(crate::browser::WaitConditionV::NetworkIdle(1000))
    } else {
        None
    }
}

/// The PDF options that the arguments give: none where neither
/// orientation, background nor scale is given, else those over the defaults.
pub open spec fn pdf_arguments(args: JsonV) -> Option<crate::screenshot::PdfOptionsV> {
    if arg_flag(args, "landscape"@) is None && arg_flag(args, "print_background"@) is None
        && arg_number(args, "scale"@) is None {
        None
    } else {
        Some(
            crate::screenshot::PdfOptionsV {
                landscape: arg_flag(args, "landscape"@),
                print_background: arg_flag(args, "print_background"@),
                scale: arg_number(args, "scale"@),
                ..crate::screenshot::default_pdf_options()
            },
        )
    }
}

/// The call that a tool name and its arguments stand for, or why they stand
/// for none.
pub open spec fn tool_call(name: Seq<char>, args: JsonV) -> Result<ToolCallV, ErrorV> {
    if name == "chrome_navigate"@ {
        match arg_text(args, "url"@) {
            Some(url) => Ok(ToolCallV::Navigate { url }),
            None => Err(missing("url"@)),
        }
    } else if name == "chrome_click"@ {
        match arg_text(args, "target"@) {
            Some(target) => Ok(ToolCallV::Click { target }),
            None => Err(missing("target"@)),
        }
    } else if name == "chrome_type"@ {
        match arg_text(args, "text"@) {
            Some(text) => Ok(ToolCallV::Type { text, selector: arg_text(args, "selector"@) }),
            None => Err(missing("text"@)),
        }
    } else if name == "chrome_screenshot"@ {
        Ok(
            ToolCallV::Screenshot {
                format: arg_text(args, "format"@),
                quality: match arg_u64(args, "quality"@) {
                    Some(q) => Some(q as u32),
                    None => None,
                },
                full_page: arg_flag(args, "full_page"@) == Some(true),
            },
        )
    } else if name == "chrome_evaluate"@ {
        match arg_text(args, "javascript"@) {
            Some(javascript) => Ok(ToolCallV::Evaluate { javascript }),
            None => Err(missing("javascript"@)),
        }
    } else if name == "chrome_tabs"@ {
        match arg_text(args, "action"@) {
            None => Err(missing("action"@)),
            Some(action) => if action == "list"@ {
                Ok(ToolCallV::TabsList)
            } else if action == "create"@ {
                Ok(ToolCallV::TabsCreate { url: arg_text(args, "url"@) })
            } else if action == "switch"@ {
                match arg_text(args, "tab_id"@) {
                    Some(tab_id) => Ok(ToolCallV::TabsSwitch { tab_id }),
                    None => Err(missing("tab_id"@)),
                }
            } else if action == "close"@ {
                match arg_text(args, "tab_id"@) {
                    Some(tab_id) => Ok(ToolCallV::TabsClose { tab_id }),
                    None => Err(missing("tab_id"@)),
                }
            } else {
                Err(ErrorV::McpProtocol("Unknown tabs action: "@ + action))
            },
        }
    } else if name == "chrome_scroll"@ {
        match arg_text(args, "selector"@) {
            Some(selector) => Ok(ToolCallV::ScrollTo { selector }),
            None => Ok(ToolCallV::ScrollBy { x: arg_offset(args, "x"@), y: arg_offset(args, "y"@) }),
        }
    } else if name == "chrome_hover"@ {
        match arg_text(args, "target"@) {
            Some(target) => Ok(ToolCallV::Hover { target }),
            None => Err(missing("target"@)),
        }
    } else if name == "chrome_select"@ {
        match arg_text(args, "selector"@) {
            None => Err(missing("selector"@)),
            Some(selector) => match arg_text(args, "value"@) {
                Some(value) => Ok(ToolCallV::Select { selector, value }),
                None => Err(missing("value"@)),
            },
        }
    } else if name == "chrome_wait"@ {
        match arg_text(args, "condition"@) {
            None => Err(missing("condition"@)),
            Some(condition_name) => match wait_condition(
                condition_name,
                match arg_text(args, "target"@) {
                    Some(t) => t,
                    None => Seq::empty(),
                },
            ) {
                Some(condition) => Ok(
                    ToolCallV::Wait {
                        condition,
                        timeout: match arg_u64(args, "timeout"@) {
                            Some(t) => t,
                            None => 10000,
                        },
                        name: condition_name,
                    },
                ),
                None => Err(ErrorV::McpProtocol("Unknown condition: "@ + condition_name)),
            },
        }
    } else if name == "chrome_cookies"@ {
        match arg_text(args, "action"@) {
            None => Err(missing("action"@)),
            Some(action) => if action == "get"@ {
                Ok(ToolCallV::CookiesGet)
            } else if action == "set"@ {
                match arg_text(args, "name"@) {
                    None => Err(missing("name"@)),
                    Some(cookie_name) => match arg_text(args, "value"@) {
                        None => Err(missing("value"@)),
                        Some(value) => Ok(
                            ToolCallV::CookiesSet(
                                crate::browser::CookieV {
                                    name: cookie_name,
                                    value,
                                    domain: match arg_text(args, "domain"@) {
                                        Some(d) => d,
                                        None => "localhost"@,
                                    },
                                    path: match arg_text(args, "path"@) {
                                        Some(p) => p,
                                        None => "/"@,
                                    },
                                    secure: false,
                                    http_only: false,
                                    same_site: None,
                                    expires: None,
                                },
                            ),
                        ),
                    },
                }
            } else if action == "clear"@ {
                Ok(ToolCallV::CookiesClear)
            } else {
                Err(ErrorV::McpProtocol("Unknown cookies action: "@ + action))
            },
        }
    } else if name == "chrome_pdf"@ {
        Ok(ToolCallV::Pdf(pdf_arguments(args)))
    } else if name == "chrome_accessibility_tree"@ {
        Ok(ToolCallV::AccessibilityTree { summary: arg_flag(args, "summary"@) == Some(true) })
    } else if name == "chrome_native_click"@ {
        match arg_number(args, "x"@) {
            None => Err(missing("x"@)),
            Some(x) => match arg_number(args, "y"@) {
                Some(y) => Ok(ToolCallV::NativeClick { x, y }),
                None => Err(missing("y"@)),
            },
        }
    } else if name == "chrome_find"@ {
        match arg_text(args, "query"@) {
            Some(query) => Ok(ToolCallV::Find { query }),
            None => Err(missing("query"@)),
        }
    } else {
        Err(ErrorV::McpProtocol("Unknown tool: "@ + name))
    }
}

fn text_arg(args: &Json, key: &str) -> (r: Option<String>)
    ensures
        opt_str_view(r) == arg_text(args@, key@),
{
    let found = match args.get(key) {
        Some(v) => v.as_str(),
        None => None,
    };
    match found {
        Some(s) => Some(String::from_str(s)),
        None => None,
    }
}

fn flag_arg(args: &Json, key: &str) -> (r: Option<bool>)
    ensures
        r == arg_flag(args@, key@),
{
    match args.get(key) {
        Some(v) => v.as_bool(),
        None => None,
    }
}

fn number_arg(args: &Json, key: &str) -> (r: Option<serde_json::Number>)
    ensures
        crate::screenshot::opt_number(r) == arg_number(args@, key@),
{
    match args.get(key) {
        Some(v) => match v.as_number() {
            Some(n) => Some(n.clone()),
            None => None,
        },
        None => None,
    }
}

fn u64_arg(args: &Json, key: &str) -> (r: Option<u64>)
    ensures
        r == arg_u64(args@, key@),
{
    match args.get(key) {
        Some(v) => v.as_u64(),
        None => None,
    }
}

fn offset_arg(args: &Json, key: &str) -> (r: i32)
    ensures
        r == arg_offset(args@, key@),
{
    match args.get(key) {
        Some(v) => match v.as_i64() {
            Some(n) => #[verifier::truncate]
            (n as i32),
            None => 0,
        },
        None => 0,
    }
}

fn missing_error(key: &str) -> (r: ChromeMcpError)
    ensures
        r@ == missing(key@),
{
    let mut text = String::from_str("Missing ");
    text.append(key);
    text.append(" parameter");
    ChromeMcpError::McpProtocol(text)
}

fn required_arg(args: &Json, key: &str) -> (r: Result<String, ChromeMcpError>)
    ensures
        match r {
            Ok(s) => arg_text(args@, key@) == Some(s@),
            Err(e) => arg_text(args@, key@) is None && e@ == missing(key@),
        },
{
    match text_arg(args, key) {
        Some(s) => Ok(s),
        None => Err(missing_error(key)),
    }
}

/// The condition that a name and a target stand for.
pub fn parse_wait_condition(name: &str, target: &str) -> (r: Option<crate::browser::WaitCondition>)
    ensures
        match r {
            Some(c) => wait_condition(name@, target@) == Some(c@),
            None => wait_condition(name@, target@) is None,
        },
{
    if str_eq(name, "element_present") {
        Some(crate::browser::WaitCondition::ElementPresent(String::from_str(target)))
    } else if str_eq(name, "element_visible") {
        Some(crate::browser::WaitCondition::ElementVisible(String::from_str(target)))
    } else if str_eq(name, "element_clickable") {
        Some(crate::browser::WaitCondition::ElementClickable(String::from_str(target)))
    } else if str_eq(name, "text_present") {
        Some(crate::browser::WaitCondition::TextPresent(String::from_str(target)))
    } else if str_eq(name, "url_matches") {
        Some(crate::browser::WaitCondition::UrlMatches(String::from_str(target)))
    } else if str_eq(name, "page_load") {
        Some(crate::browser::WaitCondition::PageLoad)
    } else if str_eq(name, "network_idle") {
        Some(crate::browser::WaitCondition::NetworkIdle(1000))
    } else {
        None
    }
}

fn parse_pdf_arguments(args: &Json) -> (r: Option<crate::screenshot::PdfOptions>)
    ensures
        crate::screenshot::opt_pdf_view(r) == pdf_arguments(args@),
{
    let landscape = flag_arg(args, "landscape");
    let print_background = flag_arg(args, "print_background");
    let scale = number_arg(args, "scale");
    if landscape.is_some() || print_background.is_some() || scale.is_some() {
        let mut options = crate::screenshot::PdfOptions::default();
        options.landscape = landscape;
        options.print_background = print_background;
        options.scale = scale;
        Some(options)
    } else {
        None
    }
}

fn parse_tabs(args: &Json) -> (r: Result<ToolCall, ChromeMcpError>)
    ensures
        match r {
            Ok(c) => tool_call("chrome_tabs"@, args@) == Ok::<ToolCallV, ErrorV>(c@),
            Err(e) => tool_call("chrome_tabs"@, args@) == Err::<ToolCallV, ErrorV>(e@),
        },
{
    proof {
        lemma_tool_names_distinct();
    }
    let action = match required_arg(args, "action") {
        Ok(a) => a,
        Err(e) => {
            return Err(e);
        },
    };
    if str_eq(action.as_str(), "list") {
        Ok(ToolCall::TabsList)
    } else if str_eq(action.as_str(), "create") {
        Ok(ToolCall::TabsCreate { url: text_arg(args, "url") })
    } else if str_eq(action.as_str(), "switch") {
        match required_arg(args, "tab_id") {
            Ok(tab_id) => Ok(ToolCall::TabsSwitch { tab_id }),
            Err(e) => Err(e),
        }
    } else if str_eq(action.as_str(), "close") {
        match required_arg(args, "tab_id") {
            Ok(tab_id) => Ok(ToolCall::TabsClose { tab_id }),
            Err(e) => Err(e),
        }
    } else {
        Err(ChromeMcpError::McpProtocol(concat("Unknown tabs action: ", action.as_str())))
    }
}

fn parse_cookies(args: &Json) -> (r: Result<ToolCall, ChromeMcpError>)
    ensures
        match r {
            Ok(c) => tool_call("chrome_cookies"@, args@) == Ok::<ToolCallV, ErrorV>(c@),
            Err(e) => tool_call("chrome_cookies"@, args@) == Err::<ToolCallV, ErrorV>(e@),
        },
{
    proof {
        lemma_tool_names_distinct();
    }
    let action = match required_arg(args, "action") {
        Ok(a) => a,
        Err(e) => {
            return Err(e);
        },
    };
    if str_eq(action.as_str(), "get") {
        Ok(ToolCall::CookiesGet)
    } else if str_eq(action.as_str(), "set") {
        let name = match required_arg(args, "name") {
            Ok(n) => n,
            Err(e) => {
                return Err(e);
            },
        };
        let value = match required_arg(args, "value") {
            Ok(v) => v,
            Err(e) => {
                return Err(e);
            },
        };
        let domain = match text_arg(args, "domain") {
            Some(d) => d,
            None => String::from_str("localhost"),
        };
        let path = match text_arg(args, "path") {
            Some(p) => p,
            None => String::from_str("/"),
        };
        Ok(
            ToolCall::CookiesSet(
                crate::browser::Cookie {
                    name,
                    value,
                    domain,
                    path,
                    secure: false,
                    http_only: false,
                    same_site: None,
                    expires: None,
                },
            ),
        )
    } else if str_eq(action.as_str(), "clear") {
        Ok(ToolCall::CookiesClear)
    } else {
        Err(ChromeMcpError::McpProtocol(concat("Unknown cookies action: ", action.as_str())))
    }
}

fn parse_wait(args: &Json) -> (r: Result<ToolCall, ChromeMcpError>)
    ensures
        match r {
            Ok(c) => tool_call("chrome_wait"@, args@) == Ok::<ToolCallV, ErrorV>(c@),
            Err(e) => tool_call("chrome_wait"@, args@) == Err::<ToolCallV, ErrorV>(e@),
        },
{
    proof {
        lemma_tool_names_distinct();
    }
    let name = match required_arg(args, "condition") {
        Ok(n) => n,
        Err(e) => {
            return Err(e);
        },
    };
    let target = match text_arg(args, "target") {
        Some(t) => t,
        None => String::new(),
    };
    let timeout = match u64_arg(args, "timeout") {
        Some(t) => t,
        None => 10000,
    };
    match parse_wait_condition(name.as_str(), target.as_str()) {
        Some(condition) => Ok(ToolCall::Wait { condition, timeout, name }),
        None => Err(ChromeMcpError::McpProtocol(concat("Unknown condition: ", name.as_str()))),
    }
}

/// The names of the tools are pairwise different texts.
proof fn lemma_tool_names_distinct()
    ensures
        "chrome_tabs"@ != "chrome_navigate"@,
        "chrome_tabs"@ != "chrome_click"@,
        "chrome_tabs"@ != "chrome_type"@,
        "chrome_tabs"@ != "chrome_screenshot"@,
        "chrome_tabs"@ != "chrome_evaluate"@,
        "chrome_cookies"@ != "chrome_navigate"@,
        "chrome_cookies"@ != "chrome_click"@,
        "chrome_cookies"@ != "chrome_type"@,
        "chrome_cookies"@ != "chrome_screenshot"@,
        "chrome_cookies"@ != "chrome_evaluate"@,
        "chrome_cookies"@ != "chrome_tabs"@,
        "chrome_cookies"@ != "chrome_scroll"@,
        "chrome_cookies"@ != "chrome_hover"@,
        "chrome_cookies"@ != "chrome_select"@,
        "chrome_cookies"@ != "chrome_wait"@,
        "chrome_wait"@ != "chrome_navigate"@,
        "chrome_wait"@ != "chrome_click"@,
        "chrome_wait"@ != "chrome_type"@,
        "chrome_wait"@ != "chrome_screenshot"@,
        "chrome_wait"@ != "chrome_evaluate"@,
        "chrome_wait"@ != "chrome_tabs"@,
        "chrome_wait"@ != "chrome_scroll"@,
        "chrome_wait"@ != "chrome_hover"@,
        "chrome_wait"@ != "chrome_select"@,
{
    reveal_strlit("chrome_navigate");
    reveal_strlit("chrome_click");
    reveal_strlit("chrome_type");
    reveal_strlit("chrome_screenshot");
    reveal_strlit("chrome_evaluate");
    reveal_strlit("chrome_tabs");
    reveal_strlit("chrome_scroll");
    reveal_strlit("chrome_hover");
    reveal_strlit("chrome_select");
    reveal_strlit("chrome_wait");
    reveal_strlit("chrome_cookies");
    assert("chrome_tabs"@.len() == 11);
    assert("chrome_wait"@.len() == 11);
    assert("chrome_type"@.len() == 11);
    assert("chrome_cookies"@.len() == 14);
    assert("chrome_navigate"@.len() == 15);
    assert("chrome_click"@.len() == 12);
    assert("chrome_hover"@.len() == 12);
    assert("chrome_screenshot"@.len() == 17);
    assert("chrome_evaluate"@.len() == 15);
    assert("chrome_scroll"@.len() == 13);
    assert("chrome_select"@.len() == 13);
    assert("chrome_tabs"@[8] != "chrome_type"@[8]);
    assert("chrome_tabs"@[7] != "chrome_wait"@[7]);
    assert("chrome_wait"@[7] != "chrome_type"@[7]);
}

/// Reads the arguments of a tool call.
pub fn parse_tool_call(name: &str, arguments: &Json) -> (r: Result<ToolCall, ChromeMcpError>)
    ensures
        match r {
            Ok(c) => tool_call(name@, arguments@) == Ok::<ToolCallV, ErrorV>(c@),
            Err(e) => tool_call(name@, arguments@) == Err::<ToolCallV, ErrorV>(e@),
        },
{
    if str_eq(name, "chrome_navigate") {
        match required_arg(arguments, "url") {
            Ok(url) => Ok(ToolCall::Navigate { url }),
            Err(e) => Err(e),
        }
    } else if str_eq(name, "chrome_click") {
        match required_arg(arguments, "target") {
            Ok(target) => Ok(ToolCall::Click { target }),
            Err(e) => Err(e),
        }
    } else if str_eq(name, "chrome_type") {
        match required_arg(arguments, "text") {
            Ok(text) => Ok(ToolCall::Type { text, selector: text_arg(arguments, "selector") }),
            Err(e) => Err(e),
        }
    } else if str_eq(name, "chrome_screenshot") {
        let quality = match u64_arg(arguments, "quality") {
            Some(q) => Some(#[verifier::truncate] (q as u32)),
            None => None,
        };
        let full_page = match flag_arg(arguments, "full_page") {
            Some(b) => b,
            None => false,
        };
        Ok(ToolCall::Screenshot { format: text_arg(arguments, "format"), quality, full_page })
    } else if str_eq(name, "chrome_evaluate") {
        match required_arg(arguments, "javascript") {
            Ok(javascript) => Ok(ToolCall::Evaluate { javascript }),
            Err(e) => Err(e),
        }
    } else if str_eq(name, "chrome_tabs") {
        parse_tabs(arguments)
    } else if str_eq(name, "chrome_scroll") {
        match text_arg(arguments, "selector") {
            Some(selector) => Ok(ToolCall::ScrollTo { selector }),
            None => Ok(
                ToolCall::ScrollBy { x: offset_arg(arguments, "x"), y: offset_arg(arguments, "y") },
            ),
        }
    } else if str_eq(name, "chrome_hover") {
        match required_arg(arguments, "target") {
            Ok(target) => Ok(ToolCall::Hover { target }),
            Err(e) => Err(e),
        }
    } else if str_eq(name, "chrome_select") {
        let selector = match required_arg(arguments, "selector") {
            Ok(s) => s,
            Err(e) => {
                return Err(e);
            },
        };
        match required_arg(arguments, "value") {
            Ok(value) => Ok(ToolCall::Select { selector, value }),
            Err(e) => Err(e),
        }
    } else if str_eq(name, "chrome_wait") {
        parse_wait(arguments)
    } else if str_eq(name, "chrome_cookies") {
        parse_cookies(arguments)
    } else if str_eq(name, "chrome_pdf") {
        Ok(ToolCall::Pdf(parse_pdf_arguments(arguments)))
    } else if str_eq(name, "chrome_accessibility_tree") {
        let summary = match flag_arg(arguments, "summary") {
            Some(b) => b,
            None => false,
        };
        Ok(ToolCall::AccessibilityTree { summary })
    } else if str_eq(name, "chrome_native_click") {
        let x = match number_arg(arguments, "x") {
            Some(x) => x,
            None => {
                return Err(missing_error("x"));
            },
        };
        match number_arg(arguments, "y") {
            Some(y) => Ok(ToolCall::NativeClick { x, y }),
            None => Err(missing_error("y")),
        }
    } else if str_eq(name, "chrome_find") {
        match required_arg(arguments, "query") {
            Ok(query) => Ok(ToolCall::Find { query }),
            Err(e) => Err(e),
        }
    } else {
        Err(ChromeMcpError::McpProtocol(concat("Unknown tool: ", name)))
    }
}

/// What a message asks of the server.
#[derive(Debug, PartialEq)]
pub enum Route {
    /// Connect to the browser and answer with the capabilities.
    Initialize,
    /// Answer with the list of tools.
    ToolsList,
    /// Run the tool `name` on `arguments` and answer with what it gives.
    ToolsCall { name: String, arguments: Json },
    /// Answer that the server is there.
    Ping,
    /// Answer that there is no such method.
    MethodNotFound(String),
    /// A message without method, such as a response: nothing to do.
    Ignore,
}

/// The model of a [`Route`].
pub enum RouteV {
    Initialize,
    ToolsList,
    ToolsCall { name: Seq<char>, arguments: JsonV },
    Ping,
    MethodNotFound(Seq<char>),
    Ignore,
}

impl View for Route {
    type V = RouteV;

    open spec fn view(&self) -> RouteV {
        match self {
            Route::Initialize => RouteV::Initialize,
            Route::ToolsList => RouteV::ToolsList,
            Route::ToolsCall { name, arguments } => RouteV::ToolsCall {
                name: name@,
                arguments: arguments@,
            },
            Route::Ping => RouteV::Ping,
            Route::MethodNotFound(m) => RouteV::MethodNotFound(m@),
            Route::Ignore => RouteV::Ignore,
        }
    }
}

/// Where a message goes by its method. A tool call must name its tool in
/// `params.name`; its `params.arguments` count as an empty object where
/// there are none.
pub open spec fn route_of(m: McpMessageV) -> Result<RouteV, ErrorV> {
    match m.method {
        None => Ok(RouteV::Ignore),
        Some(method) => if method == "initialize"@ {
            Ok(RouteV::Initialize)
        } else if method == "tools/list"@ {
            Ok(RouteV::ToolsList)
        } else if method == "tools/call"@ {
            match m.params {
                None => Err(ErrorV::McpProtocol("Missing params in tools/call"@)),
                Some(params) => match arg_text(params, "name"@) {
                    None => Err(ErrorV::McpProtocol("Missing tool name"@)),
                    Some(name) => Ok(
                        RouteV::ToolsCall {
                            name,
                            arguments: match params.get("arguments"@) {
                                Some(a) => a,
                                None => JsonV::Object(Seq::empty()),
                            },
                        },
                    ),
                },
            }
        } else if method == "ping"@ {
            Ok(RouteV::Ping)
        } else {
            Ok(RouteV::MethodNotFound(method))
        },
    }
}

/// A response with a result.
pub open spec fn success_response(id: Option<JsonV>, result: JsonV) -> McpMessageV {
    McpMessageV {
        jsonrpc: "2.0"@,
        id: id,
        method: None,
        params: None,
        result: Some(result),
        error: None,
    }
}

/// A response with an error.
pub open spec fn error_response(
    id: Option<JsonV>,
    code: i32,
    message: Seq<char>,
    data: Option<JsonV>,
) -> McpMessageV {
    McpMessageV {
        jsonrpc: "2.0"@,
        id: id,
        method: None,
        params: None,
        result: None,
        error: Some(McpErrorV { code, message, data }),
    }
}

/// The code of an error inside the server.
pub const INTERNAL_ERROR: i32 = -32603;

/// The code of a method that the server does not have.
pub const METHOD_NOT_FOUND: i32 = -32601;

/// The result of `initialize`.
pub open spec fn initialize_result(c: ServerCapabilities) -> JsonV {
    JsonV::Object(
        seq![
            ("protocolVersion"@, JsonV::Str("1.0.0"@)),
            (
                "serverInfo"@,
                JsonV::Object(
                    seq![
                        ("name"@, JsonV::Str("chrome-mcp"@)),
                        ("version"@, JsonV::Str("0.1.0"@)),
                    ],
                ),
            ),
            ("capabilities"@, capabilities_json(c)),
        ],
    )
}

/// The result of a tool that gave `text`.
pub open spec fn tool_result(text: Seq<char>) -> JsonV {
    JsonV::Object(
        seq![
            (
                "content"@,
                JsonV::Array(
                    seq![
                        JsonV::Object(
                            seq![("type"@, JsonV::Str("text"@)), ("text"@, JsonV::Str(text))],
                        ),
                    ],
                ),
            ),
        ],
    )
}

/// The response to a tool call that failed with `error`.
pub open spec fn tool_failure(id: Option<JsonV>, error: ErrorV, name: Seq<char>, arguments: JsonV) -> McpMessageV {
    error_response(
        id,
        INTERNAL_ERROR,
        "Tool execution failed: "@ + error.message(),
        Some(JsonV::Object(seq![("tool"@, JsonV::Str(name)), ("arguments"@, arguments)])),
    )
}

/// The result of `tools/list`.
pub open spec fn tools_list_result(tools: Seq<ToolV>) -> JsonV {
    JsonV::Object(
        seq![("tools"@, JsonV::Array(Seq::new(tools.len(), |i: int| tool_json(tools[i]))))],
    )
}

fn clone_id(id: &Option<Json>) -> (r: Option<Json>)
    ensures
        opt_view(r) == opt_view(*id),
{
    match id {
        Some(v) => Some(v.clone()),
        None => None,
    }
}

/// Finds where a message goes.
pub fn route(message: &McpMessage) -> (r: Result<Route, ChromeMcpError>)
    ensures
        match r {
            Ok(to) => route_of(message@) == Ok::<RouteV, ErrorV>(to@),
            Err(e) => route_of(message@) == Err::<RouteV, ErrorV>(e@),
        },
{
    let method = match &message.method {
        Some(m) => m,
        None => {
            return Ok(Route::Ignore);
        },
    };
    if str_eq(method.as_str(), "initialize") {
        Ok(Route::Initialize)
    } else if str_eq(method.as_str(), "tools/list") {
        Ok(Route::ToolsList)
    } else if str_eq(method.as_str(), "tools/call") {
        let params = match &message.params {
            Some(p) => p,
            None => {
                return Err(ChromeMcpError::mcp_protocol_error("Missing params in tools/call"));
            },
        };
        let name = match text_arg(params, "name") {
            Some(n) => n,
            None => {
                return Err(ChromeMcpError::mcp_protocol_error("Missing tool name"));
            },
        };
        let arguments = match params.get("arguments") {
            Some(a) => a.clone(),
            None => Json::object(no_members()),
        };
        Ok(Route::ToolsCall { name, arguments })
    } else if str_eq(method.as_str(), "ping") {
        Ok(Route::Ping)
    } else {
        Ok(Route::MethodNotFound(method.clone()))
    }
}

/// A response to the request `id` with a result.
pub fn respond(id: &Option<Json>, result: Json) -> (r: McpMessage)
    ensures
        r@ == success_response(opt_view(*id), result@),
{
    McpMessage {
        jsonrpc: String::from_str("2.0"),
        id: clone_id(id),
        method: None,
        params: None,
        result: Some(result),
        error: None,
    }
}

/// A response to the request `id` with an error.
pub fn respond_error(id: &Option<Json>, code: i32, message: String, data: Option<Json>) -> (r:
    McpMessage)
    ensures
        r@ == error_response(opt_view(*id), code, message@, opt_view(data)),
{
    McpMessage {
        jsonrpc: String::from_str("2.0"),
        id: clone_id(id),
        method: None,
        params: None,
        result: None,
        error: Some(McpError { code, message, data }),
    }
}

/// The response that answers `ping`: an empty object.
pub fn handle_ping(msg: &McpMessage) -> (r: McpMessage)
    ensures
        r@ == success_response(msg@.id, JsonV::Object(Seq::empty())),
{
    respond(&msg.id, Json::object(no_members()))
}

/// The response to a method that the server does not have.
pub fn method_not_found(msg: &McpMessage, method: &str) -> (r: McpMessage)
    ensures
        r@ == error_response(msg@.id, METHOD_NOT_FOUND, "Method not found: "@ + method@, None),
{
    respond_error(&msg.id, METHOD_NOT_FOUND, concat("Method not found: ", method), None)
}

/// The response to a request that could not be handled.
pub fn internal_error(id: &Option<Json>, error: &ChromeMcpError) -> (r: McpMessage)
    ensures
        r@ == error_response(opt_view(*id), INTERNAL_ERROR, error@.message(), None),
{
    respond_error(id, INTERNAL_ERROR, error.message(), None)
}

/// The response that answers `initialize`.
pub fn handle_initialize(msg: &McpMessage, capabilities: &ServerCapabilities) -> (r: McpMessage)
    ensures
        r@ == success_response(msg@.id, initialize_result(*capabilities)),
{
    let mut info = no_members();
    push_member(&mut info, "name", Json::string("chrome-mcp"));
    push_member(&mut info, "version", Json::string("0.1.0"));
    let ghost want_info = seq![
        ("name"@, JsonV::Str("chrome-mcp"@)),
        ("version"@, JsonV::Str("0.1.0"@)),
    ];
    assert(members_view(info@) =~= want_info);
    let mut m = no_members();
    push_member(&mut m, "protocolVersion", Json::string("1.0.0"));
    push_member(&mut m, "serverInfo", Json::object(info));
    push_member(&mut m, "capabilities", capabilities.to_json());
    assert(members_view(m@) =~= initialize_result(*capabilities)->Object_0);
    respond(&msg.id, Json::object(m))
}

/// The response that answers `tools/list`.
pub fn handle_tools_list(msg: &McpMessage, tools: &Vec<Tool>) -> (r: McpMessage)
    ensures
        r@ == success_response(msg@.id, tools_list_result(tools_view(tools@))),
{
    let mut items = no_items();
    let mut i: usize = 0;
    while i < tools.len()
        invariant
            i <= tools.len(),
            crate::json::items_view(items@).len() == i,
            forall|j: int|
                0 <= j < i ==> crate::json::items_view(items@)[j] == tool_json(tools@[j]@),
        decreases tools.len() - i,
    {
        push_item(&mut items, tools[i].to_json());
        i = i + 1;
    }
    let mut m = no_members();
    assert(crate::json::items_view(items@) =~= Seq::new(
        tools@.len(),
        |i: int| tool_json(tools_view(tools@)[i]),
    ));
    push_member(&mut m, "tools", Json::array(items));
    assert(members_view(m@) =~= tools_list_result(tools_view(tools@))->Object_0);
    respond(&msg.id, Json::object(m))
}

/// The response to a tool call that gave `text`.
pub fn tool_succeeded(msg: &McpMessage, text: &str) -> (r: McpMessage)
    ensures
        r@ == success_response(msg@.id, tool_result(text@)),
{
    let mut part = no_members();
    push_member(&mut part, "type", Json::string("text"));
    push_member(&mut part, "text", Json::string(text));
    let ghost want_part = seq![("type"@, JsonV::Str("text"@)), ("text"@, JsonV::Str(text@))];
    assert(members_view(part@) =~= want_part);
    let mut content = no_items();
    push_item(&mut content, Json::object(part));
    assert(crate::json::items_view(content@) =~= seq![JsonV::Object(want_part)]);
    let mut m = no_members();
    push_member(&mut m, "content", Json::array(content));
    assert(members_view(m@) =~= tool_result(text@)->Object_0);
    respond(&msg.id, Json::object(m))
}

/// The response to a tool call that failed.
pub fn tool_failed(msg: &McpMessage, error: &ChromeMcpError, name: &str, arguments: &Json) -> (r:
    McpMessage)
    ensures
        r@ == tool_failure(msg@.id, error@, name@, arguments@),
{
    let mut data = no_members();
    push_member(&mut data, "tool", Json::string(name));
    push_member(&mut data, "arguments", arguments.clone());
    let ghost want = seq![("tool"@, JsonV::Str(name@)), ("arguments"@, arguments@)];
    assert(members_view(data@) =~= want);
    respond_error(
        &msg.id,
        INTERNAL_ERROR,
        concat("Tool execution failed: ", error.message().as_str()),
        Some(Json::object(data)),
    )
}

/// What a tool answers once it is done, where that is settled by the call
/// alone; tools that answer with data have no such text.
pub open spec fn done_text(call: ToolCallV) -> Option<Seq<char>> {
    match call {
        ToolCallV::Navigate { url } => Some("Navigated to: "@ + url),
        ToolCallV::Click { target } => Some("Clicked on: "@ + target),
        ToolCallV::Type { text, selector } => Some("Typed text: "@ + text),
        ToolCallV::TabsSwitch { tab_id } => Some("Switched to tab: "@ + tab_id),
        ToolCallV::TabsClose { tab_id } => Some("Closed tab: "@ + tab_id),
        ToolCallV::ScrollTo { selector } => Some("Scrolled to element: "@ + selector),
        ToolCallV::ScrollBy { x, y } => Some(
            "Scrolled by: ("@ + crate::text::signed_decimal(x as int) + ", "@
                + crate::text::signed_decimal(y as int) + ")"@,
        ),
        ToolCallV::Hover { target } => Some("Hovered over: "@ + target),
        ToolCallV::Select { selector, value } => Some(
            "Selected '"@ + value + "' in "@ + selector,
        ),
        ToolCallV::Wait { condition, timeout, name } => Some(
            "Wait condition '"@ + name + "' satisfied"@,
        ),
        ToolCallV::CookiesSet(c) => Some("Set cookie: "@ + c.name + " = "@ + c.value),
        ToolCallV::CookiesClear => Some("Cleared all cookies"@),
        _ => None,
    }
}

/// What a tool answers once it is done, where the call alone settles it.
pub fn tool_done_text(call: &ToolCall) -> (r: Option<String>)
    ensures
        opt_str_view(r) == done_text(call@),
{
    match call {
        ToolCall::Navigate { url } => Some(concat("Navigated to: ", url.as_str())),
        ToolCall::Click { target } => Some(concat("Clicked on: ", target.as_str())),
        ToolCall::Type { text, selector } => Some(concat("Typed text: ", text.as_str())),
        ToolCall::TabsSwitch { tab_id } => Some(concat("Switched to tab: ", tab_id.as_str())),
        ToolCall::TabsClose { tab_id } => Some(concat("Closed tab: ", tab_id.as_str())),
        ToolCall::ScrollTo { selector } => Some(
            concat("Scrolled to element: ", selector.as_str()),
        ),
        ToolCall::ScrollBy { x, y } => {
            let mut out = String::from_str("Scrolled by: (");
            out.append(crate::text::i64_to_string(*x as i64).as_str());
            out.append(", ");
            out.append(crate::text::i64_to_string(*y as i64).as_str());
            out.append(")");
            Some(out)
        },
        ToolCall::Hover { target } => Some(concat("Hovered over: ", target.as_str())),
        ToolCall::Select { selector, value } => {
            let mut out = String::from_str("Selected '");
            out.append(value.as_str());
            out.append("' in ");
            out.append(selector.as_str());
            Some(out)
        },
        ToolCall::Wait { condition, timeout, name } => Some(
            crate::text::concat3("Wait condition '", name.as_str(), "' satisfied"),
        ),
        ToolCall::CookiesSet(c) => {
            let mut out = String::from_str("Set cookie: ");
            out.append(c.name.as_str());
            out.append(" = ");
            out.append(c.value.as_str());
            Some(out)
        },
        ToolCall::CookiesClear => Some(String::from_str("Cleared all cookies")),
        _ => None,
    }
}

/// The answer of the screenshot tool: the image as a data address.
pub fn screenshot_text(format: Option<&str>, data: &str) -> (r: String)
    ensures
        r@ == "data:image/"@ + match format {
            Some(f) => f@,
            None => "png"@,
        } + ";base64,"@ + data@,
{
    let mut out = String::from_str("data:image/");
    match format {
        Some(f) => {
            out.append(f);
        },
        None => {
            out.append("png");
        },
    }
    out.append(";base64,");
    out.append(data);
    out
}

/// The answer of the PDF tool: the document as a data address.
pub fn pdf_text(data: &str) -> (r: String)
    ensures
        r@ == "data:application/pdf;base64,"@ + data@,
{
    concat("data:application/pdf;base64,", data)
}

/// The server: the browser it drives and what it says it can do.
pub struct McpServer<W> {
    pub browser: crate::browser::Browser<W>,
    pub capabilities: ServerCapabilities,
}

impl<W> McpServer<W> {
    /// A server for the browser at `chrome_host:chrome_port`, not connected yet.
    pub fn new(chrome_host: &str, chrome_port: u16) -> (r: Result<Self, ChromeMcpError>)
        ensures
            r matches Ok(s) && s.browser.cdp@.state is Disconnected && s.browser.cdp@.host
                == chrome_host@ && s.browser.cdp@.port == chrome_port && s.capabilities.tools
                == Some(ToolsCapability { list_changed: Some(true) }) && s.capabilities.prompts
                is None && s.capabilities.resources is None && s.capabilities.logging is Some,
    {
        match crate::browser::Browser::new(chrome_host, chrome_port) {
            Ok(browser) => Ok(McpServer { browser, capabilities: ServerCapabilities::standard() }),
            Err(e) => Err(e),
        }
    }

    /// The tools that the server offers.
    pub fn get_available_tools(&self) -> (r: Vec<Tool>)
        ensures
            tools_view(r@) == available_tools(),
    {
        get_available_tools()
    }

    /// Reads a line of input and finds where it goes.
    pub fn handle_message(&self, line: &str) -> (r: Result<(McpMessage, Route), ChromeMcpError>)
        ensures
            match r {
                Ok(pair) => read_line(line@) == Ok::<McpMessageV, ErrorV>(pair.0@) && route_of(
                    pair.0@,
                ) == Ok::<RouteV, ErrorV>(pair.1@),
                Err(e) => match read_line(line@) {
                    Ok(m) => route_of(m) == Err::<RouteV, ErrorV>(e@),
                    Err(unread) => e@ == unread,
                },
            },
    {
        let message = match McpMessage::decode(line) {
            Ok(m) => m,
            Err(e) => {
                return Err(e);
            },
        };
        match route(&message) {
            Ok(to) => Ok((message, to)),
            Err(e) => Err(e),
        }
    }

    /// Reads the arguments of a tool call.
    pub fn call_tool(&self, name: &str, arguments: &Json) -> (r: Result<ToolCall, ChromeMcpError>)
        ensures
            match r {
                Ok(c) => tool_call(name@, arguments@) == Ok::<ToolCallV, ErrorV>(c@),
                Err(e) => tool_call(name@, arguments@) == Err::<ToolCallV, ErrorV>(e@),
            },
    {
        parse_tool_call(name, arguments)
    }
}

} // verus!
