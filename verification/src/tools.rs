//! The table of tools that the server offers: for each its name, its
//! description and the schema of its arguments.

use crate::json::{
    items_view, members_view, no_items, no_members, push_item, push_member, Json, JsonV, NumberV,
};
use vstd::prelude::*;
use vstd::string::*;

verus! {

/// One tool, as it is listed to the client.
#[derive(Clone, Debug, PartialEq)]
pub struct Tool {
    pub name: String,
    pub description: String,
    pub input_schema: Json,
}

/// The model of a [`Tool`].
pub struct ToolV {
    pub name: Seq<char>,
    pub description: Seq<char>,
    pub input_schema: JsonV,
}

impl View for Tool {
    type V = ToolV;

    open spec fn view(&self) -> ToolV {
        ToolV {
            name: self.name@,
            description: self.description@,
            input_schema: self.input_schema@,
        }
    }
}

/// The views of a list of tools.
pub open spec fn tools_view(tools: Seq<Tool>) -> Seq<ToolV> {
    Seq::new(tools.len(), |i: int| tools[i]@)
}

/// The JSON form of a tool.
pub open spec fn tool_json(t: ToolV) -> JsonV {
    JsonV::Object(
        seq![
            ("name"@, JsonV::Str(t.name)),
            ("description"@, JsonV::Str(t.description)),
            ("input_schema"@, t.input_schema),
        ],
    )
}

impl Tool {
    /// The JSON form of the tool.
    pub fn to_json(&self) -> (r: Json)
        ensures
            r@ == tool_json(self@),
    {
        let mut m = no_members();
        push_member(&mut m, "name", Json::string(self.name.as_str()));
        push_member(&mut m, "description", Json::string(self.description.as_str()));
        push_member(&mut m, "input_schema", self.input_schema.clone());
        assert(members_view(m@) =~= tool_json(self@)->Object_0);
        Json::object(m)
    }
}

fn tool(name: &str, description: &str, input_schema: Json) -> (r: Tool)
    ensures
        r@ == (ToolV { name: name@, description: description@, input_schema: input_schema@ }),
{
    Tool {
        name: String::from_str(name),
        description: String::from_str(description),
        input_schema,
    }
}

/// The schema of the arguments of `chrome_navigate`.
pub open spec fn navigate_schema_spec() -> JsonV {
    JsonV::Object(
        seq![
            ("type"@, JsonV::Str("object"@)),
            ("properties"@, JsonV::Object(
                seq![
                    ("url"@, JsonV::Object(
                        seq![
                            ("type"@, JsonV::Str("string"@)),
                            ("description"@, JsonV::Str("The URL to navigate to"@)),
                        ],
                    )),
                ],
            )),
            ("required"@, JsonV::Array(seq![JsonV::Str("url"@)])),
        ],
    )
}

fn navigate_schema() -> (r: Json)
    ensures
        r@ == navigate_schema_spec(),
{
    let mut members1 = no_members();
    push_member(&mut members1, "type", Json::string("string"));
    push_member(&mut members1, "description", Json::string("The URL to navigate to"));
    assert(members_view(members1@) =~= seq![
        ("type"@, JsonV::Str("string"@)),
        ("description"@, JsonV::Str("The URL to navigate to"@)),
    ]);
    let value1 = Json::object(members1);
    let mut members2 = no_members();
    push_member(&mut members2, "url", value1);
    assert(members_view(members2@) =~= seq![("url"@, value1@)]);
    let value2 = Json::object(members2);
    let mut items3 = no_items();
    push_item(&mut items3, Json::string("url"));
    assert(items_view(items3@) =~= seq![JsonV::Str("url"@)]);
    let value3 = Json::array(items3);
    let mut members4 = no_members();
    push_member(&mut members4, "type", Json::string("object"));
    push_member(&mut members4, "properties", value2);
    push_member(&mut members4, "required", value3);
    assert(members_view(members4@) =~= seq![
        ("type"@, JsonV::Str("object"@)),
        ("properties"@, value2@),
        ("required"@, value3@),
    ]);
    let value4 = Json::object(members4);
    value4
}

/// The schema of the arguments of `chrome_click`.
pub open spec fn click_schema_spec() -> JsonV {
    JsonV::Object(
        seq![
            ("type"@, JsonV::Str("object"@)),
            ("properties"@, JsonV::Object(
                seq![
                    ("target"@, JsonV::Object(
                        seq![
                            ("type"@, JsonV::Str("string"@)),
                            ("description"@, JsonV::Str("CSS selector, text content, or accessibility label of element to click"@)),
                        ],
                    )),
                ],
            )),
            ("required"@, JsonV::Array(seq![JsonV::Str("target"@)])),
        ],
    )
}

fn click_schema() -> (r: Json)
    ensures
        r@ == click_schema_spec(),
{
    let mut members1 = no_members();
    push_member(&mut members1, "type", Json::string("string"));
    push_member(&mut members1, "description", Json::string("CSS selector, text content, or accessibility label of element to click"));
    assert(members_view(members1@) =~= seq![
        ("type"@, JsonV::Str("string"@)),
        ("description"@, JsonV::Str("CSS selector, text content, or accessibility label of element to click"@)),
    ]);
    let value1 = Json::object(members1);
    let mut members2 = no_members();
    push_member(&mut members2, "target", value1);
    assert(members_view(members2@) =~= seq![("target"@, value1@)]);
    let value2 = Json::object(members2);
    let mut items3 = no_items();
    push_item(&mut items3, Json::string("target"));
    assert(items_view(items3@) =~= seq![JsonV::Str("target"@)]);
    let value3 = Json::array(items3);
    let mut members4 = no_members();
    push_member(&mut members4, "type", Json::string("object"));
    push_member(&mut members4, "properties", value2);
    push_member(&mut members4, "required", value3);
    assert(members_view(members4@) =~= seq![
        ("type"@, JsonV::Str("object"@)),
        ("properties"@, value2@),
        ("required"@, value3@),
    ]);
    let value4 = Json::object(members4);
    value4
}

/// The schema of the arguments of `chrome_type`.
pub open spec fn type_schema_spec() -> JsonV {
    JsonV::Object(
        seq![
            ("type"@, JsonV::Str("object"@)),
            ("properties"@, JsonV::Object(
                seq![
                    ("text"@, JsonV::Object(
                        seq![
                            ("type"@, JsonV::Str("string"@)),
                            ("description"@, JsonV::Str("Text to type"@)),
                        ],
                    )),
                    ("selector"@, JsonV::Object(
                        seq![
                            ("type"@, JsonV::Str("string"@)),
                            ("description"@, JsonV::Str("Optional CSS selector to focus first"@)),
                        ],
                    )),
                ],
            )),
            ("required"@, JsonV::Array(seq![JsonV::Str("text"@)])),
        ],
    )
}

fn type_schema() -> (r: Json)
    ensures
        r@ == type_schema_spec(),
{
    let mut members1 = no_members();
    push_member(&mut members1, "type", Json::string("string"));
    push_member(&mut members1, "description", Json::string("Text to type"));
    assert(members_view(members1@) =~= seq![
        ("type"@, JsonV::Str("string"@)),
        ("description"@, JsonV::Str("Text to type"@)),
    ]);
    let value1 = Json::object(members1);
    let mut members2 = no_members();
    push_member(&mut members2, "type", Json::string("string"));
    push_member(&mut members2, "description", Json::string("Optional CSS selector to focus first"));
    assert(members_view(members2@) =~= seq![
        ("type"@, JsonV::Str("string"@)),
        ("description"@, JsonV::Str("Optional CSS selector to focus first"@)),
    ]);
    let value2 = Json::object(members2);
    let mut members3 = no_members();
    push_member(&mut members3, "text", value1);
    push_member(&mut members3, "selector", value2);
    assert(members_view(members3@) =~= seq![("text"@, value1@), ("selector"@, value2@)]);
    let value3 = Json::object(members3);
    let mut items4 = no_items();
    push_item(&mut items4, Json::string("text"));
    assert(items_view(items4@) =~= seq![JsonV::Str("text"@)]);
    let value4 = Json::array(items4);
    let mut members5 = no_members();
    push_member(&mut members5, "type", Json::string("object"));
    push_member(&mut members5, "properties", value3);
    push_member(&mut members5, "required", value4);
    assert(members_view(members5@) =~= seq![
        ("type"@, JsonV::Str("object"@)),
        ("properties"@, value3@),
        ("required"@, value4@),
    ]);
    let value5 = Json::object(members5);
    value5
}

/// The schema of the arguments of `chrome_screenshot`.
pub open spec fn screenshot_schema_spec() -> JsonV {
    JsonV::Object(
        seq![
            ("type"@, JsonV::Str("object"@)),
            ("properties"@, JsonV::Object(
                seq![
                    ("format"@, JsonV::Object(
                        seq![
                            ("type"@, JsonV::Str("string"@)),
                            ("description"@, JsonV::Str("Image format: png or jpeg"@)),
                            ("enum"@, JsonV::Array(seq![JsonV::Str("png"@), JsonV::Str("jpeg"@)])),
                        ],
                    )),
                    ("quality"@, JsonV::Object(
                        seq![
                            ("type"@, JsonV::Str("integer"@)),
                            ("description"@, JsonV::Str("JPEG quality (1-100)"@)),
                            ("minimum"@, JsonV::Num(NumberV::PosInt(1))),
                            ("maximum"@, JsonV::Num(NumberV::PosInt(100))),
                        ],
                    )),
                    ("full_page"@, JsonV::Object(
                        seq![
                            ("type"@, JsonV::Str("boolean"@)),
                            ("description"@, JsonV::Str("Capture full page or just viewport"@)),
                        ],
                    )),
                ],
            )),
        ],
    )
}

fn screenshot_schema() -> (r: Json)
    ensures
        r@ == screenshot_schema_spec(),
{
    let mut items1 = no_items();
    push_item(&mut items1, Json::string("png"));
    push_item(&mut items1, Json::string("jpeg"));
    assert(items_view(items1@) =~= seq![JsonV::Str("png"@), JsonV::Str("jpeg"@)]);
    let value1 = Json::array(items1);
    let mut members2 = no_members();
    push_member(&mut members2, "type", Json::string("string"));
    push_member(&mut members2, "description", Json::string("Image format: png or jpeg"));
    push_member(&mut members2, "enum", value1);
    assert(members_view(members2@) =~= seq![
        ("type"@, JsonV::Str("string"@)),
        ("description"@, JsonV::Str("Image format: png or jpeg"@)),
        ("enum"@, value1@),
    ]);
    let value2 = Json::object(members2);
    let mut members3 = no_members();
    push_member(&mut members3, "type", Json::string("integer"));
    push_member(&mut members3, "description", Json::string("JPEG quality (1-100)"));
    push_member(&mut members3, "minimum", Json::from_u64(1));
    push_member(&mut members3, "maximum", Json::from_u64(100));
    assert(members_view(members3@) =~= seq![
        ("type"@, JsonV::Str("integer"@)),
        ("description"@, JsonV::Str("JPEG quality (1-100)"@)),
        ("minimum"@, JsonV::Num(NumberV::PosInt(1))),
        ("maximum"@, JsonV::Num(NumberV::PosInt(100))),
    ]);
    let value3 = Json::object(members3);
    let mut members4 = no_members();
    push_member(&mut members4, "type", Json::string("boolean"));
    push_member(&mut members4, "description", Json::string("Capture full page or just viewport"));
    assert(members_view(members4@) =~= seq![
        ("type"@, JsonV::Str("boolean"@)),
        ("description"@, JsonV::Str("Capture full page or just viewport"@)),
    ]);
    let value4 = Json::object(members4);
    let mut members5 = no_members();
    push_member(&mut members5, "format", value2);
    push_member(&mut members5, "quality", value3);
    push_member(&mut members5, "full_page", value4);
    assert(members_view(members5@) =~= seq![
        ("format"@, value2@),
        ("quality"@, value3@),
        ("full_page"@, value4@),
    ]);
    let value5 = Json::object(members5);
    let mut members6 = no_members();
    push_member(&mut members6, "type", Json::string("object"));
    push_member(&mut members6, "properties", value5);
    assert(members_view(members6@) =~= seq![
        ("type"@, JsonV::Str("object"@)),
        ("properties"@, value5@),
    ]);
    let value6 = Json::object(members6);
    value6
}

/// The schema of the arguments of `chrome_evaluate`.
pub open spec fn evaluate_schema_spec() -> JsonV {
    JsonV::Object(
        seq![
            ("type"@, JsonV::Str("object"@)),
            ("properties"@, JsonV::Object(
                seq![
                    ("javascript"@, JsonV::Object(
                        seq![
                            ("type"@, JsonV::Str("string"@)),
                            ("description"@, JsonV::Str("JavaScript code to execute"@)),
                        ],
                    )),
                ],
            )),
            ("required"@, JsonV::Array(seq![JsonV::Str("javascript"@)])),
        ],
    )
}

fn evaluate_schema() -> (r: Json)
    ensures
        r@ == evaluate_schema_spec(),
{
    let mut members1 = no_members();
    push_member(&mut members1, "type", Json::string("string"));
    push_member(&mut members1, "description", Json::string("JavaScript code to execute"));
    assert(members_view(members1@) =~= seq![
        ("type"@, JsonV::Str("string"@)),
        ("description"@, JsonV::Str("JavaScript code to execute"@)),
    ]);
    let value1 = Json::object(members1);
    let mut members2 = no_members();
    push_member(&mut members2, "javascript", value1);
    assert(members_view(members2@) =~= seq![("javascript"@, value1@)]);
    let value2 = Json::object(members2);
    let mut items3 = no_items();
    push_item(&mut items3, Json::string("javascript"));
    assert(items_view(items3@) =~= seq![JsonV::Str("javascript"@)]);
    let value3 = Json::array(items3);
    let mut members4 = no_members();
    push_member(&mut members4, "type", Json::string("object"));
    push_member(&mut members4, "properties", value2);
    push_member(&mut members4, "required", value3);
    assert(members_view(members4@) =~= seq![
        ("type"@, JsonV::Str("object"@)),
        ("properties"@, value2@),
        ("required"@, value3@),
    ]);
    let value4 = Json::object(members4);
    value4
}

/// The schema of the arguments of `chrome_tabs`.
pub open spec fn tabs_schema_spec() -> JsonV {
    JsonV::Object(
        seq![
            ("type"@, JsonV::Str("object"@)),
            ("properties"@, JsonV::Object(
                seq![
                    ("action"@, JsonV::Object(
                        seq![
                            ("type"@, JsonV::Str("string"@)),
                            ("description"@, JsonV::Str("Action to perform"@)),
                            ("enum"@, JsonV::Array(seq![JsonV::Str("list"@), JsonV::Str("create"@), JsonV::Str("switch"@), JsonV::Str("close"@)])),
                        ],
                    )),
                    ("tab_id"@, JsonV::Object(
                        seq![
                            ("type"@, JsonV::Str("string"@)),
                            ("description"@, JsonV::Str("Tab ID (for switch/close actions)"@)),
                        ],
                    )),
                    ("url"@, JsonV::Object(
                        seq![
                            ("type"@, JsonV::Str("string"@)),
                            ("description"@, JsonV::Str("URL for new tab (create action)"@)),
                        ],
                    )),
                ],
            )),
            ("required"@, JsonV::Array(seq![JsonV::Str("action"@)])),
        ],
    )
}

fn tabs_schema() -> (r: Json)
    ensures
        r@ == tabs_schema_spec(),
{
    let mut items1 = no_items();
    push_item(&mut items1, Json::string("list"));
    push_item(&mut items1, Json::string("create"));
    push_item(&mut items1, Json::string("switch"));
    push_item(&mut items1, Json::string("close"));
    assert(items_view(items1@) =~= seq![JsonV::Str("list"@), JsonV::Str("create"@), JsonV::Str("switch"@), JsonV::Str("close"@)]);
    let value1 = Json::array(items1);
    let mut members2 = no_members();
    push_member(&mut members2, "type", Json::string("string"));
    push_member(&mut members2, "description", Json::string("Action to perform"));
    push_member(&mut members2, "enum", value1);
    assert(members_view(members2@) =~= seq![
        ("type"@, JsonV::Str("string"@)),
        ("description"@, JsonV::Str("Action to perform"@)),
        ("enum"@, value1@),
    ]);
    let value2 = Json::object(members2);
    let mut members3 = no_members();
    push_member(&mut members3, "type", Json::string("string"));
    push_member(&mut members3, "description", Json::string("Tab ID (for switch/close actions)"));
    assert(members_view(members3@) =~= seq![
        ("type"@, JsonV::Str("string"@)),
        ("description"@, JsonV::Str("Tab ID (for switch/close actions)"@)),
    ]);
    let value3 = Json::object(members3);
    let mut members4 = no_members();
    push_member(&mut members4, "type", Json::string("string"));
    push_member(&mut members4, "description", Json::string("URL for new tab (create action)"));
    assert(members_view(members4@) =~= seq![
        ("type"@, JsonV::Str("string"@)),
        ("description"@, JsonV::Str("URL for new tab (create action)"@)),
    ]);
    let value4 = Json::object(members4);
    let mut members5 = no_members();
    push_member(&mut members5, "action", value2);
    push_member(&mut members5, "tab_id", value3);
    push_member(&mut members5, "url", value4);
    assert(members_view(members5@) =~= seq![
        ("action"@, value2@),
        ("tab_id"@, value3@),
        ("url"@, value4@),
    ]);
    let value5 = Json::object(members5);
    let mut items6 = no_items();
    push_item(&mut items6, Json::string("action"));
    assert(items_view(items6@) =~= seq![JsonV::Str("action"@)]);
    let value6 = Json::array(items6);
    let mut members7 = no_members();
    push_member(&mut members7, "type", Json::string("object"));
    push_member(&mut members7, "properties", value5);
    push_member(&mut members7, "required", value6);
    assert(members_view(members7@) =~= seq![
        ("type"@, JsonV::Str("object"@)),
        ("properties"@, value5@),
        ("required"@, value6@),
    ]);
    let value7 = Json::object(members7);
    value7
}

/// The schema of the arguments of `chrome_scroll`.
pub open spec fn scroll_schema_spec() -> JsonV {
    JsonV::Object(
        seq![
            ("type"@, JsonV::Str("object"@)),
            ("properties"@, JsonV::Object(
                seq![
                    ("x"@, JsonV::Object(
                        seq![
                            ("type"@, JsonV::Str("integer"@)),
                            ("description"@, JsonV::Str("Horizontal scroll amount in pixels"@)),
                        ],
                    )),
                    ("y"@, JsonV::Object(
                        seq![
                            ("type"@, JsonV::Str("integer"@)),
                            ("description"@, JsonV::Str("Vertical scroll amount in pixels"@)),
                        ],
                    )),
                    ("selector"@, JsonV::Object(
                        seq![
                            ("type"@, JsonV::Str("string"@)),
                            ("description"@, JsonV::Str("CSS selector of element to scroll to"@)),
                        ],
                    )),
                ],
            )),
        ],
    )
}

fn scroll_schema() -> (r: Json)
    ensures
        r@ == scroll_schema_spec(),
{
    let mut members1 = no_members();
    push_member(&mut members1, "type", Json::string("integer"));
    push_member(&mut members1, "description", Json::string("Horizontal scroll amount in pixels"));
    assert(members_view(members1@) =~= seq![
        ("type"@, JsonV::Str("integer"@)),
        ("description"@, JsonV::Str("Horizontal scroll amount in pixels"@)),
    ]);
    let value1 = Json::object(members1);
    let mut members2 = no_members();
    push_member(&mut members2, "type", Json::string("integer"));
    push_member(&mut members2, "description", Json::string("Vertical scroll amount in pixels"));
    assert(members_view(members2@) =~= seq![
        ("type"@, JsonV::Str("integer"@)),
        ("description"@, JsonV::Str("Vertical scroll amount in pixels"@)),
    ]);
    let value2 = Json::object(members2);
    let mut members3 = no_members();
    push_member(&mut members3, "type", Json::string("string"));
    push_member(&mut members3, "description", Json::string("CSS selector of element to scroll to"));
    assert(members_view(members3@) =~= seq![
        ("type"@, JsonV::Str("string"@)),
        ("description"@, JsonV::Str("CSS selector of element to scroll to"@)),
    ]);
    let value3 = Json::object(members3);
    let mut members4 = no_members();
    push_member(&mut members4, "x", value1);
    push_member(&mut members4, "y", value2);
    push_member(&mut members4, "selector", value3);
    assert(members_view(members4@) =~= seq![
        ("x"@, value1@),
        ("y"@, value2@),
        ("selector"@, value3@),
    ]);
    let value4 = Json::object(members4);
    let mut members5 = no_members();
    push_member(&mut members5, "type", Json::string("object"));
    push_member(&mut members5, "properties", value4);
    assert(members_view(members5@) =~= seq![
        ("type"@, JsonV::Str("object"@)),
        ("properties"@, value4@),
    ]);
    let value5 = Json::object(members5);
    value5
}

/// The schema of the arguments of `chrome_hover`.
pub open spec fn hover_schema_spec() -> JsonV {
    JsonV::Object(
        seq![
            ("type"@, JsonV::Str("object"@)),
            ("properties"@, JsonV::Object(
                seq![
                    ("target"@, JsonV::Object(
                        seq![
                            ("type"@, JsonV::Str("string"@)),
                            ("description"@, JsonV::Str("CSS selector or text of element to hover over"@)),
                        ],
                    )),
                ],
            )),
            ("required"@, JsonV::Array(seq![JsonV::Str("target"@)])),
        ],
    )
}

fn hover_schema() -> (r: Json)
    ensures
        r@ == hover_schema_spec(),
{
    let mut members1 = no_members();
    push_member(&mut members1, "type", Json::string("string"));
    push_member(&mut members1, "description", Json::string("CSS selector or text of element to hover over"));
    assert(members_view(members1@) =~= seq![
        ("type"@, JsonV::Str("string"@)),
        ("description"@, JsonV::Str("CSS selector or text of element to hover over"@)),
    ]);
    let value1 = Json::object(members1);
    let mut members2 = no_members();
    push_member(&mut members2, "target", value1);
    assert(members_view(members2@) =~= seq![("target"@, value1@)]);
    let value2 = Json::object(members2);
    let mut items3 = no_items();
    push_item(&mut items3, Json::string("target"));
    assert(items_view(items3@) =~= seq![JsonV::Str("target"@)]);
    let value3 = Json::array(items3);
    let mut members4 = no_members();
    push_member(&mut members4, "type", Json::string("object"));
    push_member(&mut members4, "properties", value2);
    push_member(&mut members4, "required", value3);
    assert(members_view(members4@) =~= seq![
        ("type"@, JsonV::Str("object"@)),
        ("properties"@, value2@),
        ("required"@, value3@),
    ]);
    let value4 = Json::object(members4);
    value4
}

/// The schema of the arguments of `chrome_select`.
pub open spec fn select_schema_spec() -> JsonV {
    JsonV::Object(
        seq![
            ("type"@, JsonV::Str("object"@)),
            ("properties"@, JsonV::Object(
                seq![
                    ("selector"@, JsonV::Object(
                        seq![
                            ("type"@, JsonV::Str("string"@)),
                            ("description"@, JsonV::Str("CSS selector of the select element"@)),
                        ],
                    )),
                    ("value"@, JsonV::Object(
                        seq![
                            ("type"@, JsonV::Str("string"@)),
                            ("description"@, JsonV::Str("Value of the option to select"@)),
                        ],
                    )),
                ],
            )),
            ("required"@, JsonV::Array(seq![JsonV::Str("selector"@), JsonV::Str("value"@)])),
        ],
    )
}

fn select_schema() -> (r: Json)
    ensures
        r@ == select_schema_spec(),
{
    let mut members1 = no_members();
    push_member(&mut members1, "type", Json::string("string"));
    push_member(&mut members1, "description", Json::string("CSS selector of the select element"));
    assert(members_view(members1@) =~= seq![
        ("type"@, JsonV::Str("string"@)),
        ("description"@, JsonV::Str("CSS selector of the select element"@)),
    ]);
    let value1 = Json::object(members1);
    let mut members2 = no_members();
    push_member(&mut members2, "type", Json::string("string"));
    push_member(&mut members2, "description", Json::string("Value of the option to select"));
    assert(members_view(members2@) =~= seq![
        ("type"@, JsonV::Str("string"@)),
        ("description"@, JsonV::Str("Value of the option to select"@)),
    ]);
    let value2 = Json::object(members2);
    let mut members3 = no_members();
    push_member(&mut members3, "selector", value1);
    push_member(&mut members3, "value", value2);
    assert(members_view(members3@) =~= seq![("selector"@, value1@), ("value"@, value2@)]);
    let value3 = Json::object(members3);
    let mut items4 = no_items();
    push_item(&mut items4, Json::string("selector"));
    push_item(&mut items4, Json::string("value"));
    assert(items_view(items4@) =~= seq![JsonV::Str("selector"@), JsonV::Str("value"@)]);
    let value4 = Json::array(items4);
    let mut members5 = no_members();
    push_member(&mut members5, "type", Json::string("object"));
    push_member(&mut members5, "properties", value3);
    push_member(&mut members5, "required", value4);
    assert(members_view(members5@) =~= seq![
        ("type"@, JsonV::Str("object"@)),
        ("properties"@, value3@),
        ("required"@, value4@),
    ]);
    let value5 = Json::object(members5);
    value5
}

/// The schema of the arguments of `chrome_wait`.
pub open spec fn wait_schema_spec() -> JsonV {
    JsonV::Object(
        seq![
            ("type"@, JsonV::Str("object"@)),
            ("properties"@, JsonV::Object(
                seq![
                    ("condition"@, JsonV::Object(
                        seq![
                            ("type"@, JsonV::Str("string"@)),
                            ("description"@, JsonV::Str("Condition type"@)),
                            ("enum"@, JsonV::Array(seq![JsonV::Str("element_present"@), JsonV::Str("element_visible"@), JsonV::Str("element_clickable"@), JsonV::Str("text_present"@), JsonV::Str("url_matches"@), JsonV::Str("page_load"@), JsonV::Str("network_idle"@)])),
                        ],
                    )),
                    ("target"@, JsonV::Object(
                        seq![
                            ("type"@, JsonV::Str("string"@)),
                            ("description"@, JsonV::Str("Target for the condition (selector, text, URL pattern)"@)),
                        ],
                    )),
                    ("timeout"@, JsonV::Object(
                        seq![
                            ("type"@, JsonV::Str("integer"@)),
                            ("description"@, JsonV::Str("Timeout in milliseconds"@)),
                            ("default"@, JsonV::Num(NumberV::PosInt(10000))),
                        ],
                    )),
                ],
            )),
            ("required"@, JsonV::Array(seq![JsonV::Str("condition"@)])),
        ],
    )
}

fn wait_schema() -> (r: Json)
    ensures
        r@ == wait_schema_spec(),
{
    let mut items1 = no_items();
    push_item(&mut items1, Json::string("element_present"));
    push_item(&mut items1, Json::string("element_visible"));
    push_item(&mut items1, Json::string("element_clickable"));
    push_item(&mut items1, Json::string("text_present"));
    push_item(&mut items1, Json::string("url_matches"));
    push_item(&mut items1, Json::string("page_load"));
    push_item(&mut items1, Json::string("network_idle"));
    assert(items_view(items1@) =~= seq![JsonV::Str("element_present"@), JsonV::Str("element_visible"@), JsonV::Str("element_clickable"@), JsonV::Str("text_present"@), JsonV::Str("url_matches"@), JsonV::Str("page_load"@), JsonV::Str("network_idle"@)]);
    let value1 = Json::array(items1);
    let mut members2 = no_members();
    push_member(&mut members2, "type", Json::string("string"));
    push_member(&mut members2, "description", Json::string("Condition type"));
    push_member(&mut members2, "enum", value1);
    assert(members_view(members2@) =~= seq![
        ("type"@, JsonV::Str("string"@)),
        ("description"@, JsonV::Str("Condition type"@)),
        ("enum"@, value1@),
    ]);
    let value2 = Json::object(members2);
    let mut members3 = no_members();
    push_member(&mut members3, "type", Json::string("string"));
    push_member(&mut members3, "description", Json::string("Target for the condition (selector, text, URL pattern)"));
    assert(members_view(members3@) =~= seq![
        ("type"@, JsonV::Str("string"@)),
        ("description"@, JsonV::Str("Target for the condition (selector, text, URL pattern)"@)),
    ]);
    let value3 = Json::object(members3);
    let mut members4 = no_members();
    push_member(&mut members4, "type", Json::string("integer"));
    push_member(&mut members4, "description", Json::string("Timeout in milliseconds"));
    push_member(&mut members4, "default", Json::from_u64(10000));
    assert(members_view(members4@) =~= seq![
        ("type"@, JsonV::Str("integer"@)),
        ("description"@, JsonV::Str("Timeout in milliseconds"@)),
        ("default"@, JsonV::Num(NumberV::PosInt(10000))),
    ]);
    let value4 = Json::object(members4);
    let mut members5 = no_members();
    push_member(&mut members5, "condition", value2);
    push_member(&mut members5, "target", value3);
    push_member(&mut members5, "timeout", value4);
    assert(members_view(members5@) =~= seq![
        ("condition"@, value2@),
        ("target"@, value3@),
        ("timeout"@, value4@),
    ]);
    let value5 = Json::object(members5);
    let mut items6 = no_items();
    push_item(&mut items6, Json::string("condition"));
    assert(items_view(items6@) =~= seq![JsonV::Str("condition"@)]);
    let value6 = Json::array(items6);
    let mut members7 = no_members();
    push_member(&mut members7, "type", Json::string("object"));
    push_member(&mut members7, "properties", value5);
    push_member(&mut members7, "required", value6);
    assert(members_view(members7@) =~= seq![
        ("type"@, JsonV::Str("object"@)),
        ("properties"@, value5@),
        ("required"@, value6@),
    ]);
    let value7 = Json::object(members7);
    value7
}

/// The schema of the arguments of `chrome_cookies`.
pub open spec fn cookies_schema_spec() -> JsonV {
    JsonV::Object(
        seq![
            ("type"@, JsonV::Str("object"@)),
            ("properties"@, JsonV::Object(
                seq![
                    ("action"@, JsonV::Object(
                        seq![
                            ("type"@, JsonV::Str("string"@)),
                            ("description"@, JsonV::Str("Cookie action"@)),
                            ("enum"@, JsonV::Array(seq![JsonV::Str("get"@), JsonV::Str("set"@), JsonV::Str("clear"@)])),
                        ],
                    )),
                    ("name"@, JsonV::Object(
                        seq![
                            ("type"@, JsonV::Str("string"@)),
                            ("description"@, JsonV::Str("Cookie name (for set action)"@)),
                        ],
                    )),
                    ("value"@, JsonV::Object(
                        seq![
                            ("type"@, JsonV::Str("string"@)),
                            ("description"@, JsonV::Str("Cookie value (for set action)"@)),
                        ],
                    )),
                    ("domain"@, JsonV::Object(
                        seq![
                            ("type"@, JsonV::Str("string"@)),
                            ("description"@, JsonV::Str("Cookie domain (for set action)"@)),
                        ],
                    )),
                    ("path"@, JsonV::Object(
                        seq![
                            ("type"@, JsonV::Str("string"@)),
                            ("description"@, JsonV::Str("Cookie path (for set action)"@)),
                        ],
                    )),
                ],
            )),
            ("required"@, JsonV::Array(seq![JsonV::Str("action"@)])),
        ],
    )
}

fn cookies_schema() -> (r: Json)
    ensures
        r@ == cookies_schema_spec(),
{
    let mut items1 = no_items();
    push_item(&mut items1, Json::string("get"));
    push_item(&mut items1, Json::string("set"));
    push_item(&mut items1, Json::string("clear"));
    assert(items_view(items1@) =~= seq![JsonV::Str("get"@), JsonV::Str("set"@), JsonV::Str("clear"@)]);
    let value1 = Json::array(items1);
    let mut members2 = no_members();
    push_member(&mut members2, "type", Json::string("string"));
    push_member(&mut members2, "description", Json::string("Cookie action"));
    push_member(&mut members2, "enum", value1);
    assert(members_view(members2@) =~= seq![
        ("type"@, JsonV::Str("string"@)),
        ("description"@, JsonV::Str("Cookie action"@)),
        ("enum"@, value1@),
    ]);
    let value2 = Json::object(members2);
    let mut members3 = no_members();
    push_member(&mut members3, "type", Json::string("string"));
    push_member(&mut members3, "description", Json::string("Cookie name (for set action)"));
    assert(members_view(members3@) =~= seq![
        ("type"@, JsonV::Str("string"@)),
        ("description"@, JsonV::Str("Cookie name (for set action)"@)),
    ]);
    let value3 = Json::object(members3);
    let mut members4 = no_members();
    push_member(&mut members4, "type", Json::string("string"));
    push_member(&mut members4, "description", Json::string("Cookie value (for set action)"));
    assert(members_view(members4@) =~= seq![
        ("type"@, JsonV::Str("string"@)),
        ("description"@, JsonV::Str("Cookie value (for set action)"@)),
    ]);
    let value4 = Json::object(members4);
    let mut members5 = no_members();
    push_member(&mut members5, "type", Json::string("string"));
    push_member(&mut members5, "description", Json::string("Cookie domain (for set action)"));
    assert(members_view(members5@) =~= seq![
        ("type"@, JsonV::Str("string"@)),
        ("description"@, JsonV::Str("Cookie domain (for set action)"@)),
    ]);
    let value5 = Json::object(members5);
    let mut members6 = no_members();
    push_member(&mut members6, "type", Json::string("string"));
    push_member(&mut members6, "description", Json::string("Cookie path (for set action)"));
    assert(members_view(members6@) =~= seq![
        ("type"@, JsonV::Str("string"@)),
        ("description"@, JsonV::Str("Cookie path (for set action)"@)),
    ]);
    let value6 = Json::object(members6);
    let mut members7 = no_members();
    push_member(&mut members7, "action", value2);
    push_member(&mut members7, "name", value3);
    push_member(&mut members7, "value", value4);
    push_member(&mut members7, "domain", value5);
    push_member(&mut members7, "path", value6);
    assert(members_view(members7@) =~= seq![
        ("action"@, value2@),
        ("name"@, value3@),
        ("value"@, value4@),
        ("domain"@, value5@),
        ("path"@, value6@),
    ]);
    let value7 = Json::object(members7);
    let mut items8 = no_items();
    push_item(&mut items8, Json::string("action"));
    assert(items_view(items8@) =~= seq![JsonV::Str("action"@)]);
    let value8 = Json::array(items8);
    let mut members9 = no_members();
    push_member(&mut members9, "type", Json::string("object"));
    push_member(&mut members9, "properties", value7);
    push_member(&mut members9, "required", value8);
    assert(members_view(members9@) =~= seq![
        ("type"@, JsonV::Str("object"@)),
        ("properties"@, value7@),
        ("required"@, value8@),
    ]);
    let value9 = Json::object(members9);
    value9
}

/// The schema of the arguments of `chrome_pdf`.
pub open spec fn pdf_schema_spec() -> JsonV {
    JsonV::Object(
        seq![
            ("type"@, JsonV::Str("object"@)),
            ("properties"@, JsonV::Object(
                seq![
                    ("landscape"@, JsonV::Object(
                        seq![
                            ("type"@, JsonV::Str("boolean"@)),
                            ("description"@, JsonV::Str("Landscape orientation"@)),
                        ],
                    )),
                    ("print_background"@, JsonV::Object(
                        seq![
                            ("type"@, JsonV::Str("boolean"@)),
                            ("description"@, JsonV::Str("Include background graphics"@)),
                        ],
                    )),
                    ("scale"@, JsonV::Object(
                        seq![
                            ("type"@, JsonV::Str("number"@)),
                            ("description"@, JsonV::Str("Scale factor (0.1 to 2.0)"@)),
                        ],
                    )),
                ],
            )),
        ],
    )
}

fn pdf_schema() -> (r: Json)
    ensures
        r@ == pdf_schema_spec(),
{
    let mut members1 = no_members();
    push_member(&mut members1, "type", Json::string("boolean"));
    push_member(&mut members1, "description", Json::string("Landscape orientation"));
    assert(members_view(members1@) =~= seq![
        ("type"@, JsonV::Str("boolean"@)),
        ("description"@, JsonV::Str("Landscape orientation"@)),
    ]);
    let value1 = Json::object(members1);
    let mut members2 = no_members();
    push_member(&mut members2, "type", Json::string("boolean"));
    push_member(&mut members2, "description", Json::string("Include background graphics"));
    assert(members_view(members2@) =~= seq![
        ("type"@, JsonV::Str("boolean"@)),
        ("description"@, JsonV::Str("Include background graphics"@)),
    ]);
    let value2 = Json::object(members2);
    let mut members3 = no_members();
    push_member(&mut members3, "type", Json::string("number"));
    push_member(&mut members3, "description", Json::string("Scale factor (0.1 to 2.0)"));
    assert(members_view(members3@) =~= seq![
        ("type"@, JsonV::Str("number"@)),
        ("description"@, JsonV::Str("Scale factor (0.1 to 2.0)"@)),
    ]);
    let value3 = Json::object(members3);
    let mut members4 = no_members();
    push_member(&mut members4, "landscape", value1);
    push_member(&mut members4, "print_background", value2);
    push_member(&mut members4, "scale", value3);
    assert(members_view(members4@) =~= seq![
        ("landscape"@, value1@),
        ("print_background"@, value2@),
        ("scale"@, value3@),
    ]);
    let value4 = Json::object(members4);
    let mut members5 = no_members();
    push_member(&mut members5, "type", Json::string("object"));
    push_member(&mut members5, "properties", value4);
    assert(members_view(members5@) =~= seq![
        ("type"@, JsonV::Str("object"@)),
        ("properties"@, value4@),
    ]);
    let value5 = Json::object(members5);
    value5
}

/// The schema of the arguments of `chrome_accessibility_tree`.
pub open spec fn accessibility_tree_schema_spec() -> JsonV {
    JsonV::Object(
        seq![
            ("type"@, JsonV::Str("object"@)),
            ("properties"@, JsonV::Object(
                seq![
                    ("summary"@, JsonV::Object(
                        seq![
                            ("type"@, JsonV::Str("boolean"@)),
                            ("description"@, JsonV::Str("Return a text summary instead of full tree"@)),
                        ],
                    )),
                ],
            )),
        ],
    )
}

fn accessibility_tree_schema() -> (r: Json)
    ensures
        r@ == accessibility_tree_schema_spec(),
{
    let mut members1 = no_members();
    push_member(&mut members1, "type", Json::string("boolean"));
    push_member(&mut members1, "description", Json::string("Return a text summary instead of full tree"));
    assert(members_view(members1@) =~= seq![
        ("type"@, JsonV::Str("boolean"@)),
        ("description"@, JsonV::Str("Return a text summary instead of full tree"@)),
    ]);
    let value1 = Json::object(members1);
    let mut members2 = no_members();
    push_member(&mut members2, "summary", value1);
    assert(members_view(members2@) =~= seq![("summary"@, value1@)]);
    let value2 = Json::object(members2);
    let mut members3 = no_members();
    push_member(&mut members3, "type", Json::string("object"));
    push_member(&mut members3, "properties", value2);
    assert(members_view(members3@) =~= seq![
        ("type"@, JsonV::Str("object"@)),
        ("properties"@, value2@),
    ]);
    let value3 = Json::object(members3);
    value3
}

/// The schema of the arguments of `chrome_native_click`.
pub open spec fn native_click_schema_spec() -> JsonV {
    JsonV::Object(
        seq![
            ("type"@, JsonV::Str("object"@)),
            ("properties"@, JsonV::Object(
                seq![
                    ("x"@, JsonV::Object(
                        seq![
                            ("type"@, JsonV::Str("number"@)),
                            ("description"@, JsonV::Str("X coordinate on screen"@)),
                        ],
                    )),
                    ("y"@, JsonV::Object(
                        seq![
                            ("type"@, JsonV::Str("number"@)),
                            ("description"@, JsonV::Str("Y coordinate on screen"@)),
                        ],
                    )),
                ],
            )),
            ("required"@, JsonV::Array(seq![JsonV::Str("x"@), JsonV::Str("y"@)])),
        ],
    )
}

fn native_click_schema() -> (r: Json)
    ensures
        r@ == native_click_schema_spec(),
{
    let mut members1 = no_members();
    push_member(&mut members1, "type", Json::string("number"));
    push_member(&mut members1, "description", Json::string("X coordinate on screen"));
    assert(members_view(members1@) =~= seq![
        ("type"@, JsonV::Str("number"@)),
        ("description"@, JsonV::Str("X coordinate on screen"@)),
    ]);
    let value1 = Json::object(members1);
    let mut members2 = no_members();
    push_member(&mut members2, "type", Json::string("number"));
    push_member(&mut members2, "description", Json::string("Y coordinate on screen"));
    assert(members_view(members2@) =~= seq![
        ("type"@, JsonV::Str("number"@)),
        ("description"@, JsonV::Str("Y coordinate on screen"@)),
    ]);
    let value2 = Json::object(members2);
    let mut members3 = no_members();
    push_member(&mut members3, "x", value1);
    push_member(&mut members3, "y", value2);
    assert(members_view(members3@) =~= seq![("x"@, value1@), ("y"@, value2@)]);
    let value3 = Json::object(members3);
    let mut items4 = no_items();
    push_item(&mut items4, Json::string("x"));
    push_item(&mut items4, Json::string("y"));
    assert(items_view(items4@) =~= seq![JsonV::Str("x"@), JsonV::Str("y"@)]);
    let value4 = Json::array(items4);
    let mut members5 = no_members();
    push_member(&mut members5, "type", Json::string("object"));
    push_member(&mut members5, "properties", value3);
    push_member(&mut members5, "required", value4);
    assert(members_view(members5@) =~= seq![
        ("type"@, JsonV::Str("object"@)),
        ("properties"@, value3@),
        ("required"@, value4@),
    ]);
    let value5 = Json::object(members5);
    value5
}

/// The schema of the arguments of `chrome_find`.
pub open spec fn find_schema_spec() -> JsonV {
    JsonV::Object(
        seq![
            ("type"@, JsonV::Str("object"@)),
            ("properties"@, JsonV::Object(
                seq![
                    ("query"@, JsonV::Object(
                        seq![
                            ("type"@, JsonV::Str("string"@)),
                            ("description"@, JsonV::Str("Search query (text, role, or CSS selector)"@)),
                        ],
                    )),
                ],
            )),
            ("required"@, JsonV::Array(seq![JsonV::Str("query"@)])),
        ],
    )
}

fn find_schema() -> (r: Json)
    ensures
        r@ == find_schema_spec(),
{
    let mut members1 = no_members();
    push_member(&mut members1, "type", Json::string("string"));
    push_member(&mut members1, "description", Json::string("Search query (text, role, or CSS selector)"));
    assert(members_view(members1@) =~= seq![
        ("type"@, JsonV::Str("string"@)),
        ("description"@, JsonV::Str("Search query (text, role, or CSS selector)"@)),
    ]);
    let value1 = Json::object(members1);
    let mut members2 = no_members();
    push_member(&mut members2, "query", value1);
    assert(members_view(members2@) =~= seq![("query"@, value1@)]);
    let value2 = Json::object(members2);
    let mut items3 = no_items();
    push_item(&mut items3, Json::string("query"));
    assert(items_view(items3@) =~= seq![JsonV::Str("query"@)]);
    let value3 = Json::array(items3);
    let mut members4 = no_members();
    push_member(&mut members4, "type", Json::string("object"));
    push_member(&mut members4, "properties", value2);
    push_member(&mut members4, "required", value3);
    assert(members_view(members4@) =~= seq![
        ("type"@, JsonV::Str("object"@)),
        ("properties"@, value2@),
        ("required"@, value3@),
    ]);
    let value4 = Json::object(members4);
    value4
}

/// The tools that the server offers, in the order in which they are listed.
pub open spec fn available_tools() -> Seq<ToolV> {
    seq![
        ToolV {
            name: "chrome_navigate"@,
            description: "Navigate to a URL"@,
            input_schema: navigate_schema_spec(),
        },
        ToolV {
            name: "chrome_click"@,
            description: "Click on an element by CSS selector, text content, or accessibility label"@,
            input_schema: click_schema_spec(),
        },
        ToolV {
            name: "chrome_type"@,
            description: "Type text into an element or the currently focused element"@,
            input_schema: type_schema_spec(),
        },
        ToolV {
            name: "chrome_screenshot"@,
            description: "Take a screenshot of the current page"@,
            input_schema: screenshot_schema_spec(),
        },
        ToolV {
            name: "chrome_evaluate"@,
            description: "Execute JavaScript in the browser"@,
            input_schema: evaluate_schema_spec(),
        },
        ToolV {
            name: "chrome_tabs"@,
            description: "List, create, or switch between browser tabs"@,
            input_schema: tabs_schema_spec(),
        },
        ToolV {
            name: "chrome_scroll"@,
            description: "Scroll the page or scroll to an element"@,
            input_schema: scroll_schema_spec(),
        },
        ToolV {
            name: "chrome_hover"@,
            description: "Hover over an element"@,
            input_schema: hover_schema_spec(),
        },
        ToolV {
            name: "chrome_select"@,
            description: "Select an option from a dropdown"@,
            input_schema: select_schema_spec(),
        },
        ToolV {
            name: "chrome_wait"@,
            description: "Wait for a condition to be met"@,
            input_schema: wait_schema_spec(),
        },
        ToolV {
            name: "chrome_cookies"@,
            description: "Get, set, or clear browser cookies"@,
            input_schema: cookies_schema_spec(),
        },
        ToolV {
            name: "chrome_pdf"@,
            description: "Generate a PDF of the current page"@,
            input_schema: pdf_schema_spec(),
        },
        ToolV {
            name: "chrome_accessibility_tree"@,
            description: "Get the accessibility tree of the current page"@,
            input_schema: accessibility_tree_schema_spec(),
        },
        ToolV {
            name: "chrome_native_click"@,
            description: "Click at screen coordinates using native input (for browser chrome)"@,
            input_schema: native_click_schema_spec(),
        },
        ToolV {
            name: "chrome_find"@,
            description: "Find elements by text, role, or selector and return references"@,
            input_schema: find_schema_spec(),
        },
    ]
}

/// The tools that the server offers: each with its name, its description
/// and the schema of its arguments.
pub fn get_available_tools() -> (r: Vec<Tool>)
    ensures
        tools_view(r@) == available_tools(),
{
    let mut tools: Vec<Tool> = Vec::new();
    tools.push(tool(
        "chrome_navigate",
        "Navigate to a URL",
        navigate_schema(),
    ));
    tools.push(tool(
        "chrome_click",
        "Click on an element by CSS selector, text content, or accessibility label",
        click_schema(),
    ));
    tools.push(tool(
        "chrome_type",
        "Type text into an element or the currently focused element",
        type_schema(),
    ));
    tools.push(tool(
        "chrome_screenshot",
        "Take a screenshot of the current page",
        screenshot_schema(),
    ));
    tools.push(tool(
        "chrome_evaluate",
        "Execute JavaScript in the browser",
        evaluate_schema(),
    ));
    tools.push(tool(
        "chrome_tabs",
        "List, create, or switch between browser tabs",
        tabs_schema(),
    ));
    tools.push(tool(
        "chrome_scroll",
        "Scroll the page or scroll to an element",
        scroll_schema(),
    ));
    tools.push(tool(
        "chrome_hover",
        "Hover over an element",
        hover_schema(),
    ));
    tools.push(tool(
        "chrome_select",
        "Select an option from a dropdown",
        select_schema(),
    ));
    tools.push(tool(
        "chrome_wait",
        "Wait for a condition to be met",
        wait_schema(),
    ));
    tools.push(tool(
        "chrome_cookies",
        "Get, set, or clear browser cookies",
        cookies_schema(),
    ));
    tools.push(tool(
        "chrome_pdf",
        "Generate a PDF of the current page",
        pdf_schema(),
    ));
    tools.push(tool(
        "chrome_accessibility_tree",
        "Get the accessibility tree of the current page",
        accessibility_tree_schema(),
    ));
    tools.push(tool(
        "chrome_native_click",
        "Click at screen coordinates using native input (for browser chrome)",
        native_click_schema(),
    ));
    tools.push(tool(
        "chrome_find",
        "Find elements by text, role, or selector and return references",
        find_schema(),
    ));
    assert(tools_view(tools@) =~= available_tools());
    tools
}

} // verus!
