//! Screenshots and PDFs: the parameters of the capture commands and the
//! reading of their replies.

use crate::accessibility::{Bounds, BoundsV};
use crate::cdp::{command_with, evaluate_value_spec, Command, CommandV};
use crate::error::{ChromeMcpError, ErrorV};
use crate::frame::opt_member;
use crate::json::{
    items_view, members_view, no_members, number_model, opt_str_view, push_member, Json, JsonV,
    NumberV,
};
use crate::text::{concat, lowercase, lowercase_equals};
use vstd::prelude::*;
use vstd::string::*;

verus! {

/// A rectangle of the viewport to clip a capture to.
#[derive(Clone, Debug, PartialEq)]
pub struct ViewportBounds {
    pub x: serde_json::Number,
    pub y: serde_json::Number,
    pub width: serde_json::Number,
    pub height: serde_json::Number,
}

/// Options of a PDF; lengths are in inches.
#[derive(Clone, Debug, PartialEq)]
pub struct PdfOptions {
    pub landscape: Option<bool>,
    pub display_header_footer: Option<bool>,
    pub print_background: Option<bool>,
    pub scale: Option<serde_json::Number>,
    pub paper_width: Option<serde_json::Number>,
    pub paper_height: Option<serde_json::Number>,
    pub margin_top: Option<serde_json::Number>,
    pub margin_bottom: Option<serde_json::Number>,
    pub margin_left: Option<serde_json::Number>,
    pub margin_right: Option<serde_json::Number>,
    pub page_ranges: Option<String>,
    pub header_template: Option<String>,
    pub footer_template: Option<String>,
    pub prefer_css_page_size: Option<bool>,
}

/// The model of a [`PdfOptions`].
pub struct PdfOptionsV {
    pub landscape: Option<bool>,
    pub display_header_footer: Option<bool>,
    pub print_background: Option<bool>,
    pub scale: Option<NumberV>,
    pub paper_width: Option<NumberV>,
    pub paper_height: Option<NumberV>,
    pub margin_top: Option<NumberV>,
    pub margin_bottom: Option<NumberV>,
    pub margin_left: Option<NumberV>,
    pub margin_right: Option<NumberV>,
    pub page_ranges: Option<Seq<char>>,
    pub header_template: Option<Seq<char>>,
    pub footer_template: Option<Seq<char>>,
    pub prefer_css_page_size: Option<bool>,
}

impl View for PdfOptions {
    type V = PdfOptionsV;

    open spec fn view(&self) -> PdfOptionsV {
        PdfOptionsV {
            landscape: self.landscape,
            display_header_footer: self.display_header_footer,
            print_background: self.print_background,
            scale: opt_number(self.scale),
            paper_width: opt_number(self.paper_width),
            paper_height: opt_number(self.paper_height),
            margin_top: opt_number(self.margin_top),
            margin_bottom: opt_number(self.margin_bottom),
            margin_left: opt_number(self.margin_left),
            margin_right: opt_number(self.margin_right),
            page_ranges: opt_str_view(self.page_ranges),
            header_template: opt_str_view(self.header_template),
            footer_template: opt_str_view(self.footer_template),
            prefer_css_page_size: self.prefer_css_page_size,
        }
    }
}

/// The options that hold where none are given.
pub open spec fn default_pdf_options() -> PdfOptionsV {
    PdfOptionsV {
        landscape: Some(false),
        display_header_footer: Some(false),
        print_background: Some(true),
        scale: number_parse("1.0"@),
        paper_width: None,
        paper_height: None,
        margin_top: number_parse("0.4"@),
        margin_bottom: number_parse("0.4"@),
        margin_left: number_parse("0.4"@),
        margin_right: number_parse("0.4"@),
        page_ranges: None,
        header_template: None,
        footer_template: None,
        prefer_css_page_size: Some(false),
    }
}

/// The view of options that may be absent.
pub open spec fn opt_pdf_view(o: Option<PdfOptions>) -> Option<PdfOptionsV> {
    match o {
        Some(p) => Some(p@),
        None => None,
    }
}

/// The model of a number that may be absent.
pub open spec fn opt_number(o: Option<serde_json::Number>) -> Option<NumberV> {
    match o {
        Some(n) => Some(number_model(n)),
        None => None,
    }
}

/// The number that a decimal numeral stands for, as `serde_json` reads it.
pub uninterp spec fn number_parse(text: Seq<char>) -> Option<NumberV>;

/// `str::parse` to a `serde_json::Number`.
#[verifier::external_body]
fn parse_number(text: &str) -> (r: Option<serde_json::Number>)
    ensures
        opt_number(r) == number_parse(text@),
{
    text.parse::<serde_json::Number>().ok()
}

impl Default for PdfOptions {
    /// Portrait, with background, at scale one, with margins of four tenths
    /// of an inch, without header and footer.
    fn default() -> (r: PdfOptions)
        ensures
            r@ == default_pdf_options(),
    {
        PdfOptions {
            landscape: Some(false),
            display_header_footer: Some(false),
            print_background: Some(true),
            scale: parse_number("1.0"),
            paper_width: None,
            paper_height: None,
            margin_top: parse_number("0.4"),
            margin_bottom: parse_number("0.4"),
            margin_left: parse_number("0.4"),
            margin_right: parse_number("0.4"),
            page_ranges: None,
            header_template: None,
            footer_template: None,
            prefer_css_page_size: Some(false),
        }
    }
}

/// A member for a flag, where there is one.
pub open spec fn flag_member(key: Seq<char>, o: Option<bool>) -> Seq<(Seq<char>, JsonV)> {
    opt_member(
        key,
        match o {
            Some(b) => Some(JsonV::Bool(b)),
            None => None,
        },
    )
}

/// A member for a number, where there is one.
pub open spec fn number_member(key: Seq<char>, o: Option<NumberV>) -> Seq<(Seq<char>, JsonV)> {
    opt_member(
        key,
        match o {
            Some(n) => Some(JsonV::Num(n)),
            None => None,
        },
    )
}

/// A member for a text, where there is one.
pub open spec fn text_member(key: Seq<char>, o: Option<Seq<char>>) -> Seq<(Seq<char>, JsonV)> {
    opt_member(
        key,
        match o {
            Some(s) => Some(JsonV::Str(s)),
            None => None,
        },
    )
}

/// The parameters of `Page.printToPDF`: one member for each option that is given.
pub open spec fn pdf_members(o: PdfOptionsV) -> Seq<(Seq<char>, JsonV)> {
    flag_member("landscape"@, o.landscape) + flag_member(
        "displayHeaderFooter"@,
        o.display_header_footer,
    ) + flag_member("printBackground"@, o.print_background) + number_member(
        "scale"@,
        o.scale,
    ) + number_member("paperWidth"@, o.paper_width) + number_member(
        "paperHeight"@,
        o.paper_height,
    ) + number_member("marginTop"@, o.margin_top) + number_member(
        "marginBottom"@,
        o.margin_bottom,
    ) + number_member("marginLeft"@, o.margin_left) + number_member(
        "marginRight"@,
        o.margin_right,
    ) + text_member("pageRanges"@, o.page_ranges) + text_member(
        "headerTemplate"@,
        o.header_template,
    ) + text_member("footerTemplate"@, o.footer_template) + flag_member(
        "preferCSSPageSize"@,
        o.prefer_css_page_size,
    )
}

/// `Page.printToPDF` with the options that are given.
pub open spec fn capture_pdf_spec(options: Option<PdfOptionsV>) -> CommandV {
    command_with(
        "Page.printToPDF"@,
        match options {
            Some(o) => pdf_members(o),
            None => Seq::empty(),
        },
    )
}

fn push_flag(members: &mut Vec<(String, Json)>, key: &str, o: Option<bool>)
    ensures
        members_view(final(members)@) == members_view(old(members)@) + flag_member(key@, o),
{
    match o {
        Some(b) => {
            push_member(members, key, Json::Bool(b));
            assert(members_view(members@) =~= members_view(old(members)@) + flag_member(key@, o));
        },
        None => {
            assert(members_view(members@) =~= members_view(old(members)@) + flag_member(key@, o));
        },
    }
}

fn push_number(members: &mut Vec<(String, Json)>, key: &str, o: &Option<serde_json::Number>)
    ensures
        members_view(final(members)@) == members_view(old(members)@) + number_member(
            key@,
            opt_number(*o),
        ),
{
    match o {
        Some(n) => {
            push_member(members, key, Json::Num(n.clone()));
            assert(members_view(members@) =~= members_view(old(members)@) + number_member(
                key@,
                opt_number(*o),
            ));
        },
        None => {
            assert(members_view(members@) =~= members_view(old(members)@) + number_member(
                key@,
                opt_number(*o),
            ));
        },
    }
}

fn push_text(members: &mut Vec<(String, Json)>, key: &str, o: &Option<String>)
    ensures
        members_view(final(members)@) == members_view(old(members)@) + text_member(
            key@,
            opt_str_view(*o),
        ),
{
    match o {
        Some(s) => {
            push_member(members, key, Json::string(s.as_str()));
            assert(members_view(members@) =~= members_view(old(members)@) + text_member(
                key@,
                opt_str_view(*o),
            ));
        },
        None => {
            assert(members_view(members@) =~= members_view(old(members)@) + text_member(
                key@,
                opt_str_view(*o),
            ));
        },
    }
}

/// Whether a format is JPEG, letter case aside.
pub open spec fn is_jpeg(format: Seq<char>) -> bool {
    lowercase(format) == "jpeg"@
}

/// `Page.captureScreenshot` in `format`, of the whole page or of the
/// viewport; a quality is handed on for JPEG only, and capped at 100.
pub open spec fn capture_spec(format: Seq<char>, quality: Option<u32>, full_page: bool) -> CommandV {
    command_with(
        "Page.captureScreenshot"@,
        seq![("format"@, JsonV::Str(format)), ("captureBeyondViewport"@, JsonV::Bool(full_page))]
            + match quality {
            Some(q) if is_jpeg(format) => seq![
                (
                    "quality"@,
                    JsonV::Num(
                        NumberV::PosInt(
                            if q <= 100 {
                                q as u64
                            } else {
                                100
                            },
                        ),
                    ),
                ),
            ],
            _ => Seq::empty(),
        },
    )
}

/// `Page.captureScreenshot` as PNG, clipped to a rectangle at scale one.
pub open spec fn capture_clip_spec(clip: BoundsV) -> CommandV {
    command_with(
        "Page.captureScreenshot"@,
        seq![
            ("format"@, JsonV::Str("png"@)),
            (
                "clip"@,
                JsonV::Object(
                    seq![
                        ("x"@, JsonV::Num(clip.x)),
                        ("y"@, JsonV::Num(clip.y)),
                        ("width"@, JsonV::Num(clip.width)),
                        ("height"@, JsonV::Num(clip.height)),
                        ("scale"@, JsonV::Num(NumberV::PosInt(1))),
                    ],
                ),
            ),
        ],
    )
}

/// The text under `data` in a reply, or the error `what`.
pub open spec fn data_outcome(reply: JsonV, what: Seq<char>) -> Result<Seq<char>, ErrorV> {
    match reply.get("data"@) {
        Some(JsonV::Str(data)) => Ok(data),
        _ => Err(ErrorV::Screenshot(what)),
    }
}

/// What a base64 text decodes to by the standard alphabet with padding: the
/// bytes, or the message of the error.
pub uninterp spec fn base64_decode(text: Seq<char>) -> Result<Seq<u8>, Seq<char>>;

/// `Engine::decode` of the engine `general_purpose::STANDARD`; an error is
/// handed on as its message.
#[verifier::external_body]
fn decode_base64(text: &str) -> (r: Result<Vec<u8>, String>)
    ensures
        match r {
            Ok(bytes) => base64_decode(text@) == Ok::<Seq<u8>, Seq<char>>(bytes@),
            Err(m) => base64_decode(text@) == Err::<Seq<u8>, Seq<char>>(m@),
        },
{
    base64::Engine::decode(&base64::engine::general_purpose::STANDARD, text).map_err(
        |e| e.to_string(),
    )
}

/// The size of the viewport in a reply: `width` and `height` of the value,
/// each cut to 32 bits, with 1920 and 1080 where they are missing.
pub open spec fn viewport_outcome(reply: JsonV) -> Result<(u32, u32), ErrorV> {
    match reply.get2("result"@, "value"@) {
        Some(value) => Ok(
            (
                match value.get("width"@) {
                    Some(JsonV::Num(NumberV::PosInt(w))) => w as u32,
                    _ => 1920u32,
                },
                match value.get("height"@) {
                    Some(JsonV::Num(NumberV::PosInt(h))) => h as u32,
                    _ => 1080u32,
                },
            ),
        ),
        None => Err(ErrorV::Screenshot("Could not get viewport size"@)),
    }
}

/// `Emulation.setDeviceMetricsOverride` to a size, at scale one, not mobile.
pub open spec fn set_viewport_spec(width: u32, height: u32) -> CommandV {
    command_with(
        "Emulation.setDeviceMetricsOverride"@,
        seq![
            ("width"@, JsonV::Num(NumberV::PosInt(width as u64))),
            ("height"@, JsonV::Num(NumberV::PosInt(height as u64))),
            ("deviceScaleFactor"@, JsonV::Num(NumberV::PosInt(1))),
            ("mobile"@, JsonV::Bool(false)),
        ],
    )
}

/// `DOM.querySelector` for `selector` under the node `root`.
pub open spec fn query_selector_spec(root: u64, selector: Seq<char>) -> CommandV {
    command_with(
        "DOM.querySelector"@,
        seq![("nodeId"@, JsonV::Num(NumberV::PosInt(root))), ("selector"@, JsonV::Str(selector))],
    )
}

/// `DOM.getBoxModel` of a node.
pub open spec fn box_model_spec(node: u64) -> CommandV {
    command_with("DOM.getBoxModel"@, seq![("nodeId"@, JsonV::Num(NumberV::PosInt(node)))])
}

/// The node that `DOM.querySelector` found.
pub open spec fn element_node(reply: JsonV, selector: Seq<char>) -> Result<u64, ErrorV> {
    match reply.get("nodeId"@) {
        Some(JsonV::Num(NumberV::PosInt(id))) => Ok(id),
        _ => Err(ErrorV::ElementNotFound("Element not found: "@ + selector)),
    }
}

/// One ordinate of a quad: the number, or zero where the item is none.
pub open spec fn ordinate(item: JsonV) -> NumberV {
    match item {
        JsonV::Num(n) => n,
        _ => NumberV::PosInt(0),
    }
}

/// The first eight ordinates of the content quad in a reply to `DOM.getBoxModel`.
pub open spec fn content_quad(reply: JsonV) -> Result<Seq<NumberV>, ErrorV> {
    match reply.get2("model"@, "content"@) {
        Some(JsonV::Array(items)) => if items.len() < 8 {
            Err(ErrorV::CdpProtocol("Invalid content quad format"@))
        } else {
            Ok(Seq::new(8, |i: int| ordinate(items[i])))
        },
        _ => Err(ErrorV::CdpProtocol("Could not get element content quad"@)),
    }
}

/// The models of a list of numbers.
pub open spec fn numbers_view(items: Seq<serde_json::Number>) -> Seq<NumberV> {
    Seq::new(items.len(), |i: int| number_model(items[i]))
}

/// Builds the capture commands and reads their replies.
#[derive(Clone, Copy, Debug, PartialEq, Eq, Default)]
pub struct ScreenshotManager;

impl ScreenshotManager {
    pub fn new() -> (r: Self)
        ensures
            r == ScreenshotManager,
    {
        ScreenshotManager
    }

    /// The command that captures the whole page as PNG.
    pub fn capture_full_page(&self) -> (r: Command)
        ensures
            r@ == command_with(
                "Page.captureScreenshot"@,
                seq![("format"@, JsonV::Str("png"@)), ("captureBeyondViewport"@, JsonV::Bool(true))],
            ),
    {
        let mut m = no_members();
        push_member(&mut m, "format", Json::string("png"));
        push_member(&mut m, "captureBeyondViewport", Json::Bool(true));
        let ghost want = seq![
            ("format"@, JsonV::Str("png"@)),
            ("captureBeyondViewport"@, JsonV::Bool(true)),
        ];
        assert(members_view(m@) =~= want);
        Command::with_params("Page.captureScreenshot", m)
    }

    /// The command that captures the viewport as PNG.
    pub fn capture_viewport(&self) -> (r: Command)
        ensures
            r@ == command_with(
                "Page.captureScreenshot"@,
                seq![
                    ("format"@, JsonV::Str("png"@)),
                    ("captureBeyondViewport"@, JsonV::Bool(false)),
                ],
            ),
    {
        let mut m = no_members();
        push_member(&mut m, "format", Json::string("png"));
        push_member(&mut m, "captureBeyondViewport", Json::Bool(false));
        let ghost want = seq![
            ("format"@, JsonV::Str("png"@)),
            ("captureBeyondViewport"@, JsonV::Bool(false)),
        ];
        assert(members_view(m@) =~= want);
        Command::with_params("Page.captureScreenshot", m)
    }

    /// The command that captures in `format`, with `quality` for JPEG.
    pub fn capture_with_options(&self, format: &str, quality: Option<u32>, full_page: bool) -> (r:
        Command)
        ensures
            r@ == capture_spec(format@, quality, full_page),
    {
        let mut m = no_members();
        push_member(&mut m, "format", Json::string(format));
        push_member(&mut m, "captureBeyondViewport", Json::Bool(full_page));
        if lowercase_equals(format, "jpeg") {
            match quality {
                Some(q) => {
                    let capped: u32 = if q <= 100 {
                        q
                    } else {
                        100
                    };
                    push_member(&mut m, "quality", Json::from_u64(capped as u64));
                },
                None => {},
            }
        }
        assert(members_view(m@) =~= capture_spec(format@, quality, full_page).params->0->Object_0);
        Command::with_params("Page.captureScreenshot", m)
    }

    /// The command that captures the rectangle `clip` as PNG.
    pub fn capture_element(&self, clip: &Bounds) -> (r: Command)
        ensures
            r@ == capture_clip_spec(clip@),
    {
        let mut c = no_members();
        push_member(&mut c, "x", Json::Num(clip.x.clone()));
        push_member(&mut c, "y", Json::Num(clip.y.clone()));
        push_member(&mut c, "width", Json::Num(clip.width.clone()));
        push_member(&mut c, "height", Json::Num(clip.height.clone()));
        push_member(&mut c, "scale", Json::from_u64(1));
        let ghost inner = seq![
            ("x"@, JsonV::Num(clip@.x)),
            ("y"@, JsonV::Num(clip@.y)),
            ("width"@, JsonV::Num(clip@.width)),
            ("height"@, JsonV::Num(clip@.height)),
            ("scale"@, JsonV::Num(NumberV::PosInt(1))),
        ];
        assert(members_view(c@) =~= inner);
        let mut m = no_members();
        push_member(&mut m, "format", Json::string("png"));
        push_member(&mut m, "clip", Json::object(c));
        assert(members_view(m@) =~= capture_clip_spec(clip@).params->0->Object_0);
        Command::with_params("Page.captureScreenshot", m)
    }

    /// The command that finds the element of `selector` under the node `root`.
    pub fn query_selector(&self, root: u64, selector: &str) -> (r: Command)
        ensures
            r@ == query_selector_spec(root, selector@),
    {
        let mut m = no_members();
        push_member(&mut m, "nodeId", Json::from_u64(root));
        push_member(&mut m, "selector", Json::string(selector));
        assert(members_view(m@) =~= query_selector_spec(root, selector@).params->0->Object_0);
        Command::with_params("DOM.querySelector", m)
    }

    /// Reads the node that `query_selector` found.
    pub fn element_node_id(&self, reply: &Json, selector: &str) -> (r: Result<u64, ChromeMcpError>)
        ensures
            match r {
                Ok(id) => element_node(reply@, selector@) == Ok::<u64, ErrorV>(id),
                Err(e) => element_node(reply@, selector@) == Err::<u64, ErrorV>(e@),
            },
    {
        let id = match reply.get("nodeId") {
            Some(v) => v.as_u64(),
            None => None,
        };
        match id {
            Some(n) => Ok(n),
            None => Err(ChromeMcpError::ElementNotFound(concat("Element not found: ", selector))),
        }
    }

    /// The command that asks for the box model of a node.
    pub fn get_box_model(&self, node: u64) -> (r: Command)
        ensures
            r@ == box_model_spec(node),
    {
        let mut m = no_members();
        push_member(&mut m, "nodeId", Json::from_u64(node));
        Command::with_params("DOM.getBoxModel", m)
    }

    /// Reads the content quad of an element: four corners, x before y.
    pub fn get_element_bounds(&self, reply: &Json) -> (r: Result<
        Vec<serde_json::Number>,
        ChromeMcpError,
    >)
        ensures
            match r {
                Ok(quad) => content_quad(reply@) == Ok::<Seq<NumberV>, ErrorV>(numbers_view(quad@)),
                Err(e) => content_quad(reply@) == Err::<Seq<NumberV>, ErrorV>(e@),
            },
    {
        let items = match reply.get("model") {
            Some(model) => match model.get("content") {
                Some(c) => c.as_array(),
                None => None,
            },
            None => None,
        };
        let items = match items {
            Some(items) => items,
            None => {
                return Err(ChromeMcpError::cdp_protocol("Could not get element content quad"));
            },
        };
        if items.len() < 8 {
            return Err(ChromeMcpError::cdp_protocol("Invalid content quad format"));
        }
        let ghost all = items_view(items@);
        let mut quad: Vec<serde_json::Number> = Vec::new();
        let mut i: usize = 0;
        while i < 8
            invariant
                i <= 8,
                items.len() >= 8,
                all == items_view(items@),
                quad.len() == i,
                forall|j: int| 0 <= j < i ==> number_model(quad@[j]) == ordinate(all[j]),
            decreases 8 - i,
        {
            let n = match items[i].as_number() {
                Some(n) => n.clone(),
                None => serde_json::Number::from(0u64),
            };
            quad.push(n);
            i = i + 1;
        }
        assert(numbers_view(quad@) =~= Seq::new(8, |i: int| ordinate(all[i])));
        Ok(quad)
    }

    /// Reads the image out of the reply to a capture.
    pub fn extract_screenshot_data(&self, result: &Json) -> (r: Result<String, ChromeMcpError>)
        ensures
            match r {
                Ok(data) => data_outcome(result@, "No screenshot data in response"@) == Ok::<
                    Seq<char>,
                    ErrorV,
                >(data@),
                Err(e) => data_outcome(result@, "No screenshot data in response"@) == Err::<
                    Seq<char>,
                    ErrorV,
                >(e@),
            },
    {
        let data = match result.get("data") {
            Some(d) => d.as_str(),
            None => None,
        };
        match data {
            Some(d) => Ok(String::from_str(d)),
            None => Err(ChromeMcpError::screenshot_error("No screenshot data in response")),
        }
    }

    /// The bytes of a screenshot that is given in base64.
    pub fn decode_screenshot(&self, base64_data: &str) -> (r: Result<Vec<u8>, ChromeMcpError>)
        ensures
            match r {
                Ok(bytes) => base64_decode(base64_data@) == Ok::<Seq<u8>, Seq<char>>(bytes@),
                Err(e) => base64_decode(base64_data@) is Err && e@ == ErrorV::Screenshot(
                    "Failed to decode base64: "@ + base64_decode(base64_data@)->Err_0,
                ),
            },
    {
        match decode_base64(base64_data) {
            Ok(bytes) => Ok(bytes),
            Err(m) => Err(
                ChromeMcpError::Screenshot(concat("Failed to decode base64: ", m.as_str())),
            ),
        }
    }

    /// The command that asks for the size of the viewport.
    pub fn get_viewport_size(&self) -> (r: Command)
        ensures
            r@ == evaluate_value_spec(
                "({ width: window.innerWidth, height: window.innerHeight })"@,
            ),
    {
        Command::evaluate_value("({ width: window.innerWidth, height: window.innerHeight })")
    }

    /// Reads the size of the viewport out of the reply to `get_viewport_size`.
    pub fn viewport_size_result(&self, reply: &Json) -> (r: Result<(u32, u32), ChromeMcpError>)
        ensures
            match r {
                Ok(size) => viewport_outcome(reply@) == Ok::<(u32, u32), ErrorV>(size),
                Err(e) => viewport_outcome(reply@) == Err::<(u32, u32), ErrorV>(e@),
            },
    {
        let value = match reply.get("result") {
            Some(inner) => inner.get("value"),
            None => None,
        };
        let value = match value {
            Some(v) => v,
            None => {
                return Err(ChromeMcpError::screenshot_error("Could not get viewport size"));
            },
        };
        let width: u32 = match value.get("width") {
            Some(w) => match w.as_u64() {
                Some(n) => #[verifier::truncate]
                (n as u32),
                None => 1920,
            },
            None => 1920,
        };
        let height: u32 = match value.get("height") {
            Some(h) => match h.as_u64() {
                Some(n) => #[verifier::truncate]
                (n as u32),
                None => 1080,
            },
            None => 1080,
        };
        Ok((width, height))
    }

    /// The command that sets the size of the viewport.
    pub fn set_viewport_size(&self, width: u32, height: u32) -> (r: Command)
        ensures
            r@ == set_viewport_spec(width, height),
    {
        let mut m = no_members();
        push_member(&mut m, "width", Json::from_u64(width as u64));
        push_member(&mut m, "height", Json::from_u64(height as u64));
        push_member(&mut m, "deviceScaleFactor", Json::from_u64(1));
        push_member(&mut m, "mobile", Json::Bool(false));
        assert(members_view(m@) =~= set_viewport_spec(width, height).params->0->Object_0);
        Command::with_params("Emulation.setDeviceMetricsOverride", m)
    }

    /// The command that prints the page to PDF.
    pub fn capture_pdf(&self, options: &Option<PdfOptions>) -> (r: Command)
        ensures
            r@ == capture_pdf_spec(opt_pdf_view(*options)),
    {
        let mut m = no_members();
        match options {
            Some(o) => {
                push_flag(&mut m, "landscape", o.landscape);
                push_flag(&mut m, "displayHeaderFooter", o.display_header_footer);
                push_flag(&mut m, "printBackground", o.print_background);
                push_number(&mut m, "scale", &o.scale);
                push_number(&mut m, "paperWidth", &o.paper_width);
                push_number(&mut m, "paperHeight", &o.paper_height);
                push_number(&mut m, "marginTop", &o.margin_top);
                push_number(&mut m, "marginBottom", &o.margin_bottom);
                push_number(&mut m, "marginLeft", &o.margin_left);
                push_number(&mut m, "marginRight", &o.margin_right);
                push_text(&mut m, "pageRanges", &o.page_ranges);
                push_text(&mut m, "headerTemplate", &o.header_template);
                push_text(&mut m, "footerTemplate", &o.footer_template);
                push_flag(&mut m, "preferCSSPageSize", o.prefer_css_page_size);
                assert(members_view(m@) =~= pdf_members(o@));
            },
            None => {},
        }
        Command::with_params("Page.printToPDF", m)
    }

    /// Reads the document out of the reply to `capture_pdf`.
    pub fn pdf_result(&self, reply: &Json) -> (r: Result<String, ChromeMcpError>)
        ensures
            match r {
                Ok(data) => data_outcome(reply@, "No PDF data returned"@) == Ok::<
                    Seq<char>,
                    ErrorV,
                >(data@),
                Err(e) => data_outcome(reply@, "No PDF data returned"@) == Err::<Seq<char>, ErrorV>(
                    e@,
                ),
            },
    {
        let data = match reply.get("data") {
            Some(d) => d.as_str(),
            None => None,
        };
        match data {
            Some(d) => Ok(String::from_str(d)),
            None => Err(ChromeMcpError::screenshot_error("No PDF data returned")),
        }
    }
}

} // verus!
