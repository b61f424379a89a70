//! Automation on top of the command façade: resolving a target text to an
//! element by a fixed order of strategies, waiting for a condition under a
//! deadline, and the scripts and parameters of the page-level commands.
//! Each multi-step operation is a state machine that is handed the reply to
//! its last command and says what to do next.

use crate::accessibility::{
    nodes_view, opt_bounds_view, search, search_nodes, AccessibilityManager, AccessibilityNode,
    Bounds, BoundsV, NodeV, SearchKind,
};
use crate::cdp::{
    bare_command, document_root, document_root_id, evaluate_value_spec, query_selector_all_spec,
    run_script_spec, Command, CommandV,
};
use crate::error::{ChromeMcpError, ErrorV};
use crate::json::{opt_str_view, Json, JsonV, NumberV};
use crate::text::{
    concat, concat3, contains, decimal, escape_quotes, escape_single_quotes, is_substring,
    i64_to_string, signed_decimal, str_eq, u64_to_string,
};
use vstd::prelude::*;
use vstd::string::*;

verus! {

/// How an element was found.
#[derive(Clone, Copy, Debug, PartialEq, Eq, Structural)]
pub enum ResolutionKind {
    /// By a structural selector, in the live document.
    Selector,
    /// By text or role, in the accessibility snapshot.
    Accessibility,
}

/// A located element, kept so that the same target need not be resolved twice.
#[derive(Clone, Debug, PartialEq)]
pub struct ElementRef {
    pub id: String,
    pub kind: ResolutionKind,
    pub selector: Option<String>,
    pub accessibility_id: Option<String>,
    pub bounds: Option<Bounds>,
    pub text: Option<String>,
    pub role: Option<String>,
}

/// The model of an [`ElementRef`].
pub struct ElementRefV {
    pub id: Seq<char>,
    pub kind: ResolutionKind,
    pub selector: Option<Seq<char>>,
    pub accessibility_id: Option<Seq<char>>,
    pub bounds: Option<BoundsV>,
    pub text: Option<Seq<char>>,
    pub role: Option<Seq<char>>,
}

impl View for ElementRef {
    type V = ElementRefV;

    open spec fn view(&self) -> ElementRefV {
        ElementRefV {
            id: self.id@,
            kind: self.kind,
            selector: opt_str_view(self.selector),
            accessibility_id: opt_str_view(self.accessibility_id),
            bounds: opt_bounds_view(self.bounds),
            text: opt_str_view(self.text),
            role: opt_str_view(self.role),
        }
    }
}

/// The element that a selector found as the document node `node_id`.
pub open spec fn selector_element(selector: Seq<char>, node_id: u64) -> ElementRefV {
    ElementRefV {
        id: "dom-"@ + decimal(node_id as nat),
        kind: ResolutionKind::Selector,
        selector: Some(selector),
        accessibility_id: None,
        bounds: None,
        text: None,
        role: None,
    }
}

/// The element that a node of the accessibility snapshot stands for.
pub open spec fn node_element(node: NodeV) -> ElementRefV {
    ElementRefV {
        id: "ax-"@ + node.node_id,
        kind: ResolutionKind::Accessibility,
        selector: None,
        accessibility_id: Some(node.node_id),
        bounds: node.bounds,
        text: node.name,
        role: node.role,
    }
}

/// First strategy: what the reply to `DOM.querySelectorAll` gives for
/// `selector`: the first node of `nodeIds`.
pub open spec fn selector_match(selector: Seq<char>, reply: JsonV) -> Result<ElementRefV, ErrorV> {
    match reply.get("nodeIds"@) {
        Some(JsonV::Array(ids)) => if ids.len() == 0 {
            Err(ErrorV::ElementNotFound("No elements found for selector: "@ + selector))
        } else {
            match ids[0].as_u64() {
                Some(n) => Ok(selector_element(selector, n)),
                None => Err(ErrorV::CdpProtocol("Invalid node ID"@)),
            }
        },
        _ => Err(ErrorV::ElementNotFound("No elements found for selector: "@ + selector)),
    }
}

/// Second strategy: the first clickable node, in document order, whose
/// name, description or value contains `text`.
pub open spec fn text_match(tree: NodeV, text: Seq<char>) -> Result<ElementRefV, ErrorV> {
    let found = search(tree, SearchKind::ClickableText, text);
    if found.len() > 0 {
        Ok(node_element(found[0]))
    } else {
        Err(ErrorV::ElementNotFound("No clickable element found with text: "@ + text))
    }
}

/// Third strategy: the first node, in document order, whose role contains `role`.
pub open spec fn role_match(tree: NodeV, role: Seq<char>) -> Result<ElementRefV, ErrorV> {
    let found = search(tree, SearchKind::Role, role);
    if found.len() > 0 {
        Ok(node_element(found[0]))
    } else {
        Err(ErrorV::ElementNotFound("No element found with role: "@ + role))
    }
}

/// The error of a target that no strategy finds.
pub open spec fn not_found(target: Seq<char>) -> ErrorV {
    ErrorV::ElementNotFound("Element not found: "@ + target)
}

/// What the snapshot gives for `target`: the match by text, else the match
/// by role, else the error that names the target.
pub open spec fn snapshot_match(tree: NodeV, target: Seq<char>) -> Result<ElementRefV, ErrorV> {
    match text_match(tree, target) {
        Ok(e) => Ok(e),
        Err(_) => match role_match(tree, target) {
            Ok(e) => Ok(e),
            Err(_) => Err(not_found(target)),
        },
    }
}

/// Whether an error says that the browser cannot be reached: the connection
/// is not open, or no reply came in time. Such an error is no answer to the
/// question whether an element is there.
pub open spec fn lost(e: ErrorV) -> bool {
    e is CdpConnection || e is Timeout
}

/// Whether an error says that the browser cannot be reached.
pub fn is_lost(e: &ChromeMcpError) -> (r: bool)
    ensures
        r == lost(e@),
{
    match e {
        ChromeMcpError::CdpConnection(_) => true,
        ChromeMcpError::Timeout { .. } => true,
        _ => false,
    }
}

/// The element that `target` resolves to, given what the selector strategy
/// gave and the snapshot, or why none could be had. The first strategy
/// that finds something decides, and later ones are not looked at. A
/// strategy that could not reach the browser ends the resolution with its
/// error; any other failure of a strategy counts as nothing found.
pub open spec fn resolve_spec(
    target: Seq<char>,
    by_selector: Result<ElementRefV, ErrorV>,
    tree: Result<NodeV, ErrorV>,
) -> Result<ElementRefV, ErrorV> {
    match by_selector {
        Ok(e) => Ok(e),
        Err(e) => if lost(e) {
            Err(e)
        } else {
            match tree {
                Ok(t) => snapshot_match(t, target),
                Err(e2) => if lost(e2) {
                    Err(e2)
                } else {
                    Err(not_found(target))
                },
            }
        },
    }
}

/// Strategy order: a target that a selector finds resolves to what the
/// selector found, whatever the snapshot holds under that text or role; and
/// a target found by text resolves to that, whatever role would match.
pub proof fn lemma_strategy_order(
    target: Seq<char>,
    by_selector: ElementRefV,
    tree: Result<NodeV, ErrorV>,
)
    ensures
        resolve_spec(target, Ok(by_selector), tree) == Ok::<ElementRefV, ErrorV>(by_selector),
        forall|t: NodeV| #[trigger]
            text_match(t, target) is Ok ==> resolve_spec(
                target,
                Err(not_found(target)),
                Ok(t),
            ) == text_match(t, target),
{
}

/// A resolution fails only where the selector finds nothing and the
/// browser was lost, or no snapshot could be had, or the snapshot holds no
/// match. The error is that of the strategy that lost the browser, where
/// one did, and else the error that names the target.
pub proof fn lemma_resolve_failure(
    target: Seq<char>,
    by_selector: Result<ElementRefV, ErrorV>,
    tree: Result<NodeV, ErrorV>,
)
    ensures
        resolve_spec(target, by_selector, tree) is Err <==> by_selector is Err && (lost(
            by_selector->Err_0,
        ) || tree is Err || (search(tree->Ok_0, SearchKind::ClickableText, target).len() == 0
            && search(tree->Ok_0, SearchKind::Role, target).len() == 0)),
        resolve_spec(target, by_selector, tree) is Err ==> resolve_spec(target, by_selector, tree)
            == Err::<ElementRefV, ErrorV>(
            if lost(by_selector->Err_0) {
                by_selector->Err_0
            } else if tree is Err && lost(tree->Err_0) {
                tree->Err_0
            } else {
                not_found(target)
            },
        ),
{
}

fn element_of_node(node: &AccessibilityNode) -> (r: ElementRef)
    ensures
        r@ == node_element(node@),
{
    ElementRef {
        id: concat("ax-", node.node_id.as_str()),
        kind: ResolutionKind::Accessibility,
        selector: None,
        accessibility_id: Some(node.node_id.clone()),
        bounds: match &node.bounds {
            Some(b) => Some(b.clone()),
            None => None,
        },
        text: match &node.name {
            Some(t) => Some(t.clone()),
            None => None,
        },
        role: match &node.role {
            Some(t) => Some(t.clone()),
            None => None,
        },
    }
}

/// First strategy: reads the reply to `DOM.querySelectorAll` for `selector`.
pub fn find_element_by_selector(selector: &str, reply: &Json) -> (r: Result<
    ElementRef,
    ChromeMcpError,
>)
    ensures
        match r {
            Ok(e) => selector_match(selector@, reply@) == Ok::<ElementRefV, ErrorV>(e@),
            Err(e) => selector_match(selector@, reply@) == Err::<ElementRefV, ErrorV>(e@),
        },
{
    let ids = match reply.get("nodeIds") {
        Some(v) => v.as_array(),
        None => None,
    };
    let ids = match ids {
        Some(ids) => ids,
        None => {
            return Err(
                ChromeMcpError::ElementNotFound(concat("No elements found for selector: ", selector)),
            );
        },
    };
    if ids.len() == 0 {
        return Err(
            ChromeMcpError::ElementNotFound(concat("No elements found for selector: ", selector)),
        );
    }
    match ids[0].as_u64() {
        Some(n) => Ok(
            ElementRef {
                id: concat("dom-", u64_to_string(n).as_str()),
                kind: ResolutionKind::Selector,
                selector: Some(String::from_str(selector)),
                accessibility_id: None,
                bounds: None,
                text: None,
                role: None,
            },
        ),
        None => Err(ChromeMcpError::cdp_protocol("Invalid node ID")),
    }
}

/// Second strategy: the first clickable node of the snapshot with `text`.
pub fn find_element_by_text(tree: &AccessibilityNode, text: &str) -> (r: Result<
    ElementRef,
    ChromeMcpError,
>)
    ensures
        match r {
            Ok(e) => text_match(tree@, text@) == Ok::<ElementRefV, ErrorV>(e@),
            Err(e) => text_match(tree@, text@) == Err::<ElementRefV, ErrorV>(e@),
        },
{
    let found = search_nodes(tree, SearchKind::ClickableText, text);
    if found.len() > 0 {
        assert(nodes_view(found@)[0] == found@[0]@);
        Ok(element_of_node(&found[0]))
    } else {
        Err(
            ChromeMcpError::ElementNotFound(
                concat("No clickable element found with text: ", text),
            ),
        )
    }
}

/// Third strategy: the first node of the snapshot whose role contains `role`.
pub fn find_element_by_role(tree: &AccessibilityNode, role: &str) -> (r: Result<
    ElementRef,
    ChromeMcpError,
>)
    ensures
        match r {
            Ok(e) => role_match(tree@, role@) == Ok::<ElementRefV, ErrorV>(e@),
            Err(e) => role_match(tree@, role@) == Err::<ElementRefV, ErrorV>(e@),
        },
{
    let found = search_nodes(tree, SearchKind::Role, role);
    if found.len() > 0 {
        assert(nodes_view(found@)[0] == found@[0]@);
        Ok(element_of_node(&found[0]))
    } else {
        Err(ChromeMcpError::ElementNotFound(concat("No element found with role: ", role)))
    }
}

/// What the snapshot gives for `target`: by text first, then by role.
pub fn find_in_snapshot(tree: &AccessibilityNode, target: &str) -> (r: Result<
    ElementRef,
    ChromeMcpError,
>)
    ensures
        match r {
            Ok(e) => snapshot_match(tree@, target@) == Ok::<ElementRefV, ErrorV>(e@),
            Err(e) => snapshot_match(tree@, target@) == Err::<ElementRefV, ErrorV>(e@),
        },
{
    match find_element_by_text(tree, target) {
        Ok(e) => Ok(e),
        Err(_) => match find_element_by_role(tree, target) {
            Ok(e) => Ok(e),
            Err(_) => Err(ChromeMcpError::ElementNotFound(concat("Element not found: ", target))),
        },
    }
}

/// The script that tells whether the element of `selector` is visible.
pub open spec fn visibility_expression(selector: Seq<char>) -> Seq<char> {
    "\n                const el = document.querySelector('"@
        + escape_quotes(selector)
        + "');\n                el && el.offsetParent !== null && \n                getComputedStyle(el).visibility !== 'hidden' && \n                getComputedStyle(el).display !== 'none'\n                "@
}

/// The script that tells whether the element of `selector` takes a click.
pub open spec fn clickable_expression(selector: Seq<char>) -> Seq<char> {
    "\n                const el = document.querySelector('"@
        + escape_quotes(selector)
        + "');\n                el && el.offsetParent !== null && \n                !el.disabled &&\n                getComputedStyle(el).pointerEvents !== 'none'\n                "@
}

/// The script that tells whether the page holds `text`.
pub open spec fn text_present_expression(text: Seq<char>) -> Seq<char> {
    "document.body.textContent.includes('"@ + escape_quotes(text) + "')"@
}

/// The script that clicks the element of `selector`.
pub open spec fn click_expression(selector: Seq<char>) -> Seq<char> {
    "document.querySelector('"@ + escape_quotes(selector) + "').click()"@
}

/// The script that scrolls the window by `x` and `y` pixels.
pub open spec fn scroll_by_expression(x: i32, y: i32) -> Seq<char> {
    "window.scrollBy("@ + signed_decimal(x as int) + ", "@ + signed_decimal(y as int) + ")"@
}

/// The script that scrolls the element of `selector` into view.
pub open spec fn scroll_into_view_expression(selector: Seq<char>) -> Seq<char> {
    "document.querySelector('"@ + escape_quotes(selector)
        + "').scrollIntoView({ behavior: 'smooth', block: 'center' })"@
}

/// The script that selects the option `value` in the element of `selector`.
pub open spec fn select_option_expression(selector: Seq<char>, value: Seq<char>) -> Seq<char> {
    "\n                const select = document.querySelector('"@
        + escape_quotes(selector)
        + "');\n                if (select) {\n                    select.value = '"@
        + escape_quotes(value)
        + "';\n                    select.dispatchEvent(new Event('change', { bubbles: true }));\n                } else {\n                    throw new Error('Select element not found');\n                }\n                "@
}

/// The script for `is_element_visible`.
pub fn element_visibility_script(selector: &str) -> (r: String)
    ensures
        r@ == visibility_expression(selector@),
{
    concat3(
        "\n                const el = document.querySelector('",
        escape_single_quotes(selector).as_str(),
        "');\n                el && el.offsetParent !== null && \n                getComputedStyle(el).visibility !== 'hidden' && \n                getComputedStyle(el).display !== 'none'\n                ",
    )
}

/// The script for `is_element_clickable`.
pub fn element_clickable_script(selector: &str) -> (r: String)
    ensures
        r@ == clickable_expression(selector@),
{
    concat3(
        "\n                const el = document.querySelector('",
        escape_single_quotes(selector).as_str(),
        "');\n                el && el.offsetParent !== null && \n                !el.disabled &&\n                getComputedStyle(el).pointerEvents !== 'none'\n                ",
    )
}

/// The script for `is_text_present`.
pub fn text_present_script(text: &str) -> (r: String)
    ensures
        r@ == text_present_expression(text@),
{
    concat3("document.body.textContent.includes('", escape_single_quotes(text).as_str(), "')")
}

/// The script that clicks the element of `selector`.
pub fn click_script(selector: &str) -> (r: String)
    ensures
        r@ == click_expression(selector@),
{
    concat3("document.querySelector('", escape_single_quotes(selector).as_str(), "').click()")
}

/// The script that scrolls the window by `x` and `y` pixels.
pub fn scroll_by_script(x: i32, y: i32) -> (r: String)
    ensures
        r@ == scroll_by_expression(x, y),
{
    let mut out = String::from_str("window.scrollBy(");
    out.append(i64_to_string(x as i64).as_str());
    out.append(", ");
    out.append(i64_to_string(y as i64).as_str());
    out.append(")");
    out
}

/// The script that scrolls the element of `selector` into view.
pub fn scroll_into_view_script(selector: &str) -> (r: String)
    ensures
        r@ == scroll_into_view_expression(selector@),
{
    concat3(
        "document.querySelector('",
        escape_single_quotes(selector).as_str(),
        "').scrollIntoView({ behavior: 'smooth', block: 'center' })",
    )
}

/// The script that selects the option `value` in the element of `selector`.
pub fn select_option_script(selector: &str, value: &str) -> (r: String)
    ensures
        r@ == select_option_expression(selector@, value@),
{
    let mut out = String::from_str(
        "\n                const select = document.querySelector('",
    );
    out.append(escape_single_quotes(selector).as_str());
    out.append("');\n                if (select) {\n                    select.value = '");
    out.append(escape_single_quotes(value).as_str());
    out.append("';\n                    select.dispatchEvent(new Event('change', { bubbles: true }));\n                } else {\n                    throw new Error('Select element not found');\n                }\n                ");
    out
}

/// The view of the outcome of a call.
pub open spec fn reply_view(reply: Result<Json, ChromeMcpError>) -> Result<JsonV, ErrorV> {
    match reply {
        Ok(value) => Ok(value@),
        Err(e) => Err(e@),
    }
}

/// Where a resolution stands: which reply it is waiting for.
#[derive(Clone, Copy, Debug, PartialEq, Eq, Structural)]
pub enum LocatorState {
    /// Waiting for the root of the document.
    Document,
    /// Waiting for the nodes that the selector finds.
    Query,
    /// Waiting for the accessibility snapshot.
    Snapshot,
    /// Over: the element was found, or no strategy found one.
    Done,
}

/// What a resolution asks for next, or what it ended with.
#[derive(Debug, PartialEq)]
pub enum LocatorStep {
    /// Make this call and hand its outcome to `advance`.
    Call(Command),
    Found(ElementRef),
    NotFound(ChromeMcpError),
}

/// The model of a [`LocatorStep`].
pub enum LocatorStepV {
    Call(CommandV),
    Found(ElementRefV),
    NotFound(ErrorV),
}

impl View for LocatorStep {
    type V = LocatorStepV;

    open spec fn view(&self) -> LocatorStepV {
        match self {
            LocatorStep::Call(c) => LocatorStepV::Call(c@),
            LocatorStep::Found(e) => LocatorStepV::Found(e@),
            LocatorStep::NotFound(e) => LocatorStepV::NotFound(e@),
        }
    }
}

/// The step that ends a resolution with `outcome`.
pub open spec fn final_step(outcome: Result<ElementRefV, ErrorV>) -> LocatorStepV {
    match outcome {
        Ok(e) => LocatorStepV::Found(e),
        Err(e) => LocatorStepV::NotFound(e),
    }
}

/// The step that turns to the snapshot once the selector found nothing:
/// the snapshot that is held decides; where none is held, it is asked for.
pub open spec fn turn_to_snapshot(target: Seq<char>, held: Option<NodeV>) -> (
    LocatorState,
    LocatorStepV,
) {
    match held {
        Some(tree) => (LocatorState::Done, final_step(snapshot_match(tree, target))),
        None => (
            LocatorState::Snapshot,
            LocatorStepV::Call(bare_command("Accessibility.getFullAXTree"@)),
        ),
    }
}

/// One step of a resolution: the next state, what to do, and the snapshot
/// that is held afterwards. A command that could not reach the browser
/// ends the resolution with its error; a command that fails otherwise
/// counts as a strategy that found nothing.
pub open spec fn locator_step(
    state: LocatorState,
    target: Seq<char>,
    reply: Result<JsonV, ErrorV>,
    held: Option<NodeV>,
) -> (LocatorState, LocatorStepV, Option<NodeV>) {
    if state is Done {
        (
            LocatorState::Done,
            LocatorStepV::NotFound(ErrorV::InvalidOperation("The resolution is over"@)),
            held,
        )
    } else if reply is Err && lost(reply->Err_0) {
        (LocatorState::Done, LocatorStepV::NotFound(reply->Err_0), held)
    } else {
        match state {
            LocatorState::Document => match reply {
                Ok(doc) => match document_root(doc) {
                    Ok(root) => (
                        LocatorState::Query,
                        LocatorStepV::Call(query_selector_all_spec(root, target)),
                        held,
                    ),
                    Err(_) => (
                        turn_to_snapshot(target, held).0,
                        turn_to_snapshot(target, held).1,
                        held,
                    ),
                },
                Err(_) => (turn_to_snapshot(target, held).0, turn_to_snapshot(target, held).1, held),
            },
            LocatorState::Query => match reply {
                Ok(nodes) => match selector_match(target, nodes) {
                    Ok(e) => (LocatorState::Done, LocatorStepV::Found(e), held),
                    Err(_) => (
                        turn_to_snapshot(target, held).0,
                        turn_to_snapshot(target, held).1,
                        held,
                    ),
                },
                Err(_) => (turn_to_snapshot(target, held).0, turn_to_snapshot(target, held).1, held),
            },
            _ => match reply {
                Ok(raw) => match crate::accessibility::parse_tree_spec(raw) {
                    Ok(tree) => (
                        LocatorState::Done,
                        final_step(snapshot_match(tree, target)),
                        Some(tree),
                    ),
                    Err(_) => (LocatorState::Done, LocatorStepV::NotFound(not_found(target)), held),
                },
                Err(_) => (LocatorState::Done, LocatorStepV::NotFound(not_found(target)), held),
            },
        }
    }
}

/// Strategy order, step by step: where the selector finds a node, the
/// resolution ends with that node, whatever snapshot is held; and where it
/// does not and a snapshot is held, the resolution ends as `resolve_spec` says.
pub proof fn lemma_locator_strategy_order(
    target: Seq<char>,
    nodes: JsonV,
    held: Option<NodeV>,
)
    ensures
        selector_match(target, nodes) is Ok ==> locator_step(
            LocatorState::Query,
            target,
            Ok(nodes),
            held,
        ) == (LocatorState::Done, LocatorStepV::Found(selector_match(target, nodes)->Ok_0), held),
        held is Some ==> locator_step(LocatorState::Query, target, Ok(nodes), held) == (
            LocatorState::Done,
            final_step(resolve_spec(target, selector_match(target, nodes), Ok(held->0))),
            held,
        ),
{
}

/// An error that says the browser cannot be reached is handed on as it is:
/// at whatever step it comes, the resolution ends with that error, and the
/// snapshot that is held stays.
pub proof fn lemma_locator_surfaces_lost_browser(
    state: LocatorState,
    target: Seq<char>,
    e: ErrorV,
    held: Option<NodeV>,
)
    requires
        !(state is Done),
        lost(e),
    ensures
        locator_step(state, target, Err(e), held) == (
            LocatorState::Done,
            LocatorStepV::NotFound(e),
            held,
        ),
{
}

/// What the selector strategy gave, over the replies to its two commands:
/// the first match, or the error of the command that failed or of the reply
/// that held no match.
pub open spec fn selector_outcome(
    target: Seq<char>,
    document: Result<JsonV, ErrorV>,
    nodes: Result<JsonV, ErrorV>,
) -> Result<ElementRefV, ErrorV> {
    match document {
        Ok(doc) => match document_root(doc) {
            Ok(_) => match nodes {
                Ok(found) => selector_match(target, found),
                Err(e) => Err(e),
            },
            Err(e) => Err(e),
        },
        Err(e) => Err(e),
    }
}

/// The snapshot that a resolution has to go by: the one that is held, else
/// the one that the reply to the snapshot command describes; or why there
/// is none.
pub open spec fn snapshot_outcome(held: Option<NodeV>, raw: Result<JsonV, ErrorV>) -> Result<
    NodeV,
    ErrorV,
> {
    match held {
        Some(tree) => Ok(tree),
        None => match raw {
            Ok(value) => crate::accessibility::parse_tree_spec(value),
            Err(e) => Err(e),
        },
    }
}

/// A resolution from its start to its end: the step after each reply that
/// the resolution asked for. It is over after three replies at most.
pub open spec fn locator_run(
    target: Seq<char>,
    document: Result<JsonV, ErrorV>,
    nodes: Result<JsonV, ErrorV>,
    raw: Result<JsonV, ErrorV>,
    held: Option<NodeV>,
) -> (LocatorState, LocatorStepV, Option<NodeV>) {
    let first = locator_step(LocatorState::Document, target, document, held);
    let second = if first.0 is Query {
        locator_step(first.0, target, nodes, first.2)
    } else {
        first
    };
    if second.0 is Snapshot {
        locator_step(second.0, target, raw, second.2)
    } else {
        second
    }
}

/// Whatever the browser replies, a resolution ends, and it ends with what
/// the order of the strategies asks for: the selector's match where there
/// is one, else what the snapshot gives, fetched only where the selector
/// found nothing and no snapshot was held; and with the error of the
/// command that could not reach the browser, where one could not.
pub proof fn lemma_locator_resolves(
    target: Seq<char>,
    document: Result<JsonV, ErrorV>,
    nodes: Result<JsonV, ErrorV>,
    raw: Result<JsonV, ErrorV>,
    held: Option<NodeV>,
)
    ensures
        locator_run(target, document, nodes, raw, held).0 == LocatorState::Done,
        locator_run(target, document, nodes, raw, held).1 == final_step(
            resolve_spec(
                target,
                selector_outcome(target, document, nodes),
                snapshot_outcome(held, raw),
            ),
        ),
        selector_outcome(target, document, nodes) is Ok ==> locator_run(
            target,
            document,
            nodes,
            raw,
            held,
        ).2 == held,
{
}

/// The resolution of one target: structural selector first, then text in
/// the accessibility snapshot, then role.
pub struct Locator {
    target: String,
    state: LocatorState,
}

impl Locator {
    /// The target that is being resolved.
    pub closed spec fn target(&self) -> Seq<char> {
        self.target@
    }

    /// Where the resolution stands.
    pub closed spec fn state(&self) -> LocatorState {
        self.state
    }

    /// Begins to resolve `target`: the first call asks for the root of the document.
    pub fn start(target: &str) -> (r: (Locator, Command))
        ensures
            r.0.target() == target@,
            r.0.state() == LocatorState::Document,
            r.1@ == bare_command("DOM.getDocument"@),
    {
        (
            Locator { target: String::from_str(target), state: LocatorState::Document },
            Command::get_document(),
        )
    }

    /// Whether the resolution is over.
    pub fn is_done(&self) -> (r: bool)
        ensures
            r == (self.state() == LocatorState::Done),
    {
        match self.state {
            LocatorState::Done => true,
            _ => false,
        }
    }

    fn from_snapshot(&mut self, accessibility: &AccessibilityManager) -> (r: LocatorStep)
        ensures
            final(self).target() == old(self).target(),
            (final(self).state(), r@) == turn_to_snapshot(old(self).target(), accessibility@),
    {
        match accessibility.cached_tree() {
            Some(tree) => {
                self.state = LocatorState::Done;
                match find_in_snapshot(tree, self.target.as_str()) {
                    Ok(e) => LocatorStep::Found(e),
                    Err(e) => LocatorStep::NotFound(e),
                }
            },
            None => {
                self.state = LocatorState::Snapshot;
                LocatorStep::Call(Command::get_accessibility_tree())
            },
        }
    }

    /// Takes the outcome of the last call and says what comes next. A
    /// snapshot that had to be fetched is held by `accessibility` afterwards.
    /// An outcome that says the browser cannot be reached ends the
    /// resolution with that error.
    pub fn advance(
        &mut self,
        reply: Result<Json, ChromeMcpError>,
        accessibility: &mut AccessibilityManager,
    ) -> (r: LocatorStep)
        ensures
            final(self).target() == old(self).target(),
            (final(self).state(), r@, final(accessibility)@) == locator_step(
                old(self).state(),
                old(self).target(),
                reply_view(reply),
                old(accessibility)@,
            ),
    {
        match self.state {
            LocatorState::Done => {
                return LocatorStep::NotFound(
                    ChromeMcpError::invalid_operation("The resolution is over"),
                );
            },
            _ => {},
        }
        let reply = match reply {
            Ok(value) => Ok(value),
            Err(e) => {
                if is_lost(&e) {
                    self.state = LocatorState::Done;
                    return LocatorStep::NotFound(e);
                }
                Err(e)
            },
        };
        match self.state {
            LocatorState::Document => {
                let root = match &reply {
                    Ok(doc) => match document_root_id(doc) {
                        Ok(root) => Some(root),
                        Err(_) => None,
                    },
                    Err(_) => None,
                };
                match root {
                    Some(root) => {
                        self.state = LocatorState::Query;
                        LocatorStep::Call(Command::query_selector_all(root, self.target.as_str()))
                    },
                    None => self.from_snapshot(accessibility),
                }
            },
            LocatorState::Query => {
                let found = match &reply {
                    Ok(nodes) => match find_element_by_selector(self.target.as_str(), nodes) {
                        Ok(e) => Some(e),
                        Err(_) => None,
                    },
                    Err(_) => None,
                };
                match found {
                    Some(e) => {
                        self.state = LocatorState::Done;
                        LocatorStep::Found(e)
                    },
                    None => self.from_snapshot(accessibility),
                }
            },
            _ => {
                self.state = LocatorState::Done;
                let tree = match &reply {
                    Ok(raw) => match accessibility.get_full_tree(raw) {
                        Ok(tree) => Some(tree),
                        Err(_) => None,
                    },
                    Err(_) => None,
                };
                match tree {
                    Some(tree) => match find_in_snapshot(&tree, self.target.as_str()) {
                        Ok(e) => LocatorStep::Found(e),
                        Err(e) => LocatorStep::NotFound(e),
                    },
                    None => LocatorStep::NotFound(
                        ChromeMcpError::ElementNotFound(
                            concat("Element not found: ", self.target.as_str()),
                        ),
                    ),
                }
            },
        }
    }
}

/// What a wait waits for.
#[derive(Clone, Debug, PartialEq)]
pub enum WaitCondition {
    /// A selector finds an element.
    ElementPresent(String),
    /// The element of a selector is visible.
    ElementVisible(String),
    /// The element of a selector takes a click.
    ElementClickable(String),
    /// The page holds a text.
    TextPresent(String),
    /// The address of the page contains a pattern.
    UrlMatches(String),
    /// The address of the page contains a text.
    UrlContains(String),
    /// The page has finished loading.
    PageLoad,
    /// A quiet period of so many milliseconds has passed.
    NetworkIdle(u64),
}

/// The model of a [`WaitCondition`].
pub enum WaitConditionV {
    ElementPresent(Seq<char>),
    ElementVisible(Seq<char>),
    ElementClickable(Seq<char>),
    TextPresent(Seq<char>),
    UrlMatches(Seq<char>),
    UrlContains(Seq<char>),
    PageLoad,
    NetworkIdle(u64),
}

impl View for WaitCondition {
    type V = WaitConditionV;

    open spec fn view(&self) -> WaitConditionV {
        match self {
            WaitCondition::ElementPresent(s) => WaitConditionV::ElementPresent(s@),
            WaitCondition::ElementVisible(s) => WaitConditionV::ElementVisible(s@),
            WaitCondition::ElementClickable(s) => WaitConditionV::ElementClickable(s@),
            WaitCondition::TextPresent(s) => WaitConditionV::TextPresent(s@),
            WaitCondition::UrlMatches(s) => WaitConditionV::UrlMatches(s@),
            WaitCondition::UrlContains(s) => WaitConditionV::UrlContains(s@),
            WaitCondition::PageLoad => WaitConditionV::PageLoad,
            WaitCondition::NetworkIdle(ms) => WaitConditionV::NetworkIdle(*ms),
        }
    }
}

/// The pause between two looks at a condition, in milliseconds.
pub const POLL_INTERVAL_MS: u64 = 100;

/// The truth value in a reply to `Runtime.evaluate`: `result.value` where
/// it is a boolean, else false.
pub open spec fn flag_value(reply: JsonV) -> bool {
    match reply.get2("result"@, "value"@) {
        Some(JsonV::Bool(b)) => b,
        _ => false,
    }
}

/// The text in a reply to `Runtime.evaluate`: `result.value` where it is a string.
pub open spec fn text_value(reply: JsonV) -> Option<Seq<char>> {
    match reply.get2("result"@, "value"@) {
        Some(JsonV::Str(s)) => Some(s),
        _ => None,
    }
}

/// The command that looks at a condition; a quiet period has none.
pub open spec fn probe_command(condition: WaitConditionV) -> Option<CommandV> {
    match condition {
        WaitConditionV::ElementPresent(_) => Some(bare_command("DOM.getDocument"@)),
        WaitConditionV::ElementVisible(s) => Some(evaluate_value_spec(visibility_expression(s))),
        WaitConditionV::ElementClickable(s) => Some(evaluate_value_spec(clickable_expression(s))),
        WaitConditionV::TextPresent(t) => Some(evaluate_value_spec(text_present_expression(t))),
        WaitConditionV::UrlMatches(_) => Some(evaluate_value_spec("window.location.href"@)),
        WaitConditionV::UrlContains(_) => Some(evaluate_value_spec("window.location.href"@)),
        WaitConditionV::PageLoad => Some(evaluate_value_spec("document.readyState"@)),
        WaitConditionV::NetworkIdle(_) => None,
    }
}

/// What one look at a condition says.
pub enum Verdict {
    /// The condition holds.
    Met,
    /// The condition does not hold yet.
    NotMet,
    /// The look takes one more command.
    Next(CommandV),
    /// The look failed; the wait ends with this error.
    Failed(ErrorV),
}

/// What the reply to the probe of a condition says. A selector that the
/// browser cannot look up is an element that is not present, unless the
/// browser could not be reached; any other probe that fails ends the wait
/// with its error.
pub open spec fn verdict(condition: WaitConditionV, second: bool, reply: Result<JsonV, ErrorV>) -> Verdict {
    match condition {
        WaitConditionV::ElementPresent(selector) => match reply {
            Ok(value) => if second {
                if selector_match(selector, value) is Ok {
                    Verdict::Met
                } else {
                    Verdict::NotMet
                }
            } else {
                match document_root(value) {
                    Ok(root) => Verdict::Next(query_selector_all_spec(root, selector)),
                    Err(_) => Verdict::NotMet,
                }
            },
            Err(e) => if lost(e) {
                Verdict::Failed(e)
            } else {
                Verdict::NotMet
            },
        },
        WaitConditionV::ElementVisible(_) | WaitConditionV::ElementClickable(_)
        | WaitConditionV::TextPresent(_) => match reply {
            Ok(value) => if flag_value(value) {
                Verdict::Met
            } else {
                Verdict::NotMet
            },
            Err(e) => Verdict::Failed(e),
        },
        WaitConditionV::UrlMatches(part) | WaitConditionV::UrlContains(part) => match reply {
            Ok(value) => match text_value(value) {
                Some(address) => if is_substring(part, address) {
                    Verdict::Met
                } else {
                    Verdict::NotMet
                },
                None => Verdict::Failed(ErrorV::CdpProtocol("Could not get current URL"@)),
            },
            Err(e) => Verdict::Failed(e),
        },
        WaitConditionV::PageLoad => match reply {
            Ok(value) => if text_value(value) == Some("complete"@) {
                Verdict::Met
            } else {
                Verdict::NotMet
            },
            Err(e) => Verdict::Failed(e),
        },
        WaitConditionV::NetworkIdle(_) => Verdict::Failed(
            ErrorV::InvalidOperation("A quiet period asks no question"@),
        ),
    }
}

/// Where a wait stands.
#[derive(Clone, Copy, Debug, PartialEq, Eq, Structural)]
pub enum WaitState {
    /// Polling: waiting for the reply to a probe.
    Probing,
    /// Polling: waiting for the reply to the second command of a probe.
    Querying,
    /// Polling: pausing between two probes.
    Sleeping,
    /// Polling: letting a quiet period pass.
    Idling,
    Satisfied,
    TimedOut,
    Failed,
}

/// What a wait asks for next, or how it ended.
#[derive(Debug, PartialEq)]
pub enum WaitStep {
    /// Make this call and hand its outcome to `on_reply`.
    Call(Command),
    /// Sleep so many milliseconds, then call `on_wake`.
    Sleep(u64),
    /// The condition holds.
    Satisfied,
    /// The deadline passed first.
    TimedOut(ChromeMcpError),
    /// A probe failed, or the wait was handed something it had not asked for.
    Failed(ChromeMcpError),
}

/// The model of a [`WaitStep`].
pub enum WaitStepV {
    Call(CommandV),
    Sleep(u64),
    Satisfied,
    TimedOut(ErrorV),
    Failed(ErrorV),
}

impl View for WaitStep {
    type V = WaitStepV;

    open spec fn view(&self) -> WaitStepV {
        match self {
            WaitStep::Call(c) => WaitStepV::Call(c@),
            WaitStep::Sleep(ms) => WaitStepV::Sleep(*ms),
            WaitStep::Satisfied => WaitStepV::Satisfied,
            WaitStep::TimedOut(e) => WaitStepV::TimedOut(e@),
            WaitStep::Failed(e) => WaitStepV::Failed(e@),
        }
    }
}

/// The smaller of two numbers.
pub open spec fn least(a: u64, b: u64) -> u64 {
    if a <= b {
        a
    } else {
        b
    }
}

/// The step that ends a wait at its deadline.
pub open spec fn timed_out(timeout_ms: u64) -> (WaitState, WaitStepV) {
    (WaitState::TimedOut, WaitStepV::TimedOut(ErrorV::Timeout { timeout: timeout_ms }))
}

/// The step for something the wait had not asked for.
pub open spec fn out_of_turn(state: WaitState) -> (WaitState, WaitStepV) {
    (state, WaitStepV::Failed(ErrorV::InvalidOperation("The wait did not ask for this"@)))
}

/// The first step of a wait, and each step that begins a new look: a quiet
/// period sleeps, up to the deadline; any other condition sends its probe.
pub open spec fn wait_look(condition: WaitConditionV, timeout_ms: u64, elapsed_ms: u64) -> (
    WaitState,
    WaitStepV,
) {
    match condition {
        WaitConditionV::NetworkIdle(quiet) => if elapsed_ms >= quiet {
            (WaitState::Satisfied, WaitStepV::Satisfied)
        } else {
            (
                WaitState::Idling,
                WaitStepV::Sleep(least((quiet - elapsed_ms) as u64, (timeout_ms - elapsed_ms) as u64)),
            )
        },
        _ => (WaitState::Probing, WaitStepV::Call(probe_command(condition)->0)),
    }
}

/// The step on the reply to a probe, `elapsed_ms` after the wait began: past
/// the deadline the wait times out; else a condition that holds satisfies
/// the wait at once, and one that does not yet hold is looked at again
/// after a pause that does not reach past the deadline.
pub open spec fn wait_on_reply(
    state: WaitState,
    condition: WaitConditionV,
    timeout_ms: u64,
    elapsed_ms: u64,
    reply: Result<JsonV, ErrorV>,
) -> (WaitState, WaitStepV) {
    if !(state is Probing || state is Querying) {
        out_of_turn(state)
    } else if elapsed_ms > timeout_ms {
        timed_out(timeout_ms)
    } else {
        match verdict(condition, state is Querying, reply) {
            Verdict::Met => (WaitState::Satisfied, WaitStepV::Satisfied),
            Verdict::NotMet => (
                WaitState::Sleeping,
                WaitStepV::Sleep(least(POLL_INTERVAL_MS, (timeout_ms - elapsed_ms) as u64)),
            ),
            Verdict::Next(command) => (WaitState::Querying, WaitStepV::Call(command)),
            Verdict::Failed(e) => (WaitState::Failed, WaitStepV::Failed(e)),
        }
    }
}

/// The step at the end of a sleep, `elapsed_ms` after the wait began.
pub open spec fn wait_on_wake(
    state: WaitState,
    condition: WaitConditionV,
    timeout_ms: u64,
    elapsed_ms: u64,
) -> (WaitState, WaitStepV) {
    match state {
        WaitState::Sleeping => if elapsed_ms >= timeout_ms {
            timed_out(timeout_ms)
        } else {
            wait_look(condition, timeout_ms, elapsed_ms)
        },
        WaitState::Idling => if elapsed_ms > timeout_ms {
            timed_out(timeout_ms)
        } else if condition matches WaitConditionV::NetworkIdle(quiet) && elapsed_ms >= quiet {
            (WaitState::Satisfied, WaitStepV::Satisfied)
        } else if elapsed_ms == timeout_ms {
            timed_out(timeout_ms)
        } else {
            wait_look(condition, timeout_ms, elapsed_ms)
        },
        _ => out_of_turn(state),
    }
}

/// Whether a wait is still polling.
pub open spec fn polling(state: WaitState) -> bool {
    state is Probing || state is Querying || state is Sleeping || state is Idling
}

/// Wait early-exit: a wait that is told, before its deadline has passed,
/// that its condition holds is satisfied at once, however much of the
/// deadline is left.
pub proof fn lemma_wait_early_exit(
    state: WaitState,
    condition: WaitConditionV,
    timeout_ms: u64,
    elapsed_ms: u64,
    reply: Result<JsonV, ErrorV>,
)
    requires
        state is Probing || state is Querying,
        elapsed_ms <= timeout_ms,
        verdict(condition, state is Querying, reply) is Met,
    ensures
        wait_on_reply(state, condition, timeout_ms, elapsed_ms, reply) == (
            WaitState::Satisfied,
            WaitStepV::Satisfied,
        ),
{
}

/// A wait for a visible element is satisfied by the first reply that says
/// the element is visible.
pub proof fn lemma_visible_element_satisfies(
    selector: Seq<char>,
    timeout_ms: u64,
    elapsed_ms: u64,
    reply: JsonV,
)
    requires
        elapsed_ms <= timeout_ms,
        flag_value(reply),
    ensures
        wait_on_reply(
            WaitState::Probing,
            WaitConditionV::ElementVisible(selector),
            timeout_ms,
            elapsed_ms,
            Ok(reply),
        ) == (WaitState::Satisfied, WaitStepV::Satisfied),
{
}

/// Success and timeout exclude each other: a wait is satisfied only by a
/// look that found the condition to hold, or by a quiet period that has
/// passed, and in either case no later than the deadline; after the
/// deadline it can only time out.
pub proof fn lemma_wait_satisfied_in_time(
    state: WaitState,
    condition: WaitConditionV,
    timeout_ms: u64,
    elapsed_ms: u64,
    reply: Result<JsonV, ErrorV>,
)
    requires
        polling(state),
    ensures
        wait_on_reply(state, condition, timeout_ms, elapsed_ms, reply).0 is Satisfied ==> {
            &&& state is Probing || state is Querying
            &&& elapsed_ms <= timeout_ms
            &&& verdict(condition, state is Querying, reply) is Met
        },
        state is Sleeping || state is Idling ==> (wait_on_wake(
            state,
            condition,
            timeout_ms,
            elapsed_ms,
        ).0 is Satisfied ==> {
            &&& condition matches WaitConditionV::NetworkIdle(quiet)
            &&& quiet <= elapsed_ms
            &&& elapsed_ms <= timeout_ms
        }),
{
}

/// No sleep reaches past the deadline, and no event after the deadline
/// leaves the wait polling.
pub proof fn lemma_wait_respects_deadline(
    state: WaitState,
    condition: WaitConditionV,
    timeout_ms: u64,
    elapsed_ms: u64,
    reply: Result<JsonV, ErrorV>,
)
    requires
        polling(state),
    ensures
        wait_on_reply(state, condition, timeout_ms, elapsed_ms, reply).1 matches WaitStepV::Sleep(ms)
            ==> elapsed_ms + ms <= timeout_ms,
        wait_on_wake(state, condition, timeout_ms, elapsed_ms).1 matches WaitStepV::Sleep(ms)
            ==> elapsed_ms + ms <= timeout_ms,
        elapsed_ms > timeout_ms && (state is Probing || state is Querying) ==> wait_on_reply(
            state,
            condition,
            timeout_ms,
            elapsed_ms,
            reply,
        ) == timed_out(timeout_ms),
        elapsed_ms > timeout_ms && (state is Sleeping || state is Idling) ==> wait_on_wake(
            state,
            condition,
            timeout_ms,
            elapsed_ms,
        ) == timed_out(timeout_ms),
{
}

/// Reads the truth value out of a reply to `Runtime.evaluate`.
pub fn flag_result(reply: &Json) -> (r: bool)
    ensures
        r == flag_value(reply@),
{
    let found = match reply.get("result") {
        Some(inner) => match inner.get("value") {
            Some(v) => v.as_bool(),
            None => None,
        },
        None => None,
    };
    match found {
        Some(b) => b,
        None => false,
    }
}

/// Reads the text out of a reply to `Runtime.evaluate`.
pub fn text_result(reply: &Json) -> (r: Option<String>)
    ensures
        opt_str_view(r) == text_value(reply@),
{
    let found = match reply.get("result") {
        Some(inner) => match inner.get("value") {
            Some(v) => v.as_str(),
            None => None,
        },
        None => None,
    };
    match found {
        Some(s) => Some(String::from_str(s)),
        None => None,
    }
}

/// The command that looks at a condition; a quiet period has none.
pub fn probe(condition: &WaitCondition) -> (r: Option<Command>)
    ensures
        match r {
            Some(c) => probe_command(condition@) == Some(c@),
            None => probe_command(condition@) is None,
        },
{
    match condition {
        WaitCondition::ElementPresent(_) => Some(Command::get_document()),
        WaitCondition::ElementVisible(s) => Some(
            Command::evaluate_value(element_visibility_script(s.as_str()).as_str()),
        ),
        WaitCondition::ElementClickable(s) => Some(
            Command::evaluate_value(element_clickable_script(s.as_str()).as_str()),
        ),
        WaitCondition::TextPresent(t) => Some(
            Command::evaluate_value(text_present_script(t.as_str()).as_str()),
        ),
        WaitCondition::UrlMatches(_) => Some(Command::evaluate_value("window.location.href")),
        WaitCondition::UrlContains(_) => Some(Command::evaluate_value("window.location.href")),
        WaitCondition::PageLoad => Some(Command::evaluate_value("document.readyState")),
        WaitCondition::NetworkIdle(_) => None,
    }
}

/// What one look at a condition says, as it is computed.
pub enum Look {
    Met,
    NotMet,
    Next(Command),
    Failed(ChromeMcpError),
}

impl View for Look {
    type V = Verdict;

    open spec fn view(&self) -> Verdict {
        match self {
            Look::Met => Verdict::Met,
            Look::NotMet => Verdict::NotMet,
            Look::Next(c) => Verdict::Next(c@),
            Look::Failed(e) => Verdict::Failed(e@),
        }
    }
}

fn met_if(b: bool) -> (r: Look)
    ensures
        r@ == if b {
            Verdict::Met
        } else {
            Verdict::NotMet
        },
{
    if b {
        Look::Met
    } else {
        Look::NotMet
    }
}

fn judge(condition: &WaitCondition, second: bool, reply: Result<Json, ChromeMcpError>) -> (r: Look)
    ensures
        r@ == verdict(condition@, second, reply_view(reply)),
{
    match condition {
        WaitCondition::ElementPresent(selector) => match reply {
            Ok(value) => if second {
                match find_element_by_selector(selector.as_str(), &value) {
                    Ok(_) => Look::Met,
                    Err(_) => Look::NotMet,
                }
            } else {
                match document_root_id(&value) {
                    Ok(root) => Look::Next(Command::query_selector_all(root, selector.as_str())),
                    Err(_) => Look::NotMet,
                }
            },
            Err(e) => if is_lost(&e) {
                Look::Failed(e)
            } else {
                Look::NotMet
            },
        },
        WaitCondition::ElementVisible(_) | WaitCondition::ElementClickable(_)
        | WaitCondition::TextPresent(_) => match reply {
            Ok(value) => met_if(flag_result(&value)),
            Err(e) => Look::Failed(e),
        },
        WaitCondition::UrlMatches(part) | WaitCondition::UrlContains(part) => match reply {
            Ok(value) => match text_result(&value) {
                Some(address) => met_if(contains(address.as_str(), part.as_str())),
                None => Look::Failed(ChromeMcpError::cdp_protocol("Could not get current URL")),
            },
            Err(e) => Look::Failed(e),
        },
        WaitCondition::PageLoad => match reply {
            Ok(value) => match text_result(&value) {
                Some(state) => met_if(str_eq(state.as_str(), "complete")),
                None => Look::NotMet,
            },
            Err(e) => Look::Failed(e),
        },
        WaitCondition::NetworkIdle(_) => Look::Failed(
            ChromeMcpError::invalid_operation("A quiet period asks no question"),
        ),
    }
}

fn smaller(a: u64, b: u64) -> (r: u64)
    ensures
        r == least(a, b),
{
    if a <= b {
        a
    } else {
        b
    }
}

/// One wait for a condition under a deadline, both in milliseconds since
/// the wait began. The caller keeps the clock: it performs each step and
/// reports back with the time that has passed.
pub struct Wait {
    condition: WaitCondition,
    timeout_ms: u64,
    state: WaitState,
}

impl Wait {
    /// The condition that is waited for.
    pub closed spec fn condition(&self) -> WaitConditionV {
        self.condition@
    }

    /// The deadline.
    pub closed spec fn timeout_ms(&self) -> u64 {
        self.timeout_ms
    }

    /// Where the wait stands.
    pub closed spec fn state(&self) -> WaitState {
        self.state
    }

    /// Begins a wait and says what its first step is.
    pub fn start(condition: WaitCondition, timeout_ms: u64) -> (r: (Wait, WaitStep))
        ensures
            r.0.condition() == condition@,
            r.0.timeout_ms() == timeout_ms,
            (r.0.state(), r.1@) == wait_look(condition@, timeout_ms, 0),
    {
        let mut wait = Wait { condition, timeout_ms, state: WaitState::Probing };
        let step = wait.look(0);
        (wait, step)
    }

    /// Where the wait stands.
    pub fn current_state(&self) -> (r: WaitState)
        ensures
            r == self.state(),
    {
        self.state
    }

    fn look(&mut self, elapsed_ms: u64) -> (r: WaitStep)
        requires
            elapsed_ms <= old(self).timeout_ms(),
        ensures
            final(self).condition() == old(self).condition(),
            final(self).timeout_ms() == old(self).timeout_ms(),
            (final(self).state(), r@) == wait_look(
                old(self).condition(),
                old(self).timeout_ms(),
                elapsed_ms,
            ),
    {
        match probe(&self.condition) {
            Some(command) => {
                self.state = WaitState::Probing;
                WaitStep::Call(command)
            },
            None => {
                let quiet = match &self.condition {
                    WaitCondition::NetworkIdle(ms) => *ms,
                    _ => 0,
                };
                if elapsed_ms >= quiet {
                    self.state = WaitState::Satisfied;
                    WaitStep::Satisfied
                } else {
                    self.state = WaitState::Idling;
                    WaitStep::Sleep(smaller(quiet - elapsed_ms, self.timeout_ms - elapsed_ms))
                }
            },
        }
    }

    fn time_out(&mut self) -> (r: WaitStep)
        ensures
            final(self).condition() == old(self).condition(),
            final(self).timeout_ms() == old(self).timeout_ms(),
            (final(self).state(), r@) == timed_out(old(self).timeout_ms()),
    {
        self.state = WaitState::TimedOut;
        WaitStep::TimedOut(ChromeMcpError::Timeout { timeout: self.timeout_ms })
    }

    /// Takes the outcome of the probe that was asked for, `elapsed_ms`
    /// after the wait began.
    pub fn on_reply(&mut self, elapsed_ms: u64, reply: Result<Json, ChromeMcpError>) -> (r:
        WaitStep)
        ensures
            final(self).condition() == old(self).condition(),
            final(self).timeout_ms() == old(self).timeout_ms(),
            (final(self).state(), r@) == wait_on_reply(
                old(self).state(),
                old(self).condition(),
                old(self).timeout_ms(),
                elapsed_ms,
                reply_view(reply),
            ),
    {
        let second = match self.state {
            WaitState::Probing => false,
            WaitState::Querying => true,
            _ => {
                return WaitStep::Failed(
                    ChromeMcpError::invalid_operation("The wait did not ask for this"),
                );
            },
        };
        if elapsed_ms > self.timeout_ms {
            return self.time_out();
        }
        match judge(&self.condition, second, reply) {
            Look::Met => {
                self.state = WaitState::Satisfied;
                WaitStep::Satisfied
            },
            Look::NotMet => {
                self.state = WaitState::Sleeping;
                WaitStep::Sleep(smaller(POLL_INTERVAL_MS, self.timeout_ms - elapsed_ms))
            },
            Look::Next(command) => {
                self.state = WaitState::Querying;
                WaitStep::Call(command)
            },
            Look::Failed(e) => {
                self.state = WaitState::Failed;
                WaitStep::Failed(e)
            },
        }
    }

    /// Takes the end of the sleep that was asked for, `elapsed_ms` after
    /// the wait began.
    pub fn on_wake(&mut self, elapsed_ms: u64) -> (r: WaitStep)
        ensures
            final(self).condition() == old(self).condition(),
            final(self).timeout_ms() == old(self).timeout_ms(),
            (final(self).state(), r@) == wait_on_wake(
                old(self).state(),
                old(self).condition(),
                old(self).timeout_ms(),
                elapsed_ms,
            ),
    {
        match self.state {
            WaitState::Sleeping => if elapsed_ms >= self.timeout_ms {
                self.time_out()
            } else {
                self.look(elapsed_ms)
            },
            WaitState::Idling => {
                if elapsed_ms > self.timeout_ms {
                    return self.time_out();
                }
                let done = match &self.condition {
                    WaitCondition::NetworkIdle(quiet) => elapsed_ms >= *quiet,
                    _ => false,
                };
                if done {
                    self.state = WaitState::Satisfied;
                    WaitStep::Satisfied
                } else if elapsed_ms == self.timeout_ms {
                    self.time_out()
                } else {
                    self.look(elapsed_ms)
                }
            },
            _ => WaitStep::Failed(ChromeMcpError::invalid_operation("The wait did not ask for this")),
        }
    }

    /// Takes the passing of the deadline while a step was under way: a wait
    /// that is still polling times out; one that is over stays as it is.
    pub fn on_deadline(&mut self) -> (r: WaitStep)
        ensures
            final(self).condition() == old(self).condition(),
            final(self).timeout_ms() == old(self).timeout_ms(),
            (final(self).state(), r@) == if polling(old(self).state()) {
                timed_out(old(self).timeout_ms())
            } else {
                out_of_turn(old(self).state())
            },
    {
        match self.state {
            WaitState::Probing | WaitState::Querying | WaitState::Sleeping | WaitState::Idling => {
                self.time_out()
            },
            _ => WaitStep::Failed(ChromeMcpError::invalid_operation("The wait did not ask for this")),
        }
    }
}

/// How to click a located element.
#[derive(Debug, PartialEq)]
pub enum ClickPlan {
    /// Press and release the left button at the centre of these bounds.
    Center(Bounds),
    /// Run this script, which clicks the element of the selector.
    Script(Command),
}

/// The model of a [`ClickPlan`].
pub enum ClickPlanV {
    Center(BoundsV),
    Script(CommandV),
}

impl View for ClickPlan {
    type V = ClickPlanV;

    open spec fn view(&self) -> ClickPlanV {
        match self {
            ClickPlan::Center(b) => ClickPlanV::Center(b@),
            ClickPlan::Script(c) => ClickPlanV::Script(c@),
        }
    }
}

/// How an element is clicked: at the centre of its bounds where it has
/// bounds, else by script through its selector; an element with neither
/// cannot be clicked.
pub open spec fn click_plan(element: ElementRefV) -> Result<ClickPlanV, ErrorV> {
    match element.bounds {
        Some(b) => Ok(ClickPlanV::Center(b)),
        None => match element.selector {
            Some(selector) => Ok(ClickPlanV::Script(run_script_spec(click_expression(selector)))),
            None => Err(ErrorV::InvalidOperation("Cannot click element: no bounds or selector"@)),
        },
    }
}

/// Decides how to click a located element.
pub fn click_element_ref(element: &ElementRef) -> (r: Result<ClickPlan, ChromeMcpError>)
    ensures
        match r {
            Ok(plan) => click_plan(element@) == Ok::<ClickPlanV, ErrorV>(plan@),
            Err(e) => click_plan(element@) == Err::<ClickPlanV, ErrorV>(e@),
        },
{
    match &element.bounds {
        Some(b) => Ok(ClickPlan::Center(b.clone())),
        None => match &element.selector {
            Some(selector) => Ok(
                ClickPlan::Script(Command::run_script(click_script(selector.as_str()).as_str())),
            ),
            None => Err(
                ChromeMcpError::invalid_operation("Cannot click element: no bounds or selector"),
            ),
        },
    }
}

/// `Input.dispatchMouseEvent` that moves the pointer to a point.
pub open spec fn mouse_move_spec(x: NumberV, y: NumberV) -> CommandV {
    crate::cdp::command_with(
        "Input.dispatchMouseEvent"@,
        seq![("type"@, JsonV::Str("mouseMoved"@)), ("x"@, JsonV::Num(x)), ("y"@, JsonV::Num(y))],
    )
}

/// The command that moves the pointer to a point, for hovering.
pub fn mouse_move(x: &serde_json::Number, y: &serde_json::Number) -> (r: Command)
    ensures
        r@ == mouse_move_spec(crate::json::number_model(*x), crate::json::number_model(*y)),
{
    let mut members = crate::json::no_members();
    crate::json::push_member(&mut members, "type", Json::string("mouseMoved"));
    crate::json::push_member(&mut members, "x", Json::Num(x.clone()));
    crate::json::push_member(&mut members, "y", Json::Num(y.clone()));
    assert(crate::json::members_view(members@) =~= mouse_move_spec(
        crate::json::number_model(*x),
        crate::json::number_model(*y),
    ).params->0->Object_0);
    Command::with_params("Input.dispatchMouseEvent", members)
}

/// The command that scrolls the window by `x` and `y` pixels.
pub fn scroll(x: i32, y: i32) -> (r: Command)
    ensures
        r@ == run_script_spec(scroll_by_expression(x, y)),
{
    Command::run_script(scroll_by_script(x, y).as_str())
}

/// The command that scrolls the element of `selector` into view.
pub fn scroll_to_element(selector: &str) -> (r: Command)
    ensures
        r@ == run_script_spec(scroll_into_view_expression(selector@)),
{
    Command::run_script(scroll_into_view_script(selector).as_str())
}

/// The command that selects the option `option_value` in the element of `selector`.
pub fn select_option(selector: &str, option_value: &str) -> (r: Command)
    ensures
        r@ == run_script_spec(select_option_expression(selector@, option_value@)),
{
    Command::run_script(select_option_script(selector, option_value).as_str())
}

/// The command that asks whether the element of `selector` is visible.
pub fn is_element_visible(selector: &str) -> (r: Command)
    ensures
        r@ == evaluate_value_spec(visibility_expression(selector@)),
{
    Command::evaluate_value(element_visibility_script(selector).as_str())
}

/// The command that asks whether the element of `selector` takes a click.
pub fn is_element_clickable(selector: &str) -> (r: Command)
    ensures
        r@ == evaluate_value_spec(clickable_expression(selector@)),
{
    Command::evaluate_value(element_clickable_script(selector).as_str())
}

/// The command that asks whether the page holds `text`.
pub fn is_text_present(text: &str) -> (r: Command)
    ensures
        r@ == evaluate_value_spec(text_present_expression(text@)),
{
    Command::evaluate_value(text_present_script(text).as_str())
}

/// The text of a reply to `Runtime.evaluate`, or the error `what` where it holds none.
pub open spec fn text_outcome(reply: JsonV, what: Seq<char>) -> Result<Seq<char>, ErrorV> {
    match text_value(reply) {
        Some(s) => Ok(s),
        None => Err(ErrorV::CdpProtocol(what)),
    }
}

/// The command that asks for the address of the page.
pub fn current_url() -> (r: Command)
    ensures
        r@ == evaluate_value_spec("window.location.href"@),
{
    Command::evaluate_value("window.location.href")
}

/// Reads the address of the page out of the reply to `current_url`.
pub fn current_url_result(reply: &Json) -> (r: Result<String, ChromeMcpError>)
    ensures
        match r {
            Ok(s) => text_outcome(reply@, "Could not get current URL"@) == Ok::<Seq<char>, ErrorV>(
                s@,
            ),
            Err(e) => text_outcome(reply@, "Could not get current URL"@) == Err::<
                Seq<char>,
                ErrorV,
            >(e@),
        },
{
    match text_result(reply) {
        Some(s) => Ok(s),
        None => Err(ChromeMcpError::cdp_protocol("Could not get current URL")),
    }
}

/// The command that asks for the title of the page.
pub fn page_title() -> (r: Command)
    ensures
        r@ == evaluate_value_spec("document.title"@),
{
    Command::evaluate_value("document.title")
}

/// Reads the title of the page out of the reply to `page_title`.
pub fn page_title_result(reply: &Json) -> (r: Result<String, ChromeMcpError>)
    ensures
        match r {
            Ok(s) => text_outcome(reply@, "Could not get page title"@) == Ok::<Seq<char>, ErrorV>(
                s@,
            ),
            Err(e) => text_outcome(reply@, "Could not get page title"@) == Err::<Seq<char>, ErrorV>(
                e@,
            ),
        },
{
    match text_result(reply) {
        Some(s) => Ok(s),
        None => Err(ChromeMcpError::cdp_protocol("Could not get page title")),
    }
}

/// Which tab a connection goes to.
#[derive(Debug, PartialEq)]
pub enum TabChoice {
    /// The tab of this id.
    Use(String),
    /// A new tab, to be created first.
    Create,
}

/// The tab to connect to: the one asked for; else the first of the list;
/// else, where there is none, a new one.
pub open spec fn tab_choice(requested: Option<Seq<char>>, tabs: Seq<crate::cdp::TabInfoV>) -> Option<
    Seq<char>,
> {
    match requested {
        Some(id) => Some(id),
        None => if tabs.len() > 0 {
            Some(tabs[0].id)
        } else {
            None
        },
    }
}

/// Chooses the tab to connect to.
pub fn choose_tab(requested: Option<&str>, tabs: &Vec<crate::cdp::TabInfo>) -> (r: TabChoice)
    ensures
        match r {
            TabChoice::Use(id) => tab_choice(
                match requested {
                    Some(t) => Some(t@),
                    None => None,
                },
                crate::cdp::tabs_view(tabs@),
            ) == Some(id@),
            TabChoice::Create => tab_choice(
                match requested {
                    Some(t) => Some(t@),
                    None => None,
                },
                crate::cdp::tabs_view(tabs@),
            ) is None,
        },
{
    match requested {
        Some(id) => TabChoice::Use(String::from_str(id)),
        None => if tabs.len() > 0 {
            TabChoice::Use(tabs[0].id.clone())
        } else {
            TabChoice::Create
        },
    }
}

/// The views of a list of elements.
pub open spec fn elements_view(items: Seq<ElementRef>) -> Seq<ElementRefV> {
    Seq::new(items.len(), |i: int| items[i]@)
}

/// One element if the strategy found one, none if it did not.
pub open spec fn found_one(outcome: Result<ElementRefV, ErrorV>) -> Seq<ElementRefV> {
    match outcome {
        Ok(e) => seq![e],
        Err(_) => Seq::empty(),
    }
}

/// What every strategy finds for `query`, in the order of the strategies.
pub open spec fn all_matches(
    query: Seq<char>,
    by_selector: Result<ElementRefV, ErrorV>,
    tree: Option<NodeV>,
) -> Seq<ElementRefV> {
    found_one(by_selector) + match tree {
        Some(t) => found_one(text_match(t, query)) + found_one(role_match(t, query)),
        None => Seq::empty(),
    }
}

/// The elements that the strategies find for `query`, each strategy
/// giving its first match; an error where none finds anything.
pub fn find_elements(
    query: &str,
    by_selector: Result<ElementRef, ChromeMcpError>,
    tree: Option<&AccessibilityNode>,
) -> (r: Result<Vec<ElementRef>, ChromeMcpError>)
    ensures
        match r {
            Ok(found) => found@.len() > 0 && elements_view(found@) == all_matches(
                query@,
                match by_selector {
                    Ok(e) => Ok(e@),
                    Err(e) => Err(e@),
                },
                match tree {
                    Some(t) => Some(t@),
                    None => None,
                },
            ),
            Err(e) => e@ == ErrorV::ElementNotFound("No elements found for: "@ + query@)
                && all_matches(
                query@,
                match by_selector {
                    Ok(e) => Ok(e@),
                    Err(e) => Err(e@),
                },
                match tree {
                    Some(t) => Some(t@),
                    None => None,
                },
            ).len() == 0,
        },
{
    let mut results: Vec<ElementRef> = Vec::new();
    match by_selector {
        Ok(e) => {
            results.push(e);
        },
        Err(_) => {},
    }
    match tree {
        Some(t) => {
            match find_element_by_text(t, query) {
                Ok(e) => {
                    results.push(e);
                },
                Err(_) => {},
            }
            match find_element_by_role(t, query) {
                Ok(e) => {
                    results.push(e);
                },
                Err(_) => {},
            }
        },
        None => {},
    }
    proof {
        assert(elements_view(results@) =~= all_matches(
            query@,
            match by_selector {
                Ok(e) => Ok(e@),
                Err(e) => Err(e@),
            },
            match tree {
                Some(t) => Some(t@),
                None => None,
            },
        ));
    }
    if results.len() == 0 {
        return Err(ChromeMcpError::ElementNotFound(concat("No elements found for: ", query)));
    }
    Ok(results)
}

/// One cookie of the browser.
#[derive(Clone, Debug, PartialEq)]
pub struct Cookie {
    pub name: String,
    pub value: String,
    pub domain: String,
    pub path: String,
    pub secure: bool,
    pub http_only: bool,
    pub same_site: Option<String>,
    pub expires: Option<serde_json::Number>,
}

/// The model of a [`Cookie`].
pub struct CookieV {
    pub name: Seq<char>,
    pub value: Seq<char>,
    pub domain: Seq<char>,
    pub path: Seq<char>,
    pub secure: bool,
    pub http_only: bool,
    pub same_site: Option<Seq<char>>,
    pub expires: Option<NumberV>,
}

impl View for Cookie {
    type V = CookieV;

    open spec fn view(&self) -> CookieV {
        CookieV {
            name: self.name@,
            value: self.value@,
            domain: self.domain@,
            path: self.path@,
            secure: self.secure,
            http_only: self.http_only,
            same_site: opt_str_view(self.same_site),
            expires: match self.expires {
                Some(n) => Some(crate::json::number_model(n)),
                None => None,
            },
        }
    }
}

/// The views of a list of cookies.
pub open spec fn cookies_view(items: Seq<Cookie>) -> Seq<CookieV> {
    Seq::new(items.len(), |i: int| items[i]@)
}

/// The text under `key`, where that is a string.
pub open spec fn member_text(j: JsonV, key: Seq<char>) -> Option<Seq<char>> {
    match j.get(key) {
        Some(JsonV::Str(s)) => Some(s),
        _ => None,
    }
}

/// The flag under `key`: absent where there is no such member, false where
/// the member is no boolean.
pub open spec fn member_flag(j: JsonV, key: Seq<char>) -> Option<bool> {
    match j.get(key) {
        Some(JsonV::Bool(b)) => Some(b),
        Some(_) => Some(false),
        None => None,
    }
}

/// Reads one cookie. `name`, `value`, `domain` and `path` must be texts
/// and `secure` and `httpOnly` must be there; else the item is no cookie.
pub open spec fn decode_cookie(j: JsonV) -> Option<CookieV> {
    if member_text(j, "name"@) is None || member_text(j, "value"@) is None || member_text(
        j,
        "domain"@,
    ) is None || member_text(j, "path"@) is None || member_flag(j, "secure"@) is None
        || member_flag(j, "httpOnly"@) is None {
        None
    } else {
        Some(
            CookieV {
                name: member_text(j, "name"@)->0,
                value: member_text(j, "value"@)->0,
                domain: member_text(j, "domain"@)->0,
                path: member_text(j, "path"@)->0,
                secure: member_flag(j, "secure"@)->0,
                http_only: member_flag(j, "httpOnly"@)->0,
                same_site: member_text(j, "sameSite"@),
                expires: match j.get("expires"@) {
                    Some(JsonV::Num(n)) => Some(n),
                    _ => None,
                },
            },
        )
    }
}

/// The cookies among `items`, in their order; items that are no cookies are passed over.
pub open spec fn decode_cookies(items: Seq<JsonV>) -> Seq<CookieV>
    decreases items.len(),
{
    if items.len() == 0 {
        Seq::empty()
    } else {
        decode_cookies(items.drop_last()) + match decode_cookie(items.last()) {
            Some(c) => seq![c],
            None => Seq::empty(),
        }
    }
}

/// The cookies in a reply to `Network.getCookies`.
pub open spec fn cookies_outcome(reply: JsonV) -> Result<Seq<CookieV>, ErrorV> {
    match reply.get("cookies"@) {
        Some(JsonV::Array(items)) => Ok(decode_cookies(items)),
        _ => Err(ErrorV::Network("Invalid cookies response"@)),
    }
}

/// `Network.setCookie` for a cookie.
pub open spec fn set_cookie_spec(cookie: CookieV) -> CommandV {
    crate::cdp::command_with(
        "Network.setCookie"@,
        seq![
            ("name"@, JsonV::Str(cookie.name)),
            ("value"@, JsonV::Str(cookie.value)),
            ("domain"@, JsonV::Str(cookie.domain)),
            ("path"@, JsonV::Str(cookie.path)),
            ("secure"@, JsonV::Bool(cookie.secure)),
            ("httpOnly"@, JsonV::Bool(cookie.http_only)),
        ] + crate::frame::opt_member(
            "sameSite"@,
            match cookie.same_site {
                Some(s) => Some(JsonV::Str(s)),
                None => None,
            },
        ) + crate::frame::opt_member(
            "expires"@,
            match cookie.expires {
                Some(n) => Some(JsonV::Num(n)),
                None => None,
            },
        ),
    )
}

fn text_member(j: &Json, key: &str) -> (r: Option<String>)
    ensures
        opt_str_view(r) == member_text(j@, key@),
{
    let found = match j.get(key) {
        Some(v) => v.as_str(),
        None => None,
    };
    match found {
        Some(s) => Some(String::from_str(s)),
        None => None,
    }
}

fn flag_member(j: &Json, key: &str) -> (r: Option<bool>)
    ensures
        r == member_flag(j@, key@),
{
    match j.get(key) {
        Some(v) => match v.as_bool() {
            Some(b) => Some(b),
            None => Some(false),
        },
        None => None,
    }
}

impl Cookie {
    /// Reads one cookie from its JSON form, if it is one.
    pub fn from_json(j: &Json) -> (r: Option<Cookie>)
        ensures
            match r {
                Some(c) => decode_cookie(j@) == Some(c@),
                None => decode_cookie(j@) is None,
            },
    {
        let name = match text_member(j, "name") {
            Some(s) => s,
            None => {
                return None;
            },
        };
        let value = match text_member(j, "value") {
            Some(s) => s,
            None => {
                return None;
            },
        };
        let domain = match text_member(j, "domain") {
            Some(s) => s,
            None => {
                return None;
            },
        };
        let path = match text_member(j, "path") {
            Some(s) => s,
            None => {
                return None;
            },
        };
        let secure = match flag_member(j, "secure") {
            Some(b) => b,
            None => {
                return None;
            },
        };
        let http_only = match flag_member(j, "httpOnly") {
            Some(b) => b,
            None => {
                return None;
            },
        };
        let expires = match j.get("expires") {
            Some(v) => match v.as_number() {
                Some(n) => Some(n.clone()),
                None => None,
            },
            None => None,
        };
        Some(
            Cookie {
                name,
                value,
                domain,
                path,
                secure,
                http_only,
                same_site: text_member(j, "sameSite"),
                expires,
            },
        )
    }
}

/// The command that asks for the cookies.
pub fn get_cookies() -> (r: Command)
    ensures
        r@ == bare_command("Network.getCookies"@),
{
    Command::bare("Network.getCookies")
}

/// Reads the cookies out of the reply to `get_cookies`.
pub fn get_cookies_result(reply: &Json) -> (r: Result<Vec<Cookie>, ChromeMcpError>)
    ensures
        match r {
            Ok(cookies) => cookies_outcome(reply@) == Ok::<Seq<CookieV>, ErrorV>(
                cookies_view(cookies@),
            ),
            Err(e) => cookies_outcome(reply@) == Err::<Seq<CookieV>, ErrorV>(e@),
        },
{
    let items = match reply.get("cookies") {
        Some(v) => v.as_array(),
        None => None,
    };
    let items = match items {
        Some(items) => items,
        None => {
            return Err(ChromeMcpError::network_error("Invalid cookies response"));
        },
    };
    let ghost all = crate::json::items_view(items@);
    let mut cookies: Vec<Cookie> = Vec::new();
    let mut i: usize = 0;
    proof {
        assert(all.take(0) =~= Seq::<JsonV>::empty());
        assert(cookies_view(cookies@) =~= Seq::<CookieV>::empty());
    }
    while i < items.len()
        invariant
            i <= items.len(),
            all == crate::json::items_view(items@),
            cookies_view(cookies@) == decode_cookies(all.take(i as int)),
        decreases items.len() - i,
    {
        let ghost next = all.take(i + 1);
        let ghost before = cookies_view(cookies@);
        proof {
            assert(next.drop_last() =~= all.take(i as int));
            assert(next.last() == items@[i as int]@);
        }
        match Cookie::from_json(&items[i]) {
            Some(c) => {
                cookies.push(c);
                proof {
                    assert(cookies_view(cookies@) =~= before + seq![c@]);
                }
            },
            None => {
                proof {
                    assert(before + Seq::<CookieV>::empty() =~= before);
                }
            },
        }
        i = i + 1;
    }
    proof {
        assert(all.take(items.len() as int) =~= all);
    }
    Ok(cookies)
}

/// The command that sets a cookie.
pub fn set_cookie(cookie: &Cookie) -> (r: Command)
    ensures
        r@ == set_cookie_spec(cookie@),
{
    let mut members = crate::json::no_members();
    crate::json::push_member(&mut members, "name", Json::string(cookie.name.as_str()));
    crate::json::push_member(&mut members, "value", Json::string(cookie.value.as_str()));
    crate::json::push_member(&mut members, "domain", Json::string(cookie.domain.as_str()));
    crate::json::push_member(&mut members, "path", Json::string(cookie.path.as_str()));
    crate::json::push_member(&mut members, "secure", Json::Bool(cookie.secure));
    crate::json::push_member(&mut members, "httpOnly", Json::Bool(cookie.http_only));
    match &cookie.same_site {
        Some(s) => {
            crate::json::push_member(&mut members, "sameSite", Json::string(s.as_str()));
        },
        None => {},
    }
    match &cookie.expires {
        Some(n) => {
            crate::json::push_member(&mut members, "expires", Json::Num(n.clone()));
        },
        None => {},
    }
    assert(crate::json::members_view(members@) =~= set_cookie_spec(cookie@).params->0->Object_0);
    Command::with_params("Network.setCookie", members)
}

/// The command that clears all cookies.
pub fn clear_cookies() -> (r: Command)
    ensures
        r@ == bare_command("Network.clearBrowserCookies"@),
{
    Command::bare("Network.clearBrowserCookies")
}

/// The browser as the tools see it: one connection and the snapshot that
/// goes with its page.
pub struct Browser<W> {
    pub cdp: crate::cdp::CdpClient<W>,
    pub accessibility: AccessibilityManager,
}

/// How long a navigation waits for the page to load, in milliseconds.
pub const NAVIGATION_TIMEOUT_MS: u64 = 30000;

impl<W> Browser<W> {
    /// A browser for the debugging endpoint at `chrome_host:chrome_port`,
    /// not connected yet and without a snapshot.
    pub fn new(chrome_host: &str, chrome_port: u16) -> (r: Result<Self, ChromeMcpError>)
        ensures
            r matches Ok(b) && b.cdp@.state is Disconnected && b.cdp@.host == chrome_host@
                && b.cdp@.port == chrome_port && b.cdp@.pending == Map::<u64, W>::empty()
                && b.accessibility@ is None,
    {
        Ok(
            Browser {
                cdp: crate::cdp::CdpClient::new(chrome_host, chrome_port),
                accessibility: AccessibilityManager::new(),
            },
        )
    }

    /// The wait that follows a navigation: for the page to load.
    pub fn navigation_wait() -> (r: (Wait, WaitStep))
        ensures
            r.0.condition() == WaitConditionV::PageLoad,
            r.0.timeout_ms() == NAVIGATION_TIMEOUT_MS,
            (r.0.state(), r.1@) == wait_look(WaitConditionV::PageLoad, NAVIGATION_TIMEOUT_MS, 0),
    {
        Wait::start(WaitCondition::PageLoad, NAVIGATION_TIMEOUT_MS)
    }

    /// Takes the end of the wait that followed a navigation. The snapshot of
    /// the old page is dropped however the wait ended: the page may have
    /// changed even where it did not finish loading in time. The navigation
    /// has succeeded where the wait was satisfied; else its error is that of
    /// the wait.
    pub fn navigation_done(&mut self, end: WaitStep) -> (r: Result<(), ChromeMcpError>)
        ensures
            final(self).cdp@ == old(self).cdp@,
            final(self).accessibility@ is None,
            match r {
                Ok(_) => end@ is Satisfied,
                Err(e) => match end@ {
                    WaitStepV::TimedOut(x) => e@ == x,
                    WaitStepV::Failed(x) => e@ == x,
                    WaitStepV::Satisfied => false,
                    _ => e@ == ErrorV::InvalidOperation("The wait is not over"@),
                },
            },
    {
        self.accessibility.clear_cache();
        match end {
            WaitStep::Satisfied => Ok(()),
            WaitStep::TimedOut(e) => Err(e),
            WaitStep::Failed(e) => Err(e),
            _ => Err(ChromeMcpError::invalid_operation("The wait is not over")),
        }
    }

    /// Notes that a navigation is over: the snapshot of the old page is dropped.
    pub fn navigated(&mut self)
        ensures
            final(self).cdp@ == old(self).cdp@,
            final(self).accessibility@ is None,
    {
        self.accessibility.clear_cache();
    }

    /// Registers a call of `command` on the connection; the snapshot stays.
    pub fn call(&mut self, command: Command, waiter: W) -> (r: Result<
        crate::cdp::CdpMessage,
        ChromeMcpError,
    >)
        ensures
            crate::cdp::sent(old(self).cdp@, command@, waiter, r, final(self).cdp@),
            final(self).accessibility@ == old(self).accessibility@,
    {
        self.cdp.send(command, waiter)
    }

    /// Registers the call that navigates to `url`. Once its reply is there,
    /// `navigation_wait` waits for the page, and `navigation_done` takes the
    /// end of that wait and drops the snapshot.
    pub fn navigate(&mut self, url: &str, waiter: W) -> (r: Result<
        crate::cdp::CdpMessage,
        ChromeMcpError,
    >)
        ensures
            crate::cdp::sent(
                old(self).cdp@,
                crate::cdp::navigate_spec(url@),
                waiter,
                r,
                final(self).cdp@,
            ),
            final(self).accessibility@ == old(self).accessibility@,
    {
        self.call(Command::navigate(url), waiter)
    }

    /// Registers the call that evaluates `javascript` in the page.
    pub fn evaluate(&mut self, javascript: &str, waiter: W) -> (r: Result<
        crate::cdp::CdpMessage,
        ChromeMcpError,
    >)
        ensures
            crate::cdp::sent(
                old(self).cdp@,
                crate::cdp::evaluate_js_spec(javascript@),
                waiter,
                r,
                final(self).cdp@,
            ),
            final(self).accessibility@ == old(self).accessibility@,
    {
        self.call(Command::evaluate_js(javascript), waiter)
    }

    /// Registers the call that scrolls the window by `x` and `y` pixels.
    pub fn scroll(&mut self, x: i32, y: i32, waiter: W) -> (r: Result<
        crate::cdp::CdpMessage,
        ChromeMcpError,
    >)
        ensures
            crate::cdp::sent(
                old(self).cdp@,
                run_script_spec(scroll_by_expression(x, y)),
                waiter,
                r,
                final(self).cdp@,
            ),
            final(self).accessibility@ == old(self).accessibility@,
    {
        self.call(scroll(x, y), waiter)
    }

    /// Registers the call that scrolls the element of `selector` into view.
    pub fn scroll_to_element(&mut self, selector: &str, waiter: W) -> (r: Result<
        crate::cdp::CdpMessage,
        ChromeMcpError,
    >)
        ensures
            crate::cdp::sent(
                old(self).cdp@,
                run_script_spec(scroll_into_view_expression(selector@)),
                waiter,
                r,
                final(self).cdp@,
            ),
            final(self).accessibility@ == old(self).accessibility@,
    {
        self.call(scroll_to_element(selector), waiter)
    }

    /// Registers the call that selects `option_value` in the element of `selector`.
    pub fn select_option(&mut self, selector: &str, option_value: &str, waiter: W) -> (r: Result<
        crate::cdp::CdpMessage,
        ChromeMcpError,
    >)
        ensures
            crate::cdp::sent(
                old(self).cdp@,
                run_script_spec(select_option_expression(selector@, option_value@)),
                waiter,
                r,
                final(self).cdp@,
            ),
            final(self).accessibility@ == old(self).accessibility@,
    {
        self.call(select_option(selector, option_value), waiter)
    }

    /// Registers the call that asks for the address of the page.
    pub fn current_url(&mut self, waiter: W) -> (r: Result<crate::cdp::CdpMessage, ChromeMcpError>)
        ensures
            crate::cdp::sent(
                old(self).cdp@,
                evaluate_value_spec("window.location.href"@),
                waiter,
                r,
                final(self).cdp@,
            ),
            final(self).accessibility@ == old(self).accessibility@,
    {
        self.call(current_url(), waiter)
    }

    /// Registers the call that asks for the title of the page.
    pub fn page_title(&mut self, waiter: W) -> (r: Result<crate::cdp::CdpMessage, ChromeMcpError>)
        ensures
            crate::cdp::sent(
                old(self).cdp@,
                evaluate_value_spec("document.title"@),
                waiter,
                r,
                final(self).cdp@,
            ),
            final(self).accessibility@ == old(self).accessibility@,
    {
        self.call(page_title(), waiter)
    }

    /// Registers the call that asks for the accessibility snapshot.
    pub fn accessibility_tree(&mut self, waiter: W) -> (r: Result<
        crate::cdp::CdpMessage,
        ChromeMcpError,
    >)
        ensures
            crate::cdp::sent(
                old(self).cdp@,
                bare_command("Accessibility.getFullAXTree"@),
                waiter,
                r,
                final(self).cdp@,
            ),
            final(self).accessibility@ == old(self).accessibility@,
    {
        self.call(Command::get_accessibility_tree(), waiter)
    }

    /// Registers the call that asks for the cookies.
    pub fn get_cookies(&mut self, waiter: W) -> (r: Result<crate::cdp::CdpMessage, ChromeMcpError>)
        ensures
            crate::cdp::sent(
                old(self).cdp@,
                bare_command("Network.getCookies"@),
                waiter,
                r,
                final(self).cdp@,
            ),
            final(self).accessibility@ == old(self).accessibility@,
    {
        self.call(get_cookies(), waiter)
    }

    /// Registers the call that sets a cookie.
    pub fn set_cookie(&mut self, cookie: &Cookie, waiter: W) -> (r: Result<
        crate::cdp::CdpMessage,
        ChromeMcpError,
    >)
        ensures
            crate::cdp::sent(old(self).cdp@, set_cookie_spec(cookie@), waiter, r, final(self).cdp@),
            final(self).accessibility@ == old(self).accessibility@,
    {
        self.call(set_cookie(cookie), waiter)
    }

    /// Registers the call that clears all cookies.
    pub fn clear_cookies(&mut self, waiter: W) -> (r: Result<
        crate::cdp::CdpMessage,
        ChromeMcpError,
    >)
        ensures
            crate::cdp::sent(
                old(self).cdp@,
                bare_command("Network.clearBrowserCookies"@),
                waiter,
                r,
                final(self).cdp@,
            ),
            final(self).accessibility@ == old(self).accessibility@,
    {
        self.call(clear_cookies(), waiter)
    }

    /// Registers the call that takes a screenshot of the viewport; the
    /// format is PNG where none is given.
    pub fn screenshot(&mut self, format: Option<&str>, quality: Option<u32>, waiter: W) -> (r:
        Result<crate::cdp::CdpMessage, ChromeMcpError>)
        ensures
            crate::cdp::sent(
                old(self).cdp@,
                crate::screenshot::capture_spec(
                    match format {
                        Some(f) => f@,
                        None => "png"@,
                    },
                    quality,
                    false,
                ),
                waiter,
                r,
                final(self).cdp@,
            ),
            final(self).accessibility@ == old(self).accessibility@,
    {
        let kind = match format {
            Some(f) => f,
            None => "png",
        };
        let command = crate::screenshot::ScreenshotManager::new().capture_with_options(
            kind,
            quality,
            false,
        );
        self.call(command, waiter)
    }

    /// Registers the call that takes a screenshot of the whole page; the
    /// format is PNG where none is given.
    pub fn screenshot_full_page(
        &mut self,
        format: Option<&str>,
        quality: Option<u32>,
        waiter: W,
    ) -> (r: Result<crate::cdp::CdpMessage, ChromeMcpError>)
        ensures
            crate::cdp::sent(
                old(self).cdp@,
                crate::screenshot::capture_spec(
                    match format {
                        Some(f) => f@,
                        None => "png"@,
                    },
                    quality,
                    true,
                ),
                waiter,
                r,
                final(self).cdp@,
            ),
            final(self).accessibility@ == old(self).accessibility@,
    {
        let kind = match format {
            Some(f) => f,
            None => "png",
        };
        let command = crate::screenshot::ScreenshotManager::new().capture_with_options(
            kind,
            quality,
            true,
        );
        self.call(command, waiter)
    }

    /// Registers the call that prints the page to PDF.
    pub fn pdf(&mut self, options: &Option<crate::screenshot::PdfOptions>, waiter: W) -> (r:
        Result<crate::cdp::CdpMessage, ChromeMcpError>)
        ensures
            crate::cdp::sent(
                old(self).cdp@,
                crate::screenshot::capture_pdf_spec(crate::screenshot::opt_pdf_view(*options)),
                waiter,
                r,
                final(self).cdp@,
            ),
            final(self).accessibility@ == old(self).accessibility@,
    {
        let command = crate::screenshot::ScreenshotManager::new().capture_pdf(options);
        self.call(command, waiter)
    }
}

} // verus!
