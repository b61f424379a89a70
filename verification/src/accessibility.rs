//! The accessibility snapshot of a page: a tree of nodes with roles, names
//! and bounds, read from the browser's reply and searched by role and text.

use crate::error::{ChromeMcpError, ErrorV};
use crate::json::{
    items_view, number_model, opt_str_view, opt_view, Json, JsonV, NumberV,
};
use crate::text::{contains_ignore_case, is_substring, lowercase, str_eq};
use vstd::prelude::*;
use vstd::string::*;

verus! {

/// The bounding box of a node, in CSS pixels relative to the viewport.
#[derive(Debug, PartialEq)]
pub struct Bounds {
    pub x: serde_json::Number,
    pub y: serde_json::Number,
    pub width: serde_json::Number,
    pub height: serde_json::Number,
}

/// The model of a [`Bounds`].
pub struct BoundsV {
    pub x: NumberV,
    pub y: NumberV,
    pub width: NumberV,
    pub height: NumberV,
}

impl View for Bounds {
    type V = BoundsV;

    open spec fn view(&self) -> BoundsV {
        BoundsV {
            x: number_model(self.x),
            y: number_model(self.y),
            width: number_model(self.width),
            height: number_model(self.height),
        }
    }
}

impl Clone for Bounds {
    fn clone(&self) -> (r: Bounds)
        ensures
            r@ == self@,
    {
        Bounds {
            x: self.x.clone(),
            y: self.y.clone(),
            width: self.width.clone(),
            height: self.height.clone(),
        }
    }
}

/// The view of bounds that may be absent.
pub open spec fn opt_bounds_view(o: Option<Bounds>) -> Option<BoundsV> {
    match o {
        Some(b) => Some(b@),
        None => None,
    }
}

/// One node of the accessibility tree, with its children by value.
#[derive(Debug, PartialEq)]
pub struct AccessibilityNode {
    pub node_id: String,
    pub role: Option<String>,
    pub name: Option<String>,
    pub description: Option<String>,
    pub value: Option<String>,
    pub properties: Option<Json>,
    pub children: Vec<AccessibilityNode>,
    pub bounds: Option<Bounds>,
    pub focusable: bool,
    pub focused: bool,
    pub clickable: bool,
}

/// The model of an [`AccessibilityNode`].
pub struct NodeV {
    pub node_id: Seq<char>,
    pub role: Option<Seq<char>>,
    pub name: Option<Seq<char>>,
    pub description: Option<Seq<char>>,
    pub value: Option<Seq<char>>,
    pub properties: Option<JsonV>,
    pub children: Seq<NodeV>,
    pub bounds: Option<BoundsV>,
    pub focusable: bool,
    pub focused: bool,
    pub clickable: bool,
}

impl View for AccessibilityNode {
    type V = NodeV;

    open spec fn view(&self) -> NodeV
        decreases self,
    {
        NodeV {
            node_id: self.node_id@,
            role: opt_str_view(self.role),
            name: opt_str_view(self.name),
            description: opt_str_view(self.description),
            value: opt_str_view(self.value),
            properties: opt_view(self.properties),
            children: Seq::new(
                self.children@.len(),
                |i: int|
                    if 0 <= i < self.children@.len() {
                        self.children@[i]@
                    } else {
                        arbitrary()
                    },
            ),
            bounds: opt_bounds_view(self.bounds),
            focusable: self.focusable,
            focused: self.focused,
            clickable: self.clickable,
        }
    }
}

/// The views of a list of nodes.
pub open spec fn nodes_view(nodes: Seq<AccessibilityNode>) -> Seq<NodeV> {
    Seq::new(nodes.len(), |i: int| nodes[i]@)
}

pub proof fn lemma_children_view(node: AccessibilityNode)
    ensures
        node@.children == nodes_view(node.children@),
{
    reveal_with_fuel(<AccessibilityNode as View>::view, 2);
    assert(node@.children =~= nodes_view(node.children@));
}

fn clone_text(o: &Option<String>) -> (r: Option<String>)
    ensures
        opt_str_view(r) == opt_str_view(*o),
{
    match o {
        Some(s) => Some(s.clone()),
        None => None,
    }
}

impl Clone for AccessibilityNode {
    #[verifier::loop_isolation(false)]
    fn clone(&self) -> (r: AccessibilityNode)
        ensures
            r@ == self@,
        decreases self,
    {
        let mut children: Vec<AccessibilityNode> = Vec::new();
        let mut i: usize = 0;
        while i < self.children.len()
            invariant
                i <= self.children.len(),
                children.len() == i,
                forall|j: int| 0 <= j < i ==> children@[j]@ == self.children@[j]@,
            decreases self.children.len() - i,
        {
            children.push(self.children[i].clone());
            i = i + 1;
        }
        let r = AccessibilityNode {
            node_id: self.node_id.clone(),
            role: clone_text(&self.role),
            name: clone_text(&self.name),
            description: clone_text(&self.description),
            value: clone_text(&self.value),
            properties: match &self.properties {
                Some(p) => Some(p.clone()),
                None => None,
            },
            children: children,
            bounds: match &self.bounds {
                Some(b) => Some(b.clone()),
                None => None,
            },
            focusable: self.focusable,
            focused: self.focused,
            clickable: self.clickable,
        };
        proof {
            lemma_children_view(r);
            lemma_children_view(*self);
            assert(nodes_view(r.children@) =~= nodes_view(self.children@));
        }
        r
    }
}

/// Which text of a node a search looks at.
#[derive(Clone, Copy, Debug, PartialEq, Eq, Structural)]
pub enum SearchKind {
    /// The role contains the text.
    Role,
    /// The name contains the text.
    Name,
    /// The description contains the text.
    Description,
    /// The node is clickable and its name, description or value contains the text.
    ClickableText,
}

/// Whether the text `o`, if there is one, contains `needle`, letter case aside.
pub open spec fn text_matches(o: Option<Seq<char>>, needle: Seq<char>) -> bool {
    match o {
        Some(t) => is_substring(lowercase(needle), lowercase(t)),
        None => false,
    }
}

/// Whether a node is a match of a search for `needle`.
pub open spec fn node_matches(node: NodeV, kind: SearchKind, needle: Seq<char>) -> bool {
    match kind {
        SearchKind::Role => text_matches(node.role, needle),
        SearchKind::Name => text_matches(node.name, needle),
        SearchKind::Description => text_matches(node.description, needle),
        SearchKind::ClickableText => node.clickable && (text_matches(node.name, needle)
            || text_matches(node.description, needle) || text_matches(node.value, needle)),
    }
}

/// The matches of a search in the tree under `node`, in document order: the
/// node itself first if it matches, then the matches under each child in turn.
pub open spec fn search(node: NodeV, kind: SearchKind, needle: Seq<char>) -> Seq<NodeV>
    decreases node, 0nat,
{
    let own = if node_matches(node, kind, needle) {
        seq![node]
    } else {
        Seq::empty()
    };
    own + search_all(node.children, kind, needle)
}

/// The matches under each of `nodes` in turn.
pub open spec fn search_all(nodes: Seq<NodeV>, kind: SearchKind, needle: Seq<char>) -> Seq<NodeV>
    decreases nodes, nodes.len(),
{
    if nodes.len() == 0 {
        Seq::empty()
    } else {
        search_all(nodes.drop_last(), kind, needle) + search(nodes.last(), kind, needle)
    }
}

fn text_contains(o: &Option<String>, needle: &str) -> (r: bool)
    ensures
        r == text_matches(opt_str_view(*o), needle@),
{
    match o {
        Some(t) => contains_ignore_case(t.as_str(), needle),
        None => false,
    }
}

/// Whether a node is a match of a search for `needle`.
pub fn matches_node(node: &AccessibilityNode, kind: SearchKind, needle: &str) -> (r: bool)
    ensures
        r == node_matches(node@, kind, needle@),
{
    match kind {
        SearchKind::Role => text_contains(&node.role, needle),
        SearchKind::Name => text_contains(&node.name, needle),
        SearchKind::Description => text_contains(&node.description, needle),
        SearchKind::ClickableText => node.clickable && (text_contains(&node.name, needle)
            || text_contains(&node.description, needle) || text_contains(&node.value, needle)),
    }
}

/// The matches of a search in the tree under `node`, in document order.
#[verifier::loop_isolation(false)]
pub fn search_nodes(node: &AccessibilityNode, kind: SearchKind, needle: &str) -> (r: Vec<
    AccessibilityNode,
>)
    ensures
        nodes_view(r@) == search(node@, kind, needle@),
    decreases node,
{
    let mut results: Vec<AccessibilityNode> = Vec::new();
    if matches_node(node, kind, needle) {
        results.push(node.clone());
    }
    let ghost own = nodes_view(results@);
    let ghost kids = nodes_view(node.children@);
    proof {
        lemma_children_view(*node);
        assert(own =~= if node_matches(node@, kind, needle@) {
            seq![node@]
        } else {
            Seq::empty()
        });
        assert(kids.take(0) =~= Seq::<NodeV>::empty());
    }
    let mut i: usize = 0;
    while i < node.children.len()
        invariant
            i <= node.children.len(),
            nodes_view(results@) == own + search_all(kids.take(i as int), kind, needle@),
        decreases node.children.len() - i,
    {
        let mut found = search_nodes(&node.children[i], kind, needle);
        let ghost before = nodes_view(results@);
        let ghost sub = nodes_view(found@);
        results.append(&mut found);
        proof {
            assert(nodes_view(results@) =~= before + sub);
            let next = kids.take(i + 1);
            assert(next.drop_last() =~= kids.take(i as int));
            assert(next.last() == node.children@[i as int]@);
            assert(before + sub =~= own + search_all(next, kind, needle@));
        }
        i = i + 1;
    }
    proof {
        assert(kids.take(node.children.len() as int) =~= kids);
    }
    results
}

/// The text under `a`, then `b`: `raw.a.b`, where that is a string.
pub open spec fn text_at(raw: JsonV, a: Seq<char>, b: Seq<char>) -> Option<Seq<char>> {
    match raw.get2(a, b) {
        Some(v) => v.as_str(),
        None => None,
    }
}

/// The first of `items` whose member `key` is the text `wanted`.
pub open spec fn find_with_text(items: Seq<JsonV>, key: Seq<char>, wanted: Seq<char>) -> Option<
    JsonV,
>
    decreases items.len(),
{
    if items.len() == 0 {
        None
    } else if text_of(items[0], key) == Some(wanted) {
        Some(items[0])
    } else {
        find_with_text(items.drop_first(), key, wanted)
    }
}

/// The first of `items` whose `name` is `name`.
pub open spec fn find_named(items: Seq<JsonV>, name: Seq<char>) -> Option<JsonV> {
    find_with_text(items, "name"@, name)
}

/// The text under `key`, where that is a string.
pub open spec fn text_of(raw: JsonV, key: Seq<char>) -> Option<Seq<char>> {
    match raw.get(key) {
        Some(v) => v.as_str(),
        None => None,
    }
}

/// The boolean property `property` of a raw node: `value.booleanValue` of
/// the first entry of that name in its `properties`.
pub open spec fn bool_property(raw: JsonV, property: Seq<char>) -> Option<bool> {
    match raw.get("properties"@) {
        Some(props) => match props.as_array() {
            Some(items) => match find_named(items, property) {
                Some(entry) => match entry.get2("value"@, "booleanValue"@) {
                    Some(b) => b.as_bool(),
                    None => None,
                },
                None => None,
            },
            None => None,
        },
        None => None,
    }
}

/// Whether a role is one of those that take a click by their nature.
pub open spec fn clickable_role(role: Seq<char>) -> bool {
    role == "button"@ || role == "link"@ || role == "menuitem"@ || role == "tab"@ || role
        == "checkbox"@ || role == "radio"@
}

/// Whether a raw node is clickable: by its role, or else by its property `clickable`.
pub open spec fn raw_clickable(raw: JsonV) -> bool {
    match text_at(raw, "role"@, "value"@) {
        Some(role) if clickable_role(role) => true,
        _ => match bool_property(raw, "clickable"@) {
            Some(b) => b,
            None => false,
        },
    }
}

/// One coordinate of a rectangle: the number under `key`, or zero.
pub open spec fn coordinate(rect: JsonV, key: Seq<char>) -> NumberV {
    match rect.get(key) {
        Some(JsonV::Num(n)) => n,
        _ => NumberV::PosInt(0),
    }
}

/// The bounds of a raw node: those of its `boundingRect`, where it has one.
pub open spec fn raw_bounds(raw: JsonV) -> Option<BoundsV> {
    match raw.get("boundingRect"@) {
        Some(rect) => Some(
            BoundsV {
                x: coordinate(rect, "x"@),
                y: coordinate(rect, "y"@),
                width: coordinate(rect, "width"@),
                height: coordinate(rect, "height"@),
            },
        ),
        None => None,
    }
}

/// The first of `all` whose `nodeId` is `id`.
pub open spec fn find_raw_node(all: Seq<JsonV>, id: Seq<char>) -> Option<JsonV> {
    find_with_text(all, "nodeId"@, id)
}

/// The node that a raw node describes, with its children followed through
/// `depth` levels.
pub open spec fn parse_node_spec(raw: JsonV, all: Seq<JsonV>, depth: nat) -> NodeV
    decreases depth, 0nat,
{
    NodeV {
        node_id: match text_of(raw, "nodeId"@) {
            Some(id) => id,
            None => "unknown"@,
        },
        role: text_at(raw, "role"@, "value"@),
        name: text_at(raw, "name"@, "value"@),
        description: text_at(raw, "description"@, "value"@),
        value: text_at(raw, "value"@, "value"@),
        properties: raw.get("properties"@),
        children: if depth == 0 {
            Seq::empty()
        } else {
            match raw.get("childIds"@) {
                Some(ids) => match ids.as_array() {
                    Some(items) => parse_children_spec(items, all, (depth - 1) as nat),
                    None => Seq::empty(),
                },
                None => Seq::empty(),
            }
        },
        bounds: raw_bounds(raw),
        focusable: match bool_property(raw, "focusable"@) {
            Some(b) => b,
            None => false,
        },
        focused: match bool_property(raw, "focused"@) {
            Some(b) => b,
            None => false,
        },
        clickable: raw_clickable(raw),
    }
}

/// The children that a list of child ids names: for each id that is a
/// string and the `nodeId` of a raw node, that node; the others are passed over.
pub open spec fn parse_children_spec(ids: Seq<JsonV>, all: Seq<JsonV>, depth: nat) -> Seq<NodeV>
    decreases depth, ids.len() + 1,
{
    if ids.len() == 0 {
        Seq::empty()
    } else {
        parse_children_spec(ids.drop_last(), all, depth) + match ids.last().as_str() {
            Some(id) => match find_raw_node(all, id) {
                Some(child) => seq![parse_node_spec(child, all, depth)],
                None => Seq::empty(),
            },
            None => Seq::empty(),
        }
    }
}

/// The tree that a reply to the snapshot command describes: the first of
/// its `nodes` with all that hangs under it. Children are followed through
/// as many levels as there are nodes, which is every level of a tree.
pub open spec fn parse_tree_spec(raw_tree: JsonV) -> Result<NodeV, ErrorV> {
    match raw_tree.get("nodes"@) {
        Some(nodes) => match nodes.as_array() {
            Some(all) => if all.len() == 0 {
                Err(ErrorV::Accessibility("Empty accessibility tree"@))
            } else {
                Ok(parse_node_spec(all[0], all, all.len()))
            },
            None => Err(ErrorV::Accessibility("Invalid accessibility tree format"@)),
        },
        None => Err(ErrorV::Accessibility("Invalid accessibility tree format"@)),
    }
}

fn get_text<'a>(raw: &'a Json, key: &str) -> (r: Option<&'a str>)
    ensures
        match r {
            Some(t) => text_of(raw@, key@) == Some(t@),
            None => text_of(raw@, key@) is None,
        },
{
    match raw.get(key) {
        Some(v) => v.as_str(),
        None => None,
    }
}

fn get_text_at(raw: &Json, a: &str, b: &str) -> (r: Option<String>)
    ensures
        opt_str_view(r) == text_at(raw@, a@, b@),
{
    match raw.get(a) {
        Some(inner) => match inner.get(b) {
            Some(v) => match v.as_str() {
                Some(t) => Some(String::from_str(t)),
                None => None,
            },
            None => None,
        },
        None => None,
    }
}

fn find_by_text_member<'a>(items: &'a Vec<Json>, key: &str, wanted: &str) -> (r: Option<&'a Json>)
    ensures
        match r {
            Some(found) => find_with_text(items_view(items@), key@, wanted@) == Some(found@),
            None => find_with_text(items_view(items@), key@, wanted@) is None,
        },
{
    let ghost all = items_view(items@);
    let mut i: usize = 0;
    assert(all.subrange(0, all.len() as int) =~= all);
    while i < items.len()
        invariant
            i <= items.len(),
            all == items_view(items@),
            find_with_text(all, key@, wanted@) == find_with_text(
                all.subrange(i as int, all.len() as int),
                key@,
                wanted@,
            ),
        decreases items.len() - i,
    {
        let ghost rest = all.subrange(i as int, all.len() as int);
        assert(rest[0] == items@[i as int]@);
        let hit = match get_text(&items[i], key) {
            Some(t) => str_eq(t, wanted),
            None => false,
        };
        if hit {
            return Some(&items[i]);
        }
        assert(rest.drop_first() =~= all.subrange(i + 1, all.len() as int));
        i = i + 1;
    }
    None
}

/// One coordinate of a rectangle: the number under `key`, or zero.
fn get_coordinate(rect: &Json, key: &str) -> (r: serde_json::Number)
    ensures
        number_model(r) == coordinate(rect@, key@),
{
    match rect.get(key) {
        Some(v) => match v.as_number() {
            Some(n) => n.clone(),
            None => serde_json::Number::from(0u64),
        },
        None => serde_json::Number::from(0u64),
    }
}

/// Holds the snapshot of the current page between the calls that need it.
/// The snapshot is fetched when first needed and dropped after a navigation.
pub struct AccessibilityManager {
    cached_tree: Option<AccessibilityNode>,
}

/// The view of a node that may be absent.
pub open spec fn opt_node_view(o: Option<AccessibilityNode>) -> Option<NodeV> {
    match o {
        Some(n) => Some(n@),
        None => None,
    }
}

impl View for AccessibilityManager {
    type V = Option<NodeV>;

    closed spec fn view(&self) -> Option<NodeV> {
        opt_node_view(self.cached_tree)
    }
}

fn bool_property_of(node: &Json, property: &str) -> (r: Option<bool>)
    ensures
        r == bool_property(node@, property@),
{
    let props = match node.get("properties") {
        Some(p) => p,
        None => {
            return None;
        },
    };
    let items = match props.as_array() {
        Some(items) => items,
        None => {
            return None;
        },
    };
    let entry = match find_by_text_member(items, "name", property) {
        Some(e) => e,
        None => {
            return None;
        },
    };
    match entry.get("value") {
        Some(v) => match v.get("booleanValue") {
            Some(b) => b.as_bool(),
            None => None,
        },
        None => None,
    }
}

fn is_clickable_role(role: &str) -> (r: bool)
    ensures
        r == clickable_role(role@),
{
    str_eq(role, "button") || str_eq(role, "link") || str_eq(role, "menuitem") || str_eq(
        role,
        "tab",
    ) || str_eq(role, "checkbox") || str_eq(role, "radio")
}

fn raw_is_clickable(node: &Json) -> (r: bool)
    ensures
        r == raw_clickable(node@),
{
    let by_role = match get_text_at(node, "role", "value") {
        Some(role) => is_clickable_role(role.as_str()),
        None => false,
    };
    if by_role {
        true
    } else {
        match bool_property_of(node, "clickable") {
            Some(b) => b,
            None => false,
        }
    }
}

fn parse_bounds(raw: &Json) -> (r: Option<Bounds>)
    ensures
        opt_bounds_view(r) == raw_bounds(raw@),
{
    match raw.get("boundingRect") {
        Some(rect) => Some(
            Bounds {
                x: get_coordinate(rect, "x"),
                y: get_coordinate(rect, "y"),
                width: get_coordinate(rect, "width"),
                height: get_coordinate(rect, "height"),
            },
        ),
        None => None,
    }
}

#[verifier::loop_isolation(false)]
fn parse_children(ids: &Vec<Json>, all_nodes: &Vec<Json>, depth: usize) -> (r: Vec<
    AccessibilityNode,
>)
    ensures
        nodes_view(r@) == parse_children_spec(items_view(ids@), items_view(all_nodes@), depth as nat),
    decreases depth, ids.len() + 1,
{
    let ghost id_views = items_view(ids@);
    let ghost all = items_view(all_nodes@);
    let mut children: Vec<AccessibilityNode> = Vec::new();
    let mut i: usize = 0;
    proof {
        assert(id_views.take(0) =~= Seq::<JsonV>::empty());
        assert(nodes_view(children@) =~= Seq::<NodeV>::empty());
    }
    while i < ids.len()
        invariant
            i <= ids.len(),
            nodes_view(children@) == parse_children_spec(id_views.take(i as int), all, depth as nat),
        decreases ids.len() - i,
    {
        let ghost before = nodes_view(children@);
        let ghost next = id_views.take(i + 1);
        proof {
            assert(next.drop_last() =~= id_views.take(i as int));
            assert(next.last() == ids@[i as int]@);
        }
        match ids[i].as_str() {
            Some(id) => match find_by_text_member(all_nodes, "nodeId", id) {
                Some(child) => {
                    let parsed = parse_node_within(child, all_nodes, depth);
                    children.push(parsed);
                    proof {
                        assert(nodes_view(children@) =~= before + seq![parsed@]);
                    }
                },
                None => {},
            },
            None => {},
        }
        proof {
            assert(nodes_view(children@) =~= parse_children_spec(next, all, depth as nat));
        }
        i = i + 1;
    }
    proof {
        assert(id_views.take(ids.len() as int) =~= id_views);
    }
    children
}

fn parse_node_within(node_raw: &Json, all_nodes: &Vec<Json>, depth: usize) -> (r: AccessibilityNode)
    ensures
        r@ == parse_node_spec(node_raw@, items_view(all_nodes@), depth as nat),
    decreases depth, 0nat,
{
    let node_id = match get_text(node_raw, "nodeId") {
        Some(id) => String::from_str(id),
        None => String::from_str("unknown"),
    };
    let children: Vec<AccessibilityNode> = if depth == 0 {
        Vec::new()
    } else {
        match node_raw.get("childIds") {
            Some(ids) => match ids.as_array() {
                Some(items) => parse_children(items, all_nodes, depth - 1),
                None => Vec::new(),
            },
            None => Vec::new(),
        }
    };
    let r = AccessibilityNode {
        node_id,
        role: get_text_at(node_raw, "role", "value"),
        name: get_text_at(node_raw, "name", "value"),
        description: get_text_at(node_raw, "description", "value"),
        value: get_text_at(node_raw, "value", "value"),
        properties: match node_raw.get("properties") {
            Some(p) => Some(p.clone()),
            None => None,
        },
        children,
        bounds: parse_bounds(node_raw),
        focusable: match bool_property_of(node_raw, "focusable") {
            Some(b) => b,
            None => false,
        },
        focused: match bool_property_of(node_raw, "focused") {
            Some(b) => b,
            None => false,
        },
        clickable: raw_is_clickable(node_raw),
    };
    proof {
        lemma_children_view(r);
        assert(r@.children =~= parse_node_spec(
            node_raw@,
            items_view(all_nodes@),
            depth as nat,
        ).children);
    }
    r
}

impl AccessibilityManager {
    /// A manager that holds no snapshot yet.
    pub fn new() -> (r: Self)
        ensures
            r@ is None,
    {
        AccessibilityManager { cached_tree: None }
    }

    /// The snapshot that is held, if one is.
    pub fn cached_tree(&self) -> (r: Option<&AccessibilityNode>)
        ensures
            match r {
                Some(tree) => self@ == Some(tree@),
                None => self@ is None,
            },
    {
        match &self.cached_tree {
            Some(tree) => Some(tree),
            None => None,
        }
    }

    /// Drops the snapshot, so that the next search asks for a new one.
    pub fn clear_cache(&mut self)
        ensures
            final(self)@ is None,
    {
        self.cached_tree = None;
    }

    /// The boolean property `property` of a raw node.
    pub fn get_bool_property(&self, node: &Json, property: &str) -> (r: Option<bool>)
        ensures
            r == bool_property(node@, property@),
    {
        bool_property_of(node, property)
    }

    /// Whether a raw node is clickable.
    pub fn is_clickable(&self, node: &Json) -> (r: bool)
        ensures
            r == raw_clickable(node@),
    {
        raw_is_clickable(node)
    }

    /// Reads one raw node, with all that hangs under it among `all_nodes`.
    pub fn parse_node(&self, node_raw: &Json, all_nodes: &Vec<Json>) -> (r: Result<
        AccessibilityNode,
        ChromeMcpError,
    >)
        ensures
            r matches Ok(node) && node@ == parse_node_spec(
                node_raw@,
                items_view(all_nodes@),
                all_nodes@.len(),
            ),
    {
        Ok(parse_node_within(node_raw, all_nodes, all_nodes.len()))
    }

    /// Reads the reply to the snapshot command into a tree.
    pub fn parse_accessibility_tree(&self, raw_tree: &Json) -> (r: Result<
        AccessibilityNode,
        ChromeMcpError,
    >)
        ensures
            match r {
                Ok(tree) => parse_tree_spec(raw_tree@) == Ok::<NodeV, ErrorV>(tree@),
                Err(e) => parse_tree_spec(raw_tree@) == Err::<NodeV, ErrorV>(e@),
            },
    {
        let nodes = match raw_tree.get("nodes") {
            Some(n) => match n.as_array() {
                Some(all) => all,
                None => {
                    return Err(
                        ChromeMcpError::accessibility_error("Invalid accessibility tree format"),
                    );
                },
            },
            None => {
                return Err(ChromeMcpError::accessibility_error("Invalid accessibility tree format"));
            },
        };
        if nodes.len() == 0 {
            return Err(ChromeMcpError::accessibility_error("Empty accessibility tree"));
        }
        Ok(parse_node_within(&nodes[0], nodes, nodes.len()))
    }

    /// Takes the reply to the snapshot command: the tree it describes is
    /// held from now on and handed back. A reply that describes no tree
    /// leaves what was held.
    pub fn get_full_tree(&mut self, raw_tree: &Json) -> (r: Result<
        AccessibilityNode,
        ChromeMcpError,
    >)
        ensures
            match r {
                Ok(tree) => parse_tree_spec(raw_tree@) == Ok::<NodeV, ErrorV>(tree@) && final(self)@
                    == Some(tree@),
                Err(e) => parse_tree_spec(raw_tree@) == Err::<NodeV, ErrorV>(e@) && final(self)@
                    == old(self)@,
            },
    {
        match self.parse_accessibility_tree(raw_tree) {
            Ok(tree) => {
                self.cached_tree = Some(tree.clone());
                Ok(tree)
            },
            Err(e) => Err(e),
        }
    }

    /// The matches of a search in the snapshot that is held; `None` where
    /// none is held and one has to be fetched first.
    pub fn find(&self, kind: SearchKind, needle: &str) -> (r: Option<Vec<AccessibilityNode>>)
        ensures
            match r {
                Some(found) => self@ is Some && nodes_view(found@) == search(
                    self@->0,
                    kind,
                    needle@,
                ),
                None => self@ is None,
            },
    {
        match &self.cached_tree {
            Some(tree) => Some(search_nodes(tree, kind, needle)),
            None => None,
        }
    }

    /// The nodes whose role contains `role`.
    pub fn find_by_role(&self, role: &str) -> (r: Option<Vec<AccessibilityNode>>)
        ensures
            match r {
                Some(found) => self@ is Some && nodes_view(found@) == search(
                    self@->0,
                    SearchKind::Role,
                    role@,
                ),
                None => self@ is None,
            },
    {
        self.find(SearchKind::Role, role)
    }

    /// The nodes whose name contains `name`.
    pub fn find_by_name(&self, name: &str) -> (r: Option<Vec<AccessibilityNode>>)
        ensures
            match r {
                Some(found) => self@ is Some && nodes_view(found@) == search(
                    self@->0,
                    SearchKind::Name,
                    name@,
                ),
                None => self@ is None,
            },
    {
        self.find(SearchKind::Name, name)
    }

    /// The nodes whose description contains `description`.
    pub fn find_by_description(&self, description: &str) -> (r: Option<Vec<AccessibilityNode>>)
        ensures
            match r {
                Some(found) => self@ is Some && nodes_view(found@) == search(
                    self@->0,
                    SearchKind::Description,
                    description@,
                ),
                None => self@ is None,
            },
    {
        self.find(SearchKind::Description, description)
    }

    /// The clickable nodes whose name, description or value contains `text`.
    pub fn find_clickable_by_text(&self, text: &str) -> (r: Option<Vec<AccessibilityNode>>)
        ensures
            match r {
                Some(found) => self@ is Some && nodes_view(found@) == search(
                    self@->0,
                    SearchKind::ClickableText,
                    text@,
                ),
                None => self@ is None,
            },
    {
        self.find(SearchKind::ClickableText, text)
    }

    /// The nodes under `node` whose role contains `target_role`.
    pub fn search_nodes_by_role(&self, node: &AccessibilityNode, target_role: &str) -> (r: Vec<
        AccessibilityNode,
    >)
        ensures
            nodes_view(r@) == search(node@, SearchKind::Role, target_role@),
    {
        search_nodes(node, SearchKind::Role, target_role)
    }

    /// The nodes under `node` whose name contains `target_name`.
    pub fn search_nodes_by_name(&self, node: &AccessibilityNode, target_name: &str) -> (r: Vec<
        AccessibilityNode,
    >)
        ensures
            nodes_view(r@) == search(node@, SearchKind::Name, target_name@),
    {
        search_nodes(node, SearchKind::Name, target_name)
    }

    /// The nodes under `node` whose description contains `target_desc`.
    pub fn search_nodes_by_description(
        &self,
        node: &AccessibilityNode,
        target_desc: &str,
    ) -> (r: Vec<AccessibilityNode>)
        ensures
            nodes_view(r@) == search(node@, SearchKind::Description, target_desc@),
    {
        search_nodes(node, SearchKind::Description, target_desc)
    }

    /// The clickable nodes under `node` whose name, description or value contains `text`.
    pub fn search_clickable_by_text(&self, node: &AccessibilityNode, text: &str) -> (r: Vec<
        AccessibilityNode,
    >)
        ensures
            nodes_view(r@) == search(node@, SearchKind::ClickableText, text@),
    {
        search_nodes(node, SearchKind::ClickableText, text)
    }
}

/// The numeral that a number is shown as when rounded to a whole number:
/// what the standard formatting with no decimals writes for the binary64
/// that `serde_json::Number::as_f64` gives.
pub uninterp spec fn rounded_text(n: NumberV) -> Seq<char>;

/// `Number::as_f64`, then the standard formatting of the float with
/// precision zero. The two calls stand in one body because the float that
/// passes from the first to the second cannot be handed between functions
/// here; the text is a function of what the number holds alone, and that is
/// all the contract claims.
#[verifier::external_body]
fn format_rounded(n: &serde_json::Number) -> (r: String)
    ensures
        r@ == rounded_text(number_model(*n)),
{
    n.as_f64().map_or(String::new(), |x| format!("{:.0}", x))
}

/// Where a node is, as its summary shows it.
pub open spec fn bounds_info(bounds: Option<BoundsV>) -> Seq<char> {
    match bounds {
        Some(b) => " @("@ + rounded_text(b.x) + ","@ + rounded_text(b.y) + ")"@,
        None => Seq::empty(),
    }
}

/// The line of a node in the summary of a tree.
pub open spec fn summary_line(node: NodeV, indent: Seq<char>) -> Seq<char> {
    indent + match node.role {
        Some(r) => r,
        None => "unknown"@,
    } + ": "@ + match node.name {
        Some(n) => n,
        None => "(no name)"@,
    } + bounds_info(node.bounds) + if node.clickable {
        " [CLICKABLE]"@
    } else {
        Seq::empty()
    }
}

/// The summary of the tree under `node`: its own line, then the summaries
/// of its children, each indented by two spaces more.
pub open spec fn summaries(node: NodeV, indent: Seq<char>) -> Seq<Seq<char>>
    decreases node, 0nat,
{
    seq![summary_line(node, indent)] + summaries_all(node.children, indent + "  "@)
}

/// The summaries of `nodes`, one after the other.
pub open spec fn summaries_all(nodes: Seq<NodeV>, indent: Seq<char>) -> Seq<Seq<char>>
    decreases nodes, nodes.len(),
{
    if nodes.len() == 0 {
        Seq::empty()
    } else {
        summaries_all(nodes.drop_last(), indent) + summaries(nodes.last(), indent)
    }
}

/// Two spaces for each level of depth.
pub open spec fn indent_text(depth: nat) -> Seq<char>
    decreases depth,
{
    if depth == 0 {
        Seq::empty()
    } else {
        indent_text((depth - 1) as nat) + "  "@
    }
}

fn line_of(node: &AccessibilityNode, indent: &str) -> (r: String)
    ensures
        r@ == summary_line(node@, indent@),
{
    let mut out = String::from_str(indent);
    match &node.role {
        Some(r) => {
            out.append(r.as_str());
        },
        None => {
            out.append("unknown");
        },
    }
    out.append(": ");
    match &node.name {
        Some(n) => {
            out.append(n.as_str());
        },
        None => {
            out.append("(no name)");
        },
    }
    let ghost head = out@;
    match &node.bounds {
        Some(b) => {
            out.append(" @(");
            out.append(format_rounded(&b.x).as_str());
            out.append(",");
            out.append(format_rounded(&b.y).as_str());
            out.append(")");
            assert(out@ =~= head + bounds_info(node@.bounds));
        },
        None => {
            assert(out@ =~= head + bounds_info(node@.bounds));
        },
    }
    let ghost with_bounds = out@;
    if node.clickable {
        out.append(" [CLICKABLE]");
    } else {
        assert(out@ =~= with_bounds + Seq::<char>::empty());
    }
    out
}

#[verifier::loop_isolation(false)]
fn collect_indented(node: &AccessibilityNode, summary: &mut Vec<String>, indent: &str)
    ensures
        crate::cdp::strings_view(final(summary)@) == crate::cdp::strings_view(old(summary)@)
            + summaries(node@, indent@),
    decreases node,
{
    let ghost start = crate::cdp::strings_view(summary@);
    let line = line_of(node, indent);
    summary.push(line);
    let deeper = crate::text::concat(indent, "  ");
    let ghost kids = nodes_view(node.children@);
    proof {
        lemma_children_view(*node);
        assert(crate::cdp::strings_view(summary@) =~= start + seq![summary_line(node@, indent@)]);
        assert(kids.take(0) =~= Seq::<NodeV>::empty());
        assert(start + seq![summary_line(node@, indent@)] + Seq::<Seq<char>>::empty() =~= start
            + seq![summary_line(node@, indent@)]);
    }
    let mut i: usize = 0;
    while i < node.children.len()
        invariant
            i <= node.children.len(),
            crate::cdp::strings_view(summary@) == start + seq![summary_line(node@, indent@)]
                + summaries_all(kids.take(i as int), deeper@),
        decreases node.children.len() - i,
    {
        let ghost before = crate::cdp::strings_view(summary@);
        collect_indented(&node.children[i], summary, deeper.as_str());
        proof {
            let next = kids.take(i + 1);
            assert(next.drop_last() =~= kids.take(i as int));
            assert(next.last() == node.children@[i as int]@);
            assert(before + summaries(next.last(), deeper@) =~= start + seq![
                summary_line(node@, indent@),
            ] + summaries_all(next, deeper@));
        }
        i = i + 1;
    }
    proof {
        assert(kids.take(node.children.len() as int) =~= kids);
        assert(start + seq![summary_line(node@, indent@)] + summaries_all(kids, deeper@) =~= start
            + summaries(node@, indent@));
    }
}

fn make_indent(depth: usize) -> (r: String)
    ensures
        r@ == indent_text(depth as nat),
{
    let mut out = String::new();
    let mut i: usize = 0;
    while i < depth
        invariant
            i <= depth,
            out@ == indent_text(i as nat),
        decreases depth - i,
    {
        out.append("  ");
        i = i + 1;
    }
    out
}

impl AccessibilityManager {
    /// Appends the summary of the tree under `node` to `summary`, the
    /// node itself at `depth` levels of indentation.
    pub fn collect_node_summaries(
        &self,
        node: &AccessibilityNode,
        summary: &mut Vec<String>,
        depth: usize,
    )
        ensures
            crate::cdp::strings_view(final(summary)@) == crate::cdp::strings_view(old(summary)@)
                + summaries(node@, indent_text(depth as nat)),
    {
        let indent = make_indent(depth);
        collect_indented(node, summary, indent.as_str());
    }

    /// The summary of the tree in a reply to the snapshot command, which is
    /// held from now on.
    pub fn get_tree_summary(&mut self, raw_tree: &Json) -> (r: Result<Vec<String>, ChromeMcpError>)
        ensures
            match r {
                Ok(lines) => parse_tree_spec(raw_tree@) is Ok && final(self)@ == Some(
                    parse_tree_spec(raw_tree@)->Ok_0,
                ) && crate::cdp::strings_view(lines@) == summaries(
                    parse_tree_spec(raw_tree@)->Ok_0,
                    Seq::empty(),
                ),
                Err(e) => parse_tree_spec(raw_tree@) == Err::<NodeV, ErrorV>(e@) && final(self)@
                    == old(self)@,
            },
    {
        match self.get_full_tree(raw_tree) {
            Ok(tree) => {
                let mut summary: Vec<String> = Vec::new();
                assert(crate::cdp::strings_view(summary@) =~= Seq::<Seq<char>>::empty());
                self.collect_node_summaries(&tree, &mut summary, 0);
                assert(crate::cdp::strings_view(summary@) =~= summaries(tree@, Seq::empty()));
                Ok(summary)
            },
            Err(e) => Err(e),
        }
    }
}

} // verus!
