use chrome_mcp::accessibility::{
    matches_node, search_nodes, AccessibilityManager, AccessibilityNode, Bounds, SearchKind,
};
use chrome_mcp::error::ChromeMcpError;
use chrome_mcp::json::Json;

fn json(text: &str) -> Json {
    Json::parse(text).unwrap()
}

fn num(x: f64) -> serde_json::Number {
    serde_json::Number::from_f64(x).unwrap()
}

fn create_test_node(
    id: &str,
    role: Option<&str>,
    name: Option<&str>,
    clickable: bool,
    bounds: Option<(f64, f64, f64, f64)>, // x, y, width, height
) -> AccessibilityNode {
    AccessibilityNode {
        node_id: id.to_string(),
        role: role.map(|s| s.to_string()),
        name: name.map(|s| s.to_string()),
        description: None,
        value: None,
        properties: None,
        children: Vec::new(),
        bounds: bounds.map(|(x, y, w, h)| Bounds { x: num(x), y: num(y), width: num(w), height: num(h) }),
        focusable: false,
        focused: false,
        clickable,
    }
}

#[test]
fn test_accessibility_node_creation() {
    let node = create_test_node("1", Some("button"), Some("Submit"), true, Some((10.0, 20.0, 100.0, 50.0)));

    assert_eq!(node.node_id, "1");
    assert_eq!(node.role, Some("button".to_string()));
    assert_eq!(node.name, Some("Submit".to_string()));
    assert!(node.clickable);
    assert!(node.bounds.is_some());

    let bounds = node.bounds.unwrap();
    assert_eq!(bounds.x.as_f64(), Some(10.0));
    assert_eq!(bounds.y.as_f64(), Some(20.0));
    assert_eq!(bounds.width.as_f64(), Some(100.0));
    assert_eq!(bounds.height.as_f64(), Some(50.0));
}

#[test]
fn accessibility_test_accessibility_manager_creation() {
    let manager = AccessibilityManager::new();

    assert!(manager.cached_tree().is_none());
}

#[test]
fn test_parse_accessibility_tree_empty() {
    let manager = AccessibilityManager::new();

    let empty_tree = json(r#"{"nodes": []}"#);

    let result = manager.parse_accessibility_tree(&empty_tree);
    assert!(result.is_err());
    assert!(matches!(result.unwrap_err(), ChromeMcpError::Accessibility(_)));
    assert_eq!(
        manager.parse_accessibility_tree(&empty_tree),
        Err(ChromeMcpError::Accessibility("Empty accessibility tree".to_string()))
    );
}

#[test]
fn test_parse_accessibility_tree_invalid_format() {
    let manager = AccessibilityManager::new();

    let invalid_tree = json(r#"{"not_nodes": []}"#);

    let result = manager.parse_accessibility_tree(&invalid_tree);
    assert!(result.is_err());
    assert!(matches!(result.unwrap_err(), ChromeMcpError::Accessibility(_)));
    assert_eq!(
        manager.parse_accessibility_tree(&json(r#"{"nodes": 1}"#)),
        Err(ChromeMcpError::Accessibility("Invalid accessibility tree format".to_string()))
    );
}

#[test]
fn test_parse_single_node() {
    let manager = AccessibilityManager::new();

    let single_node_tree = json(
        r#"{
            "nodes": [{
                "nodeId": "1",
                "role": {"value": "button"},
                "name": {"value": "Click me"},
                "boundingRect": {"x": 10, "y": 20, "width": 100, "height": 30}
            }]
        }"#,
    );

    let all_nodes = single_node_tree.get("nodes").unwrap().as_array().unwrap();
    let node_raw = &all_nodes[0];
    let result = manager.parse_node(node_raw, all_nodes);

    assert!(result.is_ok());
    let node = result.unwrap();
    assert_eq!(node.node_id, "1");
    assert_eq!(node.role, Some("button".to_string()));
    assert_eq!(node.name, Some("Click me".to_string()));
    assert!(node.bounds.is_some());
    assert!(node.clickable);
    let bounds = node.bounds.unwrap();
    assert_eq!(bounds.x.as_f64(), Some(10.0));
    assert_eq!(bounds.height.as_f64(), Some(30.0));
}

#[test]
fn test_get_bool_property() {
    let manager = AccessibilityManager::new();

    let node_with_props = json(
        r#"{
            "properties": [
                {"name": "focusable", "value": {"booleanValue": true}},
                {"name": "visible", "value": {"booleanValue": false}}
            ]
        }"#,
    );

    assert_eq!(manager.get_bool_property(&node_with_props, "focusable"), Some(true));
    assert_eq!(manager.get_bool_property(&node_with_props, "visible"), Some(false));
    assert_eq!(manager.get_bool_property(&node_with_props, "nonexistent"), None);
}

#[test]
fn test_is_clickable_by_role() {
    let manager = AccessibilityManager::new();

    let clickable_roles = vec!["button", "link", "menuitem", "tab", "checkbox", "radio"];

    for role in clickable_roles {
        let node_json = json(&format!(r#"{{"role": {{"value": "{}"}}}}"#, role));
        assert!(manager.is_clickable(&node_json), "Role {} should be clickable", role);
    }

    let non_clickable_node = json(r#"{"role": {"value": "text"}}"#);
    assert!(!manager.is_clickable(&non_clickable_node));
}

#[test]
fn test_is_clickable_by_property() {
    let manager = AccessibilityManager::new();

    let clickable_node = json(
        r#"{
            "role": {"value": "div"},
            "properties": [
                {"name": "clickable", "value": {"booleanValue": true}}
            ]
        }"#,
    );

    assert!(manager.is_clickable(&clickable_node));
}

#[test]
fn test_search_nodes_by_role() {
    let manager = AccessibilityManager::new();

    let mut root = create_test_node("1", Some("document"), Some("Root"), false, None);
    let button1 = create_test_node("2", Some("button"), Some("Submit"), true, None);
    let button2 = create_test_node("3", Some("button"), Some("Cancel"), true, None);
    let text = create_test_node("4", Some("text"), Some("Hello"), false, None);

    root.children = vec![button1, button2, text];

    let results = manager.search_nodes_by_role(&root, "button");
    assert_eq!(results.len(), 2);
    assert!(results.iter().any(|n| n.name.as_ref().map(|name| name == "Submit").unwrap_or(false)));
    assert!(results.iter().any(|n| n.name.as_ref().map(|name| name == "Cancel").unwrap_or(false)));
}

#[test]
fn test_search_nodes_by_name() {
    let manager = AccessibilityManager::new();

    let mut root = create_test_node("1", Some("document"), Some("Root"), false, None);
    let submit_button = create_test_node("2", Some("button"), Some("Submit Form"), true, None);
    let submit_link = create_test_node("3", Some("link"), Some("Submit Request"), true, None);
    let other_button = create_test_node("4", Some("button"), Some("Cancel"), true, None);

    root.children = vec![submit_button, submit_link, other_button];

    let results = manager.search_nodes_by_name(&root, "submit");
    assert_eq!(results.len(), 2);

    let results_exact = manager.search_nodes_by_name(&root, "Cancel");
    assert_eq!(results_exact.len(), 1);
    assert_eq!(results_exact[0].name, Some("Cancel".to_string()));
}

#[test]
fn test_search_clickable_by_text() {
    let manager = AccessibilityManager::new();

    let mut root = create_test_node("1", Some("document"), Some("Root"), false, None);
    let clickable_with_name = create_test_node("2", Some("button"), Some("Click Here"), true, None);
    let clickable_with_desc = AccessibilityNode {
        node_id: "3".to_string(),
        role: Some("button".to_string()),
        name: None,
        description: Some("Click to continue".to_string()),
        value: None,
        properties: None,
        children: Vec::new(),
        bounds: None,
        focusable: false,
        focused: false,
        clickable: true,
    };
    let non_clickable = create_test_node("4", Some("text"), Some("Click me"), false, None);

    root.children = vec![clickable_with_name, clickable_with_desc, non_clickable];

    let results = manager.search_clickable_by_text(&root, "click");
    assert_eq!(results.len(), 2); // Only the clickable ones

    let results_specific = manager.search_clickable_by_text(&root, "continue");
    assert_eq!(results_specific.len(), 1);
}

#[test]
fn test_collect_node_summaries() {
    let manager = AccessibilityManager::new();

    let mut root = create_test_node("1", Some("document"), Some("Page"), false, Some((0.0, 0.0, 800.0, 600.0)));
    let button = create_test_node("2", Some("button"), Some("Submit"), true, Some((10.0, 20.0, 100.0, 30.0)));
    let text = create_test_node("3", Some("text"), Some("Hello World"), false, None);

    root.children = vec![button, text];

    let mut summary = Vec::new();
    manager.collect_node_summaries(&root, &mut summary, 0);

    assert_eq!(summary.len(), 3); // root + 2 children
    assert!(summary[0].contains("document: Page"));
    assert!(summary[0].contains("@(0,0)"));
    assert!(summary[1].contains("button: Submit"));
    assert!(summary[1].contains("[CLICKABLE]"));
    assert!(summary[1].contains("@(10,20)"));
    assert!(summary[2].contains("text: Hello World"));
    assert!(!summary[2].contains("[CLICKABLE]"));

    // Check indentation
    assert!(!summary[0].starts_with("  ")); // root level
    assert!(summary[1].starts_with("  ")); // child level
    assert!(summary[2].starts_with("  ")); // child level

    assert_eq!(summary[0], "document: Page @(0,0)");
    assert_eq!(summary[1], "  button: Submit @(10,20) [CLICKABLE]");
    assert_eq!(summary[2], "  text: Hello World");
}

#[test]
fn test_cache_management() {
    let mut manager = AccessibilityManager::new();

    // Initially no cache
    assert!(manager.cached_tree().is_none());

    // Set a cached tree
    manager
        .get_full_tree(&json(r#"{"nodes": [{"nodeId": "1", "role": {"value": "document"}, "name": {"value": "Test"}}]}"#))
        .unwrap();
    assert!(manager.cached_tree().is_some());

    // Clear cache
    manager.clear_cache();
    assert!(manager.cached_tree().is_none());
}

#[test]
fn test_nested_search() {
    let manager = AccessibilityManager::new();

    // Create nested structure: root -> form -> button
    let mut root = create_test_node("1", Some("document"), None, false, None);
    let mut form = create_test_node("2", Some("form"), None, false, None);
    let button = create_test_node("3", Some("button"), Some("Submit"), true, None);

    form.children = vec![button];
    root.children = vec![form];

    let results = manager.search_nodes_by_role(&root, "button");
    assert_eq!(results.len(), 1);
    assert_eq!(results[0].node_id, "3");
    assert_eq!(results[0].name, Some("Submit".to_string()));
}

#[test]
fn test_case_insensitive_search() {
    let manager = AccessibilityManager::new();

    let node = create_test_node("1", Some("BUTTON"), Some("SUBMIT FORM"), false, None);

    let results_role = manager.search_nodes_by_role(&node, "button");
    assert_eq!(results_role.len(), 1);

    let results_name = manager.search_nodes_by_name(&node, "submit");
    assert_eq!(results_name.len(), 1);
}

#[test]
fn test_tree_is_built_from_child_ids() {
    let manager = AccessibilityManager::new();
    let raw = json(
        r#"{"nodes": [
            {"nodeId": "1", "role": {"value": "document"}, "childIds": ["2", 7, "missing", "3"],
             "properties": [{"name": "focusable", "value": {"booleanValue": true}}]},
            {"nodeId": "2", "role": {"value": "form"}, "childIds": ["4"],
             "description": {"value": "the form"}, "value": {"value": "v"}},
            {"nodeId": "3", "role": {"value": "link"}, "name": {"value": "Home"}},
            {"nodeId": "4", "role": {"value": "text"}, "name": {"value": "deep"},
             "properties": [{"name": "clickable", "value": {"booleanValue": true}},
                            {"name": "focused", "value": {"booleanValue": true}}]},
            {"nodeId": "2", "role": {"value": "shadowed"}}
        ]}"#,
    );
    let tree = manager.parse_accessibility_tree(&raw).unwrap();
    assert_eq!(tree.node_id, "1");
    assert!(tree.focusable);
    assert!(!tree.focused);
    assert!(tree.properties.is_some());
    assert_eq!(tree.children.len(), 2);
    assert_eq!(tree.children[0].node_id, "2");
    assert_eq!(tree.children[0].role, Some("form".to_string()));
    assert_eq!(tree.children[0].description, Some("the form".to_string()));
    assert_eq!(tree.children[0].value, Some("v".to_string()));
    assert_eq!(tree.children[1].node_id, "3");
    assert!(tree.children[1].clickable);
    let deep = &tree.children[0].children[0];
    assert_eq!(deep.node_id, "4");
    assert!(deep.clickable);
    assert!(deep.focused);
    assert!(deep.bounds.is_none());

    // A node without id is "unknown"; a missing coordinate is zero.
    let raw = json(r#"{"nodes": [{"boundingRect": {"x": 1.5, "width": "wide"}}]}"#);
    let tree = manager.parse_accessibility_tree(&raw).unwrap();
    assert_eq!(tree.node_id, "unknown");
    let bounds = tree.bounds.unwrap();
    assert_eq!(bounds.x.as_f64(), Some(1.5));
    assert_eq!(bounds.y.as_f64(), Some(0.0));
    assert_eq!(bounds.width.as_f64(), Some(0.0));
}

#[test]
fn test_child_ids_that_loop_do_not_loop_the_parser() {
    let manager = AccessibilityManager::new();
    let raw = json(
        r#"{"nodes": [
            {"nodeId": "1", "childIds": ["2"]},
            {"nodeId": "2", "childIds": ["1"]}
        ]}"#,
    );
    let tree = manager.parse_accessibility_tree(&raw).unwrap();
    assert_eq!(tree.node_id, "1");
    assert_eq!(tree.children[0].node_id, "2");
    assert_eq!(tree.children[0].children[0].node_id, "1");
    assert!(tree.children[0].children[0].children.is_empty());
}

#[test]
fn test_search_results_come_in_document_order() {
    let mut root = create_test_node("1", Some("list"), Some("item a"), false, None);
    let mut first = create_test_node("2", Some("listitem"), Some("item b"), false, None);
    first.children = vec![create_test_node("3", Some("text"), Some("item c"), false, None)];
    root.children = vec![first, create_test_node("4", Some("listitem"), Some("Item D"), false, None)];
    let ids: Vec<String> = search_nodes(&root, SearchKind::Name, "ITEM")
        .into_iter()
        .map(|n| n.node_id)
        .collect();
    assert_eq!(ids, vec!["1", "2", "3", "4"]);
    let ids: Vec<String> = search_nodes(&root, SearchKind::Role, "item")
        .into_iter()
        .map(|n| n.node_id)
        .collect();
    assert_eq!(ids, vec!["2", "4"]);
    assert!(search_nodes(&root, SearchKind::Description, "item").is_empty());
    assert!(matches_node(&root, SearchKind::Name, ""));
    assert!(!matches_node(&root, SearchKind::ClickableText, "item"));
}

#[test]
fn test_manager_searches_need_a_snapshot() {
    let mut manager = AccessibilityManager::new();
    assert!(manager.find_by_role("button").is_none());
    assert!(manager.find_clickable_by_text("x").is_none());
    let raw = json(
        r#"{"nodes": [
            {"nodeId": "1", "role": {"value": "document"}, "childIds": ["2"]},
            {"nodeId": "2", "role": {"value": "button"}, "name": {"value": "Go"},
             "description": {"value": "starts"}}
        ]}"#,
    );
    let lines = manager.get_tree_summary(&raw).unwrap();
    assert_eq!(lines, vec!["document: (no name)", "  button: Go [CLICKABLE]"]);
    assert_eq!(manager.find_by_role("BUTTON").unwrap().len(), 1);
    assert_eq!(manager.find_by_name("go").unwrap()[0].node_id, "2");
    assert_eq!(manager.find_by_description("start").unwrap().len(), 1);
    assert_eq!(manager.find_clickable_by_text("starts").unwrap().len(), 1);
    assert!(manager.find_by_name("stop").unwrap().is_empty());
    assert_eq!(
        manager.get_tree_summary(&json("{}")),
        Err(ChromeMcpError::Accessibility("Invalid accessibility tree format".to_string()))
    );
    assert!(manager.cached_tree().is_some());
}
