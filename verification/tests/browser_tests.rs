use chrome_mcp::accessibility::{AccessibilityManager, AccessibilityNode, Bounds};
use chrome_mcp::browser::{
    choose_tab, click_element_ref, click_script, clear_cookies, current_url, current_url_result,
    element_clickable_script, element_visibility_script, find_element_by_role,
    find_element_by_selector, find_element_by_text, find_elements, find_in_snapshot, flag_result,
    get_cookies, get_cookies_result, is_element_visible, mouse_move, page_title_result, probe,
    scroll, scroll_by_script, scroll_into_view_script, select_option_script, set_cookie,
    is_lost, text_present_script, text_result, Browser, ClickPlan, Cookie, ElementRef, Locator,
    LocatorStep, ResolutionKind, TabChoice, Wait, WaitCondition, WaitState, WaitStep,
    NAVIGATION_TIMEOUT_MS, POLL_INTERVAL_MS,
};
use chrome_mcp::cdp::{Command, ConnectionState, TabInfo};
use chrome_mcp::error::ChromeMcpError;
use chrome_mcp::json::Json;
use std::collections::HashMap;

fn json(text: &str) -> Json {
    Json::parse(text).unwrap()
}

fn same(actual: &Option<Json>, expected: &str) -> bool {
    match actual {
        Some(value) => value.to_text() == json(expected).to_text(),
        None => false,
    }
}

fn number(text: &str) -> serde_json::Number {
    text.parse().unwrap()
}

fn node(id: &str, role: Option<&str>, name: Option<&str>, clickable: bool) -> AccessibilityNode {
    AccessibilityNode {
        node_id: id.to_string(),
        role: role.map(|s| s.to_string()),
        name: name.map(|s| s.to_string()),
        description: None,
        value: None,
        properties: None,
        children: Vec::new(),
        bounds: None,
        focusable: false,
        focused: false,
        clickable,
    }
}

#[test]
fn test_wait_condition_structure() {
    let conditions = vec![
        WaitCondition::ElementVisible(".button".to_string()),
        WaitCondition::ElementClickable("#submit".to_string()),
        WaitCondition::TextPresent("Loading complete".to_string()),
        WaitCondition::UrlContains("success".to_string()),
    ];

    assert_eq!(conditions.len(), 4);

    match &conditions[0] {
        WaitCondition::ElementVisible(selector) => assert_eq!(selector, ".button"),
        _ => panic!("Expected ElementVisible condition"),
    }

    match &conditions[1] {
        WaitCondition::ElementClickable(selector) => assert_eq!(selector, "#submit"),
        _ => panic!("Expected ElementClickable condition"),
    }

    match &conditions[2] {
        WaitCondition::TextPresent(text) => assert_eq!(text, "Loading complete"),
        _ => panic!("Expected TextPresent condition"),
    }

    match &conditions[3] {
        WaitCondition::UrlContains(url_part) => assert_eq!(url_part, "success"),
        _ => panic!("Expected UrlContains condition"),
    }
}

#[test]
fn test_javascript_expression_construction() {
    let selector = "button.submit";
    let expected_expression = format!(
        r#"
                const el = document.querySelector('{}');
                el && el.offsetParent !== null && 
                getComputedStyle(el).visibility !== 'hidden' && 
                getComputedStyle(el).display !== 'none'
                "#,
        selector.replace("'", "\\'")
    );

    assert!(expected_expression.contains("document.querySelector"));
    assert!(expected_expression.contains("button.submit"));
    assert!(expected_expression.contains("offsetParent"));
    assert!(expected_expression.contains("getComputedStyle"));
    assert_eq!(element_visibility_script(selector), expected_expression);
}

#[test]
fn test_javascript_expression_escaping() {
    let selector_with_quotes = "button[data-test='submit']";
    let escaped = selector_with_quotes.replace("'", "\\'");
    assert_eq!(escaped, "button[data-test=\\'submit\\']");

    let expression = format!("document.querySelector('{}')", escaped);
    assert!(expression.contains("\\'submit\\'"));
    assert_eq!(click_script(selector_with_quotes), format!("{}.click()", expression));
}

#[test]
fn test_element_visibility_expression() {
    let selector = ".modal";
    let expression = format!(
        r#"
                const el = document.querySelector('{}');
                el && el.offsetParent !== null && 
                getComputedStyle(el).visibility !== 'hidden' && 
                getComputedStyle(el).display !== 'none'
                "#,
        selector
    );

    assert!(expression.contains("querySelector('.modal')"));
    assert!(expression.contains("visibility !== 'hidden'"));
    assert!(expression.contains("display !== 'none'"));
    assert_eq!(element_visibility_script(selector), expression);
}

#[test]
fn test_element_clickable_expression() {
    let selector = "#submit-btn";
    let expression = format!(
        r#"
                const el = document.querySelector('{}');
                el && el.offsetParent !== null && 
                !el.disabled &&
                getComputedStyle(el).pointerEvents !== 'none'
                "#,
        selector
    );

    assert!(expression.contains("querySelector('#submit-btn')"));
    assert!(expression.contains("!el.disabled"));
    assert!(expression.contains("pointerEvents !== 'none'"));
    assert_eq!(element_clickable_script(selector), expression);
}

#[test]
fn test_text_presence_expression() {
    let text = "Welcome to our site";
    let escaped_text = text.replace("'", "\\'");
    let expression = format!("document.body.textContent.includes('{}')", escaped_text);

    assert_eq!(expression, "document.body.textContent.includes('Welcome to our site')");
    assert_eq!(text_present_script(text), expression);
}

#[test]
fn test_text_presence_expression_with_quotes() {
    let text = "It's working";
    let escaped_text = text.replace("'", "\\'");
    let expression = format!("document.body.textContent.includes('{}')", escaped_text);

    assert_eq!(expression, "document.body.textContent.includes('It\\'s working')");
    assert_eq!(text_present_script(text), expression);
}

#[test]
fn test_coordinate_calculation() {
    // Test center coordinate calculation
    let bounds = (10.0, 20.0, 100.0, 50.0); // x, y, width, height
    let center_x = bounds.0 + bounds.2 / 2.0;
    let center_y = bounds.1 + bounds.3 / 2.0;

    assert_eq!(center_x, 60.0);
    assert_eq!(center_y, 45.0);
}

#[test]
fn test_selector_validation() {
    let valid_selectors = vec![
        "#id",
        ".class",
        "tag",
        "tag.class",
        "[attribute=value]",
        "parent > child",
        "element:nth-child(2)",
    ];

    for selector in valid_selectors {
        // Basic selector validation
        assert!(!selector.is_empty());
        assert!(selector.len() > 0);
    }
}

#[test]
fn test_http_method_validation() {
    let valid_methods = vec!["GET", "POST", "PUT", "DELETE", "PATCH", "HEAD", "OPTIONS"];

    for method in valid_methods {
        assert!(!method.is_empty());
        assert!(method.is_ascii());
        assert!(method.chars().all(|c| c.is_ascii_uppercase()));
    }
}

#[test]
fn test_status_code_validation() {
    let valid_status_codes = vec![200, 201, 204, 301, 302, 400, 401, 403, 404, 500];

    for code in valid_status_codes {
        assert!(code >= 100);
        assert!(code < 600);
    }
}

#[test]
fn test_timestamp_validation() {
    // Test Unix timestamp validation
    let timestamps = vec![1640995200.0, 1672531200.5, 1704067200.123];

    for timestamp in timestamps {
        assert!(timestamp > 0.0);
        assert!(timestamp > 1_000_000_000.0); // After 2001 (reasonable for web events)
    }
}

#[test]
fn test_header_validation() {
    let mut headers = HashMap::new();
    headers.insert("Content-Type".to_string(), "application/json".to_string());
    headers.insert("User-Agent".to_string(), "chrome-mcp/0.1.0".to_string());
    headers.insert("Authorization".to_string(), "Bearer token123".to_string());

    for (name, value) in &headers {
        assert!(!name.is_empty());
        assert!(!value.is_empty());
        assert!(!name.contains(" ")); // Header names shouldn't contain spaces
    }
}

#[test]
fn test_cookie_path_validation() {
    let valid_paths = vec!["/", "/api", "/api/v1", "/path/to/resource"];

    for path in valid_paths {
        assert!(path.starts_with("/"));
        assert!(!path.is_empty());
    }
}

#[test]
fn test_domain_validation() {
    let valid_domains = vec![
        "example.com",
        "subdomain.example.com",
        "localhost",
        "192.168.1.1",
    ];

    for domain in valid_domains {
        assert!(!domain.is_empty());
        assert!(!domain.starts_with("."));
        assert!(!domain.ends_with("."));
    }
}

#[test]
fn browser_test_url_validation() {
    let valid_urls = vec![
        "https://example.com",
        "http://localhost:3000",
        "https://api.github.com/repos",
        "file:///path/to/file.html",
    ];

    for url_str in valid_urls {
        // Basic URL validation
        assert!(!url_str.is_empty());
        assert!(url_str.contains("://"));
    }
}

#[test]
fn browser_test_browser_creation() {
    let result = Browser::<u32>::new("localhost", 9222);
    assert!(result.is_ok());
    let browser = result.unwrap();
    assert_eq!(browser.cdp.state(), ConnectionState::Disconnected);
    assert!(browser.accessibility.cached_tree().is_none());
}

#[test]
fn test_cookie_structure() {
    let cookie = Cookie {
        name: "session_id".to_string(),
        value: "abc123".to_string(),
        domain: "example.com".to_string(),
        path: "/".to_string(),
        secure: true,
        http_only: false,
        same_site: Some("Lax".to_string()),
        expires: Some(number("1672531200.0")),
    };

    assert_eq!(cookie.name, "session_id");
    assert_eq!(cookie.value, "abc123");
    assert_eq!(cookie.domain, "example.com");
    assert_eq!(cookie.path, "/");
    assert!(cookie.secure);
    assert!(!cookie.http_only);
    assert_eq!(cookie.same_site, Some("Lax".to_string()));
    assert!(cookie.expires.is_some());
}

#[test]
fn test_cookie_same_site_values() {
    let valid_same_site_values = vec!["Strict", "Lax", "None"];

    for value in valid_same_site_values {
        let cookie = Cookie {
            name: "test".to_string(),
            value: "value".to_string(),
            domain: "example.com".to_string(),
            path: "/".to_string(),
            secure: false,
            http_only: false,
            same_site: Some(value.to_string()),
            expires: None,
        };

        assert!(matches!(
            cookie.same_site.as_deref(),
            Some("Strict") | Some("Lax") | Some("None")
        ));
    }
}

#[test]
fn test_scripts_have_their_exact_text() {
    assert_eq!(scroll_by_script(10, -250), "window.scrollBy(10, -250)");
    assert_eq!(
        scroll_into_view_script("#it's"),
        "document.querySelector('#it\\'s').scrollIntoView({ behavior: 'smooth', block: 'center' })"
    );
    assert_eq!(click_script("a.b"), "document.querySelector('a.b').click()");
    let select = select_option_script("#s", "o'k");
    assert!(select.contains("document.querySelector('#s')"));
    assert!(select.contains("select.value = 'o\\'k';"));
    assert!(select.contains("new Event('change', { bubbles: true })"));
    assert!(select.contains("throw new Error('Select element not found');"));
}

#[test]
fn test_page_commands() {
    let c = scroll(0, 5);
    assert_eq!(c.method, "Runtime.evaluate");
    assert!(same(&c.params, r#"{"expression": "window.scrollBy(0, 5)"}"#));
    let c = is_element_visible(".x");
    let params = c.params.unwrap();
    assert_eq!(params.get("returnByValue"), Some(&Json::Bool(true)));
    assert_eq!(
        params.get("expression").and_then(|e| e.as_str()),
        Some(element_visibility_script(".x").as_str())
    );
    assert_eq!(current_url().params.unwrap().get("expression"), Some(&Json::string("window.location.href")));
    assert_eq!(get_cookies(), Command { method: "Network.getCookies".to_string(), params: None });
    assert_eq!(clear_cookies().method, "Network.clearBrowserCookies");
    let m = mouse_move(&number("60.5"), &number("45"));
    assert_eq!(m.method, "Input.dispatchMouseEvent");
    assert!(same(&m.params, r#"{"type": "mouseMoved", "x": 60.5, "y": 45}"#));
}

#[test]
fn test_evaluate_reply_readers() {
    assert!(flag_result(&json(r#"{"result": {"value": true}}"#)));
    assert!(!flag_result(&json(r#"{"result": {"value": false}}"#)));
    assert!(!flag_result(&json(r#"{"result": {"value": "true"}}"#)));
    assert!(!flag_result(&json(r#"{}"#)));
    assert_eq!(text_result(&json(r#"{"result": {"value": "abc"}}"#)), Some("abc".to_string()));
    assert_eq!(text_result(&json(r#"{"result": {"value": 3}}"#)), None);
    assert_eq!(
        current_url_result(&json(r#"{"result": {"value": "https://a.b/"}}"#)),
        Ok("https://a.b/".to_string())
    );
    assert_eq!(
        current_url_result(&json(r#"{"result": {}}"#)),
        Err(ChromeMcpError::CdpProtocol("Could not get current URL".to_string()))
    );
    assert_eq!(
        page_title_result(&json(r#"{"result": {}}"#)),
        Err(ChromeMcpError::CdpProtocol("Could not get page title".to_string()))
    );
}

#[test]
fn test_cookies_are_read_and_written() {
    let reply = json(
        r#"{"cookies": [
            {"name": "a", "value": "1", "domain": "d", "path": "/", "secure": true, "httpOnly": false,
             "sameSite": "Lax", "expires": 12.5},
            {"name": "no-path", "value": "1", "domain": "d", "secure": true, "httpOnly": false},
            {"name": "b", "value": "2", "domain": "e", "path": "/p", "secure": "yes", "httpOnly": true}
        ]}"#,
    );
    let cookies = get_cookies_result(&reply).unwrap();
    assert_eq!(cookies.len(), 2);
    assert_eq!(cookies[0].name, "a");
    assert!(cookies[0].secure);
    assert_eq!(cookies[0].same_site, Some("Lax".to_string()));
    assert_eq!(cookies[0].expires, Some(number("12.5")));
    assert_eq!(cookies[1].name, "b");
    assert!(!cookies[1].secure);
    assert!(cookies[1].http_only);
    assert_eq!(cookies[1].expires, None);
    assert_eq!(
        get_cookies_result(&json(r#"{"cookies": 3}"#)),
        Err(ChromeMcpError::Network("Invalid cookies response".to_string()))
    );

    let command = set_cookie(&cookies[0]);
    assert_eq!(command.method, "Network.setCookie");
    assert!(same(&command.params, r#"{"name": "a", "value": "1", "domain": "d", "path": "/", "secure": true,
                "httpOnly": false, "sameSite": "Lax", "expires": 12.5}"#));
    let plain = set_cookie(&cookies[1]).params.unwrap();
    assert!(plain.get("sameSite").is_none());
    assert!(plain.get("expires").is_none());
}

#[test]
fn test_click_plan() {
    let mut element = ElementRef {
        id: "dom-7".to_string(),
        kind: ResolutionKind::Selector,
        selector: Some("#go".to_string()),
        accessibility_id: None,
        bounds: None,
        text: None,
        role: None,
    };
    match click_element_ref(&element).unwrap() {
        ClickPlan::Script(c) => {
            assert_eq!(c.method, "Runtime.evaluate");
            assert!(same(&c.params, r#"{"expression": "document.querySelector('#go').click()"}"#));
        }
        other => panic!("expected a script, got {:?}", other),
    }
    element.bounds = Some(Bounds {
        x: number("10"),
        y: number("20"),
        width: number("100"),
        height: number("50"),
    });
    match click_element_ref(&element).unwrap() {
        ClickPlan::Center(b) => assert_eq!(b.width, number("100")),
        other => panic!("expected bounds, got {:?}", other),
    }
    element.bounds = None;
    element.selector = None;
    assert_eq!(
        click_element_ref(&element),
        Err(ChromeMcpError::InvalidOperation(
            "Cannot click element: no bounds or selector".to_string()
        ))
    );
}

#[test]
fn test_selector_strategy_reads_first_node() {
    let found = find_element_by_selector("#x", &json(r#"{"nodeIds": [42, 43]}"#)).unwrap();
    assert_eq!(found.id, "dom-42");
    assert_eq!(found.kind, ResolutionKind::Selector);
    assert_eq!(found.selector, Some("#x".to_string()));
    assert_eq!(
        find_element_by_selector("#x", &json(r#"{"nodeIds": []}"#)),
        Err(ChromeMcpError::ElementNotFound("No elements found for selector: #x".to_string()))
    );
    assert_eq!(
        find_element_by_selector("#x", &json(r#"{}"#)),
        Err(ChromeMcpError::ElementNotFound("No elements found for selector: #x".to_string()))
    );
    assert_eq!(
        find_element_by_selector("#x", &json(r#"{"nodeIds": ["a"]}"#)),
        Err(ChromeMcpError::CdpProtocol("Invalid node ID".to_string()))
    );
}

fn sample_tree() -> AccessibilityNode {
    let mut root = node("1", Some("document"), Some("Root"), false);
    let mut form = node("2", Some("form"), Some("button area"), false);
    form.children = vec![
        node("3", Some("button"), Some("Submit"), true),
        node("4", Some("button"), Some("Cancel"), true),
    ];
    root.children = vec![form, node("5", Some("link"), Some("submit later"), true)];
    root
}

#[test]
fn test_snapshot_strategies_take_the_first_match_in_document_order() {
    let tree = sample_tree();
    let by_text = find_element_by_text(&tree, "SUBMIT").unwrap();
    assert_eq!(by_text.id, "ax-3");
    assert_eq!(by_text.kind, ResolutionKind::Accessibility);
    assert_eq!(by_text.accessibility_id, Some("3".to_string()));
    assert_eq!(by_text.text, Some("Submit".to_string()));
    assert_eq!(by_text.role, Some("button".to_string()));
    let by_role = find_element_by_role(&tree, "butt").unwrap();
    assert_eq!(by_role.id, "ax-3");
    // "button" is the text of no clickable node, but the role of two nodes
    // and part of the name of a node that is not clickable.
    assert_eq!(
        find_element_by_text(&tree, "button"),
        Err(ChromeMcpError::ElementNotFound(
            "No clickable element found with text: button".to_string()
        ))
    );
    assert_eq!(find_in_snapshot(&tree, "button").unwrap().id, "ax-3");
    assert_eq!(find_in_snapshot(&tree, "later").unwrap().id, "ax-5");
    assert_eq!(
        find_in_snapshot(&tree, "nothing"),
        Err(ChromeMcpError::ElementNotFound("Element not found: nothing".to_string()))
    );
    assert_eq!(
        find_element_by_role(&tree, "slider"),
        Err(ChromeMcpError::ElementNotFound("No element found with role: slider".to_string()))
    );
}

const SNAPSHOT: &str = r#"{"nodes": [
    {"nodeId": "1", "role": {"value": "document"}, "childIds": ["2", "3"]},
    {"nodeId": "2", "role": {"value": "button"}, "name": {"value": "button"},
     "boundingRect": {"x": 10, "y": 20, "width": 100, "height": 50}},
    {"nodeId": "3", "role": {"value": "link"}, "name": {"value": "Home"}}
]}"#;

#[test]
fn test_strategy_order_selector_wins_over_role() {
    // The target "button" matches a selector and also the role of a node.
    let mut accessibility = AccessibilityManager::new();
    accessibility.get_full_tree(&json(SNAPSHOT)).unwrap();
    let (mut locator, first) = Locator::start("button");
    assert_eq!(first, Command { method: "DOM.getDocument".to_string(), params: None });
    let step = locator.advance(Ok(json(r#"{"root": {"nodeId": 1}}"#)), &mut accessibility);
    match step {
        LocatorStep::Call(c) => {
            assert_eq!(c.method, "DOM.querySelectorAll");
            assert!(same(&c.params, r#"{"nodeId": 1, "selector": "button"}"#));
        }
        other => panic!("expected a call, got {:?}", other),
    }
    let step = locator.advance(Ok(json(r#"{"nodeIds": [17]}"#)), &mut accessibility);
    match step {
        LocatorStep::Found(e) => {
            assert_eq!(e.kind, ResolutionKind::Selector);
            assert_eq!(e.id, "dom-17");
        }
        other => panic!("expected the selector match, got {:?}", other),
    }
    assert!(locator.is_done());
}

#[test]
fn test_locator_falls_back_to_snapshot_and_fetches_it_once() {
    let mut accessibility = AccessibilityManager::new();
    let (mut locator, _) = Locator::start("button");
    let step = locator.advance(Ok(json(r#"{"root": {"nodeId": 1}}"#)), &mut accessibility);
    assert!(matches!(step, LocatorStep::Call(_)));
    // The selector finds nothing, and no snapshot is held: it is asked for.
    let step = locator.advance(Ok(json(r#"{"nodeIds": []}"#)), &mut accessibility);
    assert_eq!(
        step,
        LocatorStep::Call(Command {
            method: "Accessibility.getFullAXTree".to_string(),
            params: None
        })
    );
    let step = locator.advance(Ok(json(SNAPSHOT)), &mut accessibility);
    match step {
        LocatorStep::Found(e) => {
            assert_eq!(e.kind, ResolutionKind::Accessibility);
            assert_eq!(e.id, "ax-2");
            assert_eq!(e.bounds.map(|b| b.width), Some(number("100")));
        }
        other => panic!("expected the snapshot match, got {:?}", other),
    }
    assert!(accessibility.cached_tree().is_some());

    // A second resolution uses the snapshot that is held.
    let (mut locator, _) = Locator::start("home");
    let step = locator.advance(
        Err(ChromeMcpError::CdpProtocol("no document".to_string())),
        &mut accessibility,
    );
    match step {
        LocatorStep::Found(e) => assert_eq!(e.id, "ax-3"),
        other => panic!("expected the snapshot match, got {:?}", other),
    }
}

#[test]
fn test_locator_not_found_names_the_target() {
    let mut accessibility = AccessibilityManager::new();
    accessibility.get_full_tree(&json(SNAPSHOT)).unwrap();
    let (mut locator, _) = Locator::start("#missing");
    locator.advance(Ok(json(r#"{"root": {"nodeId": 1}}"#)), &mut accessibility);
    let step = locator.advance(Ok(json(r#"{"nodeIds": []}"#)), &mut accessibility);
    assert_eq!(
        step,
        LocatorStep::NotFound(ChromeMcpError::ElementNotFound(
            "Element not found: #missing".to_string()
        ))
    );
    let again = locator.advance(Ok(json("{}")), &mut accessibility);
    assert_eq!(
        again,
        LocatorStep::NotFound(ChromeMcpError::InvalidOperation(
            "The resolution is over".to_string()
        ))
    );

    // A snapshot that cannot be had means that nothing is found.
    let mut empty = AccessibilityManager::new();
    let (mut locator, _) = Locator::start("x");
    locator.advance(Err(ChromeMcpError::CdpProtocol("e".to_string())), &mut empty);
    let step = locator.advance(Ok(json(r#"{"nodes": []}"#)), &mut empty);
    assert_eq!(
        step,
        LocatorStep::NotFound(ChromeMcpError::ElementNotFound("Element not found: x".to_string()))
    );
}

#[test]
fn test_find_elements_collects_every_strategy() {
    let tree = sample_tree();
    let by_selector = find_element_by_selector("button", &json(r#"{"nodeIds": [9]}"#));
    let found = find_elements("button", by_selector, Some(&tree)).unwrap();
    let ids: Vec<&str> = found.iter().map(|e| e.id.as_str()).collect();
    assert_eq!(ids, vec!["dom-9", "ax-3"]);
    let none = find_elements(
        "zzz",
        Err(ChromeMcpError::ElementNotFound("x".to_string())),
        Some(&tree),
    );
    assert_eq!(
        none,
        Err(ChromeMcpError::ElementNotFound("No elements found for: zzz".to_string()))
    );
}

#[test]
fn test_wait_early_exit_once_element_is_visible() {
    let (mut wait, first) = Wait::start(WaitCondition::ElementVisible("#x".to_string()), 10_000);
    assert_eq!(first, WaitStep::Call(is_element_visible("#x")));
    assert_eq!(wait.current_state(), WaitState::Probing);
    // Not visible yet: pause for one polling interval.
    let step = wait.on_reply(3, Ok(json(r#"{"result": {"value": false}}"#)));
    assert_eq!(step, WaitStep::Sleep(POLL_INTERVAL_MS));
    assert_eq!(POLL_INTERVAL_MS, 100);
    let step = wait.on_wake(103);
    assert_eq!(step, WaitStep::Call(is_element_visible("#x")));
    // Visible now: success at once, with almost all of the deadline left.
    let step = wait.on_reply(105, Ok(json(r#"{"result": {"value": true}}"#)));
    assert_eq!(step, WaitStep::Satisfied);
    assert_eq!(wait.current_state(), WaitState::Satisfied);
}

#[test]
fn test_wait_times_out_with_the_deadline_in_the_error() {
    let (mut wait, _) = Wait::start(WaitCondition::TextPresent("done".to_string()), 250);
    assert_eq!(wait.on_reply(10, Ok(json(r#"{"result": {"value": false}}"#))), WaitStep::Sleep(100));
    assert!(matches!(wait.on_wake(110), WaitStep::Call(_)));
    assert_eq!(wait.on_reply(120, Ok(json(r#"{"result": {"value": false}}"#))), WaitStep::Sleep(100));
    assert!(matches!(wait.on_wake(220), WaitStep::Call(_)));
    // Only 20 ms are left: the pause is cut to the deadline.
    assert_eq!(wait.on_reply(230, Ok(json(r#"{"result": {"value": false}}"#))), WaitStep::Sleep(20));
    assert_eq!(
        wait.on_wake(250),
        WaitStep::TimedOut(ChromeMcpError::Timeout { timeout: 250 })
    );
    assert_eq!(wait.current_state(), WaitState::TimedOut);

    let (mut wait, _) = Wait::start(WaitCondition::PageLoad, 50);
    assert_eq!(
        wait.on_reply(51, Ok(json(r#"{"result": {"value": "complete"}}"#))),
        WaitStep::TimedOut(ChromeMcpError::Timeout { timeout: 50 })
    );

    let (mut wait, _) = Wait::start(WaitCondition::PageLoad, 50);
    assert_eq!(
        wait.on_deadline(),
        WaitStep::TimedOut(ChromeMcpError::Timeout { timeout: 50 })
    );
    assert!(matches!(wait.on_deadline(), WaitStep::Failed(_)));
}

#[test]
fn test_wait_conditions_and_their_probes() {
    assert_eq!(probe(&WaitCondition::NetworkIdle(5)), None);
    assert_eq!(
        probe(&WaitCondition::ElementPresent("a".to_string())).unwrap().method,
        "DOM.getDocument"
    );
    assert!(same(&probe(&WaitCondition::PageLoad).unwrap().params, r#"{"expression": "document.readyState", "returnByValue": true}"#));

    let (mut wait, _) = Wait::start(WaitCondition::PageLoad, 1000);
    assert_eq!(
        wait.on_reply(1, Ok(json(r#"{"result": {"value": "loading"}}"#))),
        WaitStep::Sleep(100)
    );
    wait.on_wake(101);
    assert_eq!(
        wait.on_reply(102, Ok(json(r#"{"result": {"value": "complete"}}"#))),
        WaitStep::Satisfied
    );

    let (mut wait, _) = Wait::start(WaitCondition::UrlContains("success".to_string()), 1000);
    assert_eq!(
        wait.on_reply(1, Ok(json(r#"{"result": {"value": "https://x/success?1"}}"#))),
        WaitStep::Satisfied
    );
    let (mut wait, _) = Wait::start(WaitCondition::UrlMatches("success".to_string()), 1000);
    assert_eq!(
        wait.on_reply(1, Ok(json(r#"{"result": {}}"#))),
        WaitStep::Failed(ChromeMcpError::CdpProtocol("Could not get current URL".to_string()))
    );
    assert_eq!(wait.current_state(), WaitState::Failed);

    // A probe that fails ends the wait with its error.
    let (mut wait, _) = Wait::start(WaitCondition::ElementClickable("#b".to_string()), 1000);
    assert_eq!(
        wait.on_reply(1, Err(ChromeMcpError::CdpConnection("Connection closed".to_string()))),
        WaitStep::Failed(ChromeMcpError::CdpConnection("Connection closed".to_string()))
    );

    // An element is present once the selector finds it; a lookup that
    // fails means that it is not present yet.
    let (mut wait, _) = Wait::start(WaitCondition::ElementPresent("#p".to_string()), 1000);
    assert_eq!(
        wait.on_reply(1, Err(ChromeMcpError::CdpProtocol("x".to_string()))),
        WaitStep::Sleep(100)
    );
    wait.on_wake(101);
    let step = wait.on_reply(102, Ok(json(r#"{"root": {"nodeId": 4}}"#)));
    assert_eq!(step, WaitStep::Call(Command::query_selector_all(4, "#p")));
    assert_eq!(wait.current_state(), WaitState::Querying);
    assert_eq!(wait.on_reply(103, Ok(json(r#"{"nodeIds": [8]}"#))), WaitStep::Satisfied);
}

#[test]
fn test_network_idle_is_a_quiet_period() {
    let (mut wait, first) = Wait::start(WaitCondition::NetworkIdle(300), 1000);
    assert_eq!(first, WaitStep::Sleep(300));
    assert_eq!(wait.current_state(), WaitState::Idling);
    assert_eq!(wait.on_wake(300), WaitStep::Satisfied);

    let (mut wait, first) = Wait::start(WaitCondition::NetworkIdle(1500), 1000);
    assert_eq!(first, WaitStep::Sleep(1000));
    assert_eq!(
        wait.on_wake(1000),
        WaitStep::TimedOut(ChromeMcpError::Timeout { timeout: 1000 })
    );

    let (wait, first) = Wait::start(WaitCondition::NetworkIdle(0), 1000);
    assert_eq!(first, WaitStep::Satisfied);
    assert_eq!(wait.current_state(), WaitState::Satisfied);

    let (mut wait, first) = Wait::start(WaitCondition::NetworkIdle(1000), 1000);
    assert_eq!(first, WaitStep::Sleep(1000));
    assert_eq!(wait.on_wake(400), WaitStep::Sleep(600));
    assert_eq!(wait.on_wake(1000), WaitStep::Satisfied);
}

#[test]
fn test_navigation_waits_for_the_page_to_load() {
    let (_wait, first) = Browser::<u8>::navigation_wait();
    assert_eq!(NAVIGATION_TIMEOUT_MS, 30000);
    assert_eq!(first, probe(&WaitCondition::PageLoad).map(WaitStep::Call).unwrap());
    let mut browser = Browser::<u8>::new("localhost", 9222).unwrap();
    browser.accessibility.get_full_tree(&json(SNAPSHOT)).unwrap();
    assert!(browser.accessibility.cached_tree().is_some());
    browser.navigated();
    assert!(browser.accessibility.cached_tree().is_none());
}

#[test]
fn test_tab_choice() {
    let tab = |id: &str| TabInfo {
        id: id.to_string(),
        title: String::new(),
        url: String::new(),
        description: String::new(),
        websocket_debugger_url: None,
    };
    assert_eq!(choose_tab(Some("T"), &vec![tab("A")]), TabChoice::Use("T".to_string()));
    assert_eq!(choose_tab(None, &vec![tab("A"), tab("B")]), TabChoice::Use("A".to_string()));
    assert_eq!(choose_tab(None, &Vec::new()), TabChoice::Create);
    let _unused: HashMap<u64, u8> = HashMap::new();
}

#[test]
fn test_browser_registers_calls_on_its_connection() {
    let mut browser = Browser::<&'static str>::new("localhost", 9222).unwrap();
    // Not connected: every call is refused, with a connection error.
    assert_eq!(
        browser.navigate("https://a/", "w"),
        Err(ChromeMcpError::CdpConnection("Connection is not ready".to_string()))
    );
    let tabs = vec![TabInfo {
        id: "T".to_string(),
        title: String::new(),
        url: String::new(),
        description: String::new(),
        websocket_debugger_url: Some("ws://localhost:9222/devtools/page/T".to_string()),
    }];
    browser.cdp.connect_to_tab(&tabs, "T").unwrap();
    browser.cdp.socket_opened(Vec::new());
    browser.cdp.enable_domains("w");
    assert_eq!(browser.cdp.state(), ConnectionState::Ready);

    let frame = browser.navigate("https://a/", "w").unwrap();
    assert_eq!((frame.id, frame.method.as_deref()), (Some(1), Some("Page.navigate")));
    let frame = browser.evaluate("1", "w").unwrap();
    assert_eq!((frame.id, frame.method.as_deref()), (Some(2), Some("Runtime.evaluate")));
    assert!(same(&frame.params, r#"{"expression": "1", "returnByValue": true, "awaitPromise": true}"#));
    let frame = browser.scroll(1, 2, "w").unwrap();
    assert!(same(&frame.params, r#"{"expression": "window.scrollBy(1, 2)"}"#));
    let frame = browser.scroll_to_element("a", "w").unwrap();
    assert_eq!(frame.id, Some(4));
    let frame = browser.select_option("s", "v", "w").unwrap();
    assert_eq!(frame.method.as_deref(), Some("Runtime.evaluate"));
    let frame = browser.current_url("w").unwrap();
    assert!(same(&frame.params, r#"{"expression": "window.location.href", "returnByValue": true}"#));
    let frame = browser.page_title("w").unwrap();
    assert!(same(&frame.params, r#"{"expression": "document.title", "returnByValue": true}"#));
    let frame = browser.accessibility_tree("w").unwrap();
    assert_eq!(frame.method.as_deref(), Some("Accessibility.getFullAXTree"));
    let frame = browser.get_cookies("w").unwrap();
    assert_eq!(frame.method.as_deref(), Some("Network.getCookies"));
    let frame = browser.clear_cookies("w").unwrap();
    assert_eq!(frame.method.as_deref(), Some("Network.clearBrowserCookies"));
    let frame = browser.screenshot(None, Some(50), "w").unwrap();
    assert!(same(&frame.params, r#"{"format": "png", "captureBeyondViewport": false}"#));
    let frame = browser.screenshot_full_page(Some("jpeg"), Some(50), "w").unwrap();
    assert!(same(
        &frame.params,
        r#"{"format": "jpeg", "captureBeyondViewport": true, "quality": 50}"#
    ));
    let frame = browser.pdf(&None, "w").unwrap();
    assert_eq!(frame.method.as_deref(), Some("Page.printToPDF"));
    let frame = browser.call(Command::get_document(), "w").unwrap();
    assert_eq!(frame.id, Some(14));
    assert_eq!(browser.cdp.pending_count(), 14);
    let cookie = Cookie {
        name: "n".to_string(),
        value: "v".to_string(),
        domain: "d".to_string(),
        path: "/".to_string(),
        secure: false,
        http_only: false,
        same_site: None,
        expires: None,
    };
    let frame = browser.set_cookie(&cookie, "w").unwrap();
    assert_eq!(frame.method.as_deref(), Some("Network.setCookie"));
}

#[test]
fn test_locator_hands_on_a_lost_browser() {
    let closed = ChromeMcpError::CdpConnection("Connection closed".to_string());
    let late = ChromeMcpError::Timeout { timeout: 30000 };
    let closed_again = || ChromeMcpError::CdpConnection("Connection closed".to_string());
    let late_again = || ChromeMcpError::Timeout { timeout: 30000 };

    // At the first command.
    let mut accessibility = AccessibilityManager::new();
    accessibility.get_full_tree(&json(SNAPSHOT)).unwrap();
    let (mut locator, _) = Locator::start("button");
    let step = locator.advance(Err(closed_again()), &mut accessibility);
    assert_eq!(step, LocatorStep::NotFound(closed_again()));
    assert!(locator.is_done());
    assert!(accessibility.cached_tree().is_some());

    // At the selector query: the snapshot that is held is not asked.
    let (mut locator, _) = Locator::start("button");
    locator.advance(Ok(json(r#"{"root": {"nodeId": 1}}"#)), &mut accessibility);
    let step = locator.advance(Err(late_again()), &mut accessibility);
    assert_eq!(step, LocatorStep::NotFound(late_again()));
    assert!(locator.is_done());

    // At the snapshot command.
    let mut empty = AccessibilityManager::new();
    let (mut locator, _) = Locator::start("button");
    locator.advance(Ok(json(r#"{"root": {"nodeId": 1}}"#)), &mut empty);
    let step = locator.advance(Ok(json(r#"{"nodeIds": []}"#)), &mut empty);
    assert!(matches!(step, LocatorStep::Call(_)));
    let step = locator.advance(Err(closed_again()), &mut empty);
    assert_eq!(step, LocatorStep::NotFound(closed_again()));
    assert!(empty.cached_tree().is_none());

    // An error object of the browser is no lost browser: the selector
    // found nothing, and the snapshot decides.
    let (mut locator, _) = Locator::start("button");
    locator.advance(Ok(json(r#"{"root": {"nodeId": 1}}"#)), &mut accessibility);
    let refused = ChromeMcpError::Protocol {
        code: -32000,
        message: "DOM Error while querying".to_string(),
        data: None,
    };
    match locator.advance(Err(refused), &mut accessibility) {
        LocatorStep::Found(e) => assert_eq!(e.id, "ax-2"),
        other => panic!("expected the snapshot match, got {:?}", other),
    }
    assert!(is_lost(&closed));
    assert!(is_lost(&late));
    assert!(!is_lost(&ChromeMcpError::CdpProtocol("x".to_string())));
}

#[test]
fn test_waiting_for_an_element_ends_when_the_browser_is_lost() {
    let (mut wait, _) = Wait::start(WaitCondition::ElementPresent("#p".to_string()), 1000);
    assert_eq!(
        wait.on_reply(1, Err(ChromeMcpError::CdpConnection("Connection closed".to_string()))),
        WaitStep::Failed(ChromeMcpError::CdpConnection("Connection closed".to_string()))
    );
    assert_eq!(wait.current_state(), WaitState::Failed);

    let (mut wait, _) = Wait::start(WaitCondition::ElementPresent("#p".to_string()), 100_000);
    wait.on_reply(1, Ok(json(r#"{"root": {"nodeId": 4}}"#)));
    assert_eq!(
        wait.on_reply(30_001, Err(ChromeMcpError::Timeout { timeout: 30000 })),
        WaitStep::Failed(ChromeMcpError::Timeout { timeout: 30000 })
    );
}

#[test]
fn test_navigation_drops_the_snapshot_however_the_wait_ends() {
    let ends = vec![
        (WaitStep::Satisfied, Ok(())),
        (
            WaitStep::TimedOut(ChromeMcpError::Timeout { timeout: 30000 }),
            Err(ChromeMcpError::Timeout { timeout: 30000 }),
        ),
        (
            WaitStep::Failed(ChromeMcpError::CdpConnection("Connection closed".to_string())),
            Err(ChromeMcpError::CdpConnection("Connection closed".to_string())),
        ),
        (
            WaitStep::Sleep(100),
            Err(ChromeMcpError::InvalidOperation("The wait is not over".to_string())),
        ),
        (
            WaitStep::Call(Command::get_document()),
            Err(ChromeMcpError::InvalidOperation("The wait is not over".to_string())),
        ),
    ];
    for (end, expected) in ends {
        let mut browser = Browser::<u8>::new("localhost", 9222).unwrap();
        browser.accessibility.get_full_tree(&json(SNAPSHOT)).unwrap();
        assert!(browser.accessibility.cached_tree().is_some());
        assert_eq!(browser.navigation_done(end), expected);
        assert!(browser.accessibility.cached_tree().is_none());
        assert_eq!(browser.cdp.state(), ConnectionState::Disconnected);
    }
}

#[test]
fn test_elements_conditions_and_cookies_can_be_cloned() {
    let element = ElementRef {
        id: "ax-1".to_string(),
        kind: ResolutionKind::Accessibility,
        selector: None,
        accessibility_id: Some("1".to_string()),
        bounds: Some(Bounds { x: number("1.5"), y: number("2"), width: number("3"), height: number("4") }),
        text: Some("t".to_string()),
        role: None,
    };
    assert_eq!(element.clone(), element);
    let condition = WaitCondition::UrlContains("x".to_string());
    assert_eq!(condition.clone(), condition);
    assert_eq!(WaitCondition::NetworkIdle(5).clone(), WaitCondition::NetworkIdle(5));
    let cookie = Cookie {
        name: "n".to_string(),
        value: "v".to_string(),
        domain: "d".to_string(),
        path: "/".to_string(),
        secure: true,
        http_only: false,
        same_site: Some("Lax".to_string()),
        expires: Some(number("12.5")),
    };
    assert_eq!(cookie.clone(), cookie);
}
