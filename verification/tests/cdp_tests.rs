use chrome_mcp::cdp::{
    connection_closed_error, document_root_id, evaluate_result, interpret_reply, lookup_tab,
    parse_tab_list, required_domains, screenshot_result, select_tab, timeout_error, Activation,
    CdpClient, CdpError, CdpMessage, Command, ConnectionState, Dispatch, TabInfo,
};
use chrome_mcp::error::ChromeMcpError;
use chrome_mcp::json::Json;

fn json(text: &str) -> Json {
    Json::parse(text).unwrap()
}

fn same(actual: &Option<Json>, expected: &str) -> bool {
    match actual {
        Some(value) => value.to_text() == json(expected).to_text(),
        None => false,
    }
}

fn tab(id: &str, socket: Option<&str>) -> TabInfo {
    TabInfo {
        id: id.to_string(),
        title: "t".to_string(),
        url: "about:blank".to_string(),
        description: String::new(),
        websocket_debugger_url: socket.map(|s| s.to_string()),
    }
}

/// A client that is connected to the tab "T" with the domains given enabled.
fn ready_client(domains: &[&str]) -> CdpClient<&'static str> {
    let mut client = CdpClient::new("localhost", 9222);
    let tabs = vec![tab("T", Some("ws://localhost:9222/devtools/page/T"))];
    let plan = client.connect_to_tab(&tabs, "T").unwrap();
    assert_eq!(plan, Some("ws://localhost:9222/devtools/page/T".to_string()));
    assert!(client.socket_opened(domains.iter().map(|d| d.to_string()).collect()));
    loop {
        match client.enable_domains("activation") {
            Activation::Send(frame) => {
                let id = frame.id.unwrap();
                let reply = reply_ok(id, "{}");
                match client.dispatch(reply) {
                    Dispatch::Resolved { frame, .. } => {
                        client.domain_reply(interpret_reply(frame)).unwrap();
                    }
                    other => panic!("expected the reply to resolve, got {:?}", other),
                }
            }
            Activation::Ready => break,
            Activation::Refused(e) => panic!("refused: {:?}", e),
        }
    }
    assert_eq!(client.state(), ConnectionState::Ready);
    client
}

fn reply_ok(id: u64, result: &str) -> CdpMessage {
    CdpMessage { id: Some(id), method: None, params: None, result: Some(json(result)), error: None }
}

#[test]
fn test_cdp_client_creation() {
    let client: CdpClient<u8> = CdpClient::new("localhost", 9222);
    assert!(client.current_tab_id().is_none());
    assert_eq!(client.state(), ConnectionState::Disconnected);
    assert_eq!(client.pending_count(), 0);
}

#[test]
fn test_discovery_addresses() {
    let client: CdpClient<u8> = CdpClient::new("127.0.0.1", 9223);
    assert_eq!(client.list_tabs_url(), "http://127.0.0.1:9223/json");
    assert_eq!(client.create_tab_url(None), "http://127.0.0.1:9223/json/new");
    assert_eq!(
        client.create_tab_url(Some("https://example.com")),
        "http://127.0.0.1:9223/json/new?https://example.com"
    );
    assert_eq!(client.close_tab_url("AB12"), "http://127.0.0.1:9223/json/close/AB12");
    let client: CdpClient<u8> = CdpClient::new("h", 0);
    assert_eq!(client.list_tabs_url(), "http://h:0/json");
    let client: CdpClient<u8> = CdpClient::new("h", 65535);
    assert_eq!(client.list_tabs_url(), "http://h:65535/json");
}

#[test]
fn test_tab_list_is_read_from_the_discovery_answer() {
    let body = r#"[
        {"id": "A", "title": "One", "url": "https://a/", "description": "",
         "webSocketDebuggerUrl": "ws://localhost:9222/devtools/page/A", "type": "page"},
        {"id": "B", "title": "Two", "url": "https://b/", "description": "d"}
    ]"#;
    let tabs = parse_tab_list(body).unwrap();
    assert_eq!(tabs.len(), 2);
    assert_eq!(tabs[0].id, "A");
    assert_eq!(
        tabs[0].websocket_debugger_url,
        Some("ws://localhost:9222/devtools/page/A".to_string())
    );
    assert_eq!(tabs[1].title, "Two");
    assert_eq!(tabs[1].description, "d");
    assert_eq!(tabs[1].websocket_debugger_url, None);
    assert_eq!(lookup_tab(&tabs, "B").map(|t| t.url.as_str()), Some("https://b/"));
    assert!(lookup_tab(&tabs, "C").is_none());

    assert_eq!(
        parse_tab_list(r#"[{"id": "A", "url": "u", "description": ""}]"#),
        Err(ChromeMcpError::CdpProtocol(
            "Failed to parse tab list: missing or invalid field `title`".to_string()
        ))
    );
    assert_eq!(
        parse_tab_list(r#"{"id": "A"}"#),
        Err(ChromeMcpError::CdpProtocol(
            "Failed to parse tab list: expected a list".to_string()
        ))
    );
    match parse_tab_list("not json") {
        Err(ChromeMcpError::CdpProtocol(m)) => assert!(m.starts_with("Failed to parse tab list: ")),
        other => panic!("expected a protocol error, got {:?}", other),
    }
    assert_eq!(parse_tab_list("[]"), Ok(Vec::new()));
}

#[test]
fn test_select_tab_gives_the_socket_address() {
    let tabs = vec![
        tab("A", None),
        tab("B", Some("ws://localhost:9222/devtools/page/B")),
        tab("C", Some("not a url")),
        tab("B", Some("ws://other/")),
    ];
    assert_eq!(select_tab(&tabs, "B"), Ok("ws://localhost:9222/devtools/page/B".to_string()));
    assert_eq!(
        select_tab(&tabs, "Z"),
        Err(ChromeMcpError::TabNotFound("Tab Z not found".to_string()))
    );
    assert_eq!(
        select_tab(&tabs, "A"),
        Err(ChromeMcpError::CdpProtocol("Tab has no WebSocket debugger URL".to_string()))
    );
    match select_tab(&tabs, "C") {
        Err(ChromeMcpError::CdpConnection(m)) => {
            assert_eq!(m, "Invalid WebSocket URL: relative URL without a base")
        }
        other => panic!("expected a connection error, got {:?}", other),
    }
    // The address comes back in the normal form of the `url` crate.
    let tabs = vec![tab("N", Some("WS://LocalHost:9222/a/../b"))];
    assert_eq!(select_tab(&tabs, "N"), Ok("ws://localhost:9222/b".to_string()));
}

#[test]
fn test_connection_states() {
    let mut client: CdpClient<u8> = CdpClient::new("localhost", 9222);
    let tabs = vec![tab("T", Some("ws://localhost:9222/devtools/page/T"))];

    // Nothing is accepted before the connection is ready.
    assert_eq!(
        client.send_command("Page.navigate", None, 1),
        Err(ChromeMcpError::CdpConnection("Connection is not ready".to_string()))
    );
    assert!(!client.socket_opened(required_domains()));
    assert!(matches!(client.enable_domains(1), Activation::Refused(_)));

    // A tab that cannot be connected to leaves the client where it was.
    assert!(client.connect_to_tab(&tabs, "missing").is_err());
    assert_eq!(client.state(), ConnectionState::Disconnected);

    assert!(client.connect_to_tab(&tabs, "T").unwrap().is_some());
    assert_eq!(client.state(), ConnectionState::Connecting);
    assert_eq!(client.current_tab_id(), Some("T"));
    assert_eq!(
        client.connect_to_tab(&tabs, "T"),
        Err(ChromeMcpError::InvalidOperation(
            "Close the connection before opening another".to_string()
        ))
    );

    assert!(client.socket_opened(vec!["A".to_string()]));
    assert_eq!(client.state(), ConnectionState::DomainsEnabling);
    assert_eq!(
        client.send_command("A.x", None, 1),
        Err(ChromeMcpError::CdpConnection("Connection is not ready".to_string()))
    );
    match client.enable_domains(9) {
        Activation::Send(frame) => {
            assert_eq!(frame.id, Some(1));
            assert_eq!(frame.method, Some("A.enable".to_string()));
            assert_eq!(frame.params, None);
        }
        other => panic!("expected a request, got {:?}", other),
    }
    assert!(client.is_pending(1));
    assert!(matches!(client.dispatch(reply_ok(1, "{}")), Dispatch::Resolved { id: 1, waiter: 9, .. }));
    assert!(client.domain_reply(Ok(Json::Null)).is_ok());
    assert_eq!(client.state(), ConnectionState::DomainsEnabling);
    assert!(matches!(client.enable_domains(9), Activation::Ready));
    assert_eq!(client.state(), ConnectionState::Ready);

    // Connecting to the tab of a ready connection asks nothing.
    assert_eq!(client.connect_to_tab(&tabs, "T"), Ok(None));
    assert_eq!(client.state(), ConnectionState::Ready);

    let dropped = client.close();
    assert!(dropped.is_empty());
    assert_eq!(client.state(), ConnectionState::Closed);
    assert_eq!(client.send_command("A.x", None, 1), Err(connection_closed_error()));
    // Closing is idempotent, and a closed client can connect again.
    assert!(client.close().is_empty());
    assert_eq!(client.state(), ConnectionState::Closed);
    assert!(client.connect_to_tab(&tabs, "T").unwrap().is_some());
    assert_eq!(client.state(), ConnectionState::Connecting);
}

#[test]
fn test_required_domains() {
    assert_eq!(
        required_domains(),
        vec!["Runtime", "Page", "DOM", "Input", "Network", "Accessibility"]
    );
    let mut client: CdpClient<u8> = CdpClient::new("localhost", 9222);
    let tabs = vec![tab("T", Some("ws://localhost:9222/devtools/page/T"))];
    client.connect_to_tab(&tabs, "T").unwrap();
    client.socket_opened(required_domains());
    let mut methods = Vec::new();
    loop {
        match client.enable_domains(0) {
            Activation::Send(frame) => {
                methods.push(frame.method.clone().unwrap());
                client.dispatch(reply_ok(frame.id.unwrap(), "{}"));
                client.domain_reply(Ok(Json::Null)).unwrap();
            }
            Activation::Ready => break,
            Activation::Refused(e) => panic!("refused: {:?}", e),
        }
    }
    assert_eq!(
        methods,
        vec![
            "Runtime.enable",
            "Page.enable",
            "DOM.enable",
            "Input.enable",
            "Network.enable",
            "Accessibility.enable"
        ]
    );
    // No domain is enabled again on a ready connection.
    assert!(matches!(client.enable_domains(0), Activation::Refused(_)));
    assert!(client.domain_reply(Err(timeout_error(1))).is_ok());
    assert_eq!(client.state(), ConnectionState::Ready);
}

#[test]
fn test_ids_are_distinct_and_increasing() {
    let mut client = ready_client(&[]);
    let mut ids = Vec::new();
    for _ in 0..50 {
        let frame = client.send_command("Runtime.evaluate", None, "w").unwrap();
        ids.push(frame.id.unwrap());
    }
    assert_eq!(ids[0], 1);
    for pair in ids.windows(2) {
        assert!(pair[0] < pair[1]);
    }
    assert_eq!(client.pending_count(), 50);
    assert!(ids.iter().all(|id| client.is_pending(*id)));
}

#[test]
fn test_replies_out_of_order_reach_their_own_callers() {
    let mut client = ready_client(&[]);
    let a = client.send_command("A.first", None, "caller a").unwrap();
    let b = client.send_command("A.second", None, "caller b").unwrap();
    assert_eq!((a.id, b.id), (Some(1), Some(2)));

    match client.dispatch(reply_ok(2, r#"{"for": "b"}"#)) {
        Dispatch::Resolved { id, waiter, frame } => {
            assert_eq!(id, 2);
            assert_eq!(waiter, "caller b");
            assert!(same(&interpret_reply(frame).ok(), r#"{"for": "b"}"#));
        }
        other => panic!("expected b to resolve, got {:?}", other),
    }
    assert!(client.is_pending(1));
    match client.dispatch(reply_ok(1, r#"{"for": "a"}"#)) {
        Dispatch::Resolved { id, waiter, frame } => {
            assert_eq!(id, 1);
            assert_eq!(waiter, "caller a");
            assert!(same(&interpret_reply(frame).ok(), r#"{"for": "a"}"#));
        }
        other => panic!("expected a to resolve, got {:?}", other),
    }
    assert_eq!(client.pending_count(), 0);
}

#[test]
fn test_every_reply_order_resolves_every_call_once() {
    let orders: [[u64; 3]; 6] =
        [[1, 2, 3], [1, 3, 2], [2, 1, 3], [2, 3, 1], [3, 1, 2], [3, 2, 1]];
    for order in orders {
        let mut client: CdpClient<u64> = CdpClient::new("localhost", 9222);
        let tabs = vec![tab("T", Some("ws://localhost:9222/devtools/page/T"))];
        client.connect_to_tab(&tabs, "T").unwrap();
        client.socket_opened(Vec::new());
        assert!(matches!(client.enable_domains(0), Activation::Ready));
        for waiter in [101, 102, 103] {
            client.send_command("m", None, waiter).unwrap();
        }
        for id in order {
            match client.dispatch(reply_ok(id, "null")) {
                Dispatch::Resolved { id: got, waiter, .. } => {
                    assert_eq!(got, id);
                    assert_eq!(waiter, 100 + id);
                }
                other => panic!("expected {} to resolve, got {:?}", id, other),
            }
            // A second copy of the same reply is dropped.
            assert!(matches!(client.dispatch(reply_ok(id, "null")), Dispatch::Dropped { .. }));
        }
        assert_eq!(client.pending_count(), 0);
    }
}

#[test]
fn test_timeout_then_late_reply_is_dropped() {
    let mut client = ready_client(&[]);
    let slow = client.send_command("A.slow", None, "slow").unwrap().id.unwrap();
    let other = client.send_command("A.other", None, "other").unwrap().id.unwrap();

    // The call times out: its waiter is taken out, once.
    assert_eq!(client.timeout(slow), Some("slow"));
    assert_eq!(client.timeout(slow), None);
    assert_eq!(timeout_error(30000), ChromeMcpError::Timeout { timeout: 30000 });

    // The late reply is dropped and touches nothing else.
    assert!(matches!(client.dispatch(reply_ok(slow, "{}")), Dispatch::Dropped { id } if id == slow));
    assert!(client.is_pending(other));
    assert_eq!(client.pending_count(), 1);
    assert!(matches!(
        client.dispatch(reply_ok(other, "{}")),
        Dispatch::Resolved { waiter: "other", .. }
    ));

    // A reply that came first makes the timeout a no-op.
    let quick = client.send_command("A.quick", None, "quick").unwrap().id.unwrap();
    assert!(matches!(client.dispatch(reply_ok(quick, "{}")), Dispatch::Resolved { .. }));
    assert_eq!(client.timeout(quick), None);
}

#[test]
fn test_activation_is_all_or_nothing() {
    let mut client: CdpClient<&'static str> = CdpClient::new("localhost", 9222);
    let tabs = vec![tab("T", Some("ws://localhost:9222/devtools/page/T"))];
    client.connect_to_tab(&tabs, "T").unwrap();
    client.socket_opened(vec!["A".to_string(), "B".to_string(), "C".to_string()]);

    // The first domain is enabled.
    let first = match client.enable_domains("w1") {
        Activation::Send(frame) => frame,
        other => panic!("expected a request, got {:?}", other),
    };
    assert_eq!(first.method, Some("A.enable".to_string()));
    client.dispatch(reply_ok(first.id.unwrap(), "{}"));
    client.domain_reply(Ok(Json::Null)).unwrap();

    // The second fails.
    let second = match client.enable_domains("w2") {
        Activation::Send(frame) => frame,
        other => panic!("expected a request, got {:?}", other),
    };
    assert_eq!(second.method, Some("B.enable".to_string()));
    let failure = CdpMessage {
        id: second.id,
        method: None,
        params: None,
        result: None,
        error: Some(CdpError { code: -32601, message: "'B.enable' wasn't found".to_string(), data: None }),
    };
    let outcome = match client.dispatch(failure) {
        Dispatch::Resolved { frame, .. } => interpret_reply(frame),
        other => panic!("expected the reply to resolve, got {:?}", other),
    };
    let down = client.domain_reply(outcome).unwrap_err();
    assert_eq!(
        down.error,
        ChromeMcpError::Activation(
            "Failed to enable B: CDP protocol error: CDP error -32601: 'B.enable' wasn't found"
                .to_string()
        )
    );
    assert!(down.dropped.is_empty());

    // The connection is closed, and no command succeeds afterwards.
    assert_eq!(client.state(), ConnectionState::Closed);
    for method in ["A.x", "B.y", "Page.navigate"] {
        assert_eq!(
            client.send_command(method, None, "late"),
            Err(ChromeMcpError::CdpConnection("Connection closed".to_string()))
        );
    }
    assert!(matches!(client.enable_domains("w3"), Activation::Refused(_)));
    assert_eq!(client.pending_count(), 0);
}

#[test]
fn test_close_hands_back_every_waiter() {
    let mut client = ready_client(&["A"]);
    let a = client.send_command("A.x", None, "a").unwrap().id.unwrap();
    let b = client.send_command("A.y", None, "b").unwrap().id.unwrap();
    let dropped = client.close();
    assert_eq!(dropped.len(), 2);
    assert_eq!(dropped.get(&a), Some(&"a"));
    assert_eq!(dropped.get(&b), Some(&"b"));
    assert_eq!(client.pending_count(), 0);
    // A reply that arrives after the close finds nobody.
    assert!(matches!(client.dispatch(reply_ok(a, "{}")), Dispatch::Dropped { .. }));
}

#[test]
fn test_scenario_call_result_and_protocol_error() {
    // Open a connection and enable the domains A and B.
    let mut client = ready_client(&["A", "B"]);

    // Call A.x with {"n": 1}; the peer answers {"ok": true}.
    let request = client.send_command("A.x", Some(json(r#"{"n": 1}"#)), "caller").unwrap();
    let id = request.id.unwrap();
    assert_eq!(id, 3);
    assert_eq!(request.method, Some("A.x".to_string()));
    let wire = request.encode();
    assert_eq!(wire, r#"{"id":3,"method":"A.x","params":{"n":1}}"#);
    let reply = format!(r#"{{"id":{},"result":{{"ok":true}}}}"#, id);
    match client.receive(&reply) {
        Dispatch::Resolved { waiter, frame, .. } => {
            assert_eq!(waiter, "caller");
            let result = interpret_reply(frame).unwrap();
            assert_eq!(result, json(r#"{"ok": true}"#));
        }
        other => panic!("expected the call to resolve, got {:?}", other),
    }

    // The same call again; this time the peer answers with an error object.
    let request = client.send_command("A.x", Some(json(r#"{"n": 1}"#)), "caller").unwrap();
    let id = request.id.unwrap();
    let reply = format!(r#"{{"id":{},"error":{{"code":-32000,"message":"boom"}}}}"#, id);
    match client.receive(&reply) {
        Dispatch::Resolved { frame, .. } => {
            assert_eq!(
                interpret_reply(frame),
                Err(ChromeMcpError::Protocol {
                    code: -32000,
                    message: "boom".to_string(),
                    data: None
                })
            );
        }
        other => panic!("expected the call to resolve, got {:?}", other),
    }
}

#[test]
fn test_inbound_text_is_dispatched_by_id() {
    let mut client = ready_client(&[]);
    client.send_command("A.x", None, "w").unwrap();

    // An event has no id and goes to the event sink.
    match client.receive(r#"{"method":"Page.loadEventFired","params":{"timestamp":1.5}}"#) {
        Dispatch::Event(frame) => {
            assert_eq!(frame.id, None);
            assert_eq!(frame.method, Some("Page.loadEventFired".to_string()));
        }
        other => panic!("expected an event, got {:?}", other),
    }
    // Text that is no frame is reported and changes nothing.
    assert!(matches!(client.receive("{not json"), Dispatch::Malformed(ChromeMcpError::Json(_))));
    match client.receive(r#"{"id": -1}"#) {
        Dispatch::Malformed(e) => {
            assert_eq!(e, ChromeMcpError::Json("id is not an unsigned integer".to_string()))
        }
        other => panic!("expected a malformed frame, got {:?}", other),
    }
    assert_eq!(client.pending_count(), 1);
    assert!(matches!(client.receive(r#"{"id": 99, "result": {}}"#), Dispatch::Dropped { id: 99 }));
    assert!(matches!(client.receive(r#"{"id": 1}"#), Dispatch::Resolved { id: 1, .. }));
}

#[test]
fn test_reply_without_result_is_null() {
    let frame = CdpMessage { id: Some(1), method: None, params: None, result: None, error: None };
    assert_eq!(interpret_reply(frame), Ok(Json::Null));
    let frame = CdpMessage {
        id: Some(1),
        method: None,
        params: None,
        result: Some(json("[1]")),
        error: Some(CdpError { code: 1, message: "m".to_string(), data: Some(json("[2]")) }),
    };
    assert_eq!(
        interpret_reply(frame),
        Err(ChromeMcpError::Protocol { code: 1, message: "m".to_string(), data: Some(json("[2]")) })
    );
}

#[test]
fn test_facade_commands() {
    let c = Command::navigate("https://example.com");
    assert_eq!(c.method, "Page.navigate");
    assert!(same(&c.params, r#"{"url": "https://example.com"}"#));
    let c = Command::evaluate_js("1 + 1");
    assert_eq!(c.method, "Runtime.evaluate");
    assert!(same(&c.params, r#"{"expression": "1 + 1", "returnByValue": true, "awaitPromise": true}"#));
    assert!(same(&Command::screenshot(None, None).params, "{}"));
    assert!(same(
        &Command::screenshot(Some("jpeg"), Some(80)).params,
        r#"{"format": "jpeg", "quality": 80}"#
    ));
    let x: serde_json::Number = "60.5".parse().unwrap();
    let y: serde_json::Number = "45".parse().unwrap();
    let c = Command::mouse_event("mousePressed", &x, &y);
    assert_eq!(c.method, "Input.dispatchMouseEvent");
    assert!(same(
        &c.params,
        r#"{"type": "mousePressed", "x": 60.5, "y": 45, "button": "left", "clickCount": 1}"#
    ));
    let typed = Command::type_text("hé!");
    assert_eq!(typed.len(), 3);
    assert!(typed.iter().all(|c| c.method == "Input.dispatchKeyEvent"));
    assert!(same(&typed[1].params, r#"{"type": "char", "text": "é"}"#));
    assert!(Command::type_text("").is_empty());
    assert_eq!(
        Command::get_accessibility_tree(),
        Command { method: "Accessibility.getFullAXTree".to_string(), params: None }
    );
    assert!(same(
        &Command::query_selector_all(5, "a > b").params,
        r#"{"nodeId": 5, "selector": "a > b"}"#
    ));

    let mut client = ready_client(&[]);
    let frame = client.navigate("https://a/", "w").unwrap();
    assert_eq!(frame.id, Some(1));
    assert_eq!(frame.method, Some("Page.navigate".to_string()));
    let frame = client.evaluate_js("x", "w").unwrap();
    assert_eq!(frame.id, Some(2));
    let frame = client.get_accessibility_tree("w").unwrap();
    assert_eq!(frame.method, Some("Accessibility.getFullAXTree".to_string()));
    let frame = client.send(Command::get_document(), "w").unwrap();
    assert_eq!(frame.id, Some(4));
}

#[test]
fn test_facade_replies() {
    assert_eq!(evaluate_result(&json(r#"{"result": {"value": 2}}"#)), Ok(json(r#"{"value": 2}"#)));
    assert_eq!(evaluate_result(&json("{}")), Ok(Json::Null));
    assert_eq!(
        evaluate_result(&json(r#"{"exceptionDetails": {"text": "Uncaught"}, "result": {}}"#)),
        Err(ChromeMcpError::JavaScriptError(
            r#"JS Exception: {"text":"Uncaught"}"#.to_string()
        ))
    );
    assert_eq!(screenshot_result(&json(r#"{"data": "aGk="}"#)), Ok("aGk=".to_string()));
    assert_eq!(
        screenshot_result(&json(r#"{"data": 1}"#)),
        Err(ChromeMcpError::Screenshot("No screenshot data returned".to_string()))
    );
    assert_eq!(document_root_id(&json(r#"{"root": {"nodeId": 12}}"#)), Ok(12));
    assert_eq!(
        document_root_id(&json(r#"{"root": {"nodeId": -1}}"#)),
        Err(ChromeMcpError::CdpProtocol("Could not get document root".to_string()))
    );
}

#[test]
fn test_missing_tab_is_reported_whatever_the_state() {
    let tabs = vec![
        tab("T", Some("ws://localhost:9222/devtools/page/T")),
        tab("U", Some("ws://localhost:9222/devtools/page/U")),
        tab("N", None),
    ];
    let missing = Err(ChromeMcpError::TabNotFound("Tab gone not found".to_string()));

    // No connection open.
    let mut client: CdpClient<u8> = CdpClient::new("localhost", 9222);
    assert_eq!(client.connect_to_tab(&tabs, "gone"), missing);
    assert_eq!(client.state(), ConnectionState::Disconnected);
    assert_eq!(client.current_tab_id(), None);

    // Connecting, and enabling domains.
    client.connect_to_tab(&tabs, "T").unwrap();
    assert_eq!(client.connect_to_tab(&tabs, "gone"), missing);
    assert_eq!(client.state(), ConnectionState::Connecting);
    client.socket_opened(Vec::new());
    assert_eq!(client.connect_to_tab(&tabs, "gone"), missing);
    assert_eq!(client.state(), ConnectionState::DomainsEnabling);
    assert!(matches!(client.enable_domains(0), Activation::Ready));

    // Ready for another tab: the tab is looked up before the state is
    // judged, and the current tab stays.
    assert_eq!(client.connect_to_tab(&tabs, "gone"), missing);
    assert_eq!(
        client.connect_to_tab(&tabs, "N"),
        Err(ChromeMcpError::CdpProtocol("Tab has no WebSocket debugger URL".to_string()))
    );
    assert_eq!(client.state(), ConnectionState::Ready);
    assert_eq!(client.current_tab_id(), Some("T"));
    // A tab that is there asks for the open connection to be closed first.
    assert_eq!(
        client.connect_to_tab(&tabs, "U"),
        Err(ChromeMcpError::InvalidOperation(
            "Close the connection before opening another".to_string()
        ))
    );
    assert_eq!(client.current_tab_id(), Some("T"));
    assert_eq!(client.connect_to_tab(&tabs, "T"), Ok(None));

    // The tab of a ready connection asks nothing even where the list has lost it.
    assert_eq!(client.connect_to_tab(&Vec::new(), "T"), Ok(None));

    client.close();
    assert_eq!(client.connect_to_tab(&tabs, "gone"), missing);
    assert_eq!(client.state(), ConnectionState::Closed);
    assert_eq!(
        client.connect_to_tab(&tabs, "U"),
        Ok(Some("ws://localhost:9222/devtools/page/U".to_string()))
    );
    assert_eq!(client.current_tab_id(), Some("U"));
}

#[test]
fn test_refused_calls_do_not_use_up_ids() {
    let mut client: CdpClient<u8> = CdpClient::new("localhost", 9222);
    let tabs = vec![tab("T", Some("ws://localhost:9222/devtools/page/T"))];
    assert!(client.send_command("A.x", None, 0).is_err());
    client.connect_to_tab(&tabs, "T").unwrap();
    assert!(client.send_command("A.x", None, 0).is_err());
    client.socket_opened(Vec::new());
    assert!(client.send_command("A.x", None, 0).is_err());
    assert!(matches!(client.enable_domains(0), Activation::Ready));
    assert_eq!(client.send_command("A.x", None, 0).unwrap().id, Some(1));
    assert_eq!(client.send_command("A.x", None, 0).unwrap().id, Some(2));
    client.close();
    assert!(client.send_command("A.x", None, 0).is_err());
    // The counter goes on where it was after a new connection.
    client.connect_to_tab(&tabs, "T").unwrap();
    client.socket_opened(Vec::new());
    assert!(matches!(client.enable_domains(0), Activation::Ready));
    assert_eq!(client.send_command("A.x", None, 0).unwrap().id, Some(3));
}

#[test]
fn test_frames_and_tabs_can_be_cloned() {
    let frame = CdpMessage {
        id: Some(1),
        method: Some("m".to_string()),
        params: Some(json(r#"{"a": [1, {"b": null}]}"#)),
        result: None,
        error: Some(CdpError { code: -1, message: "e".to_string(), data: Some(json("[2.5]")) }),
    };
    assert_eq!(frame.clone(), frame);
    let t = tab("T", Some("ws://h/"));
    assert_eq!(t.clone(), t);
}
