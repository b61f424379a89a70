use chrome_mcp::error::ChromeMcpError;

type Result<T> = std::result::Result<T, ChromeMcpError>;

#[test]
fn test_error_creation_methods() {
    let error = ChromeMcpError::cdp_connection("connection failed");
    assert!(matches!(error, ChromeMcpError::CdpConnection(_)));
    assert_eq!(error.message(), "CDP connection error: connection failed");

    let error = ChromeMcpError::cdp_protocol("invalid response");
    assert!(matches!(error, ChromeMcpError::CdpProtocol(_)));

    let error = ChromeMcpError::element_not_found("button#submit");
    assert!(matches!(error, ChromeMcpError::ElementNotFound(_)));

    let error = ChromeMcpError::navigation_timeout("page load");
    assert!(matches!(error, ChromeMcpError::NavigationTimeout(_)));

    let error = ChromeMcpError::javascript_error("syntax error");
    assert!(matches!(error, ChromeMcpError::JavaScriptError(_)));
}

#[test]
fn test_all_error_variants() {
    let errors = vec![
        ChromeMcpError::screenshot_error("capture failed"),
        ChromeMcpError::network_error("request timeout"),
        ChromeMcpError::accessibility_error("tree parse error"),
        ChromeMcpError::native_input_error("permission denied"),
        ChromeMcpError::mcp_protocol_error("invalid message"),
        ChromeMcpError::invalid_operation("unsupported action"),
        ChromeMcpError::tab_not_found("tab123"),
    ];

    for error in errors {
        let error_string = error.message();
        assert!(!error_string.is_empty());
        assert!(error_string.len() > 5); // Ensure meaningful error messages
    }
}

#[test]
fn test_timeout_error() {
    let error = ChromeMcpError::Timeout { timeout: 5000 };
    assert!(matches!(error, ChromeMcpError::Timeout { timeout: 5000 }));
    assert_eq!(error.message(), "Timeout: operation timed out after 5000ms");
}

#[test]
fn test_result_type_usage() {
    fn success_function() -> Result<String> {
        Ok("success".to_string())
    }

    fn error_function() -> Result<String> {
        Err(ChromeMcpError::element_not_found("test"))
    }

    let result = success_function();
    assert!(result.is_ok());
    assert_eq!(result.unwrap(), "success");

    let result = error_function();
    assert!(result.is_err());
    match result {
        Err(ChromeMcpError::ElementNotFound(msg)) => assert_eq!(msg, "test"),
        _ => panic!("Unexpected error type"),
    }
}

#[test]
fn test_error_debug_formatting() {
    let error = ChromeMcpError::cdp_connection("test");
    let debug_str = format!("{:?}", error);
    assert!(debug_str.contains("CdpConnection"));
    assert!(debug_str.contains("test"));
}

#[test]
fn test_error_creation() {
    let error = ChromeMcpError::element_not_found("test element");
    assert!(matches!(error, ChromeMcpError::ElementNotFound(_)));

    let error = ChromeMcpError::navigation_timeout("5000ms");
    assert!(matches!(error, ChromeMcpError::NavigationTimeout(_)));

    let error = ChromeMcpError::Timeout { timeout: 1000 };
    assert!(matches!(error, ChromeMcpError::Timeout { timeout: 1000 }));
}

#[test]
fn test_error_display() {
    let error = ChromeMcpError::element_not_found("button");
    let error_string = error.message();
    assert!(error_string.contains("Element not found"));
    assert!(error_string.contains("button"));
}

#[test]
fn test_result_type() {
    let success: Result<String> = Ok("test".to_string());
    assert!(success.is_ok());
    assert_eq!(success.unwrap(), "test");

    let failure: Result<String> = Err(ChromeMcpError::element_not_found("test"));
    assert!(failure.is_err());
}

#[test]
fn test_error_propagation() {
    let error = ChromeMcpError::cdp_connection("test error");
    let result: Result<()> = Err(error);

    match result {
        Ok(_) => panic!("Expected error"),
        Err(e) => match e {
            ChromeMcpError::CdpConnection(msg) => assert_eq!(msg, "test error"),
            _ => panic!("Wrong error type"),
        },
    }
}

#[test]
fn test_every_error_has_its_exact_text() {
    let cases = vec![
        (ChromeMcpError::cdp_connection("m"), "CDP connection error: m"),
        (ChromeMcpError::cdp_protocol("m"), "CDP protocol error: m"),
        (
            ChromeMcpError::Protocol { code: -32000, message: "boom".to_string(), data: None },
            "CDP protocol error: CDP error -32000: boom",
        ),
        (
            ChromeMcpError::Protocol { code: 7, message: String::new(), data: None },
            "CDP protocol error: CDP error 7: ",
        ),
        (ChromeMcpError::Activation("m".to_string()), "Domain activation error: m"),
        (ChromeMcpError::element_not_found("m"), "Element not found: m"),
        (ChromeMcpError::navigation_timeout("m"), "Navigation timeout: m"),
        (ChromeMcpError::javascript_error("m"), "JavaScript evaluation error: m"),
        (ChromeMcpError::screenshot_error("m"), "Screenshot capture error: m"),
        (ChromeMcpError::network_error("m"), "Network interception error: m"),
        (ChromeMcpError::accessibility_error("m"), "Accessibility tree error: m"),
        (ChromeMcpError::native_input_error("m"), "Native input error: m"),
        (ChromeMcpError::mcp_protocol_error("m"), "MCP protocol error: m"),
        (ChromeMcpError::Io("m".to_string()), "IO error: m"),
        (ChromeMcpError::WebSocket("m".to_string()), "WebSocket error: m"),
        (ChromeMcpError::Json("m".to_string()), "JSON serialization error: m"),
        (ChromeMcpError::Url("m".to_string()), "URL parsing error: m"),
        (ChromeMcpError::invalid_operation("m"), "Invalid operation: m"),
        (ChromeMcpError::tab_not_found("m"), "Tab not found: m"),
        (ChromeMcpError::Timeout { timeout: 0 }, "Timeout: operation timed out after 0ms"),
        (
            ChromeMcpError::Timeout { timeout: u64::MAX },
            "Timeout: operation timed out after 18446744073709551615ms",
        ),
        (
            ChromeMcpError::Protocol { code: i32::MIN, message: "x".to_string(), data: None },
            "CDP protocol error: CDP error -2147483648: x",
        ),
    ];
    for (error, text) in cases {
        assert_eq!(error.message(), text);
    }
}
