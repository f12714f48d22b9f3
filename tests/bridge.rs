use mcp_searxng_bridge::delivery::{Delivery, DeliveryAction, MAX_ATTEMPTS, RETRY_DELAY_MS};
use mcp_searxng_bridge::error::BridgeError;
use mcp_searxng_bridge::extract::{
    bound_text, choose_region, page_source, page_text, region_rules, EMPTY_PAGE, MAX_CHARS,
    TRUNCATION_MARKER,
};
use mcp_searxng_bridge::mcp::{
    classify, dispatch, handle_initialize, handle_list_tools, json_error, respond, tool_payload,
    Dispatch, McpRequest, RequestId, ResultPayload, Route,
};
use mcp_searxng_bridge::state::{backend_url, search_endpoint, search_params};
use mcp_searxng_bridge::tools::{
    check_search_status, fetch_status_notice, format_search_results, plan_tool, CallParams,
    HttpStatus, SearchEntry, ToolArguments, ToolStep,
};

fn id(json: &str) -> Option<RequestId> {
    Some(RequestId { json: json.to_string() })
}

fn request(id: Option<RequestId>, method: &str, params: Option<CallParams>) -> McpRequest {
    McpRequest { jsonrpc: "2.0".to_string(), id, method: method.to_string(), params }
}

fn tool_call(name: &str, query: Option<&str>, url: Option<&str>) -> Option<CallParams> {
    Some(CallParams {
        name: Some(name.to_string()),
        arguments: Some(ToolArguments {
            query: query.map(|q| q.to_string()),
            url: url.map(|u| u.to_string()),
        }),
    })
}

fn entry(title: &str, content: &str, url: &str) -> SearchEntry {
    SearchEntry {
        title: Some(title.to_string()),
        content: Some(content.to_string()),
        url: Some(url.to_string()),
    }
}

fn status(code: u16, display: &str) -> HttpStatus {
    HttpStatus { code, display: display.to_string() }
}

fn published_text(d: Dispatch) -> (Option<String>, String, bool) {
    match d {
        Dispatch::Publish(r) => {
            let id = r.id.map(|i| i.json);
            match r.result {
                ResultPayload::Text(t) => (id, t, false),
                ResultPayload::Failure(t) => (id, t, true),
                _ => panic!("not a text result"),
            }
        }
        _ => panic!("not published"),
    }
}

#[test]
fn initialize_is_immediate_with_or_without_id() {
    for rid in [id("1"), None, id("null")] {
        let expected = rid.as_ref().map(|i| i.json.clone());
        match dispatch(&request(rid, "initialize", None)) {
            Dispatch::Immediate(r) => {
                assert_eq!(r.jsonrpc, "2.0");
                assert_eq!(r.id.map(|i| i.json), expected);
                match r.result {
                    ResultPayload::Initialize(info) => {
                        assert_eq!(info.protocol_version, "2024-11-05");
                        assert_eq!(info.name, "mcp-searxng-bridge");
                        assert_eq!(info.version, "1.0.0");
                        assert!(!info.tools_list_changed);
                    }
                    _ => panic!("not the server description"),
                }
            }
            _ => panic!("initialize must be answered at once"),
        }
    }
}

#[test]
fn initialized_notification_is_silent() {
    assert!(matches!(dispatch(&request(None, "notifications/initialized", None)), Dispatch::Ignore));
    assert!(matches!(dispatch(&request(id("3"), "notifications/initialized", None)), Dispatch::Ignore));
}

#[test]
fn call_without_id_is_dropped() {
    assert!(matches!(classify(&request(None, "tools/list", None)), Route::Silent));
    assert!(matches!(dispatch(&request(id("null"), "tools/call", tool_call("search", Some(""), None))), Dispatch::Ignore));
    assert!(matches!(dispatch(&request(None, "ping", None)), Dispatch::Ignore));
}

#[test]
fn routes_by_method() {
    assert!(matches!(classify(&request(id("1"), "initialize", None)), Route::Immediate));
    assert!(matches!(classify(&request(id("1"), "tools/list", None)), Route::ListTools));
    assert!(matches!(classify(&request(id("1"), "tools/call", None)), Route::CallTool));
    assert!(matches!(classify(&request(id("1"), "resources/list", None)), Route::Unsupported));
}

#[test]
fn tools_list_is_published() {
    match dispatch(&request(id("\"a\""), "tools/list", None)) {
        Dispatch::Publish(r) => {
            assert_eq!(r.id.unwrap().json, "\"a\"");
            match r.result {
                ResultPayload::Tools(tools) => {
                    assert_eq!(tools.len(), 2);
                    assert_eq!(tools[0].name, "search");
                    assert_eq!(tools[0].argument, "query");
                    assert_eq!(tools[1].name, "fetch_page");
                    assert_eq!(tools[1].argument, "url");
                }
                _ => panic!("not a tool list"),
            }
        }
        _ => panic!("tools/list must be published"),
    }
    let tools = handle_list_tools();
    assert_eq!(tools[0].description, "Search the web via SearXNG");
    assert_eq!(tools[1].description, "Get the content of a web page as Markdown");
}

#[test]
fn unsupported_method_is_an_error_result() {
    let (rid, text, is_error) = published_text(dispatch(&request(id("9"), "resources/list", None)));
    assert_eq!(rid.as_deref(), Some("9"));
    assert_eq!(text, "Method resources/list not supported");
    assert!(is_error);
}

#[test]
fn empty_query_is_answered_without_backend() {
    let (_, text, is_error) = published_text(dispatch(&request(id("1"), "tools/call", tool_call("search", Some(""), None))));
    assert_eq!(text, "Query is empty");
    assert!(!is_error);
    let (_, text, _) = published_text(dispatch(&request(id("1"), "tools/call", tool_call("search", None, None))));
    assert_eq!(text, "Query is empty");
}

#[test]
fn empty_url_is_answered_without_backend() {
    let (_, text, is_error) = published_text(dispatch(&request(id("2"), "tools/call", tool_call("fetch_page", None, Some("")))));
    assert_eq!(text, "URL is empty");
    assert!(!is_error);
    let params = Some(CallParams { name: Some("fetch_page".to_string()), arguments: None });
    assert!(matches!(plan_tool(&params), ToolStep::Done(Ok(t)) if t == "URL is empty"));
}

#[test]
fn unknown_tool_is_an_api_error() {
    let (_, text, is_error) = published_text(dispatch(&request(id("4"), "tools/call", tool_call("translate", None, None))));
    assert_eq!(text, "Backend API error: Unknown tool: translate");
    assert!(is_error);
    let (_, text, _) = published_text(dispatch(&request(id("4"), "tools/call", None)));
    assert_eq!(text, "Backend API error: Unknown tool: ");
}

#[test]
fn search_and_fetch_go_to_the_backend() {
    match dispatch(&request(id("5"), "tools/call", tool_call("search", Some("rust verus"), None))) {
        Dispatch::Search { id, query } => {
            assert_eq!(id.unwrap().json, "5");
            assert_eq!(query, "rust verus");
        }
        _ => panic!("expected a search"),
    }
    match dispatch(&request(id("6"), "tools/call", tool_call("fetch_page", None, Some("https://example.org")))) {
        Dispatch::Fetch { id, url } => {
            assert_eq!(id.unwrap().json, "6");
            assert_eq!(url, "https://example.org");
        }
        _ => panic!("expected a fetch"),
    }
}

#[test]
fn search_formatting_of_one_entry() {
    let out = format_search_results(&Some(vec![entry("Title", "Body", "https://a.example")]));
    assert_eq!(out, "### Title\nBody\nSource: https://a.example\n\n");
}

#[test]
fn search_formatting_keeps_five_entries_in_order() {
    let entries: Vec<SearchEntry> = (0..7).map(|i| entry(&format!("t{}", i), &format!("c{}", i), &format!("u{}", i))).collect();
    let out = format_search_results(&Some(entries));
    let expected: String = (0..5).map(|i| format!("### t{}\nc{}\nSource: u{}\n\n", i, i, i)).collect();
    assert_eq!(out, expected);
    assert_eq!(out.matches("### ").count(), 5);
}

#[test]
fn search_formatting_with_missing_fields() {
    let e = SearchEntry { title: None, content: Some("only content".to_string()), url: None };
    assert_eq!(format_search_results(&Some(vec![e])), "### \nonly content\nSource: \n\n");
}

#[test]
fn search_without_results_says_so() {
    assert_eq!(format_search_results(&None), "No results found");
    assert_eq!(format_search_results(&Some(Vec::new())), "No results found");
}

#[test]
fn search_status_rejection_is_api_error() {
    assert!(check_search_status(&status(200, "200 OK")).is_ok());
    assert!(check_search_status(&status(299, "299 <unknown status code>")).is_ok());
    match check_search_status(&status(502, "502 Bad Gateway")) {
        Err(e) => {
            assert!(matches!(e, BridgeError::Api(_)));
            assert_eq!(e.message(), "Backend API error: SearXNG error: HTTP 502 Bad Gateway");
        }
        Ok(()) => panic!("a 502 must be rejected"),
    }
    assert!(check_search_status(&status(199, "199 <unknown status code>")).is_err());
    assert!(check_search_status(&status(300, "300 Multiple Choices")).is_err());
}

#[test]
fn fetch_status_rejection_is_informational() {
    assert!(fetch_status_notice(&status(204, "204 No Content")).is_none());
    assert_eq!(
        fetch_status_notice(&status(404, "404 Not Found")).unwrap(),
        "Impossible de lire la page : Erreur HTTP 404 Not Found"
    );
}

#[test]
fn tool_outcomes_become_payloads() {
    assert!(matches!(tool_payload(Ok("done".to_string())), ResultPayload::Text(t) if t == "done"));
    let failed = tool_payload(Err(BridgeError::Network("timed out".to_string())));
    assert!(matches!(failed, ResultPayload::Failure(t) if t == "Network error: timed out"));
    assert!(matches!(json_error("boom"), ResultPayload::Failure(t) if t == "boom"));
    let r = respond(&None, ResultPayload::Text("x".to_string()));
    assert_eq!(r.jsonrpc, "2.0");
    assert!(r.id.is_none());
}

#[test]
fn server_info_is_fixed() {
    let a = handle_initialize();
    let b = handle_initialize();
    assert_eq!(a.protocol_version, b.protocol_version);
    assert_eq!(a.name, b.name);
    assert_eq!(a.version, b.version);
}

#[test]
fn bound_text_boundary() {
    let exact: String = "a".repeat(MAX_CHARS);
    assert_eq!(bound_text(&exact), exact);
    let over: String = "b".repeat(MAX_CHARS + 1);
    let expected = format!("{}{}", "b".repeat(MAX_CHARS), TRUNCATION_MARKER);
    assert_eq!(bound_text(&over), expected);
    assert_eq!(TRUNCATION_MARKER, "...\n\n(Contenu tronqué car trop long)");
}

#[test]
fn bound_text_counts_characters_not_bytes() {
    let wide: String = "é".repeat(MAX_CHARS);
    assert_eq!(bound_text(&wide), wide);
    let longer: String = "é".repeat(MAX_CHARS + 3);
    let out = bound_text(&longer);
    assert_eq!(out, format!("{}{}", "é".repeat(MAX_CHARS), TRUNCATION_MARKER));
}

#[test]
fn bound_text_of_empty_text() {
    assert_eq!(bound_text(""), EMPTY_PAGE);
    assert_eq!(bound_text("short"), "short");
}

#[test]
fn region_rules_are_ordered() {
    let rules = region_rules();
    let names: Vec<&str> = rules.iter().map(|r| r.selector).collect();
    assert_eq!(names, vec!["article", "main", ".content", "#content", "body"]);
    let decisive: Vec<bool> = rules.iter().map(|r| r.decisive).collect();
    assert_eq!(decisive, vec![true, true, false, false, false]);
}

#[test]
fn article_region_wins() {
    let html = "<html><body><div class=\"content\">side</div><article><p>Story</p></article></body></html>";
    let region = choose_region(html).unwrap();
    assert!(region.starts_with("<article>"));
    assert!(region.contains("Story"));
    assert!(!region.contains("side"));
}

#[test]
fn earlier_rule_is_not_replaced_by_later_one() {
    let html = "<html><body><div id=\"content\">by id</div><div class=\"content\">by class</div></body></html>";
    let region = choose_region(html).unwrap();
    assert!(region.contains("by class"));
    assert!(!region.contains("by id"));
}

#[test]
fn body_is_the_last_resort() {
    let html = "<html><body><p>plain</p></body></html>";
    let region = choose_region(html).unwrap();
    assert!(region.starts_with("<body>"));
}

fn reduce(html: &str) -> String {
    page_text(&Some(html2md::parse_html(&page_source(html))))
}

#[test]
fn page_reduces_to_region_text() {
    let html = "<html><body><nav>Menu entries</nav><main><p>Main text here</p></main></body></html>";
    let source = page_source(html);
    assert!(source.starts_with("<main>"));
    let out = reduce(html);
    assert!(out.contains("Main text here"));
    assert!(!out.contains("Menu entries"));
    assert_eq!(out, out.trim());
}

#[test]
fn page_without_text_gives_notice() {
    assert_eq!(reduce("<html><body>   </body></html>"), EMPTY_PAGE);
    assert_eq!(EMPTY_PAGE, "La page a été chargée mais aucun contenu textuel n'a pu être extrait.");
}

#[test]
fn failed_conversion_gives_notice() {
    assert_eq!(page_text(&None), EMPTY_PAGE);
}

#[test]
fn page_text_trims_and_bounds() {
    assert_eq!(page_text(&Some("\n\t  Title\n\nBody  \u{3000}".to_string())), "Title\n\nBody");
    let long = format!("  {}  ", "y".repeat(MAX_CHARS + 1));
    assert_eq!(page_text(&Some(long)), format!("{}{}", "y".repeat(MAX_CHARS), TRUNCATION_MARKER));
}

#[test]
fn long_page_is_truncated() {
    let html = format!("<html><body><article><p>{}</p></article></body></html>", "x".repeat(MAX_CHARS + 500));
    let out = reduce(&html);
    assert!(out.ends_with(TRUNCATION_MARKER));
    assert_eq!(out.chars().count(), MAX_CHARS + TRUNCATION_MARKER.chars().count());
}

#[test]
fn delivery_succeeds_when_a_subscriber_attaches() {
    let mut d = Delivery::new();
    assert!(matches!(d.record(false), DeliveryAction::RetryAfter(ms) if ms == RETRY_DELAY_MS));
    assert!(matches!(d.record(true), DeliveryAction::Delivered));
    assert_eq!(d.attempts, 2);
    assert!(d.delivered);
}

#[test]
fn delivery_on_third_attempt() {
    let mut d = Delivery::new();
    assert!(matches!(d.record(false), DeliveryAction::RetryAfter(100)));
    assert!(matches!(d.record(false), DeliveryAction::RetryAfter(100)));
    assert!(matches!(d.record(true), DeliveryAction::Delivered));
}

#[test]
fn delivery_gives_up_after_three_failures() {
    let mut d = Delivery::new();
    assert!(matches!(d.record(false), DeliveryAction::RetryAfter(_)));
    assert!(matches!(d.record(false), DeliveryAction::RetryAfter(_)));
    assert!(matches!(d.record(false), DeliveryAction::GiveUp));
    assert_eq!(d.attempts, MAX_ATTEMPTS);
    assert!(!d.delivered);
}

#[test]
fn error_messages() {
    assert_eq!(BridgeError::Api("x".to_string()).message(), "Backend API error: x");
    assert_eq!(BridgeError::Network("y".to_string()).message(), "Network error: y");
}

#[test]
fn backend_configuration() {
    assert_eq!(backend_url(None), "http://172.17.0.1:18080");
    assert_eq!(backend_url(Some("http://search:8080".to_string())), "http://search:8080");
    assert_eq!(search_endpoint("http://h"), "http://h/search");
    let p = search_params("cats");
    assert_eq!(p, vec![
        ("q".to_string(), "cats".to_string()),
        ("format".to_string(), "json".to_string()),
        ("language".to_string(), "en-US".to_string()),
    ]);
}
