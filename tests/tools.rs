use mcp_server_tess_xtp::envelope::{Response, find_value, same_text};
use mcp_server_tess_xtp::resource::after_prefix;
use mcp_server_tess_xtp::router::{execute, Step};
use mcp_server_tess_xtp::tools::{
    dispatch_at, image_response, local_tool, ChatRequest, Dispatch, ExecuteCall, LocalTool, ToolParams,
};
use mcp_server_tess_xtp::upstream::{catalog_response, write_tool_object, Tool};

const NOW: &str = "2024-05-06T07:08:09.123+00:00";

fn params(text: &str, strings: &[(&str, &str)], chat: Option<ChatRequest>) -> Option<ToolParams> {
    Some(ToolParams {
        text: text.to_string(),
        strings: strings.iter().map(|(k, v)| (k.to_string(), v.to_string())).collect(),
        chat,
    })
}

fn call(tool: &str, params: Option<ToolParams>) -> ExecuteCall {
    ExecuteCall { tool: tool.to_string(), params }
}

fn answered(d: Dispatch) -> Response {
    match d {
        Dispatch::Respond(r) => r,
        Dispatch::Forward(_) => panic!("expected a local answer"),
    }
}

#[test]
fn health_check_tool_is_local() {
    let r = answered(dispatch_at("s1", &call("health_check", None), NOW));
    assert_eq!(r.status, 200);
    assert_eq!(r.body, r#"{"status":"ok","message":"Rust backend is healthy"}"#);
    let r = answered(dispatch_at("s1", &call("health_check", params("{\"x\":1}", &[], None)), NOW));
    assert_eq!(r.status, 200);
}

#[test]
fn health_check_tool_through_execute() {
    match execute("s1", &call("health_check", None)) {
        Step::Respond(r) => {
            assert_eq!(r.status, 200);
            assert_eq!(r.body, r#"{"status":"ok","message":"Rust backend is healthy"}"#);
        }
        _ => panic!("expected a local answer"),
    }
}

#[test]
fn search_without_query_is_refused() {
    let r = answered(dispatch_at("s1", &call("search_info", params("{}", &[], None)), NOW));
    assert_eq!(r.status, 400);
    assert_eq!(r.body, r#"{"error":"Parâmetro 'query' não fornecido"}"#);
    assert!(r.body.contains("query"));
    let r = answered(dispatch_at("s1", &call("search_info", None), NOW));
    assert_eq!(r.status, 400);
}

#[test]
fn search_with_query_embeds_query_and_time() {
    let p = params("{\"query\":\"rust\"}", &[("query", "rust")], None);
    let r = answered(dispatch_at("s1", &call("search_info", p), NOW));
    assert_eq!(r.status, 200);
    assert_eq!(
        r.body,
        "Resultados para 'rust' (via Rust): Encontrados 3 documentos relevantes em 2024-05-06T07:08:09.123+00:00."
    );
}

#[test]
fn search_timestamp_is_rfc3339() {
    let p = params("{\"query\":\"q\"}", &[("query", "q")], None);
    match execute("s1", &call("search_info", p)) {
        Step::Respond(r) => {
            let prefix = "Resultados para 'q' (via Rust): Encontrados 3 documentos relevantes em ";
            assert!(r.body.starts_with(prefix));
            let stamp = r.body[prefix.len()..].trim_end_matches('.');
            assert!(chrono::DateTime::parse_from_rfc3339(stamp).is_ok());
        }
        _ => panic!("expected a local answer"),
    }
}

#[test]
fn image_without_url_is_refused() {
    let r = answered(dispatch_at("s1", &call("process_image", params("{\"url\":3}", &[], None)), NOW));
    assert_eq!(r.status, 400);
    assert_eq!(r.body, r#"{"error":"Parâmetro 'url' não fornecido"}"#);
}

#[test]
fn image_result_is_json() {
    let p = params("{\"url\":\"http://x/\\\"a\\\".png\"}", &[("url", "http://x/\"a\".png")], None);
    let r = answered(dispatch_at("s1", &call("process_image", p), NOW));
    assert_eq!(r.status, 200);
    assert_eq!(
        r.body,
        r#"{"width":800,"height":600,"format":"jpeg","has_faces":true,"description":"Imagem em http://x/\"a\".png processada via backend Rust","tags":["imagem","processada","rust"]}"#
    );
    let v: serde_json::Value = serde_json::from_str(&r.body).unwrap();
    assert_eq!(v["description"], "Imagem em http://x/\"a\".png processada via backend Rust");
}

#[test]
fn image_response_frames_description() {
    let r = image_response("\"d\"");
    assert_eq!(
        r.body,
        r#"{"width":800,"height":600,"format":"jpeg","has_faces":true,"description":"d","tags":["imagem","processada","rust"]}"#
    );
}

#[test]
fn chat_without_params_is_refused() {
    let r = answered(dispatch_at("s1", &call("chat_completion", None), NOW));
    assert_eq!(r.status, 400);
    assert_eq!(r.body, r#"{"error":"Parâmetros inválidos para chat completion"}"#);
    let r = answered(dispatch_at("s1", &call("chat_completion", params("{}", &[], None)), NOW));
    assert_eq!(r.status, 400);
}

#[test]
fn chat_reply_keeps_fifty_characters() {
    let prompt: String = "ç".repeat(60);
    let chat = ChatRequest { prompt: prompt.clone(), history: Some(vec!["a".to_string()]) };
    let r = answered(dispatch_at("s1", &call("chat_completion", params("{}", &[], Some(chat))), NOW));
    assert_eq!(r.status, 200);
    let expected = format!("Resposta Rust para: {}... (processada em {})", "ç".repeat(50), NOW);
    assert_eq!(r.body, expected);
}

#[test]
fn chat_reply_keeps_short_prompt() {
    let chat = ChatRequest { prompt: "hi".to_string(), history: None };
    let r = answered(dispatch_at("s1", &call("chat_completion", params("{}", &[], Some(chat))), NOW));
    assert_eq!(r.body, format!("Resposta Rust para: hi... (processada em {})", NOW));
}

#[test]
fn other_tool_is_forwarded() {
    let p = params("{\"x\":1}", &[], None);
    match dispatch_at("s1", &call("some_custom_tool", p), NOW) {
        Dispatch::Forward(f) => {
            assert_eq!(f.session_id, "s1");
            assert_eq!(f.tool, "some_custom_tool");
            assert_eq!(f.params, Some("{\"x\":1}".to_string()));
        }
        Dispatch::Respond(_) => panic!("expected a relay"),
    }
    match execute("s2", &call("other", None)) {
        Step::CallTool(f) => {
            assert_eq!(f.session_id, "s2");
            assert_eq!(f.tool, "other");
            assert_eq!(f.params, None);
        }
        _ => panic!("expected a relay"),
    }
}

#[test]
fn empty_tool_name_is_refused() {
    let r = answered(dispatch_at("s1", &call("", None), NOW));
    assert_eq!(r.status, 400);
    assert_eq!(r.body, r#"{"error":"Parâmetro 'tool' não fornecido"}"#);
}

#[test]
fn local_names_are_closed() {
    assert_eq!(local_tool("health_check"), Some(LocalTool::HealthCheck));
    assert_eq!(local_tool("search_info"), Some(LocalTool::SearchInfo));
    assert_eq!(local_tool("process_image"), Some(LocalTool::ProcessImage));
    assert_eq!(local_tool("chat_completion"), Some(LocalTool::ChatCompletion));
    assert_eq!(local_tool("Health_check"), None);
    assert_eq!(local_tool("health_check "), None);
}

#[test]
fn repeated_local_tool_differs_only_in_time() {
    let p = || params("{\"query\":\"a\"}", &[("query", "a")], None);
    let a = answered(dispatch_at("s1", &call("search_info", p()), "T1"));
    let b = answered(dispatch_at("s1", &call("search_info", p()), "T1"));
    let c = answered(dispatch_at("s1", &call("search_info", p()), "T2"));
    assert_eq!((a.status, &a.body, &a.headers), (b.status, &b.body, &b.headers));
    assert_eq!(a.status, c.status);
    assert_eq!(a.body.replace("T1", "T2"), c.body);
}

#[test]
fn catalog_is_wrapped_under_tools() {
    let tools = vec![
        Tool { name: "a".to_string(), description: "first \"one\"".to_string(), parameters: None },
        Tool {
            name: "b".to_string(),
            description: "second".to_string(),
            parameters: Some("{\"type\":\"object\"}".to_string()),
        },
    ];
    let r = catalog_response(&tools);
    assert_eq!(r.status, 200);
    assert_eq!(
        r.body,
        r#"{"tools":[{"name":"a","description":"first \"one\"","parameters":null},{"name":"b","description":"second","parameters":{"type":"object"}}]}"#
    );
}

#[test]
fn empty_catalog() {
    let r = catalog_response(&vec![]);
    assert_eq!(r.status, 200);
    assert_eq!(r.body, r#"{"tools":[]}"#);
}

#[test]
fn tool_object_layout() {
    assert_eq!(
        write_tool_object("\"n\"", "\"d\"", &None),
        r#"{"name":"n","description":"d","parameters":null}"#
    );
}

#[test]
fn text_helpers() {
    assert!(same_text("abc", "abc"));
    assert!(!same_text("abc", "abd"));
    assert_eq!(after_prefix("chat_history://x", "chat_history://"), Some("x"));
    assert_eq!(after_prefix("chat", "chat_history://"), None);
    let pairs = vec![("a".to_string(), "1".to_string()), ("b".to_string(), "2".to_string())];
    assert_eq!(find_value(&pairs, "b"), Some("2".to_string()));
    assert_eq!(find_value(&pairs, "c"), None);
}

#[test]
fn catalog_escapes_control_characters() {
    let tools = vec![Tool {
        name: "a\\b".to_string(),
        description: "l1\nl2\t\u{1}\u{1f}\u{8}\u{c}\ré".to_string(),
        parameters: None,
    }];
    let r = catalog_response(&tools);
    assert_eq!(
        r.body,
        r#"{"tools":[{"name":"a\\b","description":"l1\nl2\t\u0001\u001f\b\f\ré","parameters":null}]}"#
    );
}
