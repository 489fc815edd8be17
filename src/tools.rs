//! The tool dispatcher: local tools by name, everything else relayed to the
//! remote tool service.
use vstd::prelude::*;
use crate::envelope::{Pairs, Response, ResponseView, json_response, respond, find_value, lookup, pairs_view};
use crate::json_text::{json_quoted, quote_json};

verus! {

/// The parameters of a chat completion.
pub struct ChatRequest {
    pub prompt: String,
    pub history: Option<Vec<String>>,
}

/// What the dispatcher reads of a tool call's `params` value.
pub struct ToolParams {
    /// The value written as compact JSON.
    pub text: String,
    /// The members of the value, where it is an object, whose values are
    /// strings, in the object's order.
    pub strings: Pairs,
    /// The value read as a chat completion request, where it is one.
    pub chat: Option<ChatRequest>,
}

/// A decoded tool execution request.
pub struct ExecuteCall {
    pub tool: String,
    pub params: Option<ToolParams>,
}

/// The payload sent to the remote tool service for a tool that is not local.
pub struct ForwardPayload {
    pub session_id: String,
    pub tool: String,
    pub params: Option<String>,
}

/// The model of a `ForwardPayload`.
pub struct ForwardView {
    pub session_id: Seq<char>,
    pub tool: Seq<char>,
    pub params: Option<Seq<char>>,
}

impl View for ForwardPayload {
    type V = ForwardView;

    open spec fn view(&self) -> ForwardView {
        ForwardView {
            session_id: self.session_id@,
            tool: self.tool@,
            params: match self.params {
                Some(p) => Some(p@),
                None => None,
            },
        }
    }
}

/// The tools that run in process. Their names shadow remote tools of the same name.
#[derive(PartialEq, Eq, Structural, Clone, Copy, Debug)]
pub enum LocalTool {
    HealthCheck,
    SearchInfo,
    ProcessImage,
    ChatCompletion,
}

/// The local tool of the given name, if there is one.
pub open spec fn local_tool_of(name: Seq<char>) -> Option<LocalTool> {
    if name == "health_check"@ {
        Some(LocalTool::HealthCheck)
    } else if name == "search_info"@ {
        Some(LocalTool::SearchInfo)
    } else if name == "process_image"@ {
        Some(LocalTool::ProcessImage)
    } else if name == "chat_completion"@ {
        Some(LocalTool::ChatCompletion)
    } else {
        None
    }
}

/// Looks up the local tool of the given name.
pub fn local_tool(name: &str) -> (r: Option<LocalTool>)
    ensures
        r == local_tool_of(name@),
{
    if crate::envelope::same_text(name, "health_check") {
        Some(LocalTool::HealthCheck)
    } else if crate::envelope::same_text(name, "search_info") {
        Some(LocalTool::SearchInfo)
    } else if crate::envelope::same_text(name, "process_image") {
        Some(LocalTool::ProcessImage)
    } else if crate::envelope::same_text(name, "chat_completion") {
        Some(LocalTool::ChatCompletion)
    } else {
        None
    }
}

/// The body of the `health_check` tool.
pub open spec fn tool_health_body() -> Seq<char> {
    "{\"status\":\"ok\",\"message\":\"Rust backend is healthy\"}"@
}

/// The body of a call that names no tool.
pub open spec fn missing_tool_body() -> Seq<char> {
    "{\"error\":\"Parâmetro 'tool' não fornecido\"}"@
}

/// The body of a `search_info` call without a string `query`.
pub open spec fn missing_query_body() -> Seq<char> {
    "{\"error\":\"Parâmetro 'query' não fornecido\"}"@
}

/// The body of a `process_image` call without a string `url`.
pub open spec fn missing_url_body() -> Seq<char> {
    "{\"error\":\"Parâmetro 'url' não fornecido\"}"@
}

/// The body of a `chat_completion` call whose parameters are missing or are no
/// chat completion request.
pub open spec fn invalid_chat_body() -> Seq<char> {
    "{\"error\":\"Parâmetros inválidos para chat completion\"}"@
}

/// The body of a request that failed for a reason of the server's own.
pub open spec fn internal_error_body() -> Seq<char> {
    "{\"error\":\"Erro interno do servidor\"}"@
}

/// The result of a search for `query` made at time `now`.
pub open spec fn search_body(query: Seq<char>, now: Seq<char>) -> Seq<char> {
    "Resultados para '"@ + query + "' (via Rust): Encontrados 3 documentos relevantes em "@ + now
        + "."@
}

/// The description of the image at `url`.
pub open spec fn image_description(url: Seq<char>) -> Seq<char> {
    "Imagem em "@ + url + " processada via backend Rust"@
}

/// The image analysis result, as a JSON object, around a description already
/// written as a JSON string literal.
pub open spec fn image_body(quoted_description: Seq<char>) -> Seq<char> {
    "{\"width\":800,\"height\":600,\"format\":\"jpeg\",\"has_faces\":true,\"description\":"@
        + quoted_description + ",\"tags\":[\"imagem\",\"processada\",\"rust\"]}"@
}

/// At most the first fifty characters of a prompt.
pub open spec fn prompt_preview(prompt: Seq<char>) -> Seq<char> {
    if prompt.len() <= 50 {
        prompt
    } else {
        prompt.take(50)
    }
}

/// The reply to a chat completion for `prompt` made at time `now`.
pub open spec fn chat_body(prompt: Seq<char>, now: Seq<char>) -> Seq<char> {
    "Resposta Rust para: "@ + prompt_preview(prompt) + "... (processada em "@ + now + ")"@
}

/// The string member `key` of the parameters, if there are parameters and they have one.
pub open spec fn param_string(params: Option<ToolParams>, key: Seq<char>) -> Option<Seq<char>> {
    match params {
        Some(p) => lookup(pairs_view(p.strings@), key),
        None => None,
    }
}

/// The chat completion request in the parameters, if there is one.
pub open spec fn chat_prompt(params: Option<ToolParams>) -> Option<Seq<char>> {
    match params {
        Some(p) => match p.chat {
            Some(c) => Some(c.prompt@),
            None => None,
        },
        None => None,
    }
}

/// The response of a local tool to the given parameters at time `now`.
pub open spec fn local_spec(tool: LocalTool, params: Option<ToolParams>, now: Seq<char>) -> ResponseView {
    match tool {
        LocalTool::HealthCheck => json_response(200, tool_health_body()),
        LocalTool::SearchInfo => match param_string(params, "query"@) {
            Some(q) => json_response(200, search_body(q, now)),
            None => json_response(400, missing_query_body()),
        },
        LocalTool::ProcessImage => match param_string(params, "url"@) {
            Some(u) => json_response(200, image_body(json_quoted(image_description(u)))),
            None => json_response(400, missing_url_body()),
        },
        LocalTool::ChatCompletion => match chat_prompt(params) {
            Some(p) => json_response(200, chat_body(p, now)),
            None => json_response(400, invalid_chat_body()),
        },
    }
}

/// Whether a local tool's answer to these parameters embeds the time.
pub open spec fn embeds_time(tool: LocalTool, params: Option<ToolParams>) -> bool {
    ||| tool == LocalTool::SearchInfo && param_string(params, "query"@) is Some
    ||| tool == LocalTool::ChatCompletion && chat_prompt(params) is Some
}

/// The image analysis response around a description already written as a JSON
/// string literal.
pub fn image_response(quoted_description: &str) -> (r: Response)
    ensures
        r@ == json_response(200, image_body(quoted_description@)),
{
    let mut body = "{\"width\":800,\"height\":600,\"format\":\"jpeg\",\"has_faces\":true,\"description\":".to_owned();
    body.append(quoted_description);
    body.append(",\"tags\":[\"imagem\",\"processada\",\"rust\"]}");
    respond(200, body)
}

/// The response of a failure of the server's own.
pub fn internal_error() -> (r: Response)
    ensures
        r@ == json_response(500, internal_error_body()),
{
    respond(500, "{\"error\":\"Erro interno do servidor\"}".to_owned())
}

/// Runs a local tool at time `now`.
pub fn run_local(tool: LocalTool, params: &Option<ToolParams>, now: &str) -> (r: Response)
    ensures
        r@ == local_spec(tool, *params, now@),
{
    match tool {
        LocalTool::HealthCheck => {
            respond(200, "{\"status\":\"ok\",\"message\":\"Rust backend is healthy\"}".to_owned())
        },
        LocalTool::SearchInfo => {
            let query = match params {
                Some(p) => find_value(&p.strings, "query"),
                None => None,
            };
            match query {
                Some(q) => {
                    let mut body = "Resultados para '".to_owned();
                    body.append(q.as_str());
                    body.append("' (via Rust): Encontrados 3 documentos relevantes em ");
                    body.append(now);
                    body.append(".");
                    respond(200, body)
                },
                None => respond(400, "{\"error\":\"Parâmetro 'query' não fornecido\"}".to_owned()),
            }
        },
        LocalTool::ProcessImage => {
            let url = match params {
                Some(p) => find_value(&p.strings, "url"),
                None => None,
            };
            match url {
                Some(u) => {
                    let mut description = "Imagem em ".to_owned();
                    description.append(u.as_str());
                    description.append(" processada via backend Rust");
                    match quote_json(description.as_str()) {
                        Ok(quoted) => image_response(quoted.as_str()),
                        Err(_) => internal_error(),
                    }
                },
                None => respond(400, "{\"error\":\"Parâmetro 'url' não fornecido\"}".to_owned()),
            }
        },
        LocalTool::ChatCompletion => {
            let chat = match params {
                Some(p) => &p.chat,
                None => &None,
            };
            match chat {
                Some(c) => {
                    let prompt = c.prompt.as_str();
                    let n = prompt.unicode_len();
                    let k: usize = if n <= 50 { n } else { 50 };
                    let preview = prompt.substring_char(0, k);
                    proof {
                        assert(preview@ =~= prompt_preview(c.prompt@));
                    }
                    let mut body = "Resposta Rust para: ".to_owned();
                    body.append(preview);
                    body.append("... (processada em ");
                    body.append(now);
                    body.append(")");
                    respond(200, body)
                },
                None => respond(
                    400,
                    "{\"error\":\"Parâmetros inválidos para chat completion\"}".to_owned(),
                ),
            }
        },
    }
}

/// What the dispatcher does with a call: answer it, or relay it.
pub enum Dispatch {
    Respond(Response),
    Forward(ForwardPayload),
}

/// The model of a `Dispatch`.
pub enum DispatchView {
    Respond(ResponseView),
    Forward(ForwardView),
}

impl View for Dispatch {
    type V = DispatchView;

    open spec fn view(&self) -> DispatchView {
        match self {
            Dispatch::Respond(r) => DispatchView::Respond(r@),
            Dispatch::Forward(f) => DispatchView::Forward(f@),
        }
    }
}

/// The payload that relays a call to the remote tool service.
pub open spec fn forward_spec(session_id: Seq<char>, call: ExecuteCall) -> ForwardView {
    ForwardView {
        session_id,
        tool: call.tool@,
        params: match call.params {
            Some(p) => Some(p.text@),
            None => None,
        },
    }
}

/// What the dispatcher does with a call in session `session_id` at time `now`:
/// a call without a tool name is refused, a local tool answers it, and any other
/// tool is relayed.
pub open spec fn dispatch_spec(session_id: Seq<char>, call: ExecuteCall, now: Seq<char>) -> DispatchView {
    if call.tool@.len() == 0 {
        DispatchView::Respond(json_response(400, missing_tool_body()))
    } else {
        match local_tool_of(call.tool@) {
            Some(t) => DispatchView::Respond(local_spec(t, call.params, now)),
            None => DispatchView::Forward(forward_spec(session_id, call)),
        }
    }
}

/// Whether the call goes to a local tool whose answer embeds the time.
pub open spec fn call_embeds_time(call: ExecuteCall) -> bool {
    match local_tool_of(call.tool@) {
        Some(t) => embeds_time(t, call.params),
        None => false,
    }
}

/// Whether the answer to the call embeds the time.
pub fn needs_clock(call: &ExecuteCall) -> (r: bool)
    ensures
        r == call_embeds_time(*call),
{
    match local_tool(call.tool.as_str()) {
        Some(LocalTool::SearchInfo) => match &call.params {
            Some(p) => find_value(&p.strings, "query").is_some(),
            None => false,
        },
        Some(LocalTool::ChatCompletion) => match &call.params {
            Some(p) => p.chat.is_some(),
            None => false,
        },
        _ => false,
    }
}

/// Dispatches a call in session `session_id` at time `now`.
pub fn dispatch_at(session_id: &str, call: &ExecuteCall, now: &str) -> (r: Dispatch)
    ensures
        r@ == dispatch_spec(session_id@, *call, now@),
{
    if call.tool.as_str().is_empty() {
        return Dispatch::Respond(
            respond(400, "{\"error\":\"Parâmetro 'tool' não fornecido\"}".to_owned()),
        );
    }
    match local_tool(call.tool.as_str()) {
        Some(t) => Dispatch::Respond(run_local(t, &call.params, now)),
        None => {
            let params = match &call.params {
                Some(p) => Some(p.text.clone()),
                None => None,
            };
            Dispatch::Forward(
                ForwardPayload { session_id: session_id.to_owned(), tool: call.tool.clone(), params },
            )
        },
    }
}

} // verus!
