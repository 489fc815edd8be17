//! The request router: matches (method, path) against the fixed route table
//! and says what is to be done next. The caller performs the outbound calls
//! and the decoding that a step asks for, and hands the outcome back.
use vstd::prelude::*;
use crate::clock::{utc_now_rfc3339, utc_time_shaped};
use crate::envelope::{Request, Response, ResponseView, json_response, query_param, query_value, respond, same_text};
use crate::resource::{after_prefix, chat_history_prefix, has_prefix, resolve_at, resolve_spec};
use crate::tools::{Dispatch, DispatchView, ExecuteCall, ForwardPayload, ForwardView, dispatch_at, dispatch_spec, call_embeds_time, needs_clock};
use crate::upstream::{is_success, relay, status_is_success};

verus! {

/// What the router does next.
pub enum Step {
    /// Answer with this response.
    Respond(Response),
    /// Fetch the tool catalog for this session from the remote service, then
    /// hand its status and body to `catalog_fetched`.
    FetchTools(String),
    /// Decode the request body as a tool execution request, then hand it to
    /// `execute` with this session, or call `execute_body_rejected` where it is
    /// no such request.
    DecodeExecute(String),
    /// Decode the upstream body as a sequence of tools, then hand them to
    /// `catalog_response`, or call `upstream_failed` where it is no such sequence.
    DecodeCatalog,
    /// Send this payload to the remote service's tool execution endpoint, then
    /// hand its status and body to `relay`.
    CallTool(ForwardPayload),
}

/// The model of a `Step`.
pub enum StepView {
    Respond(ResponseView),
    FetchTools(Seq<char>),
    DecodeExecute(Seq<char>),
    DecodeCatalog,
    CallTool(ForwardView),
}

impl View for Step {
    type V = StepView;

    open spec fn view(&self) -> StepView {
        match self {
            Step::Respond(r) => StepView::Respond(r@),
            Step::FetchTools(s) => StepView::FetchTools(s@),
            Step::DecodeExecute(s) => StepView::DecodeExecute(s@),
            Step::DecodeCatalog => StepView::DecodeCatalog,
            Step::CallTool(f) => StepView::CallTool(f@),
        }
    }
}

/// The body of the liveness route.
pub open spec fn health_body() -> Seq<char> {
    "{\"status\":\"ok\",\"message\":\"TESS proxy server is running\"}"@
}

/// The body of a request to a route that does not exist.
pub open spec fn not_found_body() -> Seq<char> {
    "{\"error\":\"Endpoint não encontrado\"}"@
}

/// The body of a request without the `session_id` query parameter.
pub open spec fn missing_session_body() -> Seq<char> {
    "{\"error\":\"session_id não fornecido\"}"@
}

/// The body of a tool execution request whose body could not be decoded.
pub open spec fn invalid_body_body() -> Seq<char> {
    "{\"error\":\"Corpo da requisição inválido\"}"@
}

/// Whether the request is `GET /health`.
pub open spec fn is_health(req: Request) -> bool {
    req.method@ == "GET"@ && req.path@ == "/health"@
}

/// Whether the request is `GET /api/mcp/tools`.
pub open spec fn is_tools(req: Request) -> bool {
    req.method@ == "GET"@ && req.path@ == "/api/mcp/tools"@
}

/// Whether the request is `POST /api/mcp/execute`.
pub open spec fn is_execute(req: Request) -> bool {
    req.method@ == "POST"@ && req.path@ == "/api/mcp/execute"@
}

/// What the router does with a request at time `now`.
pub open spec fn route_spec(req: Request, now: Seq<char>) -> StepView {
    if is_health(req) {
        StepView::Respond(json_response(200, health_body()))
    } else if is_tools(req) {
        match query_param(&req, "session_id"@) {
            None => StepView::Respond(json_response(400, missing_session_body())),
            Some(sid) => match query_param(&req, "resource"@) {
                Some(res) => StepView::Respond(resolve_spec(res, now)),
                None => StepView::FetchTools(sid),
            },
        }
    } else if is_execute(req) {
        match query_param(&req, "session_id"@) {
            None => StepView::Respond(json_response(400, missing_session_body())),
            Some(sid) => StepView::DecodeExecute(sid),
        }
    } else {
        StepView::Respond(json_response(404, not_found_body()))
    }
}

/// Routes a request at time `now`.
pub fn route_at(req: &Request, now: &str) -> (r: Step)
    ensures
        r@ == route_spec(*req, now@),
{
    let get = same_text(req.method.as_str(), "GET");
    if get && same_text(req.path.as_str(), "/health") {
        Step::Respond(
            respond(200, "{\"status\":\"ok\",\"message\":\"TESS proxy server is running\"}".to_owned()),
        )
    } else if get && same_text(req.path.as_str(), "/api/mcp/tools") {
        match query_value(req, "session_id") {
            None => Step::Respond(missing_session()),
            Some(sid) => match query_value(req, "resource") {
                Some(res) => Step::Respond(resolve_at(res.as_str(), now)),
                None => Step::FetchTools(sid),
            },
        }
    } else if same_text(req.method.as_str(), "POST") && same_text(
        req.path.as_str(),
        "/api/mcp/execute",
    ) {
        match query_value(req, "session_id") {
            None => Step::Respond(missing_session()),
            Some(sid) => Step::DecodeExecute(sid),
        }
    } else {
        Step::Respond(respond(404, "{\"error\":\"Endpoint não encontrado\"}".to_owned()))
    }
}

fn missing_session() -> (r: Response)
    ensures
        r@ == json_response(400, missing_session_body()),
{
    respond(400, "{\"error\":\"session_id não fornecido\"}".to_owned())
}

/// Whether the answer to the request embeds the time: a chat history resource
/// asked for on the catalog route with a session.
pub open spec fn route_embeds_time(req: Request) -> bool {
    &&& is_tools(req)
    &&& !is_health(req)
    &&& query_param(&req, "session_id"@) is Some
    &&& query_param(&req, "resource"@) matches Some(res) && has_prefix(res, chat_history_prefix())
}

/// Whether the answer to the request embeds the time.
pub fn route_needs_clock(req: &Request) -> (r: bool)
    ensures
        r == route_embeds_time(*req),
{
    if !same_text(req.method.as_str(), "GET") || !same_text(req.path.as_str(), "/api/mcp/tools")
        || same_text(req.path.as_str(), "/health") {
        return false;
    }
    if query_value(req, "session_id").is_none() {
        return false;
    }
    match query_value(req, "resource") {
        Some(res) => after_prefix(res.as_str(), "chat_history://").is_some(),
        None => false,
    }
}

/// Routes a request, reading the clock only where the answer embeds the time.
pub fn route(req: &Request) -> (r: Step)
    ensures
        route_embeds_time(*req) ==> exists|now: Seq<char>|
            utc_time_shaped(now) && r@ == route_spec(*req, now),
        !route_embeds_time(*req) ==> forall|now: Seq<char>| r@ == #[trigger] route_spec(*req, now),
{
    if route_needs_clock(req) {
        let now = utc_now_rfc3339();
        route_at(req, now.as_str())
    } else {
        let r = route_at(req, "");
        assert forall|now: Seq<char>| r@ == #[trigger] route_spec(*req, now) by {
            assert(route_spec(*req, now) == route_spec(*req, ""@));
        }
        r
    }
}

/// The step for a dispatcher's decision.
pub open spec fn step_of(d: DispatchView) -> StepView {
    match d {
        DispatchView::Respond(r) => StepView::Respond(r),
        DispatchView::Forward(f) => StepView::CallTool(f),
    }
}

/// Executes a decoded tool call in session `session_id`, reading the clock
/// only where the answer embeds the time.
pub fn execute(session_id: &str, call: &ExecuteCall) -> (r: Step)
    ensures
        call_embeds_time(*call) ==> exists|now: Seq<char>|
            utc_time_shaped(now) && r@ == step_of(dispatch_spec(session_id@, *call, now)),
        !call_embeds_time(*call) ==> forall|now: Seq<char>|
            r@ == #[trigger] step_of(dispatch_spec(session_id@, *call, now)),
{
    let d = if needs_clock(call) {
        let now = utc_now_rfc3339();
        dispatch_at(session_id, call, now.as_str())
    } else {
        let d = dispatch_at(session_id, call, "");
        assert forall|now: Seq<char>| d@ == #[trigger] dispatch_spec(session_id@, *call, now) by {
            assert(dispatch_spec(session_id@, *call, now) == dispatch_spec(session_id@, *call, ""@));
        }
        d
    };
    match d {
        Dispatch::Respond(resp) => Step::Respond(resp),
        Dispatch::Forward(f) => Step::CallTool(f),
    }
}

/// The response to a tool execution request whose body could not be decoded.
pub fn execute_body_rejected() -> (r: Response)
    ensures
        r@ == json_response(400, invalid_body_body()),
{
    respond(400, "{\"error\":\"Corpo da requisição inválido\"}".to_owned())
}

/// What follows the catalog fetch: a reply that is no success is relayed as it
/// came; a successful one is to be decoded.
pub fn catalog_fetched(status: u16, body: String) -> (r: Step)
    ensures
        is_success(status) ==> r@ == StepView::DecodeCatalog,
        !is_success(status) ==> r@ == StepView::Respond(json_response(status, body@)),
{
    if status_is_success(status) {
        Step::DecodeCatalog
    } else {
        Step::Respond(relay(status, body))
    }
}

} // verus!
