//! Properties of the router and the dispatcher as a whole.
use vstd::prelude::*;
use crate::envelope::{Request, json_response, json_headers, query_param};
use crate::resource::{chat_history_body, chat_history_prefix, has_prefix, resolve_spec, unresolved_body};
use crate::router::{StepView, health_body, is_execute, is_health, is_tools, missing_session_body, not_found_body, route_spec};
use crate::tools::{DispatchView, ExecuteCall, LocalTool, ToolParams, chat_body, dispatch_spec, embeds_time, forward_spec, local_tool_of, missing_query_body, param_string, prompt_preview, search_body, tool_health_body, chat_prompt};

verus! {

proof fn lemma_paths_distinct()
    ensures
        "/health"@ != "/api/mcp/tools"@,
{
    reveal_strlit("/health");
    reveal_strlit("/api/mcp/tools");
    assert("/health"@.len() != "/api/mcp/tools"@.len());
}

/// A request to any (method, path) outside the route table is answered 404
/// with the fixed "endpoint not found" body, whatever else it holds.
pub proof fn lemma_unmatched_route_not_found(req: Request, now: Seq<char>)
    requires
        !is_health(req),
        !is_tools(req),
        !is_execute(req),
    ensures
        route_spec(req, now) == StepView::Respond(json_response(404, not_found_body())),
{
}

/// `GET /health` is answered 200 with the fixed liveness body, whatever the
/// query, headers, body or time.
pub proof fn lemma_health_fixed(a: Request, b: Request, now_a: Seq<char>, now_b: Seq<char>)
    requires
        is_health(a),
        is_health(b),
    ensures
        route_spec(a, now_a) == StepView::Respond(json_response(200, health_body())),
        route_spec(a, now_a) == route_spec(b, now_b),
{
}

/// `GET /api/mcp/tools` without `session_id` is refused with 400.
pub proof fn lemma_tools_need_session(req: Request, now: Seq<char>)
    requires
        is_tools(req),
        query_param(&req, "session_id"@) is None,
    ensures
        route_spec(req, now) == StepView::Respond(json_response(400, missing_session_body())),
{
    lemma_paths_distinct();
}

/// `GET /api/mcp/tools` with `session_id` and without `resource` takes one
/// step: fetching that session's catalog.
pub proof fn lemma_tools_fetch_catalog(req: Request, now: Seq<char>, session_id: Seq<char>)
    requires
        is_tools(req),
        query_param(&req, "session_id"@) == Some(session_id),
        query_param(&req, "resource"@) is None,
    ensures
        route_spec(req, now) == StepView::FetchTools(session_id),
{
    lemma_paths_distinct();
}

/// `GET /api/mcp/tools` with `session_id` and a `chat_history://` resource is
/// answered 200, with no outbound step, by a body that holds the id and, at its
/// end, the time.
pub proof fn lemma_tools_chat_history(req: Request, now: Seq<char>, resource: Seq<char>)
    requires
        is_tools(req),
        query_param(&req, "session_id"@) is Some,
        query_param(&req, "resource"@) == Some(resource),
        has_prefix(resource, chat_history_prefix()),
    ensures
        ({
            let id = resource.skip(15);
            let body = chat_history_body(id, now);
            &&& route_spec(req, now) == StepView::Respond(json_response(200, body))
            &&& body.subrange(18, 18 + id.len() as int) == id
            &&& body.subrange(body.len() - now.len(), body.len() as int) == now
        }),
{
    lemma_paths_distinct();
    reveal_strlit("chat_history://");
    reveal_strlit("Histórico de chat ");
    reveal_strlit(" (via Rust): Recuperado em ");
    let id = resource.skip(15);
    let body = chat_history_body(id, now);
    assert(body.subrange(18, 18 + id.len() as int) =~= id);
    assert(body.subrange(body.len() - now.len(), body.len() as int) =~= now);
}

/// A resource whose scheme is not `chat_history` is answered 404 with a body
/// that names the resource.
pub proof fn lemma_unknown_resource_named(resource: Seq<char>, now: Seq<char>)
    requires
        !has_prefix(resource, chat_history_prefix()),
    ensures
        resolve_spec(resource, now) == json_response(404, unresolved_body(resource)),
        unresolved_body(resource).subrange(46, 46 + resource.len() as int) == resource,
{
    reveal_strlit("{\"error\":\"Recurso não encontrado\",\"resource\":\"");
    assert(unresolved_body(resource).subrange(46, 46 + resource.len() as int) =~= resource);
}

/// The `health_check` tool is answered locally, 200 with its fixed body, and
/// nothing is relayed, whatever the session, parameters or time.
pub proof fn lemma_health_check_local(session_id: Seq<char>, call: ExecuteCall, now: Seq<char>)
    requires
        call.tool@ == "health_check"@,
    ensures
        dispatch_spec(session_id, call, now) == DispatchView::Respond(
            json_response(200, tool_health_body()),
        ),
{
    reveal_strlit("health_check");
}

/// `search_info` without a string `query` parameter is refused with 400 and a
/// body that names `query`.
pub proof fn lemma_search_needs_query(session_id: Seq<char>, call: ExecuteCall, now: Seq<char>)
    requires
        call.tool@ == "search_info"@,
        param_string(call.params, "query"@) is None,
    ensures
        dispatch_spec(session_id, call, now) == DispatchView::Respond(
            json_response(400, missing_query_body()),
        ),
        missing_query_body().subrange(21, 26) == "query"@,
{
    reveal_strlit("search_info");
    reveal_strlit("health_check");
    reveal_strlit("{\"error\":\"Parâmetro 'query' não fornecido\"}");
    reveal_strlit("query");
    assert(missing_query_body().subrange(21, 26) =~= "query"@);
}

/// A named tool that is not local is relayed: the one payload holds the
/// session, the tool's name and its parameters as JSON text.
pub proof fn lemma_other_tool_relayed(session_id: Seq<char>, call: ExecuteCall, now: Seq<char>)
    requires
        call.tool@.len() > 0,
        local_tool_of(call.tool@) is None,
    ensures
        dispatch_spec(session_id, call, now) == DispatchView::Forward(forward_spec(session_id, call)),
        forward_spec(session_id, call).session_id == session_id,
        forward_spec(session_id, call).tool == call.tool@,
        forward_spec(session_id, call).params == (match call.params {
            Some(p) => Some(p.text@),
            None => None,
        }),
{
}

/// A local tool called twice with the same input answers with the same status
/// and headers, and with the same body unless the body embeds the time; where
/// it does, the two bodies differ only in the time.
pub proof fn lemma_local_repeatable(session_id: Seq<char>, call: ExecuteCall, now_a: Seq<char>, now_b: Seq<char>)
    requires
        local_tool_of(call.tool@) is Some,
    ensures
        dispatch_spec(session_id, call, now_a) matches DispatchView::Respond(a)
            && dispatch_spec(session_id, call, now_b) matches DispatchView::Respond(b)
            && a.status == b.status && a.headers == json_headers() && b.headers == json_headers()
            && (!embeds_time(local_tool_of(call.tool@)->0, call.params) ==> a.body == b.body)
            && (embeds_time(local_tool_of(call.tool@)->0, call.params) ==> exists|pre: Seq<char>, post: Seq<char>|
                a.body == pre + now_a + post && b.body == pre + now_b + post),
{
    let t = local_tool_of(call.tool@)->0;
    reveal_strlit("health_check");
    reveal_strlit("search_info");
    reveal_strlit("process_image");
    reveal_strlit("chat_completion");
    assert(call.tool@.len() > 0);
    if t == LocalTool::SearchInfo {
        if let Some(q) = param_string(call.params, "query"@) {
            let pre = "Resultados para '"@ + q + "' (via Rust): Encontrados 3 documentos relevantes em "@;
            assert(search_body(q, now_a) == pre + now_a + "."@);
            assert(search_body(q, now_b) == pre + now_b + "."@);
        }
    } else if t == LocalTool::ChatCompletion {
        if let Some(p) = chat_prompt(call.params) {
            let pre = "Resposta Rust para: "@ + prompt_preview(p) + "... (processada em "@;
            assert(chat_body(p, now_a) == pre + now_a + ")"@);
            assert(chat_body(p, now_b) == pre + now_b + ")"@);
        }
    }
}

} // verus!
