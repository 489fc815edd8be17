//! What the router makes of the remote tool service's replies: relayed
//! statuses and bodies, and the tool catalog written under a `tools` key.
use vstd::prelude::*;
use crate::envelope::{Response, json_response, respond};
use crate::json_text::{json_quoted, quote_json};
use crate::tools::internal_error;

verus! {

/// One tool that the catalog advertises.
pub struct Tool {
    pub name: String,
    pub description: String,
    /// The parameter schema, written as compact JSON.
    pub parameters: Option<String>,
}

/// Whether an upstream status is a success.
pub open spec fn is_success(status: u16) -> bool {
    200 <= status <= 299
}

/// Whether an upstream status is a success.
pub fn status_is_success(status: u16) -> (r: bool)
    ensures
        r == is_success(status),
{
    200 <= status && status <= 299
}

/// An upstream reply relayed as it came: its status, its body.
pub fn relay(status: u16, body: String) -> (r: Response)
    ensures
        r@ == json_response(status, body@),
{
    respond(status, body)
}

/// The body of a request whose outbound call could not be completed.
pub open spec fn upstream_failure_body() -> Seq<char> {
    "{\"error\":\"Falha na comunicação com o serviço remoto\"}"@
}

/// The response to a request whose outbound call could not be completed, or
/// whose reply could not be read as expected.
pub fn upstream_failed() -> (r: Response)
    ensures
        r@ == json_response(502, upstream_failure_body()),
{
    respond(502, "{\"error\":\"Falha na comunicação com o serviço remoto\"}".to_owned())
}

/// A schema as it stands in a tool's JSON object: the schema, or `null`.
pub open spec fn schema_text(parameters: Option<String>) -> Seq<char> {
    match parameters {
        Some(p) => p@,
        None => "null"@,
    }
}

/// A tool's JSON object, from its name and description already written as
/// JSON string literals.
pub open spec fn tool_object(quoted_name: Seq<char>, quoted_description: Seq<char>, schema: Seq<char>) -> Seq<char> {
    "{\"name\":"@ + quoted_name + ",\"description\":"@ + quoted_description + ",\"parameters\":"@
        + schema + "}"@
}

/// A tool's JSON object.
pub open spec fn tool_json(t: Tool) -> Seq<char> {
    tool_object(json_quoted(t.name@), json_quoted(t.description@), schema_text(t.parameters))
}

/// The tools' JSON objects, separated by commas.
pub open spec fn tool_list(tools: Seq<Tool>) -> Seq<char>
    decreases tools.len(),
{
    if tools.len() == 0 {
        Seq::empty()
    } else if tools.len() == 1 {
        tool_json(tools[0])
    } else {
        tool_list(tools.drop_last()) + ","@ + tool_json(tools.last())
    }
}

/// The catalog body: the tools, in order, under a `tools` key.
pub open spec fn catalog_body(tools: Seq<Tool>) -> Seq<char> {
    "{\"tools\":["@ + tool_list(tools) + "]}"@
}

/// Writes a tool's JSON object from its name and description already written
/// as JSON string literals.
pub fn write_tool_object(quoted_name: &str, quoted_description: &str, parameters: &Option<String>) -> (r: String)
    ensures
        r@ == tool_object(quoted_name@, quoted_description@, schema_text(*parameters)),
{
    let mut s = "{\"name\":".to_owned();
    s.append(quoted_name);
    s.append(",\"description\":");
    s.append(quoted_description);
    s.append(",\"parameters\":");
    match parameters {
        Some(p) => s.append(p.as_str()),
        None => s.append("null"),
    }
    s.append("}");
    s
}

/// The catalog response: the tools, in order, under a `tools` key, with status 200.
pub fn catalog_response(tools: &Vec<Tool>) -> (r: Response)
    ensures
        r@ == json_response(200, catalog_body(tools@)),
{
    let mut list = String::new();
    let mut i: usize = 0;
    while i < tools.len()
        invariant
            i <= tools.len(),
            list@ == tool_list(tools@.take(i as int)),
        decreases tools.len() - i,
    {
        let t = &tools[i];
        let name = match quote_json(t.name.as_str()) {
            Ok(q) => q,
            Err(_) => return internal_error(),
        };
        let description = match quote_json(t.description.as_str()) {
            Ok(q) => q,
            Err(_) => return internal_error(),
        };
        let entry = write_tool_object(name.as_str(), description.as_str(), &t.parameters);
        assert(tools@.take(i + 1).drop_last() =~= tools@.take(i as int));
        assert(tools@.take(i + 1).last() == tools@[i as int]);
        if i == 0 {
            assert(list@ =~= Seq::<char>::empty());
            list = entry;
            assert(list@ == tool_list(tools@.take(i + 1)));
        } else {
            list.append(",");
            list.append(entry.as_str());
        }
        i = i + 1;
    }
    assert(tools@.take(tools.len() as int) =~= tools@);
    let mut body = "{\"tools\":[".to_owned();
    body.append(list.as_str());
    body.append("]}");
    respond(200, body)
}

} // verus!
