//! The resource resolver: `scheme://id` identifiers resolved to content.
use vstd::prelude::*;
use crate::envelope::{Response, ResponseView, json_response, respond};

verus! {

/// The scheme prefix of chat history resources.
pub open spec fn chat_history_prefix() -> Seq<char> {
    "chat_history://"@
}

/// Whether `prefix` begins `s`.
pub open spec fn has_prefix(s: Seq<char>, prefix: Seq<char>) -> bool {
    prefix.len() <= s.len() && s.take(prefix.len() as int) == prefix
}

/// What follows `prefix` in `s`, where `prefix` begins `s`.
pub fn after_prefix<'a>(s: &'a str, prefix: &str) -> (r: Option<&'a str>)
    ensures
        match r {
            Some(rest) => has_prefix(s@, prefix@) && rest@ == s@.skip(prefix@.len() as int),
            None => !has_prefix(s@, prefix@),
        },
{
    let n = s.unicode_len();
    let m = prefix.unicode_len();
    if m > n {
        return None;
    }
    let mut i: usize = 0;
    while i < m
        invariant
            m <= n,
            n == s@.len(),
            m == prefix@.len(),
            i <= m,
            s@.take(i as int) == prefix@.take(i as int),
        decreases m - i,
    {
        if s.get_char(i) != prefix.get_char(i) {
            assert(s@.take(m as int)[i as int] != prefix@[i as int]);
            return None;
        }
        assert(s@.take(i + 1) =~= s@.take(i as int).push(s@[i as int]));
        assert(prefix@.take(i + 1) =~= prefix@.take(i as int).push(prefix@[i as int]));
        i = i + 1;
    }
    assert(prefix@.take(m as int) =~= prefix@);
    let rest = s.substring_char(m, n);
    assert(rest@ =~= s@.skip(m as int));
    Some(rest)
}

/// The content of a chat history resource with the given id, read at time `now`.
pub open spec fn chat_history_body(id: Seq<char>, now: Seq<char>) -> Seq<char> {
    "Histórico de chat "@ + id + " (via Rust): Recuperado em "@ + now
}

/// The body that names a resource that could not be resolved.
pub open spec fn unresolved_body(resource: Seq<char>) -> Seq<char> {
    "{\"error\":\"Recurso não encontrado\",\"resource\":\""@ + resource + "\"}"@
}

/// The response for a resource identifier at time `now`: the chat history
/// scheme resolves, any other is not found.
pub open spec fn resolve_spec(resource: Seq<char>, now: Seq<char>) -> ResponseView {
    if has_prefix(resource, chat_history_prefix()) {
        json_response(
            200,
            chat_history_body(resource.skip(chat_history_prefix().len() as int), now),
        )
    } else {
        json_response(404, unresolved_body(resource))
    }
}

/// Resolves a resource identifier at time `now`.
pub fn resolve_at(resource: &str, now: &str) -> (r: Response)
    ensures
        r@ == resolve_spec(resource@, now@),
{
    match after_prefix(resource, "chat_history://") {
        Some(id) => {
            let mut body = "Histórico de chat ".to_owned();
            body.append(id);
            body.append(" (via Rust): Recuperado em ");
            body.append(now);
            respond(200, body)
        },
        None => {
            let mut body = "{\"error\":\"Recurso não encontrado\",\"resource\":\"".to_owned();
            body.append(resource);
            body.append("\"}");
            respond(404, body)
        },
    }
}

} // verus!
