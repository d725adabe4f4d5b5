//! The request/response binding: each invocation holds its connection
//! open until the responder fires, correlated through the pending table.

use vstd::prelude::*;

use crate::origin::{cors_headers, CorsHeaders, OriginAllowlist};
use crate::pending::{PendingEntry, PendingTable, TableError};
use crate::protocol::{InvokePayload, InvokeResult};

verus! {

/// The position of the first `/` in `s` at or after `i`, if any.
pub open spec fn spec_find_slash(s: Seq<char>, i: int) -> Option<int>
    decreases s.len() - i,
{
    if i < 0 || i >= s.len() {
        None
    } else if s[i] == '/' {
        Some(i)
    } else {
        spec_find_slash(s, i + 1)
    }
}

/// When no slash is found, there is none in the searched suffix.
pub proof fn lemma_find_slash_none(s: Seq<char>, i: int)
    requires
        0 <= i,
        spec_find_slash(s, i) is None,
    ensures
        forall|j: int| i <= j < s.len() ==> s[j] != '/',
    decreases s.len() - i,
{
    if i < s.len() {
        lemma_find_slash_none(s, i + 1);
    }
}

/// A found slash is a slash, and the first one at or after the start.
pub proof fn lemma_find_slash_some(s: Seq<char>, i: int, found: int)
    requires
        0 <= i,
        spec_find_slash(s, i) == Some(found),
    ensures
        i <= found < s.len(),
        s[found] == '/',
        forall|j: int| i <= j < found ==> s[j] != '/',
    decreases s.len() - i,
{
    if i < s.len() && s[i] != '/' {
        lemma_find_slash_some(s, i + 1, found);
    }
}

/// How the request/response binding's listener reads a request path: it
/// accepts exactly `/<view-id>/<command>` with both segments nonempty and
/// slash-free, and yields the two segments; every other path is refused.
pub open spec fn spec_parse_invoke_path(path: Seq<char>) -> Option<(Seq<char>, Seq<char>)> {
    if path.len() == 0 || path[0] != '/' {
        None
    } else {
        match spec_find_slash(path, 1) {
            None => None,
            Some(i) => {
                let view = path.subrange(1, i);
                let command = path.subrange(i + 1, path.len() as int);
                if view.len() == 0 || command.len() == 0 || spec_find_slash(path, i + 1) is Some {
                    None
                } else {
                    Some((view, command))
                }
            }
        }
    }
}

/// An accepted path is exactly the slash, the view, a slash and the
/// command, and neither segment holds a slash of its own — the grammar
/// behind `spec_parse_invoke_path`, spelled out.
pub proof fn lemma_parsed_path_shape(path: Seq<char>, view: Seq<char>, command: Seq<char>)
    requires
        spec_parse_invoke_path(path) == Some((view, command)),
    ensures
        path =~= seq!['/'] + view + seq!['/'] + command,
        view.len() > 0 && !view.contains('/'),
        command.len() > 0 && !command.contains('/'),
{
    let i = spec_find_slash(path, 1)->Some_0;
    lemma_find_slash_some(path, 1, i);
    lemma_find_slash_none(path, i + 1);
    assert forall|k: int| 0 <= k < view.len() implies view[k] != '/' by {
        assert(view[k] == path[k + 1]);
    }
    assert forall|k: int| 0 <= k < command.len() implies command[k] != '/' by {
        assert(command[k] == path[k + i + 1]);
    }
    if view.contains('/') {
        let k = choose|k: int| 0 <= k < view.len() && view[k] == '/';
        assert(view[k] != '/');
    }
    if command.contains('/') {
        let k = choose|k: int| 0 <= k < command.len() && command[k] == '/';
        assert(command[k] != '/');
    }
}

/// Finds the first `/` in `s` at or after `from`.
fn find_slash(s: &str, from: usize) -> (r: Option<usize>)
    requires
        from <= s@.len(),
    ensures
        match r {
            Some(j) => from <= j < s@.len() && spec_find_slash(s@, from as int) == Some(j as int),
            None => spec_find_slash(s@, from as int) is None,
        },
{
    let n = s.unicode_len();
    let mut i: usize = from;
    while i < n
        invariant
            from <= i <= n,
            n == s@.len(),
            spec_find_slash(s@, from as int) == spec_find_slash(s@, i as int),
        decreases n - i,
    {
        if s.get_char(i) == '/' {
            return Some(i);
        }
        i = i + 1;
    }
    None
}

/// Splits a request path of the shape `/<view-id>/<command>` into the
/// target view and the command name, exactly as `spec_parse_invoke_path`
/// reads it; any path of another shape is refused.
pub fn parse_invoke_path(path: &str) -> (r: Option<(String, String)>)
    ensures
        match r {
            Some(p) => spec_parse_invoke_path(path@) == Some((p.0@, p.1@)),
            None => spec_parse_invoke_path(path@) is None,
        },
{
    let n = path.unicode_len();
    if n == 0 || path.get_char(0) != '/' {
        return None;
    }
    match find_slash(path, 1) {
        None => None,
        Some(i) => {
            if i == 1 || i + 1 == n {
                return None;
            }
            match find_slash(path, i + 1) {
                Some(_) => None,
                None => {
                    let view = path.substring_char(1, i).to_owned();
                    let command = path.substring_char(i + 1, n).to_owned();
                    Some((view, command))
                }
            }
        }
    }
}

/// The two methods the bridge serves; everything else is rejected at the
/// transport and never reaches it.
#[derive(Clone, Copy, PartialEq, Eq, Structural, Debug)]
pub enum HttpMethod {
    Post,
    Options,
}

/// One inbound request, already decoded to plain values: its method, the
/// origin it declared (if any), the target view from the path, the invoke
/// payload from the body, and a token naming the connection to be held
/// open for the response.
pub struct HttpRequest {
    pub method: HttpMethod,
    pub origin: Option<String>,
    pub view_id: String,
    pub payload: InvokePayload,
    pub conn: u64,
}

impl HttpRequest {
    /// The origin as a mathematical value.
    pub open spec fn spec_origin(&self) -> Option<Seq<char>> {
        match self.origin {
            Some(o) => Some(o@),
            None => None,
        }
    }
}

/// One response as the bridge writes it: status code, body text, and the
/// gated CORS header set.
pub struct HttpResponse {
    pub status: u16,
    pub body: String,
    pub cors: CorsHeaders,
}

/// What the listener decided for one request: either a terminal response
/// to write at once (pre-flight, or an unknown view), or the payload to
/// submit to the host dispatcher, the connection now suspended in the
/// pending table under the payload's correlation id.
pub enum HttpOutcome {
    Reply(HttpResponse),
    Submit(InvokePayload),
}

/// Decides one inbound request, given whether the host's registry
/// resolved the target view.
///
/// A pre-flight request is answered with an empty 200 and the CORS
/// headers, reaches no dispatcher and leaves the table alone. A request
/// for an unknown view is answered 404 with the table untouched. Only a
/// resolved POST is submitted, its connection and declared origin stored
/// under its correlation id. Every response's CORS headers carry the
/// allow-origin header exactly when the declared origin is allowlisted.
///
/// Correlation ids are caller-assigned and must be unique while their
/// request is outstanding, so a submitted id is required to be free.
pub fn handle_request(
    table: &mut PendingTable,
    allowlist: &OriginAllowlist,
    req: HttpRequest,
    view_resolved: bool,
) -> (r: HttpOutcome)
    requires
        req.method is Post && view_resolved ==> !old(table)@.contains_key(req.payload.spec_id()),
    ensures
        req.method is Options ==> final(table)@ == old(table)@
            && (r matches HttpOutcome::Reply(resp)
                && resp.status == 200
                && resp.body@ == Seq::<char>::empty()
                && resp.cors.well_formed(allowlist@, req.spec_origin())),
        req.method is Post && !view_resolved ==> final(table)@ == old(table)@
            && (r matches HttpOutcome::Reply(resp)
                && resp.status == 404
                && resp.body@ == Seq::<char>::empty()
                && resp.cors.well_formed(allowlist@, req.spec_origin())),
        req.method is Post && view_resolved ==> (r matches HttpOutcome::Submit(p)
            && p == req.payload)
            && final(table)@ == old(table)@.insert(
                req.payload.spec_id(),
                (crate::pending::PendingEntryModel { conn: req.conn, origin: req.spec_origin() }),
            ),
{
    match req.method {
        HttpMethod::Options => {
            let cors = cors_headers(allowlist, req.origin.as_ref());
            HttpOutcome::Reply(HttpResponse { status: 200, body: String::new(), cors })
        }
        HttpMethod::Post => {
            if !view_resolved {
                let cors = cors_headers(allowlist, req.origin.as_ref());
                HttpOutcome::Reply(HttpResponse { status: 404, body: String::new(), cors })
            } else {
                let id = crate::correlation_id(req.payload.callback.as_str(), req.payload.error.as_str());
                let entry = PendingEntry { conn: req.conn, origin: req.origin };
                let inserted = table.insert(id, entry);
                proof {
                    assert(inserted is Ok);
                }
                HttpOutcome::Submit(req.payload)
            }
        }
    }
}

/// The response delivered for one completed invocation: which suspended
/// connection to write it to, and what to write.
pub struct HttpDelivery {
    pub conn: u64,
    pub response: HttpResponse,
}

/// Delivers the host's result for the invocation with correlation tokens
/// `callback` and `error`: claims and removes the pending entry in one
/// step, translates success into 200 and failure into 400 with the
/// result's value as the body, and gates the CORS headers by the origin
/// the original request declared. Fires `NotFound` — and changes nothing —
/// exactly when no entry is outstanding for the id, which in correct
/// operation marks a host that delivered twice.
pub fn respond(
    table: &mut PendingTable,
    allowlist: &OriginAllowlist,
    callback: &str,
    error: &str,
    result: InvokeResult,
) -> (r: Result<HttpDelivery, TableError>)
    ensures
        ({
            let id = crate::spec_correlation_id(callback@, error@);
            match r {
                Ok(d) => old(table)@.contains_key(id)
                    && final(table)@ == old(table)@.remove(id)
                    && d.conn == old(table)@[id].conn
                    && d.response.status == (if result is Success { 200int } else { 400int })
                    && d.response.body@ == result.spec_data()
                    && d.response.cors.well_formed(allowlist@, old(table)@[id].origin),
                Err(e) => e == TableError::NotFound
                    && !old(table)@.contains_key(id)
                    && final(table)@ == old(table)@,
            }
        }),
{
    let id = crate::correlation_id(callback, error);
    match table.remove(id.as_str()) {
        Ok(entry) => {
            let cors = cors_headers(allowlist, entry.origin.as_ref());
            let (status, body): (u16, String) = match result {
                InvokeResult::Success(d) => (200, d),
                InvokeResult::Error(d) => (400, d),
            };
            Ok(HttpDelivery { conn: entry.conn, response: HttpResponse { status, body, cors } })
        }
        Err(e) => Err(e),
    }
}

} // verus!
