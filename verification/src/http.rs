//! REST routing for the dashboard HTTP API: which `/api/v1/...` path and
//! HTTP method maps to which IPC method and params, and how an RPC error
//! code maps to an HTTP status.

use vstd::prelude::*;
use crate::json::{make_object, entry_models_of, lemma_entry_models_of_len, JsonModel, JsonValue};
use crate::text::{before_sep, concat3, is_prefix, lemma_split_acc_nonempty, parse_u64, parse_u64_spec, split_char, split_on, str_eq, strip_prefix, to_uppercase, trim_end_ws, trim_ws, u64_to_decimal, decimal, unicode_trim, unicode_trim_end, unicode_uppercase};
use crate::protocol::RpcResponse;

verus! {

/// A parsed HTTP request: upper-cased method, request target, and the body
/// read as JSON (`null` when the body is not valid JSON).
pub struct HttpRequest {
    pub method: String,
    pub path: String,
    pub body: JsonValue,
}

/// `s` without its leading `c` characters (`trim_start_matches(c)`).
pub open spec fn trim_leading(s: Seq<char>, c: char) -> Seq<char>
    decreases s.len(),
{
    if s.len() > 0 && s[0] == c {
        trim_leading(s.drop_first(), c)
    } else {
        s
    }
}

/// The non-empty pieces of `pieces`, in order.
pub open spec fn non_empty(pieces: Seq<Seq<char>>) -> Seq<Seq<char>> {
    pieces.filter(|p: Seq<char>| p.len() > 0)
}

/// Path segments of a request target: the part before `?`, without leading
/// slashes, split at `/`, empty segments dropped.
pub open spec fn path_segments(target: Seq<char>) -> Seq<Seq<char>> {
    non_empty(split_char(trim_leading(before_sep(target, '?'), '/'), '/'))
}

/// A JSON object with a single string member.
pub open spec fn single_str(key: Seq<char>, value: Seq<char>) -> JsonModel {
    JsonModel::Object(seq![(key, JsonModel::Str(value))])
}

/// The IPC method and params for `method` on the segments after `/api/v1`.
pub open spec fn route_rest(method: Seq<char>, rest: Seq<Seq<char>>, body: JsonModel) -> Option<
    (Seq<char>, JsonModel),
> {
    if method == "GET"@ {
        if rest == seq!["status"@] {
            Some(("status"@, JsonModel::Null))
        } else if rest == seq!["ping"@] {
            Some(("ping"@, JsonModel::Null))
        } else if rest == seq!["blockchain"@, "height"@] {
            Some(("blockchain.height"@, JsonModel::Null))
        } else if rest.len() == 3 && rest[0] == "blockchain"@ && rest[1] == "block"@ {
            match parse_u64_spec(rest[2]) {
                Some(n) => Some(
                    ("blockchain.block"@, JsonModel::Object(seq![("index"@, JsonModel::UInt(n))])),
                ),
                None => None,
            }
        } else if rest == seq!["blockchain"@, "validate"@] {
            Some(("blockchain.validate"@, JsonModel::Null))
        } else if rest == seq!["dns"@, "list"@] {
            Some(("dns.list"@, JsonModel::Null))
        } else if rest.len() == 3 && rest[0] == "dns"@ && rest[1] == "resolve"@ {
            Some(("dns.resolve"@, single_str("name"@, rest[2])))
        } else if rest == seq!["network"@, "peers"@] {
            Some(("network.peers"@, JsonModel::Null))
        } else if rest == seq!["topology"@, "info"@] {
            Some(("topology.info"@, JsonModel::Null))
        } else if rest == seq!["topology"@, "neighbors"@] {
            Some(("topology.neighbors"@, JsonModel::Null))
        } else if rest == seq!["asset"@, "list"@] {
            Some(("asset.list"@, JsonModel::Null))
        } else if rest == seq!["dashboard"@, "list"@] {
            Some(("dashboard.list"@, JsonModel::Null))
        } else if rest == seq!["dashboard"@, "info"@] {
            Some(("dashboard.info"@, JsonModel::Object(Seq::empty())))
        } else if rest == seq!["config"@, "show"@] {
            Some(("config.show"@, JsonModel::Null))
        } else if rest.len() == 3 && rest[0] == "config"@ && rest[1] == "get"@ {
            Some(("config.get"@, single_str("key"@, rest[2])))
        } else if rest == seq!["domain"@, "list"@] {
            Some(("domain.list"@, JsonModel::Null))
        } else {
            None
        }
    } else if method == "POST"@ {
        if rest == seq!["dns"@, "register"@] {
            Some(("dns.register"@, body))
        } else if rest == seq!["domain"@, "register"@] {
            Some(("domain.register"@, body))
        } else if rest == seq!["domain"@, "join"@] {
            Some(("domain.join"@, body))
        } else {
            None
        }
    } else {
        None
    }
}

/// The IPC method and params for an HTTP request; every route lives under
/// `/api/v1/`.
pub open spec fn route_spec(method: Seq<char>, target: Seq<char>, body: JsonModel) -> Option<
    (Seq<char>, JsonModel),
> {
    let segs = path_segments(target);
    if segs.len() < 3 || segs[0] != "api"@ || segs[1] != "v1"@ {
        None
    } else {
        route_rest(method, segs.skip(2), body)
    }
}

/// `s` without leading `/`.
fn trim_leading_slashes(s: &str) -> (r: &str)
    ensures
        r@ == trim_leading(s@, '/'),
{
    let n = s.unicode_len();
    let mut i: usize = 0;
    assert(s@.skip(0) =~= s@);
    while i < n && s.get_char(i) == '/'
        invariant
            n == s@.len(),
            i <= n,
            trim_leading(s@, '/') == trim_leading(s@.skip(i as int), '/'),
        decreases n - i,
    {
        let ghost rest = s@.skip(i as int);
        assert(rest.drop_first() =~= s@.skip(i + 1));
        i = i + 1;
    }
    let r = s.substring_char(i, n);
    assert(r@ =~= s@.skip(i as int));
    r
}

/// Segments of the request target.
fn segments_of(target: &str) -> (r: Vec<String>)
    ensures
        r@.map_values(|p: String| p@) == path_segments(target@),
{
    proof {
        lemma_split_acc_nonempty(target@, '?', Seq::empty());
    }
    let q = split_on(target, '?');
    let path = q[0].as_str();
    let trimmed = trim_leading_slashes(path);
    let pieces = split_on(trimmed, '/');
    let ghost pv = split_char(trimmed@, '/');
    let mut out: Vec<String> = Vec::new();
    let mut i: usize = 0;
    assert(pv.take(0) =~= Seq::<Seq<char>>::empty());
    while i < pieces.len()
        invariant
            i <= pieces@.len(),
            pieces@.len() == pv.len(),
            forall|k: int| 0 <= k < pv.len() ==> #[trigger] pieces@[k]@ == pv[k],
            out@.map_values(|p: String| p@) == non_empty(pv.take(i as int)),
        decreases pieces@.len() - i,
    {
        let ghost t = pv.take(i + 1);
        assert(t.drop_last() =~= pv.take(i as int));
        assert(t.last() == pv[i as int]);
        proof {
            t.drop_last().lemma_filter_push(t.last(), |p: Seq<char>| p.len() > 0);
            assert(t.drop_last().push(t.last()) =~= t);
        }
        if pieces[i].unicode_len() > 0 {
            let ghost before = out@;
            out.push(crate::text::copy_string(&pieces[i]));
            assert(out@.map_values(|p: String| p@) =~= before.map_values(|p: String| p@).push(
                pv[i as int],
            ));
        }
        i = i + 1;
    }
    assert(pv.take(pieces@.len() as int) =~= pv);
    out
}

/// Whether the segments after the first two are exactly `[a]`.
fn rest_is1(segs: &Vec<String>, a: &str) -> (r: bool)
    requires
        segs@.len() >= 2,
    ensures
        r == (segs@.map_values(|p: String| p@).skip(2) == seq![a@]),
{
    let ghost sv = segs@.map_values(|p: String| p@).skip(2);
    if segs.len() != 3 {
        assert(sv.len() != 1);
        return false;
    }
    let r = str_eq(segs[2].as_str(), a);
    assert(sv[0] == segs@[2]@);
    if r {
        assert(sv =~= seq![a@]);
    }
    r
}

/// Whether the segments after the first two are exactly `[a, b]`.
fn rest_is2(segs: &Vec<String>, a: &str, b: &str) -> (r: bool)
    requires
        segs@.len() >= 2,
    ensures
        r == (segs@.map_values(|p: String| p@).skip(2) == seq![a@, b@]),
{
    let ghost sv = segs@.map_values(|p: String| p@).skip(2);
    if segs.len() != 4 {
        assert(sv.len() != 2);
        return false;
    }
    let r = str_eq(segs[2].as_str(), a) && str_eq(segs[3].as_str(), b);
    assert(sv[0] == segs@[2]@);
    assert(sv[1] == segs@[3]@);
    if r {
        assert(sv =~= seq![a@, b@]);
    }
    r
}

/// `{ key: value }` with a string value.
fn single_str_object(key: &str, value: &str) -> (r: JsonValue)
    ensures
        r@ == single_str(key@, value@),
{
    let mut entries: Vec<(String, JsonValue)> = Vec::new();
    entries.push((String::from_str(key), JsonValue::from_str_slice(value)));
    proof {
        lemma_entry_models_of_len(entries@);
    }
    let r = make_object(entries);
    assert(entry_models_of(entries@) =~= seq![(key@, JsonModel::Str(value@))]);
    r
}

/// A routed IPC call: its method and its params.
pub fn routed(method: &str, params: JsonValue) -> (r: Option<(String, JsonValue)>)
    ensures
        r matches Some((m, p)) && m@ == method@ && p@ == params@,
{
    Some((String::from_str(method), params))
}

/// Route an HTTP request to an IPC method and params; `None` when the path
/// is not an API route.
pub fn route(req: &HttpRequest) -> (r: Option<(String, JsonValue)>)
    ensures
        match route_spec(req.method@, req.path@, req.body@) {
            Some((m, p)) => r matches Some((rm, rp)) && rm@ == m && rp@ == p,
            None => r is None,
        },
{
    let segs = segments_of(req.path.as_str());
    let ghost sv = segs@.map_values(|p: String| p@);
    if segs.len() < 3 || !str_eq(segs[0].as_str(), "api") || !str_eq(segs[1].as_str(), "v1") {
        return None;
    }
    let ghost rest = sv.skip(2);
    assert(rest.len() == sv.len() - 2);
    let get = str_eq(req.method.as_str(), "GET");
    let post = str_eq(req.method.as_str(), "POST");
    let three = segs.len() == 5;
    proof {
        if three {
            assert(rest[0] == sv[2] && rest[1] == sv[3] && rest[2] == sv[4]);
        }
    }
    if get {
        if rest_is1(&segs, "status") {
            return routed("status", JsonValue::Null);
        }
        if rest_is1(&segs, "ping") {
            return routed("ping", JsonValue::Null);
        }
        if rest_is2(&segs, "blockchain", "height") {
            return routed("blockchain.height", JsonValue::Null);
        }
        if three && str_eq(segs[2].as_str(), "blockchain") && str_eq(segs[3].as_str(), "block") {
            return match parse_u64(segs[4].as_str()) {
                Some(n) => {
                    let mut entries: Vec<(String, JsonValue)> = Vec::new();
                    entries.push((String::from_str("index"), JsonValue::UInt(n)));
                    proof {
                        lemma_entry_models_of_len(entries@);
                    }
                    let params = make_object(entries);
                    assert(entry_models_of(entries@) =~= seq![("index"@, JsonModel::UInt(n))]);
                    routed("blockchain.block", params)
                },
                None => None,
            };
        }
        if rest_is2(&segs, "blockchain", "validate") {
            return routed("blockchain.validate", JsonValue::Null);
        }
        if rest_is2(&segs, "dns", "list") {
            return routed("dns.list", JsonValue::Null);
        }
        if three && str_eq(segs[2].as_str(), "dns") && str_eq(segs[3].as_str(), "resolve") {
            return routed("dns.resolve", single_str_object("name", segs[4].as_str()));
        }
        if rest_is2(&segs, "network", "peers") {
            return routed("network.peers", JsonValue::Null);
        }
        if rest_is2(&segs, "topology", "info") {
            return routed("topology.info", JsonValue::Null);
        }
        if rest_is2(&segs, "topology", "neighbors") {
            return routed("topology.neighbors", JsonValue::Null);
        }
        if rest_is2(&segs, "asset", "list") {
            return routed("asset.list", JsonValue::Null);
        }
        if rest_is2(&segs, "dashboard", "list") {
            return routed("dashboard.list", JsonValue::Null);
        }
        if rest_is2(&segs, "dashboard", "info") {
            return routed("dashboard.info", JsonValue::empty_object());
        }
        if rest_is2(&segs, "config", "show") {
            return routed("config.show", JsonValue::Null);
        }
        if three && str_eq(segs[2].as_str(), "config") && str_eq(segs[3].as_str(), "get") {
            return routed("config.get", single_str_object("key", segs[4].as_str()));
        }
        if rest_is2(&segs, "domain", "list") {
            return routed("domain.list", JsonValue::Null);
        }
        None
    } else if post {
        if rest_is2(&segs, "dns", "register") {
            return routed("dns.register", req.body.duplicate());
        }
        if rest_is2(&segs, "domain", "register") {
            return routed("domain.register", req.body.duplicate());
        }
        if rest_is2(&segs, "domain", "join") {
            return routed("domain.join", req.body.duplicate());
        }
        None
    } else {
        None
    }
}

/// HTTP status for an RPC error code: method-not-found is 404,
/// invalid-params 400, anything else 500.
pub open spec fn http_status_spec(code: i64) -> (u16, Seq<char>) {
    if code == -32601 {
        (404, "Not Found"@)
    } else if code == -32602 {
        (400, "Bad Request"@)
    } else {
        (500, "Internal Server Error"@)
    }
}

/// HTTP status and reason phrase for an RPC error code.
pub fn http_status_for_error(code: i64) -> (r: (u16, &'static str))
    ensures
        r.0 == http_status_spec(code).0,
        r.1@ == http_status_spec(code).1,
{
    if code == -32601 {
        (404, "Not Found")
    } else if code == -32602 {
        (400, "Bad Request")
    } else {
        (500, "Internal Server Error")
    }
}

/// Method and target of a request line: the line without trailing white
/// space, split at spaces; a line without a space is malformed.
pub open spec fn request_line_spec(line: Seq<char>) -> Result<(Seq<char>, Seq<char>), Seq<char>> {
    let pieces = split_char(unicode_trim_end(line), ' ');
    if pieces.len() < 2 {
        Err("malformed request line"@)
    } else {
        Ok((unicode_uppercase(pieces[0]), pieces[1]))
    }
}

/// Parse a request line into the upper-cased method and the target.
pub fn parse_request_line(line: &str) -> (r: Result<(String, String), String>)
    ensures
        match request_line_spec(line@) {
            Ok((m, t)) => r matches Ok(p) && p.0@ == m && p.1@ == t,
            Err(e) => r matches Err(x) && x@ == e,
        },
{
    let trimmed = trim_end_ws(line);
    let parts = split_on(trimmed.as_str(), ' ');
    if parts.len() < 2 {
        proof {
            reveal_strlit("malformed request line");
        }
        return Err(String::from_str("malformed request line"));
    }
    let method = to_uppercase(parts[0].as_str());
    let target = crate::text::copy_string(&parts[1]);
    Ok((method, target))
}

/// What `str::parse::<usize>()` returns.
pub open spec fn parse_usize_spec(s: Seq<char>) -> Option<usize> {
    match parse_u64_spec(s) {
        Some(n) => if n <= usize::MAX {
            Some(n as usize)
        } else {
            None
        },
        None => None,
    }
}

/// The body length after reading a header line: a `Content-Length:` or
/// `content-length:` header with a number sets it; any other line keeps it.
pub open spec fn content_length_after(line: Seq<char>, current: usize) -> usize {
    let t = unicode_trim(line);
    let upper = if is_prefix("Content-Length:"@, t) {
        match parse_usize_spec(unicode_trim(t.skip(15))) {
            Some(n) => n,
            None => current,
        }
    } else {
        current
    };
    if is_prefix("content-length:"@, t) {
        match parse_usize_spec(unicode_trim(t.skip(15))) {
            Some(n) => n,
            None => upper,
        }
    } else {
        upper
    }
}

fn parse_usize(s: &str) -> (r: Option<usize>)
    ensures
        r == parse_usize_spec(s@),
{
    match parse_u64(s) {
        Some(n) => if n <= usize::MAX as u64 {
            Some(n as usize)
        } else {
            None
        },
        None => None,
    }
}

fn length_header(t: &str, prefix: &str, current: usize) -> (r: usize)
    requires
        prefix@.len() == 15,
    ensures
        r == if is_prefix(prefix@, t@) {
            match parse_usize_spec(unicode_trim(t@.skip(15))) {
                Some(n) => n,
                None => current,
            }
        } else {
            current
        },
{
    match strip_prefix(t, prefix) {
        Some(rest) => {
            let v = trim_ws(rest.as_str());
            match parse_usize(v.as_str()) {
                Some(n) => n,
                None => current,
            }
        },
        None => current,
    }
}

/// Update the body length from one header line (see
/// `content_length_after`).
pub fn header_content_length(line: &str, current: usize) -> (r: usize)
    ensures
        r == content_length_after(line@, current),
{
    proof {
        reveal_strlit("Content-Length:");
        reveal_strlit("content-length:");
    }
    let t = trim_ws(line);
    let upper = length_header(t.as_str(), "Content-Length:", current);
    length_header(t.as_str(), "content-length:", upper)
}

/// Whether a header line ends the header block (blank after trimming).
pub fn is_header_end(line: &str) -> (r: bool)
    ensures
        r == (unicode_trim(line@).len() == 0),
{
    let t = trim_ws(line);
    t.as_str().is_empty()
}

/// Headers sent with every reply.
pub open spec fn cors_headers() -> Seq<char> {
    "Access-Control-Allow-Origin: *\r\nAccess-Control-Allow-Methods: GET, POST, OPTIONS\r\nAccess-Control-Allow-Headers: Content-Type\r\nAccess-Control-Max-Age: 86400"@
}

fn cors_text() -> (r: &'static str)
    ensures
        r@ == cors_headers(),
{
    "Access-Control-Allow-Origin: *\r\nAccess-Control-Allow-Methods: GET, POST, OPTIONS\r\nAccess-Control-Allow-Headers: Content-Type\r\nAccess-Control-Max-Age: 86400"
}

/// Status line and headers of a JSON reply of `body_len` bytes.
pub open spec fn response_header_spec(status: u16, text: Seq<char>, body_len: usize) -> Seq<char> {
    "HTTP/1.1 "@ + decimal(status as nat) + " "@ + text + "\r\nContent-Type: application/json\r\nContent-Length: "@
        + decimal(body_len as nat) + "\r\n"@ + cors_headers() + "\r\nConnection: close\r\n\r\n"@
}

/// Status line and headers of a JSON reply.
pub fn response_header(status: u16, text: &str, body_len: usize) -> (r: String)
    ensures
        r@ == response_header_spec(status, text@, body_len),
{
    let st = u64_to_decimal(status as u64);
    let len = u64_to_decimal(body_len as u64);
    let mut out = concat3("HTTP/1.1 ", st.as_str(), " ");
    out.append(text);
    out.append("\r\nContent-Type: application/json\r\nContent-Length: ");
    out.append(len.as_str());
    out.append("\r\n");
    out.append(cors_text());
    out.append("\r\nConnection: close\r\n\r\n");
    proof {
        reveal_strlit("HTTP/1.1 ");
        reveal_strlit(" ");
    }
    out
}

/// The complete reply to a CORS preflight request.
pub open spec fn preflight_spec() -> Seq<char> {
    "HTTP/1.1 204 No Content\r\n"@ + cors_headers() + "\r\nContent-Length: 0\r\nConnection: close\r\n\r\n"@
}

/// The complete reply to a CORS preflight request.
pub fn preflight_response() -> (r: String)
    ensures
        r@ == preflight_spec(),
{
    let mut out = String::from_str("HTTP/1.1 204 No Content\r\n");
    out.append(cors_text());
    out.append("\r\nContent-Length: 0\r\nConnection: close\r\n\r\n");
    out
}

/// Body of the reply to an unknown path.
pub fn not_found_body(path: &str) -> (r: JsonValue)
    ensures
        r@ == JsonModel::Object(
            seq![("error"@, JsonModel::Str("not found"@)), ("path"@, JsonModel::Str(path@))],
        ),
{
    let mut entries: Vec<(String, JsonValue)> = Vec::new();
    proof {
        lemma_entry_models_of_len(entries@);
        assert(entry_models_of(entries@) =~= Seq::empty());
        reveal_strlit("not found");
    }
    crate::json::push_entry(&mut entries, "error", JsonValue::from_str_slice("not found"));
    crate::json::push_entry(&mut entries, "path", JsonValue::from_str_slice(path));
    assert(entry_models_of(entries@) =~= seq![
        ("error"@, JsonModel::Str("not found"@)),
        ("path"@, JsonModel::Str(path@)),
    ]);
    JsonValue::Object(entries)
}

/// What an HTTP reply carries: the whole RPC response (on error) or just
/// its result.
#[derive(Debug)]
pub enum HttpReplyBody {
    WholeResponse,
    Result(JsonValue),
}

/// Status, reason and body of the HTTP reply to an RPC response: an error
/// maps by `http_status_spec` and carries the whole response; a success is
/// 200 with the result (`null` when absent).
pub fn http_reply(resp: &RpcResponse) -> (r: (u16, &'static str, HttpReplyBody))
    ensures
        match resp.error {
            Some(e) => r.0 == http_status_spec(e.code).0 && r.1@ == http_status_spec(e.code).1
                && r.2 is WholeResponse,
            None => r.0 == 200 && r.1@ == "OK"@ && match r.2 {
                HttpReplyBody::Result(v) => v@ == match resp.result {
                    Some(x) => x@,
                    None => JsonModel::Null,
                },
                _ => false,
            },
        },
{
    match &resp.error {
        Some(e) => {
            let (status, text) = http_status_for_error(e.code);
            (status, text, HttpReplyBody::WholeResponse)
        },
        None => {
            let body = match &resp.result {
                Some(x) => x.duplicate(),
                None => JsonValue::Null,
            };
            (200, "OK", HttpReplyBody::Result(body))
        },
    }
}

} // verus!
