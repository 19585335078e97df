//! The JSON-RPC side of the MCP client: request framing, response unpacking
//! and the extraction of a tool's payload. Sending the request is left to the
//! caller.
use vstd::prelude::*;
use vstd::string::*;
use vstd::utf8::*;

use crate::json::{
    entries_view, first_key_at, items_view, json_parse, lemma_lookup_absent, lemma_lookup_at,
    lemma_view_array, lemma_view_object, lookup, compact_text, json_compact, parse_json, Json,
    JsonNumber, JsonV, NumberV,
};

use crate::text::{chars_of, i64_text, int_text, is_ws, skip_whitespace, skip_ws, trim, trim_range};

verus! {

broadcast use vstd::string::group_string_axioms;

// ---------------------------------------------------------------------------
// Locating the JSON payload of a response body
// ---------------------------------------------------------------------------

/// First position at or after `i` holding a line feed, or the length.
pub open spec fn next_newline(s: Seq<char>, i: int) -> int
    decreases s.len() - i,
{
    if i >= s.len() {
        s.len() as int
    } else if s[i] == '\n' {
        i
    } else {
        next_newline(s, i + 1)
    }
}

pub proof fn lemma_next_newline_bounds(s: Seq<char>, i: int)
    requires
        0 <= i <= s.len(),
    ensures
        i <= next_newline(s, i) <= s.len(),
    decreases s.len() - i,
{
    if i < s.len() && s[i] != '\n' {
        lemma_next_newline_bounds(s, i + 1);
    }
}

pub open spec fn data_prefix() -> Seq<char> {
    seq!['d', 'a', 't', 'a', ':']
}

pub open spec fn done_marker() -> Seq<char> {
    seq!['[', 'D', 'O', 'N', 'E', ']']
}

/// The payload an SSE line carries: the trimmed text after `data:`, unless
/// it is empty or the `[DONE]` marker. (A carriage return before the line
/// feed is whitespace, so trimming removes it.)
pub open spec fn line_payload(line: Seq<char>) -> Option<Seq<char>> {
    if line.len() >= 5 && line.take(5) == data_prefix() {
        let p = trim(line.skip(5));
        if p.len() > 0 && p != done_marker() {
            Some(p)
        } else {
            None
        }
    } else {
        None
    }
}

/// The payload of the first line, from position `start` on, that carries one.
pub open spec fn sse_payload(s: Seq<char>, start: int) -> Option<Seq<char>>
    decreases s.len() - start,
{
    if start < 0 || start >= s.len() {
        None
    } else {
        let e = next_newline(s, start);
        match line_payload(s.subrange(start, e)) {
            Some(p) => Some(p),
            None => if start <= e < s.len() {
                sse_payload(s, e + 1)
            } else {
                None
            },
        }
    }
}

/// The JSON text a response body carries: the whole body when it starts
/// (after whitespace) with `{` or `[`, otherwise the first SSE data payload.
pub open spec fn envelope_payload(s: Seq<char>) -> Option<Seq<char>> {
    let a = skip_ws(s, 0, s.len() as int);
    if a < s.len() && (s[a] == '{' || s[a] == '[') {
        Some(s)
    } else {
        sse_payload(s, 0)
    }
}

/// A body that starts (after whitespace) with `{` or `[` is read whole.
pub proof fn law_raw_json_body(s: Seq<char>, i: int)
    requires
        0 <= i < s.len(),
        forall|k: int| 0 <= k < i ==> is_ws(s[k]),
        s[i] == '{' || s[i] == '[',
    ensures
        envelope_payload(s) == Some(s),
{
    lemma_skip_ws_prefix(s, 0, i);
}

proof fn lemma_skip_ws_prefix(s: Seq<char>, j: int, i: int)
    requires
        0 <= j <= i < s.len(),
        forall|k: int| 0 <= k < i ==> is_ws(s[k]),
        !is_ws(s[i]),
    ensures
        skip_ws(s, j, s.len() as int) == i,
    decreases i - j,
{
    if j < i {
        lemma_skip_ws_prefix(s, j + 1, i);
    }
}

proof fn lemma_next_newline_skips(s: Seq<char>, j: int, e: int)
    requires
        0 <= j <= e < s.len(),
        forall|k: int| j <= k < e ==> s[k] != '\n',
        s[e] == '\n',
    ensures
        next_newline(s, j) == e,
    decreases e - j,
{
    if j < e {
        lemma_next_newline_skips(s, j + 1, e);
    }
}

/// A single-event SSE frame `data:<p>` followed by a blank line yields the
/// trimmed `p`, unless that is empty or the `[DONE]` marker.
pub proof fn law_single_sse_frame(p: Seq<char>)
    requires
        forall|k: int| 0 <= k < p.len() ==> p[k] != '\n',
        trim(p).len() > 0,
        trim(p) != done_marker(),
    ensures
        envelope_payload(data_prefix() + p + seq!['\n', '\n']) == Some(trim(p)),
{
    let s = data_prefix() + p + seq!['\n', '\n'];
    let e: int = 5 + p.len() as int;
    assert(s[0] == 'd');
    assert(!is_ws(s[0]));
    assert(skip_ws(s, 0, s.len() as int) == 0);
    assert forall|k: int| 0 <= k < e implies s[k] != '\n' by {
        if k >= 5 {
            assert(s[k] == p[k - 5]);
        }
    }
    assert(s[e] == '\n');
    lemma_next_newline_skips(s, 0, e);
    let line = s.subrange(0, e);
    assert(line.take(5) =~= data_prefix());
    assert(line.skip(5) =~= p);
}

/// Finds the JSON text inside a response body: raw JSON or an SSE frame.
pub fn payload_of(body: &str) -> (r: Option<&str>)
    ensures
        match r {
            Some(p) => envelope_payload(body@) == Some(p@),
            None => envelope_payload(body@) is None,
        },
{
    let chars = chars_of(body);
    let n = chars.len();
    let a = skip_whitespace(&chars, 0, n);
    if a < n && (chars[a] == '{' || chars[a] == '[') {
        return Some(body);
    }
    let ghost s = chars@;
    let mut start: usize = 0;
    while start < n
        invariant
            s == chars@,
            s == body@,
            n == chars.len(),
            start <= n,
            sse_payload(s, 0) == sse_payload(s, start as int),
            a == skip_ws(s, 0, n as int),
            !(a < n && (s[a as int] == '{' || s[a as int] == '[')),
        decreases n - start,
    {
        let mut e = start;
        while e < n && chars[e] != '\n'
            invariant
                s == chars@,
                n == chars.len(),
                start <= e <= n,
                next_newline(s, start as int) == next_newline(s, e as int),
            decreases n - e,
        {
            e = e + 1;
        }
        let ghost line = s.subrange(start as int, e as int);
        proof {
            lemma_next_newline_bounds(s, start as int);
        }
        if e - start >= 5 && chars[start] == 'd' && chars[start + 1] == 'a' && chars[start + 2] == 't'
            && chars[start + 3] == 'a' && chars[start + 4] == ':' {
            assert(line.take(5) =~= data_prefix());
            let (pa, pb) = trim_range(&chars, start + 5, e);
            assert(s.subrange(start + 5, e as int) =~= line.skip(5));
            let ghost p = s.subrange(pa as int, pb as int);
            let is_done = pb - pa == 6 && chars[pa] == '[' && chars[pa + 1] == 'D' && chars[pa + 2]
                == 'O' && chars[pa + 3] == 'N' && chars[pa + 4] == 'E' && chars[pa + 5] == ']';
            assert(is_done ==> p =~= done_marker());
            assert(p == done_marker() ==> is_done) by {
                if p == done_marker() {
                    assert(p.len() == 6);
                    assert(p[0] == s[pa as int] && p[1] == s[pa + 1] && p[2] == s[pa + 2] && p[3]
                        == s[pa + 3] && p[4] == s[pa + 4] && p[5] == s[pa + 5]);
                }
            }
            if pb > pa && !is_done {
                assert(line_payload(line) == Some(p));
                return Some(body.substring_char(pa, pb));
            }
            assert(line_payload(line) is None);
        } else {
            assert(line.len() >= 5 ==> line.take(5) != data_prefix()) by {
                if line.len() >= 5 && line.take(5) == data_prefix() {
                    assert(line.take(5)[0] == 'd' && line.take(5)[1] == 'a' && line.take(5)[2]
                        == 't' && line.take(5)[3] == 'a' && line.take(5)[4] == ':');
                }
            }
        }
        if e == n {
            return None;
        }
        start = e + 1;
    }
    None
}

} // verus!

verus! {

// ---------------------------------------------------------------------------
// The JSON-RPC envelope
// ---------------------------------------------------------------------------

/// The `error` member of a JSON-RPC reply.
#[derive(Debug)]
pub struct RpcError {
    pub code: i64,
    pub message: String,
}

/// A JSON-RPC reply: an optional `result` and an optional `error`.
#[derive(Debug)]
pub struct RpcEnvelope {
    pub result: Option<Json>,
    pub error: Option<RpcError>,
}

/// View of an envelope: the result value and the (code, message) of the error.
pub type EnvelopeV = (Option<JsonV>, Option<(i64, Seq<char>)>);

pub open spec fn opt_json_view(o: Option<Json>) -> Option<JsonV> {
    match o {
        Some(j) => Some(j@),
        None => None,
    }
}

impl View for RpcEnvelope {
    type V = EnvelopeV;

    open spec fn view(&self) -> EnvelopeV {
        (
            opt_json_view(self.result),
            match self.error {
                Some(e) => Some((e.code, e.message@)),
                None => None,
            },
        )
    }
}

/// Why a response body could not be read as an envelope.
#[derive(Debug)]
pub enum EnvelopeError {
    /// Neither raw JSON nor an SSE data line was found.
    NoPayload,
    /// The payload does not deserialize as an envelope; the deserializer's
    /// message.
    Syntax(String),
}

pub enum EnvelopeErrorV {
    NoPayload,
    Syntax(Seq<char>),
}

impl View for EnvelopeError {
    type V = EnvelopeErrorV;

    open spec fn view(&self) -> EnvelopeErrorV {
        match self {
            EnvelopeError::NoPayload => EnvelopeErrorV::NoPayload,
            EnvelopeError::Syntax(m) => EnvelopeErrorV::Syntax(m@),
        }
    }
}

/// The outcome of deserializing a payload as an envelope: the envelope, or
/// the deserializer's message.
pub open spec fn parsed_view(p: Result<RpcEnvelope, String>) -> Result<EnvelopeV, Seq<char>> {
    match p {
        Ok(e) => Ok(e@),
        Err(m) => Err(m@),
    }
}

// ---------------------------------------------------------------------------
// Turning an HTTP reply into a tool result
// ---------------------------------------------------------------------------

/// Why a JSON-RPC call failed once the HTTP exchange completed.
#[derive(Debug)]
pub enum RpcFailure {
    /// The HTTP status was not a success; the status and the body.
    Http { status: u16, body: String },
    /// The body could not be read as an envelope; why, and the body.
    Parse { error: EnvelopeError, body: String },
    /// The server answered with a JSON-RPC error.
    Mcp { code: i64, message: String },
    /// The envelope carried neither a result nor an error.
    MissingResult,
}

pub enum RpcFailureV {
    Http(u16, Seq<char>),
    Parse(EnvelopeErrorV, Seq<char>),
    Mcp(i64, Seq<char>),
    MissingResult,
}

impl View for RpcFailure {
    type V = RpcFailureV;

    open spec fn view(&self) -> RpcFailureV {
        match self {
            RpcFailure::Http { status, body } => RpcFailureV::Http(*status, body@),
            RpcFailure::Parse { error, body } => RpcFailureV::Parse(error@, body@),
            RpcFailure::Mcp { code, message } => RpcFailureV::Mcp(*code, message@),
            RpcFailure::MissingResult => RpcFailureV::MissingResult,
        }
    }
}

/// An HTTP status is a success when it is in 200..=299.
pub open spec fn is_success(status: u16) -> bool {
    200 <= status <= 299
}

/// The outcome of a call given the HTTP status, the body, and the outcome of
/// deserializing the body's payload as an envelope (`None` when the body
/// carries no payload): an error member wins over a result; a reply with
/// neither is a failure.
pub open spec fn rpc_result(
    status: u16,
    body: Seq<char>,
    parsed: Option<Result<EnvelopeV, Seq<char>>>,
) -> Result<JsonV, RpcFailureV> {
    if !is_success(status) {
        Err(RpcFailureV::Http(status, body))
    } else {
        match parsed {
            None => Err(RpcFailureV::Parse(EnvelopeErrorV::NoPayload, body)),
            Some(Err(m)) => Err(RpcFailureV::Parse(EnvelopeErrorV::Syntax(m), body)),
            Some(Ok((result, error))) => match error {
                Some((code, message)) => Err(RpcFailureV::Mcp(code, message)),
                None => match result {
                    Some(v) => Ok(v),
                    None => Err(RpcFailureV::MissingResult),
                },
            },
        }
    }
}

pub open spec fn opt_parsed_view(p: Option<Result<RpcEnvelope, String>>) -> Option<
    Result<EnvelopeV, Seq<char>>,
> {
    match p {
        Some(x) => Some(parsed_view(x)),
        None => None,
    }
}

/// A reply that carries an `error` member is a failure even when it also
/// carries a result.
pub proof fn law_error_member_wins(
    status: u16,
    body: Seq<char>,
    result: Option<JsonV>,
    code: i64,
    message: Seq<char>,
)
    requires
        is_success(status),
    ensures
        rpc_result(status, body, Some(Ok((result, Some((code, message)))))) == Err::<
            JsonV,
            RpcFailureV,
        >(RpcFailureV::Mcp(code, message)),
{
}

/// The result of a JSON-RPC call given the HTTP status, the response body,
/// and the outcome of deserializing the payload that [`payload_of`] finds in
/// the body (`None` when it finds none).
pub fn rpc_outcome(status: u16, body: &str, parsed: Option<Result<RpcEnvelope, String>>) -> (r:
    Result<Json, RpcFailure>)
    ensures
        match r {
            Ok(v) => rpc_result(status, body@, opt_parsed_view(parsed)) == Ok::<JsonV, RpcFailureV>(
                v@,
            ),
            Err(f) => rpc_result(status, body@, opt_parsed_view(parsed)) == Err::<
                JsonV,
                RpcFailureV,
            >(f@),
        },
{
    if !(200 <= status && status <= 299) {
        return Err(RpcFailure::Http { status, body: String::from_str(body) });
    }
    match parsed {
        None => Err(RpcFailure::Parse { error: EnvelopeError::NoPayload, body: String::from_str(body) }),
        Some(Err(m)) => Err(
            RpcFailure::Parse { error: EnvelopeError::Syntax(m), body: String::from_str(body) },
        ),
        Some(Ok(env)) => match env.error {
            Some(err) => Err(RpcFailure::Mcp { code: err.code, message: err.message }),
            None => match env.result {
                Some(v) => Ok(v),
                None => Err(RpcFailure::MissingResult),
            },
        },
    }
}

// ---------------------------------------------------------------------------
// Requests
// ---------------------------------------------------------------------------

/// A JSON-RPC 2.0 request object.
pub open spec fn rpc_request_view(id: u64, method: Seq<char>, params: JsonV) -> JsonV {
    JsonV::Object(
        seq![
            ("jsonrpc"@, JsonV::Str("2.0"@)),
            ("id"@, JsonV::Number(NumberV::PosInt(id))),
            ("method"@, JsonV::Str(method)),
            ("params"@, params),
        ],
    )
}

/// Builds the JSON-RPC request for `method` with `params` under request `id`.
pub fn rpc_request(id: u64, method: &str, params: Json) -> (r: Json)
    ensures
        r@ == rpc_request_view(id, method@, params@),
{
    let ghost p = params@;
    let mut es: Vec<(String, Json)> = Vec::new();
    es.push((String::from_str("jsonrpc"), Json::Str(String::from_str("2.0"))));
    es.push((String::from_str("id"), Json::Number(JsonNumber::PosInt(id))));
    es.push((String::from_str("method"), Json::Str(String::from_str(method))));
    es.push((String::from_str("params"), params));
    proof {
        lemma_view_object(es);
        assert(entries_view(es@) =~= seq![
            ("jsonrpc"@, JsonV::Str("2.0"@)),
            ("id"@, JsonV::Number(NumberV::PosInt(id))),
            ("method"@, JsonV::Str(method@)),
            ("params"@, p),
        ]);
    }
    Json::Object(es)
}

/// The text sent for a request: the request object printed compactly.
pub fn request_body(id: u64, method: &str, params: Json) -> (r: String)
    ensures
        r@ == json_compact(rpc_request_view(id, method@, params@)),
{
    compact_text(&rpc_request(id, method, params))
}

/// The `params` of a `tools/call` request.
pub open spec fn tool_call_params_view(name: Seq<char>, args: JsonV) -> JsonV {
    JsonV::Object(seq![("name"@, JsonV::Str(name)), ("arguments"@, args)])
}

/// Builds the `params` of a `tools/call` request for tool `name`.
pub fn tool_call_params(name: &str, args: Json) -> (r: Json)
    ensures
        r@ == tool_call_params_view(name@, args@),
{
    let ghost a = args@;
    let mut es: Vec<(String, Json)> = Vec::new();
    es.push((String::from_str("name"), Json::Str(String::from_str(name))));
    es.push((String::from_str("arguments"), args));
    proof {
        lemma_view_object(es);
        assert(entries_view(es@) =~= seq![("name"@, JsonV::Str(name@)), ("arguments"@, a)]);
    }
    Json::Object(es)
}

/// An empty JSON object.
pub fn empty_object() -> (r: Json)
    ensures
        r@ == JsonV::Object(Seq::empty()),
{
    let es: Vec<(String, Json)> = Vec::new();
    proof {
        lemma_view_object(es);
        assert(entries_view(es@) =~= Seq::empty());
    }
    Json::Object(es)
}

/// Hands out JSON-RPC request ids: 1, 2, 3, ... (wrapping after `u64::MAX`).
pub struct RequestIds {
    next: u64,
}

impl View for RequestIds {
    type V = u64;

    closed spec fn view(&self) -> u64 {
        self.next
    }
}

/// The id after `v`: one more, wrapping to 0 after `u64::MAX`.
pub open spec fn next_id(v: u64) -> u64 {
    if v == u64::MAX {
        0
    } else {
        (v + 1) as u64
    }
}

/// Two requests in a row never share an id.
pub proof fn law_successive_ids_differ(v: u64)
    ensures
        next_id(v) != v,
{
}

/// The id the take numbered `k` (from 0) returns, starting from state `v`.
pub open spec fn nth_id(v: u64, k: nat) -> u64
    decreases k,
{
    if k == 0 {
        v
    } else {
        next_id(nth_id(v, (k - 1) as nat))
    }
}

/// Ids count up by one per take, wrapping modulo 2^64.
pub proof fn law_nth_id(v: u64, k: nat)
    ensures
        nth_id(v, k) as int == (v + k) % 0x1_0000_0000_0000_0000,
    decreases k,
{
    if k > 0 {
        law_nth_id(v, (k - 1) as nat);
        let p = (v + k - 1) as int;
        let m = 0x1_0000_0000_0000_0000int;
        assert(p % m == m - 1 ==> (p + 1) % m == 0) by (nonlinear_arith)
            requires
                p >= 0,
                m > 0,
        ;
        assert(p % m != m - 1 ==> (p + 1) % m == p % m + 1) by (nonlinear_arith)
            requires
                p >= 0,
                m > 0,
        ;
    }
}

/// From a fresh counter, request number `k` (from 1) gets id `k`, and any
/// fewer than 2^64 requests in a row get pairwise distinct ids.
pub proof fn law_ids_from_new(i: nat, j: nat)
    requires
        i < j < 0x1_0000_0000_0000_0000,
    ensures
        i + 1 < 0x1_0000_0000_0000_0000 ==> nth_id(1, i) == i + 1,
        forall|v: u64| nth_id(v, i) != nth_id(v, j),
{
    law_nth_id(1, i);
    assert forall|v: u64| nth_id(v, i) != nth_id(v, j) by {
        law_nth_id(v, i);
        law_nth_id(v, j);
        let m = 0x1_0000_0000_0000_0000int;
        assert((v + i) % m != (v + j) % m) by (nonlinear_arith)
            requires
                0 <= v < m,
                0 <= i < j < m,
        ;
    }
}

impl RequestIds {
    pub fn new() -> (r: RequestIds)
        ensures
            r@ == 1,
    {
        RequestIds { next: 1 }
    }

    /// The id to use now; the next call returns one more.
    pub fn take(&mut self) -> (id: u64)
        ensures
            id == old(self)@,
            final(self)@ == next_id(old(self)@),
    {
        let id = self.next;
        self.next = if self.next == u64::MAX {
            0
        } else {
            self.next + 1
        };
        id
    }
}

// ---------------------------------------------------------------------------
// Unpacking results
// ---------------------------------------------------------------------------

/// `structuredContent.data` of a result, when present.
pub open spec fn structured_data(v: JsonV) -> Option<JsonV> {
    match lookup(v, "structuredContent"@) {
        Some(st) => lookup(st, "data"@),
        None => None,
    }
}

/// The first content item's `text`, parsed as JSON, when all of that exists.
pub open spec fn content_text_data(v: JsonV) -> Option<JsonV> {
    match lookup(v, "content"@) {
        Some(JsonV::Array(items)) => if items.len() > 0 {
            match lookup(items[0], "text"@) {
                Some(JsonV::Str(t)) => match json_parse(t) {
                    Ok(p) => Some(p),
                    Err(_) => None,
                },
                _ => None,
            }
        } else {
            None
        },
        _ => None,
    }
}

/// The primary payload of a `tools/call` result: `structuredContent.data`,
/// else the first content item's `text` parsed as JSON, else the whole
/// result.
pub open spec fn extract_data_view(v: JsonV) -> JsonV {
    if structured_data(v) is Some {
        structured_data(v)->0
    } else if content_text_data(v) is Some {
        content_text_data(v)->0
    } else {
        v
    }
}

fn structured_data_of(result: &Json) -> (r: Option<&Json>)
    ensures
        match r {
            Some(d) => structured_data(result@) == Some(d@),
            None => structured_data(result@) is None,
        },
{
    match result.get("structuredContent") {
        Some(structured) => structured.get("data"),
        None => None,
    }
}

fn content_text_data_of(result: &Json) -> (r: Option<Json>)
    ensures
        match r {
            Some(d) => content_text_data(result@) == Some(d@),
            None => content_text_data(result@) is None,
        },
{
    match result.get("content") {
        Some(Json::Array(content)) => {
            proof {
                lemma_view_array(*content);
            }
            if content.len() > 0 {
                match content[0].get("text") {
                    Some(Json::Str(text)) => match parse_json(text.as_str()) {
                        Ok(parsed) => Some(parsed),
                        Err(_) => None,
                    },
                    Some(other) => {
                        assert(!(other@ is Str));
                        None
                    },
                    None => None,
                }
            } else {
                None
            }
        },
        Some(other) => {
            assert(!(other@ is Array));
            None
        },
        None => None,
    }
}

/// Pulls the tool's primary payload out of a `tools/call` result.
pub fn extract_data(result: Json) -> (r: Json)
    ensures
        r@ == extract_data_view(result@),
{
    if let Some(data) = structured_data_of(&result) {
        return data.duplicate();
    }
    if let Some(parsed) = content_text_data_of(&result) {
        return parsed;
    }
    result
}

/// The `tools` member of a `tools/list` result, or an empty array.
pub open spec fn tools_view(v: JsonV) -> JsonV {
    match lookup(v, "tools"@) {
        Some(t) => t,
        None => JsonV::Array(Seq::empty()),
    }
}

/// The tool catalog inside a `tools/list` result.
pub fn tools_of(result: &Json) -> (r: Json)
    ensures
        r@ == tools_view(result@),
{
    match result.get("tools") {
        Some(t) => t.duplicate(),
        None => {
            let v: Vec<Json> = Vec::new();
            proof {
                lemma_view_array(v);
                assert(items_view(v@) =~= Seq::empty());
            }
            Json::Array(v)
        },
    }
}

// ---------------------------------------------------------------------------
// Shortening text for messages
// ---------------------------------------------------------------------------

/// `s` cut to its first `n` bytes with `…` appended, or `s` itself when it
/// is no longer than `n` bytes. The cut must fall on a character boundary.
pub fn truncate(s: &str, n: usize) -> (r: String)
    requires
        s.spec_bytes().len() <= usize::MAX,
        s.spec_bytes().len() <= n || is_char_boundary(s.spec_bytes(), n as int),
    ensures
        s.spec_bytes().len() <= n ==> r@ == s@,
        s.spec_bytes().len() > n ==> r@ == decode_utf8(s.spec_bytes().subrange(0, n as int))
            + "…"@,
{
    if s.len() <= n {
        String::from_str(s)
    } else {
        let (head, _tail) = s.split_at(n);
        proof {
            broadcast use vstd::utf8::encode_utf8_decode_utf8;

            assert(decode_utf8(head.spec_bytes()) == head@);
            assert(head.spec_bytes() == s.spec_bytes().subrange(0, n as int));
        }
        let r = String::from_str(head).concat("…");
        assert(r@ == head@ + "…"@);
        r
    }
}

// ---------------------------------------------------------------------------
// Messages
// ---------------------------------------------------------------------------

/// The text an envelope error is reported with.
pub open spec fn envelope_message(e: EnvelopeErrorV) -> Seq<char> {
    match e {
        EnvelopeErrorV::NoPayload => "no JSON or SSE payload in response"@,
        EnvelopeErrorV::Syntax(m) => m,
    }
}

impl EnvelopeError {
    pub fn message(&self) -> (r: String)
        ensures
            r@ == envelope_message(self@),
    {
        match self {
            EnvelopeError::NoPayload => String::from_str("no JSON or SSE payload in response"),
            EnvelopeError::Syntax(m) => m.clone(),
        }
    }
}

/// A reply body that [`truncate`] can cut at 200 bytes.
pub open spec fn cuttable(body: Seq<char>) -> bool {
    encode_utf8(body).len() <= usize::MAX && (encode_utf8(body).len() <= 200 || is_char_boundary(
        encode_utf8(body),
        200,
    ))
}

/// `body` as a parse failure quotes it: cut to 200 bytes with `…`.
pub open spec fn quoted_body(body: Seq<char>) -> Seq<char> {
    if encode_utf8(body).len() <= 200 {
        body
    } else {
        decode_utf8(encode_utf8(body).subrange(0, 200)) + "…"@
    }
}

/// The text a failure is reported with, given the text of the HTTP status
/// (for example `500 Internal Server Error`) and the endpoint URL. A parse
/// failure's text is followed, as its cause, by the envelope error's text.
pub open spec fn failure_message(
    f: RpcFailureV,
    status_text: Seq<char>,
    url: Seq<char>,
    quoted: Seq<char>,
) -> Seq<char> {
    match f {
        RpcFailureV::Http(_, body) => "HTTP "@ + status_text + " from "@ + url + ": "@ + body,
        RpcFailureV::Parse(_, _) => "parse MCP response: "@ + quoted,
        RpcFailureV::Mcp(code, message) => "MCP error "@ + int_text(code as int) + ": "@ + message,
        RpcFailureV::MissingResult => "MCP response missing result"@,
    }
}

impl RpcFailure {
    pub fn message(&self, status_text: &str, url: &str) -> (r: String)
        requires
            self matches RpcFailure::Parse { body, .. } ==> cuttable(body@),
        ensures
            r@ == failure_message(
                self@,
                status_text@,
                url@,
                match self {
                    RpcFailure::Parse { body, .. } => quoted_body(body@),
                    _ => Seq::empty(),
                },
            ),
    {
        match self {
            RpcFailure::Http { body, .. } => String::from_str("HTTP ").concat(status_text).concat(
                " from ",
            ).concat(url).concat(": ").concat(body.as_str()),
            RpcFailure::Parse { body, .. } => {
                let cut = truncate(body.as_str(), 200);
                String::from_str("parse MCP response: ").concat(cut.as_str())
            },
            RpcFailure::Mcp { code, message } => {
                let c = i64_text(*code);
                String::from_str("MCP error ").concat(c.as_str()).concat(": ").concat(
                    message.as_str(),
                )
            },
            RpcFailure::MissingResult => String::from_str("MCP response missing result"),
        }
    }
}

/// A request is a JSON-RPC 2.0 object: `jsonrpc` is `2.0`, and `id`,
/// `method` and `params` carry the request's ID, method and parameters; it
/// has no other member. The parameters of a tool call carry the tool's name
/// under `name` and its arguments under `arguments`, and nothing else.
pub proof fn law_request_members(
    id: u64,
    method: Seq<char>,
    params: JsonV,
    name: Seq<char>,
    args: JsonV,
    other: Seq<char>,
)
    ensures
        lookup(rpc_request_view(id, method, params), "jsonrpc"@) == Some(JsonV::Str("2.0"@)),
        lookup(rpc_request_view(id, method, params), "id"@) == Some(
            JsonV::Number(NumberV::PosInt(id)),
        ),
        lookup(rpc_request_view(id, method, params), "method"@) == Some(JsonV::Str(method)),
        lookup(rpc_request_view(id, method, params), "params"@) == Some(params),
        other != "jsonrpc"@ && other != "id"@ && other != "method"@ && other != "params"@
            ==> lookup(rpc_request_view(id, method, params), other) is None,
        lookup(tool_call_params_view(name, args), "name"@) == Some(JsonV::Str(name)),
        lookup(tool_call_params_view(name, args), "arguments"@) == Some(args),
        other != "name"@ && other != "arguments"@ ==> lookup(tool_call_params_view(name, args), other)
            is None,
{
    reveal_strlit("jsonrpc");
    reveal_strlit("id");
    reveal_strlit("method");
    reveal_strlit("params");
    reveal_strlit("name");
    reveal_strlit("arguments");
    assert("jsonrpc"@.len() == 7 && "id"@.len() == 2 && "method"@.len() == 6 && "params"@.len() == 6
        && "name"@.len() == 4 && "arguments"@.len() == 9);
    assert("method"@[0] != "params"@[0]);
    let es = rpc_request_view(id, method, params)->Object_0;
    assert(first_key_at(es, "jsonrpc"@, 0));
    lemma_lookup_at(es, "jsonrpc"@, 0);
    assert(first_key_at(es, "id"@, 1));
    lemma_lookup_at(es, "id"@, 1);
    assert(first_key_at(es, "method"@, 2));
    lemma_lookup_at(es, "method"@, 2);
    assert(first_key_at(es, "params"@, 3));
    lemma_lookup_at(es, "params"@, 3);
    if other != "jsonrpc"@ && other != "id"@ && other != "method"@ && other != "params"@ {
        lemma_lookup_absent(es, other);
    }
    let ps = tool_call_params_view(name, args)->Object_0;
    assert(first_key_at(ps, "name"@, 0));
    lemma_lookup_at(ps, "name"@, 0);
    assert(first_key_at(ps, "arguments"@, 1));
    lemma_lookup_at(ps, "arguments"@, 1);
    if other != "name"@ && other != "arguments"@ {
        lemma_lookup_absent(ps, other);
    }
}

/// The HTTP status decides first: a status outside 200..=299 fails with
/// that status and the body, whatever the body holds. Under a success
/// status, a reply with a result and no `error` member gives that result.
pub proof fn law_status_then_envelope(
    status: u16,
    body: Seq<char>,
    parsed: Option<Result<EnvelopeV, Seq<char>>>,
    result: JsonV,
)
    ensures
        !is_success(status) ==> rpc_result(status, body, parsed) == Err::<JsonV, RpcFailureV>(
            RpcFailureV::Http(status, body),
        ),
        is_success(status) ==> rpc_result(status, body, Some(Ok((Some(result), None)))) == Ok::<
            JsonV,
            RpcFailureV,
        >(result),
        is_success(200) && is_success(204) && is_success(299),
        !is_success(199) && !is_success(300) && !is_success(404) && !is_success(500),
{
}

/// A tool's payload is `structuredContent.data` when the result has it;
/// otherwise the first content item's `text`, parsed as JSON, when that
/// parses; otherwise the whole result. The catalog in a `tools/list` result
/// is its `tools` member, or an empty array when it has none.
pub proof fn law_payload_preference(
    v: JsonV,
    st: JsonV,
    d: JsonV,
    items: Seq<JsonV>,
    t: Seq<char>,
    p: JsonV,
)
    ensures
        lookup(v, "structuredContent"@) == Some(st) && lookup(st, "data"@) == Some(d)
            ==> extract_data_view(v) == d,
        structured_data(v) is None && lookup(v, "content"@) == Some(JsonV::Array(items))
            && items.len() > 0 && lookup(items[0], "text"@) == Some(JsonV::Str(t)) && json_parse(t)
            == Ok::<JsonV, Seq<char>>(p) ==> extract_data_view(v) == p,
        structured_data(v) is None && content_text_data(v) is None ==> extract_data_view(v) == v,
        lookup(v, "tools"@) == Some(st) ==> tools_view(v) == st,
        lookup(v, "tools"@) is None ==> tools_view(v) == JsonV::Array(Seq::empty()),
{
}

} // verus!
