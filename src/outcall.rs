//! The outbound call: its configuration, headers and request value.
use vstd::prelude::*;
use vstd::utf8::encode_utf8;

verus! {

/// Upper bound on the bytes of the delivery service's reply that are kept.
pub const MAX_RESPONSE_BYTES: u64 = 1000;

/// Cycles attached to the outbound call: its resource and time budget.
pub const CALL_CYCLES: u128 = 5_000_000_000;

/// Settings injected into the dispatcher when it is set up.
pub struct DispatcherConfig {
    /// URL of the delivery endpoint.
    pub endpoint: String,
    /// Bearer token sent to the delivery service; empty when none was configured.
    pub auth_token: String,
}

impl DispatcherConfig {
    /// A configuration for `endpoint`; an absent token becomes the empty token.
    pub fn new(endpoint: String, auth_token: Option<String>) -> (c: DispatcherConfig)
        ensures
            c.endpoint@ == endpoint@,
            c.auth_token@ == match auth_token {
                Some(t) => t@,
                None => Seq::<char>::empty(),
            },
    {
        let auth_token = match auth_token {
            Some(t) => t,
            None => String::new(),
        };
        DispatcherConfig { endpoint, auth_token }
    }
}

/// HTTP method of an outbound call.
#[derive(Clone, Copy, Debug, PartialEq, Eq, Structural)]
pub enum HttpMethod {
    Get,
    Post,
    Head,
}

/// One request header.
pub struct HttpHeader {
    pub name: String,
    pub value: String,
}

/// A header as its name and value.
pub open spec fn header_view(h: HttpHeader) -> (Seq<char>, Seq<char>) {
    (h.name@, h.value@)
}

/// The idempotency key for the document `doc_key`.
pub open spec fn idempotency_key_of(doc_key: Seq<char>) -> Seq<char> {
    "futura-"@ + doc_key
}

/// The headers of the call for bearer token `token` and document `doc_key`, in order.
pub open spec fn request_headers(token: Seq<char>, doc_key: Seq<char>) -> Seq<(Seq<char>, Seq<char>)> {
    seq![
        ("Content-Type"@, "application/json"@),
        ("Authorization"@, "Bearer "@ + token),
        ("idempotency-key"@, idempotency_key_of(doc_key)),
    ]
}

/// The idempotency key for the document `doc_key`: the same key always gives
/// the same value, so the delivery service can recognize repeated deliveries.
pub fn idempotency_key(doc_key: &str) -> (r: String)
    ensures
        r@ == idempotency_key_of(doc_key@),
{
    let mut s = String::from_str("futura-");
    s.append(doc_key);
    s
}

/// Two documents get the same idempotency key exactly when their keys are
/// equal, so the key identifies repeated deliveries of one document and no
/// others.
pub proof fn lemma_idempotency_key_identifies(k1: Seq<char>, k2: Seq<char>)
    ensures
        (idempotency_key_of(k1) == idempotency_key_of(k2)) <==> (k1 == k2),
{
    let p = "futura-"@;
    if idempotency_key_of(k1) == idempotency_key_of(k2) {
        assert(k1 =~= idempotency_key_of(k1).subrange(p.len() as int, idempotency_key_of(k1).len() as int));
        assert(k2 =~= idempotency_key_of(k2).subrange(p.len() as int, idempotency_key_of(k2).len() as int));
    }
}

fn header(name: &str, value: String) -> (h: HttpHeader)
    ensures
        h.name@ == name@,
        h.value@ == value@,
{
    HttpHeader { name: String::from_str(name), value }
}

/// The content-type, authorization and idempotency-key headers, in that order.
pub fn build_headers(token: &str, doc_key: &str) -> (r: Vec<HttpHeader>)
    ensures
        r@.map_values(|h: HttpHeader| header_view(h)) == request_headers(token@, doc_key@),
{
    let content_type = header("Content-Type", String::from_str("application/json"));
    let mut bearer = String::from_str("Bearer ");
    bearer.append(token);
    let authorization = header("Authorization", bearer);
    let key = header("idempotency-key", idempotency_key(doc_key));
    let r = vec![content_type, authorization, key];
    assert(r@.map_values(|h: HttpHeader| header_view(h)) =~= request_headers(token@, doc_key@));
    r
}

/// A fully built outbound call.
pub struct OutboundRequest {
    pub url: String,
    pub method: HttpMethod,
    pub headers: Vec<HttpHeader>,
    pub body: Vec<u8>,
    pub max_response_bytes: u64,
    pub cycles: u128,
}

/// `o` is the call to the configured endpoint for document `doc_key`
/// carrying the JSON text `body`.
pub open spec fn is_delivery_call(
    o: OutboundRequest,
    endpoint: Seq<char>,
    token: Seq<char>,
    doc_key: Seq<char>,
    body: Seq<char>,
) -> bool {
    &&& o.url@ == endpoint
    &&& o.method == HttpMethod::Post
    &&& o.headers@.map_values(|h: HttpHeader| header_view(h)) == request_headers(token, doc_key)
    &&& o.body@ == encode_utf8(body)
    &&& o.max_response_bytes == MAX_RESPONSE_BYTES
    &&& o.cycles == CALL_CYCLES
}

/// The POST of `body` to the configured endpoint for document `doc_key`.
pub fn build_request(config: &DispatcherConfig, doc_key: &str, body: &str) -> (o: OutboundRequest)
    ensures
        is_delivery_call(o, config.endpoint@, config.auth_token@, doc_key@, body@),
{
    OutboundRequest {
        url: String::from_str(config.endpoint.as_str()),
        method: HttpMethod::Post,
        headers: build_headers(config.auth_token.as_str(), doc_key),
        body: body.as_bytes_vec(),
        max_response_bytes: MAX_RESPONSE_BYTES,
        cycles: CALL_CYCLES,
    }
}

} // verus!
