//! The opening handshake: checking the client's headers, deriving the accept
//! token and building the switching response.
use crate::headers::{ascii_bytes, get_all_values, header_lines, is_lowercase_name, values_for};
use crate::pending::{HyperWebsocket, UpgradeState};
use http_body_util::Full;
use hyper::body::Bytes;
use hyper::upgrade::OnUpgrade;
use hyper::{HeaderMap, Request, Response};
use tungstenite::protocol::WebSocketConfig;
use vstd::prelude::*;

verus! {

#[verifier::external_type_specification]
#[verifier::external_body]
#[verifier::reject_recursive_types(T)]
pub struct ExRequest<T>(Request<T>);

#[verifier::external_type_specification]
#[verifier::external_body]
#[verifier::reject_recursive_types(T)]
pub struct ExResponse<T>(Response<T>);

#[verifier::external_type_specification]
#[verifier::external_body]
#[verifier::reject_recursive_types(D)]
pub struct ExFull<D>(Full<D>);

#[verifier::external_type_specification]
#[verifier::external_body]
pub struct ExBytes(Bytes);

pub assume_specification<T>[ Request::<T>::headers ](request: &Request<T>) -> &HeaderMap;

/// Why a handshake could not go on.
#[derive(Debug, Clone, Copy, PartialEq, Eq, Structural)]
pub enum ProtocolError {
    /// The request has no `Sec-WebSocket-Key` header.
    MissingKey,
    /// The request's `Sec-WebSocket-Version` header is absent or not `13`.
    MissingOrInvalidVersion,
    /// The transport could not hand over the raw connection.
    HandshakeIncomplete,
}

/// The `Sec-WebSocket-Accept` token for the client key `key`: the base64 form
/// of the SHA-1 digest of the key followed by the WebSocket GUID.
pub uninterp spec fn accept_key_of(key: Seq<u8>) -> Seq<char>;

/// Deriving the accept token depends on the client key alone: two
/// derivations from the same key give the same token.
pub proof fn lemma_accept_key_deterministic(key1: Seq<u8>, key2: Seq<u8>)
    requires
        key1 == key2,
    ensures
        accept_key_of(key1) == accept_key_of(key2),
{
}

/// A character of the padded standard base64 alphabet.
pub open spec fn is_base64_char(c: char) -> bool {
    ('A' <= c <= 'Z') || ('a' <= c <= 'z') || ('0' <= c <= '9') || c == '+' || c == '/' || c
        == '='
}

/// Relies on tungstenite's `derive_accept_key`: the token is the padded
/// base64 form of a 20-byte SHA-1 digest, so 28 base64 characters.
#[verifier::external_body]
fn derive_accept_key(key: &[u8]) -> (r: String)
    ensures
        r@ == accept_key_of(key@),
        r@.len() == 28,
        forall|i: int| 0 <= i < r@.len() ==> is_base64_char(#[trigger] r@[i]),
{
    tungstenite::handshake::derive_accept_key(key)
}

/// The response that agrees to switch to WebSocket.
#[derive(Debug)]
pub struct SwitchingResponse {
    /// The status code.
    pub status: u16,
    /// The headers, each a lower-case name and its value, in order.
    pub headers: Vec<(String, String)>,
    /// The informational text of the body.
    pub body: String,
}

/// A header value that holds only visible ASCII characters and spaces.
pub open spec fn is_visible_text(s: Seq<char>) -> bool {
    forall|i: int| 0 <= i < s.len() ==> ' ' <= #[trigger] s[i] <= '~'
}

/// The longest header name that http accepts.
pub const MAX_NAME_LEN: usize = 65535;

/// The most headers a response is built with here. http's header table
/// grows by doubling and refuses to grow past 32768 slots; it doubles when
/// three quarters full, or under many collisions once its entries reach a
/// fifth of its slots. Below 4096 entries neither can take it past that.
pub const MAX_HEADERS: usize = 4096;

/// A header that http takes: a lower-case name no longer than it allows and a
/// value of visible text.
pub open spec fn is_valid_header(name: Seq<char>, value: Seq<char>) -> bool {
    &&& is_lowercase_name(name)
    &&& name.len() <= MAX_NAME_LEN
    &&& is_visible_text(value)
}

/// A response that can be handed to hyper: a three-digit status and fewer
/// than `MAX_HEADERS` headers, each of them valid.
pub open spec fn is_well_formed(r: SwitchingResponse) -> bool {
    &&& 100 <= r.status <= 999
    &&& r.headers@.len() < MAX_HEADERS
    &&& forall|i: int|
        0 <= i < r.headers@.len() ==> is_valid_header(
            (#[trigger] r.headers@[i]).0@,
            r.headers@[i].1@,
        )
}

/// The status code of a hyper response.
pub uninterp spec fn response_status(r: Response<Full<Bytes>>) -> u16;

/// The headers of a hyper response: for each lower-case name, the bytes of
/// the values stored under it, in the order in which they were added.
pub uninterp spec fn response_fields(r: Response<Full<Bytes>>) -> Map<Seq<char>, Seq<Seq<u8>>>;

/// The number of header values a hyper response holds, each value of a
/// repeated name counted once.
pub uninterp spec fn response_header_count(r: Response<Full<Bytes>>) -> nat;

/// A header map with no header.
pub open spec fn no_fields() -> Map<Seq<char>, Seq<Seq<u8>>> {
    Map::empty()
}

/// `fields` with `value` added after the values of `name`.
pub open spec fn add_field(fields: Map<Seq<char>, Seq<Seq<u8>>>, name: Seq<char>, value: Seq<u8>) -> Map<
    Seq<char>,
    Seq<Seq<u8>>,
> {
    fields.insert(name, values_for(fields, name).push(value))
}

/// The header fields that the headers `headers`, added in order, make up.
pub open spec fn fields_of(headers: Seq<(String, String)>) -> Map<Seq<char>, Seq<Seq<u8>>>
    decreases headers.len(),
{
    if headers.len() == 0 {
        no_fields()
    } else {
        add_field(
            fields_of(headers.drop_last()),
            headers.last().0@,
            ascii_bytes(headers.last().1@),
        )
    }
}

/// The header fields of the switching response with accept token `accept`.
pub open spec fn switching_fields(accept: Seq<char>) -> Map<Seq<char>, Seq<Seq<u8>>> {
    Map::empty().insert("connection"@, seq![ascii_bytes("upgrade"@)]).insert(
        "upgrade"@,
        seq![ascii_bytes("websocket"@)],
    ).insert("sec-websocket-accept"@, seq![ascii_bytes(accept)])
}

/// `r` is the switching response that carries the accept token `accept`:
/// status 101, `connection: upgrade`, `upgrade: websocket` and
/// `sec-websocket-accept: accept`, in this order.
pub open spec fn is_switching_response(r: SwitchingResponse, accept: Seq<char>) -> bool {
    &&& r.status == 101
    &&& r.headers@.len() == 3
    &&& r.headers@[0].0@ == "connection"@
    &&& r.headers@[0].1@ == "upgrade"@
    &&& r.headers@[1].0@ == "upgrade"@
    &&& r.headers@[1].1@ == "websocket"@
    &&& r.headers@[2].0@ == "sec-websocket-accept"@
    &&& r.headers@[2].1@ == accept
    &&& r.body@ == "switching to websocket protocol"@
}

/// What the handshake comes to for a request with these headers: the accept
/// token for the first `Sec-WebSocket-Key`, once the first
/// `Sec-WebSocket-Version` is `13`.
pub open spec fn handshake_outcome(headers: HeaderMap) -> Result<Seq<char>, ProtocolError> {
    let keys = header_lines(headers, "sec-websocket-key"@);
    let versions = header_lines(headers, "sec-websocket-version"@);
    if keys.len() == 0 {
        Err(ProtocolError::MissingKey)
    } else if versions.len() == 0 || versions[0] != ascii_bytes("13"@) {
        Err(ProtocolError::MissingOrInvalidVersion)
    } else {
        Ok(accept_key_of(keys[0]))
    }
}

/// Checks the handshake headers of a request and builds the response that
/// switches it to WebSocket.
///
/// The key must be present and the version must be `13`, checked in this
/// order; `Origin`, subprotocols and extensions are not looked at.
pub fn negotiate(headers: &HeaderMap) -> (r: Result<SwitchingResponse, ProtocolError>)
    ensures
        match handshake_outcome(*headers) {
            Ok(accept) => {
                &&& r is Ok
                &&& is_switching_response(r->Ok_0, accept)
                &&& is_well_formed(r->Ok_0)
                &&& accept.len() == 28
            },
            Err(e) => r == Err::<SwitchingResponse, ProtocolError>(e),
        },
{
    proof {
        reveal_strlit("sec-websocket-key");
        reveal_strlit("sec-websocket-version");
    }
    let keys = get_all_values(headers, "sec-websocket-key");
    if keys.len() == 0 {
        return Err(ProtocolError::MissingKey);
    }
    let versions = get_all_values(headers, "sec-websocket-version");
    proof {
        reveal_strlit("13");
    }
    if versions.len() == 0 || versions[0].len() != 2 || versions[0][0] != 0x31u8
        || versions[0][1] != 0x33u8 {
        proof {
            if versions@.len() > 0 && versions@[0]@.len() == 2 {
                assert(versions@[0]@ != ascii_bytes("13"@) || (versions@[0]@[0] == 0x31u8
                    && versions@[0]@[1] == 0x33u8));
            }
        }
        return Err(ProtocolError::MissingOrInvalidVersion);
    }
    assert(versions@[0]@ =~= ascii_bytes("13"@));
    let accept = derive_accept_key(keys[0].as_slice());
    proof {
        reveal_strlit("connection");
        reveal_strlit("upgrade");
        reveal_strlit("websocket");
        reveal_strlit("sec-websocket-accept");
    }
    let mut fields: Vec<(String, String)> = Vec::new();
    fields.push(("connection".to_owned(), "upgrade".to_owned()));
    fields.push(("upgrade".to_owned(), "websocket".to_owned()));
    fields.push(("sec-websocket-accept".to_owned(), accept));
    Ok(SwitchingResponse {
        status: 101,
        headers: fields,
        body: "switching to websocket protocol".to_owned(),
    })
}

/// Relies on http's `Response::new`: a response with status 200, no
/// headers and `body` as its whole body.
#[verifier::external_body]
fn response_with_body(body: String) -> (r: Response<Full<Bytes>>)
    ensures
        response_status(r) == 200,
        response_fields(r) == no_fields(),
        response_header_count(r) == 0,
{
    Response::new(Full::from(body))
}

/// Relies on http's `StatusCode::from_u16`, which takes every code from 100
/// to 999, and on `Response::status_mut`.
#[verifier::external_body]
fn set_status(response: &mut Response<Full<Bytes>>, status: u16)
    requires
        100 <= status <= 999,
    ensures
        response_status(*final(response)) == status,
        response_fields(*final(response)) == response_fields(*old(response)),
        response_header_count(*final(response)) == response_header_count(*old(response)),
{
    *response.status_mut() = hyper::StatusCode::from_u16(status).expect("a three-digit status");
}

/// Relies on http's `HeaderMap::append` on the response's headers, which
/// adds the value after those already under the name and succeeds while the
/// map holds fewer than `MAX_HEADERS` values; the conversions to `HeaderName`
/// and `HeaderValue` keep a valid name and value as they are.
#[verifier::external_body]
fn append_header(response: &mut Response<Full<Bytes>>, name: String, value: String)
    requires
        is_valid_header(name@, value@),
        response_header_count(*old(response)) < MAX_HEADERS,
    ensures
        response_status(*final(response)) == response_status(*old(response)),
        response_fields(*final(response)) == add_field(
            response_fields(*old(response)),
            name@,
            ascii_bytes(value@),
        ),
        response_header_count(*final(response)) == response_header_count(*old(response)) + 1,
{
    let name = hyper::header::HeaderName::try_from(name).expect("a lower-case header name");
    let value = hyper::header::HeaderValue::try_from(value).expect("a visible header value");
    response.headers_mut().append(name, value);
}

/// The hyper response that carries `response`: its status, its headers in
/// order and its body.
fn to_http_response(response: SwitchingResponse) -> (r: Response<Full<Bytes>>)
    requires
        is_well_formed(response),
    ensures
        response_status(r) == response.status,
        response_fields(r) == fields_of(response.headers@),
{
    let SwitchingResponse { status, headers, body } = response;
    let mut r = response_with_body(body);
    set_status(&mut r, status);
    let mut i: usize = 0;
    assert(headers@.subrange(0, 0) =~= Seq::<(String, String)>::empty());
    while i < headers.len()
        invariant
            i <= headers@.len() < MAX_HEADERS,
            forall|k: int|
                0 <= k < headers@.len() ==> is_valid_header(
                    (#[trigger] headers@[k]).0@,
                    headers@[k].1@,
                ),
            response_status(r) == status,
            response_fields(r) == fields_of(headers@.subrange(0, i as int)),
            response_header_count(r) == i,
        decreases headers@.len() - i,
    {
        let name = headers[i].0.clone();
        let value = headers[i].1.clone();
        append_header(&mut r, name, value);
        assert(headers@.subrange(0, i + 1).drop_last() =~= headers@.subrange(0, i as int));
        i = i + 1;
    }
    assert(headers@.subrange(0, i as int) =~= headers@);
    r
}

/// The headers of a switching response make up its switching fields.
proof fn lemma_switching_fields(response: SwitchingResponse)
    requires
        exists|accept: Seq<char>| is_switching_response(response, accept),
    ensures
        exists|accept: Seq<char>|
            #[trigger] is_switching_response(response, accept) && fields_of(response.headers@)
                == switching_fields(accept),
{
    let accept = choose|accept: Seq<char>| is_switching_response(response, accept);
    reveal_strlit("connection");
    reveal_strlit("upgrade");
    reveal_strlit("sec-websocket-accept");
    let h = response.headers@;
    assert(h.drop_last().drop_last().drop_last() =~= Seq::<(String, String)>::empty());
    let h2 = h.drop_last().drop_last();
    assert(h2.last() == h[0]);
    assert(h.drop_last().last() == h[1]);
    assert("connection"@.len() != "upgrade"@.len());
    assert("connection"@.len() != "sec-websocket-accept"@.len());
    assert("upgrade"@.len() != "sec-websocket-accept"@.len());
    let f2 = no_fields().insert("connection"@, seq![ascii_bytes("upgrade"@)]);
    assert(fields_of(h2.drop_last()) == no_fields());
    assert(values_for(no_fields(), "connection"@) =~= Seq::<Seq<u8>>::empty());
    assert(Seq::<Seq<u8>>::empty().push(ascii_bytes("upgrade"@)) =~= seq![ascii_bytes("upgrade"@)]);
    assert(fields_of(h2) =~= f2);
    let f1 = f2.insert("upgrade"@, seq![ascii_bytes("websocket"@)]);
    assert(values_for(f2, "upgrade"@) =~= Seq::<Seq<u8>>::empty());
    assert(Seq::<Seq<u8>>::empty().push(ascii_bytes("websocket"@)) =~= seq![ascii_bytes("websocket"@)]);
    assert(fields_of(h.drop_last()) =~= f1);
    assert(values_for(f1, "sec-websocket-accept"@) =~= Seq::<Seq<u8>>::empty());
    assert(Seq::<Seq<u8>>::empty().push(ascii_bytes(accept)) =~= seq![ascii_bytes(accept)]);
    assert(fields_of(h) =~= switching_fields(accept));
}

/// Relies on hyper's `upgrade::on`: it takes the request's hand-off handle,
/// which no later call can take again.
#[verifier::external_body]
fn claim_upgrade<B>(request: &mut Request<B>) -> (r: OnUpgrade) {
    hyper::upgrade::on(request)
}

/// Upgrades a request to WebSocket.
///
/// On success this gives the switching response, which the caller must send
/// for the pending upgrade to resolve, and the pending upgrade itself; it has
/// claimed the request's hand-off handle. On failure the request is left as
/// it was and the error says which handshake header is wrong.
pub fn upgrade<B>(request: &mut Request<B>, config: Option<WebSocketConfig>) -> (r: Result<
    (Response<Full<Bytes>>, HyperWebsocket),
    ProtocolError,
>)
    ensures
        match r {
            Ok((response, websocket)) => {
                &&& response_status(response) == 101
                &&& exists|key: Seq<u8>|
                    {
                        &&& response_fields(response) == switching_fields(
                            #[trigger] accept_key_of(key),
                        )
                        &&& accept_key_of(key).len() == 28
                    }
                &&& websocket.spec_state() == UpgradeState::Waiting
                &&& websocket.spec_config() == config
            },
            Err(e) => {
                &&& e == ProtocolError::MissingKey || e == ProtocolError::MissingOrInvalidVersion
                &&& *final(request) == *old(request)
            },
        },
{
    let response = match negotiate(request.headers()) {
        Ok(response) => response,
        Err(e) => {
            return Err(e);
        },
    };
    proof {
        lemma_switching_fields(response);
    }
    let response = to_http_response(response);
    let handle = claim_upgrade(request);
    Ok((response, HyperWebsocket::new(handle, config)))
}

} // verus!
