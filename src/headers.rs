//! Header maps of hyper, seen as the values stored under each header name.
use crate::token::{header_contains_value, values_have_token};
use hyper::header::HeaderValue;
use hyper::HeaderMap;
use vstd::prelude::*;

verus! {

#[verifier::external_type_specification]
#[verifier::external_body]
#[verifier::reject_recursive_types(T)]
pub struct ExHeaderMap<T>(HeaderMap<T>);

#[verifier::external_type_specification]
#[verifier::external_body]
pub struct ExHeaderValue(HeaderValue);

/// What a header map holds: for each lower-case header name, the raw bytes of
/// the values stored under it, in the order in which they were added.
pub uninterp spec fn header_fields(headers: HeaderMap) -> Map<Seq<char>, Seq<Seq<u8>>>;

/// The values stored under `name`; none where the name is absent.
pub open spec fn values_for(fields: Map<Seq<char>, Seq<Seq<u8>>>, name: Seq<char>) -> Seq<
    Seq<u8>,
> {
    if fields.contains_key(name) {
        fields[name]
    } else {
        Seq::empty()
    }
}

/// A header name written in lower case: letters, digits and dashes.
pub open spec fn is_lowercase_name(name: Seq<char>) -> bool {
    name.len() > 0 && forall|i: int|
        0 <= i < name.len() ==> {
            let c = #[trigger] name[i];
            ('a' <= c <= 'z') || ('0' <= c <= '9') || c == '-'
        }
}

/// The values of header `name` in `headers`, each as its raw bytes.
pub open spec fn header_lines(headers: HeaderMap, name: Seq<char>) -> Seq<Seq<u8>> {
    values_for(header_fields(headers), name)
}

/// Relies on http's `HeaderMap::get_all` and `HeaderValue::as_bytes`: every
/// value stored under `name`, in insertion order, as its bytes.
#[verifier::external_body]
pub(crate) fn get_all_values(headers: &HeaderMap, name: &str) -> (r: Vec<Vec<u8>>)
    requires
        is_lowercase_name(name@),
    ensures
        r@.map_values(|v: Vec<u8>| v@) == values_for(header_fields(*headers), name@),
{
    headers.get_all(name).iter().map(|v| v.as_bytes().to_vec()).collect()
}

/// The bytes of an ASCII string.
pub open spec fn ascii_bytes(s: Seq<char>) -> Seq<u8> {
    Seq::new(s.len(), |i: int| s[i] as u8)
}

/// The request asks to switch to WebSocket: its `Connection` header holds
/// the token `upgrade` and its `Upgrade` header the token `websocket`.
pub open spec fn upgrade_requested(headers: HeaderMap) -> bool {
    &&& values_have_token(header_lines(headers, "connection"@), ascii_bytes("upgrade"@))
    &&& values_have_token(header_lines(headers, "upgrade"@), ascii_bytes("websocket"@))
}

/// Whether the request with these headers asks for a WebSocket upgrade.
///
/// Only the presence of the tokens counts: an `Upgrade` header that lists
/// several protocols qualifies as soon as `websocket` is among them.
pub fn is_upgrade_request(headers: &HeaderMap) -> (r: bool)
    ensures
        r == upgrade_requested(*headers),
{
    proof {
        reveal_strlit("connection");
        reveal_strlit("upgrade");
        vstd::string::is_ascii_spec_bytes("upgrade");
    }
    let connection = get_all_values(headers, "connection");
    if !header_contains_value(&connection, "upgrade".as_bytes()) {
        return false;
    }
    proof {
        reveal_strlit("websocket");
        vstd::string::is_ascii_spec_bytes("websocket");
    }
    let upgrade = get_all_values(headers, "upgrade");
    header_contains_value(&upgrade, "websocket".as_bytes())
}

} // verus!
