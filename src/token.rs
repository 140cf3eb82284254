//! Comma-separated header tokens, compared without regard to ASCII case.
use vstd::prelude::*;

verus! {

/// The bytes that `u8::is_ascii_whitespace` accepts: space, tab, line feed,
/// form feed and carriage return.
pub open spec fn is_space(b: u8) -> bool {
    b == 0x20u8 || b == 0x09u8 || b == 0x0au8 || b == 0x0cu8 || b == 0x0du8
}

/// `s` without its leading whitespace.
pub open spec fn trimmed_start(s: Seq<u8>) -> Seq<u8>
    decreases s.len(),
{
    if s.len() > 0 && is_space(s[0]) {
        trimmed_start(s.drop_first())
    } else {
        s
    }
}

/// `s` without its trailing whitespace.
pub open spec fn trimmed_end(s: Seq<u8>) -> Seq<u8>
    decreases s.len(),
{
    if s.len() > 0 && is_space(s.last()) {
        trimmed_end(s.drop_last())
    } else {
        s
    }
}

/// `s` without whitespace at either end.
pub open spec fn trimmed(s: Seq<u8>) -> Seq<u8> {
    trimmed_end(trimmed_start(s))
}

/// Removes the leading ASCII whitespace of `data`.
pub fn trim_start(data: &[u8]) -> (r: &[u8])
    ensures
        r@ == trimmed_start(data@),
{
    let mut i: usize = 0;
    assert(data@.subrange(0, data@.len() as int) =~= data@);
    while i < data.len() && is_ascii_space(data[i])
        invariant
            i <= data@.len(),
            trimmed_start(data@) == trimmed_start(data@.subrange(i as int, data@.len() as int)),
        decreases data@.len() - i,
    {
        assert(data@.subrange(i as int, data@.len() as int).drop_first() =~= data@.subrange(
            i + 1,
            data@.len() as int,
        ));
        i = i + 1;
    }
    &data[i..data.len()]
}

/// Removes the trailing ASCII whitespace of `data`.
pub fn trim_end(data: &[u8]) -> (r: &[u8])
    ensures
        r@ == trimmed_end(data@),
{
    let mut j: usize = data.len();
    assert(data@.subrange(0, j as int) =~= data@);
    while j > 0 && is_ascii_space(data[j - 1])
        invariant
            j <= data@.len(),
            trimmed_end(data@) == trimmed_end(data@.subrange(0, j as int)),
        decreases j,
    {
        assert(data@.subrange(0, j as int).drop_last() =~= data@.subrange(0, j - 1));
        j = j - 1;
    }
    &data[0..j]
}

/// Removes the ASCII whitespace at both ends of `data`.
pub fn trim(data: &[u8]) -> (r: &[u8])
    ensures
        r@ == trimmed(data@),
{
    trim_end(trim_start(data))
}

/// Whether `b` is ASCII whitespace.
fn is_ascii_space(b: u8) -> (r: bool)
    ensures
        r == is_space(b),
{
    b == 0x20u8 || b == 0x09u8 || b == 0x0au8 || b == 0x0cu8 || b == 0x0du8
}

/// The byte that separates the tokens of a header value.
pub const COMMA: u8 = 0x2cu8;

/// `b` with an ASCII upper-case letter mapped to its lower-case form.
pub open spec fn ascii_lower(b: u8) -> u8 {
    if 0x41u8 <= b <= 0x5au8 {
        (b + 0x20u8) as u8
    } else {
        b
    }
}

/// `x` and `y` are equal when ASCII letters are compared without case.
pub open spec fn eq_ignore_case(x: Seq<u8>, y: Seq<u8>) -> bool {
    x.len() == y.len() && forall|i: int| 0 <= i < x.len() ==> ascii_lower(#[trigger] x[i])
        == ascii_lower(y[i])
}

/// The bytes of `v` from `a` up to `b` form one of its comma-separated
/// segments: each end is an end of `v` or a comma, and no comma lies between.
pub open spec fn is_segment(v: Seq<u8>, a: int, b: int) -> bool {
    &&& 0 <= a <= b <= v.len()
    &&& (a == 0 || v[a - 1] == COMMA)
    &&& (b == v.len() || v[b] == COMMA)
    &&& forall|i: int| a <= i < b ==> v[i] != COMMA
}

/// Some comma-separated segment of the value `v`, once trimmed, equals
/// `token` without regard to ASCII case.
pub open spec fn value_has_token(v: Seq<u8>, token: Seq<u8>) -> bool {
    exists|a: int, b: int|
        #[trigger] is_segment(v, a, b) && eq_ignore_case(trimmed(v.subrange(a, b)), token)
}

/// Some value among `values` holds `token`.
pub open spec fn values_have_token(values: Seq<Seq<u8>>, token: Seq<u8>) -> bool {
    exists|i: int| 0 <= i < values.len() && value_has_token(#[trigger] values[i], token)
}

/// Matching a token depends on the header values and the token alone: two
/// matches over the same values and the same token agree.
pub proof fn lemma_token_match_deterministic(
    values1: Seq<Seq<u8>>,
    values2: Seq<Seq<u8>>,
    token1: Seq<u8>,
    token2: Seq<u8>,
)
    requires
        values1 == values2,
        token1 == token2,
    ensures
        values_have_token(values1, token1) == values_have_token(values2, token2),
{
}

/// Compares two byte strings, ASCII letters without regard to case.
pub fn bytes_eq_ignore_case(x: &[u8], y: &[u8]) -> (r: bool)
    ensures
        r == eq_ignore_case(x@, y@),
{
    if x.len() != y.len() {
        return false;
    }
    let mut i: usize = 0;
    while i < x.len()
        invariant
            x@.len() == y@.len(),
            i <= x@.len(),
            forall|k: int| 0 <= k < i ==> ascii_lower(#[trigger] x@[k]) == ascii_lower(y@[k]),
        decreases x@.len() - i,
    {
        if to_lower(x[i]) != to_lower(y[i]) {
            return false;
        }
        i = i + 1;
    }
    true
}

fn to_lower(b: u8) -> (r: u8)
    ensures
        r == ascii_lower(b),
{
    if 0x41u8 <= b && b <= 0x5au8 {
        b + 0x20u8
    } else {
        b
    }
}

/// The segment of `v` that starts at `a` is the one that ends at the first
/// comma from `a` on.
proof fn lemma_segment_end(v: Seq<u8>, a: int, e: int, b: int)
    requires
        0 <= a <= e <= v.len(),
        e == v.len() || v[e] == COMMA,
        forall|i: int| a <= i < e ==> v[i] != COMMA,
        is_segment(v, a, b),
    ensures
        b == e,
{
    if b < e {
        assert(v[b] != COMMA);
    } else if b > e {
        assert(v[e] != COMMA);
    }
}

/// Whether some comma-separated segment of `value`, trimmed, equals `token`
/// without regard to ASCII case.
pub fn value_contains_token(value: &[u8], token: &[u8]) -> (r: bool)
    ensures
        r == value_has_token(value@, token@),
{
    let ghost v = value@;
    let mut start: usize = 0;
    let mut i: usize = 0;
    while i < value.len()
        invariant
            start <= i <= v.len(),
            v == value@,
            start == 0 || v[start - 1] == COMMA,
            forall|k: int| start <= k < i ==> v[k] != COMMA,
            forall|a: int, b: int|
                #[trigger] is_segment(v, a, b) && a < start ==> !eq_ignore_case(
                    trimmed(v.subrange(a, b)),
                    token@,
                ),
        decreases v.len() - i,
    {
        if value[i] == COMMA {
            let segment = &value[start..i];
            if bytes_eq_ignore_case(trim(segment), token) {
                assert(is_segment(v, start as int, i as int));
                return true;
            }
            assert forall|a: int, b: int|
                #[trigger] is_segment(v, a, b) && a < i + 1 implies !eq_ignore_case(
                    trimmed(v.subrange(a, b)),
                    token@,
                ) by {
                if a >= start {
                    if a > start {
                        assert(v[a - 1] != COMMA);
                    }
                    lemma_segment_end(v, a, i as int, b);
                }
            }
            start = i + 1;
        }
        i = i + 1;
    }
    let segment = &value[start..value.len()];
    if bytes_eq_ignore_case(trim(segment), token) {
        assert(is_segment(v, start as int, v.len() as int));
        return true;
    }
    assert forall|a: int, b: int| #[trigger] is_segment(v, a, b) implies !eq_ignore_case(
        trimmed(v.subrange(a, b)),
        token@,
    ) by {
        if a >= start {
            if a > start {
                assert(v[a - 1] != COMMA);
            }
            lemma_segment_end(v, a, v.len() as int, b);
        }
    }
    false
}

/// Whether any of `values`, the lines of one header, holds `token` among its
/// comma-separated segments, compared without regard to ASCII case.
pub fn header_contains_value(values: &Vec<Vec<u8>>, token: &[u8]) -> (r: bool)
    ensures
        r == values_have_token(values@.map_values(|v: Vec<u8>| v@), token@),
{
    let ghost vs = values@.map_values(|v: Vec<u8>| v@);
    let mut i: usize = 0;
    while i < values.len()
        invariant
            i <= values@.len(),
            vs == values@.map_values(|v: Vec<u8>| v@),
            forall|k: int| 0 <= k < i ==> !value_has_token(#[trigger] vs[k], token@),
        decreases values@.len() - i,
    {
        if value_contains_token(values[i].as_slice(), token) {
            assert(value_has_token(vs[i as int], token@));
            return true;
        }
        i = i + 1;
    }
    false
}

} // verus!
