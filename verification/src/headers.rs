//! Read access to HTTP response headers: the first value stored under a
//! header name, and its text when it is visible ASCII.

use reqwest::header::{HeaderMap, HeaderValue};
use vstd::prelude::*;

verus! {

#[verifier::external_type_specification]
#[verifier::external_body]
#[verifier::reject_recursive_types(T)]
pub struct ExHeaderMap<T>(HeaderMap<T>);

/// The element type of `HeaderMap`; Verus needs it declared because
/// `HeaderMap` is `HeaderMap<HeaderValue>`.
#[verifier::external_type_specification]
#[verifier::external_body]
pub struct ExHeaderValue(HeaderValue);

/// For every header name present in the map (in its lowercase form), the
/// bytes of the first value stored under it.
pub uninterp spec fn header_first_values(headers: HeaderMap) -> Map<Seq<char>, Seq<u8>>;

/// A character that a lowercase header name built by this library may hold.
pub open spec fn is_header_name_char(c: char) -> bool {
    ('a' <= c <= 'z') || ('0' <= c <= '9') || c == '-' || c == '_'
}

/// A short, non-empty header name in lowercase form.
pub open spec fn is_plain_header_name(name: Seq<char>) -> bool {
    &&& 0 < name.len() <= 128
    &&& forall|i: int| 0 <= i < name.len() ==> is_header_name_char(#[trigger] name[i])
}

/// `HeaderMap::get` with a `&str` key, the value given back as its bytes
/// (`HeaderValue::as_bytes`). For a lowercase name the lookup finds the first
/// value stored under that name, and nothing when the name is absent.
#[verifier::external_body]
fn first_header_value(headers: &HeaderMap, name: &str) -> (value: Option<Vec<u8>>)
    requires
        is_plain_header_name(name@),
    ensures
        value is Some <==> header_first_values(*headers).dom().contains(name@),
        value matches Some(v) ==> v@ == header_first_values(*headers)[name@],
{
    headers.get(name).map(|v| v.as_bytes().to_vec())
}

/// A byte that `HeaderValue::to_str` accepts: visible ASCII or a tab.
pub open spec fn is_visible_ascii(b: u8) -> bool {
    (32 <= b && b < 127) || b == 9
}

/// Bytes that `HeaderValue::to_str` accepts as text.
pub open spec fn is_visible_ascii_text(s: Seq<u8>) -> bool {
    forall|i: int| 0 <= i < s.len() ==> is_visible_ascii(#[trigger] s[i])
}

/// `headers.get(name)?.to_str().ok()`, as bytes.
pub open spec fn header_text_spec(headers: HeaderMap, name: Seq<char>) -> Option<Seq<u8>> {
    let values = header_first_values(headers);
    if values.dom().contains(name) && is_visible_ascii_text(values[name]) {
        Some(values[name])
    } else {
        None
    }
}

/// The first value of a header when it is present and is visible ASCII text.
pub fn header_text(headers: &HeaderMap, name: &str) -> (text: Option<Vec<u8>>)
    requires
        is_plain_header_name(name@),
    ensures
        text.deep_view() == header_text_spec(*headers, name@),
{
    let value = match first_header_value(headers, name) {
        Some(v) => v,
        None => return None,
    };
    let mut i: usize = 0;
    while i < value.len()
        invariant
            i <= value@.len(),
            header_first_values(*headers).dom().contains(name@),
            value@ == header_first_values(*headers)[name@],
            forall|k: int| 0 <= k < i ==> is_visible_ascii(#[trigger] value@[k]),
        decreases value@.len() - i,
    {
        let b = value[i];
        if !((32 <= b && b < 127) || b == 9) {
            assert(!is_visible_ascii(value@[i as int]));
            return None;
        }
        i = i + 1;
    }
    proof {
        assert(value.deep_view() =~= value@);
    }
    Some(value)
}

} // verus!
