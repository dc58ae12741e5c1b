//! Whether a connection can be used again after a response.
use http::HeaderMap;
use vstd::prelude::*;

use crate::common::Version;
use crate::trusted::header_first;

verus! {

/// The lower-case form of an ASCII letter; any other byte as it is.
pub open spec fn ascii_lower(byte: u8) -> u8 {
    if 65 <= byte <= 90 {
        (byte + 32) as u8
    } else {
        byte
    }
}

/// Whether two texts differ in nothing but the case of ASCII letters.
pub open spec fn same_but_for_case(a: Seq<u8>, b: Seq<u8>) -> bool {
    a.len() == b.len() && forall|i: int|
        0 <= i < a.len() ==> ascii_lower(#[trigger] a[i]) == ascii_lower(b[i])
}

/// `close`, the value of a `Connection` header that ends the connection.
pub open spec fn conn_close() -> Seq<u8> {
    seq![99u8, 108u8, 111u8, 115u8, 101u8]
}

/// Whether the peer keeps the connection open, by the value of the `Connection` header and the
/// version of its response.
pub open spec fn stays_open(connection: Option<Seq<u8>>, version: Version) -> bool {
    match connection {
        Some(value) => !same_but_for_case(value, conn_close()),
        None => version != Version::Http10,
    }
}

/// The first value of the `Connection` header.
pub open spec fn connection_value(headers: HeaderMap) -> Option<Seq<u8>> {
    if crate::trusted::header_values(headers).contains_key("connection"@) {
        Some(crate::trusted::header_values(headers)["connection"@][0])
    } else {
        None
    }
}

fn to_ascii_lower(byte: u8) -> (lower: u8)
    ensures
        lower == ascii_lower(byte),
{
    if 65 <= byte && byte <= 90 {
        byte + 32
    } else {
        byte
    }
}

/// Whether two texts differ in nothing but the case of ASCII letters.
pub fn eq_ignore_ascii_case(a: &[u8], b: &[u8]) -> (same: bool)
    ensures
        same == same_but_for_case(a@, b@),
{
    if a.len() != b.len() {
        return false;
    }
    let mut i: usize = 0;
    while i < a.len()
        invariant
            i <= a.len(),
            a.len() == b.len(),
            forall|j: int| 0 <= j < i ==> ascii_lower(#[trigger] a@[j]) == ascii_lower(b@[j]),
        decreases a.len() - i,
    {
        if to_ascii_lower(a[i]) != to_ascii_lower(b[i]) {
            return false;
        }
        i = i + 1;
    }
    true
}

/// Whether the peer keeps the connection open, by the value of the `Connection` header and the
/// version of its response.
pub fn is_reuseable(connection: Option<&[u8]>, version: Version) -> (reuseable: bool)
    ensures
        reuseable == stays_open(
            match connection {
                Some(value) => Some(value@),
                None => None,
            },
            version,
        ),
{
    match connection {
        Some(value) => {
            let close: [u8; 5] = [99, 108, 111, 115, 101];
            assert(close@ =~= conn_close());
            !eq_ignore_ascii_case(value, close.as_slice())
        },
        None => version != Version::Http10,
    }
}

/// Whether the peer keeps the connection open after a response with these headers.
pub fn reuseable_after(headers: &HeaderMap, version: Version) -> (reuseable: bool)
    ensures
        reuseable == stays_open(connection_value(*headers), version),
{
    proof {
        reveal_strlit("connection");
    }
    match header_first(headers, "connection") {
        Some(value) => is_reuseable(Some(value.as_slice()), version),
        None => is_reuseable(None, version),
    }
}

/// The case of the letters in a `Connection` header makes no difference.
pub proof fn law_case_makes_no_difference(a: Seq<u8>, b: Seq<u8>, version: Version)
    requires
        same_but_for_case(a, b),
    ensures
        stays_open(Some(a), version) == stays_open(Some(b), version),
{
    let close = conn_close();
    if same_but_for_case(a, close) {
        assert forall|i: int| 0 <= i < b.len() implies ascii_lower(#[trigger] b[i]) == ascii_lower(
            close[i],
        ) by {
            assert(ascii_lower(a[i]) == ascii_lower(close[i]));
        }
    }
    if same_but_for_case(b, close) {
        assert forall|i: int| 0 <= i < a.len() implies ascii_lower(#[trigger] a[i]) == ascii_lower(
            close[i],
        ) by {
            assert(ascii_lower(b[i]) == ascii_lower(close[i]));
        }
    }
}

/// The version of a response matters only where it has no `Connection` header: then HTTP/1.0 closes
/// the connection, and no other version does.
pub proof fn law_version_is_the_fallback(value: Seq<u8>, version: Version, other: Version)
    ensures
        stays_open(Some(value), version) == stays_open(Some(value), other),
        stays_open(None, version) <==> version != Version::Http10,
{
}

} // verus!
