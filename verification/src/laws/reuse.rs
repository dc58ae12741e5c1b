//! Laws on which connections can be used again.
use http::HeaderMap;
use vstd::prelude::*;

use crate::client::reuse::{eq_ignore_ascii_case, is_reuseable, reuseable_after};
use crate::common::Version;

verus! {

/// Whether two bytes are the same, or the two cases of one ASCII letter.
pub open spec fn is_same_letter(a: u8, b: u8) -> bool {
    ||| a == b
    ||| 65 <= a <= 90 && b == a + 32
    ||| 65 <= b <= 90 && a == b + 32
}

/// Whether a value is `close`, in any case.
pub open spec fn is_close(value: Seq<u8>) -> bool {
    &&& value.len() == 5
    &&& value[0] == 99 || value[0] == 67
    &&& value[1] == 108 || value[1] == 76
    &&& value[2] == 111 || value[2] == 79
    &&& value[3] == 115 || value[3] == 83
    &&& value[4] == 101 || value[4] == 69
}

/// Whether headers and a version keep a connection: the first `Connection` header alone decides, and
/// where there is none, the version.
pub open spec fn is_kept(headers: Map<Seq<char>, Seq<Seq<u8>>>, version: Version) -> bool {
    if headers.contains_key("connection"@) {
        !is_close(headers["connection"@][0])
    } else {
        !(version is Http10)
    }
}

/// Two texts are told to be the same exactly where they are equally long, and each byte of one is
/// that of the other or the other case of its letter.
pub proof fn law_texts_without_case(a: &[u8], b: &[u8])
    ensures
        forall|same: bool| #[trigger]
            call_ensures(eq_ignore_ascii_case, (a, b), same) ==> (same <==> a@.len() == b@.len()
                && forall|i: int|
                0 <= i < a@.len() ==> is_same_letter(#[trigger] a@[i], b@[i])),
{
    assert forall|i: int| 0 <= i < a@.len() && a@.len() == b@.len() implies (is_same_letter(
        #[trigger] a@[i],
        b@[i],
    ) <==> crate::client::reuse::ascii_lower(a@[i]) == crate::client::reuse::ascii_lower(
        b@[i],
    )) by {}
    if crate::client::reuse::same_but_for_case(a@, b@) {
        assert forall|i: int| 0 <= i < a@.len() implies is_same_letter(#[trigger] a@[i], b@[i]) by {
            assert(crate::client::reuse::ascii_lower(a@[i]) == crate::client::reuse::ascii_lower(
                b@[i],
            ));
        }
    }
}

/// A `Connection` header of `close`, in any case, ends a connection, and no other does; without one,
/// HTTP/1.0 does, and no other version.
pub proof fn law_close_ends_a_connection(value: &[u8], version: Version)
    ensures
        forall|reuseable: bool| #[trigger]
            call_ensures(is_reuseable, (Some(value), version), reuseable) ==> (reuseable
                <==> !is_close(value@)),
        forall|reuseable: bool| #[trigger]
            call_ensures(is_reuseable, (None::<&[u8]>, version), reuseable) ==> (reuseable <==> !(
            version is Http10)),
{
    lemma_is_close(value@);
}

/// Where a response has no `Connection` header, its connection is kept exactly where its version is
/// not HTTP/1.0, whatever other headers there are. Where it has some, the first of them decides.
pub proof fn law_headers_decide(headers: HeaderMap, version: Version)
    ensures
        forall|reuseable: bool| #[trigger]
            call_ensures(reuseable_after, (&headers, version), reuseable) ==> {
                let values = crate::trusted::header_values(headers);
                &&& !values.contains_key("connection"@) ==> (reuseable <==> !(version is Http10))
                &&& values.contains_key("connection"@) ==> (reuseable <==> !is_close(
                    values["connection"@][0],
                ))
            },
{
    lemma_is_kept(headers, version);
}

/// Responses whose `Connection` headers are the same, and whose version is the same, are answered
/// alike, whatever else they hold.
pub proof fn law_other_headers_do_not_matter(a: HeaderMap, b: HeaderMap, version: Version)
    requires
        ({
            let first = crate::trusted::header_values(a);
            let second = crate::trusted::header_values(b);
            &&& first.contains_key("connection"@) <==> second.contains_key("connection"@)
            &&& first.contains_key("connection"@) ==> first["connection"@] == second["connection"@]
        }),
    ensures
        forall|kept: bool, also: bool| #[trigger]
            call_ensures(reuseable_after, (&a, version), kept) && #[trigger] call_ensures(
                reuseable_after,
                (&b, version),
                also,
            ) ==> kept == also,
{
}

proof fn lemma_is_close(value: Seq<u8>)
    ensures
        crate::client::reuse::same_but_for_case(value, crate::client::reuse::conn_close())
            <==> is_close(value),
{
    let close = crate::client::reuse::conn_close();
    if is_close(value) {
        assert forall|i: int| 0 <= i < value.len() implies crate::client::reuse::ascii_lower(
            #[trigger] value[i],
        ) == crate::client::reuse::ascii_lower(close[i]) by {
            assert(i == 0 || i == 1 || i == 2 || i == 3 || i == 4);
        }
    }
    if crate::client::reuse::same_but_for_case(value, close) {
        assert(crate::client::reuse::ascii_lower(value[0]) == 99);
        assert(crate::client::reuse::ascii_lower(value[1]) == 108);
        assert(crate::client::reuse::ascii_lower(value[2]) == 111);
        assert(crate::client::reuse::ascii_lower(value[3]) == 115);
        assert(crate::client::reuse::ascii_lower(value[4]) == 101);
    }
}

pub(crate) proof fn lemma_is_kept(headers: HeaderMap, version: Version)
    ensures
        crate::client::reuse::stays_open(
            crate::client::reuse::connection_value(headers),
            version,
        ) <==> is_kept(crate::trusted::header_values(headers), version),
{
    let values = crate::trusted::header_values(headers);
    if values.contains_key("connection"@) {
        lemma_is_close(values["connection"@][0]);
    }
}

} // verus!
