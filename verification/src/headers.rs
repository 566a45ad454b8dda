//! Stored HTTP headers: the order they are kept in, and the JSON text that
//! identifies a set of headers.
use crate::db::{headers_of_json, headers_to_json, json_of_headers, sort_headers};
use vstd::multiset::Multiset;
use vstd::prelude::*;

verus! {

broadcast use vstd::seq_lib::group_to_multiset_ensures;

/// Lexicographic order on byte strings, a proper prefix first.
pub open spec fn bytes_lex_le(a: Seq<u8>, b: Seq<u8>) -> bool
    decreases a.len(),
{
    if a.len() == 0 {
        true
    } else if b.len() == 0 {
        false
    } else if a[0] != b[0] {
        a[0] < b[0]
    } else {
        bytes_lex_le(a.drop_first(), b.drop_first())
    }
}

/// The order of `(String, String)` pairs: by name, then by value, each compared
/// by its UTF-8 bytes.
pub open spec fn header_le(x: (Seq<char>, Seq<char>), y: (Seq<char>, Seq<char>)) -> bool {
    let (kx, ky) = (vstd::utf8::encode_utf8(x.0), vstd::utf8::encode_utf8(y.0));
    if kx == ky {
        bytes_lex_le(vstd::utf8::encode_utf8(x.1), vstd::utf8::encode_utf8(y.1))
    } else {
        bytes_lex_le(kx, ky)
    }
}

/// A list of header pairs in ascending order.
pub open spec fn headers_sorted(s: Seq<(Seq<char>, Seq<char>)>) -> bool {
    forall|i: int, j: int| 0 <= i < j < s.len() ==> header_le(#[trigger] s[i], #[trigger] s[j])
}

/// The ascending list of the header pairs counted in `m`.
pub open spec fn sorted_headers_of(m: Multiset<(Seq<char>, Seq<char>)>) -> Seq<(Seq<char>, Seq<char>)> {
    choose|t: Seq<(Seq<char>, Seq<char>)>| headers_sorted(t) && t.to_multiset() == m
}

proof fn lemma_bytes_lex_antisymmetric(a: Seq<u8>, b: Seq<u8>)
    requires
        bytes_lex_le(a, b),
        bytes_lex_le(b, a),
    ensures
        a == b,
    decreases a.len(),
{
    if a.len() > 0 && b.len() > 0 {
        lemma_bytes_lex_antisymmetric(a.drop_first(), b.drop_first());
        assert(a =~= seq![a[0]] + a.drop_first());
        assert(b =~= seq![b[0]] + b.drop_first());
    }
}

proof fn lemma_header_le_antisymmetric(x: (Seq<char>, Seq<char>), y: (Seq<char>, Seq<char>))
    requires
        header_le(x, y),
        header_le(y, x),
    ensures
        x == y,
{
    broadcast use vstd::utf8::encode_utf8_decode_utf8;

    let (kx, ky) = (vstd::utf8::encode_utf8(x.0), vstd::utf8::encode_utf8(y.0));
    if kx == ky {
        lemma_bytes_lex_antisymmetric(vstd::utf8::encode_utf8(x.1), vstd::utf8::encode_utf8(y.1));
        assert(vstd::utf8::decode_utf8(kx) == x.0);
        assert(vstd::utf8::decode_utf8(ky) == y.0);
        assert(vstd::utf8::decode_utf8(vstd::utf8::encode_utf8(x.1)) == x.1);
        assert(vstd::utf8::decode_utf8(vstd::utf8::encode_utf8(y.1)) == y.1);
    } else {
        lemma_bytes_lex_antisymmetric(kx, ky);
    }
}

/// Two ascending lists of the same header pairs are the same list.
pub proof fn lemma_sorted_headers_unique(s: Seq<(Seq<char>, Seq<char>)>, t: Seq<(Seq<char>, Seq<char>)>)
    requires
        headers_sorted(s),
        headers_sorted(t),
        s.to_multiset() == t.to_multiset(),
    ensures
        s == t,
    decreases s.len(),
{
    vstd::seq_lib::to_multiset_len(s);
    vstd::seq_lib::to_multiset_len(t);
    if s.len() == 0 {
        assert(s =~= t);
    } else {
        let a = s[0];
        let b = t[0];
        vstd::seq_lib::to_multiset_contains(s, a);
        vstd::seq_lib::to_multiset_contains(t, a);
        vstd::seq_lib::to_multiset_contains(s, b);
        vstd::seq_lib::to_multiset_contains(t, b);
        assert(s.contains(a));
        assert(t.contains(b));
        assert(t.contains(a));
        assert(s.contains(b));
        let j = choose|j: int| 0 <= j < t.len() && t[j] == a;
        let i = choose|i: int| 0 <= i < s.len() && s[i] == b;
        if j > 0 {
            assert(header_le(t[0], t[j]));
        }
        if i > 0 {
            assert(header_le(s[0], s[i]));
        }
        if i == 0 || j == 0 {
            assert(a == b);
        } else {
            lemma_header_le_antisymmetric(a, b);
        }
        vstd::seq_lib::to_multiset_remove(s, 0);
        vstd::seq_lib::to_multiset_remove(t, 0);
        assert(s.remove(0) =~= s.drop_first());
        assert(t.remove(0) =~= t.drop_first());
        let s1 = s.drop_first();
        let t1 = t.drop_first();
        assert(headers_sorted(s1)) by {
            assert forall|p: int, q: int| 0 <= p < q < s1.len() implies header_le(
                #[trigger] s1[p],
                #[trigger] s1[q],
            ) by {
                assert(s1[p] == s[p + 1] && s1[q] == s[q + 1]);
            }
        }
        assert(headers_sorted(t1)) by {
            assert forall|p: int, q: int| 0 <= p < q < t1.len() implies header_le(
                #[trigger] t1[p],
                #[trigger] t1[q],
            ) by {
                assert(t1[p] == t[p + 1] && t1[q] == t[q + 1]);
            }
        }
        lemma_sorted_headers_unique(s1, t1);
        assert(s =~= seq![a] + s1);
        assert(t =~= seq![b] + t1);
    }
}

/// The JSON text that identifies a set of HTTP headers: the JSON of the pairs
/// in ascending order, so that it depends only on which pairs there are (and
/// how often), not on their order.
pub fn canonical_headers_json(headers: Vec<(String, String)>) -> (json: String)
    ensures
        json@ == json_of_headers(sorted_headers_of(headers.deep_view().to_multiset())),
        headers_of_json(json@) == Some(sorted_headers_of(headers.deep_view().to_multiset())),
{
    let mut headers = headers;
    let ghost unsorted = headers.deep_view();
    sort_headers(&mut headers);
    proof {
        let sorted = headers.deep_view();
        let m = unsorted.to_multiset();
        assert(headers_sorted(sorted)) by {
            assert forall|p: int, q: int| 0 <= p < q < sorted.len() implies header_le(
                #[trigger] sorted[p],
                #[trigger] sorted[q],
            ) by {}
        }
        let chosen = sorted_headers_of(m);
        assert(headers_sorted(chosen) && chosen.to_multiset() == m);
        lemma_sorted_headers_unique(chosen, sorted);
    }
    match headers_to_json(&headers) {
        Ok(json) => json,
        Err(_) => {
            proof {
                assert(false);
            }
            String::new()
        },
    }
}

/// The JSON text identifying a set of headers does not depend on their order:
/// two lists holding the same pairs, as often each, get the same text.
pub proof fn lemma_headers_json_order_independent(
    a: Seq<(Seq<char>, Seq<char>)>,
    b: Seq<(Seq<char>, Seq<char>)>,
)
    requires
        a.to_multiset() == b.to_multiset(),
    ensures
        json_of_headers(sorted_headers_of(a.to_multiset())) == json_of_headers(
            sorted_headers_of(b.to_multiset()),
        ),
{
}

} // verus!
