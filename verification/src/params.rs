//! Query parameters: their order and their canonical text.
//!
//! Parameters are ordered by key, keys being compared as the byte strings of
//! their UTF-8 encoding, without regard to any locale. The canonical text
//! joins the percent-encoded pairs with `&`.

use vstd::prelude::*;
use vstd::multiset::Multiset;
use vstd::seq_lib::*;
use vstd::string::StringExecFns;
use vstd::utf8::{encode_utf8, encode_utf8_decode_utf8};
use crate::encoding::{percent_encode, sdz_encode_query, SdzEncodeSet};

verus! {

/// `a` and `b` have the same first `k` bytes.
pub open spec fn agree_before(a: Seq<u8>, b: Seq<u8>, k: int) -> bool {
    &&& 0 <= k <= a.len()
    &&& k <= b.len()
    &&& forall|j: int| 0 <= j < k ==> a[j] == b[j]
}

/// Lexicographic order on byte strings: `a` is a prefix of `b`, or at the
/// first place where they differ `a` has the smaller byte.
pub open spec fn bytes_le(a: Seq<u8>, b: Seq<u8>) -> bool {
    exists|k: int| #[trigger]
        agree_before(a, b, k) && (k == a.len() || (k < a.len() && k < b.len() && a[k] < b[k]))
}

/// The order of keys: that of their UTF-8 bytes.
pub open spec fn key_le(a: Seq<char>, b: Seq<char>) -> bool {
    bytes_le(encode_utf8(a), encode_utf8(b))
}

/// Any two byte strings are ordered one way or the other.
pub proof fn lemma_bytes_le_total(a: Seq<u8>, b: Seq<u8>)
    ensures
        bytes_le(a, b) || bytes_le(b, a),
{
    lemma_bytes_le_total_from(a, b, 0);
}

proof fn lemma_bytes_le_total_from(a: Seq<u8>, b: Seq<u8>, k: int)
    requires
        agree_before(a, b, k),
    ensures
        bytes_le(a, b) || bytes_le(b, a),
    decreases a.len() - k,
{
    if k == a.len() {
        assert(agree_before(a, b, k));
    } else if k == b.len() {
        assert(agree_before(b, a, k));
    } else if a[k] < b[k] {
        assert(agree_before(a, b, k));
    } else if b[k] < a[k] {
        assert(agree_before(b, a, k));
    } else {
        lemma_bytes_le_total_from(a, b, k + 1);
    }
}

/// The order is transitive.
pub proof fn lemma_bytes_le_transitive(a: Seq<u8>, b: Seq<u8>, c: Seq<u8>)
    requires
        bytes_le(a, b),
        bytes_le(b, c),
    ensures
        bytes_le(a, c),
{
    let k1 = choose|k: int| #[trigger]
        agree_before(a, b, k) && (k == a.len() || (k < a.len() && k < b.len() && a[k] < b[k]));
    let k2 = choose|k: int| #[trigger]
        agree_before(b, c, k) && (k == b.len() || (k < b.len() && k < c.len() && b[k] < c[k]));
    if k1 <= k2 {
        assert(agree_before(a, c, k1));
    } else {
        assert(agree_before(a, c, k2));
    }
}

/// Two byte strings that are ordered both ways are equal.
pub proof fn lemma_bytes_le_antisymmetric(a: Seq<u8>, b: Seq<u8>)
    requires
        bytes_le(a, b),
        bytes_le(b, a),
    ensures
        a == b,
{
    let k1 = choose|k: int| #[trigger]
        agree_before(a, b, k) && (k == a.len() || (k < a.len() && k < b.len() && a[k] < b[k]));
    let k2 = choose|k: int| #[trigger]
        agree_before(b, a, k) && (k == b.len() || (k < b.len() && k < a.len() && b[k] < a[k]));
    assert(a =~= b);
}

/// Decides the order of two byte strings.
pub fn sdz_bytes_le(a: &[u8], b: &[u8]) -> (r: bool)
    ensures
        r == bytes_le(a@, b@),
{
    let mut i: usize = 0;
    while i < a.len() && i < b.len()
        invariant
            agree_before(a@, b@, i as int),
        decreases a.len() - i,
    {
        if a[i] != b[i] {
            let below = a[i] < b[i];
            proof {
                if !below {
                    assert(agree_before(b@, a@, i as int));
                    if bytes_le(a@, b@) {
                        lemma_bytes_le_antisymmetric(a@, b@);
                    }
                }
            }
            return below;
        }
        i += 1;
    }
    let shorter = a.len() <= b.len();
    proof {
        if !shorter {
            assert(agree_before(b@, a@, i as int));
            if bytes_le(a@, b@) {
                lemma_bytes_le_antisymmetric(a@, b@);
            }
        }
    }
    shorter
}

/// Decides the order of two keys.
pub fn sdz_key_le(a: &str, b: &str) -> (r: bool)
    ensures
        r == key_le(a@, b@),
{
    sdz_bytes_le(a.as_bytes(), b.as_bytes())
}

/// The keys and values of a parameter list, as plain texts.
pub open spec fn params_view(ps: Seq<(String, String)>) -> Seq<(Seq<char>, Seq<char>)> {
    ps.map_values(|p: (String, String)| (p.0@, p.1@))
}

/// The order of parameters: by key, and by value where the keys are the
/// same, both compared as the bytes of their UTF-8 encoding.
pub open spec fn pair_le(p: (Seq<char>, Seq<char>), q: (Seq<char>, Seq<char>)) -> bool {
    if encode_utf8(p.0) == encode_utf8(q.0) {
        bytes_le(encode_utf8(p.1), encode_utf8(q.1))
    } else {
        bytes_le(encode_utf8(p.0), encode_utf8(q.0))
    }
}

/// No entry comes after one that is above it.
pub open spec fn sorted_params(ps: Seq<(Seq<char>, Seq<char>)>) -> bool {
    forall|i: int, j: int| 0 <= i < j < ps.len() ==> pair_le(#[trigger] ps[i], #[trigger] ps[j])
}

/// The keys never step down from one entry to a later one.
pub open spec fn sorted_by_key(ps: Seq<(Seq<char>, Seq<char>)>) -> bool {
    forall|i: int, j: int| 0 <= i < j < ps.len() ==> key_le(#[trigger] ps[i].0, #[trigger] ps[j].0)
}

/// Every byte string is ordered with itself.
pub proof fn lemma_bytes_le_reflexive(a: Seq<u8>)
    ensures
        bytes_le(a, a),
{
    assert(agree_before(a, a, a.len() as int));
}

/// Any two parameters are ordered one way or the other.
pub proof fn lemma_pair_le_total(p: (Seq<char>, Seq<char>), q: (Seq<char>, Seq<char>))
    ensures
        pair_le(p, q) || pair_le(q, p),
{
    lemma_bytes_le_total(encode_utf8(p.0), encode_utf8(q.0));
    lemma_bytes_le_total(encode_utf8(p.1), encode_utf8(q.1));
}

/// The order of parameters is transitive.
pub proof fn lemma_pair_le_transitive(
    p: (Seq<char>, Seq<char>),
    q: (Seq<char>, Seq<char>),
    r: (Seq<char>, Seq<char>),
)
    requires
        pair_le(p, q),
        pair_le(q, r),
    ensures
        pair_le(p, r),
{
    let kp = encode_utf8(p.0);
    let kq = encode_utf8(q.0);
    let kr = encode_utf8(r.0);
    if kp == kq && kq == kr {
        lemma_bytes_le_transitive(encode_utf8(p.1), encode_utf8(q.1), encode_utf8(r.1));
    } else if kp != kq && kq != kr {
        lemma_bytes_le_transitive(kp, kq, kr);
        if kp == kr {
            lemma_bytes_le_antisymmetric(kp, kq);
        }
    }
}

/// Parameters that are in order are in the order of their keys.
pub proof fn lemma_sorted_params_are_sorted_by_key(ps: Seq<(Seq<char>, Seq<char>)>)
    requires
        sorted_params(ps),
    ensures
        sorted_by_key(ps),
{
    assert forall|i: int, j: int| 0 <= i < j < ps.len() implies key_le(
        #[trigger] ps[i].0,
        #[trigger] ps[j].0,
    ) by {
        assert(pair_le(ps[i], ps[j]));
        lemma_bytes_le_reflexive(encode_utf8(ps[i].0));
    }
}

/// Decides the order of two parameters.
pub fn sdz_pair_le(p: &(String, String), q: &(String, String)) -> (r: bool)
    ensures
        r == pair_le((p.0@, p.1@), (q.0@, q.1@)),
{
    let forward = sdz_bytes_le(p.0.as_str().as_bytes(), q.0.as_str().as_bytes());
    let backward = sdz_bytes_le(q.0.as_str().as_bytes(), p.0.as_str().as_bytes());
    if forward && backward {
        proof {
            lemma_bytes_le_antisymmetric(encode_utf8(p.0@), encode_utf8(q.0@));
        }
        sdz_bytes_le(p.1.as_str().as_bytes(), q.1.as_str().as_bytes())
    } else {
        proof {
            if encode_utf8(p.0@) == encode_utf8(q.0@) {
                lemma_bytes_le_reflexive(encode_utf8(p.0@));
            }
        }
        forward
    }
}

/// Sorts parameters by key, and by value where keys are the same.
///
/// The result holds the same entries, in order. A list that is in order
/// already comes back as it is.
pub fn sdz_sort_params(params: Vec<(String, String)>) -> (r: Vec<(String, String)>)
    ensures
        sorted_params(params_view(r@)),
        r@.to_multiset() == params@.to_multiset(),
        params_view(r@).to_multiset() == params_view(params@).to_multiset(),
        sorted_params(params_view(params@)) ==> r@ == params@,
{
    broadcast use vstd::multiset::group_multiset_axioms;

    let ghost given = params@;
    let mut rest = params;
    let mut out: Vec<(String, String)> = Vec::new();
    proof {
        lemma_empty_has_no_entries(out@);
        assert(rest@.to_multiset().add(out@.to_multiset()) =~= given.to_multiset());
        assert(rest@.subrange(0, rest@.len() as int) =~= rest@);
        to_multiset_len(params_view(out@));
        assert(params_view(out@).to_multiset() =~= Multiset::<(Seq<char>, Seq<char>)>::empty());
        assert(params_view(rest@).to_multiset().add(params_view(out@).to_multiset())
            =~= params_view(given).to_multiset());
    }
    while rest.len() > 0
        invariant
            sorted_params(params_view(out@)),
            rest@.to_multiset().add(out@.to_multiset()) == given.to_multiset(),
            params_view(rest@).to_multiset().add(params_view(out@).to_multiset()) == params_view(
                given,
            ).to_multiset(),
            rest@.len() + out@.len() == given.len(),
            rest@ == given.subrange(0, rest@.len() as int),
            sorted_params(params_view(given)) ==> out@ == given.subrange(
                rest@.len() as int,
                given.len() as int,
            ),
        decreases rest.len(),
    {
        let ghost rest_before = rest@;
        let ghost out_before = out@;
        let item = rest.pop().unwrap();
        proof {
            assert(rest_before =~= rest@.push(item));
            to_multiset_build(rest@, item);
        }
        let mut at: usize = 0;
        while at < out.len() && !sdz_pair_le(&item, &out[at])
            invariant
                at <= out.len(),
                forall|i: int|
                    0 <= i < at ==> !pair_le(
                        (item.0@, item.1@),
                        ((#[trigger] out@[i]).0@, out@[i].1@),
                    ),
            decreases out.len() - at,
        {
            at += 1;
        }
        out.insert(at, item);
        proof {
            to_multiset_insert(out_before, at as int, item);
            assert(rest_before.to_multiset() =~= rest@.to_multiset().insert(item));
            assert(rest@.to_multiset().add(out@.to_multiset()) =~= given.to_multiset());
            let x = (item.0@, item.1@);
            assert(params_view(rest_before) =~= params_view(rest@).push(x));
            assert(params_view(out@) =~= params_view(out_before).insert(at as int, x));
            to_multiset_build(params_view(rest@), x);
            to_multiset_insert(params_view(out_before), at as int, x);
            assert(params_view(rest@).to_multiset().add(params_view(out@).to_multiset())
                =~= params_view(given).to_multiset());
            lemma_insert_keeps_order(out_before, at as int, item);
            assert(rest@ =~= given.subrange(0, rest@.len() as int));
            if sorted_params(params_view(given)) {
                let n = rest@.len() as int;
                assert(item == given[n]);
                if out_before.len() > 0 {
                    assert(out_before[0] == given[n + 1]);
                    assert(params_view(given)[n] == (item.0@, item.1@));
                    assert(params_view(given)[n + 1] == (out_before[0].0@, out_before[0].1@));
                    assert(pair_le((item.0@, item.1@), (out_before[0].0@, out_before[0].1@)));
                    assert(at == 0);
                }
                assert(out@ =~= given.subrange(n, given.len() as int));
            }
        }
    }
    proof {
        lemma_empty_has_no_entries(rest@);
        assert(rest@.to_multiset().add(out@.to_multiset()) =~= out@.to_multiset());
        to_multiset_len(params_view(rest@));
        assert(params_view(rest@).to_multiset() =~= Multiset::<(Seq<char>, Seq<char>)>::empty());
        assert(params_view(rest@).to_multiset().add(params_view(out@).to_multiset())
            =~= params_view(out@).to_multiset());
        if sorted_params(params_view(given)) {
            assert(out@ =~= given);
        }
    }
    out
}

/// Two parameters that are ordered both ways are the same.
pub proof fn lemma_pair_le_antisymmetric(p: (Seq<char>, Seq<char>), q: (Seq<char>, Seq<char>))
    requires
        pair_le(p, q),
        pair_le(q, p),
    ensures
        p == q,
{
    let kp = encode_utf8(p.0);
    let kq = encode_utf8(q.0);
    if kp != kq {
        lemma_bytes_le_antisymmetric(kp, kq);
    }
    lemma_bytes_le_antisymmetric(encode_utf8(p.1), encode_utf8(q.1));
    encode_utf8_decode_utf8(p.0);
    encode_utf8_decode_utf8(q.0);
    encode_utf8_decode_utf8(p.1);
    encode_utf8_decode_utf8(q.1);
}

/// There is one way only to put parameters in order: two lists that are in
/// order and hold the same entries are the same list.
pub proof fn lemma_sorted_params_are_unique(
    a: Seq<(Seq<char>, Seq<char>)>,
    b: Seq<(Seq<char>, Seq<char>)>,
)
    requires
        sorted_params(a),
        sorted_params(b),
        a.to_multiset() == b.to_multiset(),
    ensures
        a == b,
    decreases a.len(),
{
    broadcast use vstd::multiset::group_multiset_axioms;

    to_multiset_len(a);
    to_multiset_len(b);
    if a.len() == 0 {
        assert(a =~= b);
    } else {
        to_multiset_contains(a, a[0]);
        to_multiset_contains(b, a[0]);
        to_multiset_contains(a, b[0]);
        to_multiset_contains(b, b[0]);
        assert(a.contains(a[0]));
        assert(b.contains(b[0]));
        let j = choose|j: int| 0 <= j < b.len() && b[j] == a[0];
        let i = choose|i: int| 0 <= i < a.len() && a[i] == b[0];
        lemma_bytes_le_reflexive(encode_utf8(a[0].0));
        lemma_bytes_le_reflexive(encode_utf8(a[0].1));
        lemma_bytes_le_reflexive(encode_utf8(b[0].0));
        lemma_bytes_le_reflexive(encode_utf8(b[0].1));
        assert(pair_le(b[0], a[0])) by {
            if j > 0 {
                assert(pair_le(b[0], b[j]));
            }
        }
        assert(pair_le(a[0], b[0])) by {
            if i > 0 {
                assert(pair_le(a[0], a[i]));
            }
        }
        lemma_pair_le_antisymmetric(a[0], b[0]);
        let ra = a.drop_first();
        let rb = b.drop_first();
        assert(ra =~= a.remove(0));
        assert(rb =~= b.remove(0));
        to_multiset_remove(a, 0);
        to_multiset_remove(b, 0);
        assert forall|x: int, y: int| 0 <= x < y < ra.len() implies pair_le(
            #[trigger] ra[x],
            #[trigger] ra[y],
        ) by {
            assert(ra[x] == a[x + 1] && ra[y] == a[y + 1]);
        }
        assert forall|x: int, y: int| 0 <= x < y < rb.len() implies pair_le(
            #[trigger] rb[x],
            #[trigger] rb[y],
        ) by {
            assert(rb[x] == b[x + 1] && rb[y] == b[y + 1]);
        }
        lemma_sorted_params_are_unique(ra, rb);
        assert(a =~= seq![a[0]] + ra);
        assert(b =~= seq![b[0]] + rb);
    }
}

/// An empty list has the empty multiset of entries.
proof fn lemma_empty_has_no_entries(ps: Seq<(String, String)>)
    requires
        ps.len() == 0,
    ensures
        ps.to_multiset() == Multiset::<(String, String)>::empty(),
{
    broadcast use vstd::multiset::group_multiset_axioms;

    to_multiset_len(ps);
    assert(ps.to_multiset() =~= Multiset::<(String, String)>::empty());
}

/// Putting an entry before the first one that is not below it keeps a sorted
/// list sorted.
proof fn lemma_insert_keeps_order(ps: Seq<(String, String)>, at: int, item: (String, String))
    requires
        sorted_params(params_view(ps)),
        0 <= at <= ps.len(),
        forall|i: int|
            0 <= i < at ==> !pair_le((item.0@, item.1@), ((#[trigger] ps[i]).0@, ps[i].1@)),
        at < ps.len() ==> pair_le((item.0@, item.1@), (ps[at].0@, ps[at].1@)),
    ensures
        sorted_params(params_view(ps.insert(at, item))),
{
    let before = params_view(ps);
    let after = params_view(ps.insert(at, item));
    let x = (item.0@, item.1@);
    assert forall|i: int, j: int| 0 <= i < j < after.len() implies pair_le(
        #[trigger] after[i],
        #[trigger] after[j],
    ) by {
        if j < at {
            assert(after[i] == before[i] && after[j] == before[j]);
        } else if j == at {
            assert(after[j] == x);
            assert(after[i] == (ps[i].0@, ps[i].1@));
            lemma_pair_le_total(x, after[i]);
        } else if i < at {
            assert(after[i] == before[i] && after[j] == before[j - 1]);
            if j - 1 == i {
                lemma_bytes_le_reflexive(encode_utf8(after[i].0));
                lemma_bytes_le_reflexive(encode_utf8(after[i].1));
            }
        } else if i == at {
            assert(after[i] == x);
            assert(after[j] == before[j - 1]);
            assert(before[at] == (ps[at].0@, ps[at].1@));
            if j - 1 > at {
                assert(pair_le(before[at], before[j - 1]));
                lemma_pair_le_transitive(x, before[at], after[j]);
            }
        } else {
            assert(after[i] == before[i - 1] && after[j] == before[j - 1]);
        }
    }
}

/// One pair of the canonical text: encoded key, `=`, encoded value.
pub open spec fn pair_text(p: (Seq<char>, Seq<char>)) -> Seq<char> {
    percent_encode(p.0, SdzEncodeSet::Query) + seq!['='] + percent_encode(
        p.1,
        SdzEncodeSet::Query,
    )
}

/// The canonical text of a parameter list: its pairs, joined by `&`.
pub open spec fn query_text(ps: Seq<(Seq<char>, Seq<char>)>) -> Seq<char>
    decreases ps.len(),
{
    if ps.len() == 0 {
        Seq::empty()
    } else if ps.len() == 1 {
        pair_text(ps[0])
    } else {
        query_text(ps.drop_last()) + seq!['&'] + pair_text(ps.last())
    }
}

/// Builds the canonical text of a parameter list, in the order given.
pub fn sdz_build_query(params: &[(String, String)]) -> (r: String)
    ensures
        r@ == query_text(params_view(params@)),
{
    let mut out = String::new();
    let mut i: usize = 0;
    while i < params.len()
        invariant
            i <= params.len(),
            out@ == query_text(params_view(params@).take(i as int)),
        decreases params.len() - i,
    {
        let ghost done = params_view(params@).take(i as int);
        let ghost next = params_view(params@).take(i + 1);
        if i > 0 {
            out.push('&');
        }
        let key = sdz_encode_query(params[i].0.as_str());
        let value = sdz_encode_query(params[i].1.as_str());
        out.append(key.as_str());
        out.push('=');
        out.append(value.as_str());
        proof {
            assert(next.drop_last() =~= done);
            assert(next.last() == (params@[i as int].0@, params@[i as int].1@));
            if i == 0 {
                assert(done =~= Seq::empty());
                assert(out@ =~= pair_text(next[0]));
            } else {
                assert(out@ =~= query_text(done) + seq!['&'] + pair_text(next.last()));
            }
        }
        i += 1;
    }
    assert(params_view(params@).take(params@.len() as int) =~= params_view(params@));
    out
}

} // verus!
