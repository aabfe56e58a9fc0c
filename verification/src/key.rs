//! Cache keys: an endpoint and its ordered parameters, joined by colons.

use vstd::prelude::*;
use vstd::string::*;

verus! {

/// The texts of a slice of string slices, in order.
pub open spec fn texts(parts: Seq<&str>) -> Seq<Seq<char>> {
    parts.map_values(|s: &str| s@)
}

/// The parts in order with `sep` between each two neighbours; empty for no parts.
pub open spec fn joined(parts: Seq<Seq<char>>, sep: Seq<char>) -> Seq<char>
    decreases parts.len(),
{
    if parts.len() == 0 {
        Seq::empty()
    } else if parts.len() == 1 {
        parts[0]
    } else {
        parts[0] + sep + joined(parts.drop_first(), sep)
    }
}

/// The key of a request: the endpoint, a colon, and the parameters joined by colons.
pub open spec fn cache_key(endpoint: Seq<char>, params: Seq<Seq<char>>) -> Seq<char> {
    endpoint + seq![':'] + joined(params, seq![':'])
}

/// No colon occurs in `s`.
pub open spec fn colon_free(s: Seq<char>) -> bool {
    forall|i: int| 0 <= i < s.len() ==> s[i] != ':'
}

/// No colon occurs in any of `parts`.
pub open spec fn all_colon_free(parts: Seq<Seq<char>>) -> bool {
    forall|i: int| 0 <= i < parts.len() ==> colon_free(#[trigger] parts[i])
}

/// Joining one more part appends the separator and the part.
pub proof fn lemma_joined_push(parts: Seq<Seq<char>>, sep: Seq<char>, last: Seq<char>)
    requires
        parts.len() > 0,
    ensures
        joined(parts.push(last), sep) == joined(parts, sep) + sep + last,
    decreases parts.len(),
{
    let all = parts.push(last);
    assert(all[0] == parts[0]);
    if parts.len() == 1 {
        assert(all.drop_first() =~= seq![last]);
        assert(joined(all.drop_first(), sep) == last);
    } else {
        let rest = parts.drop_first();
        assert(all.drop_first() =~= rest.push(last));
        lemma_joined_push(rest, sep, last);
        assert(joined(all, sep) =~= parts[0] + sep + (joined(rest, sep) + sep + last));
        assert(joined(all, sep) =~= joined(parts, sep) + sep + last);
    }
}

/// A text cut at its first colon has one head and one tail: where the heads
/// hold no colon, equal texts have equal heads and equal tails.
pub proof fn lemma_first_colon_splits(
    head1: Seq<char>,
    tail1: Seq<char>,
    head2: Seq<char>,
    tail2: Seq<char>,
)
    requires
        colon_free(head1),
        colon_free(head2),
        head1 + seq![':'] + tail1 == head2 + seq![':'] + tail2,
    ensures
        head1 == head2,
        tail1 == tail2,
{
    let a = head1 + seq![':'] + tail1;
    let b = head2 + seq![':'] + tail2;
    if head1.len() < head2.len() {
        assert(a[head1.len() as int] == ':');
        assert(b[head1.len() as int] == head2[head1.len() as int]);
        assert(false);
    }
    if head2.len() < head1.len() {
        assert(b[head2.len() as int] == ':');
        assert(a[head2.len() as int] == head1[head2.len() as int]);
        assert(false);
    }
    assert forall|i: int| 0 <= i < head1.len() implies head1[i] == head2[i] by {
        assert(a[i] == head1[i]);
        assert(b[i] == head2[i]);
    }
    assert(head1 =~= head2);
    assert(a.len() == head1.len() + 1 + tail1.len());
    assert(b.len() == head2.len() + 1 + tail2.len());
    assert(tail1.len() == tail2.len());
    assert forall|i: int| 0 <= i < tail1.len() implies tail1[i] == tail2[i] by {
        assert(a[head1.len() + 1 + i] == tail1[i]);
        assert(b[head2.len() + 1 + i] == tail2[i]);
    }
    assert(tail1 =~= tail2);
}

/// Parts without colons, joined by colons, can be read back: two lists of the
/// same length with the same joined text are the same list.
pub proof fn lemma_joined_injective(left: Seq<Seq<char>>, right: Seq<Seq<char>>)
    requires
        all_colon_free(left),
        all_colon_free(right),
        left.len() == right.len(),
        joined(left, seq![':']) == joined(right, seq![':']),
    ensures
        left == right,
    decreases left.len(),
{
    if left.len() == 0 {
        assert(left =~= right);
    } else if left.len() == 1 {
        assert(left =~= right);
    } else {
        let left_rest = left.drop_first();
        let right_rest = right.drop_first();
        assert(colon_free(left[0]));
        assert(colon_free(right[0]));
        lemma_first_colon_splits(
            left[0],
            joined(left_rest, seq![':']),
            right[0],
            joined(right_rest, seq![':']),
        );
        assert forall|i: int| 0 <= i < left_rest.len() implies colon_free(#[trigger] left_rest[i]) by {
            assert(left_rest[i] == left[i + 1]);
        }
        assert forall|i: int| 0 <= i < right_rest.len() implies colon_free(#[trigger] right_rest[i]) by {
            assert(right_rest[i] == right[i + 1]);
        }
        lemma_joined_injective(left_rest, right_rest);
        assert forall|i: int| 0 <= i < left.len() implies left[i] == right[i] by {
            if i > 0 {
                assert(left[i] == left_rest[i - 1]);
                assert(right[i] == right_rest[i - 1]);
            }
        }
        assert(left =~= right);
    }
}

/// Keys tell requests apart. Where neither the endpoints nor the parameters
/// hold a colon and both requests have the same number of parameters, equal
/// keys mean the same endpoint and the same parameters in the same order.
pub proof fn lemma_cache_key_injective(
    endpoint1: Seq<char>,
    params1: Seq<Seq<char>>,
    endpoint2: Seq<char>,
    params2: Seq<Seq<char>>,
)
    requires
        colon_free(endpoint1),
        colon_free(endpoint2),
        all_colon_free(params1),
        all_colon_free(params2),
        params1.len() == params2.len(),
        cache_key(endpoint1, params1) == cache_key(endpoint2, params2),
    ensures
        endpoint1 == endpoint2,
        params1 == params2,
{
    lemma_first_colon_splits(
        endpoint1,
        joined(params1, seq![':']),
        endpoint2,
        joined(params2, seq![':']),
    );
    lemma_joined_injective(params1, params2);
}

/// Keys depend on the endpoint: two colon-free endpoints that differ give
/// different keys, whatever the parameters.
pub proof fn lemma_cache_key_endpoint_sensitive(
    endpoint1: Seq<char>,
    params1: Seq<Seq<char>>,
    endpoint2: Seq<char>,
    params2: Seq<Seq<char>>,
)
    requires
        colon_free(endpoint1),
        colon_free(endpoint2),
        endpoint1 != endpoint2,
    ensures
        cache_key(endpoint1, params1) != cache_key(endpoint2, params2),
{
    if cache_key(endpoint1, params1) == cache_key(endpoint2, params2) {
        lemma_first_colon_splits(
            endpoint1,
            joined(params1, seq![':']),
            endpoint2,
            joined(params2, seq![':']),
        );
    }
}

/// Keys depend on the order of the parameters: swapping two colon-free
/// parameters that differ changes the key.
pub proof fn lemma_cache_key_order_sensitive(endpoint: Seq<char>, a: Seq<char>, b: Seq<char>)
    requires
        colon_free(endpoint),
        colon_free(a),
        colon_free(b),
        a != b,
    ensures
        cache_key(endpoint, seq![a, b]) != cache_key(endpoint, seq![b, a]),
{
    if cache_key(endpoint, seq![a, b]) == cache_key(endpoint, seq![b, a]) {
        lemma_cache_key_injective(endpoint, seq![a, b], endpoint, seq![b, a]);
        assert(seq![a, b][0] == seq![b, a][0]);
    }
}

/// Joins `parts` with `sep` between each two neighbours.
pub fn join(parts: &[&str], sep: &str) -> (out: String)
    ensures
        out@ == joined(texts(parts@), sep@),
{
    let mut out = String::new();
    let mut i: usize = 0;
    while i < parts.len()
        invariant
            i <= parts.len(),
            out@ == joined(texts(parts@).take(i as int), sep@),
        decreases parts.len() - i,
    {
        proof {
            let before = texts(parts@).take(i as int);
            assert(texts(parts@).take(i + 1) =~= before.push(parts@[i as int]@));
            if i > 0 {
                lemma_joined_push(before, sep@, parts@[i as int]@);
            } else {
                assert(before.push(parts@[i as int]@)[0] == parts@[i as int]@);
            }
        }
        if i > 0 {
            out.append(sep);
        }
        out.append(parts[i]);
        i += 1;
    }
    proof {
        assert(texts(parts@).take(parts@.len() as int) =~= texts(parts@));
    }
    out
}

/// The key under which the answer to a request is cached.
pub fn create_cache_key(endpoint: &str, params: &[&str]) -> (key: String)
    ensures
        key@ == cache_key(endpoint@, texts(params@)),
{
    proof {
        reveal_strlit(":");
        assert(":"@ =~= seq![':']);
    }
    let mut key = String::from_str(endpoint);
    key.append(":");
    let tail = join(params, ":");
    key.append(tail.as_str());
    key
}

} // verus!
