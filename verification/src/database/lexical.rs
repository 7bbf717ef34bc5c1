//! The order in which names are listed.
//!
//! Texts are ordered as the store orders them: by their UTF-8 bytes, byte by
//! byte, a proper prefix before what it is a prefix of.

use vstd::prelude::*;
use vstd::utf8::encode_utf8;

verus! {

/// Whether `a` and `b` hold the same byte at every position below `k`.
pub open spec fn agree_before(a: Seq<u8>, b: Seq<u8>, k: int) -> bool {
    forall|j: int| 0 <= j < k ==> a[j] == b[j]
}

/// Whether `a` comes strictly before `b`: `a` is a proper prefix of `b`, or
/// at the first position where they differ `a` holds the smaller byte.
pub open spec fn bytes_before(a: Seq<u8>, b: Seq<u8>) -> bool {
    ||| a.len() < b.len() && agree_before(a, b, a.len() as int)
    ||| exists|k: int|
        0 <= k < a.len() && k < b.len() && agree_before(a, b, k) && #[trigger] a[k] < b[k]
}

/// Whether `a` comes before `b` or is `b`.
pub open spec fn bytes_le(a: Seq<u8>, b: Seq<u8>) -> bool {
    a == b || bytes_before(a, b)
}

/// Whether the text `a` comes before the text `b` or is `b`.
pub open spec fn text_le(a: Seq<char>, b: Seq<char>) -> bool {
    bytes_le(encode_utf8(a), encode_utf8(b))
}

/// Whether `texts` is in ascending order: each text comes before the next
/// one or equals it.
pub open spec fn ascending(texts: Seq<Seq<char>>) -> bool {
    forall|i: int| 0 <= i < texts.len() - 1 ==> text_le(#[trigger] texts[i], texts[i + 1])
}

/// The texts of `texts`, each as its characters.
pub open spec fn text_views(texts: Seq<String>) -> Seq<Seq<char>> {
    texts.map_values(|text: String| text@)
}

/// Of two byte strings at most one comes strictly before the other, and
/// then they differ.
pub proof fn lemma_before_is_one_way(a: Seq<u8>, b: Seq<u8>)
    requires
        bytes_before(a, b),
    ensures
        !bytes_before(b, a),
        a != b,
{
    if bytes_before(b, a) {
        if a.len() < b.len() && agree_before(a, b, a.len() as int) {
            if !(b.len() < a.len() && agree_before(b, a, b.len() as int)) {
                let k = choose|k: int|
                    0 <= k < b.len() && k < a.len() && agree_before(b, a, k) && #[trigger] b[k]
                        < a[k];
                assert(a[k] == b[k]);
            }
        } else {
            let k = choose|k: int|
                0 <= k < a.len() && k < b.len() && agree_before(a, b, k) && #[trigger] a[k]
                    < b[k];
            if b.len() < a.len() && agree_before(b, a, b.len() as int) {
                assert(b[k] == a[k]);
            } else {
                let m = choose|m: int|
                    0 <= m < b.len() && m < a.len() && agree_before(b, a, m) && #[trigger] b[m]
                        < a[m];
                if k < m {
                    assert(b[k] == a[k]);
                } else if m < k {
                    assert(a[m] == b[m]);
                }
            }
        }
    }
}

/// What comes before something that comes before a third comes before the
/// third.
pub proof fn lemma_before_is_transitive(a: Seq<u8>, b: Seq<u8>, c: Seq<u8>)
    requires
        bytes_before(a, b),
        bytes_before(b, c),
    ensures
        bytes_before(a, c),
{
    let a_prefix = a.len() < b.len() && agree_before(a, b, a.len() as int);
    let b_prefix = b.len() < c.len() && agree_before(b, c, b.len() as int);
    if a_prefix && b_prefix {
        assert(agree_before(a, c, a.len() as int));
    } else if a_prefix {
        let m = choose|m: int|
            0 <= m < b.len() && m < c.len() && agree_before(b, c, m) && #[trigger] b[m] < c[m];
        if m < a.len() {
            assert(agree_before(a, c, m));
            assert(a[m] < c[m]);
        } else {
            assert(agree_before(a, c, a.len() as int));
        }
    } else if b_prefix {
        let k = choose|k: int|
            0 <= k < a.len() && k < b.len() && agree_before(a, b, k) && #[trigger] a[k] < b[k];
        assert(agree_before(a, c, k));
        assert(a[k] < c[k]);
    } else {
        let k = choose|k: int|
            0 <= k < a.len() && k < b.len() && agree_before(a, b, k) && #[trigger] a[k] < b[k];
        let m = choose|m: int|
            0 <= m < b.len() && m < c.len() && agree_before(b, c, m) && #[trigger] b[m] < c[m];
        if k <= m {
            assert(agree_before(a, c, k));
            assert(a[k] < c[k]);
        } else {
            assert(agree_before(a, c, m));
            assert(a[m] < c[m]);
        }
    }
}

/// In an ascending list every text comes before every later one or equals
/// it, not only the next.
pub proof fn lemma_ascending_orders_all_pairs(texts: Seq<Seq<char>>, i: int, j: int)
    requires
        ascending(texts),
        0 <= i <= j < texts.len(),
    ensures
        text_le(texts[i], texts[j]),
    decreases j - i,
{
    if i < j {
        lemma_ascending_orders_all_pairs(texts, i, j - 1);
        let a = encode_utf8(texts[i]);
        let b = encode_utf8(texts[j - 1]);
        let c = encode_utf8(texts[j]);
        assert(text_le(texts[j - 1], texts[j - 1 + 1]));
        if a != b && b != c {
            lemma_before_is_transitive(a, b, c);
        }
    }
}

/// Two texts of which each comes before the other or equals it are the
/// same text.
pub proof fn lemma_order_tells_texts_apart(a: Seq<char>, b: Seq<char>)
    requires
        text_le(a, b),
        text_le(b, a),
    ensures
        a == b,
{
    let x = encode_utf8(a);
    let y = encode_utf8(b);
    if x != y {
        lemma_before_is_one_way(x, y);
    }
    vstd::utf8::encode_utf8_decode_utf8(a);
    vstd::utf8::encode_utf8_decode_utf8(b);
}

/// There is one ascending list of given texts: two ascending lists that
/// hold the same texts, each as often as the other, are the same list.
pub proof fn lemma_ascending_list_is_one(first: Seq<Seq<char>>, second: Seq<Seq<char>>)
    requires
        ascending(first),
        ascending(second),
        first.to_multiset() == second.to_multiset(),
    ensures
        first == second,
    decreases first.len(),
{
    vstd::seq_lib::to_multiset_len(first);
    vstd::seq_lib::to_multiset_len(second);
    if first.len() == 0 {
        assert(first =~= second);
    } else {
        assert(second.contains(second[0]));
        vstd::seq_lib::to_multiset_contains(second, second[0]);
        vstd::seq_lib::to_multiset_contains(first, second[0]);
        let j = choose|j: int| 0 <= j < first.len() && first[j] == second[0];
        lemma_ascending_orders_all_pairs(first, 0, j);
        assert(first.contains(first[0]));
        vstd::seq_lib::to_multiset_contains(first, first[0]);
        vstd::seq_lib::to_multiset_contains(second, first[0]);
        let i = choose|i: int| 0 <= i < second.len() && second[i] == first[0];
        lemma_ascending_orders_all_pairs(second, 0, i);
        lemma_order_tells_texts_apart(first[0], second[0]);

        let first_rest = first.drop_first();
        let second_rest = second.drop_first();
        vstd::seq_lib::to_multiset_remove(first, 0);
        vstd::seq_lib::to_multiset_remove(second, 0);
        assert(first.remove(0) =~= first_rest);
        assert(second.remove(0) =~= second_rest);
        assert forall|k: int| 0 <= k < first_rest.len() - 1 implies text_le(
            #[trigger] first_rest[k],
            first_rest[k + 1],
        ) by {
            assert(first_rest[k] == first[k + 1]);
            assert(text_le(first[k + 1], first[k + 1 + 1]));
        }
        assert forall|k: int| 0 <= k < second_rest.len() - 1 implies text_le(
            #[trigger] second_rest[k],
            second_rest[k + 1],
        ) by {
            assert(second_rest[k] == second[k + 1]);
            assert(text_le(second[k + 1], second[k + 1 + 1]));
        }
        lemma_ascending_list_is_one(first_rest, second_rest);
        assert forall|k: int| 0 <= k < first.len() implies first[k] == second[k] by {
            if k > 0 {
                assert(first[k] == first_rest[k - 1]);
                assert(second[k] == second_rest[k - 1]);
            }
        }
        assert(first =~= second);
    }
}

/// Whether the bytes `a` come before the bytes `b` or are `b`.
pub fn bytes_in_order(a: &[u8], b: &[u8]) -> (r: bool)
    ensures
        r == bytes_le(a@, b@),
        !r ==> bytes_before(b@, a@),
{
    let mut i: usize = 0;
    while i < a.len() && i < b.len()
        invariant
            i <= a.len(),
            i <= b.len(),
            agree_before(a@, b@, i as int),
        decreases a.len() - i,
    {
        if a[i] < b[i] {
            assert(bytes_before(a@, b@));
            return true;
        }
        if a[i] > b[i] {
            assert(agree_before(b@, a@, i as int));
            assert(bytes_before(b@, a@));
            proof {
                lemma_before_is_one_way(b@, a@);
            }
            return false;
        }
        i += 1;
    }
    if a.len() <= b.len() {
        if a.len() == b.len() {
            assert(a@ =~= b@);
        }
        true
    } else {
        assert(agree_before(b@, a@, b.len() as int));
        proof {
            lemma_before_is_one_way(b@, a@);
        }
        false
    }
}

/// Whether the text `a` comes before the text `b` or is `b`.
pub fn texts_in_order(a: &str, b: &str) -> (r: bool)
    ensures
        r == text_le(a@, b@),
        !r ==> text_le(b@, a@),
{
    bytes_in_order(a.as_bytes(), b.as_bytes())
}

/// Puts `texts` in ascending order. Nothing is added and nothing is lost:
/// the result holds what `texts` held, each text as often as before. Texts
/// that are in order already are left where they are.
pub fn sort_texts(texts: Vec<String>) -> (r: Vec<String>)
    ensures
        ascending(text_views(r@)),
        text_views(r@).to_multiset() == text_views(texts@).to_multiset(),
{
    let mut sorted = texts;
    let mut i: usize = 1;
    while i < sorted.len()
        invariant
            1 <= i,
            ascending(
                text_views(sorted@).subrange(
                    0,
                    vstd::math::min(i as int, sorted@.len() as int),
                ),
            ),
            text_views(sorted@).to_multiset() == text_views(texts@).to_multiset(),
        decreases sorted.len() - i,
    {
        let ghost before = sorted@;
        let mut j: usize = i;
        while j > 0 && !texts_in_order(sorted[j - 1].as_str(), sorted[i].as_str())
            invariant
                j <= i,
                i < sorted.len(),
                sorted@ == before,
                forall|m: int|
                    j <= m < i ==> text_le(before[i as int]@, (#[trigger] before[m])@),
            decreases j,
        {
            j -= 1;
        }
        if j < i {
            let text = sorted.remove(i);
            sorted.insert(j, text);
            proof {
                let old_views = text_views(before);
                let new_views = text_views(sorted@);
                assert(new_views =~= old_views.remove(i as int).insert(
                    j as int,
                    old_views[i as int],
                ));
                vstd::seq_lib::to_multiset_remove(old_views, i as int);
                vstd::seq_lib::to_multiset_insert(
                    old_views.remove(i as int),
                    j as int,
                    old_views[i as int],
                );
                assert(old_views.contains(old_views[i as int]));
                vstd::seq_lib::to_multiset_contains(old_views, old_views[i as int]);
                assert(new_views.to_multiset() =~= old_views.to_multiset()) by {
                    broadcast use vstd::multiset::group_multiset_axioms;

                }
                let old_prefix = old_views.subrange(0, i as int);
                let new_prefix = new_views.subrange(0, i as int + 1);
                assert forall|k: int| 0 <= k < new_prefix.len() - 1 implies text_le(
                    #[trigger] new_prefix[k],
                    new_prefix[k + 1],
                ) by {
                    if k + 1 < j {
                        assert(new_prefix[k] == old_prefix[k]);
                        assert(new_prefix[k + 1] == old_prefix[k + 1]);
                    } else if k + 1 == j {
                        assert(new_prefix[k] == before[j - 1]@);
                        assert(new_prefix[k + 1] == before[i as int]@);
                    } else if k == j {
                        assert(new_prefix[k] == before[i as int]@);
                        assert(new_prefix[k + 1] == before[j as int]@);
                    } else {
                        assert(new_prefix[k] == old_prefix[k - 1]);
                        assert(new_prefix[k + 1] == old_prefix[k]);
                    }
                }
            }
        } else {
            proof {
                let views = text_views(sorted@);
                let old_prefix = views.subrange(0, i as int);
                let new_prefix = views.subrange(0, i as int + 1);
                assert forall|k: int| 0 <= k < new_prefix.len() - 1 implies text_le(
                    #[trigger] new_prefix[k],
                    new_prefix[k + 1],
                ) by {
                    if k + 1 < i {
                        assert(new_prefix[k] == old_prefix[k]);
                        assert(new_prefix[k + 1] == old_prefix[k + 1]);
                    } else {
                        assert(new_prefix[k] == before[i - 1]@);
                        assert(new_prefix[k + 1] == before[i as int]@);
                    }
                }
            }
        }
        i += 1;
    }
    proof {
        let views = text_views(sorted@);
        assert(views.subrange(0, vstd::math::min(i as int, sorted@.len() as int)) =~= views);
    }
    sorted
}

} // verus!
