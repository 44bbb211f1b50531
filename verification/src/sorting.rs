//! The order of texts by their characters (the order of `String`s), and
//! sorting of name/value pairs by it.

use vstd::prelude::*;

verus! {

broadcast use vstd::seq_lib::to_multiset_build, vstd::seq_lib::to_multiset_insert,
    vstd::seq_lib::to_multiset_remove, vstd::seq_lib::to_multiset_len,
    vstd::seq_lib::to_multiset_contains;

/// `a` comes before or equals `b` in the order of their characters: the first
/// differing character decides, and a prefix comes first.
pub open spec fn text_le(a: Seq<char>, b: Seq<char>) -> bool
    decreases a.len(),
{
    if a.len() == 0 {
        true
    } else if b.len() == 0 {
        false
    } else if a[0] != b[0] {
        (a[0] as int) < (b[0] as int)
    } else {
        text_le(a.drop_first(), b.drop_first())
    }
}

/// `a` comes strictly before `b`.
pub open spec fn text_lt(a: Seq<char>, b: Seq<char>) -> bool {
    text_le(a, b) && a != b
}

/// Name/value pairs in order of name, then of value.
pub open spec fn pair_le(x: (Seq<char>, Seq<char>), y: (Seq<char>, Seq<char>)) -> bool {
    text_lt(x.0, y.0) || (x.0 == y.0 && text_le(x.1, y.1))
}

/// A sequence of pairs in that order.
pub open spec fn sorted_pairs(s: Seq<(Seq<char>, Seq<char>)>) -> bool {
    forall|i: int, j: int| 0 <= i < j < s.len() ==> pair_le(#[trigger] s[i], #[trigger] s[j])
}

/// The views of name/value pairs of texts.
pub open spec fn pairs_view(v: Seq<(String, String)>) -> Seq<(Seq<char>, Seq<char>)> {
    v.map_values(|p: (String, String)| (p.0@, p.1@))
}

/// Any two texts are in order one way or the other.
pub proof fn lemma_text_le_total(a: Seq<char>, b: Seq<char>)
    ensures
        text_le(a, b) || text_le(b, a),
    decreases a.len(),
{
    if a.len() > 0 && b.len() > 0 {
        if a[0] == b[0] {
            lemma_text_le_total(a.drop_first(), b.drop_first());
        } else {
            let (x, y) = (a[0], b[0]);
            assert((x as int) != (y as int));
        }
    }
}

/// Every text is in order with itself.
pub proof fn lemma_text_le_reflexive(a: Seq<char>)
    ensures
        text_le(a, a),
    decreases a.len(),
{
    if a.len() > 0 {
        lemma_text_le_reflexive(a.drop_first());
    }
}

/// The order is transitive.
pub proof fn lemma_text_le_transitive(a: Seq<char>, b: Seq<char>, c: Seq<char>)
    requires
        text_le(a, b),
        text_le(b, c),
    ensures
        text_le(a, c),
    decreases a.len(),
{
    if a.len() > 0 && b.len() > 0 && c.len() > 0 && a[0] == b[0] && b[0] == c[0] {
        lemma_text_le_transitive(a.drop_first(), b.drop_first(), c.drop_first());
    }
}

/// Texts in order both ways are equal.
pub proof fn lemma_text_le_antisymmetric(a: Seq<char>, b: Seq<char>)
    requires
        text_le(a, b),
        text_le(b, a),
    ensures
        a == b,
    decreases a.len(),
{
    if a.len() > 0 {
        lemma_text_le_antisymmetric(a.drop_first(), b.drop_first());
        assert(a =~= seq![a[0]] + a.drop_first());
        assert(b =~= seq![b[0]] + b.drop_first());
    } else {
        assert(b.len() == 0);
        assert(a =~= b);
    }
}

/// Any two pairs are in order one way or the other.
pub proof fn lemma_pair_le_total(x: (Seq<char>, Seq<char>), y: (Seq<char>, Seq<char>))
    ensures
        pair_le(x, y) || pair_le(y, x),
{
    lemma_text_le_total(x.0, y.0);
    lemma_text_le_total(x.1, y.1);
}

/// The order of pairs is transitive.
pub proof fn lemma_pair_le_transitive(
    x: (Seq<char>, Seq<char>),
    y: (Seq<char>, Seq<char>),
    z: (Seq<char>, Seq<char>),
)
    requires
        pair_le(x, y),
        pair_le(y, z),
    ensures
        pair_le(x, z),
{
    if x.0 == y.0 && y.0 == z.0 {
        lemma_text_le_transitive(x.1, y.1, z.1);
    } else {
        lemma_text_le_reflexive(x.0);
        lemma_text_le_reflexive(y.0);
        assert(text_le(x.0, y.0));
        assert(text_le(y.0, z.0));
        lemma_text_le_transitive(x.0, y.0, z.0);
        if x.0 == z.0 {
            lemma_text_le_antisymmetric(x.0, y.0);
        }
    }
}

/// Pairs in order both ways are equal.
pub proof fn lemma_pair_le_antisymmetric(x: (Seq<char>, Seq<char>), y: (Seq<char>, Seq<char>))
    requires
        pair_le(x, y),
        pair_le(y, x),
    ensures
        x == y,
{
    lemma_text_le_reflexive(x.0);
    if x.0 != y.0 {
        lemma_text_le_antisymmetric(x.0, y.0);
    }
    lemma_text_le_antisymmetric(x.1, y.1);
}

/// Sorting gives one result: two sequences of pairs that hold the same pairs
/// and are both in order are equal.
pub proof fn lemma_sorted_pairs_unique(a: Seq<(Seq<char>, Seq<char>)>, b: Seq<(Seq<char>, Seq<char>)>)
    requires
        sorted_pairs(a),
        sorted_pairs(b),
        a.to_multiset() == b.to_multiset(),
    ensures
        a == b,
    decreases a.len(),
{
    assert(a.len() == a.to_multiset().len());
    assert(b.len() == b.to_multiset().len());
    if a.len() == 0 {
        assert(a =~= b);
    } else {
        assert(a.to_multiset().count(a[0]) > 0) by {
            assert(a.contains(a[0]));
        }
        assert(b.contains(a[0]));
        let j = choose|j: int| 0 <= j < b.len() && b[j] == a[0];
        assert(b.to_multiset().count(b[0]) > 0) by {
            assert(b.contains(b[0]));
        }
        assert(a.contains(b[0]));
        let i = choose|i: int| 0 <= i < a.len() && a[i] == b[0];
        if i != 0 && j != 0 {
            assert(pair_le(a[0], a[i]));
            assert(pair_le(b[0], b[j]));
            lemma_pair_le_antisymmetric(a[0], b[0]);
        }
        assert(a[0] == b[0]);
        let ra = a.remove(0);
        let rb = b.remove(0);
        assert(ra.to_multiset() == rb.to_multiset());
        assert forall|p: int, q: int| 0 <= p < q < ra.len() implies pair_le(#[trigger] ra[p], #[trigger] ra[q]) by {
            assert(ra[p] == a[p + 1] && ra[q] == a[q + 1]);
        }
        assert forall|p: int, q: int| 0 <= p < q < rb.len() implies pair_le(#[trigger] rb[p], #[trigger] rb[q]) by {
            assert(rb[p] == b[p + 1] && rb[q] == b[q + 1]);
        }
        lemma_sorted_pairs_unique(ra, rb);
        assert forall|k: int| 0 <= k < a.len() implies a[k] == b[k] by {
            if k > 0 {
                assert(a[k] == ra[k - 1] && b[k] == rb[k - 1]);
            }
        }
        assert(a =~= b);
    }
}

/// Whether `a` comes before or equals `b`.
pub fn text_le_of(a: &str, b: &str) -> (le: bool)
    ensures
        le == text_le(a@, b@),
{
    let n = a.unicode_len();
    let m = b.unicode_len();
    let mut i: usize = 0;
    proof {
        assert(a@.skip(0) =~= a@);
        assert(b@.skip(0) =~= b@);
    }
    while i < n && i < m
        invariant
            n == a@.len(),
            m == b@.len(),
            i <= n,
            i <= m,
            text_le(a@, b@) == text_le(a@.skip(i as int), b@.skip(i as int)),
        decreases n - i,
    {
        let x = a.get_char(i);
        let y = b.get_char(i);
        if x != y {
            return (x as u32) < (y as u32);
        }
        proof {
            assert(a@.skip(i as int).drop_first() =~= a@.skip(i + 1));
            assert(b@.skip(i as int).drop_first() =~= b@.skip(i + 1));
        }
        i = i + 1;
    }
    i == n
}

/// Whether pair `x` comes before or equals pair `y`.
pub fn pair_le_of(x: &(String, String), y: &(String, String)) -> (le: bool)
    ensures
        le == pair_le((x.0@, x.1@), (y.0@, y.1@)),
{
    let name_le = text_le_of(x.0.as_str(), y.0.as_str());
    let same_name = x.0 == y.0;
    if same_name {
        text_le_of(x.1.as_str(), y.1.as_str())
    } else {
        name_le
    }
}

/// Sorts name/value pairs by name, then by value.
pub fn sort_pairs(items: &Vec<(String, String)>) -> (sorted: Vec<(String, String)>)
    ensures
        sorted_pairs(pairs_view(sorted@)),
        pairs_view(sorted@).to_multiset() == pairs_view(items@).to_multiset(),
{
    let mut result: Vec<(String, String)> = Vec::new();
    let mut j: usize = 0;
    proof {
        assert(pairs_view(items@).take(0) =~= pairs_view(result@));
    }
    while j < items.len()
        invariant
            j <= items.len(),
            sorted_pairs(pairs_view(result@)),
            pairs_view(result@).to_multiset() == pairs_view(items@).take(j as int).to_multiset(),
        decreases items.len() - j,
    {
        let x = (items[j].0.clone(), items[j].1.clone());
        let ghost xv = (x.0@, x.1@);
        let ghost r = pairs_view(result@);
        let mut p: usize = 0;
        while p < result.len() && pair_le_of(&result[p], &x)
            invariant
                p <= result.len(),
                r == pairs_view(result@),
                xv == (x.0@, x.1@),
                forall|k: int| 0 <= k < p ==> pair_le(#[trigger] r[k], xv),
            decreases result.len() - p,
        {
            p = p + 1;
        }
        proof {
            if p < result.len() {
                lemma_pair_le_total(r[p as int], xv);
            }
        }
        result.insert(p, x);
        proof {
            let n = pairs_view(result@);
            assert(n =~= r.insert(p as int, xv));
            assert forall|a: int, b: int| 0 <= a < b < n.len() implies pair_le(#[trigger] n[a], #[trigger] n[b]) by {
                if b < p {
                    assert(n[a] == r[a] && n[b] == r[b]);
                } else if b == p {
                    assert(n[a] == r[a]);
                } else if a == p {
                    assert(n[b] == r[b - 1]);
                    assert(pair_le(xv, r[p as int]));
                    if b - 1 > p {
                        assert(pair_le(r[p as int], r[b - 1]));
                        lemma_pair_le_transitive(xv, r[p as int], r[b - 1]);
                    }
                } else if a < p {
                    assert(n[a] == r[a] && n[b] == r[b - 1]);
                    assert(pair_le(r[a], r[b - 1]));
                } else {
                    assert(n[a] == r[a - 1] && n[b] == r[b - 1]);
                    assert(pair_le(r[a - 1], r[b - 1]));
                }
            }
            assert(pairs_view(items@).take(j + 1) =~= pairs_view(items@).take(j as int).push(xv));
        }
        j = j + 1;
    }
    proof {
        assert(pairs_view(items@).take(items.len() as int) =~= pairs_view(items@));
    }
    result
}

} // verus!
