//! The order in which lint names are sorted, and a sort by it.
//!
//! Names are compared as Rust compares strings: by the bytes of their UTF-8
//! encodings, a proper prefix first, and otherwise by the first byte in which
//! the two differ.

use vstd::prelude::*;
use vstd::utf8::*;

verus! {

/// Lexicographic order on byte strings.
pub open spec fn bytes_le(a: Seq<u8>, b: Seq<u8>) -> bool
    decreases a.len(),
{
    if a.len() == 0 {
        true
    } else if b.len() == 0 {
        false
    } else if a[0] == b[0] {
        bytes_le(a.drop_first(), b.drop_first())
    } else {
        a[0] < b[0]
    }
}

/// The order of names: that of their UTF-8 encodings.
pub open spec fn name_le(a: Seq<char>, b: Seq<char>) -> bool {
    bytes_le(encode_utf8(a), encode_utf8(b))
}

/// Every name of the sequence is at most each name behind it.
pub open spec fn ascending(names: Seq<Seq<char>>) -> bool {
    forall|i: int, j: int| 0 <= i < j < names.len() ==> name_le(#[trigger] names[i], #[trigger] names[j])
}

/// `out` holds the names of `names`, each as often as `names` does, in
/// ascending order.
pub open spec fn is_sort_of(out: Seq<Seq<char>>, names: Seq<Seq<char>>) -> bool {
    &&& ascending(out)
    &&& out.to_multiset() == names.to_multiset()
}

pub proof fn lemma_bytes_le_reflexive(a: Seq<u8>)
    ensures
        bytes_le(a, a),
    decreases a.len(),
{
    if a.len() > 0 {
        lemma_bytes_le_reflexive(a.drop_first());
    }
}

pub proof fn lemma_bytes_le_total(a: Seq<u8>, b: Seq<u8>)
    ensures
        bytes_le(a, b) || bytes_le(b, a),
    decreases a.len(),
{
    if a.len() > 0 && b.len() > 0 && a[0] == b[0] {
        lemma_bytes_le_total(a.drop_first(), b.drop_first());
    }
}

pub proof fn lemma_bytes_le_antisymmetric(a: Seq<u8>, b: Seq<u8>)
    requires
        bytes_le(a, b),
        bytes_le(b, a),
    ensures
        a == b,
    decreases a.len(),
{
    if a.len() > 0 && b.len() > 0 {
        lemma_bytes_le_antisymmetric(a.drop_first(), b.drop_first());
        assert(a =~= seq![a[0]] + a.drop_first());
        assert(b =~= seq![b[0]] + b.drop_first());
    } else {
        assert(a =~= b);
    }
}

pub proof fn lemma_bytes_le_transitive(a: Seq<u8>, b: Seq<u8>, c: Seq<u8>)
    requires
        bytes_le(a, b),
        bytes_le(b, c),
    ensures
        bytes_le(a, c),
    decreases a.len(),
{
    if a.len() > 0 && b.len() > 0 && c.len() > 0 && a[0] == b[0] && b[0] == c[0] {
        lemma_bytes_le_transitive(a.drop_first(), b.drop_first(), c.drop_first());
    }
}

/// Every name is at most itself.
pub proof fn lemma_name_le_reflexive(a: Seq<char>)
    ensures
        name_le(a, a),
{
    lemma_bytes_le_reflexive(encode_utf8(a));
}

/// Of two names, one is at most the other.
pub proof fn lemma_name_le_total(a: Seq<char>, b: Seq<char>)
    ensures
        name_le(a, b) || name_le(b, a),
{
    lemma_bytes_le_total(encode_utf8(a), encode_utf8(b));
}

/// Two names that are each at most the other are one name.
pub proof fn lemma_name_le_antisymmetric(a: Seq<char>, b: Seq<char>)
    requires
        name_le(a, b),
        name_le(b, a),
    ensures
        a == b,
{
    lemma_bytes_le_antisymmetric(encode_utf8(a), encode_utf8(b));
    encode_utf8_decode_utf8(a);
    encode_utf8_decode_utf8(b);
}

/// The order of names passes along a chain.
pub proof fn lemma_name_le_transitive(a: Seq<char>, b: Seq<char>, c: Seq<char>)
    requires
        name_le(a, b),
        name_le(b, c),
    ensures
        name_le(a, c),
{
    lemma_bytes_le_transitive(encode_utf8(a), encode_utf8(b), encode_utf8(c));
}

/// Whether `a` comes at or before `b` in the lexicographic order of bytes.
pub fn compare_bytes(a: &[u8], b: &[u8]) -> (r: bool)
    ensures
        r == bytes_le(a@, b@),
{
    let mut i: usize = 0;
    proof {
        assert(a@.skip(0) =~= a@);
        assert(b@.skip(0) =~= b@);
    }
    while i < a.len() && i < b.len()
        invariant
            i <= a.len(),
            i <= b.len(),
            bytes_le(a@, b@) == bytes_le(a@.skip(i as int), b@.skip(i as int)),
        decreases a.len() - i,
    {
        if a[i] != b[i] {
            return a[i] < b[i];
        }
        proof {
            assert(a@.skip(i as int).drop_first() =~= a@.skip(i + 1));
            assert(b@.skip(i as int).drop_first() =~= b@.skip(i + 1));
        }
        i += 1;
    }
    i == a.len()
}

/// Whether the name `a` comes at or before the name `b`.
pub fn compare_names(a: &str, b: &str) -> (r: bool)
    ensures
        r == name_le(a@, b@),
{
    compare_bytes(a.as_bytes(), b.as_bytes())
}

/// The names of `names` in ascending order. Equal names are one name, so
/// the result is the only sequence that `is_sort_of` admits.
pub fn sort_names(names: &Vec<String>) -> (out: Vec<String>)
    ensures
        is_sort_of(out.deep_view(), names.deep_view()),
{
    let mut out: Vec<String> = Vec::new();
    let mut i: usize = 0;
    proof {
        assert(names.deep_view().take(0) =~= out.deep_view());
    }
    while i < names.len()
        invariant
            i <= names.len(),
            is_sort_of(out.deep_view(), names.deep_view().take(i as int)),
        decreases names.len() - i,
    {
        let name = &names[i];
        let mut at: usize = out.len();
        while at > 0 && !compare_names(out[at - 1].as_str(), name.as_str())
            invariant
                at <= out.len(),
                forall|k: int| at <= k < out.len() ==> name_le(name@, #[trigger] out.deep_view()[k]),
            decreases at,
        {
            proof {
                lemma_name_le_total(out.deep_view()[at - 1], name@);
            }
            at -= 1;
        }
        let ghost before = out.deep_view();
        out.insert(at, name.clone());
        proof {
            let after = out.deep_view();
            assert(after =~= before.insert(at as int, name@));
            vstd::seq_lib::to_multiset_insert(before, at as int, name@);
            let done = names.deep_view().take(i as int);
            assert(names.deep_view().take(i + 1) =~= done.push(name@));
            vstd::seq_lib::to_multiset_build(done, name@);
            assert forall|x: int, y: int| 0 <= x < y < after.len() implies name_le(
                #[trigger] after[x],
                #[trigger] after[y],
            ) by {
                if y == at && x < at {
                    if x < at - 1 {
                        lemma_name_le_transitive(before[x], before[at - 1], name@);
                    }
                } else if x < at && y > at {
                    assert(name_le(before[x], before[y - 1]));
                } else if x == at {
                    assert(name_le(name@, before[y - 1]));
                } else if x > at {
                    assert(name_le(before[x - 1], before[y - 1]));
                } else {
                    assert(name_le(before[x], before[y]));
                }
            }
        }
        i += 1;
    }
    proof {
        assert(names.deep_view().take(names.len() as int) =~= names.deep_view());
    }
    out
}

/// Names in ascending order are in the only order that their sort has: two
/// ascending sequences of the same names are equal.
pub proof fn lemma_sort_is_unique(a: Seq<Seq<char>>, b: Seq<Seq<char>>)
    requires
        ascending(a),
        ascending(b),
        a.to_multiset() == b.to_multiset(),
    ensures
        a == b,
{
    let le = |x: Seq<char>, y: Seq<char>| name_le(x, y);
    assert(vstd::relations::total_ordering(le)) by {
        assert forall|x: Seq<char>| #[trigger] le(x, x) by {
            lemma_name_le_reflexive(x);
        }
        assert forall|x: Seq<char>, y: Seq<char>| #[trigger] le(x, y) && #[trigger] le(y, x) implies x == y by {
            lemma_name_le_antisymmetric(x, y);
        }
        assert forall|x: Seq<char>, y: Seq<char>, z: Seq<char>| #[trigger] le(x, y) && #[trigger] le(y, z) implies le(x, z) by {
            lemma_name_le_transitive(x, y, z);
        }
        assert forall|x: Seq<char>, y: Seq<char>| #[trigger] le(x, y) || #[trigger] le(y, x) by {
            lemma_name_le_total(x, y);
        }
    }
    assert(vstd::relations::sorted_by(a, le));
    assert(vstd::relations::sorted_by(b, le));
    vstd::seq_lib::lemma_sorted_unique(a, b, le);
}

} // verus!
