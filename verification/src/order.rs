//! The order of keys: texts compare as their UTF-8 bytes do, byte by byte,
//! a proper prefix coming first.

use vstd::prelude::*;
use vstd::utf8::{encode_utf8, encode_utf8_decode_utf8};

verus! {

/// `a` comes before `b` in the lexicographic order of bytes.
pub open spec fn bytes_lt(a: Seq<u8>, b: Seq<u8>) -> bool
    decreases a.len(),
{
    if b.len() == 0 {
        false
    } else if a.len() == 0 {
        true
    } else if a[0] != b[0] {
        a[0] < b[0]
    } else {
        bytes_lt(a.skip(1), b.skip(1))
    }
}

/// `a` comes before `b` in the order of keys.
pub open spec fn text_lt(a: Seq<char>, b: Seq<char>) -> bool {
    bytes_lt(encode_utf8(a), encode_utf8(b))
}

/// The keys of a list of pairs increase strictly.
pub open spec fn sorted_keys<V>(s: Seq<(Seq<char>, V)>) -> bool {
    forall|i: int, j: int| 0 <= i < j < s.len() ==> text_lt((#[trigger] s[i]).0, (#[trigger] s[j]).0)
}

pub proof fn lemma_bytes_lt_irreflexive(a: Seq<u8>)
    ensures
        !bytes_lt(a, a),
    decreases a.len(),
{
    if a.len() > 0 {
        lemma_bytes_lt_irreflexive(a.skip(1));
    }
}

pub proof fn lemma_bytes_lt_transitive(a: Seq<u8>, b: Seq<u8>, c: Seq<u8>)
    requires
        bytes_lt(a, b),
        bytes_lt(b, c),
    ensures
        bytes_lt(a, c),
    decreases a.len(),
{
    if a.len() > 0 && a[0] == b[0] && b[0] == c[0] {
        lemma_bytes_lt_transitive(a.skip(1), b.skip(1), c.skip(1));
    }
}

/// Where two byte strings agree on their first `i` bytes, their order is the
/// order of what follows.
pub proof fn lemma_bytes_lt_common_prefix(a: Seq<u8>, b: Seq<u8>, i: int)
    requires
        0 <= i <= a.len(),
        i <= b.len(),
        forall|j: int| 0 <= j < i ==> a[j] == b[j],
    ensures
        bytes_lt(a, b) == bytes_lt(a.skip(i), b.skip(i)),
    decreases i,
{
    if i == 0 {
        assert(a.skip(0) =~= a);
        assert(b.skip(0) =~= b);
    } else {
        lemma_bytes_lt_common_prefix(a.skip(1), b.skip(1), i - 1);
        assert(a.skip(1).skip(i - 1) =~= a.skip(i));
        assert(b.skip(1).skip(i - 1) =~= b.skip(i));
    }
}

pub proof fn lemma_text_lt_irreflexive(a: Seq<char>)
    ensures
        !text_lt(a, a),
{
    lemma_bytes_lt_irreflexive(encode_utf8(a));
}

pub proof fn lemma_text_lt_transitive(a: Seq<char>, b: Seq<char>, c: Seq<char>)
    requires
        text_lt(a, b),
        text_lt(b, c),
    ensures
        text_lt(a, c),
{
    lemma_bytes_lt_transitive(encode_utf8(a), encode_utf8(b), encode_utf8(c));
}

/// Strictly increasing keys are distinct.
pub proof fn lemma_sorted_distinct<V>(s: Seq<(Seq<char>, V)>)
    requires
        sorted_keys(s),
    ensures
        crate::fields::distinct_keys(s),
{
    assert forall|i: int, j: int| 0 <= i < j < s.len() implies (#[trigger] s[i]).0 != (
    #[trigger] s[j]).0 by {
        lemma_text_lt_irreflexive(s[i].0);
    }
}

/// A pair put where its key belongs keeps the keys increasing, and its key
/// was not there before.
pub proof fn lemma_sorted_insert<V>(s: Seq<(Seq<char>, V)>, i: int, k: Seq<char>, v: V)
    requires
        sorted_keys(s),
        0 <= i <= s.len(),
        forall|j: int| 0 <= j < i ==> text_lt((#[trigger] s[j]).0, k),
        i < s.len() ==> text_lt(k, s[i].0),
    ensures
        sorted_keys(s.insert(i, (k, v))),
        !crate::fields::has_key(s, k),
{
    let t = s.insert(i, (k, v));
    assert forall|j: int| i <= j < s.len() implies text_lt(k, (#[trigger] s[j]).0) by {
        if j > i {
            lemma_text_lt_transitive(k, s[i].0, s[j].0);
        }
    }
    assert forall|a: int, b: int| 0 <= a < b < t.len() implies text_lt(
        (#[trigger] t[a]).0,
        (#[trigger] t[b]).0,
    ) by {
        if b < i {
            assert(t[a] == s[a] && t[b] == s[b]);
        } else if b == i {
            assert(t[a] == s[a]);
        } else if a < i {
            assert(t[a] == s[a] && t[b] == s[b - 1]);
            if b - 1 == a {
            } else {
                assert(text_lt(s[a].0, s[b - 1].0));
            }
            if a < i && b - 1 >= i {
                lemma_text_lt_transitive(s[a].0, k, s[b - 1].0);
            }
        } else if a == i {
            assert(t[b] == s[b - 1]);
        } else {
            assert(t[a] == s[a - 1] && t[b] == s[b - 1]);
        }
    }
    assert forall|j: int| 0 <= j < s.len() implies (#[trigger] s[j]).0 != k by {
        lemma_text_lt_irreflexive(k);
    }
}

/// How one key stands to another.
#[derive(Clone, Copy, Debug, PartialEq, Eq, Structural)]
pub enum KeyOrder {
    Before,
    Same,
    After,
}

/// Compares two keys.
pub fn compare_keys(a: &String, b: &String) -> (r: KeyOrder)
    ensures
        match r {
            KeyOrder::Before => text_lt(a@, b@),
            KeyOrder::Same => a@ == b@,
            KeyOrder::After => text_lt(b@, a@),
        },
{
    let x = a.as_str().as_bytes();
    let y = b.as_str().as_bytes();
    let ghost xs = encode_utf8(a@);
    let ghost ys = encode_utf8(b@);
    let mut i: usize = 0;
    while i < x.len() && i < y.len()
        invariant
            xs == encode_utf8(a@),
            ys == encode_utf8(b@),
            x@ == xs,
            y@ == ys,
            i <= xs.len(),
            i <= ys.len(),
            forall|j: int| 0 <= j < i ==> xs[j] == ys[j],
        decreases xs.len() - i,
    {
        if x[i] != y[i] {
            proof {
                lemma_bytes_lt_common_prefix(xs, ys, i as int);
                lemma_bytes_lt_common_prefix(ys, xs, i as int);
                assert(xs.skip(i as int)[0] == xs[i as int]);
                assert(ys.skip(i as int)[0] == ys[i as int]);
            }
            if x[i] < y[i] {
                return KeyOrder::Before;
            } else {
                return KeyOrder::After;
            }
        }
        i += 1;
    }
    proof {
        lemma_bytes_lt_common_prefix(xs, ys, i as int);
        lemma_bytes_lt_common_prefix(ys, xs, i as int);
        assert(xs.skip(i as int).len() == xs.len() - i);
        assert(ys.skip(i as int).len() == ys.len() - i);
    }
    if x.len() == y.len() {
        proof {
            assert(xs =~= ys);
            encode_utf8_decode_utf8(a@);
            encode_utf8_decode_utf8(b@);
        }
        KeyOrder::Same
    } else if x.len() < y.len() {
        KeyOrder::Before
    } else {
        KeyOrder::After
    }
}

/// Where `key` stands in a list whose keys increase: the number of keys
/// before it, and whether the key at that place is `key` itself.
pub fn find_slot<V>(items: &Vec<(String, V)>, key: &String) -> (r: (usize, bool))
    ensures
        r.0 <= items@.len(),
        forall|j: int| 0 <= j < r.0 ==> text_lt((#[trigger] items@[j]).0@, key@),
        r.1 ==> r.0 < items@.len() && items@[r.0 as int].0@ == key@,
        !r.1 && r.0 < items@.len() ==> text_lt(key@, items@[r.0 as int].0@),
{
    let mut i: usize = 0;
    while i < items.len()
        invariant
            i <= items@.len(),
            forall|j: int| 0 <= j < i ==> text_lt((#[trigger] items@[j]).0@, key@),
        decreases items@.len() - i,
    {
        match compare_keys(&items[i].0, key) {
            KeyOrder::Before => {
                i += 1;
            },
            KeyOrder::Same => {
                return (i, true);
            },
            KeyOrder::After => {
                return (i, false);
            },
        }
    }
    (i, false)
}

} // verus!
