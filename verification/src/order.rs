//! The order of text keys: lexicographic by characters, as `String`'s `Ord`
//! orders valid UTF-8 text.

use vstd::prelude::*;

verus! {

/// `a` sorts before `b` when compared from position `i` on: the first
/// position where they differ decides by code point, and a text that ends
/// first sorts first.
pub open spec fn less_from(a: Seq<char>, b: Seq<char>, i: int) -> bool
    decreases a.len() - i,
{
    if i >= a.len() {
        i < b.len()
    } else if i >= b.len() {
        false
    } else if a[i] != b[i] {
        (a[i] as int) < (b[i] as int)
    } else {
        less_from(a, b, i + 1)
    }
}

/// Lexicographic order of texts by characters.
pub open spec fn key_less(a: Seq<char>, b: Seq<char>) -> bool {
    less_from(a, b, 0)
}

/// No text sorts before itself.
pub proof fn lemma_less_irreflexive(a: Seq<char>, i: int)
    requires
        0 <= i,
    ensures
        !less_from(a, a, i),
    decreases a.len() - i,
{
    if i < a.len() {
        lemma_less_irreflexive(a, i + 1);
    }
}

/// The order is transitive.
pub proof fn lemma_less_transitive(a: Seq<char>, b: Seq<char>, c: Seq<char>, i: int)
    requires
        0 <= i,
        less_from(a, b, i),
        less_from(b, c, i),
    ensures
        less_from(a, c, i),
    decreases a.len() - i,
{
    if i < a.len() && i < b.len() && i < c.len() && a[i] == b[i] && b[i] == c[i] {
        lemma_less_transitive(a, b, c, i + 1);
    }
}

/// Two texts that neither sorts before the other agree from position `i` on.
pub proof fn lemma_less_total_from(a: Seq<char>, b: Seq<char>, i: int)
    requires
        0 <= i <= a.len(),
        i <= b.len(),
        !less_from(a, b, i),
        !less_from(b, a, i),
    ensures
        a.len() == b.len(),
        forall|j: int| i <= j < a.len() ==> a[j] == b[j],
    decreases a.len() - i,
{
    if i < a.len() {
        assert(a[i] == b[i]) by {
            if a[i] != b[i] {
                assert((a[i] as int) != (b[i] as int));
            }
        }
        lemma_less_total_from(a, b, i + 1);
    }
}

/// Of two different texts, one sorts before the other.
pub proof fn lemma_less_total(a: Seq<char>, b: Seq<char>)
    requires
        a != b,
    ensures
        key_less(a, b) || key_less(b, a),
{
    if !key_less(a, b) && !key_less(b, a) {
        lemma_less_total_from(a, b, 0);
        assert(a =~= b);
    }
}

/// Whether `a` sorts before `b`, as `a < b` compares two `str`.
pub fn str_less(a: &str, b: &str) -> (r: bool)
    ensures
        r == key_less(a@, b@),
{
    let la = a.unicode_len();
    let lb = b.unicode_len();
    let mut i: usize = 0;
    while i < la && i < lb
        invariant
            la == a@.len(),
            lb == b@.len(),
            i <= la,
            i <= lb,
            key_less(a@, b@) == less_from(a@, b@, i as int),
        decreases la - i,
    {
        let ca = a.get_char(i);
        let cb = b.get_char(i);
        if ca != cb {
            return (ca as u32) < (cb as u32);
        }
        i = i + 1;
    }
    i < lb && i >= la
}

} // verus!
