//! Lists of values in which each value occurs once, and facts on what lists contain.

use vstd::prelude::*;

use crate::strings::contains_string;
#[allow(unused_imports)]
use crate::strings::strings_view;

verus! {

/// What a list with one more item contains.
pub proof fn contains_push<T>(s: Seq<T>, last: T, x: T)
    ensures
        s.push(last).contains(x) <==> s.contains(x) || last == x,
{
    let t = s.push(last);
    if s.contains(x) {
        let i = choose|i: int| 0 <= i < s.len() && s[i] == x;
        assert(t[i] == x);
    }
    if last == x {
        assert(t[s.len() as int] == x);
    }
    if t.contains(x) {
        let i = choose|i: int| 0 <= i < t.len() && t[i] == x;
        if i < s.len() {
            assert(s[i] == x);
        }
    }
}

/// What two lists behind one another contain.
pub proof fn contains_concat<T>(a: Seq<T>, b: Seq<T>, x: T)
    ensures
        (a + b).contains(x) <==> a.contains(x) || b.contains(x),
{
    let t = a + b;
    if a.contains(x) {
        let i = choose|i: int| 0 <= i < a.len() && a[i] == x;
        assert(t[i] == x);
    }
    if b.contains(x) {
        let i = choose|i: int| 0 <= i < b.len() && b[i] == x;
        assert(t[a.len() + i] == x);
    }
    if t.contains(x) {
        let i = choose|i: int| 0 <= i < t.len() && t[i] == x;
        if i < a.len() {
            assert(a[i] == x);
        } else {
            assert(b[i - a.len()] == x);
        }
    }
}

/// Tells whether a number occurs.
pub fn contains_id(ids: &Vec<i64>, id: i64) -> (r: bool)
    ensures
        r == ids@.contains(id),
{
    let mut i: usize = 0;
    while i < ids.len()
        invariant
            i <= ids@.len(),
            forall|j: int| 0 <= j < i ==> ids@[j] != id,
        decreases ids@.len() - i,
    {
        if ids[i] == id {
            return true;
        }
        i += 1;
    }
    false
}

/// Adds a number unless it occurs.
pub fn insert_id(ids: &mut Vec<i64>, id: i64)
    requires
        old(ids)@.no_duplicates(),
    ensures
        final(ids)@.no_duplicates(),
        forall|x: i64| #[trigger]
            final(ids)@.contains(x) <==> old(ids)@.contains(x) || x == id,
{
    if !contains_id(ids, id) {
        ids.push(id);
        proof {
            assert forall|x: i64| #[trigger]
                ids@.contains(x) <==> old(ids)@.contains(x) || x == id by {
                contains_push(old(ids)@, id, x);
            }
        }
    }
}

/// Lists of distinct items, of which the second one has at least as many and none that the first one
/// has not, have the same items.
pub proof fn same_items<T>(a: Seq<T>, b: Seq<T>)
    requires
        a.no_duplicates(),
        b.no_duplicates(),
        a.len() == b.len(),
        forall|x: T| #[trigger] b.contains(x) ==> a.contains(x),
    ensures
        forall|x: T| #[trigger] a.contains(x) <==> b.contains(x),
{
    a.unique_seq_to_set();
    b.unique_seq_to_set();
    assert(b.to_set().subset_of(a.to_set())) by {
        assert forall|x: T| #[trigger] b.to_set().contains(x) implies a.to_set().contains(x) by {
            assert(b.contains(x));
        }
    }
    vstd::set_lib::lemma_subset_equality(b.to_set(), a.to_set());
    assert forall|x: T| #[trigger] a.contains(x) <==> b.contains(x) by {
        assert(a.to_set().contains(x) <==> a.contains(x));
        assert(b.to_set().contains(x) <==> b.contains(x));
    }
}

/// Adds a text unless it occurs.
pub fn insert_string(v: &mut Vec<String>, s: &str)
    requires
        strings_view(old(v)@).no_duplicates(),
    ensures
        strings_view(final(v)@).no_duplicates(),
        forall|x: Seq<char>| #[trigger]
            strings_view(final(v)@).contains(x) <==> strings_view(old(v)@).contains(x) || x == s@,
{
    if !contains_string(v, s) {
        let ghost before = strings_view(v@);
        v.push(s.to_owned());
        proof {
            assert(strings_view(v@) == before.push(s@));
            assert forall|x: Seq<char>| #[trigger]
                strings_view(v@).contains(x) <==> before.contains(x) || x == s@ by {
                contains_push(before, s@, x);
            }
        }
    }
}

} // verus!
