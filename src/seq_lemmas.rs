use vstd::prelude::*;

verus! {

/// Pushing an element a sequence does not hold keeps it free of duplicates
/// and adds the element to its set.
pub proof fn lemma_push_new<T>(s: Seq<T>, x: T)
    requires
        s.no_duplicates(),
        !s.contains(x),
    ensures
        s.push(x).no_duplicates(),
        s.push(x).to_set() == s.to_set().insert(x),
{
    s.lemma_push_to_set_commute(x);
    let t = s.push(x);
    assert forall|a: int, b: int| 0 <= a < t.len() && 0 <= b < t.len() && a != b implies t[a] != t[b] by {
        if a < s.len() && b < s.len() {
            assert(t[a] == s[a] && t[b] == s[b]);
        } else if a < s.len() {
            assert(s.contains(t[a]));
        } else if b < s.len() {
            assert(s.contains(t[b]));
        }
    }
}

/// The set of a sequence holds exactly what the sequence holds.
pub proof fn lemma_to_set_contains<T>(s: Seq<T>, x: T)
    ensures
        s.to_set().contains(x) == s.contains(x),
{
}

/// The set of a prefix one longer adds the next element.
pub proof fn lemma_take_next_to_set<T>(s: Seq<T>, i: int)
    requires
        0 <= i < s.len(),
    ensures
        s.take(i + 1).to_set() == s.take(i).to_set().insert(s[i]),
{
    assert(s.take(i + 1) =~= s.take(i).push(s[i]));
    s.take(i).lemma_push_to_set_commute(s[i]);
}

} // verus!
