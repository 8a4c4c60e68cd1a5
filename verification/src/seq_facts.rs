use vstd::prelude::*;

verus! {

/// Membership in a prefix one element longer: the element is either in the
/// shorter prefix or is the newly included one.
pub proof fn lemma_take_succ_contains<T>(s: Seq<T>, i: int, x: T)
    requires
        0 <= i < s.len(),
    ensures
        s.take(i + 1).contains(x) <==> (s.take(i).contains(x) || s[i] == x),
{
    let t1 = s.take(i + 1);
    let t0 = s.take(i);
    if t1.contains(x) {
        let j = choose|j: int| 0 <= j < t1.len() && t1[j] == x;
        if j < i {
            assert(t0[j] == x);
            assert(t0.contains(x));
        } else {
            assert(s[i] == x);
        }
    }
    if t0.contains(x) {
        let j = choose|j: int| 0 <= j < t0.len() && t0[j] == x;
        assert(t1[j] == x);
        assert(t1.contains(x));
    }
    if s[i] == x {
        assert(t1[i] == x);
        assert(t1.contains(x));
    }
}

} // verus!
