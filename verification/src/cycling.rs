use vstd::prelude::*;

use crate::aura::AuraModeNum;

verus! {

/// Index of the first occurrence of `m` in `s`; meaningful only when `s`
/// contains `m`.
pub open spec fn first_index_of(s: Seq<AuraModeNum>, m: AuraModeNum) -> int
    decreases s.len(),
{
    if s.len() == 0 {
        0
    } else if s[0] == m {
        0
    } else {
        1 + first_index_of(s.skip(1), m)
    }
}

/// The mode one step away from `current` in the cycling order that `modes`
/// defines, wrapping at both ends. A mode outside the list stays put.
pub open spec fn toggle_next_spec(
    modes: Seq<AuraModeNum>,
    current: AuraModeNum,
    reverse: bool,
) -> AuraModeNum {
    if !modes.contains(current) {
        current
    } else {
        let i = first_index_of(modes, current);
        if reverse {
            if i == 0 {
                modes[modes.len() - 1]
            } else {
                modes[i - 1]
            }
        } else {
            if i + 1 == modes.len() {
                modes[0]
            } else {
                modes[i + 1]
            }
        }
    }
}

/// The mode reached from `start` after `k` forward steps.
pub open spec fn toggle_iter_spec(modes: Seq<AuraModeNum>, start: AuraModeNum, k: nat) -> AuraModeNum
    decreases k,
{
    if k == 0 {
        start
    } else {
        toggle_next_spec(modes, toggle_iter_spec(modes, start, (k - 1) as nat), false)
    }
}

/// No mode appears twice in the list.
pub open spec fn modes_distinct(modes: Seq<AuraModeNum>) -> bool {
    forall|i: int, j: int| 0 <= i < j < modes.len() ==> modes[i] != modes[j]
}

/// The first index of a contained mode is in bounds, carries the mode, and
/// nothing before it does.
proof fn lemma_first_index_bounds(s: Seq<AuraModeNum>, m: AuraModeNum)
    requires
        s.contains(m),
    ensures
        0 <= first_index_of(s, m) < s.len(),
        s[first_index_of(s, m)] == m,
        forall|j: int| 0 <= j < first_index_of(s, m) ==> s[j] != m,
    decreases s.len(),
{
    if s[0] == m {
    } else {
        assert(s.skip(1).contains(m)) by {
            let w = choose|w: int| 0 <= w < s.len() && s[w] == m;
            assert(s.skip(1)[w - 1] == s[w]);
        }
        lemma_first_index_bounds(s.skip(1), m);
        let fi = first_index_of(s, m);
        assert(s[fi] == s.skip(1)[fi - 1]);
        assert forall|j: int| 0 <= j < fi implies s[j] != m by {
            if j >= 1 {
                assert(s.skip(1)[j - 1] == s[j]);
            }
        }
    }
}

/// In a duplicate-free list, the first index of the mode at `j` is `j`.
proof fn lemma_first_index_at(s: Seq<AuraModeNum>, j: int)
    requires
        modes_distinct(s),
        0 <= j < s.len(),
    ensures
        first_index_of(s, s[j]) == j,
{
    assert(s.contains(s[j]));
    lemma_first_index_bounds(s, s[j]);
    let fi = first_index_of(s, s[j]);
    if fi < j {
        assert(s[fi] == s[j]);
    } else if fi > j {
        assert(s[j] != s[j]);
    }
}

/// Stepping `a + b` times is stepping `a` times, then `b` more.
proof fn lemma_toggle_iter_add(modes: Seq<AuraModeNum>, start: AuraModeNum, a: nat, b: nat)
    ensures
        toggle_iter_spec(modes, start, a + b) == toggle_iter_spec(
            modes,
            toggle_iter_spec(modes, start, a),
            b,
        ),
    decreases b,
{
    if b > 0 {
        lemma_toggle_iter_add(modes, start, a, (b - 1) as nat);
    }
}

/// Within the list, `k` forward steps from the mode at `i0` land on the
/// mode at `i0 + k`, as long as no wrap occurs.
proof fn lemma_toggle_iter_span(modes: Seq<AuraModeNum>, i0: int, k: nat)
    requires
        modes_distinct(modes),
        0 <= i0,
        i0 + k < modes.len(),
    ensures
        toggle_iter_spec(modes, modes[i0], k) == modes[i0 + k],
    decreases k,
{
    if k > 0 {
        lemma_toggle_iter_span(modes, i0, (k - 1) as nat);
        let j = i0 + k - 1;
        assert(modes.contains(modes[j]));
        lemma_first_index_at(modes, j);
    }
}

/// A first-index characterization: an in-bounds match with no earlier match
/// is the first index.
proof fn lemma_first_index_is(s: Seq<AuraModeNum>, i: int, m: AuraModeNum)
    requires
        0 <= i < s.len(),
        s[i] == m,
        forall|j: int| 0 <= j < i ==> s[j] != m,
    ensures
        first_index_of(s, m) == i,
    decreases i,
{
    if i > 0 {
        assert forall|j: int| 0 <= j < i - 1 implies s.skip(1)[j] != m by {
            assert(s.skip(1)[j] == s[j + 1]);
        }
        assert(s.skip(1)[i - 1] == s[i]);
        lemma_first_index_is(s.skip(1), i - 1, m);
    }
}

/// The position of the first occurrence of `m`, if any.
pub fn position_of_mode(modes: &Vec<AuraModeNum>, m: AuraModeNum) -> (r: Option<usize>)
    ensures
        match r {
            Some(i) => modes@.contains(m) && i < modes@.len() && modes@[i as int] == m
                && first_index_of(modes@, m) == i,
            None => !modes@.contains(m),
        },
{
    let n = modes.len();
    let mut i: usize = 0;
    while i < n
        invariant
            i <= n,
            n == modes@.len(),
            forall|j: int| 0 <= j < i ==> modes@[j] != m,
        decreases n - i,
    {
        if modes[i] == m {
            proof {
                assert(modes@.contains(m)) by {
                    assert(modes@[i as int] == m);
                }
                lemma_first_index_is(modes@, i as int, m);
            }
            return Some(i);
        }
        i += 1;
    }
    None
}

/// Cycle closure: with a duplicate-free mode list, stepping forward once
/// per listed mode returns the active mode to its starting value.
pub proof fn lemma_toggle_cycle(modes: Seq<AuraModeNum>, start: AuraModeNum)
    requires
        modes_distinct(modes),
        modes.contains(start),
    ensures
        toggle_iter_spec(modes, start, modes.len()) == start,
{
    let len = modes.len() as int;
    lemma_first_index_bounds(modes, start);
    let i0 = first_index_of(modes, start);
    let a = (len - 1 - i0) as nat;

    // forward to the end of the list
    lemma_toggle_iter_span(modes, i0, a);
    assert(toggle_iter_spec(modes, start, a) == modes[len - 1]);

    // one step wraps to the front
    lemma_first_index_at(modes, len - 1);
    lemma_toggle_iter_add(modes, start, a, 1);
    assert(modes.contains(modes[len - 1]));
    assert(toggle_iter_spec(modes, start, a + 1) == modes[0]);

    // forward again to the starting position
    lemma_toggle_iter_span(modes, 0, i0 as nat);
    lemma_toggle_iter_add(modes, start, a + 1, i0 as nat);
    assert(toggle_iter_spec(modes, start, a + 1 + i0 as nat) == modes[i0]);
    assert(a + 1 + i0 as nat == modes.len());
}

} // verus!
