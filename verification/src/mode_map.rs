use vstd::prelude::*;

use crate::aura::AuraModeNum;

verus! {

/// Association list from effect modes to values, with unique keys kept by
/// construction. Lookup is by the first matching key, as `mode_lookup` says.
#[derive(Debug)]
pub struct ModeMap<V> {
    entries: Vec<(AuraModeNum, V)>,
}

/// The value stored under key `m` in an entry sequence: the first entry whose
/// key equals `m`, if any.
pub open spec fn mode_lookup<V>(s: Seq<(AuraModeNum, V)>, m: AuraModeNum) -> Option<V>
    decreases s.len(),
{
    if s.len() == 0 {
        None
    } else if s[0].0 == m {
        Some(s[0].1)
    } else {
        mode_lookup(s.skip(1), m)
    }
}

/// A key is present exactly when some entry carries it.
pub proof fn lemma_mode_lookup_some_iff<V>(s: Seq<(AuraModeNum, V)>, m: AuraModeNum)
    ensures
        (mode_lookup(s, m) is Some) <==> (exists|i: int| 0 <= i < s.len() && s[i].0 == m),
    decreases s.len(),
{
    if s.len() == 0 {
    } else if s[0].0 == m {
        assert(0 <= 0 < s.len() && s[0].0 == m);
    } else {
        lemma_mode_lookup_some_iff(s.skip(1), m);
        if mode_lookup(s, m) is Some {
            let j = choose|j: int| 0 <= j < s.skip(1).len() && s.skip(1)[j].0 == m;
            assert(s[j + 1] == s.skip(1)[j]);
            assert(0 <= j + 1 < s.len() && s[j + 1].0 == m);
        } else {
            assert forall|i: int| 0 <= i < s.len() implies s[i].0 != m by {
                if i >= 1 {
                    assert(s.skip(1)[i - 1] == s[i]);
                }
            }
        }
    }
}

/// Lookup returns the value at the first index whose key matches.
pub proof fn lemma_mode_lookup_first<V>(s: Seq<(AuraModeNum, V)>, i: int, m: AuraModeNum)
    requires
        0 <= i < s.len(),
        s[i].0 == m,
        forall|j: int| 0 <= j < i ==> s[j].0 != m,
    ensures
        mode_lookup(s, m) == Some(s[i].1),
    decreases i,
{
    if i == 0 {
    } else {
        assert forall|j: int| 0 <= j < i - 1 implies s.skip(1)[j].0 != m by {
            assert(s.skip(1)[j] == s[j + 1]);
        }
        assert(s.skip(1)[i - 1] == s[i]);
        lemma_mode_lookup_first(s.skip(1), i - 1, m);
    }
}

/// Overwriting the first entry that carries a key changes that key's value
/// and no other.
pub proof fn lemma_mode_lookup_update<V>(s: Seq<(AuraModeNum, V)>, i: int, m: AuraModeNum, v: V)
    requires
        0 <= i < s.len(),
        s[i].0 == m,
        forall|j: int| 0 <= j < i ==> s[j].0 != m,
    ensures
        mode_lookup(s.update(i, (m, v)), m) == Some(v),
        forall|mm: AuraModeNum| mm != m ==> mode_lookup(s.update(i, (m, v)), mm) == mode_lookup(
            s,
            mm,
        ),
    decreases i,
{
    let t = s.update(i, (m, v));
    if i == 0 {
        assert(t.skip(1) =~= s.skip(1));
        assert forall|mm: AuraModeNum| mm != m implies mode_lookup(t, mm) == mode_lookup(
            s,
            mm,
        ) by {
            assert(t[0].0 == m);
            assert(s[0].0 == m);
            assert(mode_lookup(t, mm) == mode_lookup(t.skip(1), mm));
            assert(mode_lookup(s, mm) == mode_lookup(s.skip(1), mm));
        }
    } else {
        assert(t[0] == s[0]);
        assert(t.skip(1) =~= s.skip(1).update(i - 1, (m, v)));
        assert forall|j: int| 0 <= j < i - 1 implies s.skip(1)[j].0 != m by {
            assert(s.skip(1)[j] == s[j + 1]);
        }
        assert(s.skip(1)[i - 1] == s[i]);
        lemma_mode_lookup_update(s.skip(1), i - 1, m, v);
        assert(s[0].0 != m);
        assert(mode_lookup(t, m) == mode_lookup(t.skip(1), m));
        assert forall|mm: AuraModeNum| mm != m implies mode_lookup(t, mm) == mode_lookup(
            s,
            mm,
        ) by {
            if s[0].0 != mm {
                assert(mode_lookup(t, mm) == mode_lookup(t.skip(1), mm));
                assert(mode_lookup(s, mm) == mode_lookup(s.skip(1), mm));
            }
        }
    }
}

/// Appending an entry with a fresh key adds that key and leaves the rest
/// untouched.
pub proof fn lemma_mode_lookup_push<V>(s: Seq<(AuraModeNum, V)>, m: AuraModeNum, v: V)
    requires
        forall|j: int| 0 <= j < s.len() ==> s[j].0 != m,
    ensures
        mode_lookup(s.push((m, v)), m) == Some(v),
        forall|mm: AuraModeNum| mm != m ==> mode_lookup(s.push((m, v)), mm) == mode_lookup(s, mm),
    decreases s.len(),
{
    let t = s.push((m, v));
    if s.len() == 0 {
        assert(t[0].0 == m);
        assert(t.skip(1) =~= Seq::<(AuraModeNum, V)>::empty());
        assert forall|mm: AuraModeNum| mm != m implies mode_lookup(t, mm) == mode_lookup(
            s,
            mm,
        ) by {
            assert(mode_lookup(t, mm) == mode_lookup(t.skip(1), mm));
        }
    } else {
        assert(t[0] == s[0]);
        assert(t.skip(1) =~= s.skip(1).push((m, v)));
        assert forall|j: int| 0 <= j < s.skip(1).len() implies s.skip(1)[j].0 != m by {
            assert(s.skip(1)[j] == s[j + 1]);
        }
        lemma_mode_lookup_push(s.skip(1), m, v);
        assert(s[0].0 != m);
        assert(mode_lookup(t, m) == mode_lookup(t.skip(1), m));
        assert forall|mm: AuraModeNum| mm != m implies mode_lookup(t, mm) == mode_lookup(
            s,
            mm,
        ) by {
            if s[0].0 != mm {
                assert(mode_lookup(t, mm) == mode_lookup(t.skip(1), mm));
                assert(mode_lookup(s, mm) == mode_lookup(s.skip(1), mm));
            }
        }
    }
}

impl<V> ModeMap<V> {
    /// An empty map.
    pub fn new() -> (r: ModeMap<V>)
        ensures
            r@ == Seq::<(AuraModeNum, V)>::empty(),
    {
        ModeMap { entries: Vec::new() }
    }

    /// The index of the first entry carrying `mode`, if any.
    fn index_of(&self, mode: &AuraModeNum) -> (r: Option<usize>)
        ensures
            match r {
                Some(i) => 0 <= i < self@.len() && self@[i as int].0 == *mode && forall|j: int|
                    0 <= j < i ==> self@[j].0 != *mode,
                None => forall|j: int| 0 <= j < self@.len() ==> self@[j].0 != *mode,
            },
    {
        let n = self.entries.len();
        let mut i: usize = 0;
        while i < n
            invariant
                n == self@.len(),
                0 <= i <= n,
                forall|j: int| 0 <= j < i ==> self@[j].0 != *mode,
            decreases n - i,
        {
            if self.entries[i].0 == *mode {
                return Some(i);
            }
            i += 1;
        }
        None
    }

    /// Whether the map holds an entry for `mode`.
    pub fn contains_key(&self, mode: &AuraModeNum) -> (r: bool)
        ensures
            r == (mode_lookup(self@, *mode) is Some),
    {
        proof {
            lemma_mode_lookup_some_iff(self@, *mode);
        }
        match self.index_of(mode) {
            Some(_) => true,
            None => false,
        }
    }

    /// The value stored under `mode`, if any.
    pub fn get(&self, mode: &AuraModeNum) -> (r: Option<&V>)
        ensures
            match r {
                Some(v) => mode_lookup(self@, *mode) == Some(*v),
                None => mode_lookup(self@, *mode) is None,
            },
    {
        match self.index_of(mode) {
            Some(i) => {
                proof {
                    lemma_mode_lookup_first(self@, i as int, *mode);
                }
                Some(&self.entries[i].1)
            },
            None => {
                proof {
                    lemma_mode_lookup_some_iff(self@, *mode);
                }
                None
            },
        }
    }

    /// Store `value` under `mode`, replacing an earlier entry for the same
    /// mode if one exists.
    pub fn insert(&mut self, mode: AuraModeNum, value: V)
        ensures
            mode_lookup(final(self)@, mode) == Some(value),
            forall|mm: AuraModeNum| mm != mode ==> mode_lookup(final(self)@, mm) == mode_lookup(
                old(self)@,
                mm,
            ),
            final(self)@.len() <= old(self)@.len() + 1,
    {
        match self.index_of(&mode) {
            Some(i) => {
                proof {
                    lemma_mode_lookup_update(self@, i as int, mode, value);
                }
                self.entries.set(i, (mode, value));
            },
            None => {
                proof {
                    lemma_mode_lookup_push(self@, mode, value);
                }
                self.entries.push((mode, value));
            },
        }
    }
}

impl<V> View for ModeMap<V> {
    type V = Seq<(AuraModeNum, V)>;

    closed spec fn view(&self) -> Seq<(AuraModeNum, V)> {
        self.entries@
    }
}

} // verus!
