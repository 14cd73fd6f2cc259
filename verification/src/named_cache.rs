//! A small cache of values by name, such as render passes by pass name or
//! shaders by file name.

use vstd::prelude::*;

verus! {

/// Values by name, each name at most once.
pub struct NamedCache<T> {
    pub entries: Vec<(String, T)>,
}

impl<T> NamedCache<T> {
    /// No name occurs twice.
    pub open spec fn well_formed(&self) -> bool {
        forall|i: int, j: int| 0 <= i < j < self.entries.len() ==> self.entries@[i].0@ != self.entries@[j].0@
    }

    /// The name has an entry.
    pub open spec fn has(&self, name: Seq<char>) -> bool {
        exists|i: int| 0 <= i < self.entries.len() && #[trigger] self.entries@[i].0@ == name
    }

    /// The value cached under `name` (meaningful when `has(name)`).
    pub open spec fn value_of(&self, name: Seq<char>) -> T {
        self.entries@[choose|i: int| 0 <= i < self.entries.len() && #[trigger] self.entries@[i].0@ == name].1
    }

    pub fn new() -> (cache: Self)
        ensures
            cache.well_formed(),
            cache.entries@.len() == 0,
    {
        NamedCache { entries: Vec::new() }
    }

    /// The position of the entry for `name`, if there is one.
    pub fn position(&self, name: &String) -> (position: Option<usize>)
        ensures
            match position {
                Some(i) => i < self.entries.len() && self.entries@[i as int].0@ == name@,
                None => !self.has(name@),
            },
    {
        let mut i: usize = 0;
        while i < self.entries.len()
            invariant
                0 <= i <= self.entries.len(),
                forall|j: int| 0 <= j < i ==> self.entries@[j].0@ != name@,
            decreases self.entries.len() - i,
        {
            if self.entries[i].0 == *name {
                return Some(i);
            }
            i = i + 1;
        }
        None
    }

    /// The value cached under `name`, if any.
    pub fn get(&self, name: &String) -> (value: Option<&T>)
        requires
            self.well_formed(),
        ensures
            match value {
                Some(v) => self.has(name@) && *v == self.value_of(name@),
                None => !self.has(name@),
            },
    {
        match self.position(name) {
            Some(i) => {
                proof {
                    let k = choose|k: int| 0 <= k < self.entries.len() && #[trigger] self.entries@[k].0@ == name@;
                    if k != i as int {
                        if k < i {
                            assert(self.entries@[k].0@ != self.entries@[i as int].0@);
                        } else {
                            assert(self.entries@[i as int].0@ != self.entries@[k].0@);
                        }
                    }
                }
                Some(&self.entries[i].1)
            },
            None => None,
        }
    }

    /// Caches `value` under `name`, which must not have an entry yet.
    pub fn insert(&mut self, name: String, value: T)
        requires
            old(self).well_formed(),
            !old(self).has(name@),
        ensures
            final(self).well_formed(),
            final(self).entries@ == old(self).entries@.push((name, value)),
            final(self).has(name@),
            final(self).value_of(name@) == value,
            forall|n: Seq<char>| n != name@ ==> (final(self).has(n) == old(self).has(n)),
            forall|n: Seq<char>| n != name@ && old(self).has(n) ==> final(self).value_of(n) == old(self).value_of(n),
    {
        let ghost old_entries = self.entries@;
        let ghost name_view = name@;
        self.entries.push((name, value));
        proof {
            let len = old_entries.len();
            assert(self.entries@[len as int].0@ == name_view);
            assert forall|n: Seq<char>| n != name_view implies (self.has(n) == old(self).has(n)) by {
                if self.has(n) {
                    let i = choose|i: int| 0 <= i < self.entries.len() && #[trigger] self.entries@[i].0@ == n;
                    assert(old_entries[i].0@ == n);
                }
                if old(self).has(n) {
                    let i = choose|i: int| 0 <= i < old_entries.len() && #[trigger] old_entries[i].0@ == n;
                    assert(self.entries@[i].0@ == n);
                }
            }
            let k = choose|i: int| 0 <= i < self.entries.len() && #[trigger] self.entries@[i].0@ == name_view;
            if k < len {
                assert(old(self).has(name_view)) by {
                    assert(old_entries[k].0@ == name_view);
                }
            }
            assert forall|n: Seq<char>| n != name_view && old(self).has(n) implies self.value_of(n) == old(self).value_of(n) by {
                let i = choose|i: int| 0 <= i < self.entries.len() && #[trigger] self.entries@[i].0@ == n;
                let j = choose|i: int| 0 <= i < old_entries.len() && #[trigger] old_entries[i].0@ == n;
                assert(self.entries@[j].0@ == n);
                if i != j {
                    if i < j {
                        assert(old_entries[i].0@ != old_entries[j].0@);
                    } else if i < len {
                        assert(old_entries[j].0@ != old_entries[i].0@);
                    }
                }
            }
        }
    }
}


/// What is cached under a name is what a later lookup of that name finds,
/// and the names cached before are still found.
pub proof fn law_lookup_finds_cached<T>(before: NamedCache<T>, after: NamedCache<T>, name: String, value: T)
    requires
        before.well_formed(),
        !before.has(name@),
        after.entries@ == before.entries@.push((name, value)),
    ensures
        after.well_formed(),
        after.has(name@),
        after.value_of(name@) == value,
        forall|n: Seq<char>| before.has(n) ==> #[trigger] after.has(n) && after.value_of(n) == before.value_of(n),
{
    let k = before.entries@.len() as int;
    assert(after.entries@[k].0@ == name@);
    assert forall|i: int, j: int| 0 <= i < j < after.entries.len() implies after.entries@[i].0@ != after.entries@[j].0@ by {
        if j == k {
            assert(after.entries@[i] == before.entries@[i]);
            if after.entries@[i].0@ == name@ {
                assert(before.entries@[i].0@ == name@);
            }
        } else {
            assert(after.entries@[i] == before.entries@[i]);
            assert(after.entries@[j] == before.entries@[j]);
        }
    }
    let c = choose|i: int| 0 <= i < after.entries.len() && #[trigger] after.entries@[i].0@ == name@;
    if c != k {
        assert(after.entries@[c] == before.entries@[c]);
        assert(before.entries@[c].0@ == name@);
    }
    assert forall|n: Seq<char>| before.has(n) implies #[trigger] after.has(n) && after.value_of(n) == before.value_of(n) by {
        let b = choose|i: int| 0 <= i < before.entries.len() && #[trigger] before.entries@[i].0@ == n;
        assert(after.entries@[b] == before.entries@[b]);
        assert(after.entries@[b].0@ == n);
        let a = choose|i: int| 0 <= i < after.entries.len() && #[trigger] after.entries@[i].0@ == n;
        if a == k {
            assert(n == name@);
        } else {
            assert(after.entries@[a] == before.entries@[a]);
            if a != b {
                if a < b {
                    assert(before.entries@[a].0@ != before.entries@[b].0@);
                } else {
                    assert(before.entries@[b].0@ != before.entries@[a].0@);
                }
            }
        }
    }
}

} // verus!
