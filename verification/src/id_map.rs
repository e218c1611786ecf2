//! The calls that wait for a response, by their ids.

use vstd::prelude::*;

verus! {

/// A map from ids to what waits under them. No id occurs twice.
pub struct IdMap<T> {
    entries: Vec<(String, T)>,
}

/// The map that `entries` make up.
spec fn entries_map<T>(entries: Seq<(String, T)>) -> Map<Seq<char>, T>
    decreases entries.len(),
{
    if entries.len() == 0 {
        Map::empty()
    } else {
        entries_map(entries.drop_last()).insert(entries.last().0@, entries.last().1)
    }
}

/// Whether no two of `entries` have one id.
spec fn distinct<T>(entries: Seq<(String, T)>) -> bool {
    forall|i: int, j: int|
        0 <= i < j < entries.len() ==> (#[trigger] entries[i]).0@ != (#[trigger] entries[j]).0@
}

/// Among distinct entries, an id leads to its own entry.
proof fn entries_map_lookup<T>(entries: Seq<(String, T)>)
    requires
        distinct(entries),
    ensures
        forall|id: Seq<char>| #[trigger]
            entries_map(entries).contains_key(id) <==> exists|i: int|
                0 <= i < entries.len() && (#[trigger] entries[i]).0@ == id,
        forall|i: int|
            0 <= i < entries.len() ==> entries_map(entries)[(#[trigger] entries[i]).0@]
                == entries[i].1,
    decreases entries.len(),
{
    if entries.len() > 0 {
        let front = entries.drop_last();
        entries_map_lookup(front);
        assert forall|id: Seq<char>| #[trigger]
            entries_map(entries).contains_key(id) <==> exists|i: int|
                0 <= i < entries.len() && (#[trigger] entries[i]).0@ == id by {
            if entries_map(front).contains_key(id) {
                let i = choose|i: int| 0 <= i < front.len() && (#[trigger] front[i]).0@ == id;
                assert(entries[i].0@ == id);
            }
            if exists|i: int| 0 <= i < entries.len() && (#[trigger] entries[i]).0@ == id {
                let i = choose|i: int| 0 <= i < entries.len() && (#[trigger] entries[i]).0@ == id;
                if i < front.len() {
                    assert(front[i].0@ == id);
                } else {
                    assert(entries.last().0@ == id);
                }
            }
        }
        assert forall|i: int| 0 <= i < entries.len() implies entries_map(entries)[(
        #[trigger] entries[i]).0@] == entries[i].1 by {
            if i < front.len() {
                assert(front[i] == entries[i]);
            }
        }
    }
}

/// Taking an entry out of distinct entries takes its id out of the map.
proof fn entries_map_remove<T>(entries: Seq<(String, T)>, k: int)
    requires
        distinct(entries),
        0 <= k < entries.len(),
    ensures
        distinct(entries.remove(k)),
        entries_map(entries.remove(k)) == entries_map(entries).remove(entries[k].0@),
{
    let rest = entries.remove(k);
    let id = entries[k].0@;
    assert(distinct(rest)) by {
        assert forall|i: int, j: int| 0 <= i < j < rest.len() implies (#[trigger] rest[i]).0@ != (
        #[trigger] rest[j]).0@ by {
            let a = if i < k { i } else { i + 1 };
            let b = if j < k { j } else { j + 1 };
            assert(rest[i] == entries[a] && rest[j] == entries[b]);
        }
    }
    entries_map_lookup(entries);
    entries_map_lookup(rest);
    let whole = entries_map(entries).remove(id);
    assert forall|x: Seq<char>| #[trigger] entries_map(rest).contains_key(x)
        <==> whole.contains_key(x) by {
        if entries_map(rest).contains_key(x) {
            let i = choose|i: int| 0 <= i < rest.len() && (#[trigger] rest[i]).0@ == x;
            let a = if i < k { i } else { i + 1 };
            assert(rest[i] == entries[a]);
        }
        if whole.contains_key(x) {
            let a = choose|a: int| 0 <= a < entries.len() && (#[trigger] entries[a]).0@ == x;
            let i = if a < k { a } else { a - 1 };
            assert(rest[i] == entries[a]);
        }
    }
    assert forall|x: Seq<char>| #[trigger] entries_map(rest).contains_key(x) implies entries_map(
        rest,
    )[x] == whole[x] by {
        let i = choose|i: int| 0 <= i < rest.len() && (#[trigger] rest[i]).0@ == x;
        let a = if i < k { i } else { i + 1 };
        assert(rest[i] == entries[a]);
    }
    assert(entries_map(rest) =~= whole);
}

impl<T> View for IdMap<T> {
    type V = Map<Seq<char>, T>;

    closed spec fn view(&self) -> Map<Seq<char>, T> {
        entries_map(self.entries@)
    }
}

impl<T> IdMap<T> {
    #[verifier::type_invariant]
    spec fn well_formed(self) -> bool {
        distinct(self.entries@)
    }

    /// A map without ids.
    pub fn new() -> (r: IdMap<T>)
        ensures
            r@ == Map::<Seq<char>, T>::empty(),
    {
        IdMap { entries: Vec::new() }
    }

    /// The place of the entry for an id.
    fn find(entries: &Vec<(String, T)>, id: &str) -> (r: Option<usize>)
        requires
            distinct(entries@),
        ensures
            match r {
                Some(k) => k < entries@.len() && entries@[k as int].0@ == id@,
                None => !entries_map(entries@).contains_key(id@),
            },
    {
        let wanted = id.to_string();
        let mut i: usize = 0;
        while i < entries.len()
            invariant
                wanted@ == id@,
                i <= entries@.len(),
                forall|k: int| 0 <= k < i ==> (#[trigger] entries@[k]).0@ != id@,
            decreases entries.len() - i,
        {
            if entries[i].0 == wanted {
                return Some(i);
            }
            i += 1;
        }
        proof {
            entries_map_lookup(entries@);
        }
        None
    }

    /// Puts `value` under `id`, in place of what waited there before.
    pub fn insert(&mut self, id: String, value: T)
        ensures
            final(self)@ == old(self)@.insert(id@, value),
    {
        proof {
            use_type_invariant(&*self);
        }
        let ghost before = self.entries@;
        let mut entries: Vec<(String, T)> = Vec::new();
        std::mem::swap(&mut entries, &mut self.entries);
        proof {
            entries_map_lookup(before);
        }
        match Self::find(&entries, id.as_str()) {
            Some(k) => {
                proof {
                    entries_map_remove(before, k as int);
                }
                let _old = entries.remove(k);
            },
            None => {},
        }
        let ghost rest = entries@;
        assert(entries_map(rest) =~= entries_map(before).remove(id@));
        proof {
            entries_map_lookup(rest);
        }
        entries.push((id, value));
        assert(entries@.drop_last() =~= rest);
        assert(distinct(entries@)) by {
            assert forall|i: int, j: int| 0 <= i < j < entries@.len() implies (
            #[trigger] entries@[i]).0@ != (#[trigger] entries@[j]).0@ by {
                if j == rest.len() {
                    assert(rest[i].0@ != id@) by {
                        assert(!entries_map(rest).contains_key(id@));
                    }
                } else {
                    assert(rest[i].0@ != rest[j].0@);
                }
            }
        }
        assert(entries_map(entries@) =~= entries_map(before).insert(id@, value));
        self.entries = entries;
    }

    /// Takes out what waits under `id`.
    pub fn remove(&mut self, id: &str) -> (r: Option<T>)
        ensures
            final(self)@ == old(self)@.remove(id@),
            match r {
                Some(value) => old(self)@.contains_key(id@) && value == old(self)@[id@],
                None => !old(self)@.contains_key(id@),
            },
    {
        proof {
            use_type_invariant(&*self);
        }
        let ghost before = self.entries@;
        let mut entries: Vec<(String, T)> = Vec::new();
        std::mem::swap(&mut entries, &mut self.entries);
        match Self::find(&entries, id) {
            Some(k) => {
                proof {
                    entries_map_lookup(before);
                    entries_map_remove(before, k as int);
                }
                let (_, value) = entries.remove(k);
                self.entries = entries;
                Some(value)
            },
            None => {
                self.entries = entries;
                assert(self@ =~= old(self)@.remove(id@));
                None
            },
        }
    }
}

} // verus!
