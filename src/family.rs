use vstd::prelude::*;

verus! {

/// One named instrument: its name, its help text and its current value.
pub struct Instrument<V> {
    pub name: String,
    pub help: String,
    pub value: V,
}

/// All instruments of one kind, keyed by name. Names are unique.
pub struct Family<V> {
    pub entries: Vec<Instrument<V>>,
}

impl<V: View> Family<V> {
    /// Names are pairwise distinct.
    pub open spec fn wf(&self) -> bool {
        forall|i: int, j: int|
            0 <= i < self.entries@.len() && 0 <= j < self.entries@.len() && i != j
                ==> (#[trigger] self.entries@[i]).name@ != (#[trigger] self.entries@[j]).name@
    }

    pub open spec fn has_at(&self, name: Seq<char>, i: int) -> bool {
        0 <= i < self.entries@.len() && self.entries@[i].name@ == name
    }

    pub open spec fn contains(&self, name: Seq<char>) -> bool {
        exists|i: int| self.has_at(name, i)
    }

    pub open spec fn index_of(&self, name: Seq<char>) -> int {
        choose|i: int| self.has_at(name, i)
    }

    /// The family as a map from name to (help, value).
    pub open spec fn view(&self) -> Map<Seq<char>, (Seq<char>, V::V)> {
        Map::new(
            |n: Seq<char>| self.contains(n),
            |n: Seq<char>|
                (self.entries@[self.index_of(n)].help@, self.entries@[self.index_of(n)].value@),
        )
    }

    pub proof fn lemma_index_unique(&self, name: Seq<char>, i: int)
        requires
            self.wf(),
            self.has_at(name, i),
        ensures
            self.contains(name),
            self.index_of(name) == i,
    {
        let k = self.index_of(name);
        assert(self.has_at(name, k));
        if k != i {
            assert(self.entries@[k].name@ != self.entries@[i].name@);
        }
    }

    /// An empty family.
    pub fn new() -> (r: Self)
        ensures
            r.wf(),
            r.entries@.len() == 0,
            r@ == Map::<Seq<char>, (Seq<char>, V::V)>::empty(),
    {
        let r = Family { entries: Vec::new() };
        assert(r@ =~= Map::<Seq<char>, (Seq<char>, V::V)>::empty());
        r
    }

    /// Position of the instrument called `name`, if there is one.
    pub fn find(&self, name: &str) -> (r: Option<usize>)
        requires
            self.wf(),
        ensures
            r is None <==> !self.contains(name@),
            r matches Some(i) ==> self.has_at(name@, i as int) && self.index_of(name@) == i,
    {
        let mut i: usize = 0;
        while i < self.entries.len()
            invariant
                self.wf(),
                0 <= i <= self.entries@.len(),
                forall|j: int| 0 <= j < i ==> !self.has_at(name@, j),
            decreases self.entries@.len() - i,
        {
            if str_eq(self.entries[i].name.as_str(), name) {
                proof {
                    self.lemma_index_unique(name@, i as int);
                }
                return Some(i);
            }
            i = i + 1;
        }
        None
    }

    /// Names at every position, in order.
    pub open spec fn names(&self) -> Seq<Seq<char>> {
        self.entries@.map_values(|e: Instrument<V>| e.name@)
    }

    /// Appending an instrument under a fresh name adds exactly that name.
    pub proof fn lemma_push(old: &Self, new: &Self, name: Seq<char>, help: Seq<char>, v: V::V)
        requires
            old.wf(),
            !old.contains(name),
            new.entries@.len() == old.entries@.len() + 1,
            forall|i: int| 0 <= i < old.entries@.len() ==> new.entries@[i] == old.entries@[i],
            new.entries@.last().name@ == name,
            new.entries@.last().help@ == help,
            new.entries@.last().value@ == v,
        ensures
            new.wf(),
            new@ == old@.insert(name, (help, v)),
            new.names() == old.names().push(name),
    {
        let n = old.entries@.len() as int;
        assert(new.has_at(name, n));
        assert forall|i: int, j: int|
            0 <= i < new.entries@.len() && 0 <= j < new.entries@.len() && i != j implies
            (#[trigger] new.entries@[i]).name@ != (#[trigger] new.entries@[j]).name@ by {
            if i < n && j < n {
                assert(old.entries@[i] == new.entries@[i]);
                assert(old.entries@[j] == new.entries@[j]);
            } else if i < n {
                assert(!old.has_at(name, i));
            } else {
                assert(!old.has_at(name, j));
            }
        }
        new.lemma_index_unique(name, n);
        assert forall|m: Seq<char>| #[trigger] new.contains(m) == (old.contains(m) || m == name) by {
            if new.contains(m) && m != name {
                let k = new.index_of(m);
                assert(new.has_at(m, k));
                assert(old.has_at(m, k));
            }
            if old.contains(m) {
                let k = old.index_of(m);
                assert(old.has_at(m, k));
                assert(new.has_at(m, k));
            }
        }
        assert forall|m: Seq<char>| old.contains(m) implies new.index_of(m) == old.index_of(m) by {
            let k = old.index_of(m);
            assert(old.has_at(m, k));
            assert(new.has_at(m, k));
            new.lemma_index_unique(m, k);
        }
        assert(new@ =~= old@.insert(name, (help, v)));
        assert(new.names() =~= old.names().push(name));
    }

    /// Changing the value at one position keeps names and helps.
    pub proof fn lemma_set(old: &Self, new: &Self, i: int, v: V::V)
        requires
            old.wf(),
            0 <= i < old.entries@.len(),
            new.entries@.len() == old.entries@.len(),
            forall|j: int| 0 <= j < old.entries@.len() && j != i ==> new.entries@[j] == old.entries@[j],
            new.entries@[i].name@ == old.entries@[i].name@,
            new.entries@[i].help@ == old.entries@[i].help@,
            new.entries@[i].value@ == v,
        ensures
            new.wf(),
            new@ == old@.insert(old.entries@[i].name@, (old.entries@[i].help@, v)),
            new.names() == old.names(),
    {
        let name = old.entries@[i].name@;
        assert forall|a: int, b: int|
            0 <= a < new.entries@.len() && 0 <= b < new.entries@.len() && a != b implies
            (#[trigger] new.entries@[a]).name@ != (#[trigger] new.entries@[b]).name@ by {
            assert(old.entries@[a].name@ != old.entries@[b].name@);
        }
        assert forall|m: Seq<char>| #[trigger] new.contains(m) == old.contains(m) by {
            if new.contains(m) {
                let k = new.index_of(m);
                assert(new.has_at(m, k));
                assert(old.has_at(m, k));
            }
            if old.contains(m) {
                let k = old.index_of(m);
                assert(old.has_at(m, k));
                assert(new.has_at(m, k));
            }
        }
        assert forall|m: Seq<char>| old.contains(m) implies new.index_of(m) == old.index_of(m) by {
            let k = old.index_of(m);
            assert(old.has_at(m, k));
            assert(new.has_at(m, k));
            new.lemma_index_unique(m, k);
        }
        old.lemma_index_unique(name, i);
        assert(new@ =~= old@.insert(name, (old.entries@[i].help@, v)));
        assert(new.names() =~= old.names());
    }

    /// Position of `name`, appending a new instrument made of `help` and
    /// `init` when the name is absent and `may_create` holds.
    pub fn get_or_create(&mut self, name: &str, help: &str, init: V, may_create: bool) -> (r: Option<usize>)
        requires
            old(self).wf(),
        ensures
            final(self).wf(),
            old(self).contains(name@) ==> r == Some(old(self).index_of(name@) as usize)
                && final(self).entries@ == old(self).entries@ && final(self)@ == old(self)@,
            !old(self).contains(name@) && may_create ==> r == Some(old(self).entries@.len() as usize)
                && final(self)@ == old(self)@.insert(name@, (help@, init@))
                && final(self).names() == old(self).names().push(name@),
            !old(self).contains(name@) && !may_create ==> r is None
                && final(self).entries@ == old(self).entries@ && final(self)@ == old(self)@,
            r matches Some(i) ==> final(self).has_at(name@, i as int),
    {
        match self.find(name) {
            Some(i) => Some(i),
            None => {
                if !may_create {
                    return None;
                }
                let ghost before = *self;
                let ghost iv = init@;
                let inst = Instrument { name: name.to_owned(), help: help.to_owned(), value: init };
                self.entries.push(inst);
                proof {
                    Self::lemma_push(&before, self, name@, help@, iv);
                }
                Some(self.entries.len() - 1)
            }
        }
    }

    /// Replaces the value at position `i`, handing back the one it held.
    pub fn set_value(&mut self, i: usize, v: V) -> (prev: V)
        requires
            old(self).wf(),
            i < old(self).entries@.len(),
        ensures
            final(self).wf(),
            final(self)@ == old(self)@.insert(
                old(self).entries@[i as int].name@,
                (old(self).entries@[i as int].help@, v@),
            ),
            final(self).names() == old(self).names(),
            final(self).entries@.len() == old(self).entries@.len(),
            forall|j: int| 0 <= j < old(self).entries@.len()
                ==> (#[trigger] final(self).entries@[j]).name@ == old(self).entries@[j].name@,
            final(self).entries@[i as int].value == v,
            final(self).entries@[i as int].help@ == old(self).entries@[i as int].help@,
            prev == old(self).entries@[i as int].value,
    {
        let ghost before = *self;
        let ghost vv = v@;
        let Instrument { name, help, value: prev } = self.entries.remove(i);
        self.entries.insert(i, Instrument { name, help, value: v });
        proof {
            Self::lemma_set(&before, self, i as int, vv);
        }
        prev
    }
}

/// Character-wise equality of two strings.
pub fn str_eq(a: &str, b: &str) -> (r: bool)
    ensures
        r == (a@ == b@),
{
    let n = a.unicode_len();
    if n != b.unicode_len() {
        return false;
    }
    let mut i: usize = 0;
    while i < n
        invariant
            n == a@.len(),
            n == b@.len(),
            0 <= i <= n,
            forall|j: int| 0 <= j < i ==> a@[j] == b@[j],
        decreases n - i,
    {
        if a.get_char(i) != b.get_char(i) {
            return false;
        }
        i = i + 1;
    }
    assert(a@ =~= b@);
    true
}

} // verus!
