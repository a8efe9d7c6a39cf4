//! An ordered list of header fields with distinct names: setting a name
//! that is already there replaces its value in place, a new name goes to
//! the end.
use super::text::bytes_equal;
use vstd::prelude::*;

verus! {

#[derive(Debug)]
pub struct HeaderEntry {
    pub name: Vec<u8>,
    pub value: Vec<u8>,
}

#[derive(Debug)]
pub struct HeaderList {
    entries: Vec<HeaderEntry>,
}

/// The position of the last entry named `name`.
pub open spec fn name_index(list: Seq<(Seq<u8>, Seq<u8>)>, name: Seq<u8>) -> Option<nat>
    decreases list.len(),
{
    if list.len() == 0 {
        None
    } else if list.last().0 == name {
        Some((list.len() - 1) as nat)
    } else {
        name_index(list.drop_last(), name)
    }
}

/// The list after setting `name` to `value`.
pub open spec fn header_insert(list: Seq<(Seq<u8>, Seq<u8>)>, name: Seq<u8>, value: Seq<u8>) -> Seq<
    (Seq<u8>, Seq<u8>),
> {
    match name_index(list, name) {
        Some(i) => list.update(i as int, (name, value)),
        None => list.push((name, value)),
    }
}

/// No two entries have the same name.
pub open spec fn names_distinct(list: Seq<(Seq<u8>, Seq<u8>)>) -> bool {
    forall|i: int, j: int| 0 <= i < j < list.len() ==> (#[trigger] list[i]).0 != (#[trigger] list[j]).0
}

/// `name_index` finds the last entry with that name, or tells that there
/// is none.
pub proof fn lemma_name_index(list: Seq<(Seq<u8>, Seq<u8>)>, name: Seq<u8>)
    ensures
        match name_index(list, name) {
            Some(i) => i < list.len() && list[i as int].0 == name && forall|j: int|
                i < j < list.len() ==> (#[trigger] list[j]).0 != name,
            None => forall|j: int| 0 <= j < list.len() ==> (#[trigger] list[j]).0 != name,
        },
    decreases list.len(),
{
    if list.len() > 0 && list.last().0 != name {
        let prefix = list.drop_last();
        lemma_name_index(prefix, name);
        assert forall|j: int| 0 <= j < list.len() - 1 implies (#[trigger] list[j]) == prefix[j] by {}
        match name_index(prefix, name) {
            Some(i) => {
                assert forall|j: int| i < j < list.len() implies (#[trigger] list[j]).0 != name by {
                    if j < list.len() - 1 {
                        assert(list[j] == prefix[j]);
                    }
                }
            },
            None => {
                assert forall|j: int| 0 <= j < list.len() implies (#[trigger] list[j]).0 != name by {
                    if j < list.len() - 1 {
                        assert(list[j] == prefix[j]);
                    }
                }
            },
        }
    }
}

/// With distinct names, an entry with the name is at `name_index`.
pub proof fn lemma_name_index_at(list: Seq<(Seq<u8>, Seq<u8>)>, name: Seq<u8>, j: int)
    requires
        names_distinct(list),
        0 <= j < list.len(),
        list[j].0 == name,
    ensures
        name_index(list, name) == Some(j as nat),
{
    lemma_name_index(list, name);
    match name_index(list, name) {
        Some(i) => {
            if (i as int) < j {
                assert(list[i as int].0 != list[j].0);
            } else if (i as int) > j {
                assert(list[j].0 != list[i as int].0);
            }
        },
        None => {
            assert(list[j].0 != name);
        },
    }
}

/// Setting a name keeps the names distinct, the name then maps to the
/// value that was set, and every other name keeps its position.
pub proof fn lemma_header_insert(list: Seq<(Seq<u8>, Seq<u8>)>, name: Seq<u8>, value: Seq<u8>)
    requires
        names_distinct(list),
    ensures
        names_distinct(header_insert(list, name, value)),
        name_index(header_insert(list, name, value), name) is Some,
        header_insert(list, name, value)[name_index(header_insert(list, name, value), name)->0 as int]
            == (name, value),
        forall|n: Seq<u8>| n != name ==> #[trigger] name_index(header_insert(list, name, value), n)
            == name_index(list, n),
{
    lemma_name_index(list, name);
    let l2 = header_insert(list, name, value);
    let pos: int = match name_index(list, name) {
        Some(i) => i as int,
        None => list.len() as int,
    };
    assert(l2[pos] == (name, value));
    assert(l2.len() == if pos == list.len() { list.len() + 1 } else { list.len() + 0 });
    assert forall|j: int| 0 <= j < l2.len() && j != pos implies #[trigger] l2[j] == list[j] by {}
    assert(names_distinct(l2)) by {
        assert forall|i: int, j: int| 0 <= i < j < l2.len() implies (#[trigger] l2[i]).0 != (
        #[trigger] l2[j]).0 by {
            if i != pos && j != pos {
                assert(l2[i] == list[i] && l2[j] == list[j]);
            } else if i == pos {
                assert(l2[j] == list[j]);
                if pos < list.len() {
                    assert(list[pos].0 == name);
                } else {
                    assert(list[j].0 != name);
                }
            } else {
                assert(l2[i] == list[i]);
                if pos < list.len() {
                    assert(list[pos].0 == name);
                } else {
                    assert(list[i].0 != name);
                }
            }
        }
    }
    lemma_name_index_at(l2, name, pos);
    assert forall|n: Seq<u8>| n != name implies #[trigger] name_index(l2, n) == name_index(list, n) by {
        lemma_name_index(list, n);
        lemma_name_index(l2, n);
        match name_index(list, n) {
            Some(i) => {
                assert(i as int != pos);
                assert(l2[i as int] == list[i as int]);
                lemma_name_index_at(l2, n, i as int);
            },
            None => {
                if let Some(k) = name_index(l2, n) {
                    assert(k as int != pos);
                    assert(l2[k as int] == list[k as int]);
                    assert(list[k as int].0 != n);
                }
            },
        }
    }
}

impl View for HeaderList {
    type V = Seq<(Seq<u8>, Seq<u8>)>;

    closed spec fn view(&self) -> Seq<(Seq<u8>, Seq<u8>)> {
        self.entries@.map_values(|e: HeaderEntry| (e.name@, e.value@))
    }
}

impl HeaderList {
    #[verifier::type_invariant]
    spec fn inv(self) -> bool {
        names_distinct(self@)
    }

    pub fn new() -> (r: Self)
        ensures
            r@ == Seq::<(Seq<u8>, Seq<u8>)>::empty(),
    {
        let r = HeaderList { entries: Vec::new() };
        assert(r@ =~= Seq::<(Seq<u8>, Seq<u8>)>::empty());
        r
    }

    pub fn len(&self) -> (r: usize)
        ensures
            r == self@.len(),
    {
        self.entries.len()
    }

    pub fn is_empty(&self) -> (r: bool)
        ensures
            r == (self@.len() == 0),
    {
        self.entries.len() == 0
    }

    /// The position of the entry with this name.
    fn position(&self, name: &[u8]) -> (r: Option<usize>)
        ensures
            match r {
                Some(i) => name_index(self@, name@) == Some(i as nat),
                None => name_index(self@, name@) is None,
            },
    {
        let mut i: usize = 0;
        while i < self.entries.len()
            invariant
                i <= self@.len(),
                self@.len() == self.entries@.len(),
                forall|j: int| 0 <= j < i ==> (#[trigger] self@[j]).0 != name@,
            decreases self@.len() - i,
        {
            if bytes_equal(self.entries[i].name.as_slice(), name) {
                proof {
                    use_type_invariant(self);
                    assert(self@[i as int].0 == name@);
                    lemma_name_index_at(self@, name@, i as int);
                }
                return Some(i);
            }
            i = i + 1;
        }
        proof {
            lemma_name_index(self@, name@);
        }
        None
    }

    /// The value of the entry with this name, if there is one.
    pub fn get(&self, name: &[u8]) -> (r: Option<&Vec<u8>>)
        ensures
            match name_index(self@, name@) {
                Some(i) => r matches Some(v) && v@ == self@[i as int].1,
                None => r is None,
            },
    {
        proof {
            lemma_name_index(self@, name@);
        }
        match self.position(name) {
            Some(i) => Some(&self.entries[i].value),
            None => None,
        }
    }

    /// There is an entry with this name.
    pub fn contains_key(&self, name: &[u8]) -> (r: bool)
        ensures
            r == name_index(self@, name@) is Some,
    {
        self.position(name).is_some()
    }

    /// Sets `name` to `value`: an entry with that name gets the new value
    /// where it stands, otherwise the entry is added at the end.
    pub fn insert(&mut self, name: Vec<u8>, value: Vec<u8>)
        ensures
            final(self)@ == header_insert(old(self)@, name@, value@),
    {
        proof {
            use_type_invariant(&*self);
            lemma_header_insert(self@, name@, value@);
        }
        let ghost expected = header_insert(self@, name@, value@);
        let position = self.position(name.as_slice());
        let ghost before = self@;
        proof {
            lemma_name_index(before, name@);
        }
        let mut entries: Vec<HeaderEntry> = Vec::new();
        std::mem::swap(&mut entries, &mut self.entries);
        assert(entries@.map_values(|e: HeaderEntry| (e.name@, e.value@)) == before);
        match position {
            Some(i) => {
                entries.set(i, HeaderEntry { name, value });
            },
            None => {
                entries.push(HeaderEntry { name, value });
            },
        }
        assert(entries@.map_values(|e: HeaderEntry| (e.name@, e.value@)) =~= expected);
        self.entries = entries;
    }

    /// The entries, in order.
    pub fn entries(&self) -> (r: &[HeaderEntry])
        ensures
            r@.map_values(|e: HeaderEntry| (e.name@, e.value@)) == self@,
    {
        self.entries.as_slice()
    }
}

} // verus!
