//! A table of values by name.

use vstd::prelude::*;

verus! {

/// Values by name; no name occurs twice.
pub struct NamedTable<T> {
    entries: Vec<(String, T)>,
}

/// The names of the entries are distinct.
pub open spec fn distinct_names<T>(e: Seq<(String, T)>) -> bool {
    forall|i: int, j: int| 0 <= i < e.len() && 0 <= j < e.len() && i != j ==> (#[trigger] e[i]).0@ != (#[trigger] e[j]).0@
}

/// The table of entries, later entries taking precedence.
pub open spec fn table_of<T>(e: Seq<(String, T)>) -> Map<Seq<char>, T>
    decreases e.len(),
{
    if e.len() == 0 {
        Map::empty()
    } else {
        table_of(e.drop_last()).insert(e.last().0@, e.last().1)
    }
}

proof fn lemma_table_dom<T>(e: Seq<(String, T)>, k: Seq<char>)
    ensures
        table_of(e).contains_key(k) <==> exists|i: int| 0 <= i < e.len() && (#[trigger] e[i]).0@ == k,
    decreases e.len(),
{
    if e.len() > 0 {
        lemma_table_dom(e.drop_last(), k);
        if table_of(e.drop_last()).contains_key(k) {
            let i = choose|i: int| 0 <= i < e.drop_last().len() && (#[trigger] e.drop_last()[i]).0@ == k;
            assert(e[i] == e.drop_last()[i]);
        }
        if exists|i: int| 0 <= i < e.len() && (#[trigger] e[i]).0@ == k {
            let i = choose|i: int| 0 <= i < e.len() && (#[trigger] e[i]).0@ == k;
            if i < e.len() - 1 {
                assert(e.drop_last()[i] == e[i]);
            }
        }
    }
}

proof fn lemma_table_val<T>(e: Seq<(String, T)>, i: int)
    requires
        distinct_names(e),
        0 <= i < e.len(),
    ensures
        table_of(e).contains_key(e[i].0@),
        table_of(e)[e[i].0@] == e[i].1,
    decreases e.len(),
{
    if i < e.len() - 1 {
        assert(e.drop_last()[i] == e[i]);
        assert(distinct_names(e.drop_last())) by {
            assert forall|a: int, b: int| 0 <= a < e.drop_last().len() && 0 <= b < e.drop_last().len() && a != b
                implies (#[trigger] e.drop_last()[a]).0@ != (#[trigger] e.drop_last()[b]).0@ by {
                assert(e.drop_last()[a] == e[a]);
                assert(e.drop_last()[b] == e[b]);
            }
        }
        lemma_table_val(e.drop_last(), i);
        assert(e[i].0@ != e[e.len() - 1].0@);
    }
}

impl<T> View for NamedTable<T> {
    type V = Map<Seq<char>, T>;

    closed spec fn view(&self) -> Map<Seq<char>, T> {
        table_of(self.entries@)
    }
}

impl<T> NamedTable<T> {
    #[verifier::type_invariant]
    spec fn inv(self) -> bool {
        distinct_names(self.entries@)
    }

    /// An empty table.
    pub fn new() -> (r: NamedTable<T>)
        ensures
            r@ == Map::<Seq<char>, T>::empty(),
    {
        NamedTable { entries: Vec::new() }
    }

    /// The value named `name`, if the table has one.
    pub fn get(&self, name: &String) -> (r: Option<&T>)
        ensures
            r matches Some(p) ==> self@.contains_key(name@) && self@[name@] == *p,
            r is None ==> !self@.contains_key(name@),
    {
        proof {
            use_type_invariant(self);
        }
        let e = &self.entries;
        let mut i: usize = 0;
        while i < e.len()
            invariant
                i <= e.len(),
                e@ == self.entries@,
                distinct_names(e@),
                forall|j: int| 0 <= j < i ==> (#[trigger] e@[j]).0@ != name@,
            decreases e.len() - i,
        {
            if e[i].0 == *name {
                proof {
                    lemma_table_val(e@, i as int);
                }
                return Some(&e[i].1);
            }
            i = i + 1;
        }
        proof {
            lemma_table_dom(e@, name@);
        }
        None
    }

    /// The entries of the table, each name once.
    pub fn entries(&self) -> (r: &Vec<(String, T)>)
        ensures
            distinct_names(r@),
            table_of(r@) == self@,
    {
        proof {
            use_type_invariant(self);
        }
        &self.entries
    }

    /// Records `p` under `name`, in place of any value of that name.
    pub fn insert(&mut self, name: String, p: T)
        ensures
            final(self)@ == old(self)@.insert(name@, p),
    {
        proof {
            use_type_invariant(&*self);
        }
        let ghost old_e = self.entries@;
        let mut found: Option<usize> = None;
        let mut i: usize = 0;
        while i < self.entries.len()
            invariant
                i <= self.entries.len(),
                self.entries@ == old_e,
                found matches Some(k) ==> k < old_e.len() && old_e[k as int].0@ == name@,
                found is None ==> forall|j: int| 0 <= j < i ==> (#[trigger] old_e[j]).0@ != name@,
            decreases self.entries.len() - i,
        {
            if found.is_none() && self.entries[i].0 == name {
                found = Some(i);
            }
            i = i + 1;
        }
        let mut e = Vec::new();
        std::mem::swap(&mut e, &mut self.entries);
        assert(e@ == old_e);
        match found {
            Some(k) => {
                let ghost p_ghost = p;
                e.set(k, (name, p));
                let ghost new_e = e@;
                assert(distinct_names(new_e)) by {
                    assert forall|a: int, b: int| 0 <= a < new_e.len() && 0 <= b < new_e.len() && a != b
                        implies (#[trigger] new_e[a]).0@ != (#[trigger] new_e[b]).0@ by {
                        if a != k && b != k {
                            assert(old_e[a] == new_e[a] && old_e[b] == new_e[b]);
                        } else if a == k {
                            assert(old_e[b] == new_e[b]);
                        } else {
                            assert(old_e[a] == new_e[a]);
                        }
                    }
                }
                assert(table_of(new_e) =~= table_of(old_e).insert(new_e[k as int].0@, p_ghost)) by {
                    assert forall|key: Seq<char>| table_of(new_e).contains_key(key) <==> table_of(old_e).insert(new_e[k as int].0@, p_ghost).contains_key(key) by {
                        lemma_table_dom(new_e, key);
                        lemma_table_dom(old_e, key);
                        if exists|j: int| 0 <= j < old_e.len() && (#[trigger] old_e[j]).0@ == key {
                            let j = choose|j: int| 0 <= j < old_e.len() && (#[trigger] old_e[j]).0@ == key;
                            if j != k { assert(new_e[j] == old_e[j]); }
                        }
                        if exists|j: int| 0 <= j < new_e.len() && (#[trigger] new_e[j]).0@ == key {
                            let j = choose|j: int| 0 <= j < new_e.len() && (#[trigger] new_e[j]).0@ == key;
                            if j != k { assert(new_e[j] == old_e[j]); }
                        }
                    }
                    assert forall|key: Seq<char>| #[trigger] table_of(new_e).contains_key(key) implies table_of(new_e)[key] == table_of(old_e).insert(new_e[k as int].0@, p_ghost)[key] by {
                        lemma_table_dom(new_e, key);
                        let j = choose|j: int| 0 <= j < new_e.len() && (#[trigger] new_e[j]).0@ == key;
                        lemma_table_val(new_e, j);
                        if j != k {
                            assert(new_e[j] == old_e[j]);
                            lemma_table_val(old_e, j);
                        }
                    }
                }
            },
            None => {
                let ghost p_ghost = p;
                e.push((name, p));
                let ghost new_e = e@;
                assert(new_e.drop_last() =~= old_e);
                assert(distinct_names(new_e)) by {
                    assert forall|a: int, b: int| 0 <= a < new_e.len() && 0 <= b < new_e.len() && a != b
                        implies (#[trigger] new_e[a]).0@ != (#[trigger] new_e[b]).0@ by {
                        if a < old_e.len() { assert(old_e[a] == new_e[a]); }
                        if b < old_e.len() { assert(old_e[b] == new_e[b]); }
                    }
                }
            },
        }
        self.entries = e;
    }
}

/// Reading a name just recorded gives the value recorded under it; every
/// other name keeps what it had.
pub proof fn law_get_after_insert<T>(
    before: Map<Seq<char>, T>,
    after: Map<Seq<char>, T>,
    name: Seq<char>,
    value: T,
    other: Seq<char>,
)
    requires
        after == before.insert(name, value),
    ensures
        after.contains_key(name),
        after[name] == value,
        other != name ==> (after.contains_key(other) <==> before.contains_key(other)),
        other != name && before.contains_key(other) ==> after[other] == before[other],
{
}

} // verus!
