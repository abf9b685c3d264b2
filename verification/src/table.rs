//! Tables: values by name, each name once.
use vstd::prelude::*;
use crate::text;

verus! {

/// Values by name.
pub struct Table<V> {
    rows: Vec<(String, V)>,
}

/// What the rows hold, where a later row goes before an earlier one of the same name.
pub open spec fn map_of<V>(rows: Seq<(String, V)>) -> Map<Seq<char>, V>
    decreases rows.len(),
{
    if rows.len() == 0 {
        Map::empty()
    } else {
        map_of(rows.drop_last()).insert(rows.last().0@, rows.last().1)
    }
}

/// No name has two rows.
pub open spec fn distinct_names<V>(rows: Seq<(String, V)>) -> bool {
    forall|i: int, j: int|
        0 <= i < j < rows.len() ==> (#[trigger] rows[i]).0@ != (#[trigger] rows[j]).0@
}

/// Whether a name has a row.
pub open spec fn named<V>(rows: Seq<(String, V)>, name: Seq<char>) -> bool {
    exists|i: int| 0 <= i < rows.len() && (#[trigger] rows[i]).0@ == name
}

proof fn lemma_rows<V>(rows: Seq<(String, V)>)
    requires
        distinct_names(rows),
    ensures
        forall|i: int|
            0 <= i < rows.len() ==> map_of(rows).contains_key((#[trigger] rows[i]).0@)
                && map_of(rows)[rows[i].0@] == rows[i].1,
        forall|name: Seq<char>| #[trigger] map_of(rows).contains_key(name) <==> named(rows, name),
        map_of(rows).dom().finite(),
        map_of(rows).dom().len() == rows.len(),
    decreases rows.len(),
{
    if rows.len() > 0 {
        let before = rows.drop_last();
        assert(distinct_names(before)) by {
            assert forall|i: int, j: int| 0 <= i < j < before.len() implies (#[trigger] before[i]).0@
                != (#[trigger] before[j]).0@ by {
                assert(before[i] == rows[i] && before[j] == rows[j]);
            }
        }
        lemma_rows(before);
        let last = rows.last();
        assert(!map_of(before).contains_key(last.0@)) by {
            if named(before, last.0@) {
                let k = choose|k: int| 0 <= k < before.len() && (#[trigger] before[k]).0@
                    == last.0@;
                assert(before[k] == rows[k]);
                assert(rows[k].0@ != rows[rows.len() - 1].0@);
            }
        }
        assert forall|i: int| 0 <= i < rows.len() implies map_of(rows).contains_key(
            (#[trigger] rows[i]).0@,
        ) && map_of(rows)[rows[i].0@] == rows[i].1 by {
            if i < rows.len() - 1 {
                assert(before[i] == rows[i]);
                assert(rows[i].0@ != rows[rows.len() - 1].0@);
            }
        }
        assert forall|name: Seq<char>| #[trigger]
            map_of(rows).contains_key(name) <==> named(rows, name) by {
            if map_of(rows).contains_key(name) {
                if name == last.0@ {
                    assert(rows[rows.len() - 1].0@ == name);
                } else {
                    assert(map_of(before).contains_key(name));
                    let k = choose|k: int| 0 <= k < before.len() && (#[trigger] before[k]).0@
                        == name;
                    assert(rows[k].0@ == name);
                }
            }
            if named(rows, name) {
                let k = choose|k: int| 0 <= k < rows.len() && (#[trigger] rows[k]).0@ == name;
                if k < rows.len() - 1 {
                    assert(before[k].0@ == name);
                    assert(named(before, name));
                }
            }
        }
        assert(map_of(rows).dom() =~= map_of(before).dom().insert(last.0@));
    }
}

impl<V> Table<V> {
    pub closed spec fn view(self) -> Map<Seq<char>, V> {
        map_of(self.rows@)
    }

    /// Each name is in the table once.
    pub closed spec fn wf(self) -> bool {
        distinct_names(self.rows@)
    }

    pub fn new() -> (r: Table<V>)
        ensures
            r.wf(),
            r@ == Map::<Seq<char>, V>::empty(),
    {
        Table { rows: Vec::new() }
    }

    pub fn len(&self) -> (r: usize)
        requires
            self.wf(),
        ensures
            r == self@.dom().len(),
            self@.dom().finite(),
    {
        proof {
            lemma_rows(self.rows@);
        }
        self.rows.len()
    }

    fn index_of(&self, name: &str) -> (r: Option<usize>)
        ensures
            match r {
                Some(i) => i < self.rows@.len() && self.rows@[i as int].0@ == name@,
                None => !named(self.rows@, name@),
            },
    {
        let mut i: usize = 0;
        while i < self.rows.len()
            invariant
                i <= self.rows.len(),
                forall|j: int| 0 <= j < i ==> (#[trigger] self.rows@[j]).0@ != name@,
            decreases self.rows.len() - i,
        {
            if text::text_eq(self.rows[i].0.as_str(), name) {
                return Some(i);
            }
            i = i + 1;
        }
        None
    }

    /// The value of a name.
    pub fn get(&self, name: &str) -> (r: Option<&V>)
        requires
            self.wf(),
        ensures
            match r {
                Some(v) => self@.contains_key(name@) && *v == self@[name@],
                None => !self@.contains_key(name@),
            },
    {
        proof {
            lemma_rows(self.rows@);
        }
        match self.index_of(name) {
            Some(i) => Some(&self.rows[i].1),
            None => None,
        }
    }

    pub fn contains(&self, name: &str) -> (r: bool)
        requires
            self.wf(),
        ensures
            r == self@.contains_key(name@),
    {
        self.get(name).is_some()
    }

    /// Sets the value of a name.
    pub fn insert(&mut self, name: &str, value: V)
        requires
            old(self).wf(),
        ensures
            final(self).wf(),
            final(self)@ == old(self)@.insert(name@, value),
    {
        let ghost before = self.rows@;
        proof {
            lemma_rows(before);
        }
        let found = self.index_of(name);
        match found {
            Some(i) => {
                self.rows.set(i, (name.to_owned(), value));
                proof {
                    let after = self.rows@;
                    assert forall|a: int, b: int| 0 <= a < b < after.len() implies (
                    #[trigger] after[a]).0@ != (#[trigger] after[b]).0@ by {
                        assert(before[a].0@ != before[b].0@);
                    }
                    lemma_rows(after);
                    lemma_updated(before, after, i as int, name@, value);
                }
            },
            None => {
                self.rows.push((name.to_owned(), value));
                proof {
                    let after = self.rows@;
                    assert forall|a: int, b: int| 0 <= a < b < after.len() implies (
                    #[trigger] after[a]).0@ != (#[trigger] after[b]).0@ by {
                        if b < before.len() {
                            assert(before[a].0@ != before[b].0@);
                        } else {
                            assert(before[a].0@ != name@);
                        }
                    }
                    assert(after.drop_last() =~= before);
                }
            },
        }
    }

    /// Takes a name out, with its value.
    pub fn remove(&mut self, name: &str)
        requires
            old(self).wf(),
        ensures
            final(self).wf(),
            final(self)@ == old(self)@.remove(name@),
    {
        let ghost before = self.rows@;
        proof {
            lemma_rows(before);
        }
        let found = self.index_of(name);
        match found {
            Some(i) => {
                self.rows.remove(i);
                proof {
                    let after = self.rows@;
                    assert(after =~= before.remove(i as int));
                    lemma_removed(before, after, i as int, name@);
                }
            },
            None => {
                assert(map_of(before).remove(name@) =~= map_of(before));
            },
        }
    }

    /// The names in the table.
    pub fn names(&self) -> (r: Vec<String>)
        requires
            self.wf(),
        ensures
            text::texts(r@).no_duplicates(),
            forall|name: Seq<char>| #[trigger]
                self@.contains_key(name) <==> text::texts(r@).contains(name),
    {
        proof {
            lemma_rows(self.rows@);
        }
        let mut out: Vec<String> = Vec::new();
        let mut i: usize = 0;
        while i < self.rows.len()
            invariant
                i <= self.rows.len(),
                out@.len() == i,
                forall|j: int| 0 <= j < i ==> (#[trigger] out@[j])@ == self.rows@[j].0@,
            decreases self.rows.len() - i,
        {
            out.push(self.rows[i].0.clone());
            i = i + 1;
        }
        proof {
            let all = text::texts(out@);
            assert forall|a: int, b: int|
                0 <= a < all.len() && 0 <= b < all.len() && a != b implies all[a] != all[b] by {
                assert(out@[a]@ == self.rows@[a].0@ && out@[b]@ == self.rows@[b].0@);
                if a < b {
                    assert(self.rows@[a].0@ != self.rows@[b].0@);
                } else {
                    assert(self.rows@[b].0@ != self.rows@[a].0@);
                }
            }
            assert forall|name: Seq<char>| #[trigger]
                self@.contains_key(name) <==> all.contains(name) by {
                if named(self.rows@, name) {
                    let k = choose|k: int| 0 <= k < self.rows@.len() && (
                    #[trigger] self.rows@[k]).0@ == name;
                    assert(out@[k]@ == name);
                    assert(all[k] == name);
                }
                if all.contains(name) {
                    let k = choose|k: int| 0 <= k < all.len() && all[k] == name;
                    assert(out@[k]@ == name);
                    assert(self.rows@[k].0@ == name);
                }
            }
        }
        out
    }

    /// Takes out every name whose value is not to be kept.
    pub(crate) fn retain<F: Fn(&V) -> bool>(
        &mut self,
        keep: F,
        Ghost(kept): Ghost<spec_fn(V) -> bool>,
    )
        requires
            old(self).wf(),
            forall|v: &V| call_requires(keep, (v,)),
            forall|v: &V, b: bool| call_ensures(keep, (v,), b) ==> b == kept(*v),
        ensures
            final(self).wf(),
            forall|name: Seq<char>| #[trigger]
                final(self)@.contains_key(name) <==> old(self)@.contains_key(name) && kept(
                    old(self)@[name],
                ),
            forall|name: Seq<char>| #[trigger]
                final(self)@.contains_key(name) ==> final(self)@[name] == old(self)@[name],
    {
        let ghost before = self.rows@;
        proof {
            lemma_rows(before);
        }
        let mut i: usize = 0;
        while i < self.rows.len()
            invariant
                i <= self.rows.len(),
                before == old(self).rows@,
                distinct_names(before),
                distinct_names(self.rows@),
                forall|v: &V| call_requires(keep, (v,)),
                forall|v: &V, b: bool| call_ensures(keep, (v,), b) ==> b == kept(*v),
                forall|j: int| 0 <= j < i ==> kept((#[trigger] self.rows@[j]).1),
                forall|j: int| 0 <= j < self.rows@.len() ==> before.contains(#[trigger] self.rows@[j]),
                forall|k: int|
                    0 <= k < before.len() && kept((#[trigger] before[k]).1) ==> self.rows@.contains(
                        before[k],
                    ),
            decreases self.rows.len() - i,
        {
            let ghost now = self.rows@;
            if keep(&self.rows[i].1) {
                i = i + 1;
            } else {
                self.rows.remove(i);
                proof {
                    let after = self.rows@;
                    assert(after =~= now.remove(i as int));
                    assert forall|a: int, b: int| 0 <= a < b < after.len() implies (
                    #[trigger] after[a]).0@ != (#[trigger] after[b]).0@ by {
                        let x = if a < i { a } else { a + 1 };
                        let y = if b < i { b } else { b + 1 };
                        assert(after[a] == now[x] && after[b] == now[y]);
                        assert(now[x].0@ != now[y].0@);
                    }
                    assert forall|j: int| 0 <= j < after.len() implies before.contains(
                        #[trigger] after[j],
                    ) by {
                        let x = if j < i { j } else { j + 1 };
                        assert(after[j] == now[x]);
                    }
                    assert forall|k: int| 0 <= k < before.len() && kept(
                        (#[trigger] before[k]).1,
                    ) implies after.contains(before[k]) by {
                        assert(now.contains(before[k]));
                        let x = choose|x: int| 0 <= x < now.len() && now[x] == before[k];
                        assert(x != i);
                        let j = if x < i { x } else { x - 1 };
                        assert(after[j] == before[k]);
                    }
                }
            }
        }
        proof {
            let after = self.rows@;
            lemma_rows(after);
            assert forall|name: Seq<char>| #[trigger]
                map_of(after).contains_key(name) <==> map_of(before).contains_key(name) && kept(
                    map_of(before)[name],
                ) by {
                if named(after, name) {
                    let j = choose|j: int| 0 <= j < after.len() && (#[trigger] after[j]).0@ == name;
                    assert(before.contains(after[j]));
                    let k = choose|k: int| 0 <= k < before.len() && before[k] == after[j];
                    assert(before[k].0@ == name);
                }
                if named(before, name) && kept(map_of(before)[name]) {
                    let k = choose|k: int| 0 <= k < before.len() && (#[trigger] before[k]).0@
                        == name;
                    assert(after.contains(before[k]));
                    let j = choose|j: int| 0 <= j < after.len() && after[j] == before[k];
                    assert(after[j].0@ == name);
                }
            }
            assert forall|name: Seq<char>| #[trigger]
                map_of(after).contains_key(name) implies map_of(after)[name]
                == map_of(before)[name] by {
                let j = choose|j: int| 0 <= j < after.len() && (#[trigger] after[j]).0@ == name;
                let k = choose|k: int| 0 <= k < before.len() && before[k] == after[j];
                assert(before[k].0@ == name);
            }
        }
    }
}

proof fn lemma_updated<V>(
    before: Seq<(String, V)>,
    after: Seq<(String, V)>,
    i: int,
    name: Seq<char>,
    value: V,
)
    requires
        distinct_names(before),
        distinct_names(after),
        0 <= i < before.len(),
        before[i].0@ == name,
        after.len() == before.len(),
        after[i].0@ == name,
        after[i].1 == value,
        forall|j: int| 0 <= j < before.len() && j != i ==> after[j] == before[j],
    ensures
        map_of(after) == map_of(before).insert(name, value),
{
    lemma_rows(before);
    lemma_rows(after);
    let expected = map_of(before).insert(name, value);
    assert forall|k: Seq<char>| #[trigger] map_of(after).contains_key(k)
        <==> expected.contains_key(k) by {
        if named(after, k) {
            let j = choose|j: int| 0 <= j < after.len() && (#[trigger] after[j]).0@ == k;
            assert(before[j].0@ == k);
        }
        if named(before, k) {
            let j = choose|j: int| 0 <= j < before.len() && (#[trigger] before[j]).0@ == k;
            assert(after[j].0@ == k);
        }
        if k == name {
            assert(after[i].0@ == k);
        }
    }
    assert forall|k: Seq<char>| #[trigger] map_of(after).contains_key(k) implies map_of(after)[k]
        == expected[k] by {
        let j = choose|j: int| 0 <= j < after.len() && (#[trigger] after[j]).0@ == k;
        if j != i {
            assert(before[j].0@ == k);
            if k == name {
                if j < i {
                    assert(before[j].0@ != before[i].0@);
                } else {
                    assert(before[i].0@ != before[j].0@);
                }
            }
        }
    }
    assert(map_of(after) =~= expected);
}

proof fn lemma_removed<V>(
    before: Seq<(String, V)>,
    after: Seq<(String, V)>,
    i: int,
    name: Seq<char>,
)
    requires
        distinct_names(before),
        0 <= i < before.len(),
        before[i].0@ == name,
        after == before.remove(i),
    ensures
        distinct_names(after),
        map_of(after) == map_of(before).remove(name),
{
    assert forall|a: int, b: int| 0 <= a < b < after.len() implies (#[trigger] after[a]).0@ != (
    #[trigger] after[b]).0@ by {
        let x = if a < i { a } else { a + 1 };
        let y = if b < i { b } else { b + 1 };
        assert(after[a] == before[x] && after[b] == before[y]);
        assert(before[x].0@ != before[y].0@);
    }
    lemma_rows(before);
    lemma_rows(after);
    let expected = map_of(before).remove(name);
    assert forall|k: Seq<char>| #[trigger] map_of(after).contains_key(k)
        <==> expected.contains_key(k) by {
        if named(after, k) {
            let j = choose|j: int| 0 <= j < after.len() && (#[trigger] after[j]).0@ == k;
            let x = if j < i { j } else { j + 1 };
            assert(after[j] == before[x]);
            assert(before[x].0@ == k);
            if x < i {
                assert(before[x].0@ != before[i].0@);
            } else {
                assert(before[i].0@ != before[x].0@);
            }
        }
        if named(before, k) && k != name {
            let x = choose|x: int| 0 <= x < before.len() && (#[trigger] before[x]).0@ == k;
            let j = if x < i { x } else { x - 1 };
            assert(after[j] == before[x]);
            assert(after[j].0@ == k);
        }
    }
    assert forall|k: Seq<char>| #[trigger] map_of(after).contains_key(k) implies map_of(after)[k]
        == expected[k] by {
        let j = choose|j: int| 0 <= j < after.len() && (#[trigger] after[j]).0@ == k;
        let x = if j < i { j } else { j + 1 };
        assert(after[j] == before[x]);
        assert(before[x].0@ == k);
    }
    assert(map_of(after) =~= expected);
}

} // verus!
