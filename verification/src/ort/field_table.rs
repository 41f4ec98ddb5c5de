//! The two small tables of an object proxy: the values it holds by field name, and the
//! names of the fields that are marked const.
//!
//! Both are kept as lists in which no name occurs twice. A field keeps its place when it
//! is overwritten, a new field goes to the end, and removing one closes the gap.

use crate::ort::value::Value;
use crate::text::str_eq;
use vstd::prelude::*;
use vstd::string::StringExecFns;

verus! {

/// The fields of a table in table order, each with its name and its value.
pub type Fields = Seq<(Seq<char>, Value)>;

/// No name occurs twice.
pub open spec fn distinct_names(fields: Fields) -> bool {
    forall|i: int, j: int|
        0 <= i < j < fields.len() ==> (#[trigger] fields[i]).0 != (#[trigger] fields[j]).0
}

/// Whether a field of that name is in the table.
pub open spec fn has_field(fields: Fields, name: Seq<char>) -> bool {
    exists|i: int| 0 <= i < fields.len() && (#[trigger] fields[i]).0 == name
}

/// The place of the field of that name, for a name that the table has.
pub open spec fn position(fields: Fields, name: Seq<char>) -> int {
    choose|i: int| 0 <= i < fields.len() && (#[trigger] fields[i]).0 == name
}

/// The value held under a name.
pub open spec fn lookup(fields: Fields, name: Seq<char>) -> Option<Value> {
    if has_field(fields, name) {
        Some(fields[position(fields, name)].1)
    } else {
        None
    }
}

/// The table after `value` was stored under `name`.
pub open spec fn assign(fields: Fields, name: Seq<char>, value: Value) -> Fields {
    if has_field(fields, name) {
        fields.update(position(fields, name), (name, value))
    } else {
        fields.push((name, value))
    }
}

/// The table after the field of that name was removed.
pub open spec fn erase(fields: Fields, name: Seq<char>) -> Fields {
    if has_field(fields, name) {
        fields.remove(position(fields, name))
    } else {
        fields
    }
}

/// The pool identifiers of the values that refer to objects, in table order, one for
/// each such field.
pub open spec fn object_ids(fields: Fields) -> Seq<usize>
    decreases fields.len(),
{
    if fields.len() == 0 {
        Seq::empty()
    } else {
        let rest = object_ids(fields.drop_last());
        match fields.last().1 {
            Value::Object(id) => rest.push(id),
            _ => rest,
        }
    }
}

/// In a table without repeated names a name is found at one place only.
pub proof fn lemma_position_unique(fields: Fields, i: int)
    requires
        distinct_names(fields),
        0 <= i < fields.len(),
    ensures
        has_field(fields, fields[i].0),
        position(fields, fields[i].0) == i,
        lookup(fields, fields[i].0) == Some(fields[i].1),
{
    let name = fields[i].0;
    assert(has_field(fields, name));
    let p = position(fields, name);
    assert(0 <= p < fields.len() && fields[p].0 == name);
    if p < i {
        assert(fields[p].0 != fields[i].0);
    } else if i < p {
        assert(fields[i].0 != fields[p].0);
    }
}

/// Storing a value keeps the names distinct; the name then yields that value, and every
/// other name yields what it did.
pub proof fn lemma_assign(fields: Fields, name: Seq<char>, value: Value, other: Seq<char>)
    requires
        distinct_names(fields),
    ensures
        distinct_names(assign(fields, name, value)),
        lookup(assign(fields, name, value), name) == Some(value),
        other != name ==> lookup(assign(fields, name, value), other) == lookup(fields, other),
{
    let after = assign(fields, name, value);
    if has_field(fields, name) {
        let p = position(fields, name);
        assert(0 <= p < fields.len() && fields[p].0 == name);
        assert(forall|i: int| 0 <= i < fields.len() ==> (#[trigger] after[i]).0 == fields[i].0);
        assert(distinct_names(after)) by {
            assert forall|i: int, j: int| 0 <= i < j < after.len() implies (#[trigger] after[i]).0
                != (#[trigger] after[j]).0 by {
                assert(fields[i].0 != fields[j].0);
            }
        }
        assert(after[p] == (name, value));
        lemma_position_unique(after, p);
        if other != name {
            if has_field(fields, other) {
                let q = position(fields, other);
                assert(0 <= q < fields.len() && fields[q].0 == other);
                assert(q != p);
                assert(after[q] == fields[q]);
                lemma_position_unique(after, q);
                lemma_position_unique(fields, q);
            } else {
                if has_field(after, other) {
                    let q = position(after, other);
                    assert(0 <= q < after.len() && after[q].0 == other);
                    assert(fields[q].0 == other);
                    assert(false);
                }
            }
        }
    } else {
        let n = fields.len() as int;
        assert(after.len() == n + 1);
        assert(after[n] == (name, value));
        assert(forall|i: int| 0 <= i < n ==> (#[trigger] after[i]) == fields[i]);
        assert(distinct_names(after)) by {
            assert forall|i: int, j: int| 0 <= i < j < after.len() implies (#[trigger] after[i]).0
                != (#[trigger] after[j]).0 by {
                if j < n {
                    assert(fields[i].0 != fields[j].0);
                } else {
                    assert(after[i] == fields[i]);
                    if fields[i].0 == name {
                        assert(has_field(fields, name));
                    }
                }
            }
        }
        lemma_position_unique(after, n);
        if other != name {
            if has_field(fields, other) {
                let q = position(fields, other);
                assert(0 <= q < n && fields[q].0 == other);
                assert(after[q] == fields[q]);
                lemma_position_unique(after, q);
                lemma_position_unique(fields, q);
            } else {
                if has_field(after, other) {
                    let q = position(after, other);
                    assert(0 <= q < after.len() && after[q].0 == other);
                    assert(q < n);
                    assert(after[q] == fields[q]);
                    assert(has_field(fields, other));
                    assert(false);
                }
            }
        }
    }
}

/// Removing a field keeps the names distinct; the name then yields nothing, and every
/// other name yields what it did.
pub proof fn lemma_erase(fields: Fields, name: Seq<char>, other: Seq<char>)
    requires
        distinct_names(fields),
    ensures
        distinct_names(erase(fields, name)),
        lookup(erase(fields, name), name) is None,
        other != name ==> lookup(erase(fields, name), other) == lookup(fields, other),
{
    let after = erase(fields, name);
    if has_field(fields, name) {
        let p = position(fields, name);
        assert(0 <= p < fields.len() && fields[p].0 == name);
        assert(after.len() == fields.len() - 1);
        assert(forall|i: int| 0 <= i < p ==> (#[trigger] after[i]) == fields[i]);
        assert(forall|i: int| p <= i < after.len() ==> (#[trigger] after[i]) == fields[i + 1]);
        assert(distinct_names(after)) by {
            assert forall|i: int, j: int| 0 <= i < j < after.len() implies (#[trigger] after[i]).0
                != (#[trigger] after[j]).0 by {
                let si = if i < p { i } else { i + 1 };
                let sj = if j < p { j } else { j + 1 };
                assert(after[i] == fields[si]);
                assert(after[j] == fields[sj]);
                assert(fields[si].0 != fields[sj].0);
            }
        }
        if has_field(after, name) {
            let q = position(after, name);
            assert(0 <= q < after.len() && after[q].0 == name);
            let sq = if q < p { q } else { q + 1 };
            assert(after[q] == fields[sq]);
            lemma_position_unique(fields, sq);
            assert(false);
        }
        if other != name {
            if has_field(fields, other) {
                let q = position(fields, other);
                assert(0 <= q < fields.len() && fields[q].0 == other);
                assert(q != p);
                let tq = if q < p { q } else { q - 1 };
                assert(after[tq] == fields[q]);
                lemma_position_unique(after, tq);
                lemma_position_unique(fields, q);
            } else {
                if has_field(after, other) {
                    let q = position(after, other);
                    assert(0 <= q < after.len() && after[q].0 == other);
                    let sq = if q < p { q } else { q + 1 };
                    assert(after[q] == fields[sq]);
                    assert(has_field(fields, other));
                    assert(false);
                }
            }
        }
    }
}

/// One field of a table.
#[derive(Debug)]
struct Field {
    name: String,
    value: Value,
}

/// The values that a proxy holds by field name.
#[derive(Debug)]
pub struct FieldTable {
    entries: Vec<Field>,
}

impl View for FieldTable {
    type V = Fields;

    closed spec fn view(&self) -> Fields {
        Seq::new(self.entries@.len(), |i: int| (self.entries@[i].name@, self.entries@[i].value))
    }
}

impl FieldTable {
    #[verifier::type_invariant]
    spec fn names_are_distinct(&self) -> bool {
        distinct_names(self@)
    }

    pub fn new() -> (table: FieldTable)
        ensures
            table@ == Seq::<(Seq<char>, Value)>::empty(),
    {
        let table = FieldTable { entries: Vec::new() };
        assert(table@ =~= Seq::<(Seq<char>, Value)>::empty());
        table
    }

    /// States what every table satisfies.
    pub fn names_distinct(&self)
        ensures
            distinct_names(self@),
    {
        proof {
            use_type_invariant(self);
        }
    }

    /// The place of `name` among the entries, if it is there.
    fn find(&self, name: &str) -> (place: Option<usize>)
        ensures
            match place {
                Some(i) => has_field(self@, name@) && i == position(self@, name@),
                None => !has_field(self@, name@),
            },
    {
        proof {
            use_type_invariant(self);
        }
        let mut i: usize = 0;
        while i < self.entries.len()
            invariant
                i <= self.entries@.len(),
                self@.len() == self.entries@.len(),
                distinct_names(self@),
                forall|j: int| 0 <= j < i ==> (#[trigger] self@[j]).0 != name@,
            decreases self.entries@.len() - i,
        {
            if str_eq(self.entries[i].name.as_str(), name) {
                proof {
                    assert(self@[i as int].0 == name@);
                    lemma_position_unique(self@, i as int);
                }
                return Some(i);
            }
            i += 1;
        }
        None
    }

    /// The value held under `name`.
    pub fn get(&self, name: &str) -> (value: Option<Value>)
        ensures
            value == lookup(self@, name@),
    {
        match self.find(name) {
            Some(i) => Some(self.entries[i].value),
            None => None,
        }
    }

    /// Stores `value` under `name`, in place of what the name held.
    pub fn insert(&mut self, name: &str, value: Value)
        ensures
            final(self)@ == assign(old(self)@, name@, value),
    {
        proof {
            use_type_invariant(&*self);
            lemma_assign(self@, name@, value, name@);
        }
        let place = self.find(name);
        let field = Field { name: String::from_str(name), value };
        let ghost before = self@;
        let mut entries: Vec<Field> = Vec::new();
        std::mem::swap(&mut entries, &mut self.entries);
        match place {
            Some(i) => {
                entries.set(i, field);
            },
            None => {
                entries.push(field);
            },
        }
        proof {
            let after = Seq::new(entries@.len(), |i: int| (entries@[i].name@, entries@[i].value));
            assert(after =~= assign(before, name@, value));
        }
        self.entries = entries;
    }

    /// Removes the field of that name, if there is one.
    pub fn remove(&mut self, name: &str)
        ensures
            final(self)@ == erase(old(self)@, name@),
    {
        proof {
            use_type_invariant(&*self);
            lemma_erase(self@, name@, name@);
        }
        let place = self.find(name);
        let ghost before = self@;
        let mut entries: Vec<Field> = Vec::new();
        std::mem::swap(&mut entries, &mut self.entries);
        match place {
            Some(i) => {
                let _ = entries.remove(i);
            },
            None => {},
        }
        proof {
            let after = Seq::new(entries@.len(), |i: int| (entries@[i].name@, entries@[i].value));
            assert(after =~= erase(before, name@));
        }
        self.entries = entries;
    }

    /// The pool identifiers that the table's values refer to.
    pub fn object_ids(&self) -> (ids: Vec<usize>)
        ensures
            ids@ == object_ids(self@),
    {
        let mut ids: Vec<usize> = Vec::new();
        let mut i: usize = 0;
        assert(self@.take(0) =~= Seq::<(Seq<char>, Value)>::empty());
        while i < self.entries.len()
            invariant
                i <= self.entries@.len(),
                self@.len() == self.entries@.len(),
                ids@ == object_ids(self@.take(i as int)),
            decreases self.entries@.len() - i,
        {
            proof {
                let next = self@.take(i as int + 1);
                assert(next.drop_last() =~= self@.take(i as int));
                assert(next.last() == self@[i as int]);
            }
            match self.entries[i].value {
                Value::Object(id) => {
                    ids.push(id);
                },
                _ => {},
            }
            i += 1;
        }
        assert(self@.take(i as int) =~= self@);
        ids
    }
}

/// The names of the fields that are marked const. A name, once in the set, stays.
#[derive(Debug)]
pub struct NameSet {
    names: Vec<String>,
}

impl View for NameSet {
    type V = Set<Seq<char>>;

    closed spec fn view(&self) -> Set<Seq<char>> {
        Set::new(|name: Seq<char>| self.holds(name))
    }
}

impl NameSet {
    spec fn holds(&self, name: Seq<char>) -> bool {
        exists|i: int| 0 <= i < self.names@.len() && (#[trigger] self.names@[i])@ == name
    }

    #[verifier::type_invariant]
    spec fn names_are_distinct(&self) -> bool {
        forall|i: int, j: int|
            0 <= i < j < self.names@.len() ==> (#[trigger] self.names@[i])@ != (
            #[trigger] self.names@[j])@
    }

    pub fn new() -> (set: NameSet)
        ensures
            set@ == Set::<Seq<char>>::empty(),
    {
        let set = NameSet { names: Vec::new() };
        assert(set@ =~= Set::<Seq<char>>::empty());
        set
    }

    pub fn contains(&self, name: &str) -> (found: bool)
        ensures
            found == self@.contains(name@),
    {
        let mut i: usize = 0;
        while i < self.names.len()
            invariant
                i <= self.names@.len(),
                forall|j: int| 0 <= j < i ==> (#[trigger] self.names@[j])@ != name@,
            decreases self.names@.len() - i,
        {
            if str_eq(self.names[i].as_str(), name) {
                assert(self.holds(name@));
                return true;
            }
            i += 1;
        }
        false
    }

    /// Adds `name` to the set.
    pub fn insert(&mut self, name: &str)
        ensures
            final(self)@ == old(self)@.insert(name@),
    {
        proof {
            use_type_invariant(&*self);
        }
        if self.contains(name) {
            assert(self@ =~= self@.insert(name@));
            return ;
        }
        let ghost before = *self;
        let mut names: Vec<String> = Vec::new();
        std::mem::swap(&mut names, &mut self.names);
        names.push(String::from_str(name));
        proof {
            let after = NameSet { names };
            assert forall|n: Seq<char>| after.holds(n) <==> (before.holds(n) || n == name@) by {
                if before.holds(n) {
                    let i = choose|i: int|
                        0 <= i < before.names@.len() && (#[trigger] before.names@[i])@ == n;
                    assert(after.names@[i]@ == n);
                }
                if n == name@ {
                    assert(after.names@[before.names@.len() as int]@ == n);
                }
            }
            assert(after@ =~= before@.insert(name@));
        }
        self.names = names;
    }
}

} // verus!
