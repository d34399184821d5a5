//! The columns of a mutation, by name.

use vstd::prelude::*;
use crate::datatypes::vectors::{Vector, VectorRef};

verus! {

/// One named column of a mutation.
#[derive(Clone, Debug, PartialEq, Eq)]
pub struct NamedColumn {
    pub name: String,
    pub vector: VectorRef,
}

/// A mapping from column names to column data. No name occurs twice; the
/// order in which the columns were inserted is kept but means nothing.
#[derive(Clone, Debug, PartialEq, Eq)]
pub struct ColumnMap {
    columns: Vec<NamedColumn>,
}

/// The position of the column `name` in `columns`, if it is there.
pub open spec fn position_of(columns: Seq<NamedColumn>, name: Seq<char>) -> Option<int>
    decreases columns.len(),
{
    if columns.len() == 0 {
        None
    } else if columns.last().name@ == name {
        Some(columns.len() - 1)
    } else {
        position_of(columns.drop_last(), name)
    }
}

/// What `position_of` returns is a column of that name, and it returns one
/// whenever there is one.
pub proof fn lemma_position_of(columns: Seq<NamedColumn>, name: Seq<char>)
    ensures
        match position_of(columns, name) {
            Some(i) => 0 <= i < columns.len() && columns[i].name@ == name,
            None => forall|j: int| 0 <= j < columns.len() ==> (#[trigger] columns[j]).name@ != name,
        },
    decreases columns.len(),
{
    if columns.len() > 0 {
        lemma_position_of(columns.drop_last(), name);
        assert(forall|j: int|
            0 <= j < columns.len() - 1 ==> columns.drop_last()[j] == #[trigger] columns[j]);
    }
}

/// Whether no two of `columns` have the same name.
pub open spec fn distinct_columns(columns: Seq<NamedColumn>) -> bool {
    forall|i: int, j: int|
        0 <= i < j < columns.len() ==> (#[trigger] columns[i]).name@ != (#[trigger] columns[j]).name@
}

impl View for ColumnMap {
    type V = Seq<NamedColumn>;

    closed spec fn view(&self) -> Seq<NamedColumn> {
        self.columns@
    }
}

impl ColumnMap {
    /// Whether no name occurs twice. Every mapping that this module hands
    /// out is well formed.
    pub open spec fn well_formed(self) -> bool {
        distinct_columns(self@)
    }

    /// The column `name` of the mapping, if it has one.
    pub open spec fn column(self, name: Seq<char>) -> Option<Vector> {
        match position_of(self@, name) {
            Some(i) => Some(*self@[i].vector),
            None => None,
        }
    }

    /// The empty mapping.
    pub fn new() -> (m: ColumnMap)
        ensures
            m@.len() == 0,
            m.well_formed(),
    {
        ColumnMap { columns: Vec::new() }
    }

    /// The empty mapping, with room for `capacity` columns.
    pub fn with_capacity(capacity: usize) -> (m: ColumnMap)
        ensures
            m@.len() == 0,
            m.well_formed(),
    {
        ColumnMap { columns: Vec::with_capacity(capacity) }
    }

    /// The number of columns.
    pub fn len(&self) -> (n: usize)
        ensures
            n == self@.len(),
    {
        self.columns.len()
    }

    /// The column at `index`, in the order of insertion.
    pub fn get_index(&self, index: usize) -> (c: &NamedColumn)
        requires
            index < self@.len(),
        ensures
            *c == self@[index as int],
    {
        &self.columns[index]
    }

    fn find(&self, name: &String) -> (r: Option<usize>)
        requires
            self.well_formed(),
        ensures
            match r {
                Some(i) => position_of(self@, name@) == Some(i as int) && i < self@.len(),
                None => position_of(self@, name@) is None,
            },
    {
        proof {
            lemma_position_of(self.columns@, name@);
        }
        let mut i: usize = 0;
        while i < self.columns.len()
            invariant
                i <= self.columns.len(),
                distinct_columns(self.columns@),
                forall|j: int| 0 <= j < i ==> (#[trigger] self.columns@[j]).name@ != name@,
            decreases self.columns.len() - i,
        {
            if self.columns[i].name == *name {
                proof {
                    lemma_position_of(self.columns@, name@);
                    let p = position_of(self.columns@, name@).unwrap();
                    if p != i {
                        assert(self.columns@[p].name@ == self.columns@[i as int].name@);
                    }
                }
                return Some(i);
            }
            i += 1;
        }
        None
    }

    /// The data of the column `name`.
    pub fn get(&self, name: &str) -> (r: Option<&VectorRef>)
        requires
            self.well_formed(),
        ensures
            match r {
                Some(v) => self.column(name@) == Some(**v),
                None => self.column(name@) is None,
            },
    {
        let wanted = name.to_string();
        match self.find(&wanted) {
            Some(i) => Some(&self.columns[i].vector),
            None => None,
        }
    }

    /// Sets the column `name` to `vector`, and returns whether the name was
    /// there before. Other columns stay as they are.
    pub fn insert(&mut self, name: String, vector: VectorRef) -> (replaced: bool)
        requires
            old(self).well_formed(),
        ensures
            final(self).well_formed(),
            replaced == (old(self).column(name@) is Some),
            final(self).column(name@) == Some(*vector),
            forall|other: Seq<char>|
                other != name@ ==> final(self).column(other) == old(self).column(other),
            final(self)@.len() == old(self)@.len() + if replaced {
                0int
            } else {
                1int
            },
            !replaced ==> final(self)@ == old(self)@.push(NamedColumn { name, vector }),
    {
        let ghost before = self.columns@;
        let ghost prior = *self;
        match self.find(&name) {
            Some(i) => {
                let ghost key = name@;
                self.columns[i] = NamedColumn { name, vector };
                proof {
                    let after = self.columns@;
                    lemma_position_of(before, key);
                    assert(distinct_columns(after)) by {
                        assert forall|a: int, b: int| 0 <= a < b < after.len() implies (
                        #[trigger] after[a]).name@ != (#[trigger] after[b]).name@ by {
                            assert(after[a].name@ == before[a].name@);
                            assert(after[b].name@ == before[b].name@);
                            assert(before[a].name@ != before[b].name@);
                        }
                    }
                    assert(after == before.update(i as int, after[i as int]));
                    assert forall|other: Seq<char>| #[trigger]
                        position_of(after, other) == position_of(before, other) by {
                        lemma_position_of(after, other);
                        lemma_position_of(before, other);
                        if position_of(after, other) is Some {
                            let a = position_of(after, other).unwrap();
                            assert(before[a].name@ == other);
                            if position_of(before, other) is Some {
                                let b = position_of(before, other).unwrap();
                                if a != b {
                                    assert(before[a].name@ == before[b].name@);
                                }
                            }
                        } else if position_of(before, other) is Some {
                            let b = position_of(before, other).unwrap();
                            assert(after[b].name@ == other);
                        }
                    }
                    assert forall|other: Seq<char>| other != key implies #[trigger] self.column(
                        other,
                    ) == prior.column(other) by {
                        lemma_position_of(before, other);
                        assert(position_of(after, other) == position_of(before, other));
                    }
                }
                true
            },
            None => {
                let ghost key = name@;
                self.columns.push(NamedColumn { name, vector });
                proof {
                    let after = self.columns@;
                    lemma_position_of(before, key);
                    assert(after.drop_last() =~= before);
                    assert(distinct_columns(after));
                    assert forall|other: Seq<char>| other != key implies #[trigger] self.column(
                        other,
                    ) == prior.column(other) by {
                        lemma_position_of(before, other);
                    }
                }
                false
            },
        }
    }
}

} // verus!
