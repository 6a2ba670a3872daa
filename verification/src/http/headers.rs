//! The header fields of a request: names that occur once each, every name
//! with one value, kept in the order in which the names first came.

use vstd::prelude::*;

verus! {

/// A header field in contracts: the text of its name and of its value.
pub type Field = (Seq<char>, Seq<char>);

/// Whether no name occurs twice among `fields`.
pub open spec fn names_distinct(fields: Seq<Field>) -> bool {
    forall|i: int, j: int| 0 <= i < j < fields.len() ==> fields[i].0 != fields[j].0
}

/// The index of the field named `name`, the last one if there are several.
pub open spec fn find(fields: Seq<Field>, name: Seq<char>) -> Option<int>
    decreases fields.len(),
{
    if fields.len() == 0 {
        None
    } else if fields.last().0 == name {
        Some(fields.len() - 1)
    } else {
        find(fields.drop_last(), name)
    }
}

/// The value of the field named `name`, if there is such a field.
pub open spec fn value_of(fields: Seq<Field>, name: Seq<char>) -> Option<Seq<char>> {
    match find(fields, name) {
        Some(i) => Some(fields[i].1),
        None => None,
    }
}

/// `fields` after `name` has been given `value`: the field of that name is
/// overwritten where it stands, and a new name is added at the end.
pub open spec fn with_field(fields: Seq<Field>, name: Seq<char>, value: Seq<char>) -> Seq<Field> {
    match find(fields, name) {
        Some(i) => fields.update(i, (name, value)),
        None => fields.push((name, value)),
    }
}

/// The fields as a map from name to value.
pub open spec fn as_map(fields: Seq<Field>) -> Map<Seq<char>, Seq<char>> {
    Map::new(
        |name: Seq<char>| find(fields, name) is Some,
        |name: Seq<char>| fields[find(fields, name).unwrap()].1,
    )
}

/// A header field as its line spells it: name, colon, space, value.
pub open spec fn header_text(field: Field) -> Seq<char> {
    field.0 + ": "@ + field.1
}

/// The header lines of `fields` in their order, each with its line end.
pub open spec fn headers_wire(fields: Seq<Field>) -> Seq<char>
    decreases fields.len(),
{
    if fields.len() == 0 {
        Seq::empty()
    } else {
        header_text(fields[0]) + "\r\n"@ + headers_wire(fields.drop_first())
    }
}

/// `find` gives an index of a field of that name, behind which no field has
/// that name, and gives none only if no field has it.
pub proof fn lemma_find(fields: Seq<Field>, name: Seq<char>)
    ensures
        match find(fields, name) {
            Some(i) => {
                &&& 0 <= i < fields.len()
                &&& fields[i].0 == name
                &&& forall|j: int| i < j < fields.len() ==> (#[trigger] fields[j]).0 != name
            },
            None => forall|j: int| 0 <= j < fields.len() ==> (#[trigger] fields[j]).0 != name,
        },
    decreases fields.len(),
{
    if fields.len() > 0 && fields.last().0 != name {
        let front = fields.drop_last();
        lemma_find(front, name);
        assert forall|j: int| 0 <= j < front.len() implies front[j] == fields[j] by {}
        match find(front, name) {
            Some(i) => {
                assert forall|j: int| i < j < fields.len() implies (#[trigger] fields[j]).0
                    != name by {
                    if j < front.len() {
                        assert(front[j] == fields[j]);
                    }
                }
            },
            None => {
                assert forall|j: int| 0 <= j < fields.len() implies (#[trigger] fields[j]).0
                    != name by {
                    if j < front.len() {
                        assert(front[j] == fields[j]);
                    }
                }
            },
        }
    }
}

/// Among distinct names, the field of a given name is found wherever it stands.
pub proof fn lemma_find_distinct(fields: Seq<Field>, name: Seq<char>, i: int)
    requires
        names_distinct(fields),
        0 <= i < fields.len(),
        fields[i].0 == name,
    ensures
        find(fields, name) == Some(i),
{
    lemma_find(fields, name);
}

/// The map of the fields holds a name exactly if the name has a value, and
/// holds that value for it.
pub proof fn lemma_as_map(fields: Seq<Field>, name: Seq<char>)
    ensures
        as_map(fields).dom().contains(name) <==> value_of(fields, name) is Some,
        value_of(fields, name) matches Some(value) ==> as_map(fields)[name] == value,
{
}

/// Giving a name a value keeps the names distinct, makes that value the
/// name's value, and leaves the values of all other names as they were.
pub proof fn lemma_with_field(fields: Seq<Field>, name: Seq<char>, value: Seq<char>)
    requires
        names_distinct(fields),
    ensures
        names_distinct(with_field(fields, name, value)),
        value_of(with_field(fields, name, value), name) == Some(value),
        forall|other: Seq<char>|
            other != name ==> #[trigger] value_of(with_field(fields, name, value), other)
                == value_of(fields, other),
        as_map(with_field(fields, name, value)) == as_map(fields).insert(name, value),
{
    let after = with_field(fields, name, value);
    lemma_find(fields, name);
    assert(names_distinct(after));
    lemma_find(after, name);
    match find(fields, name) {
        Some(i) => {
            lemma_find_distinct(after, name, i);
        },
        None => {},
    }
    assert forall|other: Seq<char>| other != name implies #[trigger] value_of(after, other)
        == value_of(fields, other) by {
        lemma_find(fields, other);
        lemma_find(after, other);
        match find(fields, other) {
            Some(k) => {
                lemma_find_distinct(after, other, k);
            },
            None => {},
        }
    }
    assert forall|other: Seq<char>| #[trigger]
        as_map(after).dom().contains(other) == as_map(fields).insert(name, value).dom().contains(
            other,
        ) by {
        lemma_find(fields, other);
        lemma_find(after, other);
        if other != name {
            assert(value_of(after, other) == value_of(fields, other));
        }
    }
    assert forall|other: Seq<char>| as_map(after).dom().contains(other) implies #[trigger] as_map(
        after,
    )[other] == as_map(fields).insert(name, value)[other] by {
        if other != name {
            assert(value_of(after, other) == value_of(fields, other));
        } else {
            assert(value_of(after, name) == Some(value));
        }
    }
    assert(as_map(after) =~= as_map(fields).insert(name, value));
}

/// Header fields, each name once.
#[derive(Debug)]
pub struct Headers {
    entries: Vec<(String, String)>,
}

impl View for Headers {
    type V = Seq<Field>;

    closed spec fn view(&self) -> Seq<Field> {
        Seq::new(self.entries@.len(), |i: int| (self.entries@[i].0@, self.entries@[i].1@))
    }
}

impl Clone for Headers {
    fn clone(&self) -> (copy: Self)
        ensures
            copy@ == self@,
    {
        proof {
            use_type_invariant(self);
        }
        let mut entries: Vec<(String, String)> = Vec::new();
        let mut i: usize = 0;
        while i < self.entries.len()
            invariant
                i <= self.entries.len(),
                entries@.len() == i,
                forall|k: int|
                    0 <= k < i ==> (entries@[k].0@, entries@[k].1@) == #[trigger] self@[k],
            decreases self.entries.len() - i,
        {
            let name: String = self.entries[i].0.clone();
            let value: String = self.entries[i].1.clone();
            entries.push((name, value));
            i = i + 1;
        }
        let ghost fields = Seq::new(entries@.len(), |k: int| (entries@[k].0@, entries@[k].1@));
        assert(fields =~= self@);
        Headers { entries }
    }
}

impl Headers {
    #[verifier::type_invariant]
    closed spec fn well_formed(&self) -> bool {
        names_distinct(self@)
    }

    /// No fields.
    pub fn new() -> (headers: Self)
        ensures
            headers@ == Seq::<Field>::empty(),
    {
        Headers { entries: Vec::new() }
    }

    /// How many fields there are.
    pub fn len(&self) -> (n: usize)
        ensures
            n == self@.len(),
            names_distinct(self@),
    {
        proof {
            use_type_invariant(self);
        }
        self.entries.len()
    }

    /// These fields after `name` has been given `value`: a field of that
    /// name gets the new value where it stands, a new name is added behind
    /// the others.
    pub fn insert(self, name: String, value: String) -> (headers: Self)
        ensures
            headers@ == with_field(self@, name@, value@),
            names_distinct(headers@),
    {
        proof {
            use_type_invariant(&self);
        }
        let ghost before = self@;
        let mut entries = self.entries;
        let mut i: usize = 0;
        while i < entries.len()
            invariant
                i <= entries.len(),
                entries@.len() == before.len(),
                before == self@,
                names_distinct(before),
                forall|k: int|
                    0 <= k < entries@.len() ==> (entries@[k].0@, entries@[k].1@) == before[k],
                forall|k: int| 0 <= k < i ==> (#[trigger] before[k]).0 != name@,
            decreases entries.len() - i,
        {
            if entries[i].0 == name {
                proof {
                    lemma_find_distinct(before, name@, i as int);
                    lemma_with_field(before, name@, value@);
                }
                entries[i] = (name, value);
                let ghost fields = Seq::new(
                    entries@.len(),
                    |k: int| (entries@[k].0@, entries@[k].1@),
                );
                assert(fields =~= before.update(i as int, (name@, value@)));
                return Headers { entries };
            }
            i = i + 1;
        }
        proof {
            lemma_find(before, name@);
            lemma_with_field(before, name@, value@);
        }
        entries.push((name, value));
        let ghost fields = Seq::new(entries@.len(), |k: int| (entries@[k].0@, entries@[k].1@));
        assert(fields =~= before.push((name@, value@)));
        Headers { entries }
    }

    /// The value of the field named `name`.
    pub fn get(&self, name: &str) -> (value: Option<&str>)
        ensures
            match value {
                Some(v) => value_of(self@, name@) == Some(v@),
                None => value_of(self@, name@) is None,
            },
    {
        proof {
            use_type_invariant(self);
            lemma_find(self@, name@);
        }
        let wanted: String = name.to_owned();
        let mut i: usize = 0;
        while i < self.entries.len()
            invariant
                i <= self.entries.len(),
                wanted@ == name@,
                names_distinct(self@),
                forall|k: int| 0 <= k < i ==> (#[trigger] self@[k]).0 != name@,
            decreases self.entries.len() - i,
        {
            if self.entries[i].0 == wanted {
                proof {
                    lemma_find_distinct(self@, name@, i as int);
                }
                return Some(self.entries[i].1.as_str());
            }
            i = i + 1;
        }
        None
    }

    /// Appends the header lines to `out`, each with its line end.
    pub fn write_to(&self, out: &mut String)
        ensures
            final(out)@ == old(out)@ + headers_wire(self@),
    {
        let ghost total = old(out)@ + headers_wire(self@);
        let mut i: usize = 0;
        assert(self@.skip(0) =~= self@);
        while i < self.entries.len()
            invariant
                i <= self.entries.len(),
                self.entries@.len() == self@.len(),
                out@ + headers_wire(self@.skip(i as int)) == total,
            decreases self.entries.len() - i,
        {
            assert(self@.skip(i as int).drop_first() =~= self@.skip(i + 1));
            out.append(self.entries[i].0.as_str());
            out.append(": ");
            out.append(self.entries[i].1.as_str());
            out.append("\r\n");
            i = i + 1;
        }
    }
}

} // verus!
