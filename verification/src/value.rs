//! Documents: the self-describing values that records are written to and read
//! from.

use vstd::prelude::*;

verus! {

/// A document. An object is a list of entries; where a key occurs more than
/// once, its first entry counts.
#[derive(Debug, PartialEq, Eq)]
pub enum Value {
    Null,
    Bool(bool),
    Int(i128),
    Text(String),
    Array(Vec<Value>),
    Object(Vec<(String, Value)>),
}

/// The model of a document. An object is a map from keys to documents: the
/// order of its entries does not count.
pub enum Data {
    Null,
    Bool(bool),
    Int(int),
    Text(Seq<char>),
    Array(Seq<Data>),
    Object(Map<Seq<char>, Data>),
}

/// The map that a list of entries stands for: each key with the value of its
/// first entry.
pub open spec fn entries_map(entries: Seq<(Seq<char>, Data)>) -> Map<Seq<char>, Data>
    decreases entries.len(),
{
    if entries.len() == 0 {
        Map::empty()
    } else {
        let map = entries_map(entries.drop_last());
        if map.contains_key(entries.last().0) {
            map
        } else {
            map.insert(entries.last().0, entries.last().1)
        }
    }
}

impl View for Value {
    type V = Data;

    open spec fn view(&self) -> Data
        decreases self,
    {
        match self {
            Value::Null => Data::Null,
            Value::Bool(b) => Data::Bool(*b),
            Value::Int(n) => Data::Int(*n as int),
            Value::Text(text) => Data::Text(text@),
            Value::Array(items) => Data::Array(item_views(items@)),
            Value::Object(entries) => Data::Object(entries_map(entry_views(entries@))),
        }
    }
}

/// The models of the items of an array, in order.
pub open spec fn item_views(items: Seq<Value>) -> Seq<Data>
    decreases items,
{
    Seq::new(
        items.len(),
        |i: int|
            if 0 <= i < items.len() {
                items[i].view()
            } else {
                Data::Null
            },
    )
}

/// The models of the entries of an object, in order.
pub open spec fn entry_views(entries: Seq<(String, Value)>) -> Seq<(Seq<char>, Data)>
    decreases entries,
{
    Seq::new(
        entries.len(),
        |i: int|
            if 0 <= i < entries.len() {
                (entries[i].0@, entries[i].1.view())
            } else {
                (Seq::empty(), Data::Null)
            },
    )
}

/// The map that the entries of an object stand for.
pub open spec fn object_map(entries: Seq<(String, Value)>) -> Map<Seq<char>, Data> {
    entries_map(entry_views(entries))
}

/// The object with one more entry at its end: the entry adds its key, unless
/// the object has the key already.
pub open spec fn with_entry(
    object: Map<Seq<char>, Data>,
    key: Seq<char>,
    value: Data,
) -> Map<Seq<char>, Data> {
    if object.contains_key(key) {
        object
    } else {
        object.insert(key, value)
    }
}

/// One more entry at the end adds its key, unless the key is there already.
pub proof fn lemma_entries_push(entries: Seq<(Seq<char>, Data)>, key: Seq<char>, value: Data)
    ensures
        entries_map(entries.push((key, value))) == with_entry(entries_map(entries), key, value),
{
    assert(entries.push((key, value)).drop_last() =~= entries);
}

/// A key is in the map exactly if some entry has it.
pub proof fn lemma_entries_keys(entries: Seq<(Seq<char>, Data)>, key: Seq<char>)
    ensures
        entries_map(entries).contains_key(key) <==> exists|i: int|
            0 <= i < entries.len() && (#[trigger] entries[i]).0 == key,
    decreases entries.len(),
{
    if entries.len() > 0 {
        let front = entries.drop_last();
        lemma_entries_keys(front, key);
        if entries_map(front).contains_key(key) {
            let i = choose|i: int| 0 <= i < front.len() && (#[trigger] front[i]).0 == key;
            assert(entries[i].0 == key);
        } else if entries.last().0 == key {
            assert(entries[entries.len() - 1].0 == key);
        } else {
            if exists|i: int| 0 <= i < entries.len() && (#[trigger] entries[i]).0 == key {
                let i = choose|i: int| 0 <= i < entries.len() && (#[trigger] entries[i]).0 == key;
                assert(front[i].0 == key);
            }
        }
    }
}

/// The first entry with a key gives the key's value.
pub proof fn lemma_entries_first(entries: Seq<(Seq<char>, Data)>, index: int)
    requires
        0 <= index < entries.len(),
        forall|j: int| 0 <= j < index ==> (#[trigger] entries[j]).0 != entries[index].0,
    ensures
        entries_map(entries).contains_key(entries[index].0),
        entries_map(entries)[entries[index].0] == entries[index].1,
    decreases entries.len(),
{
    let front = entries.drop_last();
    let key = entries[index].0;
    if index == entries.len() - 1 {
        lemma_entries_keys(front, key);
        if entries_map(front).contains_key(key) {
            let i = choose|i: int| 0 <= i < front.len() && (#[trigger] front[i]).0 == key;
            assert(entries[i].0 == key);
        }
    } else {
        assert(front[index] == entries[index]);
        assert forall|j: int| 0 <= j < index implies (#[trigger] front[j]).0 != front[index].0 by {
            assert(front[j] == entries[j]);
        }
        lemma_entries_first(front, index);
    }
}

/// In two lists put end to end, the first list's entries come first.
pub proof fn lemma_entries_concat(first: Seq<(Seq<char>, Data)>, second: Seq<(Seq<char>, Data)>)
    ensures
        entries_map(first + second) == entries_map(second).union_prefer_right(entries_map(first)),
    decreases second.len(),
{
    if second.len() == 0 {
        assert(first + second =~= first);
        assert(entries_map(second).union_prefer_right(entries_map(first)) =~= entries_map(first));
    } else {
        let front = second.drop_last();
        lemma_entries_concat(first, front);
        assert((first + second).drop_last() =~= first + front);
        assert((first + second).last() == second.last());
        assert(entries_map(first + second) =~= entries_map(second).union_prefer_right(
            entries_map(first),
        ));
    }
}

/// The value of `key` in an object, if the object has the key.
pub fn find<'a>(entries: &'a Vec<(String, Value)>, key: &str) -> (found: Option<&'a Value>)
    ensures
        match found {
            Some(value) => object_map(entries@).contains_key(key@) && object_map(entries@)[key@]
                == value@,
            None => !object_map(entries@).contains_key(key@),
        },
{
    let wanted = key.to_owned();
    let mut i: usize = 0;
    while i < entries.len()
        invariant
            i <= entries.len(),
            wanted@ == key@,
            forall|j: int| 0 <= j < i ==> (#[trigger] entries@[j]).0@ != key@,
        decreases entries.len() - i,
    {
        if entries[i].0 == wanted {
            proof {
                let views = entry_views(entries@);
                assert forall|j: int| 0 <= j < i implies (#[trigger] views[j]).0 != views[i as int].0 by {
                    assert(entries@[j].0@ != key@);
                }
                lemma_entries_first(views, i as int);
            }
            return Some(&entries[i].1);
        }
        i += 1;
    }
    proof {
        let views = entry_views(entries@);
        lemma_entries_keys(views, key@);
        if exists|j: int| 0 <= j < views.len() && (#[trigger] views[j]).0 == key@ {
            let j = choose|j: int| 0 <= j < views.len() && (#[trigger] views[j]).0 == key@;
            assert(entries@[j].0@ != key@);
        }
    }
    None
}

/// Puts an entry at the end of an object. It adds its key, unless the object
/// has the key already: then the entry that was there stays in force.
pub fn put(entries: &mut Vec<(String, Value)>, key: &str, value: Value)
    ensures
        object_map(final(entries)@) == with_entry(object_map(old(entries)@), key@, value@),
{
    let ghost before = entries@;
    entries.push((key.to_owned(), value));
    proof {
        assert(entry_views(entries@) =~= entry_views(before).push((key@, value@)));
        lemma_entries_push(entry_views(before), key@, value@);
    }
}

/// Puts the entries of `more` behind those of `entries`: where both have a
/// key, the entry that was there stays in force.
pub fn append(entries: &mut Vec<(String, Value)>, more: Vec<(String, Value)>)
    ensures
        object_map(final(entries)@) == object_map(more@).union_prefer_right(
            object_map(old(entries)@),
        ),
{
    let ghost before = entries@;
    let mut more = more;
    let ghost added = more@;
    entries.append(&mut more);
    proof {
        assert(entry_views(entries@) =~= entry_views(before) + entry_views(added));
        lemma_entries_concat(entry_views(before), entry_views(added));
    }
}

} // verus!
