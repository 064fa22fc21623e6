//! Reading and writing the fields of an object, one typed field at a time.

use vstd::prelude::*;
use crate::error::{Error, ErrorKind, Failure, Step};
use crate::value::{find, item_views, object_map, put, with_entry, Data, Value};

verus! {

/// The failure of a field that is missing or has the wrong shape.
pub open spec fn violation_at(key: Seq<char>) -> Failure {
    Failure::root(ErrorKind::SchemaViolation).under(Step::Key(key))
}

/// A failure inside the field `key`, seen from the object that holds it.
pub open spec fn under_key<A>(result: Result<A, Failure>, key: Seq<char>) -> Result<A, Failure> {
    match result {
        Ok(a) => Ok(a),
        Err(failure) => Err(failure.under(Step::Key(key))),
    }
}

/// The texts that a list of strings holds.
pub open spec fn text_views(texts: Seq<String>) -> Seq<Seq<char>> {
    Seq::new(texts.len(), |i: int| texts[i]@)
}

/// The model of a list of strings that may be absent.
pub open spec fn optional_text_views(texts: Option<Vec<String>>) -> Option<Seq<Seq<char>>> {
    match texts {
        Some(texts) => Some(text_views(texts@)),
        None => None,
    }
}

/// The model of a string that may be absent.
pub open spec fn optional_text_view(text: Option<String>) -> Option<Seq<char>> {
    match text {
        Some(text) => Some(text@),
        None => None,
    }
}

/// A required text.
pub open spec fn text_at(object: Map<Seq<char>, Data>, key: Seq<char>) -> Result<
    Seq<char>,
    Failure,
> {
    if object.contains_key(key) {
        match object[key] {
            Data::Text(text) => Ok(text),
            _ => Err(violation_at(key)),
        }
    } else {
        Err(violation_at(key))
    }
}

/// A text that stands for `default` where the key is missing.
pub open spec fn text_or_at(
    object: Map<Seq<char>, Data>,
    key: Seq<char>,
    default: Seq<char>,
) -> Result<Seq<char>, Failure> {
    if object.contains_key(key) {
        match object[key] {
            Data::Text(text) => Ok(text),
            _ => Err(violation_at(key)),
        }
    } else {
        Ok(default)
    }
}

/// A text that may be missing; null counts as missing.
pub open spec fn optional_text_at(object: Map<Seq<char>, Data>, key: Seq<char>) -> Result<
    Option<Seq<char>>,
    Failure,
> {
    if object.contains_key(key) {
        match object[key] {
            Data::Text(text) => Ok(Some(text)),
            Data::Null => Ok(None),
            _ => Err(violation_at(key)),
        }
    } else {
        Ok(None)
    }
}

/// A truth value that is false where the key is missing.
pub open spec fn flag_at(object: Map<Seq<char>, Data>, key: Seq<char>) -> Result<bool, Failure> {
    if object.contains_key(key) {
        match object[key] {
            Data::Bool(flag) => Ok(flag),
            _ => Err(violation_at(key)),
        }
    } else {
        Ok(false)
    }
}

/// A count that may be missing; null counts as missing. A number that is
/// negative or does not fit the machine has the wrong shape.
pub open spec fn optional_count_at(object: Map<Seq<char>, Data>, key: Seq<char>) -> Result<
    Option<usize>,
    Failure,
> {
    if object.contains_key(key) {
        match object[key] {
            Data::Int(n) => if 0 <= n <= usize::MAX {
                Ok(Some(n as usize))
            } else {
                Err(violation_at(key))
            },
            Data::Null => Ok(None),
            _ => Err(violation_at(key)),
        }
    } else {
        Ok(None)
    }
}

/// Whether every item is a text.
pub open spec fn all_text(items: Seq<Data>) -> bool {
    forall|i: int| 0 <= i < items.len() ==> (#[trigger] items[i]) is Text
}

/// The texts of items that are all texts.
pub open spec fn texts_of(items: Seq<Data>) -> Seq<Seq<char>> {
    Seq::new(items.len(), |i: int| items[i]->Text_0)
}

/// One text or several: a single text stands for the list that holds it
/// alone.
pub open spec fn one_or_many(data: Data) -> Result<Seq<Seq<char>>, Failure> {
    match data {
        Data::Text(text) => Ok(seq![text]),
        Data::Array(items) => if all_text(items) {
            Ok(texts_of(items))
        } else {
            Err(Failure::root(ErrorKind::OneOrManyInvalid))
        },
        _ => Err(Failure::root(ErrorKind::OneOrManyInvalid)),
    }
}

/// One text or several that may be missing; null counts as missing.
pub open spec fn optional_texts_at(object: Map<Seq<char>, Data>, key: Seq<char>) -> Result<
    Option<Seq<Seq<char>>>,
    Failure,
> {
    if object.contains_key(key) && object[key] !is Null {
        match under_key(one_or_many(object[key]), key) {
            Ok(texts) => Ok(Some(texts)),
            Err(failure) => Err(failure),
        }
    } else {
        Ok(None)
    }
}

/// The array that a list of texts is written as.
pub open spec fn text_array(texts: Seq<Seq<char>>) -> Data {
    Data::Array(Seq::new(texts.len(), |i: int| Data::Text(texts[i])))
}

/// The object with one more field, if there is a value for it.
pub open spec fn with_optional(
    object: Map<Seq<char>, Data>,
    key: Seq<char>,
    value: Option<Data>,
) -> Map<Seq<char>, Data> {
    match value {
        Some(value) => object.insert(key, value),
        None => object,
    }
}

/// The object with one more entry at its end, if there is a value for it.
pub open spec fn with_optional_entry(
    object: Map<Seq<char>, Data>,
    key: Seq<char>,
    value: Option<Data>,
) -> Map<Seq<char>, Data> {
    match value {
        Some(value) => with_entry(object, key, value),
        None => object,
    }
}

/// The document of a text that may be absent.
pub open spec fn optional_text_data(text: Option<Seq<char>>) -> Option<Data> {
    match text {
        Some(text) => Some(Data::Text(text)),
        None => None,
    }
}

/// The document of a list of texts that may be absent.
pub open spec fn optional_texts_data(texts: Option<Seq<Seq<char>>>) -> Option<Data> {
    match texts {
        Some(texts) => Some(text_array(texts)),
        None => None,
    }
}

/// The document of a text that may be absent, where absence is written as
/// null.
pub open spec fn text_or_null(text: Option<Seq<char>>) -> Data {
    match text {
        Some(text) => Data::Text(text),
        None => Data::Null,
    }
}

/// The document of a count that may be absent, where absence is written as
/// null.
pub open spec fn count_or_null(count: Option<usize>) -> Data {
    match count {
        Some(count) => Data::Int(count as int),
        None => Data::Null,
    }
}

/// A single text and the array that holds it alone are read as the same list,
/// and a list is written as an array, from which it is read back.
pub proof fn lemma_one_or_many(text: Seq<char>, texts: Seq<Seq<char>>)
    ensures
        one_or_many(Data::Text(text)) == one_or_many(Data::Array(seq![Data::Text(text)])),
        one_or_many(Data::Text(text)) == Ok::<Seq<Seq<char>>, Failure>(seq![text]),
        text_array(texts) is Array,
        one_or_many(text_array(texts)) == Ok::<Seq<Seq<char>>, Failure>(texts),
{
    assert(all_text(seq![Data::Text(text)]));
    assert(texts_of(seq![Data::Text(text)]) =~= seq![text]);
    let items = text_array(texts)->Array_0;
    assert(all_text(items));
    assert(texts_of(items) =~= texts);
}

/// Whether a string holds the given text.
pub fn same_text(text: &String, wanted: &str) -> (same: bool)
    ensures
        same == (text@ == wanted@),
{
    let wanted = wanted.to_owned();
    *text == wanted
}

/// Reads a required text.
pub fn read_text(entries: &Vec<(String, Value)>, key: &str) -> (read: Result<String, Error>)
    ensures
        match read {
            Ok(text) => text_at(object_map(entries@), key@) == Ok::<Seq<char>, Failure>(text@),
            Err(error) => text_at(object_map(entries@), key@) == Err::<Seq<char>, Failure>(error@),
        },
{
    match find(entries, key) {
        Some(Value::Text(text)) => Ok(text.clone()),
        _ => Err(Error::new(ErrorKind::SchemaViolation).under_key(key)),
    }
}

/// Reads a text that stands for `default` where the key is missing.
pub fn read_text_or(entries: &Vec<(String, Value)>, key: &str, default: &str) -> (read: Result<
    String,
    Error,
>)
    ensures
        match read {
            Ok(text) => text_or_at(object_map(entries@), key@, default@) == Ok::<
                Seq<char>,
                Failure,
            >(text@),
            Err(error) => text_or_at(object_map(entries@), key@, default@) == Err::<
                Seq<char>,
                Failure,
            >(error@),
        },
{
    match find(entries, key) {
        Some(Value::Text(text)) => Ok(text.clone()),
        Some(_) => Err(Error::new(ErrorKind::SchemaViolation).under_key(key)),
        None => Ok(default.to_owned()),
    }
}

/// Reads a text that may be missing.
pub fn read_optional_text(entries: &Vec<(String, Value)>, key: &str) -> (read: Result<
    Option<String>,
    Error,
>)
    ensures
        match read {
            Ok(text) => optional_text_at(object_map(entries@), key@) == Ok::<
                Option<Seq<char>>,
                Failure,
            >(optional_text_view(text)),
            Err(error) => optional_text_at(object_map(entries@), key@) == Err::<
                Option<Seq<char>>,
                Failure,
            >(error@),
        },
{
    match find(entries, key) {
        Some(Value::Text(text)) => Ok(Some(text.clone())),
        Some(Value::Null) => Ok(None),
        Some(_) => Err(Error::new(ErrorKind::SchemaViolation).under_key(key)),
        None => Ok(None),
    }
}

/// Reads a truth value that is false where the key is missing.
pub fn read_flag(entries: &Vec<(String, Value)>, key: &str) -> (read: Result<bool, Error>)
    ensures
        match read {
            Ok(flag) => flag_at(object_map(entries@), key@) == Ok::<bool, Failure>(flag),
            Err(error) => flag_at(object_map(entries@), key@) == Err::<bool, Failure>(error@),
        },
{
    match find(entries, key) {
        Some(Value::Bool(flag)) => Ok(*flag),
        Some(_) => Err(Error::new(ErrorKind::SchemaViolation).under_key(key)),
        None => Ok(false),
    }
}

/// Reads a count that may be missing.
pub fn read_optional_count(entries: &Vec<(String, Value)>, key: &str) -> (read: Result<
    Option<usize>,
    Error,
>)
    ensures
        match read {
            Ok(count) => optional_count_at(object_map(entries@), key@) == Ok::<
                Option<usize>,
                Failure,
            >(count),
            Err(error) => optional_count_at(object_map(entries@), key@) == Err::<
                Option<usize>,
                Failure,
            >(error@),
        },
{
    match find(entries, key) {
        Some(Value::Int(n)) => {
            if 0 <= *n && *n <= usize::MAX as i128 {
                Ok(Some(*n as usize))
            } else {
                Err(Error::new(ErrorKind::SchemaViolation).under_key(key))
            }
        },
        Some(Value::Null) => Ok(None),
        Some(_) => Err(Error::new(ErrorKind::SchemaViolation).under_key(key)),
        None => Ok(None),
    }
}

/// Reads one text or several.
pub fn read_one_or_many(value: &Value) -> (read: Result<Vec<String>, Error>)
    ensures
        match read {
            Ok(texts) => one_or_many(value@) == Ok::<Seq<Seq<char>>, Failure>(text_views(texts@)),
            Err(error) => one_or_many(value@) == Err::<Seq<Seq<char>>, Failure>(error@),
        },
{
    match value {
        Value::Text(text) => {
            let mut texts: Vec<String> = Vec::new();
            texts.push(text.clone());
            assert(text_views(texts@) =~= seq![text@]);
            Ok(texts)
        },
        Value::Array(items) => {
            let mut texts: Vec<String> = Vec::new();
            let mut i: usize = 0;
            while i < items.len()
                invariant
                    i <= items.len(),
                    texts.len() == i,
                    value@ == Data::Array(item_views(items@)),
                    forall|j: int| 0 <= j < i ==> (#[trigger] items@[j]@) == Data::Text(texts@[j]@),
                decreases items.len() - i,
            {
                match &items[i] {
                    Value::Text(text) => {
                        texts.push(text.clone());
                    },
                    _ => {
                        proof {
                            assert(item_views(items@)[i as int] == items@[i as int]@);
                            assert(!all_text(item_views(items@)));
                        }
                        return Err(Error::new(ErrorKind::OneOrManyInvalid));
                    },
                }
                i += 1;
            }
            proof {
                let views = item_views(items@);
                assert forall|j: int| 0 <= j < views.len() implies (#[trigger] views[j]) is Text by {
                    assert(items@[j]@ == Data::Text(texts@[j]@));
                }
                assert forall|j: int| 0 <= j < views.len() implies texts_of(views)[j] == text_views(
                    texts@,
                )[j] by {
                    assert(items@[j]@ == Data::Text(texts@[j]@));
                }
                assert(texts_of(views) =~= text_views(texts@));
            }
            Ok(texts)
        },
        _ => Err(Error::new(ErrorKind::OneOrManyInvalid)),
    }
}

/// Reads one text or several that may be missing.
pub fn read_optional_texts(entries: &Vec<(String, Value)>, key: &str) -> (read: Result<
    Option<Vec<String>>,
    Error,
>)
    ensures
        match read {
            Ok(texts) => optional_texts_at(object_map(entries@), key@) == Ok::<
                Option<Seq<Seq<char>>>,
                Failure,
            >(optional_text_views(texts)),
            Err(error) => optional_texts_at(object_map(entries@), key@) == Err::<
                Option<Seq<Seq<char>>>,
                Failure,
            >(error@),
        },
{
    match find(entries, key) {
        None => Ok(None),
        Some(Value::Null) => Ok(None),
        Some(value) => match read_one_or_many(value) {
            Ok(texts) => Ok(Some(texts)),
            Err(error) => Err(error.under_key(key)),
        },
    }
}

/// The array that a list of texts is written as.
pub fn write_texts(texts: &Vec<String>) -> (array: Value)
    ensures
        array@ == text_array(text_views(texts@)),
{
    let mut items: Vec<Value> = Vec::new();
    let mut i: usize = 0;
    while i < texts.len()
        invariant
            i <= texts.len(),
            items.len() == i,
            forall|j: int| 0 <= j < i ==> (#[trigger] items@[j]@) == Data::Text(texts@[j]@),
        decreases texts.len() - i,
    {
        items.push(Value::Text(texts[i].clone()));
        i += 1;
    }
    proof {
        let expected = text_array(text_views(texts@))->Array_0;
        assert forall|j: int| 0 <= j < expected.len() implies item_views(items@)[j]
            == expected[j] by {
            assert(items@[j]@ == Data::Text(texts@[j]@));
        }
        assert(item_views(items@) =~= expected);
    }
    Value::Array(items)
}

/// Adds a text field.
pub fn put_text(entries: &mut Vec<(String, Value)>, key: &str, text: &String)
    ensures
        object_map(final(entries)@) == with_entry(object_map(old(entries)@), key@, Data::Text(text@)),
{
    put(entries, key, Value::Text(text.clone()));
}

/// Adds a text field, if there is a text.
pub fn put_optional_text(entries: &mut Vec<(String, Value)>, key: &str, text: &Option<String>)
    ensures
        object_map(final(entries)@) == with_optional_entry(
            object_map(old(entries)@),
            key@,
            optional_text_data(optional_text_view(*text)),
        ),
{
    match text {
        Some(text) => {
            put(entries, key, Value::Text(text.clone()));
        },
        None => {},
    }
}

/// Adds a field that holds a list of texts, if there is a list.
pub fn put_optional_texts(
    entries: &mut Vec<(String, Value)>,
    key: &str,
    texts: &Option<Vec<String>>,
)
    ensures
        object_map(final(entries)@) == with_optional_entry(
            object_map(old(entries)@),
            key@,
            optional_texts_data(optional_text_views(*texts)),
        ),
{
    match texts {
        Some(texts) => {
            put(entries, key, write_texts(texts));
        },
        None => {},
    }
}

/// Adds a text field; an absent text is written as null.
pub fn put_text_or_null(entries: &mut Vec<(String, Value)>, key: &str, text: &Option<String>)
    ensures
        object_map(final(entries)@) == with_entry(
            object_map(old(entries)@),
            key@,
            text_or_null(optional_text_view(*text)),
        ),
{
    match text {
        Some(text) => {
            put(entries, key, Value::Text(text.clone()));
        },
        None => {
            put(entries, key, Value::Null);
        },
    }
}

/// Adds a count field; an absent count is written as null.
pub fn put_count_or_null(entries: &mut Vec<(String, Value)>, key: &str, count: Option<usize>)
    ensures
        object_map(final(entries)@) == with_entry(
            object_map(old(entries)@),
            key@,
            count_or_null(count),
        ),
{
    match count {
        Some(count) => {
            put(entries, key, Value::Int(count as i128));
        },
        None => {
            put(entries, key, Value::Null);
        },
    }
}

/// The list with one more name at its end; an absent list counts as empty.
pub open spec fn with_name(names: Option<Seq<Seq<char>>>, name: Seq<char>) -> Option<
    Seq<Seq<char>>,
> {
    match names {
        Some(names) => Some(names.push(name)),
        None => Some(seq![name]),
    }
}

/// Adds a name at the end of a list that may be absent.
pub fn push_name(names: Option<Vec<String>>, name: &str) -> (longer: Option<Vec<String>>)
    ensures
        optional_text_views(longer) == with_name(optional_text_views(names), name@),
{
    let mut list = match names {
        Some(list) => list,
        None => Vec::new(),
    };
    let ghost before = list@;
    list.push(name.to_owned());
    proof {
        assert(text_views(list@) =~= text_views(before).push(name@));
        assert(text_views(Seq::<String>::empty()).push(name@) =~= seq![name@]);
    }
    Some(list)
}

} // verus!
