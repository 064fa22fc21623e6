//! Writing records to documents and reading them back.
//!
//! A record is written as an object. A record that holds another record as an
//! extension writes the extension's fields into its own object, and reads them
//! from there: the extension is flattened. A list cell flattens both its head
//! and its tail, and the empty list adds no field at all.

use vstd::prelude::*;
use crate::error::{Error, ErrorKind, Failure};
use crate::fields::{under_key, with_optional_entry};
use crate::hlist::{Cons, Nil};
use crate::value::{append, find, object_map, put, Data, Value};

verus! {

/// The keys that a list of names holds.
pub open spec fn name_set(names: Seq<String>) -> Set<Seq<char>> {
    Set::new(
        |key: Seq<char>| exists|i: int| 0 <= i < names.len() && (#[trigger] names[i])@ == key,
    )
}

/// `written` is what `expected` asks for: the same document, or the same
/// failure.
pub open spec fn written_as(written: Result<Value, Error>, expected: Result<Data, Failure>) -> bool {
    match written {
        Ok(value) => expected == Ok::<Data, Failure>(value@),
        Err(error) => expected == Err::<Data, Failure>(error@),
    }
}

/// The object of two parts that share it. Where both hold a key, the first
/// part's value stands.
pub open spec fn merge(first: Result<Data, Failure>, second: Result<Data, Failure>) -> Result<
    Data,
    Failure,
> {
    match first {
        Err(failure) => Err(failure),
        Ok(Data::Object(a)) => match second {
            Err(failure) => Err(failure),
            Ok(Data::Object(b)) => Ok(Data::Object(b.union_prefer_right(a))),
            Ok(_) => Err(Failure::root(ErrorKind::NonObjectInFlatten)),
        },
        Ok(_) => Err(Failure::root(ErrorKind::NonObjectInFlatten)),
    }
}

/// A type whose values can be written to a document and read from one.
///
/// The model of the type says what is written and read. An implementation that
/// is not verified leaves `lawful` as it is, and nothing is claimed of it: it
/// may name any type as its model.
pub trait Wire: Sized {
    /// The mathematical model of a value.
    type Model;

    /// Whether the functions below do what the model says.
    open spec fn lawful() -> bool {
        false
    }

    /// The model of this value.
    open spec fn model(&self) -> Self::Model {
        arbitrary()
    }

    /// The keys that this type claims in the object it is read from. A type
    /// that is not read from an object claims none.
    open spec fn keys() -> Set<Seq<char>> {
        Set::empty()
    }

    /// The document that a value is written as.
    open spec fn encode(model: Self::Model) -> Result<Data, Failure> {
        arbitrary()
    }

    /// The value that a document is read as.
    open spec fn decode(data: Data) -> Result<Self::Model, Failure> {
        arbitrary()
    }

    /// The keys that this type claims.
    fn field_names() -> (names: Vec<String>)
        ensures
            Self::lawful() ==> name_set(names@) == Self::keys(),
    ;

    /// Writes the value to a document.
    fn to_value(&self) -> (written: Result<Value, Error>)
        ensures
            Self::lawful() ==> written_as(written, Self::encode(self.model())),
    ;

    /// Reads a value from a document.
    fn from_value(value: &Value) -> (read: Result<Self, Error>)
        ensures
            Self::lawful() ==> match read {
                Ok(record) => Self::decode(value@) == Ok::<Self::Model, Failure>(record.model()),
                Err(error) => Self::decode(value@) == Err::<Self::Model, Failure>(error@),
            },
    ;
}

/// What is proved of a verified implementation of `Wire`.
pub trait WireLaws: Wire {
    /// The implementation does what its model says.
    proof fn lemma_lawful()
        ensures
            Self::lawful(),
    ;

    /// Reading what was written gives the value back.
    proof fn lemma_round_trip(model: Self::Model)
        requires
            Self::encode(model) is Ok,
        ensures
            Self::decode(Self::encode(model)->Ok_0) == Ok::<Self::Model, Failure>(model),
    ;

    /// An object that is written holds claimed keys only.
    proof fn lemma_encode_keys(model: Self::Model)
        ensures
            Self::encode(model) matches Ok(Data::Object(object)) ==> object.dom().subset_of(
                Self::keys(),
            ),
    ;

    /// What is read from an object depends on the claimed keys alone.
    proof fn lemma_decode_frame(a: Map<Seq<char>, Data>, b: Map<Seq<char>, Data>)
        requires
            a.restrict(Self::keys()) == b.restrict(Self::keys()),
        ensures
            Self::decode(Data::Object(a)) == Self::decode(Data::Object(b)),
    ;
}

/// Two objects that agree on a set of keys agree on each key of the set.
pub proof fn lemma_restrict_agrees(
    a: Map<Seq<char>, Data>,
    b: Map<Seq<char>, Data>,
    keys: Set<Seq<char>>,
    key: Seq<char>,
)
    requires
        a.restrict(keys) == b.restrict(keys),
        keys.contains(key),
    ensures
        a.contains_key(key) == b.contains_key(key),
        a.contains_key(key) ==> a[key] == b[key],
{
    assert(a.restrict(keys).contains_key(key) == a.contains_key(key));
    assert(b.restrict(keys).contains_key(key) == b.contains_key(key));
    if a.contains_key(key) {
        assert(a.restrict(keys)[key] == a[key]);
        assert(b.restrict(keys)[key] == b[key]);
    }
}

/// The keys of two lists of names put end to end are those of either list.
pub proof fn lemma_names_concat(first: Seq<String>, second: Seq<String>)
    ensures
        name_set(first + second) == name_set(first).union(name_set(second)),
{
    let names = first + second;
    assert forall|key: Seq<char>|
        name_set(names).contains(key) <==> name_set(first).union(name_set(second)).contains(
            key,
        ) by {
        if name_set(first).contains(key) {
            let i = choose|i: int| 0 <= i < first.len() && (#[trigger] first[i])@ == key;
            assert(names[i]@ == key);
        }
        if name_set(second).contains(key) {
            let i = choose|i: int| 0 <= i < second.len() && (#[trigger] second[i])@ == key;
            assert(names[first.len() + i]@ == key);
        }
        if name_set(names).contains(key) {
            let i = choose|i: int| 0 <= i < names.len() && (#[trigger] names[i])@ == key;
            if i < first.len() {
                assert(first[i]@ == key);
            } else {
                assert(second[i - first.len()]@ == key);
            }
        }
    }
    assert(name_set(names) =~= name_set(first).union(name_set(second)));
}

/// Whether two lists of names have no name in common.
pub fn disjoint(first: &Vec<String>, second: &Vec<String>) -> (apart: bool)
    ensures
        apart == name_set(first@).disjoint(name_set(second@)),
{
    let mut i: usize = 0;
    while i < first.len()
        invariant
            i <= first.len(),
            forall|a: int, b: int|
                0 <= a < i && 0 <= b < second.len() ==> (#[trigger] first@[a])@ != (
                #[trigger] second@[b])@,
        decreases first.len() - i,
    {
        let mut j: usize = 0;
        while j < second.len()
            invariant
                i < first.len(),
                j <= second.len(),
                forall|b: int| 0 <= b < j ==> first@[i as int]@ != (#[trigger] second@[b])@,
            decreases second.len() - j,
        {
            if first[i] == second[j] {
                proof {
                    let key = first@[i as int]@;
                    assert(second@[j as int]@ == key);
                    assert(name_set(first@).contains(key));
                    assert(name_set(second@).contains(key));
                }
                return false;
            }
            j += 1;
        }
        i += 1;
    }
    proof {
        assert forall|key: Seq<char>|
            !(name_set(first@).contains(key) && name_set(second@).contains(key)) by {
            if name_set(first@).contains(key) && name_set(second@).contains(key) {
                let a = choose|a: int| 0 <= a < first@.len() && (#[trigger] first@[a])@ == key;
                let b = choose|b: int| 0 <= b < second@.len() && (#[trigger] second@[b])@ == key;
                assert(first@[a]@ != second@[b]@);
            }
        }
    }
    true
}

/// Whether the names in `own` are all different from the keys that `T` claims.
pub fn claims_apart<T: Wire>(own: &Vec<String>) -> (apart: bool)
    ensures
        T::lawful() ==> apart == name_set(own@).disjoint(T::keys()),
{
    let other = T::field_names();
    disjoint(own, &other)
}

/// Writes an object that holds `entries` and, behind them, the fields that
/// `other` is written as.
pub fn flatten_into<T: Wire>(entries: Vec<(String, Value)>, other: &T) -> (written: Result<
    Value,
    Error,
>)
    ensures
        T::lawful() ==> written_as(
            written,
            merge(Ok(Data::Object(object_map(entries@))), T::encode(other.model())),
        ),
{
    let mut entries = entries;
    let other = match other.to_value() {
        Ok(other) => other,
        Err(error) => {
            return Err(error);
        },
    };
    let more = match other {
        Value::Object(more) => more,
        _ => {
            return Err(Error::new(ErrorKind::NonObjectInFlatten));
        },
    };
    append(&mut entries, more);
    Ok(Value::Object(entries))
}

/// A record in a field that may be missing; null counts as missing.
pub open spec fn optional_record_at<R: Wire>(object: Map<Seq<char>, Data>, key: Seq<char>) -> Result<
    Option<R::Model>,
    Failure,
> {
    if object.contains_key(key) && object[key] !is Null {
        match under_key(R::decode(object[key]), key) {
            Ok(record) => Ok(Some(record)),
            Err(failure) => Err(failure),
        }
    } else {
        Ok(None)
    }
}

/// The document of a record that may be absent.
pub open spec fn optional_record_data<R: Wire>(record: Option<R::Model>, key: Seq<char>) -> Result<
    Option<Data>,
    Failure,
> {
    match record {
        None => Ok(None),
        Some(record) => match under_key(R::encode(record), key) {
            Ok(data) => Ok(Some(data)),
            Err(failure) => Err(failure),
        },
    }
}

/// The model of a record that may be absent.
pub open spec fn optional_model<R: Wire>(record: Option<R>) -> Option<R::Model> {
    match record {
        Some(record) => Some(record.model()),
        None => None,
    }
}

/// Reads a record from a field that may be missing.
pub fn read_optional_record<R: Wire>(entries: &Vec<(String, Value)>, key: &str) -> (read: Result<
    Option<R>,
    Error,
>)
    ensures
        R::lawful() ==> match read {
            Ok(record) => optional_record_at::<R>(object_map(entries@), key@) == Ok::<
                Option<R::Model>,
                Failure,
            >(optional_model(record)),
            Err(error) => optional_record_at::<R>(object_map(entries@), key@) == Err::<
                Option<R::Model>,
                Failure,
            >(error@),
        },
{
    match find(entries, key) {
        None => Ok(None),
        Some(Value::Null) => Ok(None),
        Some(value) => match R::from_value(value) {
            Ok(record) => Ok(Some(record)),
            Err(error) => Err(error.under_key(key)),
        },
    }
}

/// Writes a record that may be absent: the document for its field, if there
/// is a record.
pub fn write_optional_record<R: Wire>(record: &Option<R>, key: &str) -> (written: Result<
    Option<Value>,
    Error,
>)
    ensures
        R::lawful() ==> match written {
            Ok(Some(value)) => optional_record_data::<R>(optional_model(*record), key@) == Ok::<
                Option<Data>,
                Failure,
            >(Some(value@)),
            Ok(None) => optional_record_data::<R>(optional_model(*record), key@) == Ok::<
                Option<Data>,
                Failure,
            >(None),
            Err(error) => optional_record_data::<R>(optional_model(*record), key@) == Err::<
                Option<Data>,
                Failure,
            >(error@),
        },
{
    match record {
        None => Ok(None),
        Some(record) => match record.to_value() {
            Ok(value) => Ok(Some(value)),
            Err(error) => Err(error.under_key(key)),
        },
    }
}

/// Adds a field, if there is a document for it.
pub fn put_optional(entries: &mut Vec<(String, Value)>, key: &str, value: Option<Value>)
    ensures
        object_map(final(entries)@) == with_optional_entry(
            object_map(old(entries)@),
            key@,
            match value {
                Some(value) => Some(value@),
                None => None,
            },
        ),
{
    match value {
        Some(value) => {
            put(entries, key, value);
        },
        None => {},
    }
}

impl Wire for Nil {
    type Model = Nil;

    open spec fn lawful() -> bool {
        true
    }

    open spec fn model(&self) -> Nil {
        Nil
    }

    open spec fn keys() -> Set<Seq<char>> {
        Set::empty()
    }

    /// The empty list is written as the object without fields.
    open spec fn encode(model: Nil) -> Result<Data, Failure> {
        Ok(Data::Object(Map::empty()))
    }

    /// The empty list is read from any object, and looks at none of its fields.
    open spec fn decode(data: Data) -> Result<Nil, Failure> {
        match data {
            Data::Object(_) => Ok(Nil),
            _ => Err(Failure::root(ErrorKind::SchemaViolation)),
        }
    }

    fn field_names() -> (names: Vec<String>) {
        let names: Vec<String> = Vec::new();
        assert(name_set(names@) =~= Set::empty());
        names
    }

    fn to_value(&self) -> (written: Result<Value, Error>) {
        let entries: Vec<(String, Value)> = Vec::new();
        assert(object_map(entries@) =~= Map::empty());
        Ok(Value::Object(entries))
    }

    fn from_value(value: &Value) -> (read: Result<Nil, Error>) {
        match value {
            Value::Object(_) => Ok(Nil),
            _ => Err(Error::new(ErrorKind::SchemaViolation)),
        }
    }
}

impl WireLaws for Nil {
    proof fn lemma_lawful() {
    }

    proof fn lemma_round_trip(model: Nil) {
    }

    proof fn lemma_encode_keys(model: Nil) {
    }

    proof fn lemma_decode_frame(a: Map<Seq<char>, Data>, b: Map<Seq<char>, Data>) {
    }
}

impl<H: Wire, T: Wire> Wire for Cons<H, T> {
    type Model = Cons<H::Model, T::Model>;

    open spec fn lawful() -> bool {
        H::lawful() && T::lawful()
    }

    open spec fn model(&self) -> Cons<H::Model, T::Model> {
        Cons { head: self.head.model(), tail: self.tail.model() }
    }

    open spec fn keys() -> Set<Seq<char>> {
        H::keys().union(T::keys())
    }

    /// A cell is written as one object that holds the fields of its head and
    /// those of its tail. It is not written where head and tail claim a
    /// common key, nor where either is written as something else than an
    /// object.
    open spec fn encode(model: Cons<H::Model, T::Model>) -> Result<Data, Failure> {
        if !H::keys().disjoint(T::keys()) {
            Err(Failure::root(ErrorKind::KeyCollision))
        } else {
            merge(H::encode(model.head), T::encode(model.tail))
        }
    }

    /// A cell is read from an object: head and tail are both read from that
    /// same object, each looking at the fields it knows.
    open spec fn decode(data: Data) -> Result<Cons<H::Model, T::Model>, Failure> {
        if !H::keys().disjoint(T::keys()) {
            Err(Failure::root(ErrorKind::KeyCollision))
        } else if data !is Object {
            Err(Failure::root(ErrorKind::SchemaViolation))
        } else {
            match H::decode(data) {
                Err(failure) => Err(failure),
                Ok(head) => match T::decode(data) {
                    Err(failure) => Err(failure),
                    Ok(tail) => Ok(Cons { head, tail }),
                },
            }
        }
    }

    fn field_names() -> (names: Vec<String>) {
        let mut names = H::field_names();
        let mut more = T::field_names();
        let ghost first = names@;
        let ghost second = more@;
        names.append(&mut more);
        proof {
            lemma_names_concat(first, second);
        }
        names
    }

    fn to_value(&self) -> (written: Result<Value, Error>) {
        if !disjoint(&H::field_names(), &T::field_names()) {
            return Err(Error::new(ErrorKind::KeyCollision));
        }
        let head = match self.head.to_value() {
            Ok(head) => head,
            Err(error) => {
                return Err(error);
            },
        };
        let mut entries = match head {
            Value::Object(entries) => entries,
            _ => {
                return Err(Error::new(ErrorKind::NonObjectInFlatten));
            },
        };
        let tail = match self.tail.to_value() {
            Ok(tail) => tail,
            Err(error) => {
                return Err(error);
            },
        };
        let more = match tail {
            Value::Object(more) => more,
            _ => {
                return Err(Error::new(ErrorKind::NonObjectInFlatten));
            },
        };
        append(&mut entries, more);
        Ok(Value::Object(entries))
    }

    fn from_value(value: &Value) -> (read: Result<Self, Error>) {
        if !disjoint(&H::field_names(), &T::field_names()) {
            return Err(Error::new(ErrorKind::KeyCollision));
        }
        match value {
            Value::Object(_) => {},
            _ => {
                return Err(Error::new(ErrorKind::SchemaViolation));
            },
        }
        let head = match H::from_value(value) {
            Ok(head) => head,
            Err(error) => {
                return Err(error);
            },
        };
        let tail = match T::from_value(value) {
            Ok(tail) => tail,
            Err(error) => {
                return Err(error);
            },
        };
        Ok(Cons { head, tail })
    }
}

impl<H: WireLaws, T: WireLaws> WireLaws for Cons<H, T> {
    proof fn lemma_lawful() {
        H::lemma_lawful();
        T::lemma_lawful();
    }

    proof fn lemma_round_trip(model: Cons<H::Model, T::Model>) {
        H::lemma_encode_keys(model.head);
        T::lemma_encode_keys(model.tail);
        let a = H::encode(model.head)->Ok_0->Object_0;
        let b = T::encode(model.tail)->Ok_0->Object_0;
        let both = b.union_prefer_right(a);
        assert(both.restrict(H::keys()) =~= a.restrict(H::keys()));
        assert(both.restrict(T::keys()) =~= b.restrict(T::keys()));
        H::lemma_decode_frame(both, a);
        T::lemma_decode_frame(both, b);
        H::lemma_round_trip(model.head);
        T::lemma_round_trip(model.tail);
    }

    proof fn lemma_encode_keys(model: Cons<H::Model, T::Model>) {
        H::lemma_encode_keys(model.head);
        T::lemma_encode_keys(model.tail);
    }

    proof fn lemma_decode_frame(a: Map<Seq<char>, Data>, b: Map<Seq<char>, Data>) {
        assert(a.restrict(H::keys()) =~= a.restrict(Self::keys()).restrict(H::keys()));
        assert(b.restrict(H::keys()) =~= b.restrict(Self::keys()).restrict(H::keys()));
        assert(a.restrict(T::keys()) =~= a.restrict(Self::keys()).restrict(T::keys()));
        assert(b.restrict(T::keys()) =~= b.restrict(Self::keys()).restrict(T::keys()));
        H::lemma_decode_frame(a, b);
        T::lemma_decode_frame(a, b);
    }
}

/// A cell whose tail is the empty list reads its head as the head alone would
/// be read, and is written as its head alone would be written, whenever the
/// head is written as an object or not at all.
pub proof fn lemma_unit_identity<X: Wire>(object: Map<Seq<char>, Data>, cell: Cons<X::Model, Nil>)
    requires
        Cons::<X, Nil>::decode(Data::Object(object)) == Ok::<Cons<X::Model, Nil>, Failure>(cell),
        X::encode(cell.head) matches Ok(data) ==> data is Object,
    ensures
        X::decode(Data::Object(object)) == Ok::<X::Model, Failure>(cell.head),
        Cons::<X, Nil>::encode(cell) == X::encode(cell.head),
{
    assert(X::keys().disjoint(Nil::keys()));
    if let Ok(Data::Object(a)) = X::encode(cell.head) {
        assert(Map::<Seq<char>, Data>::empty().union_prefer_right(a) =~= a);
    }
}

/// Where no two of three parts claim a common key, it does not matter how the
/// parts are grouped into cells: the same object is written.
pub proof fn lemma_flatten_associative<A: Wire, B: Wire, C: Wire>(
    a: A::Model,
    b: B::Model,
    c: C::Model,
)
    requires
        A::keys().disjoint(B::keys()),
        A::keys().disjoint(C::keys()),
        B::keys().disjoint(C::keys()),
    ensures
        Cons::<A, Cons<B, C>>::encode(Cons { head: a, tail: Cons { head: b, tail: c } })
            == Cons::<Cons<A, B>, C>::encode(Cons { head: Cons { head: a, tail: b }, tail: c }),
{
    assert(A::keys().disjoint(B::keys().union(C::keys())));
    assert(A::keys().union(B::keys()).disjoint(C::keys()));
    if let Ok(Data::Object(x)) = A::encode(a) {
        if let Ok(Data::Object(y)) = B::encode(b) {
            if let Ok(Data::Object(z)) = C::encode(c) {
                assert(z.union_prefer_right(y).union_prefer_right(x) =~= z.union_prefer_right(
                    y.union_prefer_right(x),
                ));
            }
        }
    }
}

} // verus!
