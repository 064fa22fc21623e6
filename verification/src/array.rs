//! Arrays of records.

use vstd::prelude::*;
use crate::error::{Error, ErrorKind, Failure, Step};
use crate::value::{item_views, Data, Value};
use crate::wire::{Wire, WireLaws};

verus! {

/// The models of a list of records, in order.
pub open spec fn models<T: Wire>(records: Seq<T>) -> Seq<T::Model> {
    Seq::new(records.len(), |i: int| records[i].model())
}

/// The documents of a list of records. Where records cannot be written, the
/// failure is that of the first of them, under its index.
pub open spec fn encode_all<T: Wire>(records: Seq<T::Model>) -> Result<Seq<Data>, Failure>
    decreases records.len(),
{
    if records.len() == 0 {
        Ok(Seq::empty())
    } else {
        match encode_all::<T>(records.drop_last()) {
            Err(failure) => Err(failure),
            Ok(front) => match T::encode(records.last()) {
                Err(failure) => Err(failure.under(Step::Index(records.len() - 1))),
                Ok(data) => Ok(front.push(data)),
            },
        }
    }
}

/// The records that a list of documents is read as. Where documents cannot
/// be read, the failure is that of the first of them, under its index.
pub open spec fn decode_all<T: Wire>(items: Seq<Data>) -> Result<Seq<T::Model>, Failure>
    decreases items.len(),
{
    if items.len() == 0 {
        Ok(Seq::empty())
    } else {
        match decode_all::<T>(items.drop_last()) {
            Err(failure) => Err(failure),
            Ok(front) => match T::decode(items.last()) {
                Err(failure) => Err(failure.under(Step::Index(items.len() - 1))),
                Ok(record) => Ok(front.push(record)),
            },
        }
    }
}

/// The array that a list of records is written as.
pub open spec fn encode_array<T: Wire>(records: Seq<T::Model>) -> Result<Data, Failure> {
    match encode_all::<T>(records) {
        Ok(items) => Ok(Data::Array(items)),
        Err(failure) => Err(failure),
    }
}

/// The list of records that an array is read as.
pub open spec fn decode_array<T: Wire>(data: Data) -> Result<Seq<T::Model>, Failure> {
    match data {
        Data::Array(items) => decode_all::<T>(items),
        _ => Err(Failure::root(ErrorKind::SchemaViolation)),
    }
}

/// Reading the documents of a list of records gives the list back.
pub proof fn lemma_all_round_trip<T: WireLaws>(records: Seq<T::Model>)
    requires
        encode_all::<T>(records) is Ok,
    ensures
        encode_all::<T>(records)->Ok_0.len() == records.len(),
        decode_all::<T>(encode_all::<T>(records)->Ok_0) == Ok::<Seq<T::Model>, Failure>(records),
    decreases records.len(),
{
    if records.len() > 0 {
        let front = records.drop_last();
        lemma_all_round_trip::<T>(front);
        T::lemma_round_trip(records.last());
        let items = encode_all::<T>(records)->Ok_0;
        assert(items.drop_last() =~= encode_all::<T>(front)->Ok_0);
        assert(front.push(records.last()) =~= records);
    } else {
        assert(records =~= Seq::empty());
    }
}

/// Writes a list of records as an array.
pub fn write_all<T: Wire>(records: &Vec<T>) -> (written: Result<Value, Error>)
    ensures
        T::lawful() ==> match written {
            Ok(value) => encode_array::<T>(models(records@)) == Ok::<Data, Failure>(value@),
            Err(error) => encode_array::<T>(models(records@)) == Err::<Data, Failure>(error@),
        },
{
    let mut items: Vec<Value> = Vec::new();
    let mut i: usize = 0;
    assert(models(records@).take(0) =~= Seq::<T::Model>::empty());
    assert(item_views(items@) =~= Seq::<Data>::empty());
    while i < records.len()
        invariant
            i <= records.len(),
            T::lawful() ==> encode_all::<T>(models(records@).take(i as int)) == Ok::<
                Seq<Data>,
                Failure,
            >(item_views(items@)),
        decreases records.len() - i,
    {
        let ghost before = item_views(items@);
        let ghost all = models(records@);
        proof {
            assert(all.take(i + 1).drop_last() =~= all.take(i as int));
            assert(all.take(i + 1).last() == records@[i as int].model());
        }
        match records[i].to_value() {
            Ok(value) => {
                items.push(value);
                assert(item_views(items@) =~= before.push(value@));
            },
            Err(error) => {
                proof {
                    if T::lawful() {
                        lemma_failure_stays::<T>(all, i + 1);
                    }
                }
                return Err(error.under_index(i));
            },
        }
        i += 1;
    }
    assert(models(records@).take(i as int) =~= models(records@));
    Ok(Value::Array(items))
}

/// Reads a list of records from an array.
pub fn read_all<T: Wire>(value: &Value) -> (read: Result<Vec<T>, Error>)
    ensures
        T::lawful() ==> match read {
            Ok(records) => decode_array::<T>(value@) == Ok::<Seq<T::Model>, Failure>(
                models(records@),
            ),
            Err(error) => decode_array::<T>(value@) == Err::<Seq<T::Model>, Failure>(error@),
        },
{
    match value {
        Value::Array(items) => {
            let mut records: Vec<T> = Vec::new();
            let mut i: usize = 0;
            assert(item_views(items@).take(0) =~= Seq::<Data>::empty());
            assert(models(records@) =~= Seq::<T::Model>::empty());
            while i < items.len()
                invariant
                    i <= items.len(),
                    value@ == Data::Array(item_views(items@)),
                    T::lawful() ==> decode_all::<T>(item_views(items@).take(i as int)) == Ok::<
                        Seq<T::Model>,
                        Failure,
                    >(models(records@)),
                decreases items.len() - i,
            {
                let ghost before = models(records@);
                let ghost all = item_views(items@);
                proof {
                    assert(all.take(i + 1).drop_last() =~= all.take(i as int));
                    assert(all.take(i + 1).last() == items@[i as int]@);
                }
                match T::from_value(&items[i]) {
                    Ok(record) => {
                        records.push(record);
                        assert(models(records@) =~= before.push(record.model()));
                    },
                    Err(error) => {
                        proof {
                            if T::lawful() {
                                lemma_read_failure_stays::<T>(all, i + 1);
                            }
                        }
                        return Err(error.under_index(i));
                    },
                }
                i += 1;
            }
            assert(item_views(items@).take(i as int) =~= item_views(items@));
            Ok(records)
        },
        _ => Err(Error::new(ErrorKind::SchemaViolation)),
    }
}

/// A failure among the first records is the failure of the whole list.
proof fn lemma_failure_stays<T: Wire>(records: Seq<T::Model>, n: int)
    requires
        0 <= n <= records.len(),
        encode_all::<T>(records.take(n)) is Err,
    ensures
        encode_all::<T>(records) == encode_all::<T>(records.take(n)),
    decreases records.len() - n,
{
    if n < records.len() {
        assert(records.take(n + 1).drop_last() =~= records.take(n));
        lemma_failure_stays::<T>(records, n + 1);
    } else {
        assert(records.take(n) =~= records);
    }
}

/// A failure among the first documents is the failure of the whole list.
proof fn lemma_read_failure_stays<T: Wire>(items: Seq<Data>, n: int)
    requires
        0 <= n <= items.len(),
        decode_all::<T>(items.take(n)) is Err,
    ensures
        decode_all::<T>(items) == decode_all::<T>(items.take(n)),
    decreases items.len() - n,
{
    if n < items.len() {
        assert(items.take(n + 1).drop_last() =~= items.take(n));
        lemma_read_failure_stays::<T>(items, n + 1);
    } else {
        assert(items.take(n) =~= items);
    }
}

} // verus!
