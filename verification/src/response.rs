//! The response that a form announces.

use vstd::prelude::*;
use crate::builder::{Buildable, Builder};
use crate::error::{Error, ErrorKind, Failure};
use crate::fields::{flag_at, put_text, read_flag, read_text, text_at};
use crate::hlist::Nil;
use crate::value::{object_map, put, Data, Value};
use crate::wire::{
    claims_apart,
    flatten_into,
    lemma_names_concat,
    lemma_restrict_agrees,
    merge,
    name_set,
    Wire,
    WireLaws,
};

verus! {

/// The response expected on success: its content type and what the protocol
/// binding adds to it.
#[derive(Clone, Debug, PartialEq, Eq)]
pub struct ExpectedResponse<T: Buildable = Nil> {
    pub content_type: String,
    pub other: T,
}

/// A further response that may come, for instance on an error.
#[derive(Clone, Debug, PartialEq, Eq)]
pub struct AdditionalExpectedResponse<T: Buildable = Nil> {
    pub success: bool,
    pub content_type: String,
    pub other: T,
}

/// Builds an `ExpectedResponse`.
pub struct ExpectedResponseBuilder<T: Builder = Nil> {
    pub content_type: String,
    pub other: T,
}

/// Builds an `AdditionalExpectedResponse`.
pub struct AdditionalExpectedResponseBuilder<T: Builder = Nil> {
    pub success: bool,
    pub content_type: String,
    pub other: T,
}

impl<T: Buildable> Default for ExpectedResponse<T> {
    fn default() -> (response: Self)
        ensures
            response.content_type@ == Seq::<char>::empty(),
            call_ensures(T::default, (), response.other),
    {
        ExpectedResponse { content_type: String::new(), other: T::default() }
    }
}

impl<T: Buildable> Default for AdditionalExpectedResponse<T> {
    fn default() -> (response: Self)
        ensures
            !response.success,
            response.content_type@ == Seq::<char>::empty(),
            call_ensures(T::default, (), response.other),
    {
        AdditionalExpectedResponse { success: false, content_type: String::new(), other: T::default() }
    }
}

impl<T: Builder> Default for ExpectedResponseBuilder<T> {
    fn default() -> (builder: Self)
        ensures
            builder.content_type@ == Seq::<char>::empty(),
            call_ensures(T::default, (), builder.other),
    {
        ExpectedResponseBuilder { content_type: String::new(), other: T::default() }
    }
}

impl<T: Builder> Default for AdditionalExpectedResponseBuilder<T> {
    fn default() -> (builder: Self)
        ensures
            !builder.success,
            builder.content_type@ == Seq::<char>::empty(),
            call_ensures(T::default, (), builder.other),
    {
        AdditionalExpectedResponseBuilder {
            success: false,
            content_type: String::new(),
            other: T::default(),
        }
    }
}

impl<T: Builder> ExpectedResponseBuilder<T> {
    /// Sets the content type.
    pub fn content_type(self, ty: &str) -> (builder: Self)
        ensures
            builder.content_type@ == ty@,
            builder.other == self.other,
    {
        ExpectedResponseBuilder { content_type: ty.to_owned(), other: self.other }
    }

    /// What `other` promises: `builder` is this builder but for the
    /// extension, which is a result of `f` on the extension of this one.
    pub open spec fn other_post<F: FnOnce(T) -> T>(self, f: F, builder: Self) -> bool {
        builder.content_type == self.content_type && f.ensures((self.other,), builder.other)
    }

    /// Lets `f` work on the builder of the extension and keeps what it returns.
    pub fn other<F: FnOnce(T) -> T>(self, f: F) -> (builder: Self)
        requires
            f.requires((self.other,)),
        ensures
            self.other_post(f, builder),
    {
        let Self { content_type, other } = self;
        let other = f(other);

        Self { content_type, other }
    }
}

impl<T: Builder> AdditionalExpectedResponseBuilder<T> {
    /// Says whether the response reports success.
    pub fn success(self, success: bool) -> (builder: Self)
        ensures
            builder.success == success,
            builder.content_type == self.content_type,
            builder.other == self.other,
    {
        AdditionalExpectedResponseBuilder {
            success,
            content_type: self.content_type,
            other: self.other,
        }
    }

    /// Sets the content type.
    pub fn content_type(self, ty: &str) -> (builder: Self)
        ensures
            builder.success == self.success,
            builder.content_type@ == ty@,
            builder.other == self.other,
    {
        AdditionalExpectedResponseBuilder {
            success: self.success,
            content_type: ty.to_owned(),
            other: self.other,
        }
    }

    /// What `other` promises: `builder` is this builder but for the
    /// extension, which is a result of `f` on the extension of this one.
    pub open spec fn other_post<F: FnOnce(T) -> T>(self, f: F, builder: Self) -> bool {
        &&& builder.success == self.success
        &&& builder.content_type == self.content_type
        &&& f.ensures((self.other,), builder.other)
    }

    /// Lets `f` work on the builder of the extension and keeps what it returns.
    pub fn other<F: FnOnce(T) -> T>(self, f: F) -> (builder: Self)
        requires
            f.requires((self.other,)),
        ensures
            self.other_post(f, builder),
    {
        let Self { success, content_type, other } = self;
        let other = f(other);

        Self { success, content_type, other }
    }
}

impl<T: Builder> Builder for ExpectedResponseBuilder<T> where T::B: Buildable {
    type B = ExpectedResponse<T::B>;

    open spec fn built(self) -> ExpectedResponse<T::B> {
        ExpectedResponse { content_type: self.content_type, other: self.other.built() }
    }

    fn build(self) -> ExpectedResponse<T::B> {
        let ExpectedResponseBuilder { content_type, other } = self;
        let other = other.build();

        ExpectedResponse { content_type, other }
    }
}

impl<T: Builder> Builder for AdditionalExpectedResponseBuilder<T> where T::B: Buildable {
    type B = AdditionalExpectedResponse<T::B>;

    open spec fn built(self) -> AdditionalExpectedResponse<T::B> {
        AdditionalExpectedResponse {
            success: self.success,
            content_type: self.content_type,
            other: self.other.built(),
        }
    }

    fn build(self) -> AdditionalExpectedResponse<T::B> {
        let AdditionalExpectedResponseBuilder { success, content_type, other } = self;
        let other = other.build();

        AdditionalExpectedResponse { success, content_type, other }
    }
}

impl<T> Buildable for ExpectedResponse<T> where
    T: Buildable,
    <T::B as Builder>::B: Buildable,
 {
    type B = ExpectedResponseBuilder<T::B>;

    open spec fn fresh(builder: ExpectedResponseBuilder<T::B>) -> bool {
        builder.content_type@ == Seq::<char>::empty() && T::fresh(builder.other)
    }

    fn builder() -> ExpectedResponseBuilder<T::B> {
        ExpectedResponseBuilder { content_type: String::new(), other: T::builder() }
    }
}

impl<T> Buildable for AdditionalExpectedResponse<T> where
    T: Buildable,
    <T::B as Builder>::B: Buildable,
 {
    type B = AdditionalExpectedResponseBuilder<T::B>;

    open spec fn fresh(builder: AdditionalExpectedResponseBuilder<T::B>) -> bool {
        &&& !builder.success
        &&& builder.content_type@ == Seq::<char>::empty()
        &&& T::fresh(builder.other)
    }

    fn builder() -> AdditionalExpectedResponseBuilder<T::B> {
        AdditionalExpectedResponseBuilder {
            success: false,
            content_type: String::new(),
            other: T::builder(),
        }
    }
}

/// The model of an `ExpectedResponse`.
pub struct ExpectedResponseModel<M> {
    pub content_type: Seq<char>,
    pub other: M,
}

/// The model of an `AdditionalExpectedResponse`.
pub struct AdditionalExpectedResponseModel<M> {
    pub success: bool,
    pub content_type: Seq<char>,
    pub other: M,
}

/// The keys of the two kinds of response are different.
pub proof fn lemma_keys_differ()
    ensures
        "success"@ != "contentType"@,
{
    reveal_strlit("success");
    reveal_strlit("contentType");
    assert("success"@.len() == 7 && "contentType"@.len() == 11);
}

impl<T: Buildable + Wire> Wire for ExpectedResponse<T> {
    type Model = ExpectedResponseModel<T::Model>;

    open spec fn lawful() -> bool {
        T::lawful()
    }

    open spec fn model(&self) -> ExpectedResponseModel<T::Model> {
        ExpectedResponseModel { content_type: self.content_type@, other: self.other.model() }
    }

    open spec fn keys() -> Set<Seq<char>> {
        set!["contentType"@].union(T::keys())
    }

    /// The response is written as one object: its content type, and the
    /// fields of its extension beside it.
    open spec fn encode(model: ExpectedResponseModel<T::Model>) -> Result<Data, Failure> {
        if !set!["contentType"@].disjoint(T::keys()) {
            Err(Failure::root(ErrorKind::KeyCollision))
        } else {
            merge(
                Ok(Data::Object(Map::empty().insert("contentType"@, Data::Text(model.content_type)))),
                T::encode(model.other),
            )
        }
    }

    /// The response is read from an object that has a content type; the
    /// extension is read from the same object.
    open spec fn decode(data: Data) -> Result<ExpectedResponseModel<T::Model>, Failure> {
        if !set!["contentType"@].disjoint(T::keys()) {
            Err(Failure::root(ErrorKind::KeyCollision))
        } else {
            match data {
                Data::Object(object) => match text_at(object, "contentType"@) {
                    Err(failure) => Err(failure),
                    Ok(content_type) => match T::decode(data) {
                        Err(failure) => Err(failure),
                        Ok(other) => Ok(ExpectedResponseModel { content_type, other }),
                    },
                },
                _ => Err(Failure::root(ErrorKind::SchemaViolation)),
            }
        }
    }

    fn field_names() -> (names: Vec<String>) {
        let mut names: Vec<String> = Vec::new();
        names.push("contentType".to_owned());
        let ghost own = names@;
        let mut more = T::field_names();
        let ghost other = more@;
        names.append(&mut more);
        proof {
            assert(own[0]@ == "contentType"@);
            assert(name_set(own) =~= set!["contentType"@]);
            lemma_names_concat(own, other);
        }
        names
    }

    fn to_value(&self) -> (written: Result<Value, Error>) {
        if !claims_apart::<T>(&own_names()) {
            return Err(Error::new(ErrorKind::KeyCollision));
        }
        let mut entries: Vec<(String, Value)> = Vec::new();
        assert(object_map(entries@) =~= Map::empty());
        put_text(&mut entries, "contentType", &self.content_type);
        flatten_into(entries, &self.other)
    }

    fn from_value(value: &Value) -> (read: Result<Self, Error>) {
        if !claims_apart::<T>(&own_names()) {
            return Err(Error::new(ErrorKind::KeyCollision));
        }
        match value {
            Value::Object(entries) => {
                let content_type = match read_text(entries, "contentType") {
                    Ok(content_type) => content_type,
                    Err(error) => {
                        return Err(error);
                    },
                };
                let other = match T::from_value(value) {
                    Ok(other) => other,
                    Err(error) => {
                        return Err(error);
                    },
                };
                Ok(ExpectedResponse { content_type, other })
            },
            _ => Err(Error::new(ErrorKind::SchemaViolation)),
        }
    }
}

/// The key that an expected response claims for itself.
fn own_names() -> (names: Vec<String>)
    ensures
        name_set(names@) == set!["contentType"@],
{
    let mut names: Vec<String> = Vec::new();
    names.push("contentType".to_owned());
    proof {
        assert(names@[0]@ == "contentType"@);
        assert(name_set(names@) =~= set!["contentType"@]);
    }
    names
}

/// The keys that an additional response claims for itself.
fn own_additional_names() -> (names: Vec<String>)
    ensures
        name_set(names@) == set!["success"@, "contentType"@],
{
    let mut names: Vec<String> = Vec::new();
    names.push("success".to_owned());
    names.push("contentType".to_owned());
    proof {
        assert(names@[0]@ == "success"@);
        assert(names@[1]@ == "contentType"@);
        assert(name_set(names@) =~= set!["success"@, "contentType"@]);
    }
    names
}

impl<T: Buildable + WireLaws> WireLaws for ExpectedResponse<T> {
    proof fn lemma_lawful() {
        T::lemma_lawful();
    }

    proof fn lemma_round_trip(model: ExpectedResponseModel<T::Model>) {
        T::lemma_encode_keys(model.other);
        let own = Map::<Seq<char>, Data>::empty().insert(
            "contentType"@,
            Data::Text(model.content_type),
        );
        let other = T::encode(model.other)->Ok_0->Object_0;
        let whole = other.union_prefer_right(own);
        assert(set!["contentType"@].contains("contentType"@));
        assert(whole.restrict(T::keys()) =~= other.restrict(T::keys()));
        T::lemma_decode_frame(whole, other);
        T::lemma_round_trip(model.other);
    }

    proof fn lemma_encode_keys(model: ExpectedResponseModel<T::Model>) {
        T::lemma_encode_keys(model.other);
    }

    proof fn lemma_decode_frame(a: Map<Seq<char>, Data>, b: Map<Seq<char>, Data>) {
        lemma_restrict_agrees(a, b, Self::keys(), "contentType"@);
        assert(a.restrict(T::keys()) =~= a.restrict(Self::keys()).restrict(T::keys()));
        assert(b.restrict(T::keys()) =~= b.restrict(Self::keys()).restrict(T::keys()));
        T::lemma_decode_frame(a, b);
    }
}

impl<T: Buildable + Wire> Wire for AdditionalExpectedResponse<T> {
    type Model = AdditionalExpectedResponseModel<T::Model>;

    open spec fn lawful() -> bool {
        T::lawful()
    }

    open spec fn model(&self) -> AdditionalExpectedResponseModel<T::Model> {
        AdditionalExpectedResponseModel {
            success: self.success,
            content_type: self.content_type@,
            other: self.other.model(),
        }
    }

    open spec fn keys() -> Set<Seq<char>> {
        set!["success"@, "contentType"@].union(T::keys())
    }

    /// The response is written as one object: whether it reports success, its
    /// content type, and the fields of its extension beside them.
    open spec fn encode(model: AdditionalExpectedResponseModel<T::Model>) -> Result<Data, Failure> {
        if !set!["success"@, "contentType"@].disjoint(T::keys()) {
            Err(Failure::root(ErrorKind::KeyCollision))
        } else {
            merge(
                Ok(
                    Data::Object(
                        Map::empty().insert("success"@, Data::Bool(model.success)).insert(
                            "contentType"@,
                            Data::Text(model.content_type),
                        ),
                    ),
                ),
                T::encode(model.other),
            )
        }
    }

    /// The response is read from an object that has a content type; where it
    /// does not say whether it reports success, it does not. The extension is
    /// read from the same object.
    open spec fn decode(data: Data) -> Result<AdditionalExpectedResponseModel<T::Model>, Failure> {
        if !set!["success"@, "contentType"@].disjoint(T::keys()) {
            Err(Failure::root(ErrorKind::KeyCollision))
        } else {
            match data {
                Data::Object(object) => match flag_at(object, "success"@) {
                    Err(failure) => Err(failure),
                    Ok(success) => match text_at(object, "contentType"@) {
                        Err(failure) => Err(failure),
                        Ok(content_type) => match T::decode(data) {
                            Err(failure) => Err(failure),
                            Ok(other) => Ok(
                                AdditionalExpectedResponseModel { success, content_type, other },
                            ),
                        },
                    },
                },
                _ => Err(Failure::root(ErrorKind::SchemaViolation)),
            }
        }
    }

    fn field_names() -> (names: Vec<String>) {
        let mut names = own_additional_names();
        let ghost own = names@;
        let mut more = T::field_names();
        let ghost other = more@;
        names.append(&mut more);
        proof {
            lemma_names_concat(own, other);
        }
        names
    }

    fn to_value(&self) -> (written: Result<Value, Error>) {
        if !claims_apart::<T>(&own_additional_names()) {
            return Err(Error::new(ErrorKind::KeyCollision));
        }
        let mut entries: Vec<(String, Value)> = Vec::new();
        proof {
            lemma_keys_differ();
            assert(object_map(entries@) =~= Map::empty());
        }
        put(&mut entries, "success", Value::Bool(self.success));
        put_text(&mut entries, "contentType", &self.content_type);
        flatten_into(entries, &self.other)
    }

    fn from_value(value: &Value) -> (read: Result<Self, Error>) {
        if !claims_apart::<T>(&own_additional_names()) {
            return Err(Error::new(ErrorKind::KeyCollision));
        }
        match value {
            Value::Object(entries) => {
                let success = match read_flag(entries, "success") {
                    Ok(success) => success,
                    Err(error) => {
                        return Err(error);
                    },
                };
                let content_type = match read_text(entries, "contentType") {
                    Ok(content_type) => content_type,
                    Err(error) => {
                        return Err(error);
                    },
                };
                let other = match T::from_value(value) {
                    Ok(other) => other,
                    Err(error) => {
                        return Err(error);
                    },
                };
                Ok(AdditionalExpectedResponse { success, content_type, other })
            },
            _ => Err(Error::new(ErrorKind::SchemaViolation)),
        }
    }
}

impl<T: Buildable + WireLaws> WireLaws for AdditionalExpectedResponse<T> {
    proof fn lemma_lawful() {
        T::lemma_lawful();
    }

    proof fn lemma_round_trip(model: AdditionalExpectedResponseModel<T::Model>) {
        lemma_keys_differ();
        T::lemma_encode_keys(model.other);
        let own = Map::<Seq<char>, Data>::empty().insert("success"@, Data::Bool(model.success)).insert(
            "contentType"@,
            Data::Text(model.content_type),
        );
        let other = T::encode(model.other)->Ok_0->Object_0;
        let whole = other.union_prefer_right(own);
        assert(set!["success"@, "contentType"@].contains("contentType"@));
        assert(set!["success"@, "contentType"@].contains("success"@));
        assert(whole.restrict(T::keys()) =~= other.restrict(T::keys()));
        T::lemma_decode_frame(whole, other);
        T::lemma_round_trip(model.other);
    }

    proof fn lemma_encode_keys(model: AdditionalExpectedResponseModel<T::Model>) {
        T::lemma_encode_keys(model.other);
    }

    proof fn lemma_decode_frame(a: Map<Seq<char>, Data>, b: Map<Seq<char>, Data>) {
        lemma_restrict_agrees(a, b, Self::keys(), "success"@);
        lemma_restrict_agrees(a, b, Self::keys(), "contentType"@);
        assert(a.restrict(T::keys()) =~= a.restrict(Self::keys()).restrict(T::keys()));
        assert(b.restrict(T::keys()) =~= b.restrict(Self::keys()).restrict(T::keys()));
        T::lemma_decode_frame(a, b);
    }
}

/// Building after `other(f)` on a fresh builder gives the response whose
/// extension is built from what `f` made of a fresh builder of the extension.
pub proof fn lemma_other_then_build<T, F>(
    fresh: ExpectedResponseBuilder<T::B>,
    f: F,
    changed: ExpectedResponseBuilder<T::B>,
) where T: Buildable, <T::B as Builder>::B: Buildable, F: FnOnce(T::B) -> T::B
    requires
        ExpectedResponse::<T>::fresh(fresh),
        fresh.other_post(f, changed),
    ensures
        T::fresh(fresh.other),
        f.ensures((fresh.other,), changed.other),
        changed.built() == (ExpectedResponse {
            content_type: fresh.content_type,
            other: changed.other.built(),
        }),
{
}

/// Building after `other(f)` on a fresh builder gives the additional response
/// whose extension is built from what `f` made of a fresh builder of the
/// extension.
pub proof fn lemma_additional_other_then_build<T, F>(
    fresh: AdditionalExpectedResponseBuilder<T::B>,
    f: F,
    changed: AdditionalExpectedResponseBuilder<T::B>,
) where T: Buildable, <T::B as Builder>::B: Buildable, F: FnOnce(T::B) -> T::B
    requires
        AdditionalExpectedResponse::<T>::fresh(fresh),
        fresh.other_post(f, changed),
    ensures
        T::fresh(fresh.other),
        f.ensures((fresh.other,), changed.other),
        changed.built() == (AdditionalExpectedResponse {
            success: false,
            content_type: fresh.content_type,
            other: changed.other.built(),
        }),
{
}

} // verus!
