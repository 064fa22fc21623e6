//! Interaction affordances: what a thing offers, and the forms to reach it.

use vstd::prelude::*;
use crate::array::{decode_array, encode_array, lemma_all_round_trip, models, read_all, write_all};
use crate::builder::{Buildable, Builder};
use crate::error::{Error, ErrorKind, Failure};
use crate::fields::{
    lemma_one_or_many,
    optional_text_at,
    optional_text_data,
    optional_text_view,
    optional_text_views,
    optional_texts_at,
    optional_texts_data,
    push_name,
    put_optional_text,
    put_optional_texts,
    read_optional_text,
    read_optional_texts,
    under_key,
    violation_at,
    with_name,
    with_optional,
};
use crate::form::{Form, FormModel};
use crate::hlist::Nil;
use crate::value::{find, object_map, put, Data, Value};
use crate::wire::{
    claims_apart,
    flatten_into,
    lemma_names_concat,
    lemma_restrict_agrees,
    merge,
    name_set,
    Wire,
    WireLaws,
};

verus! {

/// What a property, an action or an event have in common: tags that say what
/// it means, a title, a description, and the forms to reach it. `T` extends
/// the affordance, `F` its forms and `R` their responses.
#[derive(Clone, Debug, PartialEq, Eq)]
pub struct InteractionAffordance<T: Buildable = Nil, F: Buildable = Nil, R: Buildable = Nil> {
    pub attype: Option<Vec<String>>,
    pub title: Option<String>,
    pub description: Option<String>,
    pub forms: Vec<Form<F, R>>,
    pub other: T,
}

/// The model of an `InteractionAffordance`.
pub struct InteractionAffordanceModel<T, F, R> {
    pub attype: Option<Seq<Seq<char>>>,
    pub title: Option<Seq<char>>,
    pub description: Option<Seq<char>>,
    pub forms: Seq<FormModel<F, R>>,
    pub other: T,
}

/// The keys that an affordance claims for itself.
pub open spec fn affordance_keys() -> Set<Seq<char>> {
    set!["@type"@, "title"@, "description"@, "forms"@]
}

/// The keys of an affordance are all different.
pub proof fn lemma_keys_differ()
    ensures
        "@type"@.len() == 5 && "@type"@[0] == '@',
        "title"@.len() == 5 && "title"@[0] == 't',
        "description"@.len() == 11,
        "forms"@.len() == 5 && "forms"@[0] == 'f',
{
    reveal_strlit("@type");
    reveal_strlit("title");
    reveal_strlit("description");
    reveal_strlit("forms");
}

/// The fields that an affordance writes for itself, given the array of its
/// forms.
pub open spec fn own_fields<T, F, R>(
    model: InteractionAffordanceModel<T, F, R>,
    forms: Data,
) -> Map<Seq<char>, Data> {
    let fields = with_optional(Map::empty(), "@type"@, optional_texts_data(model.attype));
    let fields = with_optional(fields, "title"@, optional_text_data(model.title));
    let fields = with_optional(fields, "description"@, optional_text_data(model.description));
    fields.insert("forms"@, forms)
}

/// The names of the keys that an affordance claims for itself.
fn own_names() -> (names: Vec<String>)
    ensures
        name_set(names@) == affordance_keys(),
{
    let mut names: Vec<String> = Vec::new();
    names.push("@type".to_owned());
    names.push("title".to_owned());
    names.push("description".to_owned());
    names.push("forms".to_owned());
    proof {
        assert(names@[0]@ == "@type"@);
        assert(names@[1]@ == "title"@);
        assert(names@[2]@ == "description"@);
        assert(names@[3]@ == "forms"@);
        assert(name_set(names@) =~= affordance_keys());
    }
    names
}

impl<T, F, R> Wire for InteractionAffordance<T, F, R> where
    T: Buildable + Wire,
    F: Buildable + Wire,
    R: Buildable + Wire,
 {
    type Model = InteractionAffordanceModel<T::Model, F::Model, R::Model>;

    open spec fn lawful() -> bool {
        T::lawful() && F::lawful() && R::lawful()
    }

    open spec fn model(&self) -> InteractionAffordanceModel<T::Model, F::Model, R::Model> {
        InteractionAffordanceModel {
            attype: optional_text_views(self.attype),
            title: optional_text_view(self.title),
            description: optional_text_view(self.description),
            forms: models(self.forms@),
            other: self.other.model(),
        }
    }

    open spec fn keys() -> Set<Seq<char>> {
        affordance_keys().union(T::keys())
    }

    /// An affordance is written as one object: its tags as an array, its
    /// title and description, the array of its forms, and the fields of its
    /// extension beside them. What is absent is left out.
    open spec fn encode(
        model: InteractionAffordanceModel<T::Model, F::Model, R::Model>,
    ) -> Result<Data, Failure> {
        if !affordance_keys().disjoint(T::keys()) {
            Err(Failure::root(ErrorKind::KeyCollision))
        } else {
            match under_key(encode_array::<Form<F, R>>(model.forms), "forms"@) {
                Err(failure) => Err(failure),
                Ok(forms) => merge(
                    Ok(Data::Object(own_fields(model, forms))),
                    T::encode(model.other),
                ),
            }
        }
    }

    /// An affordance is read from an object that has an array of forms. The
    /// extension is read from the same object.
    open spec fn decode(data: Data) -> Result<
        InteractionAffordanceModel<T::Model, F::Model, R::Model>,
        Failure,
    > {
        if !affordance_keys().disjoint(T::keys()) {
            Err(Failure::root(ErrorKind::KeyCollision))
        } else {
            match data {
                Data::Object(object) => match optional_texts_at(object, "@type"@) {
                    Err(failure) => Err(failure),
                    Ok(attype) => match optional_text_at(object, "title"@) {
                        Err(failure) => Err(failure),
                        Ok(title) => match optional_text_at(object, "description"@) {
                            Err(failure) => Err(failure),
                            Ok(description) => if !object.contains_key("forms"@) {
                                Err(violation_at("forms"@))
                            } else {
                                match under_key(
                                    decode_array::<Form<F, R>>(object["forms"@]),
                                    "forms"@,
                                ) {
                                    Err(failure) => Err(failure),
                                    Ok(forms) => match T::decode(data) {
                                        Err(failure) => Err(failure),
                                        Ok(other) => Ok(
                                            InteractionAffordanceModel {
                                                attype,
                                                title,
                                                description,
                                                forms,
                                                other,
                                            },
                                        ),
                                    },
                                }
                            },
                        },
                    },
                },
                _ => Err(Failure::root(ErrorKind::SchemaViolation)),
            }
        }
    }

    fn field_names() -> (names: Vec<String>) {
        let mut names = own_names();
        let ghost own = names@;
        let mut more = T::field_names();
        let ghost other = more@;
        names.append(&mut more);
        proof {
            lemma_names_concat(own, other);
        }
        names
    }

    fn to_value(&self) -> (written: Result<Value, Error>) {
        if !claims_apart::<T>(&own_names()) {
            return Err(Error::new(ErrorKind::KeyCollision));
        }
        let forms = match write_all(&self.forms) {
            Ok(forms) => forms,
            Err(error) => {
                return Err(error.under_key("forms"));
            },
        };
        let mut entries: Vec<(String, Value)> = Vec::new();
        proof {
            lemma_keys_differ();
            assert(object_map(entries@) =~= Map::empty());
        }
        put_optional_texts(&mut entries, "@type", &self.attype);
        put_optional_text(&mut entries, "title", &self.title);
        put_optional_text(&mut entries, "description", &self.description);
        put(&mut entries, "forms", forms);
        flatten_into(entries, &self.other)
    }

    fn from_value(value: &Value) -> (read: Result<Self, Error>) {
        if !claims_apart::<T>(&own_names()) {
            return Err(Error::new(ErrorKind::KeyCollision));
        }
        let entries = match value {
            Value::Object(entries) => entries,
            _ => {
                return Err(Error::new(ErrorKind::SchemaViolation));
            },
        };
        let attype = match read_optional_texts(entries, "@type") {
            Ok(attype) => attype,
            Err(error) => {
                return Err(error);
            },
        };
        let title = match read_optional_text(entries, "title") {
            Ok(title) => title,
            Err(error) => {
                return Err(error);
            },
        };
        let description = match read_optional_text(entries, "description") {
            Ok(description) => description,
            Err(error) => {
                return Err(error);
            },
        };
        let forms = match find(entries, "forms") {
            None => {
                return Err(Error::new(ErrorKind::SchemaViolation).under_key("forms"));
            },
            Some(forms) => match read_all::<Form<F, R>>(forms) {
                Ok(forms) => forms,
                Err(error) => {
                    return Err(error.under_key("forms"));
                },
            },
        };
        let other = match T::from_value(value) {
            Ok(other) => other,
            Err(error) => {
                return Err(error);
            },
        };
        Ok(InteractionAffordance { attype, title, description, forms, other })
    }
}

impl<T, F, R> WireLaws for InteractionAffordance<T, F, R> where
    T: Buildable + WireLaws,
    F: Buildable + WireLaws,
    R: Buildable + WireLaws,
 {
    proof fn lemma_lawful() {
        T::lemma_lawful();
        F::lemma_lawful();
        R::lemma_lawful();
    }

    proof fn lemma_round_trip(model: InteractionAffordanceModel<T::Model, F::Model, R::Model>) {
        lemma_keys_differ();
        T::lemma_encode_keys(model.other);
        let forms = encode_array::<Form<F, R>>(model.forms)->Ok_0;
        let own = own_fields(model, forms);
        let other = T::encode(model.other)->Ok_0->Object_0;
        let whole = other.union_prefer_right(own);
        assert(affordance_keys().contains("@type"@) && affordance_keys().contains("title"@));
        assert(affordance_keys().contains("description"@) && affordance_keys().contains("forms"@));
        assert(own.dom().subset_of(affordance_keys()));
        assert(whole.restrict(T::keys()) =~= other.restrict(T::keys()));
        T::lemma_decode_frame(whole, other);
        T::lemma_round_trip(model.other);
        if let Some(texts) = model.attype {
            lemma_one_or_many(Seq::empty(), texts);
        }
        lemma_all_round_trip::<Form<F, R>>(model.forms);
    }

    proof fn lemma_encode_keys(model: InteractionAffordanceModel<T::Model, F::Model, R::Model>) {
        T::lemma_encode_keys(model.other);
    }

    proof fn lemma_decode_frame(a: Map<Seq<char>, Data>, b: Map<Seq<char>, Data>) {
        lemma_restrict_agrees(a, b, Self::keys(), "@type"@);
        lemma_restrict_agrees(a, b, Self::keys(), "title"@);
        lemma_restrict_agrees(a, b, Self::keys(), "description"@);
        lemma_restrict_agrees(a, b, Self::keys(), "forms"@);
        assert(a.restrict(T::keys()) =~= a.restrict(Self::keys()).restrict(T::keys()));
        assert(b.restrict(T::keys()) =~= b.restrict(Self::keys()).restrict(T::keys()));
        T::lemma_decode_frame(a, b);
    }
}

impl<T: Buildable, F: Buildable, R: Buildable> Default for InteractionAffordance<T, F, R> {
    fn default() -> (affordance: Self)
        ensures
            affordance.attype is None,
            affordance.title is None,
            affordance.description is None,
            affordance.forms@.len() == 0,
            call_ensures(T::default, (), affordance.other),
    {
        InteractionAffordance {
            attype: None,
            title: None,
            description: None,
            forms: Vec::new(),
            other: T::default(),
        }
    }
}

/// Builds an `InteractionAffordance`.
pub struct InteractionAffordanceBuilder<T: Builder = Nil, F: Buildable = Nil, R: Buildable = Nil> {
    pub attype: Option<Vec<String>>,
    pub title: Option<String>,
    pub description: Option<String>,
    pub forms: Vec<Form<F, R>>,
    pub other: T,
}

impl<T: Builder, F: Buildable, R: Buildable> Default for InteractionAffordanceBuilder<T, F, R> {
    fn default() -> (builder: Self)
        ensures
            builder.blank(),
            call_ensures(T::default, (), builder.other),
    {
        InteractionAffordanceBuilder {
            attype: None,
            title: None,
            description: None,
            forms: Vec::new(),
            other: T::default(),
        }
    }
}

impl<T: Builder, F: Buildable, R: Buildable> InteractionAffordanceBuilder<T, F, R> {
    /// Nothing but the extension was set.
    pub open spec fn blank(self) -> bool {
        &&& self.attype is None
        &&& self.title is None
        &&& self.description is None
        &&& self.forms@.len() == 0
    }

    /// Adds a tag that says what the affordance means.
    pub fn attype(self, ty: &str) -> (builder: Self)
        ensures
            optional_text_views(builder.attype) == with_name(
                optional_text_views(self.attype),
                ty@,
            ),
            builder == (InteractionAffordanceBuilder { attype: builder.attype, ..self }),
    {
        let InteractionAffordanceBuilder { attype, title, description, forms, other } = self;
        let attype = push_name(attype, ty);
        InteractionAffordanceBuilder { attype, title, description, forms, other }
    }

    /// Sets the title.
    pub fn title(self, title: &str) -> (builder: Self)
        ensures
            optional_text_view(builder.title) == Some(title@),
            builder == (InteractionAffordanceBuilder { title: builder.title, ..self }),
    {
        let mut builder = self;
        builder.title = Some(title.to_owned());
        builder
    }

    /// Sets the description.
    pub fn description(self, description: &str) -> (builder: Self)
        ensures
            optional_text_view(builder.description) == Some(description@),
            builder == (InteractionAffordanceBuilder { description: builder.description, ..self }),
    {
        let mut builder = self;
        builder.description = Some(description.to_owned());
        builder
    }

    /// Adds a form behind those that are there.
    pub fn form(self, form: Form<F, R>) -> (builder: Self)
        ensures
            builder.forms@ == self.forms@.push(form),
            builder == (InteractionAffordanceBuilder { forms: builder.forms, ..self }),
    {
        let mut builder = self;
        builder.forms.push(form);
        builder
    }

    /// What `other` promises: `builder` is this builder but for the
    /// extension, which is a result of `f` on the extension of this one.
    pub open spec fn other_post<G: FnOnce(T) -> T>(self, f: G, builder: Self) -> bool {
        f.ensures((self.other,), builder.other) && builder == (InteractionAffordanceBuilder {
            other: builder.other,
            ..self
        })
    }

    /// Lets `f` work on the builder of the extension and keeps what it returns.
    pub fn other<G: FnOnce(T) -> T>(self, f: G) -> (builder: Self)
        requires
            f.requires((self.other,)),
        ensures
            self.other_post(f, builder),
    {
        let InteractionAffordanceBuilder { attype, title, description, forms, other } = self;
        let other = f(other);
        InteractionAffordanceBuilder { attype, title, description, forms, other }
    }
}

impl<T: Builder, F: Buildable, R: Buildable> Builder for InteractionAffordanceBuilder<
    T,
    F,
    R,
> where T::B: Buildable {
    type B = InteractionAffordance<T::B, F, R>;

    open spec fn built(self) -> InteractionAffordance<T::B, F, R> {
        InteractionAffordance {
            attype: self.attype,
            title: self.title,
            description: self.description,
            forms: self.forms,
            other: self.other.built(),
        }
    }

    fn build(self) -> InteractionAffordance<T::B, F, R> {
        let InteractionAffordanceBuilder { attype, title, description, forms, other } = self;
        let other = other.build();
        InteractionAffordance { attype, title, description, forms, other }
    }
}

impl<T, F, R> Buildable for InteractionAffordance<T, F, R> where
    T: Buildable,
    F: Buildable,
    R: Buildable,
    <T::B as Builder>::B: Buildable,
 {
    type B = InteractionAffordanceBuilder<T::B, F, R>;

    open spec fn fresh(builder: InteractionAffordanceBuilder<T::B, F, R>) -> bool {
        builder.blank() && T::fresh(builder.other)
    }

    fn builder() -> InteractionAffordanceBuilder<T::B, F, R> {
        InteractionAffordanceBuilder {
            attype: None,
            title: None,
            description: None,
            forms: Vec::new(),
            other: T::builder(),
        }
    }
}

/// Building after `other(f)` on a fresh builder gives the affordance whose
/// extension is built from what `f` made of a fresh builder of the extension.
pub proof fn lemma_other_then_build<T, F, R, G>(
    fresh: InteractionAffordanceBuilder<T::B, F, R>,
    f: G,
    changed: InteractionAffordanceBuilder<T::B, F, R>,
) where
    T: Buildable,
    F: Buildable,
    R: Buildable,
    <T::B as Builder>::B: Buildable,
    G: FnOnce(T::B) -> T::B,

    requires
        InteractionAffordance::<T, F, R>::fresh(fresh),
        fresh.other_post(f, changed),
    ensures
        T::fresh(fresh.other),
        f.ensures((fresh.other,), changed.other),
        changed.built().other == changed.other.built(),
        changed.blank(),
{
}

} // verus!
