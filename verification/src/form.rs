//! Forms: how an operation on a thing is carried out.

use vstd::prelude::*;
use crate::builder::{Buildable, Builder};
use crate::error::{Error, ErrorKind, Failure, Step};
use crate::fields::{
    lemma_one_or_many,
    one_or_many,
    optional_text_at,
    optional_text_data,
    optional_text_view,
    optional_text_views,
    optional_texts_at,
    optional_texts_data,
    push_name,
    put_optional_text,
    put_optional_texts,
    put_text,
    read_one_or_many,
    read_optional_text,
    read_optional_texts,
    read_text,
    read_text_or,
    same_text,
    text_array,
    text_at,
    text_or_at,
    text_views,
    with_name,
    with_optional,
    write_texts,
};
use crate::hlist::Nil;
use crate::response::{
    AdditionalExpectedResponse,
    AdditionalExpectedResponseModel,
    ExpectedResponse,
    ExpectedResponseModel,
};
use crate::value::{find, object_map, Data, Value};
use crate::wire::{
    claims_apart,
    flatten_into,
    lemma_names_concat,
    lemma_restrict_agrees,
    merge,
    name_set,
    optional_model,
    optional_record_at,
    optional_record_data,
    put_optional,
    read_optional_record,
    write_optional_record,
    Wire,
    WireLaws,
};

verus! {

/// An operation that a form can stand for.
#[derive(Debug, Clone, Copy, PartialEq, Eq, Structural)]
pub enum FormOperation {
    ReadProperty,
    WriteProperty,
    ObserveProperty,
    UnobserveProperty,
    InvokeAction,
    QueryAction,
    CancelAction,
    SubscribeEvent,
    UnsubscribeEvent,
    ReadAllProperties,
    WriteAllProperties,
    ReadMultipleProperties,
    WriteMultipleProperties,
    ObserveAllProperties,
    UnobserveAllProperties,
    QueryAllActions,
    SubscribeAllEvents,
    UnsubscribeAllEvents,
}

/// The operations of a form: those that its place in the description implies,
/// or those that it names.
#[derive(Debug, Clone, PartialEq, Eq)]
pub enum DefaultedFormOperations {
    Default,
    Custom(Vec<FormOperation>),
}

/// The model of `DefaultedFormOperations`.
pub enum Operations {
    Default,
    Custom(Seq<FormOperation>),
}

impl View for DefaultedFormOperations {
    type V = Operations;

    open spec fn view(&self) -> Operations {
        match self {
            DefaultedFormOperations::Default => Operations::Default,
            DefaultedFormOperations::Custom(operations) => Operations::Custom(operations@),
        }
    }
}

impl Default for DefaultedFormOperations {
    fn default() -> (operations: Self)
        ensures
            operations@ == Operations::Default,
    {
        DefaultedFormOperations::Default
    }
}

/// A form: the target of an operation, the content it exchanges and the
/// responses it expects. `T` extends the form and `E` its responses.
#[derive(Clone, Debug, PartialEq, Eq)]
pub struct Form<T: Buildable = Nil, E: Buildable = Nil> {
    pub op: DefaultedFormOperations,
    pub href: String,
    pub content_type: String,
    pub content_coding: Option<String>,
    pub subprotocol: Option<String>,
    pub security: Option<Vec<String>>,
    pub scopes: Option<Vec<String>>,
    pub response: Option<ExpectedResponse<E>>,
    pub additional_response: Option<AdditionalExpectedResponse<E>>,
    pub other: T,
}

/// The model of a `Form`.
pub struct FormModel<T, E> {
    pub op: Operations,
    pub href: Seq<char>,
    pub content_type: Seq<char>,
    pub content_coding: Option<Seq<char>>,
    pub subprotocol: Option<Seq<char>>,
    pub security: Option<Seq<Seq<char>>>,
    pub scopes: Option<Seq<Seq<char>>>,
    pub response: Option<ExpectedResponseModel<E>>,
    pub additional_response: Option<AdditionalExpectedResponseModel<E>>,
    pub other: T,
}

/// The name that an operation is written as.
pub open spec fn operation_name(operation: FormOperation) -> Seq<char> {
    match operation {
        FormOperation::ReadProperty => "readproperty"@,
        FormOperation::WriteProperty => "writeproperty"@,
        FormOperation::ObserveProperty => "observeproperty"@,
        FormOperation::UnobserveProperty => "unobserveproperty"@,
        FormOperation::InvokeAction => "invokeaction"@,
        FormOperation::QueryAction => "queryaction"@,
        FormOperation::CancelAction => "cancelaction"@,
        FormOperation::SubscribeEvent => "subscribeevent"@,
        FormOperation::UnsubscribeEvent => "unsubscribeevent"@,
        FormOperation::ReadAllProperties => "readallproperties"@,
        FormOperation::WriteAllProperties => "writeallproperties"@,
        FormOperation::ReadMultipleProperties => "readmultipleproperties"@,
        FormOperation::WriteMultipleProperties => "writemultipleproperties"@,
        FormOperation::ObserveAllProperties => "observeallproperties"@,
        FormOperation::UnobserveAllProperties => "unobserveallproperties"@,
        FormOperation::QueryAllActions => "queryallactions"@,
        FormOperation::SubscribeAllEvents => "subscribeallevents"@,
        FormOperation::UnsubscribeAllEvents => "unsubscribeallevents"@,
    }
}

/// The operation that a name stands for.
pub open spec fn operation_named(name: Seq<char>) -> Option<FormOperation> {
    if name == "readproperty"@ {
        Some(FormOperation::ReadProperty)
    } else if name == "writeproperty"@ {
        Some(FormOperation::WriteProperty)
    } else if name == "observeproperty"@ {
        Some(FormOperation::ObserveProperty)
    } else if name == "unobserveproperty"@ {
        Some(FormOperation::UnobserveProperty)
    } else if name == "invokeaction"@ {
        Some(FormOperation::InvokeAction)
    } else if name == "queryaction"@ {
        Some(FormOperation::QueryAction)
    } else if name == "cancelaction"@ {
        Some(FormOperation::CancelAction)
    } else if name == "subscribeevent"@ {
        Some(FormOperation::SubscribeEvent)
    } else if name == "unsubscribeevent"@ {
        Some(FormOperation::UnsubscribeEvent)
    } else if name == "readallproperties"@ {
        Some(FormOperation::ReadAllProperties)
    } else if name == "writeallproperties"@ {
        Some(FormOperation::WriteAllProperties)
    } else if name == "readmultipleproperties"@ {
        Some(FormOperation::ReadMultipleProperties)
    } else if name == "writemultipleproperties"@ {
        Some(FormOperation::WriteMultipleProperties)
    } else if name == "observeallproperties"@ {
        Some(FormOperation::ObserveAllProperties)
    } else if name == "unobserveallproperties"@ {
        Some(FormOperation::UnobserveAllProperties)
    } else if name == "queryallactions"@ {
        Some(FormOperation::QueryAllActions)
    } else if name == "subscribeallevents"@ {
        Some(FormOperation::SubscribeAllEvents)
    } else if name == "unsubscribeallevents"@ {
        Some(FormOperation::UnsubscribeAllEvents)
    } else {
        None
    }
}

/// No two operations have the same name.
pub proof fn lemma_operation_names(operation: FormOperation)
    ensures
        operation_named(operation_name(operation)) == Some(operation),
{
    reveal_strlit("readproperty");
    reveal_strlit("writeproperty");
    reveal_strlit("observeproperty");
    reveal_strlit("unobserveproperty");
    reveal_strlit("invokeaction");
    reveal_strlit("queryaction");
    reveal_strlit("cancelaction");
    reveal_strlit("subscribeevent");
    reveal_strlit("unsubscribeevent");
    reveal_strlit("readallproperties");
    reveal_strlit("writeallproperties");
    reveal_strlit("readmultipleproperties");
    reveal_strlit("writemultipleproperties");
    reveal_strlit("observeallproperties");
    reveal_strlit("unobserveallproperties");
    reveal_strlit("queryallactions");
    reveal_strlit("subscribeallevents");
    reveal_strlit("unsubscribeallevents");
    assert("readproperty"@.len() == 12 && "readproperty"@[0] == 'r');
    assert("writeproperty"@.len() == 13);
    assert("observeproperty"@.len() == 15 && "observeproperty"@[0] == 'o');
    assert("unobserveproperty"@.len() == 17 && "unobserveproperty"@[0] == 'u');
    assert("invokeaction"@.len() == 12 && "invokeaction"@[0] == 'i');
    assert("queryaction"@.len() == 11);
    assert("cancelaction"@.len() == 12 && "cancelaction"@[0] == 'c');
    assert("subscribeevent"@.len() == 14);
    assert("unsubscribeevent"@.len() == 16);
    assert("readallproperties"@.len() == 17 && "readallproperties"@[0] == 'r');
    assert("writeallproperties"@.len() == 18 && "writeallproperties"@[0] == 'w');
    assert("readmultipleproperties"@.len() == 22 && "readmultipleproperties"@[0] == 'r');
    assert("writemultipleproperties"@.len() == 23);
    assert("observeallproperties"@.len() == 20 && "observeallproperties"@[0] == 'o');
    assert("unobserveallproperties"@.len() == 22 && "unobserveallproperties"@[0] == 'u');
    assert("queryallactions"@.len() == 15 && "queryallactions"@[0] == 'q');
    assert("subscribeallevents"@.len() == 18 && "subscribeallevents"@[0] == 's');
    assert("unsubscribeallevents"@.len() == 20 && "unsubscribeallevents"@[0] == 'u');
}

/// The name of an operation.
pub fn name_of(operation: FormOperation) -> (name: String)
    ensures
        name@ == operation_name(operation),
{
    let name = match operation {
        FormOperation::ReadProperty => "readproperty",
        FormOperation::WriteProperty => "writeproperty",
        FormOperation::ObserveProperty => "observeproperty",
        FormOperation::UnobserveProperty => "unobserveproperty",
        FormOperation::InvokeAction => "invokeaction",
        FormOperation::QueryAction => "queryaction",
        FormOperation::CancelAction => "cancelaction",
        FormOperation::SubscribeEvent => "subscribeevent",
        FormOperation::UnsubscribeEvent => "unsubscribeevent",
        FormOperation::ReadAllProperties => "readallproperties",
        FormOperation::WriteAllProperties => "writeallproperties",
        FormOperation::ReadMultipleProperties => "readmultipleproperties",
        FormOperation::WriteMultipleProperties => "writemultipleproperties",
        FormOperation::ObserveAllProperties => "observeallproperties",
        FormOperation::UnobserveAllProperties => "unobserveallproperties",
        FormOperation::QueryAllActions => "queryallactions",
        FormOperation::SubscribeAllEvents => "subscribeallevents",
        FormOperation::UnsubscribeAllEvents => "unsubscribeallevents",
    };
    name.to_owned()
}

/// The operation with the given name, if there is one.
pub fn named(name: &String) -> (operation: Option<FormOperation>)
    ensures
        operation == operation_named(name@),
{
    if same_text(name, "readproperty") {
        Some(FormOperation::ReadProperty)
    } else if same_text(name, "writeproperty") {
        Some(FormOperation::WriteProperty)
    } else if same_text(name, "observeproperty") {
        Some(FormOperation::ObserveProperty)
    } else if same_text(name, "unobserveproperty") {
        Some(FormOperation::UnobserveProperty)
    } else if same_text(name, "invokeaction") {
        Some(FormOperation::InvokeAction)
    } else if same_text(name, "queryaction") {
        Some(FormOperation::QueryAction)
    } else if same_text(name, "cancelaction") {
        Some(FormOperation::CancelAction)
    } else if same_text(name, "subscribeevent") {
        Some(FormOperation::SubscribeEvent)
    } else if same_text(name, "unsubscribeevent") {
        Some(FormOperation::UnsubscribeEvent)
    } else if same_text(name, "readallproperties") {
        Some(FormOperation::ReadAllProperties)
    } else if same_text(name, "writeallproperties") {
        Some(FormOperation::WriteAllProperties)
    } else if same_text(name, "readmultipleproperties") {
        Some(FormOperation::ReadMultipleProperties)
    } else if same_text(name, "writemultipleproperties") {
        Some(FormOperation::WriteMultipleProperties)
    } else if same_text(name, "observeallproperties") {
        Some(FormOperation::ObserveAllProperties)
    } else if same_text(name, "unobserveallproperties") {
        Some(FormOperation::UnobserveAllProperties)
    } else if same_text(name, "queryallactions") {
        Some(FormOperation::QueryAllActions)
    } else if same_text(name, "subscribeallevents") {
        Some(FormOperation::SubscribeAllEvents)
    } else if same_text(name, "unsubscribeallevents") {
        Some(FormOperation::UnsubscribeAllEvents)
    } else {
        None
    }
}

/// Whether every name is the name of an operation.
pub open spec fn all_named(names: Seq<Seq<char>>) -> bool {
    forall|i: int| 0 <= i < names.len() ==> operation_named(#[trigger] names[i]) is Some
}

/// The operations that the names stand for.
pub open spec fn operations_named(names: Seq<Seq<char>>) -> Seq<FormOperation> {
    Seq::new(names.len(), |i: int| operation_named(names[i])->Some_0)
}

/// The names of the operations.
pub open spec fn operation_names(operations: Seq<FormOperation>) -> Seq<Seq<char>> {
    Seq::new(operations.len(), |i: int| operation_name(operations[i]))
}

/// The operations of a form, as its object gives them: one name or an array
/// of names. Where the key is missing, the operations are the implied ones.
pub open spec fn operations_at(object: Map<Seq<char>, Data>) -> Result<Operations, Failure> {
    if object.contains_key("op"@) && object["op"@] !is Null {
        match one_or_many(object["op"@]) {
            Err(failure) => Err(failure.under(Step::Key("op"@))),
            Ok(names) => if all_named(names) {
                Ok(Operations::Custom(operations_named(names)))
            } else {
                Err(Failure::root(ErrorKind::UnknownEnumVariant).under(Step::Key("op"@)))
            },
        }
    } else {
        Ok(Operations::Default)
    }
}

/// The document of the operations of a form: nothing for the implied ones,
/// and an array of names for the others.
pub open spec fn operations_data(operations: Operations) -> Option<Data> {
    match operations {
        Operations::Default => None,
        Operations::Custom(operations) => Some(text_array(operation_names(operations))),
    }
}

/// Reading the names of operations gives the operations back.
pub proof fn lemma_operations_round_trip(operations: Seq<FormOperation>)
    ensures
        all_named(operation_names(operations)),
        operations_named(operation_names(operations)) == operations,
        one_or_many(text_array(operation_names(operations))) == Ok::<Seq<Seq<char>>, Failure>(
            operation_names(operations),
        ),
{
    let names = operation_names(operations);
    assert forall|i: int| 0 <= i < names.len() implies operation_named(#[trigger] names[i])
        == Some(operations[i]) by {
        lemma_operation_names(operations[i]);
    }
    assert(operations_named(names) =~= operations);
    lemma_one_or_many(Seq::empty(), names);
}

/// Reads the operations of a form.
pub fn read_operations(entries: &Vec<(String, Value)>) -> (read: Result<
    DefaultedFormOperations,
    Error,
>)
    ensures
        match read {
            Ok(operations) => operations_at(object_map(entries@)) == Ok::<Operations, Failure>(
                operations@,
            ),
            Err(error) => operations_at(object_map(entries@)) == Err::<Operations, Failure>(error@),
        },
{
    let value = match find(entries, "op") {
        None => {
            return Ok(DefaultedFormOperations::Default);
        },
        Some(Value::Null) => {
            return Ok(DefaultedFormOperations::Default);
        },
        Some(value) => value,
    };
    let names = match read_one_or_many(value) {
        Ok(names) => names,
        Err(error) => {
            return Err(error.under_key("op"));
        },
    };
    let mut operations: Vec<FormOperation> = Vec::new();
    let mut i: usize = 0;
    while i < names.len()
        invariant
            i <= names.len(),
            operations.len() == i,
            object_map(entries@).contains_key("op"@),
            object_map(entries@)["op"@] !is Null,
            one_or_many(object_map(entries@)["op"@]) == Ok::<Seq<Seq<char>>, Failure>(
                text_views(names@),
            ),
            forall|j: int|
                0 <= j < i ==> operation_named(#[trigger] text_views(names@)[j]) == Some(
                    operations@[j],
                ),
        decreases names.len() - i,
    {
        match named(&names[i]) {
            Some(operation) => {
                operations.push(operation);
            },
            None => {
                proof {
                    assert(operation_named(text_views(names@)[i as int]) is None);
                    assert(!all_named(text_views(names@)));
                }
                return Err(Error::new(ErrorKind::UnknownEnumVariant).under_key("op"));
            },
        }
        i += 1;
    }
    proof {
        assert(all_named(text_views(names@)));
        assert(operations_named(text_views(names@)) =~= operations@);
    }
    Ok(DefaultedFormOperations::Custom(operations))
}

/// The document of the operations of a form, if they are written at all.
pub fn write_operations(operations: &DefaultedFormOperations) -> (written: Option<Value>)
    ensures
        operations_data(operations@) == match written {
            Some(value) => Some(value@),
            None => None,
        },
{
    match operations {
        DefaultedFormOperations::Default => None,
        DefaultedFormOperations::Custom(operations) => {
            let mut names: Vec<String> = Vec::new();
            let mut i: usize = 0;
            while i < operations.len()
                invariant
                    i <= operations.len(),
                    names.len() == i,
                    forall|j: int| 0 <= j < i ==> (#[trigger] names@[j])@ == operation_name(
                        operations@[j],
                    ),
                decreases operations.len() - i,
            {
                names.push(name_of(operations[i]));
                i += 1;
            }
            assert(text_views(names@) =~= operation_names(operations@));
            Some(write_texts(&names))
        },
    }
}

/// The content type of a form that names none.
pub fn default_content_type() -> (ty: String)
    ensures
        ty@ == "application/json"@,
{
    "application/json".to_owned()
}

/// The keys that a form claims for itself.
pub open spec fn form_keys() -> Set<Seq<char>> {
    set![
        "op"@,
        "href"@,
        "contentType"@,
        "contentCoding"@,
        "subprotocol"@,
        "security"@,
        "scopes"@,
        "response"@,
        "additionalResponse"@,
    ]
}

/// The keys of a form are all different.
pub proof fn lemma_keys_differ()
    ensures
        "op"@.len() == 2,
        "href"@.len() == 4,
        "contentType"@.len() == 11 && "contentType"@[0] == 'c',
        "contentCoding"@.len() == 13,
        "subprotocol"@.len() == 11 && "subprotocol"@[0] == 's',
        "security"@.len() == 8 && "security"@[0] == 's',
        "scopes"@.len() == 6,
        "response"@.len() == 8 && "response"@[0] == 'r',
        "additionalResponse"@.len() == 18,
{
    reveal_strlit("op");
    reveal_strlit("href");
    reveal_strlit("contentType");
    reveal_strlit("contentCoding");
    reveal_strlit("subprotocol");
    reveal_strlit("security");
    reveal_strlit("scopes");
    reveal_strlit("response");
    reveal_strlit("additionalResponse");
}

/// The fields that a form writes for itself, given the documents of its two
/// responses.
pub open spec fn own_fields<T, E>(
    model: FormModel<T, E>,
    response: Option<Data>,
    additional_response: Option<Data>,
) -> Map<Seq<char>, Data> {
    let fields = with_optional(Map::empty(), "op"@, operations_data(model.op));
    let fields = fields.insert("href"@, Data::Text(model.href));
    let fields = fields.insert("contentType"@, Data::Text(model.content_type));
    let fields = with_optional(fields, "contentCoding"@, optional_text_data(model.content_coding));
    let fields = with_optional(fields, "subprotocol"@, optional_text_data(model.subprotocol));
    let fields = with_optional(fields, "security"@, optional_texts_data(model.security));
    let fields = with_optional(fields, "scopes"@, optional_texts_data(model.scopes));
    let fields = with_optional(fields, "response"@, response);
    with_optional(fields, "additionalResponse"@, additional_response)
}

/// The names of the keys that a form claims for itself.
fn own_names() -> (names: Vec<String>)
    ensures
        name_set(names@) == form_keys(),
{
    let mut names: Vec<String> = Vec::new();
    names.push("op".to_owned());
    names.push("href".to_owned());
    names.push("contentType".to_owned());
    names.push("contentCoding".to_owned());
    names.push("subprotocol".to_owned());
    names.push("security".to_owned());
    names.push("scopes".to_owned());
    names.push("response".to_owned());
    names.push("additionalResponse".to_owned());
    proof {
        assert(names@[0]@ == "op"@);
        assert(names@[1]@ == "href"@);
        assert(names@[2]@ == "contentType"@);
        assert(names@[3]@ == "contentCoding"@);
        assert(names@[4]@ == "subprotocol"@);
        assert(names@[5]@ == "security"@);
        assert(names@[6]@ == "scopes"@);
        assert(names@[7]@ == "response"@);
        assert(names@[8]@ == "additionalResponse"@);
        assert(name_set(names@) =~= form_keys());
    }
    names
}

impl<T: Buildable + Wire, E: Buildable + Wire> Wire for Form<T, E> {
    type Model = FormModel<T::Model, E::Model>;

    open spec fn lawful() -> bool {
        T::lawful() && E::lawful()
    }

    open spec fn model(&self) -> FormModel<T::Model, E::Model> {
        FormModel {
            op: self.op@,
            href: self.href@,
            content_type: self.content_type@,
            content_coding: optional_text_view(self.content_coding),
            subprotocol: optional_text_view(self.subprotocol),
            security: optional_text_views(self.security),
            scopes: optional_text_views(self.scopes),
            response: optional_model(self.response),
            additional_response: optional_model(self.additional_response),
            other: self.other.model(),
        }
    }

    open spec fn keys() -> Set<Seq<char>> {
        form_keys().union(T::keys())
    }

    /// A form is written as one object: its own fields, those that are absent
    /// left out, and the fields of its extension beside them. Lists of texts
    /// are written as arrays, and each response as an object of its own.
    open spec fn encode(model: FormModel<T::Model, E::Model>) -> Result<Data, Failure> {
        if !form_keys().disjoint(T::keys()) {
            Err(Failure::root(ErrorKind::KeyCollision))
        } else {
            match optional_record_data::<ExpectedResponse<E>>(model.response, "response"@) {
                Err(failure) => Err(failure),
                Ok(response) => match optional_record_data::<AdditionalExpectedResponse<E>>(
                    model.additional_response,
                    "additionalResponse"@,
                ) {
                    Err(failure) => Err(failure),
                    Ok(additional_response) => merge(
                        Ok(Data::Object(own_fields(model, response, additional_response))),
                        T::encode(model.other),
                    ),
                },
            }
        }
    }

    /// A form is read from an object that has a target. A missing content
    /// type stands for `application/json`, and missing operations for the
    /// implied ones. The extension is read from the same object.
    open spec fn decode(data: Data) -> Result<FormModel<T::Model, E::Model>, Failure> {
        if !form_keys().disjoint(T::keys()) {
            Err(Failure::root(ErrorKind::KeyCollision))
        } else {
            match data {
                Data::Object(object) => match operations_at(object) {
                    Err(failure) => Err(failure),
                    Ok(op) => match text_at(object, "href"@) {
                        Err(failure) => Err(failure),
                        Ok(href) => match text_or_at(
                            object,
                            "contentType"@,
                            "application/json"@,
                        ) {
                            Err(failure) => Err(failure),
                            Ok(content_type) => match optional_text_at(object, "contentCoding"@) {
                                Err(failure) => Err(failure),
                                Ok(content_coding) => match optional_text_at(
                                    object,
                                    "subprotocol"@,
                                ) {
                                    Err(failure) => Err(failure),
                                    Ok(subprotocol) => match optional_texts_at(
                                        object,
                                        "security"@,
                                    ) {
                                        Err(failure) => Err(failure),
                                        Ok(security) => match optional_texts_at(object, "scopes"@) {
                                            Err(failure) => Err(failure),
                                            Ok(scopes) => match optional_record_at::<
                                                ExpectedResponse<E>,
                                            >(object, "response"@) {
                                                Err(failure) => Err(failure),
                                                Ok(response) => match optional_record_at::<
                                                    AdditionalExpectedResponse<E>,
                                                >(object, "additionalResponse"@) {
                                                    Err(failure) => Err(failure),
                                                    Ok(additional_response) => match T::decode(
                                                        data,
                                                    ) {
                                                        Err(failure) => Err(failure),
                                                        Ok(other) => Ok(
                                                            FormModel {
                                                                op,
                                                                href,
                                                                content_type,
                                                                content_coding,
                                                                subprotocol,
                                                                security,
                                                                scopes,
                                                                response,
                                                                additional_response,
                                                                other,
                                                            },
                                                        ),
                                                    },
                                                },
                                            },
                                        },
                                    },
                                },
                            },
                        },
                    },
                },
                _ => Err(Failure::root(ErrorKind::SchemaViolation)),
            }
        }
    }

    fn field_names() -> (names: Vec<String>) {
        let mut names = own_names();
        let ghost own = names@;
        let mut more = T::field_names();
        let ghost other = more@;
        names.append(&mut more);
        proof {
            lemma_names_concat(own, other);
        }
        names
    }

    fn to_value(&self) -> (written: Result<Value, Error>) {
        if !claims_apart::<T>(&own_names()) {
            return Err(Error::new(ErrorKind::KeyCollision));
        }
        let response = match write_optional_record(&self.response, "response") {
            Ok(response) => response,
            Err(error) => {
                return Err(error);
            },
        };
        let additional_response = match write_optional_record(
            &self.additional_response,
            "additionalResponse",
        ) {
            Ok(additional_response) => additional_response,
            Err(error) => {
                return Err(error);
            },
        };
        let mut entries: Vec<(String, Value)> = Vec::new();
        proof {
            lemma_keys_differ();
            assert(object_map(entries@) =~= Map::empty());
        }
        put_optional(&mut entries, "op", write_operations(&self.op));
        put_text(&mut entries, "href", &self.href);
        put_text(&mut entries, "contentType", &self.content_type);
        put_optional_text(&mut entries, "contentCoding", &self.content_coding);
        put_optional_text(&mut entries, "subprotocol", &self.subprotocol);
        put_optional_texts(&mut entries, "security", &self.security);
        put_optional_texts(&mut entries, "scopes", &self.scopes);
        put_optional(&mut entries, "response", response);
        put_optional(&mut entries, "additionalResponse", additional_response);
        flatten_into(entries, &self.other)
    }

    fn from_value(value: &Value) -> (read: Result<Self, Error>) {
        if !claims_apart::<T>(&own_names()) {
            return Err(Error::new(ErrorKind::KeyCollision));
        }
        let entries = match value {
            Value::Object(entries) => entries,
            _ => {
                return Err(Error::new(ErrorKind::SchemaViolation));
            },
        };
        let op = match read_operations(entries) {
            Ok(op) => op,
            Err(error) => {
                return Err(error);
            },
        };
        let href = match read_text(entries, "href") {
            Ok(href) => href,
            Err(error) => {
                return Err(error);
            },
        };
        let content_type = match read_text_or(entries, "contentType", "application/json") {
            Ok(content_type) => content_type,
            Err(error) => {
                return Err(error);
            },
        };
        let content_coding = match read_optional_text(entries, "contentCoding") {
            Ok(content_coding) => content_coding,
            Err(error) => {
                return Err(error);
            },
        };
        let subprotocol = match read_optional_text(entries, "subprotocol") {
            Ok(subprotocol) => subprotocol,
            Err(error) => {
                return Err(error);
            },
        };
        let security = match read_optional_texts(entries, "security") {
            Ok(security) => security,
            Err(error) => {
                return Err(error);
            },
        };
        let scopes = match read_optional_texts(entries, "scopes") {
            Ok(scopes) => scopes,
            Err(error) => {
                return Err(error);
            },
        };
        let response = match read_optional_record::<ExpectedResponse<E>>(entries, "response") {
            Ok(response) => response,
            Err(error) => {
                return Err(error);
            },
        };
        let additional_response = match read_optional_record::<AdditionalExpectedResponse<E>>(
            entries,
            "additionalResponse",
        ) {
            Ok(additional_response) => additional_response,
            Err(error) => {
                return Err(error);
            },
        };
        let other = match T::from_value(value) {
            Ok(other) => other,
            Err(error) => {
                return Err(error);
            },
        };
        Ok(
            Form {
                op,
                href,
                content_type,
                content_coding,
                subprotocol,
                security,
                scopes,
                response,
                additional_response,
                other,
            },
        )
    }
}

impl<T: Buildable + WireLaws, E: Buildable + WireLaws> WireLaws for Form<T, E> {
    proof fn lemma_lawful() {
        T::lemma_lawful();
        E::lemma_lawful();
    }

    proof fn lemma_round_trip(model: FormModel<T::Model, E::Model>) {
        lemma_keys_differ();
        T::lemma_encode_keys(model.other);
        let response = optional_record_data::<ExpectedResponse<E>>(
            model.response,
            "response"@,
        )->Ok_0;
        let additional_response = optional_record_data::<AdditionalExpectedResponse<E>>(
            model.additional_response,
            "additionalResponse"@,
        )->Ok_0;
        let own = own_fields(model, response, additional_response);
        let other = T::encode(model.other)->Ok_0->Object_0;
        let whole = other.union_prefer_right(own);
        assert(form_keys().contains("op"@) && form_keys().contains("href"@));
        assert(form_keys().contains("contentType"@) && form_keys().contains("contentCoding"@));
        assert(form_keys().contains("subprotocol"@) && form_keys().contains("security"@));
        assert(form_keys().contains("scopes"@) && form_keys().contains("response"@));
        assert(form_keys().contains("additionalResponse"@));
        assert(own.dom().subset_of(form_keys()));
        assert(whole.restrict(T::keys()) =~= other.restrict(T::keys()));
        T::lemma_decode_frame(whole, other);
        T::lemma_round_trip(model.other);
        if let Operations::Custom(operations) = model.op {
            lemma_operations_round_trip(operations);
        }
        if let Some(texts) = model.security {
            lemma_one_or_many(Seq::empty(), texts);
        }
        if let Some(texts) = model.scopes {
            lemma_one_or_many(Seq::empty(), texts);
        }
        if let Some(record) = model.response {
            ExpectedResponse::<E>::lemma_round_trip(record);
        }
        if let Some(record) = model.additional_response {
            AdditionalExpectedResponse::<E>::lemma_round_trip(record);
        }
    }

    proof fn lemma_encode_keys(model: FormModel<T::Model, E::Model>) {
        T::lemma_encode_keys(model.other);
    }

    proof fn lemma_decode_frame(a: Map<Seq<char>, Data>, b: Map<Seq<char>, Data>) {
        lemma_restrict_agrees(a, b, Self::keys(), "op"@);
        lemma_restrict_agrees(a, b, Self::keys(), "href"@);
        lemma_restrict_agrees(a, b, Self::keys(), "contentType"@);
        lemma_restrict_agrees(a, b, Self::keys(), "contentCoding"@);
        lemma_restrict_agrees(a, b, Self::keys(), "subprotocol"@);
        lemma_restrict_agrees(a, b, Self::keys(), "security"@);
        lemma_restrict_agrees(a, b, Self::keys(), "scopes"@);
        lemma_restrict_agrees(a, b, Self::keys(), "response"@);
        lemma_restrict_agrees(a, b, Self::keys(), "additionalResponse"@);
        assert(a.restrict(T::keys()) =~= a.restrict(Self::keys()).restrict(T::keys()));
        assert(b.restrict(T::keys()) =~= b.restrict(Self::keys()).restrict(T::keys()));
        T::lemma_decode_frame(a, b);
    }
}

/// A form that is read from an object without a content type has the content
/// type `application/json`, and says so when it is written.
pub proof fn lemma_default_content_type<T: Buildable + Wire, E: Buildable + Wire>(
    object: Map<Seq<char>, Data>,
    form: FormModel<T::Model, E::Model>,
)
    requires
        !object.contains_key("contentType"@),
        Form::<T, E>::decode(Data::Object(object)) == Ok::<FormModel<T::Model, E::Model>, Failure>(
            form,
        ),
    ensures
        form.content_type == "application/json"@,
        Form::<T, E>::encode(form) matches Ok(Data::Object(written)) ==> written.contains_key(
            "contentType"@,
        ) && written["contentType"@] == Data::Text("application/json"@),
{
    lemma_keys_differ();
}

/// In a field that holds one text or several, a single text and the array
/// that holds it alone are read as the same list.
pub proof fn lemma_one_or_many_field(object: Map<Seq<char>, Data>, key: Seq<char>, text: Seq<char>)
    ensures
        optional_texts_at(object.insert(key, Data::Text(text)), key) == optional_texts_at(
            object.insert(key, Data::Array(seq![Data::Text(text)])),
            key,
        ),
        optional_texts_at(object.insert(key, Data::Text(text)), key) == Ok::<
            Option<Seq<Seq<char>>>,
            Failure,
        >(Some(seq![text])),
{
    lemma_one_or_many(text, Seq::empty());
}

/// A form that names security schemes or scopes is written with an array of
/// the names, however many there are.
pub proof fn lemma_names_written_as_arrays<T: Buildable + Wire, E: Buildable + Wire>(
    form: FormModel<T::Model, E::Model>,
)
    ensures
        Form::<T, E>::encode(form) matches Ok(Data::Object(written)) ==> {
            &&& form.security matches Some(names) ==> written.contains_key("security"@)
                && written["security"@] == text_array(names)
            &&& form.scopes matches Some(names) ==> written.contains_key("scopes"@)
                && written["scopes"@] == text_array(names)
        },
{
    lemma_keys_differ();
}

/// A form whose security is given as a single name is the form whose
/// security is given as the array of that name alone.
pub proof fn lemma_security_one_or_many<T: Buildable + WireLaws, E: Buildable + Wire>(
    object: Map<Seq<char>, Data>,
    name: Seq<char>,
)
    ensures
        Form::<T, E>::decode(Data::Object(object.insert("security"@, Data::Text(name))))
            == Form::<T, E>::decode(
            Data::Object(object.insert("security"@, Data::Array(seq![Data::Text(name)]))),
        ),
{
    lemma_keys_differ();
    lemma_one_or_many_field(object, "security"@, name);
    let one = object.insert("security"@, Data::Text(name));
    let many = object.insert("security"@, Data::Array(seq![Data::Text(name)]));
    if form_keys().disjoint(T::keys()) {
        assert(form_keys().contains("security"@));
        assert(one.restrict(T::keys()) =~= many.restrict(T::keys()));
        T::lemma_decode_frame(one, many);
    }
}

impl<T: Buildable, E: Buildable> Default for Form<T, E> {
    fn default() -> (form: Self)
        ensures
            form.op@ == Operations::Default,
            form.href@ == Seq::<char>::empty(),
            form.content_type@ == "application/json"@,
            form.content_coding is None,
            form.subprotocol is None,
            form.security is None,
            form.scopes is None,
            form.response is None,
            form.additional_response is None,
            call_ensures(T::default, (), form.other),
    {
        Form {
            op: DefaultedFormOperations::Default,
            href: String::new(),
            content_type: default_content_type(),
            content_coding: None,
            subprotocol: None,
            security: None,
            scopes: None,
            response: None,
            additional_response: None,
            other: T::default(),
        }
    }
}

/// Builds a `Form`.
pub struct FormBuilder<T: Builder = Nil, E: Buildable = Nil> {
    pub op: DefaultedFormOperations,
    pub href: String,
    pub content_type: String,
    pub content_coding: Option<String>,
    pub subprotocol: Option<String>,
    pub security: Option<Vec<String>>,
    pub scopes: Option<Vec<String>>,
    pub response: Option<ExpectedResponse<E>>,
    pub additional_response: Option<AdditionalExpectedResponse<E>>,
    pub other: T,
}

impl<T: Builder, E: Buildable> Default for FormBuilder<T, E> {
    fn default() -> (builder: Self)
        ensures
            builder.blank(),
            call_ensures(T::default, (), builder.other),
    {
        FormBuilder {
            op: DefaultedFormOperations::Default,
            href: String::new(),
            content_type: default_content_type(),
            content_coding: None,
            subprotocol: None,
            security: None,
            scopes: None,
            response: None,
            additional_response: None,
            other: T::default(),
        }
    }
}

/// The operations with one more at their end; the implied operations count as
/// none.
pub open spec fn with_operation(operations: Operations, operation: FormOperation) -> Operations {
    match operations {
        Operations::Default => Operations::Custom(seq![operation]),
        Operations::Custom(operations) => Operations::Custom(operations.push(operation)),
    }
}

impl<T: Builder, E: Buildable> FormBuilder<T, E> {
    /// Nothing but the extension was set: the operations are the implied
    /// ones, the target is empty and the content type is `application/json`.
    pub open spec fn blank(self) -> bool {
        &&& self.op@ == Operations::Default
        &&& self.href@ == Seq::<char>::empty()
        &&& self.content_type@ == "application/json"@
        &&& self.content_coding is None
        &&& self.subprotocol is None
        &&& self.security is None
        &&& self.scopes is None
        &&& self.response is None
        &&& self.additional_response is None
    }

    /// Names one more operation.
    pub fn op(self, operation: FormOperation) -> (builder: Self)
        ensures
            builder.op@ == with_operation(self.op@, operation),
            builder == (FormBuilder { op: builder.op, ..self }),
    {
        let mut builder = self;
        let mut operations = match builder.op {
            DefaultedFormOperations::Default => Vec::new(),
            DefaultedFormOperations::Custom(operations) => operations,
        };
        operations.push(operation);
        builder.op = DefaultedFormOperations::Custom(operations);
        builder
    }

    /// Sets the target.
    pub fn href(self, href: &str) -> (builder: Self)
        ensures
            builder.href@ == href@,
            builder == (FormBuilder { href: builder.href, ..self }),
    {
        let mut builder = self;
        builder.href = href.to_owned();
        builder
    }

    /// Sets the content type.
    pub fn content_type(self, ty: &str) -> (builder: Self)
        ensures
            builder.content_type@ == ty@,
            builder == (FormBuilder { content_type: builder.content_type, ..self }),
    {
        let mut builder = self;
        builder.content_type = ty.to_owned();
        builder
    }

    /// Sets the content coding.
    pub fn content_coding(self, coding: &str) -> (builder: Self)
        ensures
            optional_text_view(builder.content_coding) == Some(coding@),
            builder == (FormBuilder { content_coding: builder.content_coding, ..self }),
    {
        let mut builder = self;
        builder.content_coding = Some(coding.to_owned());
        builder
    }

    /// Sets the subprotocol.
    pub fn subprotocol(self, subprotocol: &str) -> (builder: Self)
        ensures
            optional_text_view(builder.subprotocol) == Some(subprotocol@),
            builder == (FormBuilder { subprotocol: builder.subprotocol, ..self }),
    {
        let mut builder = self;
        builder.subprotocol = Some(subprotocol.to_owned());
        builder
    }

    /// Names one more security scheme.
    pub fn security(self, name: &str) -> (builder: Self)
        ensures
            optional_text_views(builder.security) == with_name(
                optional_text_views(self.security),
                name@,
            ),
            builder == (FormBuilder { security: builder.security, ..self }),
    {
        let FormBuilder {
            op,
            href,
            content_type,
            content_coding,
            subprotocol,
            security,
            scopes,
            response,
            additional_response,
            other,
        } = self;
        let security = push_name(security, name);
        FormBuilder {
            op,
            href,
            content_type,
            content_coding,
            subprotocol,
            security,
            scopes,
            response,
            additional_response,
            other,
        }
    }

    /// Names one more scope.
    pub fn scope(self, name: &str) -> (builder: Self)
        ensures
            optional_text_views(builder.scopes) == with_name(
                optional_text_views(self.scopes),
                name@,
            ),
            builder == (FormBuilder { scopes: builder.scopes, ..self }),
    {
        let FormBuilder {
            op,
            href,
            content_type,
            content_coding,
            subprotocol,
            security,
            scopes,
            response,
            additional_response,
            other,
        } = self;
        let scopes = push_name(scopes, name);
        FormBuilder {
            op,
            href,
            content_type,
            content_coding,
            subprotocol,
            security,
            scopes,
            response,
            additional_response,
            other,
        }
    }

    /// Sets the response expected on success.
    pub fn response(self, response: ExpectedResponse<E>) -> (builder: Self)
        ensures
            builder == (FormBuilder { response: Some(response), ..self }),
    {
        let mut builder = self;
        builder.response = Some(response);
        builder
    }

    /// Sets the further response.
    pub fn additional_response(self, response: AdditionalExpectedResponse<E>) -> (builder: Self)
        ensures
            builder == (FormBuilder { additional_response: Some(response), ..self }),
    {
        let mut builder = self;
        builder.additional_response = Some(response);
        builder
    }

    /// What `other` promises: `builder` is this builder but for the
    /// extension, which is a result of `f` on the extension of this one.
    pub open spec fn other_post<F: FnOnce(T) -> T>(self, f: F, builder: Self) -> bool {
        f.ensures((self.other,), builder.other) && builder == (FormBuilder {
            other: builder.other,
            ..self
        })
    }

    /// Lets `f` work on the builder of the extension and keeps what it returns.
    pub fn other<F: FnOnce(T) -> T>(self, f: F) -> (builder: Self)
        requires
            f.requires((self.other,)),
        ensures
            self.other_post(f, builder),
    {
        let FormBuilder {
            op,
            href,
            content_type,
            content_coding,
            subprotocol,
            security,
            scopes,
            response,
            additional_response,
            other,
        } = self;
        let other = f(other);
        FormBuilder {
            op,
            href,
            content_type,
            content_coding,
            subprotocol,
            security,
            scopes,
            response,
            additional_response,
            other,
        }
    }
}

impl<T: Builder, E: Buildable> Builder for FormBuilder<T, E> where T::B: Buildable {
    type B = Form<T::B, E>;

    open spec fn built(self) -> Form<T::B, E> {
        Form {
            op: self.op,
            href: self.href,
            content_type: self.content_type,
            content_coding: self.content_coding,
            subprotocol: self.subprotocol,
            security: self.security,
            scopes: self.scopes,
            response: self.response,
            additional_response: self.additional_response,
            other: self.other.built(),
        }
    }

    fn build(self) -> Form<T::B, E> {
        let FormBuilder {
            op,
            href,
            content_type,
            content_coding,
            subprotocol,
            security,
            scopes,
            response,
            additional_response,
            other,
        } = self;
        let other = other.build();
        Form {
            op,
            href,
            content_type,
            content_coding,
            subprotocol,
            security,
            scopes,
            response,
            additional_response,
            other,
        }
    }
}

impl<T, E> Buildable for Form<T, E> where
    T: Buildable,
    E: Buildable,
    <T::B as Builder>::B: Buildable,
 {
    type B = FormBuilder<T::B, E>;

    open spec fn fresh(builder: FormBuilder<T::B, E>) -> bool {
        builder.blank() && T::fresh(builder.other)
    }

    fn builder() -> FormBuilder<T::B, E> {
        FormBuilder {
            op: DefaultedFormOperations::Default,
            href: String::new(),
            content_type: default_content_type(),
            content_coding: None,
            subprotocol: None,
            security: None,
            scopes: None,
            response: None,
            additional_response: None,
            other: T::builder(),
        }
    }
}

/// Building after `other(f)` on a fresh builder gives the form whose
/// extension is built from what `f` made of a fresh builder of the extension.
pub proof fn lemma_other_then_build<T, E, F>(
    fresh: FormBuilder<T::B, E>,
    f: F,
    changed: FormBuilder<T::B, E>,
) where T: Buildable, E: Buildable, <T::B as Builder>::B: Buildable, F: FnOnce(T::B) -> T::B
    requires
        Form::<T, E>::fresh(fresh),
        fresh.other_post(f, changed),
    ensures
        T::fresh(fresh.other),
        f.ensures((fresh.other,), changed.other),
        changed.built().other == changed.other.built(),
        changed.blank(),
{
}

} // verus!
